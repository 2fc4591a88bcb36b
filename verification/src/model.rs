use vstd::prelude::*;

verus! {

/// The two shell configurations the application can be displayed in.
#[derive(Clone, Copy, Debug, PartialEq, Eq, Structural)]
pub enum AppMode {
    /// The full, freely placed and resizable window.
    Normal,
    /// The compact window that lives next to the tray icon.
    TrayApp,
}

impl AppMode {
    /// The value of the persisted `is_tray_app` flag that stands for this mode.
    pub open spec fn flag(self) -> bool {
        self is TrayApp
    }

    /// The mode a persisted `is_tray_app` flag stands for.
    pub open spec fn of_flag(flag: bool) -> AppMode {
        if flag {
            AppMode::TrayApp
        } else {
            AppMode::Normal
        }
    }

    /// The other mode.
    pub open spec fn other(self) -> AppMode {
        match self {
            AppMode::Normal => AppMode::TrayApp,
            AppMode::TrayApp => AppMode::Normal,
        }
    }

    /// The value of the persisted `is_tray_app` flag that stands for this mode.
    pub fn is_tray_app(self) -> (flag: bool)
        ensures
            flag == self.flag(),
    {
        match self {
            AppMode::Normal => false,
            AppMode::TrayApp => true,
        }
    }

    /// The mode a persisted `is_tray_app` flag stands for.
    pub fn from_flag(flag: bool) -> (mode: AppMode)
        ensures
            mode == AppMode::of_flag(flag),
    {
        if flag {
            AppMode::TrayApp
        } else {
            AppMode::Normal
        }
    }

    /// The other mode.
    pub fn toggled(self) -> (mode: AppMode)
        ensures
            mode == self.other(),
    {
        match self {
            AppMode::Normal => AppMode::TrayApp,
            AppMode::TrayApp => AppMode::Normal,
        }
    }
}

/// The picture shown in the tray; it says nothing about the mode.
#[derive(Clone, Copy, Debug, PartialEq, Eq, Structural)]
pub enum TrayIconKind {
    /// The resting icon.
    Base,
    /// The icon that announces unseen notifications.
    New,
}

/// Size, placement and chrome of a window at one instant.
///
/// Sizes are logical pixels, positions physical pixels, as the host reports them.
#[derive(Clone, Copy, Debug, PartialEq, Eq, Structural)]
pub struct WindowSnapshot {
    pub width: u32,
    pub height: u32,
    pub x: i32,
    pub y: i32,
    pub decorated: bool,
    pub resizable: bool,
}

/// What the host platform can do, asked once at startup.
#[derive(Clone, Copy, Debug, PartialEq, Eq, Structural)]
pub struct Platform {
    /// The tray can show a text beside its icon.
    pub tray_title: bool,
    /// Windows carry native close, miniaturize and zoom buttons that can be hidden one by one.
    pub native_buttons: bool,
    /// Hiding a window does not give up the foreground: the process must release it.
    pub sticky_foreground: bool,
    /// The system hands a custom-scheme request to a starting process by itself.
    pub launch_scheme: bool,
    /// Tray icons are template images, and come as assets of their own.
    pub template_icons: bool,
}

/// Width of the tray-mode window, in logical pixels.
pub const TRAY_WIDTH: u32 = 400;

/// Height of the tray-mode window, in logical pixels.
pub const TRAY_HEIGHT: u32 = 600;

/// Horizontal coordinate of the placement sentinel.
pub const SENTINEL_X: i32 = 100;

/// Vertical coordinate of the placement sentinel.
pub const SENTINEL_Y: i32 = 100;

impl Platform {
    /// The capabilities of macOS.
    pub open spec fn spec_macos() -> Platform {
        Platform {
            tray_title: true,
            native_buttons: true,
            sticky_foreground: true,
            launch_scheme: true,
            template_icons: true,
        }
    }

    /// The capabilities of every other desktop.
    pub open spec fn spec_standard() -> Platform {
        Platform {
            tray_title: false,
            native_buttons: false,
            sticky_foreground: false,
            launch_scheme: false,
            template_icons: false,
        }
    }

    /// The capabilities of macOS.
    #[verifier::when_used_as_spec(spec_macos)]
    pub fn macos() -> (platform: Platform)
        ensures
            platform == Platform::spec_macos(),
    {
        Platform {
            tray_title: true,
            native_buttons: true,
            sticky_foreground: true,
            launch_scheme: true,
            template_icons: true,
        }
    }

    /// The capabilities of every other desktop.
    #[verifier::when_used_as_spec(spec_standard)]
    pub fn standard() -> (platform: Platform)
        ensures
            platform == Platform::spec_standard(),
    {
        Platform {
            tray_title: false,
            native_buttons: false,
            sticky_foreground: false,
            launch_scheme: false,
            template_icons: false,
        }
    }
}

} // verus!
