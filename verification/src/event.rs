use crate::model::{AppMode, WindowSnapshot};
use crate::text::same_text;
use vstd::prelude::*;

verus! {

/// An entry of the tray menu, told by its identifier.
#[derive(Clone, Copy, Debug, PartialEq, Eq, Structural)]
pub enum MenuItem {
    /// `"title"`: the disabled heading.
    Title,
    /// `"text"`: the secondary line.
    Text,
    /// `"focus"`: bring the main window up.
    Focus,
    /// `"dashboard"`: bring the main window up.
    Dashboard,
    /// `"toggle"`: change to the other mode.
    Toggle,
    /// `"quit"`: end the process.
    Quit,
    /// Any other identifier.
    Unknown,
}

impl MenuItem {
    /// The entry that an identifier stands for.
    pub open spec fn named(id: Seq<char>) -> MenuItem {
        if id == "title"@ {
            MenuItem::Title
        } else if id == "text"@ {
            MenuItem::Text
        } else if id == "focus"@ {
            MenuItem::Focus
        } else if id == "dashboard"@ {
            MenuItem::Dashboard
        } else if id == "toggle"@ {
            MenuItem::Toggle
        } else if id == "quit"@ {
            MenuItem::Quit
        } else {
            MenuItem::Unknown
        }
    }

    /// Reads a menu identifier.
    pub fn of_id(id: &str) -> (item: MenuItem)
        ensures
            item == MenuItem::named(id@),
    {
        if same_text(id, "title") {
            MenuItem::Title
        } else if same_text(id, "text") {
            MenuItem::Text
        } else if same_text(id, "focus") {
            MenuItem::Focus
        } else if same_text(id, "dashboard") {
            MenuItem::Dashboard
        } else if same_text(id, "toggle") {
            MenuItem::Toggle
        } else if same_text(id, "quit") {
            MenuItem::Quit
        } else {
            MenuItem::Unknown
        }
    }
}

/// The part a window plays, told by its label.
#[derive(Clone, Copy, Debug, PartialEq, Eq, Structural)]
pub enum WindowRole {
    /// `"main"`: the content window, which is also the window shown in tray mode.
    Main,
    /// Any other window.
    Secondary,
}

impl WindowRole {
    /// The part played by the window with this label.
    pub open spec fn labelled(label: Seq<char>) -> WindowRole {
        if label == "main"@ {
            WindowRole::Main
        } else {
            WindowRole::Secondary
        }
    }

    /// Reads a window label.
    pub fn of_label(label: &str) -> (role: WindowRole)
        ensures
            role == WindowRole::labelled(label@),
    {
        if same_text(label, "main") {
            WindowRole::Main
        } else {
            WindowRole::Secondary
        }
    }
}

/// Something that happened and that the shell must react to. Each event carries
/// what the host saw of the window at that instant, as far as the reaction depends on it.
#[derive(Clone, Copy, Debug, PartialEq, Eq, Structural)]
pub enum Event {
    /// The user interface asks for a mode; `live` is the main window as it stands.
    ModeRequested { target: AppMode, live: WindowSnapshot },
    /// The tray icon was clicked; `visible` says whether the main window is shown.
    TrayClicked { visible: bool },
    /// A tray menu entry was clicked; `live` is the main window as it stands.
    MenuItemClicked { item: MenuItem, live: WindowSnapshot },
    /// A window lost the focus.
    FocusLost { window: WindowRole },
    /// The user asked to close a window.
    CloseRequested,
    /// A window arrived at a new position.
    Moved { x: i32, y: i32 },
}

} // verus!
