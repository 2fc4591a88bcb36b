use crate::model::{AppMode, WindowSnapshot};
use vstd::prelude::*;

verus! {

/// One of the three standard buttons in a window's title bar.
#[derive(Clone, Copy, Debug, PartialEq, Eq, Structural)]
pub enum WindowButton {
    Close,
    Miniaturize,
    Zoom,
}

/// One thing the host is asked to do on behalf of the shell.
///
/// Window effects address the subject of the event being handled: the main
/// window for tray, menu and mode events, the window that raised the signal
/// for window events.
#[derive(Clone, Copy, Debug, PartialEq, Eq, Structural)]
pub enum Effect {
    /// Write the snapshot to the window geometry memory.
    Remember(WindowSnapshot),
    /// Give the window this size, in logical pixels.
    Resize { width: u32, height: u32 },
    /// Put the window at this position, in physical pixels.
    MoveTo { x: i32, y: i32 },
    /// Put the window at the tray anchor.
    SnapToTray,
    SetResizable(bool),
    SetDecorations(bool),
    SetButtonHidden { button: WindowButton, hidden: bool },
    Show,
    Hide,
    Focus,
    /// Have the process give up the foreground.
    ReleaseActivation,
    /// Refuse the close request that is being handled.
    VetoClose,
    /// Write `is_tray_app` to the preference store.
    StorePreference(bool),
    /// Rebuild the tray icon and menu for this mode.
    RefreshTray(AppMode),
    /// End the process.
    Quit,
}

/// Which title-bar buttons of a window are hidden.
pub struct HiddenButtons {
    pub close: bool,
    pub miniaturize: bool,
    pub zoom: bool,
}

impl HiddenButtons {
    /// The same buttons, but for `button`, which is hidden or shown as `hidden` says.
    pub open spec fn with(self, button: WindowButton, hidden: bool) -> HiddenButtons {
        match button {
            WindowButton::Close => HiddenButtons { close: hidden, ..self },
            WindowButton::Miniaturize => HiddenButtons { miniaturize: hidden, ..self },
            WindowButton::Zoom => HiddenButtons { zoom: hidden, ..self },
        }
    }

    /// All three buttons are hidden.
    pub open spec fn all(self) -> bool {
        self.close && self.miniaturize && self.zoom
    }
}

/// What the effects act on, as far as the shell's guarantees speak of it:
/// the subject window, the two durable stores, the tray and the process.
pub struct Desktop {
    /// Geometry and chrome of the window.
    pub window: WindowSnapshot,
    pub hidden_buttons: HiddenButtons,
    pub visible: bool,
    pub focused: bool,
    /// The window sits at the tray anchor.
    pub anchored: bool,
    /// The close request in progress, if there is one, has been refused.
    pub close_vetoed: bool,
    /// Content of the window geometry memory.
    pub remembered: Option<WindowSnapshot>,
    /// Content of the preference store.
    pub stored: bool,
    /// The mode that the tray was last built for.
    pub tray: Option<AppMode>,
    /// The process holds the foreground.
    pub active: bool,
    /// The process has not been ended.
    pub running: bool,
}

impl Desktop {
    /// The desktop after the host has carried out `effect` without failure.
    pub open spec fn perform(self, effect: Effect) -> Desktop {
        match effect {
            Effect::Remember(snapshot) => Desktop { remembered: Some(snapshot), ..self },
            Effect::Resize { width, height } => Desktop {
                window: WindowSnapshot { width, height, ..self.window },
                anchored: false,
                ..self
            },
            Effect::MoveTo { x, y } => Desktop {
                window: WindowSnapshot { x, y, ..self.window },
                anchored: false,
                ..self
            },
            Effect::SnapToTray => Desktop { anchored: true, ..self },
            Effect::SetResizable(resizable) => Desktop {
                window: WindowSnapshot { resizable, ..self.window },
                ..self
            },
            Effect::SetDecorations(decorated) => Desktop {
                window: WindowSnapshot { decorated, ..self.window },
                ..self
            },
            Effect::SetButtonHidden { button, hidden } => Desktop {
                hidden_buttons: self.hidden_buttons.with(button, hidden),
                ..self
            },
            Effect::Show => Desktop { visible: true, ..self },
            Effect::Hide => Desktop { visible: false, focused: false, ..self },
            Effect::Focus => Desktop { focused: true, active: true, ..self },
            Effect::ReleaseActivation => Desktop { active: false, ..self },
            Effect::VetoClose => Desktop { close_vetoed: true, ..self },
            Effect::StorePreference(flag) => Desktop { stored: flag, ..self },
            Effect::RefreshTray(mode) => Desktop { tray: Some(mode), ..self },
            Effect::Quit => Desktop { running: false, ..self },
        }
    }

    /// The desktop after the host has carried out `effects` in order, none failing.
    #[verifier::opaque]
    pub open spec fn perform_all(self, effects: Seq<Effect>) -> Desktop
        decreases effects.len(),
    {
        if effects.len() == 0 {
            self
        } else {
            self.perform_all(effects.drop_last()).perform(effects.last())
        }
    }

    /// Carrying out nothing changes nothing.
    pub proof fn lemma_perform_none(self)
        ensures
            self.perform_all(Seq::empty()) == self,
    {
        reveal(Desktop::perform_all);
    }

    /// One more effect at the end is one more step.
    pub proof fn lemma_perform_push(self, effects: Seq<Effect>, effect: Effect)
        ensures
            self.perform_all(effects.push(effect)) == self.perform_all(effects).perform(effect),
    {
        reveal(Desktop::perform_all);
        assert(effects.push(effect).drop_last() =~= effects);
    }

    /// Carrying out two runs one after the other is carrying out their concatenation.
    pub proof fn lemma_perform_concat(self, first: Seq<Effect>, second: Seq<Effect>)
        ensures
            self.perform_all(first + second) == self.perform_all(first).perform_all(second),
        decreases second.len(),
    {
        reveal(Desktop::perform_all);
        if second.len() == 0 {
            assert(first + second =~= first);
        } else {
            self.lemma_perform_concat(first, second.drop_last());
            assert((first + second).drop_last() =~= first + second.drop_last());
            assert((first + second).last() == second.last());
        }
    }
}

} // verus!
