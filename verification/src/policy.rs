use crate::effect::Effect;
use crate::event::WindowRole;
use crate::model::{AppMode, Platform, SENTINEL_X, SENTINEL_Y};
use vstd::prelude::*;

verus! {

/// The reaction to a window losing the focus. In tray mode the main window is
/// hidden, and where hiding does not give up the foreground the process
/// releases it. Everything else is left alone.
pub open spec fn focus_lost(platform: Platform, mode: AppMode, window: WindowRole) -> Seq<Effect> {
    if mode is TrayApp && window is Main {
        if platform.sticky_foreground {
            seq![Effect::Hide, Effect::ReleaseActivation]
        } else {
            seq![Effect::Hide]
        }
    } else {
        Seq::empty()
    }
}

/// The reaction to a request to close a window, in either mode: the request is
/// refused before anything else, then the window is hidden.
pub open spec fn close_requested() -> Seq<Effect> {
    seq![Effect::VetoClose, Effect::Hide]
}

/// The position that a window is given on its way into tray mode.
pub open spec fn at_sentinel(x: i32, y: i32) -> bool {
    x == SENTINEL_X && y == SENTINEL_Y
}

/// The reaction to a window arriving at a position: at the sentinel, and only
/// there, it is put at the tray anchor.
pub open spec fn moved(x: i32, y: i32) -> Seq<Effect> {
    if at_sentinel(x, y) {
        seq![Effect::SnapToTray]
    } else {
        Seq::empty()
    }
}

/// Decides what happens when a window has lost the focus.
pub fn on_focus_lost(platform: Platform, mode: AppMode, window: WindowRole) -> (plan: Vec<Effect>)
    ensures
        plan@ == focus_lost(platform, mode, window),
{
    let mut plan: Vec<Effect> = Vec::new();
    if mode.is_tray_app() && window == WindowRole::Main {
        plan.push(Effect::Hide);
        if platform.sticky_foreground {
            plan.push(Effect::ReleaseActivation);
        }
    }
    assert(plan@ =~= focus_lost(platform, mode, window));
    plan
}

/// Decides what happens when the user asks to close a window.
pub fn on_close_requested() -> (plan: Vec<Effect>)
    ensures
        plan@ == close_requested(),
{
    let mut plan: Vec<Effect> = Vec::new();
    plan.push(Effect::VetoClose);
    plan.push(Effect::Hide);
    assert(plan@ =~= close_requested());
    plan
}

/// Decides what happens when a window has arrived at a position.
pub fn on_moved(x: i32, y: i32) -> (plan: Vec<Effect>)
    ensures
        plan@ == moved(x, y),
{
    let mut plan: Vec<Effect> = Vec::new();
    if x == SENTINEL_X && y == SENTINEL_Y {
        plan.push(Effect::SnapToTray);
    }
    assert(plan@ =~= moved(x, y));
    plan
}

} // verus!
