use crate::effect::{Effect, WindowButton};
use crate::model::{AppMode, Platform, WindowSnapshot, SENTINEL_X, SENTINEL_Y, TRAY_HEIGHT, TRAY_WIDTH};
use vstd::prelude::*;

verus! {

/// Hiding, or showing again, the three title-bar buttons.
pub open spec fn buttons(hidden: bool) -> Seq<Effect> {
    seq![
        Effect::SetButtonHidden { button: WindowButton::Close, hidden },
        Effect::SetButtonHidden { button: WindowButton::Miniaturize, hidden },
        Effect::SetButtonHidden { button: WindowButton::Zoom, hidden },
    ]
}

/// Giving the window its chrome, or taking it away, as the platform does it:
/// button by button where the buttons are native, else by the decorations as a whole.
pub open spec fn chrome(platform: Platform, decorated: bool) -> Seq<Effect> {
    if platform.native_buttons {
        buttons(!decorated)
    } else {
        seq![Effect::SetDecorations(decorated)]
    }
}

/// Bringing the window into its tray-mode shape: `live` is remembered, then the
/// window gets the compact size, the sentinel position, a fixed size and no chrome.
pub open spec fn compact(platform: Platform, live: WindowSnapshot) -> Seq<Effect> {
    seq![
        Effect::Remember(live),
        Effect::Resize { width: TRAY_WIDTH, height: TRAY_HEIGHT },
        Effect::MoveTo { x: SENTINEL_X, y: SENTINEL_Y },
        Effect::SetResizable(false),
    ] + chrome(platform, false)
}

/// Bringing the window back to what was remembered: resizing is enabled again,
/// then size, position, chrome and resizability are those of the snapshot.
/// With nothing remembered the window is left where it is, resizable and with its chrome.
pub open spec fn expand(platform: Platform, memory: Option<WindowSnapshot>) -> Seq<Effect> {
    match memory {
        Some(snapshot) => seq![
            Effect::SetResizable(true),
            Effect::Resize { width: snapshot.width, height: snapshot.height },
            Effect::MoveTo { x: snapshot.x, y: snapshot.y },
        ] + chrome(platform, snapshot.decorated) + seq![Effect::SetResizable(snapshot.resizable)],
        None => seq![Effect::SetResizable(true)] + chrome(platform, true),
    }
}

/// What the window must undergo to get from `current` to the other mode.
pub open spec fn reshape(
    platform: Platform,
    current: AppMode,
    live: WindowSnapshot,
    memory: Option<WindowSnapshot>,
) -> Seq<Effect> {
    match current {
        AppMode::Normal => compact(platform, live),
        AppMode::TrayApp => expand(platform, memory),
    }
}

/// The whole of a mode change. Into the mode the shell is in already, only the
/// tray is refreshed. Else the window is reshaped, then the preference is
/// written, then the tray is refreshed: the preference is never written
/// before the geometry stands.
pub open spec fn transition(
    platform: Platform,
    current: AppMode,
    target: AppMode,
    live: WindowSnapshot,
    memory: Option<WindowSnapshot>,
) -> Seq<Effect> {
    if current == target {
        seq![Effect::RefreshTray(target)]
    } else {
        reshape(platform, current, live, memory) + seq![
            Effect::StorePreference(target.flag()),
            Effect::RefreshTray(target),
        ]
    }
}

fn append_buttons(plan: &mut Vec<Effect>, hidden: bool)
    ensures
        final(plan)@ == old(plan)@ + buttons(hidden),
{
    plan.push(Effect::SetButtonHidden { button: WindowButton::Close, hidden });
    plan.push(Effect::SetButtonHidden { button: WindowButton::Miniaturize, hidden });
    plan.push(Effect::SetButtonHidden { button: WindowButton::Zoom, hidden });
    assert(plan@ =~= old(plan)@ + buttons(hidden));
}

fn append_chrome(plan: &mut Vec<Effect>, platform: Platform, decorated: bool)
    ensures
        final(plan)@ == old(plan)@ + chrome(platform, decorated),
{
    if platform.native_buttons {
        append_buttons(plan, !decorated);
    } else {
        plan.push(Effect::SetDecorations(decorated));
        assert(plan@ =~= old(plan)@ + chrome(platform, decorated));
    }
}

/// The effects that hide the close, miniaturize and zoom buttons of a window.
pub fn hide_window_buttons() -> (plan: Vec<Effect>)
    ensures
        plan@ == buttons(true),
{
    let mut plan: Vec<Effect> = Vec::new();
    append_buttons(&mut plan, true);
    assert(plan@ =~= buttons(true));
    plan
}

/// The effects that show the close, miniaturize and zoom buttons of a window again.
pub fn show_window_buttons() -> (plan: Vec<Effect>)
    ensures
        plan@ == buttons(false),
{
    let mut plan: Vec<Effect> = Vec::new();
    append_buttons(&mut plan, false);
    assert(plan@ =~= buttons(false));
    plan
}

/// The effects that bring the window, now as `live` describes it, into its tray-mode shape.
pub fn activate_tray_mode(platform: Platform, live: WindowSnapshot) -> (plan: Vec<Effect>)
    ensures
        plan@ == compact(platform, live),
{
    let mut plan: Vec<Effect> = Vec::new();
    plan.push(Effect::Remember(live));
    plan.push(Effect::Resize { width: TRAY_WIDTH, height: TRAY_HEIGHT });
    plan.push(Effect::MoveTo { x: SENTINEL_X, y: SENTINEL_Y });
    plan.push(Effect::SetResizable(false));
    append_chrome(&mut plan, platform, false);
    assert(plan@ =~= compact(platform, live));
    plan
}

/// The effects that bring the window back to the remembered geometry.
pub fn deactivate_tray_mode(platform: Platform, memory: Option<WindowSnapshot>) -> (plan: Vec<
    Effect,
>)
    ensures
        plan@ == expand(platform, memory),
{
    let mut plan: Vec<Effect> = Vec::new();
    plan.push(Effect::SetResizable(true));
    match memory {
        Some(snapshot) => {
            plan.push(Effect::Resize { width: snapshot.width, height: snapshot.height });
            plan.push(Effect::MoveTo { x: snapshot.x, y: snapshot.y });
            append_chrome(&mut plan, platform, snapshot.decorated);
            plan.push(Effect::SetResizable(snapshot.resizable));
        },
        None => {
            append_chrome(&mut plan, platform, true);
        },
    }
    assert(plan@ =~= expand(platform, memory));
    plan
}

/// Appends `tail` to `plan`.
pub(crate) fn append_all(plan: &mut Vec<Effect>, tail: &Vec<Effect>)
    ensures
        final(plan)@ == old(plan)@ + tail@,
{
    let mut at: usize = 0;
    while at < tail.len()
        invariant
            at <= tail.len(),
            plan@ == old(plan)@ + tail@.subrange(0, at as int),
        decreases tail.len() - at,
    {
        plan.push(tail[at]);
        assert(tail@.subrange(0, at + 1) =~= tail@.subrange(0, at as int).push(tail@[at as int]));
        assert(plan@ =~= old(plan)@ + tail@.subrange(0, at + 1));
        at += 1;
    }
    assert(tail@.subrange(0, at as int) =~= tail@);
}

/// The effects of a change from `current` to `target`.
pub fn plan_transition(
    platform: Platform,
    current: AppMode,
    target: AppMode,
    live: WindowSnapshot,
    memory: Option<WindowSnapshot>,
) -> (plan: Vec<Effect>)
    ensures
        plan@ == transition(platform, current, target, live, memory),
{
    if current == target {
        let mut plan: Vec<Effect> = Vec::new();
        plan.push(Effect::RefreshTray(target));
        assert(plan@ =~= transition(platform, current, target, live, memory));
        plan
    } else {
        let mut plan = match current {
            AppMode::Normal => activate_tray_mode(platform, live),
            AppMode::TrayApp => deactivate_tray_mode(platform, memory),
        };
        plan.push(Effect::StorePreference(target.is_tray_app()));
        plan.push(Effect::RefreshTray(target));
        assert(plan@ =~= transition(platform, current, target, live, memory));
        plan
    }
}

} // verus!
