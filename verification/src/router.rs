use crate::effect::Effect;
use crate::event::MenuItem;
use crate::mode::{append_all, plan_transition, transition};
use crate::model::{AppMode, Platform, WindowSnapshot};
use vstd::prelude::*;

verus! {

/// Bringing the window up: shown, then focused.
pub open spec fn raise() -> Seq<Effect> {
    seq![Effect::Show, Effect::Focus]
}

/// The reaction to a click on the tray icon. In tray mode the window is put at
/// the tray anchor first, then hidden if it was visible, else brought up. In
/// normal mode it is brought up.
pub open spec fn tray_click(mode: AppMode, visible: bool) -> Seq<Effect> {
    match mode {
        AppMode::TrayApp => if visible {
            seq![Effect::SnapToTray, Effect::Hide]
        } else {
            seq![Effect::SnapToTray] + raise()
        },
        AppMode::Normal => raise(),
    }
}

/// The reaction to a click on a tray menu entry.
pub open spec fn menu_click(
    platform: Platform,
    mode: AppMode,
    memory: Option<WindowSnapshot>,
    item: MenuItem,
    live: WindowSnapshot,
) -> Seq<Effect> {
    match item {
        MenuItem::Focus | MenuItem::Text | MenuItem::Dashboard => raise(),
        MenuItem::Toggle => transition(platform, mode, mode.other(), live, memory) + raise(),
        MenuItem::Quit => seq![Effect::Quit],
        MenuItem::Title | MenuItem::Unknown => Seq::empty(),
    }
}

fn append_raise(plan: &mut Vec<Effect>)
    ensures
        final(plan)@ == old(plan)@ + raise(),
{
    plan.push(Effect::Show);
    plan.push(Effect::Focus);
    assert(plan@ =~= old(plan)@ + raise());
}

/// Decides what a click on the tray icon does.
pub fn on_tray_clicked(mode: AppMode, visible: bool) -> (plan: Vec<Effect>)
    ensures
        plan@ == tray_click(mode, visible),
{
    let mut plan: Vec<Effect> = Vec::new();
    match mode {
        AppMode::TrayApp => {
            plan.push(Effect::SnapToTray);
            if visible {
                plan.push(Effect::Hide);
            } else {
                append_raise(&mut plan);
            }
        },
        AppMode::Normal => {
            append_raise(&mut plan);
        },
    }
    assert(plan@ =~= tray_click(mode, visible));
    plan
}

/// Decides what a click on a tray menu entry does.
pub fn on_menu_item_clicked(
    platform: Platform,
    mode: AppMode,
    memory: Option<WindowSnapshot>,
    item: MenuItem,
    live: WindowSnapshot,
) -> (plan: Vec<Effect>)
    ensures
        plan@ == menu_click(platform, mode, memory, item, live),
{
    let mut plan: Vec<Effect> = Vec::new();
    match item {
        MenuItem::Focus | MenuItem::Text | MenuItem::Dashboard => {
            append_raise(&mut plan);
        },
        MenuItem::Toggle => {
            let change = plan_transition(platform, mode, mode.toggled(), live, memory);
            append_all(&mut plan, &change);
            append_raise(&mut plan);
        },
        MenuItem::Quit => {
            plan.push(Effect::Quit);
        },
        MenuItem::Title | MenuItem::Unknown => {},
    }
    assert(plan@ =~= menu_click(platform, mode, memory, item, live));
    plan
}

} // verus!
