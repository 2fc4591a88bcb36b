use crate::effect::{Desktop, Effect, HiddenButtons, WindowButton};
use crate::event::{Event, MenuItem};
use crate::mode::{chrome, compact, expand, reshape, transition};
use crate::model::{AppMode, Platform, WindowSnapshot, SENTINEL_X, SENTINEL_Y, TRAY_HEIGHT, TRAY_WIDTH};
use crate::router::{raise, tray_click};
use crate::shell::ShellState;
use vstd::prelude::*;

verus! {

/// The shell's books agree with the two stores of the desktop.
pub open spec fn mirrors(shell: ShellState, desktop: Desktop) -> bool {
    &&& shell.memory == desktop.remembered
    &&& shell.preference == desktop.stored
    &&& shell.mode == AppMode::of_flag(desktop.stored)
}

/// A desktop whose stores hold what the shell's books say.
spec fn desktop_of(shell: ShellState, desktop: Desktop) -> Desktop {
    Desktop { remembered: shell.memory, stored: shell.preference, ..desktop }
}

proof fn lemma_settle_push(shell: ShellState, effects: Seq<Effect>, effect: Effect)
    ensures
        shell.settle_all(effects.push(effect)) == shell.settle_all(effects).settle(effect),
{
    assert(effects.push(effect).drop_last() =~= effects);
}

proof fn lemma_settle_keeps_plan(shell: ShellState, effects: Seq<Effect>)
    ensures
        shell.settle_all(effects).plan == shell.plan,
        shell.settle_all(effects).cursor == shell.cursor,
        shell.settle_all(effects).platform == shell.platform,
    decreases effects.len(),
{
    if effects.len() > 0 {
        lemma_settle_keeps_plan(shell, effects.drop_last());
    }
}

/// Carrying out the next `count` effects is settling them one by one.
proof fn lemma_advanced(shell: ShellState, count: nat)
    requires
        shell.cursor + count <= shell.plan.len(),
    ensures
        shell.advanced(count) == (ShellState {
            cursor: shell.cursor + count,
            ..shell.settle_all(
                shell.plan.subrange(shell.cursor as int, (shell.cursor + count) as int),
            )
        }),
    decreases count,
{
    let from = shell.cursor as int;
    if count == 0 {
        assert(shell.plan.subrange(from, from) =~= Seq::<Effect>::empty());
    } else {
        let fewer = (count - 1) as nat;
        lemma_advanced_last(shell, fewer);
        lemma_advanced(shell, fewer);
        let done = shell.plan.subrange(from, from + fewer);
        let before = shell.advanced(fewer);
        lemma_settle_keeps_plan(shell, done);
        assert(before.current() == shell.plan[from + fewer]);
        assert(shell.plan.subrange(from, from + count) =~= done.push(shell.plan[from + fewer]));
        lemma_settle_push(shell, done, shell.plan[from + fewer]);
    }
}

/// One more effect carried out is one more step from where the fewer led.
proof fn lemma_advanced_last(shell: ShellState, fewer: nat)
    requires
        shell.cursor + fewer < shell.plan.len(),
    ensures
        shell.advanced(fewer + 1) == shell.advanced(fewer).advance(),
    decreases fewer,
{
    if fewer == 0 {
        assert(shell.advance().advanced(0) == shell.advance());
    } else {
        lemma_advanced_last(shell.advance(), (fewer - 1) as nat);
    }
}

/// What the shell takes over from a run of effects is what the run wrote to the stores.
pub proof fn books_follow_stores(shell: ShellState, desktop: Desktop, effects: Seq<Effect>)
    requires
        mirrors(shell, desktop),
    ensures
        mirrors(shell.settle_all(effects), desktop.perform_all(effects)),
    decreases effects.len(),
{
    reveal(Desktop::perform_all);
    if effects.len() > 0 {
        books_follow_stores(shell, desktop, effects.drop_last());
    }
}

proof fn lemma_perform_one(desktop: Desktop, a: Effect)
    ensures
        desktop.perform_all(seq![a]) == desktop.perform(a),
{
    desktop.lemma_perform_none();
    desktop.lemma_perform_push(Seq::empty(), a);
}

proof fn lemma_perform_two(desktop: Desktop, a: Effect, b: Effect)
    ensures
        desktop.perform_all(seq![a, b]) == desktop.perform(a).perform(b),
{
    lemma_perform_one(desktop, a);
    desktop.lemma_perform_push(seq![a], b);
    assert(seq![a].push(b) =~= seq![a, b]);
}

proof fn lemma_perform_three(desktop: Desktop, a: Effect, b: Effect, c: Effect)
    ensures
        desktop.perform_all(seq![a, b, c]) == desktop.perform(a).perform(b).perform(c),
{
    lemma_perform_two(desktop, a, b);
    desktop.lemma_perform_push(seq![a, b], c);
    assert(seq![a, b].push(c) =~= seq![a, b, c]);
}

proof fn lemma_perform_four(desktop: Desktop, a: Effect, b: Effect, c: Effect, d: Effect)
    ensures
        desktop.perform_all(seq![a, b, c, d]) == desktop.perform(a).perform(b).perform(c).perform(
            d,
        ),
{
    lemma_perform_three(desktop, a, b, c);
    desktop.lemma_perform_push(seq![a, b, c], d);
    assert(seq![a, b, c].push(d) =~= seq![a, b, c, d]);
}

/// The desktop after the window was given its chrome, or lost it.
spec fn with_chrome(desktop: Desktop, platform: Platform, decorated: bool) -> Desktop {
    if platform.native_buttons {
        Desktop {
            hidden_buttons: HiddenButtons {
                close: !decorated,
                miniaturize: !decorated,
                zoom: !decorated,
            },
            ..desktop
        }
    } else {
        Desktop { window: WindowSnapshot { decorated, ..desktop.window }, ..desktop }
    }
}

proof fn lemma_chrome(desktop: Desktop, platform: Platform, decorated: bool)
    ensures
        desktop.perform_all(chrome(platform, decorated)) == with_chrome(
            desktop,
            platform,
            decorated,
        ),
{
    if platform.native_buttons {
        let hidden = !decorated;
        lemma_perform_three(
            desktop,
            Effect::SetButtonHidden { button: WindowButton::Close, hidden },
            Effect::SetButtonHidden { button: WindowButton::Miniaturize, hidden },
            Effect::SetButtonHidden { button: WindowButton::Zoom, hidden },
        );
    } else {
        lemma_perform_one(desktop, Effect::SetDecorations(decorated));
    }
}

/// The desktop after the window was brought into its tray-mode shape.
spec fn compacted(desktop: Desktop, platform: Platform, live: WindowSnapshot) -> Desktop {
    with_chrome(
        Desktop {
            window: WindowSnapshot {
                width: TRAY_WIDTH,
                height: TRAY_HEIGHT,
                x: SENTINEL_X,
                y: SENTINEL_Y,
                resizable: false,
                ..desktop.window
            },
            anchored: false,
            remembered: Some(live),
            ..desktop
        },
        platform,
        false,
    )
}

proof fn lemma_compact(desktop: Desktop, platform: Platform, live: WindowSnapshot)
    ensures
        desktop.perform_all(compact(platform, live)) == compacted(desktop, platform, live),
{
    let head = seq![
        Effect::Remember(live),
        Effect::Resize { width: TRAY_WIDTH, height: TRAY_HEIGHT },
        Effect::MoveTo { x: SENTINEL_X, y: SENTINEL_Y },
        Effect::SetResizable(false),
    ];
    lemma_perform_four(
        desktop,
        Effect::Remember(live),
        Effect::Resize { width: TRAY_WIDTH, height: TRAY_HEIGHT },
        Effect::MoveTo { x: SENTINEL_X, y: SENTINEL_Y },
        Effect::SetResizable(false),
    );
    desktop.lemma_perform_concat(head, chrome(platform, false));
    lemma_chrome(desktop.perform_all(head), platform, false);
}

/// The desktop after the window was brought back to what `memory` holds.
spec fn expanded(desktop: Desktop, platform: Platform, memory: Option<WindowSnapshot>) -> Desktop {
    match memory {
        Some(snapshot) => {
            let restored = with_chrome(
                Desktop {
                    window: WindowSnapshot {
                        width: snapshot.width,
                        height: snapshot.height,
                        x: snapshot.x,
                        y: snapshot.y,
                        ..desktop.window
                    },
                    anchored: false,
                    ..desktop
                },
                platform,
                snapshot.decorated,
            );
            Desktop {
                window: WindowSnapshot { resizable: snapshot.resizable, ..restored.window },
                ..restored
            }
        },
        None => with_chrome(
            Desktop { window: WindowSnapshot { resizable: true, ..desktop.window }, ..desktop },
            platform,
            true,
        ),
    }
}

proof fn lemma_expand(desktop: Desktop, platform: Platform, memory: Option<WindowSnapshot>)
    ensures
        desktop.perform_all(expand(platform, memory)) == expanded(desktop, platform, memory),
{
    match memory {
        Some(snapshot) => {
            let head = seq![
                Effect::SetResizable(true),
                Effect::Resize { width: snapshot.width, height: snapshot.height },
                Effect::MoveTo { x: snapshot.x, y: snapshot.y },
            ];
            let middle = chrome(platform, snapshot.decorated);
            let tail = seq![Effect::SetResizable(snapshot.resizable)];
            lemma_perform_three(
                desktop,
                Effect::SetResizable(true),
                Effect::Resize { width: snapshot.width, height: snapshot.height },
                Effect::MoveTo { x: snapshot.x, y: snapshot.y },
            );
            desktop.lemma_perform_concat(head, middle);
            lemma_chrome(desktop.perform_all(head), platform, snapshot.decorated);
            desktop.lemma_perform_concat(head + middle, tail);
            lemma_perform_one(desktop.perform_all(head + middle), Effect::SetResizable(snapshot.resizable));
        },
        None => {
            let head = seq![Effect::SetResizable(true)];
            lemma_perform_one(desktop, Effect::SetResizable(true));
            desktop.lemma_perform_concat(head, chrome(platform, true));
            lemma_chrome(desktop.perform_all(head), platform, true);
        },
    }
}

/// The desktop after a mode change was carried out in full.
spec fn changed(
    desktop: Desktop,
    platform: Platform,
    current: AppMode,
    target: AppMode,
    live: WindowSnapshot,
    memory: Option<WindowSnapshot>,
) -> Desktop {
    if current == target {
        Desktop { tray: Some(target), ..desktop }
    } else {
        let reshaped = match current {
            AppMode::Normal => compacted(desktop, platform, live),
            AppMode::TrayApp => expanded(desktop, platform, memory),
        };
        Desktop { stored: target.flag(), tray: Some(target), ..reshaped }
    }
}

proof fn lemma_transition(
    desktop: Desktop,
    platform: Platform,
    current: AppMode,
    target: AppMode,
    live: WindowSnapshot,
    memory: Option<WindowSnapshot>,
)
    ensures
        desktop.perform_all(transition(platform, current, target, live, memory)) == changed(
            desktop,
            platform,
            current,
            target,
            live,
            memory,
        ),
{
    if current == target {
        lemma_perform_one(desktop, Effect::RefreshTray(target));
    } else {
        let head = reshape(platform, current, live, memory);
        let tail = seq![Effect::StorePreference(target.flag()), Effect::RefreshTray(target)];
        match current {
            AppMode::Normal => lemma_compact(desktop, platform, live),
            AppMode::TrayApp => lemma_expand(desktop, platform, memory),
        }
        desktop.lemma_perform_concat(head, tail);
        lemma_perform_two(
            desktop.perform_all(head),
            Effect::StorePreference(target.flag()),
            Effect::RefreshTray(target),
        );
    }
}

/// A change to the other mode writes the preference.
proof fn lemma_transition_stores(
    platform: Platform,
    current: AppMode,
    target: AppMode,
    live: WindowSnapshot,
    memory: Option<WindowSnapshot>,
)
    requires
        current != target,
    ensures
        transition(platform, current, target, live, memory).contains(
            Effect::StorePreference(target.flag()),
        ),
{
    let head = reshape(platform, current, live, memory);
    let plan = transition(platform, current, target, live, memory);
    assert(plan[head.len() as int] == Effect::StorePreference(target.flag()));
}

/// A run that is carried out in full leaves the shell with what it wrote to the stores.
proof fn lemma_complete(shell: ShellState, event: Event, desktop: Desktop)
    requires
        mirrors(shell, desktop),
    ensures
        shell.accept(event).complete().idle(),
        shell.accept(event).complete().platform == shell.platform,
        mirrors(shell.accept(event).complete(), desktop.perform_all(shell.reaction(event))),
{
    let taken = shell.accept(event);
    let plan = shell.reaction(event);
    lemma_advanced(taken, plan.len());
    assert(plan.subrange(0, plan.len() as int) =~= plan);
    lemma_settle_keeps_plan(taken, plan);
    books_follow_stores(taken, desktop, plan);
}

/// Mode change. Whatever mode is asked for, and whatever the window looks
/// like: once every effect of the request was carried out, the shell is in the
/// mode asked for, the stored preference says so, and the shell is idle again.
/// Asking for the mode the shell is in changes neither.
pub proof fn mode_request_commits(shell: ShellState, target: AppMode, live: WindowSnapshot)
    requires
        shell.idle(),
        shell.consistent(),
    ensures
        ({
            let after = shell.accept(Event::ModeRequested { target, live }).complete();
            &&& after.mode == target
            &&& after.preference == target.flag()
            &&& after.consistent()
            &&& after.idle()
            &&& target == shell.mode ==> after.memory == shell.memory
        }),
{
    let event = Event::ModeRequested { target, live };
    let desktop = desktop_of(shell, arbitrary());
    lemma_complete(shell, event, desktop);
    lemma_transition(desktop, shell.platform, shell.mode, target, live, shell.memory);
}

/// The shell after a run of mode requests, each carried out in full before the next is made.
pub open spec fn after_requests(shell: ShellState, requests: Seq<(AppMode, WindowSnapshot)>) -> ShellState
    decreases requests.len(),
{
    if requests.len() == 0 {
        shell
    } else {
        after_requests(shell, requests.drop_last()).accept(
            Event::ModeRequested { target: requests.last().0, live: requests.last().1 },
        ).complete()
    }
}

/// Mode changes in sequence. After any run of mode requests, each carried out
/// in full, the shell is in the mode asked for last and the stored preference
/// says so.
pub proof fn mode_requests_commit(shell: ShellState, requests: Seq<(AppMode, WindowSnapshot)>)
    requires
        shell.idle(),
        shell.consistent(),
    ensures
        after_requests(shell, requests).idle(),
        after_requests(shell, requests).consistent(),
        requests.len() > 0 ==> after_requests(shell, requests).mode == requests.last().0,
        requests.len() > 0 ==> after_requests(shell, requests).preference
            == requests.last().0.flag(),
    decreases requests.len(),
{
    if requests.len() > 0 {
        mode_requests_commit(shell, requests.drop_last());
        mode_request_commits(
            after_requests(shell, requests.drop_last()),
            requests.last().0,
            requests.last().1,
        );
    }
}

/// Entering tray mode. From normal mode, once every effect of the request was
/// carried out: the window is 400 by 600 at the sentinel position, cannot be
/// resized and has lost its chrome; the geometry memory holds the window as it
/// was; the stored preference is set; the tray was rebuilt for tray mode.
pub proof fn entering_tray_mode(shell: ShellState, desktop: Desktop, live: WindowSnapshot)
    requires
        shell.idle(),
        shell.mode is Normal,
    ensures
        ({
            let event = Event::ModeRequested { target: AppMode::TrayApp, live };
            let after = desktop.perform_all(shell.reaction(event));
            &&& after.window.width == 400 && after.window.height == 600
            &&& after.window.x == 100 && after.window.y == 100
            &&& !after.window.resizable
            &&& if shell.platform.native_buttons {
                after.hidden_buttons.all()
            } else {
                !after.window.decorated
            }
            &&& after.remembered == Some(live)
            &&& after.stored
            &&& after.tray == Some(AppMode::TrayApp)
            &&& shell.accept(event).complete().mode is TrayApp
            &&& shell.accept(event).complete().memory == Some(live)
        }),
{
    let event = Event::ModeRequested { target: AppMode::TrayApp, live };
    lemma_transition(desktop, shell.platform, shell.mode, AppMode::TrayApp, live, shell.memory);
    let own = desktop_of(shell, desktop);
    lemma_transition(own, shell.platform, shell.mode, AppMode::TrayApp, live, shell.memory);
    lemma_transition_stores(shell.platform, shell.mode, AppMode::TrayApp, live, shell.memory);
    lemma_settled(shell, event, own);
}

/// What a run carried out in full leaves in the shell's books, whether or not
/// mode and preference agreed before.
proof fn lemma_settled(shell: ShellState, event: Event, desktop: Desktop)
    requires
        shell.memory == desktop.remembered,
        shell.preference == desktop.stored,
    ensures
        shell.accept(event).complete().idle(),
        shell.accept(event).complete().platform == shell.platform,
        shell.accept(event).complete().memory == desktop.perform_all(
            shell.reaction(event),
        ).remembered,
        shell.accept(event).complete().preference == desktop.perform_all(
            shell.reaction(event),
        ).stored,
        shell.reaction(event).contains(Effect::StorePreference(true)) || shell.reaction(
            event,
        ).contains(Effect::StorePreference(false)) ==> shell.accept(event).complete().consistent(),
{
    let taken = shell.accept(event);
    let plan = shell.reaction(event);
    lemma_advanced(taken, plan.len());
    assert(plan.subrange(0, plan.len() as int) =~= plan);
    lemma_settle_keeps_plan(taken, plan);
    lemma_books(taken, desktop, plan);
}

/// Memory and preference follow the stores whatever the mode; after a write
/// of the preference the mode agrees with it.
proof fn lemma_books(shell: ShellState, desktop: Desktop, effects: Seq<Effect>)
    requires
        shell.memory == desktop.remembered,
        shell.preference == desktop.stored,
    ensures
        shell.settle_all(effects).memory == desktop.perform_all(effects).remembered,
        shell.settle_all(effects).preference == desktop.perform_all(effects).stored,
        effects.contains(Effect::StorePreference(true)) || effects.contains(
            Effect::StorePreference(false),
        ) ==> shell.settle_all(effects).consistent(),
    decreases effects.len(),
{
    reveal(Desktop::perform_all);
    if effects.len() > 0 {
        let front = effects.drop_last();
        lemma_books(shell, desktop, front);
        assert forall|flag: bool|
            effects.contains(Effect::StorePreference(flag)) && effects.last()
                != Effect::StorePreference(flag) implies front.contains(
            Effect::StorePreference(flag),
        ) by {
            let at = choose|at: int|
                0 <= at < effects.len() && effects[at] == Effect::StorePreference(flag);
            assert(front[at] == effects[at]);
        }
    }
}

/// Round trip. From normal mode into tray mode and back, every effect carried
/// out: the window has the size, the position, the chrome and the resizability
/// that it had before the first of the two requests, whatever happened to be
/// remembered before and whatever the window looked like in between.
pub proof fn round_trip_restores_window(
    shell: ShellState,
    desktop: Desktop,
    live: WindowSnapshot,
    later: WindowSnapshot,
)
    requires
        shell.idle(),
        shell.mode is Normal,
        desktop.window == live,
    ensures
        ({
            let enter = Event::ModeRequested { target: AppMode::TrayApp, live };
            let leave = Event::ModeRequested { target: AppMode::Normal, live: later };
            let tray = shell.accept(enter).complete();
            let compact = desktop.perform_all(shell.reaction(enter));
            let back = tray.accept(leave).complete();
            let restored = compact.perform_all(tray.reaction(leave));
            &&& tray.mode is TrayApp
            &&& back.mode is Normal
            &&& !back.preference
            &&& restored.window == live
            &&& shell.platform.native_buttons ==> restored.hidden_buttons.all() == !live.decorated
        }),
{
    let enter = Event::ModeRequested { target: AppMode::TrayApp, live };
    let leave = Event::ModeRequested { target: AppMode::Normal, live: later };
    entering_tray_mode(shell, desktop, live);
    let tray = shell.accept(enter).complete();
    let compact = desktop.perform_all(shell.reaction(enter));
    lemma_transition(desktop, shell.platform, shell.mode, AppMode::TrayApp, live, shell.memory);
    let own = desktop_of(shell, desktop);
    lemma_settled(shell, enter, own);
    lemma_transition(compact, tray.platform, tray.mode, AppMode::Normal, later, tray.memory);
    let own_tray = desktop_of(tray, compact);
    lemma_transition(own_tray, tray.platform, tray.mode, AppMode::Normal, later, tray.memory);
    lemma_transition_stores(tray.platform, tray.mode, AppMode::Normal, later, tray.memory);
    lemma_settled(tray, leave, own_tray);
}

/// Reshaping the window never writes the preference.
proof fn lemma_reshape_writes_no_preference(
    platform: Platform,
    current: AppMode,
    live: WindowSnapshot,
    memory: Option<WindowSnapshot>,
)
    ensures
        forall|at: int|
            0 <= at < reshape(platform, current, live, memory).len() ==> !(#[trigger] reshape(
                platform,
                current,
                live,
                memory,
            )[at] is StorePreference),
{
    let plan = reshape(platform, current, live, memory);
    assert forall|at: int| 0 <= at < plan.len() implies !(#[trigger] plan[at] is StorePreference) by {
        let strip = chrome(platform, false);
        assert(forall|k: int| 0 <= k < strip.len() ==> !(#[trigger] strip[k] is StorePreference));
        match current {
            AppMode::Normal => {},
            AppMode::TrayApp => {
                match memory {
                    Some(snapshot) => {
                        let dress = chrome(platform, snapshot.decorated);
                        assert(forall|k: int|
                            0 <= k < dress.len() ==> !(#[trigger] dress[k] is StorePreference));
                    },
                    None => {
                        let dress = chrome(platform, true);
                        assert(forall|k: int|
                            0 <= k < dress.len() ==> !(#[trigger] dress[k] is StorePreference));
                    },
                }
            },
        }
    }
}

/// Effects that write no preference leave mode and preference alone.
proof fn lemma_settle_without_store(shell: ShellState, effects: Seq<Effect>)
    requires
        forall|at: int| 0 <= at < effects.len() ==> !(#[trigger] effects[at] is StorePreference),
    ensures
        shell.settle_all(effects).mode == shell.mode,
        shell.settle_all(effects).preference == shell.preference,
    decreases effects.len(),
{
    if effects.len() > 0 {
        let front = effects.drop_last();
        assert forall|at: int| 0 <= at < front.len() implies !(#[trigger] front[at]
            is StorePreference) by {
            assert(front[at] == effects[at]);
        }
        lemma_settle_without_store(shell, front);
    }
}

/// Failed mode change. Where the host fails before the preference is written,
/// or in writing it, the shell is in the mode it was in, the stored preference
/// is what it was, and the shell is idle again: `done` is the number of effects
/// that were carried out before the one that failed.
pub proof fn failed_change_keeps_mode(
    shell: ShellState,
    target: AppMode,
    live: WindowSnapshot,
    done: nat,
)
    requires
        shell.idle(),
        shell.mode != target,
        done <= reshape(shell.platform, shell.mode, live, shell.memory).len(),
    ensures
        ({
            let taken = shell.accept(Event::ModeRequested { target, live });
            let failed = taken.advanced(done).abort();
            &&& !taken.advanced(done).idle()
            &&& failed.mode == shell.mode
            &&& failed.preference == shell.preference
            &&& failed.idle()
        }),
{
    let taken = shell.accept(Event::ModeRequested { target, live });
    let head = reshape(shell.platform, shell.mode, live, shell.memory);
    lemma_advanced(taken, done);
    let carried = taken.plan.subrange(0, done as int);
    lemma_reshape_writes_no_preference(shell.platform, shell.mode, live, shell.memory);
    assert forall|at: int| 0 <= at < carried.len() implies !(#[trigger] carried[at]
        is StorePreference) by {
        assert(carried[at] == head[at]);
    }
    lemma_settle_without_store(taken, carried);
    lemma_settle_keeps_plan(taken, carried);
    assert(taken.plan.len() == head.len() + 2);
}

/// Tray click. In tray mode, as soon as the first effect of a click on the
/// tray icon was carried out, the window is never visible away from the tray
/// anchor, however many of the remaining effects are carried out. With all of
/// them carried out, a window that was visible is hidden, and one that was
/// hidden is visible, focused and at the anchor.
pub proof fn tray_click_keeps_window_anchored(
    shell: ShellState,
    desktop: Desktop,
    visible: bool,
    done: nat,
)
    requires
        shell.mode is TrayApp,
        1 <= done <= shell.reaction(Event::TrayClicked { visible }).len(),
    ensures
        ({
            let plan = shell.reaction(Event::TrayClicked { visible });
            let after = desktop.perform_all(plan.subrange(0, done as int));
            &&& after.visible ==> after.anchored
            &&& done == plan.len() ==> after.anchored && after.visible == !visible
            &&& done == plan.len() && !visible ==> after.focused
        }),
{
    let plan = tray_click(AppMode::TrayApp, visible);
    let carried = plan.subrange(0, done as int);
    if done == 1 {
        assert(carried =~= seq![Effect::SnapToTray]);
        lemma_perform_one(desktop, Effect::SnapToTray);
    } else if visible {
        assert(carried =~= seq![Effect::SnapToTray, Effect::Hide]);
        lemma_perform_two(desktop, Effect::SnapToTray, Effect::Hide);
    } else if done == 2 {
        assert(carried =~= seq![Effect::SnapToTray, Effect::Show]);
        lemma_perform_two(desktop, Effect::SnapToTray, Effect::Show);
    } else {
        assert(carried =~= seq![Effect::SnapToTray, Effect::Show, Effect::Focus]);
        lemma_perform_three(desktop, Effect::SnapToTray, Effect::Show, Effect::Focus);
    }
}

/// Close request. In either mode a request to close a window is refused by the
/// very first effect, no effect of the reaction ends the process, and with
/// both effects carried out the window is hidden.
pub proof fn close_request_hides_window(shell: ShellState, desktop: Desktop, done: nat)
    requires
        1 <= done <= shell.reaction(Event::CloseRequested).len(),
    ensures
        ({
            let plan = shell.reaction(Event::CloseRequested);
            let after = desktop.perform_all(plan.subrange(0, done as int));
            &&& after.close_vetoed
            &&& after.running == desktop.running
            &&& done == plan.len() ==> !after.visible
            &&& !plan.contains(Effect::Quit)
        }),
{
    let plan = shell.reaction(Event::CloseRequested);
    let carried = plan.subrange(0, done as int);
    if done == 1 {
        assert(carried =~= seq![Effect::VetoClose]);
        lemma_perform_one(desktop, Effect::VetoClose);
    } else {
        assert(carried =~= seq![Effect::VetoClose, Effect::Hide]);
        lemma_perform_two(desktop, Effect::VetoClose, Effect::Hide);
    }
}

/// Only a click on the quit entry ends the process: no other event has an
/// effect that does.
pub proof fn only_quit_ends_process(shell: ShellState, event: Event)
    requires
        !(event matches Event::MenuItemClicked { item, .. } && item is Quit),
    ensures
        !shell.reaction(event).contains(Effect::Quit),
{
    let plan = shell.reaction(event);
    if plan.contains(Effect::Quit) {
        let at = choose|at: int| 0 <= at < plan.len() && plan[at] == Effect::Quit;
        lemma_transition_never_quits(shell, at);
        match event {
            Event::ModeRequested { target, live } => {},
            Event::MenuItemClicked { item, live } => {
                if item is Toggle {
                    let change = transition(
                        shell.platform,
                        shell.mode,
                        shell.mode.other(),
                        live,
                        shell.memory,
                    );
                    if at >= change.len() {
                        assert(plan[at] == raise()[at - change.len()]);
                    }
                }
            },
            _ => {},
        }
    }
}

/// No effect of a mode change ends the process.
proof fn lemma_transition_never_quits(shell: ShellState, at: int)
    ensures
        forall|target: AppMode, live: WindowSnapshot|
            0 <= at < transition(shell.platform, shell.mode, target, live, shell.memory).len()
                ==> #[trigger] transition(
                shell.platform,
                shell.mode,
                target,
                live,
                shell.memory,
            )[at] != Effect::Quit,
{
    assert forall|target: AppMode, live: WindowSnapshot|
        0 <= at < transition(
            shell.platform,
            shell.mode,
            target,
            live,
            shell.memory,
        ).len() implies #[trigger] transition(
        shell.platform,
        shell.mode,
        target,
        live,
        shell.memory,
    )[at] != Effect::Quit by {
        let head = reshape(shell.platform, shell.mode, live, shell.memory);
        let strip = chrome(shell.platform, false);
        assert(forall|k: int| 0 <= k < strip.len() ==> #[trigger] strip[k] != Effect::Quit);
        match shell.memory {
            Some(snapshot) => {
                let dress = chrome(shell.platform, snapshot.decorated);
                assert(forall|k: int| 0 <= k < dress.len() ==> #[trigger] dress[k] != Effect::Quit);
            },
            None => {
                let dress = chrome(shell.platform, true);
                assert(forall|k: int| 0 <= k < dress.len() ==> #[trigger] dress[k] != Effect::Quit);
            },
        }
        assert(forall|k: int| 0 <= k < head.len() ==> #[trigger] head[k] != Effect::Quit);
    }
}

/// Toggle twice. Two clicks on the toggle entry, each carried out in full:
/// after the first the shell is in the other mode, after the second in the
/// mode it started in, and both times the stored preference says so.
pub proof fn toggle_twice_restores_mode(
    shell: ShellState,
    first: WindowSnapshot,
    second: WindowSnapshot,
)
    requires
        shell.idle(),
        shell.consistent(),
    ensures
        ({
            let once = shell.accept(
                Event::MenuItemClicked { item: MenuItem::Toggle, live: first },
            ).complete();
            let twice = once.accept(
                Event::MenuItemClicked { item: MenuItem::Toggle, live: second },
            ).complete();
            &&& once.idle() && once.mode == shell.mode.other() && once.consistent()
            &&& twice.idle() && twice.mode == shell.mode && twice.consistent()
        }),
{
    lemma_toggle(shell, first);
    let once = shell.accept(Event::MenuItemClicked { item: MenuItem::Toggle, live: first }).complete();
    lemma_toggle(once, second);
}

proof fn lemma_toggle(shell: ShellState, live: WindowSnapshot)
    requires
        shell.idle(),
    ensures
        ({
            let after = shell.accept(
                Event::MenuItemClicked { item: MenuItem::Toggle, live },
            ).complete();
            after.idle() && after.mode == shell.mode.other() && after.consistent()
        }),
{
    let event = Event::MenuItemClicked { item: MenuItem::Toggle, live };
    let target = shell.mode.other();
    let change = transition(shell.platform, shell.mode, target, live, shell.memory);
    let plan = shell.reaction(event);
    let own = desktop_of(shell, arbitrary());
    lemma_transition(own, shell.platform, shell.mode, target, live, shell.memory);
    lemma_transition_stores(shell.platform, shell.mode, target, live, shell.memory);
    let at = choose|at: int|
        0 <= at < change.len() && change[at] == Effect::StorePreference(target.flag());
    assert(plan[at] == change[at]);
    own.lemma_perform_concat(change, raise());
    lemma_perform_two(own.perform_all(change), Effect::Show, Effect::Focus);
    lemma_settled(shell, event, own);
}

} // verus!
