use gitlight::effect::{Effect, WindowButton};
use gitlight::event::{Event, MenuItem, WindowRole};
use gitlight::model::{AppMode, Platform, WindowSnapshot};
use gitlight::shell::{ModeError, Shell, Step};

/// A stand-in for the host: it carries out effects on plain values.
#[derive(Clone, Debug, PartialEq)]
struct Host {
    window: WindowSnapshot,
    hidden: [bool; 3],
    visible: bool,
    focused: bool,
    anchored: bool,
    vetoed: bool,
    remembered: Option<WindowSnapshot>,
    stored: bool,
    tray: Option<AppMode>,
    active: bool,
    running: bool,
    log: Vec<Effect>,
    fail_at: Option<usize>,
}

fn wide() -> WindowSnapshot {
    WindowSnapshot { width: 1280, height: 800, x: 37, y: -12, decorated: true, resizable: true }
}

fn host(window: WindowSnapshot) -> Host {
    Host {
        window,
        hidden: [false; 3],
        visible: true,
        focused: true,
        anchored: false,
        vetoed: false,
        remembered: None,
        stored: false,
        tray: None,
        active: true,
        running: true,
        log: Vec::new(),
        fail_at: None,
    }
}

fn perform(host: &mut Host, effect: Effect) -> Result<(), String> {
    if host.fail_at == Some(host.log.len()) {
        host.fail_at = None;
        return Err(format!("refused {:?}", effect));
    }
    host.log.push(effect);
    match effect {
        Effect::Remember(snapshot) => host.remembered = Some(snapshot),
        Effect::Resize { width, height } => {
            host.window.width = width;
            host.window.height = height;
            host.anchored = false;
        }
        Effect::MoveTo { x, y } => {
            host.window.x = x;
            host.window.y = y;
            host.anchored = false;
        }
        Effect::SnapToTray => host.anchored = true,
        Effect::SetResizable(resizable) => host.window.resizable = resizable,
        Effect::SetDecorations(decorated) => host.window.decorated = decorated,
        Effect::SetButtonHidden { button, hidden } => match button {
            WindowButton::Close => host.hidden[0] = hidden,
            WindowButton::Miniaturize => host.hidden[1] = hidden,
            WindowButton::Zoom => host.hidden[2] = hidden,
        },
        Effect::Show => host.visible = true,
        Effect::Hide => {
            host.visible = false;
            host.focused = false;
        }
        Effect::Focus => {
            host.focused = true;
            host.active = true;
        }
        Effect::ReleaseActivation => host.active = false,
        Effect::VetoClose => host.vetoed = true,
        Effect::StorePreference(flag) => host.stored = flag,
        Effect::RefreshTray(mode) => host.tray = Some(mode),
        Effect::Quit => host.running = false,
    }
    Ok(())
}

/// Hands `event` to the shell and carries out what it asks for, to the end.
fn drive(shell: &mut Shell, host: &mut Host, event: Event) -> Step {
    let mut step = shell.handle(event);
    loop {
        match step {
            Step::Perform(effect) => {
                let outcome = perform(host, effect);
                step = shell.report(outcome);
            }
            other => return other,
        }
    }
}

#[test]
fn startup_reads_the_preference() {
    let fresh = Shell::startup(Platform::standard(), None, None);
    assert_eq!(fresh.mode(), AppMode::Normal);
    assert!(!fresh.preference());
    assert!(fresh.is_idle());
    assert_eq!(fresh.pending(), Step::Done);

    let normal = Shell::startup(Platform::standard(), Some(false), Some(wide()));
    assert_eq!(normal.mode(), AppMode::Normal);
    assert_eq!(normal.memory(), Some(wide()));

    let tray = Shell::startup(Platform::macos(), Some(true), Some(wide()));
    assert_eq!(tray.mode(), AppMode::TrayApp);
    assert!(tray.preference());
    assert_eq!(tray.platform(), Platform::macos());
}

#[test]
fn entering_tray_mode_reshapes_and_persists() {
    let mut shell = Shell::startup(Platform::standard(), Some(false), None);
    let mut desk = host(wide());
    let step = drive(&mut shell, &mut desk, Event::ModeRequested { target: AppMode::TrayApp, live: wide() });
    assert_eq!(step, Step::Done);
    assert_eq!(
        desk.log,
        vec![
            Effect::Remember(wide()),
            Effect::Resize { width: 400, height: 600 },
            Effect::MoveTo { x: 100, y: 100 },
            Effect::SetResizable(false),
            Effect::SetDecorations(false),
            Effect::StorePreference(true),
            Effect::RefreshTray(AppMode::TrayApp),
        ]
    );
    assert_eq!(
        desk.window,
        WindowSnapshot { width: 400, height: 600, x: 100, y: 100, decorated: false, resizable: false }
    );
    assert!(desk.stored);
    assert_eq!(desk.tray, Some(AppMode::TrayApp));
    assert_eq!(shell.mode(), AppMode::TrayApp);
    assert!(shell.preference());
    assert_eq!(shell.memory(), Some(wide()));
    assert!(shell.is_idle());
}

#[test]
fn leaving_tray_mode_restores_the_window() {
    let mut shell = Shell::startup(Platform::standard(), Some(false), None);
    let mut desk = host(wide());
    drive(&mut shell, &mut desk, Event::ModeRequested { target: AppMode::TrayApp, live: wide() });
    desk.log.clear();
    let seen = desk.window;
    let step = shell.set_mode(AppMode::Normal, seen);
    assert_eq!(step, Step::Perform(Effect::SetResizable(true)));
    let mut step = step;
    while let Step::Perform(effect) = step {
        let outcome = perform(&mut desk, effect);
        step = shell.report(outcome);
    }
    assert_eq!(step, Step::Done);
    assert_eq!(
        desk.log,
        vec![
            Effect::SetResizable(true),
            Effect::Resize { width: 1280, height: 800 },
            Effect::MoveTo { x: 37, y: -12 },
            Effect::SetDecorations(true),
            Effect::SetResizable(true),
            Effect::StorePreference(false),
            Effect::RefreshTray(AppMode::Normal),
        ]
    );
    assert_eq!(desk.window, wide());
    assert!(!desk.stored);
    assert_eq!(shell.mode(), AppMode::Normal);
    assert!(!shell.preference());
}

#[test]
fn round_trip_keeps_an_undecorated_fixed_window() {
    let odd = WindowSnapshot { width: 1, height: u32::MAX, x: i32::MIN, y: i32::MAX, decorated: false, resizable: false };
    for platform in [Platform::standard(), Platform::macos()] {
        let mut shell = Shell::startup(platform, Some(false), Some(wide()));
        let mut desk = host(odd);
        assert_eq!(drive(&mut shell, &mut desk, Event::ModeRequested { target: AppMode::TrayApp, live: odd }), Step::Done);
        assert_eq!(desk.remembered, Some(odd));
        let seen = desk.window;
        assert_eq!(drive(&mut shell, &mut desk, Event::ModeRequested { target: AppMode::Normal, live: seen }), Step::Done);
        assert_eq!(desk.window, odd);
        assert_eq!(shell.mode(), AppMode::Normal);
    }
}

#[test]
fn native_buttons_are_hidden_one_by_one() {
    let mut shell = Shell::startup(Platform::macos(), Some(false), None);
    let mut desk = host(wide());
    assert_eq!(drive(&mut shell, &mut desk, Event::ModeRequested { target: AppMode::TrayApp, live: wide() }), Step::Done);
    assert_eq!(
        desk.log,
        vec![
            Effect::Remember(wide()),
            Effect::Resize { width: 400, height: 600 },
            Effect::MoveTo { x: 100, y: 100 },
            Effect::SetResizable(false),
            Effect::SetButtonHidden { button: WindowButton::Close, hidden: true },
            Effect::SetButtonHidden { button: WindowButton::Miniaturize, hidden: true },
            Effect::SetButtonHidden { button: WindowButton::Zoom, hidden: true },
            Effect::StorePreference(true),
            Effect::RefreshTray(AppMode::TrayApp),
        ]
    );
    assert_eq!(desk.hidden, [true, true, true]);
    assert!(desk.window.decorated);
    let seen = desk.window;
    assert_eq!(drive(&mut shell, &mut desk, Event::ModeRequested { target: AppMode::Normal, live: seen }), Step::Done);
    assert_eq!(desk.hidden, [false, false, false]);
    assert_eq!(desk.window, wide());
}

#[test]
fn asking_for_the_present_mode_only_refreshes_the_tray() {
    let mut shell = Shell::startup(Platform::standard(), Some(true), Some(wide()));
    let mut desk = host(wide());
    desk.stored = true;
    let before = desk.window;
    assert_eq!(drive(&mut shell, &mut desk, Event::ModeRequested { target: AppMode::TrayApp, live: before }), Step::Done);
    assert_eq!(desk.log, vec![Effect::RefreshTray(AppMode::TrayApp)]);
    assert_eq!(shell.mode(), AppMode::TrayApp);
    assert!(shell.preference());
    assert_eq!(shell.memory(), Some(wide()));
    assert_eq!(desk.window, before);
}

#[test]
fn leaving_without_a_snapshot_gives_chrome_and_resizing_back() {
    let mut shell = Shell::startup(Platform::standard(), Some(true), None);
    let mut desk = host(WindowSnapshot { width: 400, height: 600, x: 5, y: 6, decorated: false, resizable: false });
    desk.stored = true;
    let seen = desk.window;
    assert_eq!(drive(&mut shell, &mut desk, Event::ModeRequested { target: AppMode::Normal, live: seen }), Step::Done);
    assert_eq!(
        desk.log,
        vec![
            Effect::SetResizable(true),
            Effect::SetDecorations(true),
            Effect::StorePreference(false),
            Effect::RefreshTray(AppMode::Normal),
        ]
    );
    assert_eq!(desk.window, WindowSnapshot { width: 400, height: 600, x: 5, y: 6, decorated: true, resizable: true });
    assert_eq!(shell.mode(), AppMode::Normal);
}

#[test]
fn failed_window_operation_keeps_the_mode() {
    let mut shell = Shell::startup(Platform::standard(), Some(false), None);
    let mut desk = host(wide());
    desk.fail_at = Some(2);
    let step = drive(&mut shell, &mut desk, Event::ModeRequested { target: AppMode::TrayApp, live: wide() });
    assert_eq!(
        step,
        Step::Failed(ModeError::PlatformOperationFailed {
            operation: Effect::MoveTo { x: 100, y: 100 },
            cause: "refused MoveTo { x: 100, y: 100 }".to_string(),
        })
    );
    assert_eq!(shell.mode(), AppMode::Normal);
    assert!(!shell.preference());
    assert!(!desk.stored);
    assert!(shell.is_idle());
    assert_eq!(desk.log, vec![Effect::Remember(wide()), Effect::Resize { width: 400, height: 600 }]);
}

#[test]
fn failed_preference_write_keeps_the_mode_and_the_geometry() {
    let mut shell = Shell::startup(Platform::standard(), Some(false), None);
    let mut desk = host(wide());
    desk.fail_at = Some(5);
    let step = drive(&mut shell, &mut desk, Event::ModeRequested { target: AppMode::TrayApp, live: wide() });
    assert_eq!(
        step,
        Step::Failed(ModeError::PersistenceFailed { cause: "refused StorePreference(true)".to_string() })
    );
    assert_eq!(shell.mode(), AppMode::Normal);
    assert!(!shell.preference());
    assert!(!desk.stored);
    assert_eq!(desk.window.width, 400);
    assert_eq!(desk.tray, None);
}

#[test]
fn failed_snapshot_write_is_a_persistence_failure() {
    let mut shell = Shell::startup(Platform::standard(), Some(false), None);
    let mut desk = host(wide());
    desk.fail_at = Some(0);
    let step = drive(&mut shell, &mut desk, Event::ModeRequested { target: AppMode::TrayApp, live: wide() });
    assert_eq!(step, Step::Failed(ModeError::PersistenceFailed { cause: "refused Remember(WindowSnapshot { width: 1280, height: 800, x: 37, y: -12, decorated: true, resizable: true })".to_string() }));
    assert_eq!(desk.window, wide());
    assert_eq!(shell.memory(), None);
    assert_eq!(shell.mode(), AppMode::Normal);
}

#[test]
fn failed_tray_refresh_comes_after_the_commit() {
    let mut shell = Shell::startup(Platform::standard(), Some(false), None);
    let mut desk = host(wide());
    desk.fail_at = Some(6);
    let step = drive(&mut shell, &mut desk, Event::ModeRequested { target: AppMode::TrayApp, live: wide() });
    assert_eq!(
        step,
        Step::Failed(ModeError::PlatformOperationFailed {
            operation: Effect::RefreshTray(AppMode::TrayApp),
            cause: "refused RefreshTray(TrayApp)".to_string(),
        })
    );
    assert_eq!(shell.mode(), AppMode::TrayApp);
    assert!(shell.preference());
    assert!(desk.stored);
}

#[test]
fn second_event_is_refused_while_one_is_in_flight() {
    let mut shell = Shell::startup(Platform::standard(), Some(false), None);
    let first = shell.handle(Event::TrayClicked { visible: false });
    assert_eq!(first, Step::Perform(Effect::Show));
    assert!(!shell.is_idle());
    assert_eq!(shell.handle(Event::CloseRequested), Step::Busy);
    assert_eq!(shell.set_mode(AppMode::TrayApp, wide()), Step::Busy);
    assert_eq!(shell.pending(), Step::Perform(Effect::Show));
    assert_eq!(shell.report(Ok(())), Step::Perform(Effect::Focus));
    assert_eq!(shell.report(Ok(())), Step::Done);
    assert!(shell.is_idle());
    assert_eq!(shell.report(Ok(())), Step::Done);
    assert_eq!(shell.report(Err("late".to_string())), Step::Done);
    assert_eq!(shell.mode(), AppMode::Normal);
}

#[test]
fn toggle_twice_returns_to_the_first_mode() {
    let mut shell = Shell::startup(Platform::standard(), Some(false), None);
    let mut desk = host(wide());
    desk.visible = false;
    let live = desk.window;
    assert_eq!(drive(&mut shell, &mut desk, Event::MenuItemClicked { item: MenuItem::of_id("toggle"), live }), Step::Done);
    assert_eq!(shell.mode(), AppMode::TrayApp);
    assert!(shell.preference());
    assert!(desk.stored);
    assert!(desk.visible && desk.focused);
    let live = desk.window;
    assert_eq!(drive(&mut shell, &mut desk, Event::MenuItemClicked { item: MenuItem::of_id("toggle"), live }), Step::Done);
    assert_eq!(shell.mode(), AppMode::Normal);
    assert!(!shell.preference());
    assert!(!desk.stored);
    assert_eq!(desk.window, wide());
    assert_eq!(desk.log[desk.log.len() - 2..], [Effect::Show, Effect::Focus]);
}

#[test]
fn tray_click_in_tray_mode_snaps_then_toggles_visibility() {
    let mut shell = Shell::startup(Platform::standard(), Some(true), None);
    let mut desk = host(wide());
    desk.visible = true;
    assert_eq!(drive(&mut shell, &mut desk, Event::TrayClicked { visible: true }), Step::Done);
    assert_eq!(desk.log, vec![Effect::SnapToTray, Effect::Hide]);
    assert!(!desk.visible && desk.anchored);
    desk.log.clear();
    desk.anchored = false;
    assert_eq!(drive(&mut shell, &mut desk, Event::TrayClicked { visible: false }), Step::Done);
    assert_eq!(desk.log, vec![Effect::SnapToTray, Effect::Show, Effect::Focus]);
    assert!(desk.visible && desk.focused && desk.anchored);
}

#[test]
fn tray_click_in_normal_mode_raises_the_window() {
    let mut shell = Shell::startup(Platform::standard(), Some(false), None);
    for visible in [true, false] {
        let mut desk = host(wide());
        desk.visible = visible;
        assert_eq!(drive(&mut shell, &mut desk, Event::TrayClicked { visible }), Step::Done);
        assert_eq!(desk.log, vec![Effect::Show, Effect::Focus]);
        assert!(desk.visible && desk.focused && !desk.anchored);
    }
}

#[test]
fn tray_click_that_fails_to_snap_shows_nothing() {
    let mut shell = Shell::startup(Platform::standard(), Some(true), None);
    let mut desk = host(wide());
    desk.visible = false;
    desk.fail_at = Some(0);
    let step = drive(&mut shell, &mut desk, Event::TrayClicked { visible: false });
    assert_eq!(
        step,
        Step::Failed(ModeError::PlatformOperationFailed { operation: Effect::SnapToTray, cause: "refused SnapToTray".to_string() })
    );
    assert!(!desk.visible);
    assert!(desk.log.is_empty());
}

#[test]
fn menu_entries_do_what_their_identifiers_say() {
    for id in ["focus", "text", "dashboard"] {
        let mut shell = Shell::startup(Platform::standard(), Some(true), None);
        let mut desk = host(wide());
        desk.visible = false;
        assert_eq!(drive(&mut shell, &mut desk, Event::MenuItemClicked { item: MenuItem::of_id(id), live: wide() }), Step::Done);
        assert_eq!(desk.log, vec![Effect::Show, Effect::Focus]);
        assert_eq!(shell.mode(), AppMode::TrayApp);
    }
    for id in ["title", "", "Quit", "toggle ", "focus\0"] {
        let mut shell = Shell::startup(Platform::standard(), Some(false), None);
        let mut desk = host(wide());
        assert_eq!(drive(&mut shell, &mut desk, Event::MenuItemClicked { item: MenuItem::of_id(id), live: wide() }), Step::Done);
        assert!(desk.log.is_empty());
        assert!(desk.running);
    }
    let mut shell = Shell::startup(Platform::standard(), Some(false), None);
    let mut desk = host(wide());
    assert_eq!(drive(&mut shell, &mut desk, Event::MenuItemClicked { item: MenuItem::of_id("quit"), live: wide() }), Step::Done);
    assert_eq!(desk.log, vec![Effect::Quit]);
    assert!(!desk.running);
}

#[test]
fn menu_identifiers_are_read_exactly() {
    assert_eq!(MenuItem::of_id("title"), MenuItem::Title);
    assert_eq!(MenuItem::of_id("text"), MenuItem::Text);
    assert_eq!(MenuItem::of_id("focus"), MenuItem::Focus);
    assert_eq!(MenuItem::of_id("dashboard"), MenuItem::Dashboard);
    assert_eq!(MenuItem::of_id("toggle"), MenuItem::Toggle);
    assert_eq!(MenuItem::of_id("quit"), MenuItem::Quit);
    assert_eq!(MenuItem::of_id("Toggle"), MenuItem::Unknown);
    assert_eq!(MenuItem::of_id("quit!"), MenuItem::Unknown);
    assert_eq!(WindowRole::of_label("main"), WindowRole::Main);
    assert_eq!(WindowRole::of_label("tray"), WindowRole::Secondary);
    assert_eq!(WindowRole::of_label("Main"), WindowRole::Secondary);
    assert_eq!(WindowRole::of_label(""), WindowRole::Secondary);
}

#[test]
fn close_request_is_refused_and_hides_in_both_modes() {
    for stored in [false, true] {
        let mut shell = Shell::startup(Platform::standard(), Some(stored), None);
        let mut desk = host(wide());
        assert_eq!(drive(&mut shell, &mut desk, Event::CloseRequested), Step::Done);
        assert_eq!(desk.log, vec![Effect::VetoClose, Effect::Hide]);
        assert!(desk.vetoed && !desk.visible && desk.running);
        assert_eq!(shell.mode(), AppMode::from_flag(stored));
    }
}

#[test]
fn close_request_is_refused_even_when_hiding_fails() {
    let mut shell = Shell::startup(Platform::standard(), Some(false), None);
    let mut desk = host(wide());
    desk.fail_at = Some(1);
    let step = drive(&mut shell, &mut desk, Event::CloseRequested);
    assert_eq!(step, Step::Failed(ModeError::PlatformOperationFailed { operation: Effect::Hide, cause: "refused Hide".to_string() }));
    assert!(desk.vetoed && desk.running);
}

#[test]
fn focus_loss_hides_the_main_window_in_tray_mode_only() {
    let mut tray = Shell::startup(Platform::standard(), Some(true), None);
    let mut desk = host(wide());
    assert_eq!(drive(&mut tray, &mut desk, Event::FocusLost { window: WindowRole::of_label("main") }), Step::Done);
    assert_eq!(desk.log, vec![Effect::Hide]);
    assert!(desk.active);

    let mut desk = host(wide());
    assert_eq!(drive(&mut tray, &mut desk, Event::FocusLost { window: WindowRole::of_label("auth") }), Step::Done);
    assert!(desk.log.is_empty());

    let mut normal = Shell::startup(Platform::standard(), Some(false), None);
    let mut desk = host(wide());
    assert_eq!(drive(&mut normal, &mut desk, Event::FocusLost { window: WindowRole::Main }), Step::Done);
    assert!(desk.log.is_empty() && desk.visible);

    let mut mac = Shell::startup(Platform::macos(), Some(true), None);
    let mut desk = host(wide());
    assert_eq!(drive(&mut mac, &mut desk, Event::FocusLost { window: WindowRole::Main }), Step::Done);
    assert_eq!(desk.log, vec![Effect::Hide, Effect::ReleaseActivation]);
    assert!(!desk.visible && !desk.active);
}

#[test]
fn move_to_the_sentinel_snaps_to_the_tray() {
    let mut shell = Shell::startup(Platform::standard(), Some(true), None);
    let mut desk = host(wide());
    assert_eq!(drive(&mut shell, &mut desk, Event::Moved { x: 100, y: 100 }), Step::Done);
    assert_eq!(desk.log, vec![Effect::SnapToTray]);
    assert!(desk.anchored);
    for (x, y) in [(100, 101), (99, 100), (0, 0), (-100, -100), (100, -100)] {
        let mut desk = host(wide());
        assert_eq!(drive(&mut shell, &mut desk, Event::Moved { x, y }), Step::Done);
        assert!(desk.log.is_empty());
    }
}

#[test]
fn any_sequence_of_requests_ends_in_the_last_mode() {
    let mut shell = Shell::startup(Platform::standard(), None, None);
    let mut desk = host(wide());
    let targets = [
        AppMode::TrayApp,
        AppMode::TrayApp,
        AppMode::Normal,
        AppMode::TrayApp,
        AppMode::Normal,
        AppMode::Normal,
    ];
    for target in targets {
        let live = desk.window;
        assert_eq!(drive(&mut shell, &mut desk, Event::ModeRequested { target, live }), Step::Done);
        assert_eq!(shell.mode(), target);
        assert_eq!(shell.preference(), target.is_tray_app());
        assert_eq!(desk.stored, target == AppMode::TrayApp);
        assert_eq!(desk.tray, Some(target));
        assert_eq!(shell.memory(), desk.remembered);
    }
    assert_eq!(desk.window, wide());
    assert_eq!(AppMode::Normal.toggled(), AppMode::TrayApp);
    assert_eq!(AppMode::TrayApp.toggled(), AppMode::Normal);
}
