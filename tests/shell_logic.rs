use unpod_runtime::activation::{
    activation_plan, maximize_toggle, on_event, ActivationEvent, MaximizeAction,
    NotificationSource, WindowAction, WindowState,
};
use unpod_runtime::badge::{badge_value, title_text, tooltip_text, TrayState};
use unpod_runtime::commands::{confirm_saved, theme, update_gate, update_status};
use unpod_runtime::decimal_text;
use unpod_runtime::menu::{
    app_menu, command_for_id, tray_click, tray_menu, ButtonState, MouseButton, StandardItem,
    TrayCommand, TrayEntry,
};
use unpod_runtime::notify::{permission_label, request_outcome, NotifyError, Permission, ShowAction, ShowEvent, ShowFlow};
use unpod_runtime::paths::BundlePath;
use unpod_runtime::session::SessionStore;
use unpod_runtime::supervisor::{
    runtime_path, stop_command, windows_runtime_path, Mode, Platform, ProcessHandle, ServerSlot,
    StartAction, StartEvent, StartStep, StartupError, Starter,
};

fn path(parts: &[&str]) -> BundlePath {
    BundlePath::from_parts(parts.iter().map(|p| p.to_string()).collect())
}

fn parts(p: &BundlePath) -> Vec<&str> {
    p.parts.iter().map(|s| s.as_str()).collect()
}

#[test]
fn decimal_text_writes_digits() {
    assert_eq!(decimal_text(0), "0");
    assert_eq!(decimal_text(7), "7");
    assert_eq!(decimal_text(10), "10");
    assert_eq!(decimal_text(4294967295), "4294967295");
    assert_eq!(decimal_text(u64::MAX), u64::MAX.to_string());
}

#[test]
fn badge_zero_shows_name_and_clears() {
    assert_eq!(tooltip_text(0), "Unpod");
    assert_eq!(title_text(0), "Unpod");
    assert_eq!(badge_value(0), None);
}

#[test]
fn badge_one_is_singular() {
    assert_eq!(tooltip_text(1), "Unpod - 1 unread notification");
    assert_eq!(title_text(1), "(1) Unpod");
    assert_eq!(badge_value(1), Some(1));
}

#[test]
fn badge_five_is_plural() {
    assert_eq!(tooltip_text(5), "Unpod - 5 unread notifications");
    assert_eq!(title_text(5), "(5) Unpod");
    assert_eq!(badge_value(5), Some(5));
}

#[test]
fn badge_largest_count() {
    assert_eq!(tooltip_text(u32::MAX), "Unpod - 4294967295 unread notifications");
    assert_eq!(badge_value(u32::MAX), Some(4294967295));
}

#[test]
fn tray_state_follows_count() {
    let mut t = TrayState::new();
    assert_eq!(t.count(), 0);
    assert_eq!(t.tooltip(), "Unpod");
    t.set_badge(5);
    assert_eq!(t.count(), 5);
    assert_eq!(t.tooltip(), "Unpod - 5 unread notifications");
    assert_eq!(t.title(), "(5) Unpod");
    assert_eq!(t.badge(), Some(5));
    t.set_badge(0);
    assert_eq!(t.title(), "Unpod");
    assert_eq!(t.badge(), None);
}

#[test]
fn session_set_then_get() {
    let mut s = SessionStore::new();
    s.set("k".to_string(), "v".to_string());
    assert_eq!(s.get("k"), Some("v".to_string()));
    s.set("k".to_string(), "w".to_string());
    assert_eq!(s.get("k"), Some("w".to_string()));
    assert_eq!(s.get("other"), None);
}

#[test]
fn session_delete_then_get() {
    let mut s = SessionStore::new();
    s.set("k".to_string(), "v".to_string());
    s.set("j".to_string(), "x".to_string());
    s.delete("k");
    assert_eq!(s.get("k"), None);
    assert_eq!(s.get("j"), Some("x".to_string()));
    s.delete("absent");
    assert_eq!(s.get("j"), Some("x".to_string()));
}

#[test]
fn session_clear_then_get() {
    let mut s = SessionStore::new();
    s.set("a".to_string(), "1".to_string());
    s.set("b".to_string(), "2".to_string());
    s.clear();
    assert_eq!(s.get("a"), None);
    assert_eq!(s.get("b"), None);
}

#[test]
fn session_token_uses_reserved_key() {
    let mut s = SessionStore::new();
    assert_eq!(s.get_token(), None);
    s.set_token("secret".to_string());
    assert_eq!(s.get_token(), Some("secret".to_string()));
    assert_eq!(s.get("authToken"), Some("secret".to_string()));
    s.delete_token();
    assert_eq!(s.get_token(), None);
}

#[test]
fn stop_sentinel_sends_nothing() {
    let h = ProcessHandle { pid: 0, mode: Mode::Development };
    assert!(stop_command(Platform::Linux, h).is_none());
    assert!(stop_command(Platform::Windows, h).is_none());
    assert!(stop_command(Platform::MacOS, h).is_none());
}

#[test]
fn stop_forcefully_terminates_pid() {
    let h = ProcessHandle { pid: 4242, mode: Mode::Production };
    let c = stop_command(Platform::Linux, h).unwrap();
    assert_eq!(c.program, "kill");
    assert_eq!(c.args, vec!["-9".to_string(), "4242".to_string()]);
    let w = stop_command(Platform::Windows, h).unwrap();
    assert_eq!(w.program, "taskkill");
    assert_eq!(w.args, vec!["/PID".to_string(), "4242".to_string(), "/F".to_string()]);
}

#[test]
fn server_slot_stops_once() {
    let mut slot = ServerSlot::new();
    assert!(slot.take_stop(Platform::Linux).is_none());
    slot.record(ProcessHandle { pid: 77, mode: Mode::Production });
    assert_eq!(slot.current(), Some(ProcessHandle { pid: 77, mode: Mode::Production }));
    let c = slot.take_stop(Platform::MacOS).unwrap();
    assert_eq!(c.args, vec!["-9".to_string(), "77".to_string()]);
    assert!(slot.take_stop(Platform::MacOS).is_none());
    assert_eq!(slot.current(), None);
}

#[test]
fn development_start_returns_sentinel_at_once() {
    let mut s = Starter::new(Platform::Linux, Mode::Development);
    let a = s.next(StartEvent::Begin);
    assert!(matches!(
        a,
        StartAction::Finish(Ok(ProcessHandle { pid: 0, mode: Mode::Development }))
    ));
    assert!(matches!(s.step, StartStep::Done));
    assert!(matches!(s.next(StartEvent::Settled), StartAction::Ignore));
}

#[test]
fn production_start_on_linux() {
    let mut s = Starter::new(Platform::Linux, Mode::Production);
    assert!(matches!(s.next(StartEvent::Begin), StartAction::ResolveResourceDir));
    match s.next(StartEvent::ResourceDir(Some(path(&["/", "opt", "unpod", "resources"])))) {
        StartAction::CheckExists(p) => assert_eq!(parts(&p), vec!["/", "opt", "unpod", "resources", "server"]),
        _ => panic!("expected a check of the server directory"),
    }
    match s.next(StartEvent::Exists(true)) {
        StartAction::CheckExists(p) => assert_eq!(parts(&p), vec!["/", "opt", "unpod", "resources", "node"]),
        _ => panic!("expected a check of the runtime"),
    }
    match s.next(StartEvent::Exists(true)) {
        StartAction::Spawn(spec) => {
            assert_eq!(parts(&spec.program), vec!["/", "opt", "unpod", "resources", "node"]);
            assert_eq!(parts(&spec.script), vec!["/", "opt", "unpod", "resources", "server", "server.js"]);
            assert_eq!(parts(&spec.working_dir), vec!["/", "opt", "unpod", "resources", "server"]);
            assert_eq!(spec.env.len(), 2);
            assert_eq!(spec.env[0].name, "NODE_ENV");
            assert_eq!(spec.env[0].value, "production");
            assert_eq!(spec.env[1].name, "PORT");
            assert_eq!(spec.env[1].value, "3000");
        }
        _ => panic!("expected a launch"),
    }
    assert!(matches!(s.next(StartEvent::Spawned(Some(901))), StartAction::Sleep { seconds: 2 }));
    assert!(matches!(
        s.next(StartEvent::Settled),
        StartAction::Finish(Ok(ProcessHandle { pid: 901, mode: Mode::Production }))
    ));
}

#[test]
fn production_start_on_windows_uses_executable_dir() {
    let mut s = Starter::new(Platform::Windows, Mode::Production);
    s.next(StartEvent::Begin);
    s.next(StartEvent::ResourceDir(Some(path(&["C:\\", "Unpod"]))));
    assert!(matches!(s.next(StartEvent::Exists(true)), StartAction::ResolveExecutable));
    match s.next(StartEvent::Executable(Some(path(&["C:\\", "Unpod", "unpod.exe"])))) {
        StartAction::CheckExists(p) => assert_eq!(parts(&p), vec!["C:\\", "Unpod", "node.exe"]),
        _ => panic!("expected a check of the runtime"),
    }
}

#[test]
fn runtime_paths_per_platform() {
    let rd = path(&["/", "Applications", "Unpod.app", "Contents", "Resources"]);
    let mac = runtime_path(Platform::MacOS, &rd).unwrap();
    assert_eq!(parts(&mac), vec!["/", "Applications", "Unpod.app", "Contents", "MacOS", "node"]);
    let linux = runtime_path(Platform::Linux, &rd).unwrap();
    assert_eq!(parts(&linux), vec!["/", "Applications", "Unpod.app", "Contents", "Resources", "node"]);
    assert!(runtime_path(Platform::MacOS, &path(&[])).is_none());
    let win = windows_runtime_path(&path(&["D:\\", "apps", "unpod.exe"])).unwrap();
    assert_eq!(parts(&win), vec!["D:\\", "apps", "node.exe"]);
    assert!(windows_runtime_path(&path(&[])).is_none());
}

#[test]
fn start_fails_without_server_dir() {
    let mut s = Starter::new(Platform::MacOS, Mode::Production);
    s.next(StartEvent::Begin);
    s.next(StartEvent::ResourceDir(Some(path(&["/", "r"]))));
    assert!(matches!(s.next(StartEvent::Exists(false)), StartAction::Finish(Err(StartupError::MissingResource))));
}

#[test]
fn start_fails_without_runtime() {
    let mut s = Starter::new(Platform::Linux, Mode::Production);
    s.next(StartEvent::Begin);
    s.next(StartEvent::ResourceDir(Some(path(&["/", "r"]))));
    s.next(StartEvent::Exists(true));
    assert!(matches!(s.next(StartEvent::Exists(false)), StartAction::Finish(Err(StartupError::MissingRuntime))));
}

#[test]
fn start_fails_on_other_errors() {
    let mut s = Starter::new(Platform::Linux, Mode::Production);
    s.next(StartEvent::Begin);
    assert!(matches!(
        s.next(StartEvent::ResourceDir(None)),
        StartAction::Finish(Err(StartupError::ResourceDirUnavailable))
    ));
    let mut w = Starter::new(Platform::Windows, Mode::Production);
    w.next(StartEvent::Begin);
    w.next(StartEvent::ResourceDir(Some(path(&["C:\\"]))));
    w.next(StartEvent::Exists(true));
    assert!(matches!(
        w.next(StartEvent::Executable(None)),
        StartAction::Finish(Err(StartupError::RuntimeDirUnavailable))
    ));
    let mut l = Starter::new(Platform::Linux, Mode::Production);
    l.next(StartEvent::Begin);
    l.next(StartEvent::ResourceDir(Some(path(&["/", "r"]))));
    l.next(StartEvent::Exists(true));
    assert!(matches!(l.next(StartEvent::Spawned(None)), StartAction::Ignore));
    l.next(StartEvent::Exists(true));
    assert!(matches!(l.next(StartEvent::Spawned(None)), StartAction::Finish(Err(StartupError::SpawnFailed))));
}

#[test]
fn permission_labels() {
    assert_eq!(permission_label(Permission::Granted), "granted");
    assert_eq!(permission_label(Permission::Denied), "denied");
    assert_eq!(permission_label(Permission::Unknown), "unknown");
    assert!(request_outcome(Some(Permission::Granted)));
    assert!(!request_outcome(Some(Permission::Unknown)));
    assert!(!request_outcome(None));
}

#[test]
fn show_denied_never_displays() {
    for answer in [Some(Permission::Denied), Some(Permission::Unknown), None] {
        let mut f = ShowFlow::new(Mode::Production, "t".to_string(), "b".to_string());
        assert!(matches!(f.next(ShowEvent::Begin), ShowAction::RequestPermission));
        assert!(matches!(
            f.next(ShowEvent::Permission(answer)),
            ShowAction::Finish(Err(NotifyError::PermissionDenied))
        ));
        assert!(matches!(f.next(ShowEvent::Displayed(true)), ShowAction::Ignore));
        assert!(matches!(f.next(ShowEvent::Exists(true)), ShowAction::Ignore));
    }
}

#[test]
fn show_missing_icon_falls_back() {
    let mut f = ShowFlow::new(Mode::Development, "Hello".to_string(), "World".to_string());
    f.next(ShowEvent::Begin);
    match f.next(ShowEvent::Permission(Some(Permission::Granted))) {
        ShowAction::CheckExists(p) => assert_eq!(parts(&p), vec!["icons", "icon.png"]),
        _ => panic!("expected a check of the icon"),
    }
    assert!(matches!(f.next(ShowEvent::Exists(false)), ShowAction::Display { icon: None }));
    assert!(matches!(f.next(ShowEvent::Displayed(true)), ShowAction::Finish(Ok(()))));
    assert_eq!(f.title, "Hello");
    assert_eq!(f.body, "World");
}

#[test]
fn show_with_icon_in_production() {
    let mut f = ShowFlow::new(Mode::Production, "t".to_string(), "b".to_string());
    f.next(ShowEvent::Begin);
    assert!(matches!(f.next(ShowEvent::Permission(Some(Permission::Granted))), ShowAction::ResolveResourceDir));
    match f.next(ShowEvent::ResourceDir(Some(path(&["/", "res"])))) {
        ShowAction::CheckExists(p) => assert_eq!(parts(&p), vec!["/", "res", "icons", "icon.png"]),
        _ => panic!("expected a check of the icon"),
    }
    match f.next(ShowEvent::Exists(true)) {
        ShowAction::Display { icon: Some(p) } => assert_eq!(parts(&p), vec!["/", "res", "icons", "icon.png"]),
        _ => panic!("expected a display with icon"),
    }
    assert!(matches!(f.next(ShowEvent::Displayed(true)), ShowAction::Finish(Ok(()))));
}

#[test]
fn show_icon_failure_then_plain_failure() {
    let mut f = ShowFlow::new(Mode::Production, "t".to_string(), "b".to_string());
    f.next(ShowEvent::Begin);
    f.next(ShowEvent::Permission(Some(Permission::Granted)));
    f.next(ShowEvent::ResourceDir(Some(path(&["/", "res"]))));
    f.next(ShowEvent::Exists(true));
    assert!(matches!(f.next(ShowEvent::Displayed(false)), ShowAction::Display { icon: None }));
    assert!(matches!(f.next(ShowEvent::Displayed(false)), ShowAction::Finish(Err(NotifyError::DisplayError))));
}

#[test]
fn show_without_resource_dir_displays_plain() {
    let mut f = ShowFlow::new(Mode::Production, "t".to_string(), "b".to_string());
    f.next(ShowEvent::Begin);
    f.next(ShowEvent::Permission(Some(Permission::Granted)));
    assert!(matches!(f.next(ShowEvent::ResourceDir(None)), ShowAction::Display { icon: None }));
}

fn hidden() -> WindowState {
    WindowState { minimized: true, visible: false, focused: false, app_front: false }
}

#[test]
fn activation_plan_from_minimized() {
    assert_eq!(
        activation_plan(hidden(), Platform::MacOS),
        vec![WindowAction::Unminimize, WindowAction::Show, WindowAction::Focus, WindowAction::PromoteApp]
    );
    assert_eq!(
        activation_plan(hidden(), Platform::Windows),
        vec![WindowAction::Unminimize, WindowAction::Show, WindowAction::Focus]
    );
}

#[test]
fn focus_and_click_in_either_order() {
    let click = ActivationEvent::NotificationClicked(NotificationSource::Plain);
    for platform in [Platform::MacOS, Platform::Windows, Platform::Linux] {
        let a = on_event(on_event(hidden(), platform, ActivationEvent::FocusGained), platform, click);
        let b = on_event(on_event(hidden(), platform, click), platform, ActivationEvent::FocusGained);
        assert_eq!(a, b);
        assert!(!a.minimized && a.visible && a.focused);
        assert!(activation_plan(a, platform).is_empty());
    }
}

#[test]
fn close_request_does_not_activate() {
    let w = hidden();
    assert_eq!(on_event(w, Platform::Linux, ActivationEvent::CloseRequested), w);
    let shown = on_event(w, Platform::Linux, ActivationEvent::ShowRequested);
    assert!(shown.visible && shown.focused && !shown.minimized);
}

#[test]
fn notification_event_names() {
    let names: Vec<&str> = NotificationSource::all().iter().map(|s| s.event_name()).collect();
    assert_eq!(names, vec!["notification-action", "notification", "tauri://notification"]);
}

#[test]
fn maximize_toggles() {
    assert_eq!(maximize_toggle(true), MaximizeAction::Unmaximize);
    assert_eq!(maximize_toggle(false), MaximizeAction::Maximize);
}

#[test]
fn tray_menu_layout_and_dispatch() {
    assert_eq!(
        tray_menu(),
        vec![
            TrayEntry::Item(TrayCommand::Show),
            TrayEntry::Separator,
            TrayEntry::Item(TrayCommand::CheckUpdates),
            TrayEntry::Separator,
            TrayEntry::Item(TrayCommand::Quit),
        ]
    );
    assert_eq!(command_for_id("show"), Some(TrayCommand::Show));
    assert_eq!(command_for_id("check_updates"), Some(TrayCommand::CheckUpdates));
    assert_eq!(command_for_id("quit"), Some(TrayCommand::Quit));
    assert_eq!(command_for_id("other"), None);
    assert_eq!(TrayCommand::Show.label(), "Show App");
    assert_eq!(tray_click(MouseButton::Left, ButtonState::Up), Some(TrayCommand::Show));
    assert_eq!(tray_click(MouseButton::Left, ButtonState::Down), None);
    assert_eq!(tray_click(MouseButton::Right, ButtonState::Up), None);
}

#[test]
fn application_menu_layout() {
    let m = app_menu();
    let titles: Vec<&str> = m.iter().map(|g| g.title).collect();
    assert_eq!(titles, vec!["File", "Edit", "View", "Window"]);
    assert_eq!(m[0].items, vec![StandardItem::Quit]);
    assert_eq!(m[1].items.len(), 7);
    assert_eq!(m[2].items[1].label(), "Zoom");
    assert_eq!(m[3].items, vec![StandardItem::Minimize, StandardItem::CloseWindow]);
}

#[test]
fn update_commands() {
    assert_eq!(update_gate(Mode::Development), Err("Auto-updates disabled in development".to_string()));
    assert_eq!(update_gate(Mode::Production), Ok(()));
    assert_eq!(update_status(Some("1.2.3".to_string())), "Update available: 1.2.3");
    assert_eq!(update_status(None), "No update available");
    assert_eq!(theme(), "light");
}

#[test]
fn session_save_confirmation() {
    assert_eq!(confirm_saved(Ok(())), Ok(true));
    assert_eq!(confirm_saved(Err("disk full".to_string())), Err("disk full".to_string()));
}
