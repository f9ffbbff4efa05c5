use opensync::cli::{output_file_name, run, Cli, CommandPlan, Commands, DownloadProgress, SyncArgs};
use opensync::desktop::{
    fallback_icon_rgba, icon_target_size, map_mouse_button, menu_action, menu_selection, MenuSelection, MouseButton,
    PointerButton, TrayAction as DesktopAction, TrayMenu, TrayMenuIds, UiEvent, WindowEvent, WindowState,
};
use opensync::device::{host_name_or_unknown, needs_registration, platform_label, registration_from_response, DeviceCreateResponse};
use opensync::services::{stop_on_exit, ServiceTransition, ServicesState};
use opensync::socket::socket_auth;
use opensync::state::{AuthSession, AuthState, CacheState};
use opensync::storage::{auth_column_migration, DeviceRegistration, Session};
use opensync::text::{decimal, same_text, signed_decimal, strip_prefix};
use opensync::tray::{
    connection_indicator, menu_event_action, tray_event_action, ConnectionState, StatusIcon, TrayAction, TrayButtonState,
    TrayIconEventKind, TrayMouseButton,
};
use opensync::api::{accept_claims, bearer_token, token_secret, AppError, TokenClaims};

fn session() -> AuthSession {
    AuthSession {
        user_id: "u".to_string(),
        name: "n".to_string(),
        email: "e".to_string(),
        token: "t".to_string(),
        device_id: "d".to_string(),
    }
}

#[test]
fn auth_state_round_trip() {
    let mut auth = AuthState::new(None);
    assert!(!auth.is_logged_in());
    assert!(auth.session().is_none());
    auth.set_session(Some(session()));
    assert!(auth.is_logged_in());
    assert_eq!(auth.session().unwrap().token, "t");
    auth.set_session(None);
    assert!(!auth.is_logged_in());
}

#[test]
fn auth_session_from_stored_session() {
    let stored = Session {
        user_id: "u".to_string(),
        name: "n".to_string(),
        email: "e".to_string(),
        token: "t".to_string(),
        device_id: "d".to_string(),
    };
    let s = AuthSession::from(stored);
    assert_eq!(s.user_id, "u");
    assert_eq!(s.device_id, "d");
}

#[test]
fn cache_state_starts_empty() {
    let state = CacheState::new();
    assert!(!state.cache().contains("x"));
}

#[test]
fn services_follow_auth() {
    let mut s = ServicesState::new();
    assert!(!s.running());
    assert_eq!(s.sync_with_auth(false), ServiceTransition::Unchanged);
    assert_eq!(s.sync_with_auth(true), ServiceTransition::Start);
    assert_eq!(s.sync_with_auth(true), ServiceTransition::Unchanged);
    assert!(s.running());
    assert_eq!(s.set_enabled(false, true), ServiceTransition::Stop);
    assert!(!s.running());
    assert_eq!(s.set_enabled(true, true), ServiceTransition::Start);
    assert_eq!(s.sync_with_auth(false), ServiceTransition::Stop);
    assert_eq!(s.stop(), ServiceTransition::Unchanged);
    assert_eq!(s.start(), ServiceTransition::Start);
    assert_eq!(s.start(), ServiceTransition::Unchanged);
    assert_eq!(stop_on_exit(Some(&mut s)), ServiceTransition::Stop);
    assert_eq!(stop_on_exit(None), ServiceTransition::Unchanged);
}

#[test]
fn tray_menu_and_clicks() {
    assert_eq!(menu_event_action("tray.open"), TrayAction::ShowMainWindow);
    assert_eq!(menu_event_action("tray.close"), TrayAction::HideMainWindow);
    assert_eq!(menu_event_action("tray.quit"), TrayAction::Quit);
    assert_eq!(menu_event_action("tray.connection"), TrayAction::Nothing);
    let up = TrayIconEventKind::Click { button: TrayMouseButton::Left, button_state: TrayButtonState::Up };
    let down = TrayIconEventKind::Click { button: TrayMouseButton::Left, button_state: TrayButtonState::Down };
    let right = TrayIconEventKind::Click { button: TrayMouseButton::Right, button_state: TrayButtonState::Up };
    assert_eq!(tray_event_action(up), TrayAction::ShowMainWindow);
    assert_eq!(tray_event_action(down), TrayAction::Nothing);
    assert_eq!(tray_event_action(right), TrayAction::Nothing);
    assert_eq!(tray_event_action(TrayIconEventKind::Other), TrayAction::Nothing);
}

#[test]
fn connection_labels() {
    assert_eq!(connection_indicator(ConnectionState::Offline), ("Offline", StatusIcon::Unavailable));
    assert_eq!(connection_indicator(ConnectionState::Connecting), ("Connecting...", StatusIcon::PartiallyAvailable));
    assert_eq!(connection_indicator(ConnectionState::Connected), ("Connected", StatusIcon::Available));
}

#[test]
fn desktop_menu_selection_and_actions() {
    let ids = TrayMenuIds {
        open: "1".to_string(),
        show_logs: "2".to_string(),
        debug_hello: "3".to_string(),
        debug_state: "4".to_string(),
        quit: "5".to_string(),
    };
    assert_eq!(menu_selection(&ids, "1"), MenuSelection::Open);
    assert_eq!(menu_selection(&ids, "2"), MenuSelection::ShowLogs);
    assert_eq!(menu_selection(&ids, "3"), MenuSelection::DebugHello);
    assert_eq!(menu_selection(&ids, "4"), MenuSelection::DebugState);
    assert_eq!(menu_selection(&ids, "5"), MenuSelection::Quit);
    assert_eq!(menu_selection(&ids, "9"), MenuSelection::Unknown);
    assert_eq!(menu_action(MenuSelection::Open, true), DesktopAction::OpenWindow);
    assert_eq!(menu_action(MenuSelection::ShowLogs, true), DesktopAction::ToggleLogs(false));
    assert_eq!(menu_action(MenuSelection::ShowLogs, false), DesktopAction::ToggleLogs(true));
    assert_eq!(menu_action(MenuSelection::DebugHello, false), DesktopAction::Nothing);
    assert_eq!(menu_action(MenuSelection::Quit, false), DesktopAction::Quit);
}

#[test]
fn fallback_icon_is_white_square() {
    let icon = fallback_icon_rgba();
    assert_eq!(icon.len(), 22 * 22 * 4);
    assert!(icon.iter().all(|b| *b == 255));
    assert_eq!(icon_target_size(true), 32);
    assert_eq!(icon_target_size(false), 48);
}

#[test]
fn mouse_buttons_map() {
    assert_eq!(map_mouse_button(MouseButton::Left), Some(PointerButton::Primary));
    assert_eq!(map_mouse_button(MouseButton::Right), Some(PointerButton::Secondary));
    assert_eq!(map_mouse_button(MouseButton::Middle), Some(PointerButton::Middle));
    assert_eq!(map_mouse_button(MouseButton::Other), None);
}

#[test]
fn window_draws_once_per_request() {
    let mut w = WindowState::new();
    assert!(w.begin_redraw());
    assert!(!w.begin_redraw());
    w.request_redraw();
    w.close_requested();
    assert!(!w.begin_redraw());
    w.open();
    assert!(w.begin_redraw());
    assert!(!w.begin_redraw());
}

#[test]
fn cli_run_plans() {
    let plan = run(Cli { command: Commands::Sync(SyncArgs { path: ".".to_string() }) });
    match plan {
        CommandPlan::Download { url, base, subdirectory } => {
            assert_eq!(url, "http://localhost:3000/api/v1/test");
            assert_eq!(base, ".");
            assert_eq!(subdirectory, "test");
        }
        _ => panic!("expected a download"),
    }
    let plan = run(Cli { command: Commands::Upload(SyncArgs { path: "/tmp/x".to_string() }) });
    match plan {
        CommandPlan::Upload { url, path } => {
            assert_eq!(url, "http://localhost:3000/api/v1/upload");
            assert_eq!(path, "/tmp/x");
        }
        _ => panic!("expected an upload"),
    }
}

#[test]
fn output_file_names_and_decimals() {
    assert_eq!(output_file_name(1_700_000_000_123), "output_file_1700000000123");
    assert_eq!(output_file_name(0), "output_file_0");
    assert_eq!(decimal(u128::MAX), u128::MAX.to_string());
    assert_eq!(signed_decimal(i64::MIN), i64::MIN.to_string());
    assert_eq!(signed_decimal(-5), "-5");
    assert_eq!(signed_decimal(10), "10");
}

#[test]
fn download_progress_counts() {
    let mut p = DownloadProgress::new(Some(100));
    p.record(30);
    p.record(70);
    assert_eq!(p.downloaded, 100);
    assert_eq!(p.total, Some(100));
}

#[test]
fn text_helpers() {
    assert!(same_text("abc", "abc"));
    assert!(!same_text("abc", "abd"));
    assert_eq!(strip_prefix("Bearer xyz", "Bearer "), Some("xyz".to_string()));
    assert_eq!(strip_prefix("Basic xyz", "Bearer "), None);
    assert_eq!(strip_prefix("Bear", "Bearer "), None);
}

#[test]
fn auth_column_migration_statement() {
    let cols = vec!["id".to_string(), "name".to_string()];
    assert_eq!(
        auth_column_migration(&cols, "email", "TEXT NOT NULL DEFAULT ''"),
        Some("ALTER TABLE auth ADD COLUMN email TEXT NOT NULL DEFAULT ''".to_string())
    );
    assert_eq!(auth_column_migration(&cols, "name", "TEXT"), None);
}

#[test]
fn device_registration_decisions() {
    assert_eq!(platform_label("linux", "x86_64"), "linux x86_64");
    assert_eq!(host_name_or_unknown(None), "unknown");
    assert_eq!(host_name_or_unknown(Some("box".to_string())), "box");
    assert!(needs_registration(&None));
    let existing = DeviceRegistration {
        user_id: "u".to_string(),
        device_id: "d".to_string(),
        device_name: "n".to_string(),
        platform: "p".to_string(),
    };
    assert!(!needs_registration(&Some(existing)));
    let reg = registration_from_response(
        "u".to_string(),
        DeviceCreateResponse { device_id: Some("dev".to_string()), device_name: None, platform: Some("mac".to_string()) },
        "host".to_string(),
        "linux x86_64".to_string(),
    )
    .unwrap();
    assert_eq!(reg.device_id, "dev");
    assert_eq!(reg.device_name, "host");
    assert_eq!(reg.platform, "mac");
    let err = registration_from_response(
        "u".to_string(),
        DeviceCreateResponse { device_id: None, device_name: None, platform: None },
        "host".to_string(),
        "p".to_string(),
    )
    .unwrap_err();
    assert_eq!(err, "response missing device_id");
}

#[test]
fn bearer_tokens_and_claims() {
    assert_eq!(bearer_token(Some("Bearer abc.def")).unwrap(), "abc.def");
    let e = bearer_token(Some("Basic abc")).unwrap_err();
    assert_eq!(e.status, 401);
    assert_eq!(e.message, "Missing Bearer Token");
    assert!(bearer_token(None).is_err());
    let claims = TokenClaims { sub: "a".to_string(), iat: 1, exp: 2 };
    assert_eq!(accept_claims(Some(claims)).unwrap().sub, "a");
    let e = accept_claims(None).unwrap_err();
    assert_eq!(e.message, "Invalid bearer token");
    assert_eq!(token_secret(None), "Secret");
    assert_eq!(token_secret(Some("s3".to_string())), "s3");
    assert_eq!(AppError::internal("boom".to_string()).status, 500);
    assert_eq!(AppError::with_status(404, "x".to_string()).status, 404);
}

#[test]
fn socket_credentials() {
    let a = socket_auth(Some(session())).unwrap();
    assert_eq!(a.token, "t");
    assert_eq!(a.user_id, "u");
    assert_eq!(a.email, "e");
    assert_eq!(a.name, "n");
    assert_eq!(socket_auth(None).unwrap_err(), "socket service requires an authenticated session");
}

#[test]
fn this_device_has_a_name() {
    let name = opensync::device::this_device_name();
    assert!(!name.is_empty());
}

#[test]
fn show_logs_tick_flips_and_flips_back() {
    let ids = TrayMenuIds {
        open: "1".to_string(),
        show_logs: "2".to_string(),
        debug_hello: "3".to_string(),
        debug_state: "4".to_string(),
        quit: "5".to_string(),
    };
    let mut menu = TrayMenu::new(ids);
    assert!(menu.show_logs_checked());
    assert_eq!(menu.handle_menu_event("2"), DesktopAction::ToggleLogs(false));
    assert!(!menu.show_logs_checked());
    assert_eq!(menu.handle_menu_event("1"), DesktopAction::OpenWindow);
    assert!(!menu.show_logs_checked());
    assert_eq!(menu.handle_menu_event("3"), DesktopAction::Nothing);
    assert_eq!(menu.handle_menu_event("4"), DesktopAction::Nothing);
    assert_eq!(menu.handle_menu_event("2"), DesktopAction::ToggleLogs(true));
    assert!(menu.show_logs_checked());
    assert_eq!(menu.handle_menu_event("5"), DesktopAction::Quit);
    assert_eq!(menu.handle_menu_event("x"), DesktopAction::Nothing);
    assert!(menu.show_logs_checked());
    assert_eq!(menu.ids().quit, "5");
    assert_eq!(menu.handle_tray_event(), DesktopAction::Nothing);
}

#[test]
fn window_events_update_cursor_and_redraws() {
    let mut w = WindowState::new();
    assert!(!w.cursor_known);
    assert!(w.begin_redraw());
    assert!(!w.needs_redraw);
    let press = WindowEvent::MouseInput { button: MouseButton::Left, pressed: true };
    assert_eq!(w.handle_window_event(press), None);
    assert!(!w.needs_redraw);
    assert_eq!(w.handle_window_event(WindowEvent::CursorMoved), Some(UiEvent::PointerMoved));
    assert!(w.cursor_known && w.needs_redraw);
    assert!(w.begin_redraw());
    assert_eq!(
        w.handle_window_event(press),
        Some(UiEvent::PointerButton { button: PointerButton::Primary, pressed: true })
    );
    assert!(w.needs_redraw);
    assert!(w.begin_redraw());
    let other = WindowEvent::MouseInput { button: MouseButton::Other, pressed: false };
    assert_eq!(w.handle_window_event(other), None);
    assert!(!w.needs_redraw);
    assert_eq!(w.handle_window_event(WindowEvent::CursorLeft), Some(UiEvent::PointerGone));
    assert!(!w.cursor_known && w.needs_redraw);
    assert_eq!(w.handle_window_event(press), None);
    assert_eq!(w.handle_window_event(WindowEvent::MouseWheel), Some(UiEvent::MouseWheel));
    assert_eq!(w.handle_window_event(WindowEvent::Resized), None);
    assert!(w.needs_redraw);
    assert_eq!(w.handle_window_event(WindowEvent::CloseRequested), None);
    assert!(!w.visible);
    assert!(!w.begin_redraw());
    assert_eq!(w.handle_window_event(WindowEvent::Other), None);
}
