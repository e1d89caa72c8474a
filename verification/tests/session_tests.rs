use friendolls::app_data::AppDataRefreshScope;
use friendolls::accelerators::{
    AcceleratorAction, AcceleratorKey, AcceleratorMap, AcceleratorModifier, KeyboardAccelerator,
};
use friendolls::app_windows::{
    config_window_config, config_window_result, health_manager_window_config,
    open_config_manager_window, CLIENT_CONFIG_MANAGER_WINDOW_LABEL, CLIENT_CONFIG_WINDOW_LABEL,
    HEALTH_MANAGER_WINDOW_LABEL,
};
use friendolls::auth::{auth_endpoint, build_auth_pass, ensure_success, AuthError};
use friendolls::client_config::AppConfig;
use friendolls::platform::Platform;
use friendolls::client_config::ClientConfigError;
use friendolls::display::{next_probe_step, ProbeDecision, MONITOR_PROBE_ATTEMPTS};
use friendolls::session::{
    construct_user_session, destruct_user_session, handle_disastrous_failure, SessionStep,
};
use friendolls::window_manager::{EnsureOutcome, WindowKind};

#[test]
fn opening_a_session_refreshes_connects_and_shows_the_scene() {
    assert_eq!(
        construct_user_session(),
        vec![
            SessionStep::RefreshAppData(AppDataRefreshScope::All),
            SessionStep::ConnectRealtime,
            SessionStep::StartTokenRefresh,
            SessionStep::StartHealthMonitor,
            SessionStep::CloseAllWindows,
            SessionStep::OpenSceneWindow,
            SessionStep::UpdateTray(true),
        ]
    );
}

#[test]
fn closing_a_session_stops_everything_it_started() {
    let opened = construct_user_session();
    let closed = destruct_user_session();
    assert_eq!(closed.last(), Some(&SessionStep::UpdateTray(false)));
    for (start, stop) in [
        (SessionStep::StartHealthMonitor, SessionStep::StopHealthMonitor),
        (SessionStep::StartTokenRefresh, SessionStep::StopTokenRefresh),
        (SessionStep::ConnectRealtime, SessionStep::ClearRealtime),
        (SessionStep::RefreshAppData(AppDataRefreshScope::All), SessionStep::ClearAppData),
    ] {
        assert!(opened.contains(&start));
        assert!(closed.contains(&stop));
    }
}

#[test]
fn a_lost_server_closes_the_session_then_opens_the_health_manager() {
    let mut expected = destruct_user_session();
    expected.push(SessionStep::OpenHealthManager);
    assert_eq!(handle_disastrous_failure(), expected);
}

#[test]
fn config_window_outcomes_map_to_errors() {
    assert!(config_window_result(EnsureOutcome::Created, true, "x".to_string()).is_ok());
    assert!(config_window_result(EnsureOutcome::Existing, false, "x".to_string()).is_ok());
    match config_window_result(EnsureOutcome::Created, false, "hidden".to_string()) {
        Err(ClientConfigError::ShowWindow(m)) => assert_eq!(m, "hidden"),
        _ => panic!("expected a show error"),
    }
    match config_window_result(EnsureOutcome::MissingParent, true, "app_menu".to_string()) {
        Err(e) => assert_eq!(e.message(), "missing required parent window: app_menu"),
        _ => panic!("expected a missing parent"),
    }
    match config_window_result(EnsureOutcome::BuildFailed, true, "boom".to_string()) {
        Err(e) => assert_eq!(e.message(), "failed to build client config window: boom"),
        _ => panic!("expected a build error"),
    }
}

#[test]
fn config_error_messages() {
    assert_eq!(ClientConfigError::Io("denied".to_string()).message(), "io error: denied");
    assert_eq!(
        ClientConfigError::Parse("eof".to_string()).message(),
        "failed to parse client config: eof"
    );
    assert_eq!(
        ClientConfigError::ResolvePath("none".to_string()).message(),
        "failed to resolve app config dir: none"
    );
}

#[test]
fn monitor_lookup_is_tried_three_times_at_most() {
    assert_eq!(MONITOR_PROBE_ATTEMPTS, 3);
    assert_eq!(next_probe_step(0, true), ProbeDecision::UseMonitor);
    assert_eq!(next_probe_step(0, false), ProbeDecision::Retry { failures: 1 });
    assert_eq!(next_probe_step(1, false), ProbeDecision::Retry { failures: 2 });
    assert_eq!(next_probe_step(2, false), ProbeDecision::GiveUp);
    assert_eq!(next_probe_step(2, true), ProbeDecision::UseMonitor);
}

#[test]
fn auth_endpoints_need_a_client_and_a_base_url() {
    let base = Some("https://api.example.com".to_string());
    match auth_endpoint(true, &base, "/auth/login") {
        Ok(url) => assert_eq!(url, "https://api.example.com/auth/login"),
        Err(_) => panic!("expected a URL"),
    }
    assert!(matches!(auth_endpoint(false, &base, "/auth/login"), Err(AuthError::InvalidConfig)));
    assert!(matches!(auth_endpoint(true, &None, "/auth/login"), Err(AuthError::InvalidConfig)));
}

#[test]
fn unsuccessful_replies_fail_with_status_and_body() {
    assert!(ensure_success(200, "200 OK", "").is_ok());
    assert!(ensure_success(204, "204 No Content", "").is_ok());
    match ensure_success(404, "404 Not Found", "missing") {
        Err(AuthError::RequestFailed(m)) => assert_eq!(m, "Status: 404 Not Found, Body: missing"),
        _ => panic!("expected a failed request"),
    }
    assert!(ensure_success(301, "301 Moved Permanently", "").is_err());
    assert!(ensure_success(199, "199", "").is_err());
}

#[test]
fn health_manager_window_shows_the_error_hidden_at_first() {
    let w = health_manager_window_config(Some("Server down"));
    assert_eq!(w.label, HEALTH_MANAGER_WINDOW_LABEL);
    assert_eq!(w.url_path, "/health-manager?err=Server+down");
    assert_eq!(w.title, "Health Manager");
    assert!(!w.visible);
    assert_eq!(w.kind, WindowKind::RegularUi);
    let d = health_manager_window_config(None);
    assert_eq!(d.url_path, "/health-manager?err=Something+went+wrong%21");
}

#[test]
fn configuration_windows_are_small_regular_windows() {
    let c = config_window_config();
    assert_eq!(c.label, CLIENT_CONFIG_WINDOW_LABEL);
    assert_eq!(c.url_path, "/client-config");
    assert_eq!((c.width, c.height), (300, 420));
    assert!(!c.visible);
    let m = open_config_manager_window();
    assert_eq!(m.label, CLIENT_CONFIG_MANAGER_WINDOW_LABEL);
    assert_eq!(m.url_path, "/client-config-manager");
    assert_eq!(m.title, "Advanced Configuration");
    assert_eq!((m.width, m.height), (300, 420));
    assert!(!m.resizable && !m.maximizable && !m.visible);
}

#[test]
fn a_fresh_credential_is_stamped_with_the_time() {
    match build_auth_pass("token".to_string(), 3600) {
        Ok(p) => {
            assert_eq!(p.access_token, "token");
            assert_eq!(p.expires_in, 3600);
            assert!(p.issued_at.unwrap() > 1_600_000_000);
        }
        Err(e) => panic!("unexpected {:?}", e),
    }
}

#[test]
fn configured_accelerator_or_the_platform_default() {
    let mut accelerators = AcceleratorMap::new();
    let empty = AppConfig { api_base_url: None, debug_mode: false, accelerators: AcceleratorMap::new() };
    assert_eq!(
        empty.accelerator_for(AcceleratorAction::SceneInteractivity, Platform::MacOs).modifiers,
        vec![AcceleratorModifier::Cmd]
    );
    assert_eq!(
        empty.accelerator_for(AcceleratorAction::SceneInteractivity, Platform::Windows).modifiers,
        vec![AcceleratorModifier::Alt]
    );
    let chosen = KeyboardAccelerator {
        modifiers: vec![AcceleratorModifier::Ctrl, AcceleratorModifier::Shift],
        key: Some(AcceleratorKey::K),
    };
    accelerators.insert(AcceleratorAction::SceneInteractivity, chosen.clone());
    let config = AppConfig { api_base_url: None, debug_mode: false, accelerators };
    let got = config.accelerator_for(AcceleratorAction::SceneInteractivity, Platform::MacOs);
    assert_eq!(got.modifiers, chosen.modifiers);
    assert_eq!(got.key, chosen.key);
}
