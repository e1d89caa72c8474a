use friendolls::accelerators::{
    default_accelerator_for_action, default_accelerators, has_key, has_modifier,
    is_accelerator_active, keycodes_for, normalize_accelerators, pressed_modifiers,
    AcceleratorAction, AcceleratorKey, AcceleratorMap, AcceleratorModifier, Keycode,
    KeyboardAccelerator,
};
use friendolls::auth::{auth_pass_issued_at, logout, persist_auth_pass, AuthError, AuthPass, AuthState};
use friendolls::auth_flow::{
    auth_flow_error_message, auth_flow_step, authorize_url_for, build_authorize_url, decimal,
    html_response, is_oauth_cancellation, oauth_error_message, parse_callback_request,
    AuthFlowStatus, AuthPage, CallbackRequest, FlowEvent, FlowStage, OAuthCallbackParams,
    OAuthCallbackResult, StartSsoResponse,
};
use friendolls::auth_storage::{
    chunk_encoded, chunk_entry_name, decode_auth_pass_json, encode_auth_pass_json, join_chunks,
    parse_chunk_count, CHUNK_SIZE,
};
use friendolls::client_config::{
    default_app_config, parse_http_url, sanitize, sanitize_api_base_url, strip_trailing_slash,
    AppConfig, DEFAULT_API_BASE_URL,
};
use friendolls::client_config_manager;
use friendolls::platform::Platform;
use friendolls::text::{starts_with, str_eq, strip_trailing, trim};
use friendolls::urls::encode_query_value;

fn accel(mods: Vec<AcceleratorModifier>, key: Option<AcceleratorKey>) -> KeyboardAccelerator {
    KeyboardAccelerator { modifiers: mods, key }
}

#[test]
fn default_accelerator_by_platform() {
    let mac = default_accelerator_for_action(AcceleratorAction::SceneInteractivity, Platform::MacOs);
    let win = default_accelerator_for_action(AcceleratorAction::SceneInteractivity, Platform::Windows);
    assert_eq!(mac.modifiers, vec![AcceleratorModifier::Cmd]);
    assert_eq!(win.modifiers, vec![AcceleratorModifier::Alt]);
    assert_eq!(mac.key, None);
    let map = default_accelerators(Platform::Linux);
    assert_eq!(map.get(AcceleratorAction::SceneInteractivity).unwrap().modifiers, vec![AcceleratorModifier::Alt]);
}

#[test]
fn normalized_sorts_and_dedups_modifiers() {
    let a = accel(
        vec![AcceleratorModifier::Shift, AcceleratorModifier::Cmd, AcceleratorModifier::Shift],
        Some(AcceleratorKey::A),
    );
    let n = a.normalized(Platform::Windows);
    assert_eq!(n.modifiers, vec![AcceleratorModifier::Cmd, AcceleratorModifier::Shift]);
    assert_eq!(n.key, Some(AcceleratorKey::A));
    // normalizing twice changes nothing
    let twice = n.clone().normalized(Platform::Windows);
    assert_eq!(twice.modifiers, n.modifiers);
}

#[test]
fn empty_accelerator_falls_back_to_default() {
    let n = accel(vec![], None).normalized(Platform::MacOs);
    assert_eq!(n.modifiers, vec![AcceleratorModifier::Cmd]);
    let mut map = AcceleratorMap::new();
    map.insert(AcceleratorAction::SceneInteractivity, accel(vec![], None));
    let fixed = normalize_accelerators(map, Platform::Windows);
    assert_eq!(fixed.get(AcceleratorAction::SceneInteractivity).unwrap().modifiers, vec![AcceleratorModifier::Alt]);
}

#[test]
fn key_and_modifier_detection() {
    let keys = [Keycode::LAlt, Keycode::A];
    assert!(has_modifier(&keys, AcceleratorModifier::Alt));
    assert!(!has_modifier(&keys, AcceleratorModifier::Ctrl));
    assert!(has_key(&keys, AcceleratorKey::A));
    assert!(!has_key(&keys, AcceleratorKey::B));
    assert_eq!(pressed_modifiers(&keys), vec![AcceleratorModifier::Alt]);
    assert!(is_accelerator_active(&keys, &accel(vec![AcceleratorModifier::Alt], Some(AcceleratorKey::A))));
    assert!(!is_accelerator_active(&keys, &accel(vec![AcceleratorModifier::Alt], Some(AcceleratorKey::B))));
    assert!(is_accelerator_active(&[Keycode::LAlt], &accel(vec![AcceleratorModifier::Alt], None)));
    // extra modifiers make it inactive
    assert!(!is_accelerator_active(
        &[Keycode::LAlt, Keycode::LShift],
        &accel(vec![AcceleratorModifier::Alt], None)
    ));
    assert!(keycodes_for(AcceleratorKey::Enter).contains(&Keycode::NumpadEnter));
}

#[test]
fn config_defaults_and_sanitizing() {
    let c = default_app_config(Platform::MacOs);
    assert_eq!(c.api_base_url.as_deref(), Some(DEFAULT_API_BASE_URL));
    assert_eq!(strip_trailing_slash("https://a.b///"), "https://a.b");
    assert_eq!(parse_http_url("example.com/").as_deref(), Some("https://example.com"));
    assert_eq!(parse_http_url("http://x.y/api/").as_deref(), Some("http://x.y/api"));
    assert_eq!(parse_http_url(""), None);
    assert_eq!(sanitize_api_base_url(Some("  http://localhost:3000/ ".to_string())), "http://localhost:3000");
    assert_eq!(sanitize_api_base_url(None), DEFAULT_API_BASE_URL);
    let cfg = AppConfig { api_base_url: Some("ftp://nope".to_string()), debug_mode: true, accelerators: AcceleratorMap::new() };
    let s = sanitize(cfg);
    assert!(s.debug_mode);
    assert!(s.api_base_url.is_some());
}

#[test]
fn config_manager_defaults() {
    let c = client_config_manager::default_app_config();
    assert_eq!(c.api_base_url.as_deref(), Some(client_config_manager::DEFAULT_API_BASE_URL));
    assert_eq!(c.auth.audience, client_config_manager::DEFAULT_JWT_AUDIENCE);
}

#[test]
fn text_helpers() {
    assert_eq!(trim("  a b \t"), "a b");
    assert_eq!(strip_trailing("x//", '/'), "x");
    assert!(str_eq("abc", "abc"));
    assert!(!str_eq("abc", "abd"));
    assert!(starts_with("/callback?x", "/callback"));
    assert_eq!(encode_query_value("a b&c"), "a+b%26c");
}

#[test]
fn auth_pass_and_state() {
    let p = auth_pass_issued_at("tok".to_string(), 60, Some(1000)).unwrap();
    assert_eq!((p.access_token.as_str(), p.expires_in, p.issued_at), ("tok", 60, Some(1000)));
    assert!(matches!(auth_pass_issued_at("tok".to_string(), 60, None), Err(AuthError::RefreshFailed)));
    let mut st = AuthState { auth_pass: None };
    let kept = persist_auth_pass(&mut st, &p);
    assert_eq!(kept.access_token, "tok");
    assert!(st.auth_pass.is_some());
    logout(&mut st);
    assert!(st.auth_pass.is_none());
}

#[test]
fn stored_credential_round_trip() {
    let json = "{\"access_token\":\"abc\",\"expires_in\":3600}";
    let encoded = encode_auth_pass_json(json).unwrap();
    assert!(!encoded.contains('=') && !encoded.contains('+') && !encoded.contains('/'));
    assert_eq!(decode_auth_pass_json(&encoded).as_deref(), Some(json));
    assert_eq!(decode_auth_pass_json("not base64!"), None);
    assert_eq!(decode_auth_pass_json("AAAA"), None);
}

#[test]
fn credential_chunks() {
    let text = "a".repeat(2 * CHUNK_SIZE + 5);
    let chunks = chunk_encoded(&text, CHUNK_SIZE);
    assert_eq!(chunks.len(), 3);
    assert_eq!(chunks[2].len(), 5);
    assert_eq!(join_chunks(&chunks), text);
    assert_eq!(chunk_entry_name(3), "auth_pass_3");
    assert_eq!(parse_chunk_count("12"), Some(12));
    assert_eq!(parse_chunk_count("1x"), None);
    assert_eq!(parse_chunk_count(""), None);
    assert!(chunk_encoded("", 4).is_empty());
}

#[test]
fn oauth_error_messages() {
    assert!(is_oauth_cancellation("access_denied"));
    assert!(!is_oauth_cancellation("server_error"));
    assert_eq!(oauth_error_message("access_denied", None), "Sign-in was cancelled.");
    assert_eq!(
        oauth_error_message("server_error", None),
        "The sign-in provider reported an error. Please try again."
    );
    assert_eq!(auth_flow_error_message(&AuthError::CallbackTimeout), "Sign-in timed out. Please try again.");
    assert_eq!(auth_flow_error_message(&AuthError::Cancelled), "Sign-in was cancelled.");
}

#[test]
fn callback_request_parsing() {
    match parse_callback_request(b"GET /callback?state=s1&code=c1 HTTP/1.1\r\nHost: x\r\n\r\n").unwrap() {
        CallbackRequest::Callback(p) => {
            assert_eq!(p.state, "s1");
            assert!(matches!(p.result, OAuthCallbackResult::Code(ref c) if c == "c1"));
        },
        _ => panic!("expected a callback"),
    }
    assert!(matches!(parse_callback_request(b"GET /health HTTP/1.1\r\n").unwrap(), CallbackRequest::Health));
    assert!(matches!(parse_callback_request(b"POST /callback HTTP/1.1\r\n").unwrap(), CallbackRequest::NotFound));
    assert!(matches!(parse_callback_request(b"").unwrap(), CallbackRequest::NotFound));
    assert!(matches!(
        parse_callback_request(b"GET /callback?code=c1 HTTP/1.1\r\n"),
        Err(AuthError::MissingParameter(ref m)) if m == "state"
    ));
    assert!(matches!(
        parse_callback_request(b"GET /callback?state=s HTTP/1.1\r\n"),
        Err(AuthError::MissingParameter(ref m)) if m == "code"
    ));
    match parse_callback_request(b"GET /callback?state=s&error=access_denied HTTP/1.1\r\n").unwrap() {
        CallbackRequest::Callback(p) => {
            assert!(matches!(p.result, OAuthCallbackResult::Error { cancelled: true, .. }))
        },
        _ => panic!("expected a callback"),
    }
}

#[test]
fn sign_in_flow_to_success() {
    let (st, a) = auth_flow_step(FlowStage::StartingSso, "s", true, FlowEvent::SsoStarted { ok: true });
    assert_eq!(st, FlowStage::OpeningBrowser);
    assert!(a.status.is_none());
    let (st, a) = auth_flow_step(st, "s", true, FlowEvent::BrowserOpened { ok: true });
    assert_eq!(st, FlowStage::AwaitingCallback);
    assert_eq!(a.status, Some(AuthFlowStatus::Started));
    let params = OAuthCallbackParams { state: "s".to_string(), result: OAuthCallbackResult::Code("c".to_string()) };
    let (st, a) = auth_flow_step(st, "s", true, FlowEvent::CallbackReceived(params));
    assert_eq!(st, FlowStage::ExchangingCode);
    assert_eq!(a.exchange_code.as_deref(), Some("c"));
    let (st, _) = auth_flow_step(st, "s", true, FlowEvent::CodeExchanged { ok: true });
    let (st, _) = auth_flow_step(st, "s", true, FlowEvent::PassPersisted { ok: true });
    let (st, a) = auth_flow_step(st, "s", true, FlowEvent::SessionFinished { ok: true });
    assert_eq!(st, FlowStage::Done);
    assert_eq!(a.page, Some(AuthPage::Success));
    assert_eq!(a.status, Some(AuthFlowStatus::Succeeded));
    assert!(a.clear_flow);
}

#[test]
fn sign_in_flow_rejects_wrong_state() {
    let params = OAuthCallbackParams { state: "evil".to_string(), result: OAuthCallbackResult::Code("c".to_string()) };
    let (st, a) = auth_flow_step(FlowStage::AwaitingCallback, "s", true, FlowEvent::CallbackReceived(params));
    assert_eq!(st, FlowStage::Done);
    assert_eq!(a.page, Some(AuthPage::Failed));
    assert_eq!(a.message.as_deref(), Some("Sign-in verification failed. Please try again."));
    assert!(a.exchange_code.is_none());
}

#[test]
fn sign_in_flow_inactive_callback() {
    let params = OAuthCallbackParams { state: "s".to_string(), result: OAuthCallbackResult::Code("c".to_string()) };
    let (st, a) = auth_flow_step(FlowStage::AwaitingCallback, "s", false, FlowEvent::CallbackReceived(params));
    assert_eq!(st, FlowStage::Done);
    assert_eq!(a.page, Some(AuthPage::Cancelled));
    assert!(a.status.is_none());
}

#[test]
fn http_answer() {
    assert_eq!(decimal(1200), "1200");
    assert_eq!(
        html_response("<p>ok</p>"),
        "HTTP/1.1 200 OK\r\nContent-Type: text/html; charset=utf-8\r\nContent-Length: 9\r\n\r\n<p>ok</p>"
    );
}

#[test]
fn authorize_url_building() {
    assert_eq!(
        build_authorize_url(Some("https://api.x.com/v1/"), "google", "a b").unwrap(),
        "https://api.x.com/v1/auth/sso/google?state=a+b"
    );
    assert_eq!(
        build_authorize_url(Some("https://api.x.com"), "discord", "s").unwrap(),
        "https://api.x.com/auth/sso/discord?state=s"
    );
    assert!(matches!(build_authorize_url(None, "g", "s"), Err(AuthError::InvalidConfig)));
    assert!(matches!(
        build_authorize_url(Some("not a url"), "g", "s"),
        Err(AuthError::RequestFailed(ref m)) if m.starts_with("Invalid API base URL: ")
    ));
    let given = StartSsoResponse { state: "s".to_string(), authorize_url: Some("https://p/auth".to_string()) };
    assert_eq!(authorize_url_for(&given, None, "g").unwrap(), "https://p/auth");
    let built = StartSsoResponse { state: "s".to_string(), authorize_url: None };
    assert_eq!(authorize_url_for(&built, Some("http://h"), "g").unwrap(), "http://h/auth/sso/g?state=s");
    let _unused: Option<AuthPass> = None;
}
