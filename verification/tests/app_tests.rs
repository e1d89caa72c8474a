use base64::Engine;
use friendolls::active_app::{
    bgra_to_rgba, description_query, eq_ignore_ascii_case, has_valid_name, icon_b64_from_bgra,
    icon_b64_from_png, is_uwp_host, remember_icon, should_report_app, translation_attempts,
    windows_app_names, AppMetadata, FALLBACK_DESCRIPTION_QUERY, MAX_ICON_B64_SIZE,
};
use friendolls::app_data::{
    clear_app_data, refresh_error_message, refresh_parts, refreshes_active_doll_sprite, AppDataPart,
    AppDataRefreshScope, RefreshRegistry, ScopeSet,
};
use friendolls::app_events::{CreateDoll, SceneInteractiveChanged, Unfriended};
use friendolls::app_state::AppStateStore;
use friendolls::app_windows::{
    close_health_manager_window, doll_editor_follow_up, health_manager_url, open_app_menu_window,
    open_doll_editor_window, scene_window_config, splash_window_config, welcome_window_config,
    DollEditorFollowUp,
};
use friendolls::health::{stop_health_monitor, HealthAction, HealthMonitor};
use friendolls::icon_cache::{IconCache, ICON_CACHE_LIMIT};
use friendolls::models::{NekoPosition, UserData, UserProfile};
use friendolls::presence::{idle_status, module_runs, PresenceStatus};
use friendolls::projections::FriendProjections;
use friendolls::scene::{SceneInteractivity, SceneWindowUpdate};
use friendolls::str_map::StrMap;
use friendolls::window_manager::{
    ensure_window_step, sync_macos_accessory_mode_for_current_windows, EnsureAction, EnsureEvent,
    EnsureOutcome, EnsureStage, WindowConfig, WindowKind, WindowRegistry,
};
use friendolls::ws::{
    build_ws_client, connect_error_message, emit_failure_message, forwarded_to_windows,
    is_active_doll, refreshes_after, server_event_name, should_report_cursor, ServerEvent, WS_EVENT,
};

#[test]
fn refresh_runs_once_per_scope_and_folds_requests() {
    let mut r = RefreshRegistry::new();
    assert!(r.begin(AppDataRefreshScope::Friends));
    assert!(r.is_in_flight(AppDataRefreshScope::Friends));
    // other scopes are independent
    assert!(r.begin(AppDataRefreshScope::Dolls));
    // requests during the run fold into one rerun
    assert!(!r.begin(AppDataRefreshScope::Friends));
    assert!(!r.begin(AppDataRefreshScope::Friends));
    assert!(r.finish(AppDataRefreshScope::Friends));
    assert!(!r.is_in_flight(AppDataRefreshScope::Friends));
    assert!(r.begin(AppDataRefreshScope::Friends));
    assert!(!r.finish(AppDataRefreshScope::Friends));
    assert!(!r.finish(AppDataRefreshScope::Dolls));
    assert!(!r.is_in_flight(AppDataRefreshScope::Dolls));
}

#[test]
fn refresh_parts_by_scope() {
    assert_eq!(
        refresh_parts(AppDataRefreshScope::All),
        vec![AppDataPart::User, AppDataPart::Friends, AppDataPart::Dolls]
    );
    assert_eq!(refresh_parts(AppDataRefreshScope::Friends), vec![AppDataPart::Friends]);
    assert!(refreshes_active_doll_sprite(AppDataRefreshScope::Dolls));
    assert!(refreshes_active_doll_sprite(AppDataRefreshScope::User));
    assert!(!refreshes_active_doll_sprite(AppDataRefreshScope::Friends));
    assert_eq!(
        refresh_error_message(AppDataPart::Friends),
        "Failed to fetch friends list. You may be offline."
    );
}

#[test]
fn scope_set_insert_remove() {
    let mut s = ScopeSet::new();
    s.insert(AppDataRefreshScope::User);
    assert!(s.contains(AppDataRefreshScope::User));
    assert!(!s.contains(AppDataRefreshScope::All));
    assert!(s.remove(AppDataRefreshScope::User));
    assert!(!s.remove(AppDataRefreshScope::User));
}

#[test]
fn clear_app_data_forgets_everything() {
    let mut data = UserData {
        user: Some(UserProfile { id: "u".to_string(), active_doll_id: None }),
        friends: Some(vec![]),
        dolls: Some(vec![]),
    };
    let mut p: FriendProjections<u8> = FriendProjections::new();
    p.nekos.set_friend_active_doll("x", true);
    clear_app_data(&mut data, &mut p);
    assert!(data.user.is_none() && data.friends.is_none() && data.dolls.is_none());
    assert!(!p.remove_friend("x").nekos);
}

#[test]
fn icon_cache_lru() {
    let mut c = IconCache::new();
    c.put("a", "A".to_string());
    c.put("b", "B".to_string());
    assert_eq!(c.get("a"), Some("A".to_string()));
    assert_eq!(c.get("zz"), None);
    c.put("a", "A2".to_string());
    assert_eq!(c.len(), 2);
    assert_eq!(c.get("a"), Some("A2".to_string()));
}

#[test]
fn icon_cache_evicts_least_recently_used() {
    let mut c = IconCache::new();
    for i in 0..ICON_CACHE_LIMIT {
        c.put(&format!("p{}", i), format!("v{}", i));
    }
    // touching the oldest keeps it
    assert_eq!(c.get("p0"), Some("v0".to_string()));
    c.put("new", "n".to_string());
    assert_eq!(c.len(), ICON_CACHE_LIMIT);
    assert_eq!(c.get("p1"), None);
    assert_eq!(c.get("p0"), Some("v0".to_string()));
    assert_eq!(c.get("new"), Some("n".to_string()));
}

#[test]
fn health_monitor_recovers_after_three_failures() {
    let mut m = HealthMonitor::new();
    assert!(matches!(m.on_check(Err("e1".to_string())), HealthAction::Reconnect));
    assert!(matches!(m.on_check(Err("e2".to_string())), HealthAction::Reconnect));
    match m.on_check(Err("down".to_string())) {
        HealthAction::Recover(msg) => assert_eq!(msg, "Lost connection to server: down"),
        _ => panic!("expected recovery"),
    }
}

#[test]
fn health_monitor_success_resets() {
    let mut m = HealthMonitor::new();
    m.on_check(Err("e".to_string()));
    m.on_check(Err("e".to_string()));
    assert!(matches!(m.on_check(Ok(())), HealthAction::Continue));
    assert!(matches!(m.on_check(Err("e".to_string())), HealthAction::Reconnect));
    let mut token = Some(7u32);
    assert_eq!(stop_health_monitor(&mut token), Some(7));
    assert_eq!(token, None);
    assert_eq!(stop_health_monitor(&mut token), None);
}

#[test]
fn scene_interactivity_follows_menus_and_hotkey() {
    let mut s = SceneInteractivity::new();
    assert!(!s.get_scene_interactive());
    assert!(s.set_pet_menu_state("m1".to_string(), true));
    assert_eq!(
        s.update_scene_interactive(true, true, true, false),
        Some(SceneWindowUpdate { ignore_cursor_events: false, click: false })
    );
    assert!(s.get_scene_interactive());
    // the menu keeps the scene interactive while polled
    assert_eq!(s.poll(false), None);
    assert!(!s.set_pet_menu_state("m1".to_string(), false));
    // closing interactivity closes all menus
    s.set_pet_menu_state("m2".to_string(), true);
    assert_eq!(
        s.update_scene_interactive(false, true, true, true),
        Some(SceneWindowUpdate { ignore_cursor_events: true, click: true })
    );
    assert_eq!(s.update_scene_interactive(true, true, false, true), None);
    assert!(s.get_scene_interactive());
    assert!(!s.set_pet_menu_state("m3".to_string(), false));
}

#[test]
fn scene_poll_reports_changes_once() {
    let mut s = SceneInteractivity::new();
    assert_eq!(s.poll(true), Some(true));
    assert_eq!(s.poll(true), None);
    assert_eq!(s.poll(false), Some(false));
    assert_eq!(s.poll(false), None);
}

#[test]
fn ensure_window_existing_is_shown_then_focused() {
    let config = WindowConfig::regular_ui("w", "/w".to_string(), "W");
    let (st, a) = ensure_window_step(EnsureStage::Start, EnsureEvent::Found(true), &config, true, true);
    assert_eq!(a, EnsureAction::ShowExisting);
    let (st, a) = ensure_window_step(st, EnsureEvent::Succeeded(true), &config, true, true);
    assert_eq!(a, EnsureAction::FocusExisting);
    let (_, a) = ensure_window_step(st, EnsureEvent::Succeeded(false), &config, true, true);
    assert_eq!(a, EnsureAction::Register(EnsureOutcome::Existing));
    let (_, a) =
        ensure_window_step(EnsureStage::ShowingExisting, EnsureEvent::Succeeded(false), &config, true, true);
    assert_eq!(a, EnsureAction::Fail(EnsureOutcome::ShowExistingFailed));
}

#[test]
fn ensure_window_build_with_parent() {
    let mut config = WindowConfig::regular_ui("child", "/c".to_string(), "C");
    config.parent_label = Some("parent".to_string());
    let (st, a) = ensure_window_step(EnsureStage::Start, EnsureEvent::Found(false), &config, true, false);
    assert_eq!(a, EnsureAction::FindParent);
    let (_, a) = ensure_window_step(st, EnsureEvent::Found(false), &config, true, false);
    assert_eq!(a, EnsureAction::Build);
    config.require_parent = true;
    let (_, a) = ensure_window_step(st, EnsureEvent::Found(false), &config, true, false);
    assert_eq!(a, EnsureAction::Fail(EnsureOutcome::MissingParent));
    let (st2, a) = ensure_window_step(st, EnsureEvent::Found(true), &config, true, false);
    assert_eq!(a, EnsureAction::SetParent);
    let (st3, a) = ensure_window_step(st2, EnsureEvent::Succeeded(true), &config, true, false);
    assert_eq!(a, EnsureAction::Build);
    let (st4, a) = ensure_window_step(st3, EnsureEvent::Succeeded(false), &config, true, false);
    assert_eq!(a, EnsureAction::LookUpAgain);
    let (_, a) = ensure_window_step(st4, EnsureEvent::Found(false), &config, true, false);
    assert_eq!(a, EnsureAction::Fail(EnsureOutcome::BuildFailed));
    let (_, a) = ensure_window_step(st3, EnsureEvent::Succeeded(true), &config, true, false);
    assert_eq!(a, EnsureAction::Register(EnsureOutcome::Created));
}

#[test]
fn window_configs() {
    let menu = open_app_menu_window();
    assert_eq!((menu.label.as_str(), menu.width, menu.height, menu.resizable), ("app_menu", 400, 550, true));
    let splash = splash_window_config();
    assert_eq!((splash.width, splash.height, splash.visible), (800, 400, false));
    assert_eq!(splash.kind, WindowKind::Accessory);
    let scene = scene_window_config();
    assert!(scene.visible_on_all_workspaces && scene.always_on_top && scene.skip_taskbar);
    let welcome = welcome_window_config();
    assert_eq!(welcome.title, "Welcome to Friendolls");
    assert!(!welcome.visible);
}

#[test]
fn health_manager_url_encodes_the_error() {
    assert_eq!(health_manager_url(None), "/health-manager?err=Something+went+wrong%21");
    assert_eq!(health_manager_url(Some("a&b=c")), "/health-manager?err=a%26b%3Dc");
    let data = UserData::new();
    assert_eq!(close_health_manager_window(true, &data), Some(false));
    assert_eq!(close_health_manager_window(false, &data), None);
}

#[test]
fn doll_editor_plan() {
    let plan = open_doll_editor_window(Some("a b"), false, true);
    assert_eq!(plan.config.label, "doll_editor_a b");
    assert_eq!(plan.config.url_path, "/doll-editor?id=a+b");
    assert!(plan.lock_parent);
    assert_eq!(plan.config.parent_label.as_deref(), Some("app_menu"));
    assert_eq!((plan.config.width, plan.config.height), (300, 400));
    let plan = open_doll_editor_window(None, true, true);
    assert_eq!(plan.config.label, "doll_editor_create");
    assert_eq!(plan.config.url_path, "/doll-editor");
    assert!(!plan.lock_parent);
    assert_eq!(plan.config.parent_label, None);
    assert_eq!(doll_editor_follow_up(EnsureOutcome::BuildFailed, true), DollEditorFollowUp::UnlockParent);
    assert_eq!(doll_editor_follow_up(EnsureOutcome::BuildFailed, false), DollEditorFollowUp::Nothing);
    assert_eq!(doll_editor_follow_up(EnsureOutcome::Existing, true), DollEditorFollowUp::NotifyExisting);
    assert_eq!(doll_editor_follow_up(EnsureOutcome::Created, true), DollEditorFollowUp::WatchForClose);
}

#[test]
fn accessory_mode_only_without_visible_regular_window() {
    let mut reg = WindowRegistry::new();
    reg.register("scene".to_string(), WindowKind::Accessory);
    reg.register("menu".to_string(), WindowKind::RegularUi);
    let mut visible: StrMap<bool> = StrMap::new();
    visible.insert("scene".to_string(), true);
    visible.insert("menu".to_string(), false);
    assert!(sync_macos_accessory_mode_for_current_windows(&reg, &visible));
    visible.insert("menu".to_string(), true);
    assert!(!sync_macos_accessory_mode_for_current_windows(&reg, &visible));
    reg.unregister("menu");
    assert!(sync_macos_accessory_mode_for_current_windows(&reg, &visible));
    assert_eq!(reg.labels(), vec!["scene".to_string()]);
}

#[test]
fn ws_event_names_and_refreshes() {
    assert_eq!(WS_EVENT::DOLL_UPDATED, "doll_updated");
    assert_eq!(server_event_name(ServerEvent::FriendActiveDollChanged), WS_EVENT::FRIEND_ACTIVE_DOLL_CHANGED);
    assert_eq!(
        refreshes_after(ServerEvent::DollDeleted, true, true),
        vec![AppDataRefreshScope::Dolls, AppDataRefreshScope::User, AppDataRefreshScope::Friends]
    );
    assert_eq!(refreshes_after(ServerEvent::DollUpdated, true, false), vec![AppDataRefreshScope::Dolls]);
    assert_eq!(refreshes_after(ServerEvent::DollUpdated, false, true), vec![]);
    assert_eq!(refreshes_after(ServerEvent::Unfriended, false, false), vec![AppDataRefreshScope::Friends]);
    assert_eq!(refreshes_after(ServerEvent::FriendDollUpdated, true, true), vec![]);
    assert!(forwarded_to_windows(ServerEvent::InteractionReceived));
    assert!(!forwarded_to_windows(ServerEvent::DollCreated));
}

#[test]
fn ws_connection_needs_token_and_address() {
    assert_eq!(
        build_ws_client(None, Some("u".to_string())).unwrap_err(),
        "No access token available for WebSocket connection"
    );
    assert_eq!(build_ws_client(Some("t".to_string()), None).unwrap_err(), "Missing API base URL");
    assert_eq!(
        build_ws_client(Some("t".to_string()), Some("https://x".to_string())).unwrap(),
        ("https://x".to_string(), "t".to_string())
    );
    assert_eq!(connect_error_message("boom"), "Failed to connect WebSocket: boom");
    assert_eq!(emit_failure_message("x"), "WebSocket emit failed: x");
    assert!(should_report_cursor(true, true));
    assert!(!should_report_cursor(true, false));
}

#[test]
fn active_doll_check() {
    let data = UserData {
        user: Some(UserProfile { id: "u".to_string(), active_doll_id: Some("d1".to_string()) }),
        friends: None,
        dolls: None,
    };
    assert!(is_active_doll(&data, Some("d1")));
    assert!(!is_active_doll(&data, Some("d2")));
    assert!(!is_active_doll(&data, None));
    assert!(!is_active_doll(&UserData::new(), Some("d1")));
}

#[test]
fn app_names_and_validity() {
    let meta = AppMetadata { localized: Some("  ".to_string()), unlocalized: Some("x".to_string()), app_icon_b64: None };
    assert!(!has_valid_name(&meta));
    let meta = AppMetadata { localized: None, unlocalized: Some(" Code ".to_string()), app_icon_b64: None };
    assert!(has_valid_name(&meta));
    assert!(should_report_app(true, &meta));
    assert!(!should_report_app(false, &meta));
    assert!(!has_valid_name(&AppMetadata::empty()));
    assert!(is_uwp_host("applicationframehost.EXE"));
    assert!(!is_uwp_host("ApplicationFrameHost.ex"));
    assert!(eq_ignore_ascii_case("AbC", "aBc"));
    assert!(!eq_ignore_ascii_case("É", "é"));
    let (l, u) = windows_app_names(true, Some("Title".to_string()), None, Some("stem".to_string()));
    assert_eq!((l.as_deref(), u.as_deref()), (Some("Title"), Some("ApplicationFrameHost")));
    let (l, u) = windows_app_names(false, None, None, Some("stem".to_string()));
    assert_eq!((l.as_deref(), u.as_deref()), (Some("stem"), Some("stem")));
    let (l, _) = windows_app_names(false, None, Some("Desc".to_string()), Some("stem".to_string()));
    assert_eq!(l.as_deref(), Some("Desc"));
}

#[test]
fn translation_order_and_queries() {
    let table = vec![0x0409, 0x04b0, 0x0407, 0x04e4, 0x0409, 0x0000, 0x0001];
    assert_eq!(
        translation_attempts(&table, 0x0409),
        vec![(0x0409, 0x0000), (0x0409, 0x04b0), (0x0407, 0x04e4)]
    );
    assert_eq!(description_query(0x0409, 0x04b0), "\\StringFileInfo\\040904b0\\FileDescription");
    assert_eq!(description_query(0xabcd, 0x0001), "\\StringFileInfo\\abcd0001\\FileDescription");
    assert_eq!(FALLBACK_DESCRIPTION_QUERY, description_query(0x0409, 0x04b0));
}

#[test]
fn bgra_pixels_to_rgba() {
    let mut buf = vec![1, 2, 3, 4, 5, 6, 7, 8];
    bgra_to_rgba(&mut buf);
    assert_eq!(buf, vec![3, 2, 1, 4, 7, 6, 5, 8]);
}

#[test]
fn icon_from_bitmap_is_png_base64() {
    assert_eq!(icon_b64_from_bgra(vec![0; 16]), None);
    let mut bgra = vec![0u8; 64 * 64 * 4];
    bgra[0] = 10; // blue of the first pixel
    bgra[2] = 20; // red
    bgra[3] = 255;
    let text = icon_b64_from_bgra(bgra).unwrap();
    let png = base64::engine::general_purpose::STANDARD.decode(&text).unwrap();
    assert_eq!(&png[1..4], b"PNG");
    let img = image::load_from_memory_with_format(&png, image::ImageFormat::Png).unwrap().to_rgba8();
    assert_eq!(img.get_pixel(0, 0).0, [20, 0, 10, 255]);
}

#[test]
fn icon_from_png_is_capped() {
    assert_eq!(icon_b64_from_png(&[1, 2, 3]), Some("AQID".to_string()));
    let big = vec![0u8; MAX_ICON_B64_SIZE];
    assert_eq!(icon_b64_from_png(&big), None);
    let mut c = IconCache::new();
    assert_eq!(remember_icon(&mut c, "p", "ic".to_string()), "ic");
    assert_eq!(c.get("p"), Some("ic".to_string()));
}

#[test]
fn events_state_and_presence() {
    assert_eq!(SceneInteractiveChanged::NAME, "scene-interactive");
    assert_eq!(CreateDoll::NAME, "create-doll");
    assert_eq!(Unfriended::<u8>::NAME, "unfriended");
    let mut store = AppStateStore::new();
    assert_eq!(store.get_snapshot().scene_setup.nekos_position, None);
    store.set_scene_setup_nekos_position(Some(NekoPosition::BottomRight));
    assert_eq!(store.get_snapshot().scene_setup.nekos_position, Some(NekoPosition::BottomRight));
    let p = idle_status(PresenceStatus { title: Some("t".to_string()), subtitle: None, graphics_b64: None });
    assert_eq!(p.state, "idle");
    assert_eq!(p.presence_status.title.as_deref(), Some("t"));
    assert!(module_runs(true, true));
    assert!(!module_runs(true, false));
}
