use base64::Engine;
use friendolls::active_app::{
    file_description, get_active_app_icon_b64, icon_b64_from_bgra, icon_from_source, IconSource,
    MAX_ICON_B64_SIZE,
};
use friendolls::app_data::{next_refresh_action, AppDataPart, AppDataRefreshScope, RefreshAction};
use friendolls::app_windows::{
    health_manager_follow_up, open_health_manager_window, HealthManagerFollowUp,
    HEALTH_MANAGER_WINDOW_LABEL,
};
use friendolls::auth_storage::{chunk_encoded, decode_auth_pass_json, encode_auth_pass_json, join_chunks};
use friendolls::icon_cache::IconCache;
use friendolls::pet_sprite::{crop_random_sprite, encode_pet_doll_gif_base64, RgbaSheet};
use friendolls::window_manager::EnsureOutcome;

#[test]
fn icon_lookup_uses_the_cache_first() {
    let mut cache = IconCache::new();
    let png = vec![1u8, 2, 3];
    let made = get_active_app_icon_b64(&mut cache, "app.exe", || Some(IconSource::Png(png.clone())));
    assert_eq!(made, Some("AQID".to_string()));
    let cached = get_active_app_icon_b64(&mut cache, "app.exe", || -> Option<IconSource> {
        panic!("the cache holds the icon")
    });
    assert_eq!(cached, Some("AQID".to_string()));
    assert_eq!(cache.len(), 1);
}

#[test]
fn icon_lookup_refuses_missing_empty_and_oversized_icons() {
    let mut cache = IconCache::new();
    assert_eq!(get_active_app_icon_b64(&mut cache, "a", || None), None);
    assert_eq!(get_active_app_icon_b64(&mut cache, "b", || Some(IconSource::Png(vec![]))), None);
    let big = vec![0u8; MAX_ICON_B64_SIZE];
    assert_eq!(get_active_app_icon_b64(&mut cache, "c", || Some(IconSource::Png(big.clone()))), None);
    assert_eq!(cache.len(), 0);
}

#[test]
fn bitmap_icons_are_made_and_remembered() {
    let mut cache = IconCache::new();
    let bgra = vec![0u8; 64 * 64 * 4];
    let icon = get_active_app_icon_b64(&mut cache, "w.exe", || Some(IconSource::Bitmap(bgra.clone())))
        .unwrap();
    assert!(icon.len() <= MAX_ICON_B64_SIZE);
    let png = base64::engine::general_purpose::STANDARD.decode(&icon).unwrap();
    assert_eq!(&png[1..4], b"PNG");
    assert_eq!(cache.len(), 1);
    assert_eq!(icon_from_source(Some(IconSource::Bitmap(vec![0; 64 * 64 * 4 + 3]))), Some(icon));
    assert_eq!(icon_b64_from_bgra(vec![0; 64 * 64 * 4 - 4]), None);
}

#[test]
fn file_description_takes_the_first_non_empty_answer() {
    let d = file_description(
        vec![None, Some(String::new()), Some("Editor".to_string()), Some("Other".to_string())],
        Some("Fallback".to_string()),
    );
    assert_eq!(d, Some("Editor".to_string()));
    assert_eq!(
        file_description(vec![Some(String::new())], Some("Fallback".to_string())),
        Some("Fallback".to_string())
    );
    assert_eq!(file_description(vec![], Some(String::new())), Some(String::new()));
    assert_eq!(file_description(vec![None], None), None);
}

#[test]
fn refresh_runs_stop_at_the_first_failure() {
    let s = AppDataRefreshScope::All;
    assert_eq!(next_refresh_action(s, 0, false), RefreshAction::Fetch(AppDataPart::User));
    assert_eq!(next_refresh_action(s, 1, false), RefreshAction::Fetch(AppDataPart::Friends));
    assert_eq!(next_refresh_action(s, 1, true), RefreshAction::ReportFailure(AppDataPart::Friends));
    assert_eq!(next_refresh_action(s, 3, false), RefreshAction::EmitRefreshed(true));
    assert_eq!(
        next_refresh_action(AppDataRefreshScope::Friends, 1, false),
        RefreshAction::EmitRefreshed(false)
    );
    assert_eq!(
        next_refresh_action(AppDataRefreshScope::Dolls, 0, true),
        RefreshAction::ReportFailure(AppDataPart::Dolls)
    );
}

#[test]
fn health_manager_replaces_the_primary_windows() {
    let plan = open_health_manager_window(Some("down"));
    assert_eq!(plan.close_labels, vec!["scene", "app_menu", "welcome", "splash"]);
    assert_eq!(plan.config.label, HEALTH_MANAGER_WINDOW_LABEL);
    assert_eq!(plan.config.url_path, "/health-manager?err=down");
    assert_eq!(health_manager_follow_up(EnsureOutcome::Created), HealthManagerFollowUp::CenterAndShow);
    assert_eq!(
        health_manager_follow_up(EnsureOutcome::ShowExistingFailed),
        HealthManagerFollowUp::ShowErrorDialog
    );
    assert_eq!(health_manager_follow_up(EnsureOutcome::Existing), HealthManagerFollowUp::Nothing);
}

#[test]
fn stored_credentials_are_ascii_and_read_back() {
    let json = "{\"access_token\":\"ä-token\",\"expires_in\":5}";
    let encoded = encode_auth_pass_json(json).unwrap();
    assert!(encoded.is_ascii());
    let chunks = chunk_encoded(&encoded, 7);
    assert_eq!(decode_auth_pass_json(&join_chunks(&chunks)), Some(json.to_string()));
}

#[test]
fn url_parts_bound() {
    assert!(friendolls::urls::url_parts_fit_exec(100, 100, 100));
    assert!(!friendolls::urls::url_parts_fit_exec(400_000_000, 0, 0));
    assert!(!friendolls::urls::url_parts_fit_exec(200_000_000, 200_000_000, 0));
    assert!(!friendolls::urls::url_parts_fit_exec(usize::MAX, usize::MAX, usize::MAX));
}

#[test]
fn petted_sprite_is_a_base64_gif() {
    let (w, h) = (256u32, 160u32);
    let mut pixels = Vec::with_capacity((w * h * 4) as usize);
    for i in 0..(w * h) {
        pixels.extend_from_slice(&[(i % 251) as u8, (i % 13) as u8, 200, 255]);
    }
    let sheet = RgbaSheet { width: w, height: h, pixels };
    let sprite = crop_random_sprite(&sheet);
    assert_eq!((sprite.width, sprite.height, sprite.pixels.len()), (32, 32, 32 * 32 * 4));
    let text = encode_pet_doll_gif_base64(Ok(sheet)).unwrap();
    let gif = base64::engine::general_purpose::STANDARD.decode(&text).unwrap();
    assert_eq!(&gif[0..6], b"GIF89a");
    assert_eq!(
        encode_pet_doll_gif_base64(Err("no sheet".to_string())).unwrap_err(),
        "Failed to recolor image: no sheet"
    );
}

#[test]
fn crop_keeps_the_rows_of_the_rectangle() {
    let (w, h) = (256u32, 160u32);
    let pixels: Vec<u8> = (0..(w * h)).flat_map(|i| [(i % w) as u8, (i / w) as u8, 0, 255]).collect();
    let sheet = RgbaSheet { width: w, height: h, pixels };
    let sprite = crop_random_sprite(&sheet);
    let (x0, y0) = (sprite.pixels[0] as u32, sprite.pixels[1] as u32);
    for row in 0..32u32 {
        for col in 0..32u32 {
            let k = ((row * 32 + col) * 4) as usize;
            assert_eq!(sprite.pixels[k] as u32, (x0 + col) % 256);
            assert_eq!(sprite.pixels[k + 1] as u32, y0 + row);
        }
    }
}
