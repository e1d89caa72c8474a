use friendolls::friends::{ActiveDollSprites, FriendCursorProjection};
use friendolls::models::{
    DollColorScheme, DollConfiguration, DollDto, FriendUserDto, FriendshipResponseDto, NekoPosition,
    UserData, UserProfile,
};
use friendolls::neko_positions::{
    cluster_cell, horizontal_alignment, vertical_alignment, Alignment, GridCell,
    NekoPositionsProjection,
};
use friendolls::projections::FriendProjections;
use friendolls::sprite_recolor::{DecodedGif, GifFrame};
use friendolls::gif_codec::GifDisposal;
use friendolls::str_map::StrMap;

fn doll(id: &str, body: &str) -> DollDto {
    DollDto {
        id: id.to_string(),
        name: id.to_string(),
        configuration: DollConfiguration {
            color_scheme: DollColorScheme { body: body.to_string(), outline: "#000000".to_string() },
        },
    }
}

fn friend(id: &str, active: Option<DollDto>) -> FriendshipResponseDto {
    FriendshipResponseDto { friend: Some(FriendUserDto { id: id.to_string(), active_doll: active }) }
}

fn one_pixel_gif() -> DecodedGif {
    DecodedGif {
        width: 1,
        height: 1,
        frames: vec![GifFrame { pixels: vec![255, 255, 255, 255], delay: 5, dispose: GifDisposal::Keep }],
    }
}

#[test]
fn str_map_insert_get_remove() {
    let mut m: StrMap<u32> = StrMap::new();
    assert_eq!(m.insert("a".to_string(), 1), None);
    assert_eq!(m.insert("b".to_string(), 2), None);
    assert_eq!(m.insert("a".to_string(), 3), Some(1));
    assert_eq!(m.len(), 2);
    assert_eq!(m.get("a"), Some(&3));
    assert_eq!(m.remove("a"), Some(3));
    assert_eq!(m.remove("a"), None);
    assert_eq!(m.get("a"), None);
    assert_eq!(m.len(), 1);
    m.clear();
    assert_eq!(m.len(), 0);
}

#[test]
fn str_map_retain_flagged() {
    let mut m: StrMap<u32> = StrMap::new();
    m.insert("a".to_string(), 1);
    m.insert("b".to_string(), 2);
    m.insert("c".to_string(), 3);
    let mut flags: StrMap<bool> = StrMap::new();
    flags.insert("a".to_string(), true);
    flags.insert("b".to_string(), false);
    m.retain_flagged(&flags);
    assert_eq!(m.len(), 1);
    assert_eq!(m.get("a"), Some(&1));
    assert_eq!(m.get("b"), None);
    assert_eq!(m.get("c"), None);
}

#[test]
fn sprites_sync_skips_friends_without_doll_or_bad_colours() {
    let gif = one_pixel_gif();
    let friends = vec![
        friend("f1", Some(doll("d1", "#ff0000"))),
        friend("f2", None),
        FriendshipResponseDto { friend: None },
        friend("f3", Some(doll("d3", "#nothex"))),
    ];
    let mut sprites = ActiveDollSprites::new();
    sprites.sync_from_app_data(&friends, &gif);
    let snap = sprites.get_snapshot();
    assert_eq!(snap.0.len(), 1);
    assert!(snap.0.get("f1").is_some());
    assert!(snap.0.get("f2").is_none());
    assert!(snap.0.get("f3").is_none());
}

#[test]
fn sprites_remove_and_set() {
    let gif = one_pixel_gif();
    let mut sprites = ActiveDollSprites::new();
    assert!(!sprites.remove_friend("f1"));
    let d = doll("d1", "#00ff00");
    assert!(sprites.set_active_doll("f1", Some(&d), &gif));
    assert_eq!(sprites.get_snapshot().0.len(), 1);
    // a doll whose sprite cannot be made drops the friend's sprite
    let bad = doll("d2", "#xyzxyz");
    assert!(sprites.set_active_doll("f1", Some(&bad), &gif));
    assert_eq!(sprites.get_snapshot().0.len(), 0);
    assert!(!sprites.set_active_doll("f1", None, &gif));
    assert!(sprites.set_active_doll("f1", Some(&d), &gif));
    assert!(sprites.remove_friend("f1"));
    sprites.clear();
    assert_eq!(sprites.get_snapshot().0.len(), 0);
}

#[test]
fn cursor_projection_keeps_cursors_of_friends_with_dolls() {
    let friends = vec![friend("a", Some(doll("d", "#000000"))), friend("b", None)];
    let mut p: FriendCursorProjection<(i32, i32)> = FriendCursorProjection::new();
    // unknown friends are looked up in the friend list
    assert!(p.update_position("a".to_string(), (1, 2), Some(&friends)));
    assert!(!p.update_position("b".to_string(), (3, 4), Some(&friends)));
    assert!(!p.update_position("zz".to_string(), (5, 6), None));
    // losing the doll drops the cursor
    assert!(p.set_active_doll("a", false));
    assert!(!p.set_active_doll("a", false));
    assert!(!p.update_position("a".to_string(), (1, 2), Some(&friends)));
    assert!(!p.set_active_doll("a", true));
    assert!(p.update_position("a".to_string(), (1, 2), None));
    assert!(p.remove_friend("a"));
    assert!(!p.remove_friend("a"));
    p.clear();
    assert!(!p.remove_friend("b"));
}

#[test]
fn cursor_projection_sync_drops_cursors_of_friends_without_doll() {
    let mut p: FriendCursorProjection<u8> = FriendCursorProjection::new();
    p.set_active_doll("a", true);
    p.set_active_doll("b", true);
    p.update_position("a".to_string(), 1, None);
    p.update_position("b".to_string(), 2, None);
    let friends = vec![friend("a", Some(doll("d", "#000000"))), friend("b", None)];
    p.sync_from_app_data(&friends);
    // b lost its doll: its cursor went, and it is not reported again
    assert!(!p.remove_friend("c"));
    assert!(p.remove_friend("b"));
    assert!(!p.update_position("b".to_string(), 3, None));
}

fn user_with_doll(id: &str) -> UserData {
    UserData {
        user: Some(UserProfile { id: id.to_string(), active_doll_id: Some("d".to_string()) }),
        friends: None,
        dolls: None,
    }
}

#[test]
fn neko_snapshot_is_ordered_by_id_with_self() {
    let mut p: NekoPositionsProjection<u8> = NekoPositionsProjection::new();
    p.set_friend_active_doll("zed", true);
    p.set_friend_active_doll("amy", true);
    p.set_friend_active_doll("bob", false);
    p.update_friend_cursor("zed".to_string(), 1, None);
    p.update_friend_cursor("amy".to_string(), 2, None);
    p.update_friend_cursor("bob".to_string(), 3, None);
    p.update_self_cursor(9);
    let entries = p.snapshot_entries(&user_with_doll("me"));
    let ids: Vec<(&str, bool, u8)> =
        entries.iter().map(|e| (e.user_id.as_str(), e.is_self, e.cursor)).collect();
    assert_eq!(ids, vec![("amy", false, 2), ("me", true, 9), ("zed", false, 1)]);
}

#[test]
fn neko_snapshot_without_self_doll_or_cursor() {
    let mut p: NekoPositionsProjection<u8> = NekoPositionsProjection::new();
    p.set_friend_active_doll("a", true);
    p.update_friend_cursor("a".to_string(), 1, None);
    let mut data = user_with_doll("me");
    // no cursor of the user's own yet
    assert_eq!(p.snapshot_entries(&data).len(), 1);
    p.update_self_cursor(5);
    data.user = Some(UserProfile { id: "me".to_string(), active_doll_id: None });
    assert_eq!(p.refresh_from_scene_setup(&data).len(), 1);
    p.clear();
    assert_eq!(p.snapshot_entries(&user_with_doll("me")).len(), 0);
}

#[test]
fn neko_snapshot_self_first_among_equal_ids() {
    let mut p: NekoPositionsProjection<u8> = NekoPositionsProjection::new();
    p.set_friend_active_doll("me", true);
    p.update_friend_cursor("me".to_string(), 1, None);
    p.update_self_cursor(2);
    let entries = p.snapshot_entries(&user_with_doll("me"));
    assert_eq!(entries.len(), 2);
    assert!(entries[0].is_self);
    assert!(!entries[1].is_self);
}

#[test]
fn neko_ids_compare_bytewise() {
    let mut p: NekoPositionsProjection<u8> = NekoPositionsProjection::new();
    for id in ["b", "B", "ab", "a", "é"] {
        p.set_friend_active_doll(id, true);
        p.update_friend_cursor(id.to_string(), 0, None);
    }
    let entries = p.snapshot_entries(&UserData::new());
    let ids: Vec<&str> = entries.iter().map(|e| e.user_id.as_str()).collect();
    assert_eq!(ids, vec!["B", "a", "ab", "b", "é"]);
}

#[test]
fn cluster_grid_cells() {
    assert_eq!(cluster_cell(0, 1), GridCell { col: 0, row: 0, columns: 1, rows: 1 });
    assert_eq!(cluster_cell(4, 5), GridCell { col: 1, row: 1, columns: 3, rows: 2 });
    assert_eq!(cluster_cell(8, 9), GridCell { col: 2, row: 2, columns: 3, rows: 3 });
    assert_eq!(cluster_cell(9, 10), GridCell { col: 1, row: 2, columns: 4, rows: 3 });
    assert_eq!(cluster_cell(1, 2), GridCell { col: 1, row: 0, columns: 2, rows: 1 });
}

#[test]
fn cluster_alignment_by_anchor() {
    assert_eq!(horizontal_alignment(NekoPosition::TopLeft), Alignment::Start);
    assert_eq!(horizontal_alignment(NekoPosition::Bottom), Alignment::Center);
    assert_eq!(horizontal_alignment(NekoPosition::Right), Alignment::End);
    assert_eq!(vertical_alignment(NekoPosition::TopRight), Alignment::Start);
    assert_eq!(vertical_alignment(NekoPosition::Left), Alignment::Center);
    assert_eq!(vertical_alignment(NekoPosition::BottomLeft), Alignment::End);
}

#[test]
fn projections_follow_a_friends_doll_change() {
    let gif = one_pixel_gif();
    let mut p: FriendProjections<u8> = FriendProjections::new();
    let d = doll("d", "#123456");
    let u = p.set_active_doll("f", Some(&d), &gif);
    assert!(u.sprites);
    assert!(!u.nekos);
    p.nekos.update_friend_cursor("f".to_string(), 4, None);
    let u = p.set_active_doll("f", None, &gif);
    assert!(u.sprites && u.nekos);
    let u = p.remove_friend("f");
    assert!(!u.sprites);
    assert!(u.nekos);
    let friends = vec![friend("g", Some(doll("d", "#654321")))];
    p.sync_from_app_data(&friends, &gif);
    assert_eq!(p.get_active_doll_sprites_snapshot().0.len(), 1);
    p.sync_active_doll_sprites_from_app_data(&vec![], &gif);
    assert_eq!(p.get_active_doll_sprites_snapshot().0.len(), 0);
    p.clear();
    assert!(!p.remove_friend("g").nekos);
}
