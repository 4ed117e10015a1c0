use pstream_frontend::profiles::{
    add_profile, avatar_art, avatar_url_or_default, build_form, can_add_profile, can_save, delete_profile,
    edit_profile, find_profile, is_pin_valid, keep_digits, kids_switch_target, other_profiles, tile_action,
    AvatarArt, PinPad, PinStep, Profile, ProfileFormData, TileAction, SWITCH_OVERLAY_MS,
};

fn p(id: &str, name: &str, kids: bool, pin: Option<&str>) -> Profile {
    Profile {
        id: id.to_string(),
        name: name.to_string(),
        avatar_url: None,
        is_kids: kids,
        is_default: None,
        pin: pin.map(|s| s.to_string()),
        sort_order: 0,
    }
}

fn form(name: &str) -> ProfileFormData {
    ProfileFormData { name: name.to_string(), avatar_url: Some("a.png".to_string()), is_kids: false, pin: None }
}

#[test]
fn adding_editing_deleting_profiles() {
    let mut list = vec![p("p_1", "Ann", false, None)];
    add_profile(&mut list, form("Bob"), 1700000000000);
    assert_eq!(list.len(), 2);
    assert_eq!(list[1].id, "p_1700000000000");
    assert_eq!(list[1].sort_order, 1);
    assert_eq!(list[1].is_default, Some(false));
    edit_profile(&mut list, "p_1", form("Anna"));
    assert_eq!(list[0].name, "Anna");
    assert_eq!(list[0].avatar_url.as_deref(), Some("a.png"));
    edit_profile(&mut list, "nope", form("X"));
    assert_eq!(find_profile(&list, "p_1700000000000"), Some(1));
    assert_eq!(find_profile(&list, "nope"), None);
    let mut active = Some("p_1".to_string());
    delete_profile(&mut list, &mut active, "p_1");
    assert_eq!(list.len(), 1);
    assert_eq!(active.as_deref(), Some("p_1700000000000"));
    delete_profile(&mut list, &mut active, "p_1700000000000");
    assert!(list.is_empty());
    assert_eq!(active, None);
}

#[test]
fn deleting_another_profile_keeps_active() {
    let mut list = vec![p("a", "A", false, None), p("b", "B", false, None)];
    let mut active = Some("a".to_string());
    delete_profile(&mut list, &mut active, "b");
    assert_eq!(active.as_deref(), Some("a"));
    assert_eq!(list.len(), 1);
}

#[test]
fn tiles_and_kids_switch() {
    let locked = p("l", "L", false, Some("1234"));
    assert_eq!(tile_action(true, &locked, &vec![]), TileAction::OpenEditor);
    assert_eq!(tile_action(false, &locked, &vec![]), TileAction::AskPin);
    assert_eq!(tile_action(false, &locked, &vec!["l".to_string()]), TileAction::Switch);
    assert!(can_add_profile(4));
    assert!(!can_add_profile(5));
    let list = vec![p("a", "A", false, None), p("k", "K", true, None), p("b", "B", false, None)];
    assert_eq!(kids_switch_target(&list, &Some("a".to_string())), Some(1));
    assert_eq!(kids_switch_target(&list, &Some("k".to_string())), Some(0));
    assert_eq!(kids_switch_target(&list, &None), Some(1));
    let others = other_profiles(&list, &Some("k".to_string()));
    let ids: Vec<&str> = others.iter().map(|x| x.id.as_str()).collect();
    assert_eq!(ids, vec!["a", "b"]);
}

#[test]
fn editor_validation() {
    assert!(is_pin_valid(false, ""));
    assert!(is_pin_valid(true, "0123"));
    assert!(!is_pin_valid(true, "12a4"));
    assert!(!is_pin_valid(true, "123"));
    assert!(can_save(" Ann ", false, ""));
    assert!(!can_save("   ", false, ""));
    assert!(!can_save("Ann", true, "12"));
    assert_eq!(keep_digits("1a2-3 45", 4), "1234");
    assert_eq!(keep_digits("x", 4), "");
    let f = build_form("  Zoe ", "z.png", true, true, "9999");
    assert_eq!(f.name, "Zoe");
    assert_eq!(f.pin.as_deref(), Some("9999"));
    let f = build_form("Zoe", "z.png", false, false, "9999");
    assert_eq!(f.pin, None);
}

#[test]
fn pin_pad_unlocks_or_rejects() {
    let mut pad = PinPad::new();
    assert_eq!(pad.type_into(0, "1", "1234"), PinStep::Focus(1));
    assert_eq!(pad.type_into(1, "x2", "1234"), PinStep::Focus(2));
    assert_eq!(pad.type_into(2, "3", "1234"), PinStep::Focus(3));
    assert_eq!(pad.type_into(3, "4", "1234"), PinStep::Unlock);
    let mut pad = PinPad::new();
    pad.type_into(0, "1", "1234");
    pad.type_into(1, "1", "1234");
    pad.type_into(2, "1", "1234");
    assert_eq!(pad.type_into(3, "1", "1234"), PinStep::Reject);
    assert!((0..4).all(|i| pad.box_text(i).is_empty()));
    assert_eq!(pad.type_into(0, "a", "1234"), PinStep::Stay);
    assert_eq!(pad.key_down(1, "Backspace"), PinStep::Focus(0));
    assert_eq!(pad.key_down(0, "Backspace"), PinStep::Stay);
    assert_eq!(pad.key_down(2, "Escape"), PinStep::Cancel);
}

#[test]
fn avatars() {
    let kid = p("k", "K", true, None);
    assert!(matches!(avatar_art(Some(&kid)), AvatarArt::KidsEmblem));
    let mut adult = p("a", "A", false, None);
    match avatar_art(Some(&adult)) {
        AvatarArt::Picture(u) => assert!(u.starts_with("https://wallpapers.com/")),
        _ => panic!("expected a picture"),
    }
    adult.avatar_url = Some("me.png".to_string());
    assert_eq!(avatar_url_or_default(Some(&adult)), "me.png");
    assert_eq!(
        avatar_url_or_default(None),
        "https://wallpapers.com/images/hd/netflix-profile-pictures-1000-x-1000-88wkdmjrorckekha.jpg"
    );
}

#[test]
fn switch_overlay_lasts_850_ms() {
    assert_eq!(SWITCH_OVERLAY_MS, 850);
}
