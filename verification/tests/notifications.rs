use pstream_frontend::notifications::{
    badge_text, build_notifications, is_read, mark_read, read_ids_from_list, read_ids_from_text, read_ids_text,
    unread_count, NotificationSource,
};

fn src(id: u32, title: &str, image: Option<&str>) -> NotificationSource {
    NotificationSource { id, title: Some(title.to_string()), image: image.map(|s| s.to_string()) }
}

#[test]
fn bell_lists_films_then_series_with_art() {
    let movies = vec![src(1, "A", Some("a.jpg")), src(2, "B", None), src(3, "C", Some("c.jpg"))];
    let shows = vec![src(10, "S", Some("s.jpg"))];
    let list = build_notifications(&movies, &shows);
    assert_eq!(list.len(), 3);
    assert_eq!(list[0].id, "notif-movie-1");
    assert_eq!(list[0].headline, "Top pick for you");
    assert_eq!(list[0].relative_time, "New");
    assert_eq!(list[0].body, "A");
    assert_eq!(list[0].backdrop, "a.jpg");
    assert_eq!(list[1].id, "notif-movie-3");
    assert_eq!(list[1].headline, "Don't miss out");
    assert_eq!(list[1].relative_time, "3 days ago");
    assert_eq!(list[2].id, "notif-tv-10");
    assert!(list[2].is_tv);
    assert_eq!(list[2].headline, "New season available");
}

#[test]
fn bell_caps_films_at_eight_and_all_at_sixteen() {
    let movies: Vec<_> = (0..12).map(|i| src(i, "m", Some("x"))).collect();
    let shows: Vec<_> = (100..120).map(|i| src(i, "s", Some("y"))).collect();
    let list = build_notifications(&movies, &shows);
    assert_eq!(list.len(), 16);
    assert_eq!(list.iter().filter(|n| !n.is_tv).count(), 8);
    assert_eq!(list[8].id, "notif-tv-100");
    assert_eq!(list[8].relative_time, "New");
    assert_eq!(list[15].relative_time, "1 month ago");
    assert_eq!(list[7].headline, "New on PStream");
}

#[test]
fn unread_counting_and_marking() {
    let movies = vec![src(1, "A", Some("a")), src(2, "B", Some("b"))];
    let list = build_notifications(&movies, &vec![]);
    let mut read: Vec<String> = Vec::new();
    assert_eq!(unread_count(&list, &read), 2);
    mark_read(&mut read, "notif-movie-1");
    mark_read(&mut read, "notif-movie-1");
    assert_eq!(read.len(), 1);
    assert!(is_read(&read, "notif-movie-1"));
    assert!(!is_read(&read, "notif-movie-2"));
    assert_eq!(unread_count(&list, &read), 1);
}

#[test]
fn unread_badge_text() {
    assert_eq!(badge_text(0), "0");
    assert_eq!(badge_text(99), "99");
    assert_eq!(badge_text(100), "99+");
}

#[test]
fn reading_everything_clears_the_count() {
    let movies = vec![src(1, "A", Some("a")), src(2, "B", Some("b")), src(3, "C", Some("c"))];
    let list = build_notifications(&movies, &vec![src(9, "S", Some("s"))]);
    let mut read: Vec<String> = Vec::new();
    for n in list.iter() {
        mark_read(&mut read, &n.id);
    }
    assert_eq!(unread_count(&list, &read), 0);
    assert!(unread_count(&list, &Vec::new()) <= list.len());
}

#[test]
fn stored_read_marks_round_trip() {
    let ids = read_ids_from_text(Some(r#"["movie-1","tv-2","movie-1"]"#));
    assert_eq!(ids, vec!["movie-1".to_string(), "tv-2".to_string()]);
    assert!(read_ids_from_text(Some("not json")).is_empty());
    assert!(read_ids_from_text(Some(r#"{"a":1}"#)).is_empty());
    assert!(read_ids_from_text(None).is_empty());
    assert_eq!(read_ids_text(&ids), r#"["movie-1","tv-2"]"#);
    let odd = vec!["a\"b".to_string(), "é\n".to_string()];
    assert_eq!(read_ids_from_text(Some(&read_ids_text(&odd))), odd);
    assert_eq!(read_ids_text(&Vec::new()), "[]");
    let back = read_ids_from_text(Some(&read_ids_text(&ids)));
    assert_eq!(back, ids);
    assert!(read_ids_from_list(None).is_empty());
    assert_eq!(read_ids_from_list(Some(vec!["a".to_string(), "a".to_string()])), vec!["a".to_string()]);
}
