use pstream_frontend::links::{
    card_image, coming_soon_label, card_id, episode_badge, formatted_rank, image_of, modal_watch_url, next_episode, player_subtitle,
    spotlight_backdrop_url, tmdb_image_url, watch_url, year_of,
};

#[test]
fn watch_routes() {
    assert_eq!(watch_url(603, false, None, None), "/watch/movie/603");
    assert_eq!(watch_url(1399, true, Some(2), Some(5)), "/watch/tv/1399?season=2&episode=5");
    assert_eq!(watch_url(1399, true, Some(2), None), "/watch/tv/1399");
    assert_eq!(watch_url(7, false, Some(1), Some(1)), "/watch/movie/7");
    assert_eq!(modal_watch_url(1399, true, None, None, 3), "/watch/tv/1399?season=3&episode=1");
    assert_eq!(modal_watch_url(1399, true, Some(4), Some(9), 3), "/watch/tv/1399?season=4&episode=9");
    assert_eq!(modal_watch_url(550, false, None, None, 3), "/watch/movie/550");
}

#[test]
fn image_urls() {
    assert_eq!(tmdb_image_url("/abc.jpg", "w780"), "https://image.tmdb.org/t/p/w780/abc.jpg");
    assert_eq!(tmdb_image_url("https://x.org/a.png", "w780"), "https://x.org/a.png");
    assert_eq!(spotlight_backdrop_url(""), "");
    assert_eq!(spotlight_backdrop_url("/b.jpg"), "https://image.tmdb.org/t/p/w780/b.jpg");
    assert_eq!(image_of(Some("/back.jpg"), Some("/post.jpg"), "original"), Some("https://image.tmdb.org/t/p/original/back.jpg".to_string()));
    assert_eq!(image_of(None, Some("/post.jpg"), "w342"), Some("https://image.tmdb.org/t/p/w342/post.jpg".to_string()));
    assert_eq!(image_of(None, None, "w342"), None);
}

#[test]
fn card_ids_and_badges() {
    assert_eq!(card_id(true, 42, false), "tv-42");
    assert_eq!(card_id(false, 42, true), "topten-movie-42");
    assert_eq!(episode_badge(true, Some(1), Some(3)), Some("S1:E3".to_string()));
    assert_eq!(episode_badge(true, None, Some(3)), None);
    assert_eq!(episode_badge(false, Some(1), Some(3)), None);
    assert_eq!(formatted_rank(Some(3)), Some("03".to_string()));
    assert_eq!(formatted_rank(Some(10)), Some("10".to_string()));
    assert_eq!(formatted_rank(None), None);
}

#[test]
fn player_captions() {
    assert_eq!(next_episode(Some(2), Some(5)), (2, 6));
    assert_eq!(next_episode(None, None), (1, 2));
    assert_eq!(player_subtitle(true, Some(1), Some(2), Some("Pilot"), None), "S1:E2 \"Pilot\"");
    assert_eq!(player_subtitle(true, None, None, None, Some("2020")), "S1:E1 \"Episode\"");
    assert_eq!(player_subtitle(false, None, None, None, Some("2020")), "2020");
    assert_eq!(player_subtitle(false, None, None, None, None), "");
    assert_eq!(year_of("2024-05-01"), "2024");
    assert_eq!(year_of("99"), "99");
}

#[test]
fn card_art_and_coming_soon() {
    assert_eq!(card_image("/b.jpg", Some("/p.jpg")), "/b.jpg");
    assert_eq!(card_image("", Some("/p.jpg")), "/p.jpg");
    assert_eq!(card_image("", None), "");
    assert_eq!(coming_soon_label(true, Some("June 5")), Some("Coming June 5".to_string()));
    assert_eq!(coming_soon_label(true, Some("")), None);
    assert_eq!(coming_soon_label(false, Some("June 5")), None);
    assert_eq!(coming_soon_label(true, None), None);
}
