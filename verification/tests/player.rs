use pstream_frontend::player::{numeric_flags, numeric_prefix};
use pstream_frontend::player::{controls_hidden, mute_button_title, play_button_icon, play_button_title};
use pstream_frontend::player::{
    command_for_key, is_webkit_user_agent, next_rating, rating_glyph, read_yt_message, youtube_embed_url,
    yt_command, yt_number_field, MovieRating, PlayerCommand, RatingGlyph,
};

#[test]
fn keyboard_shortcuts() {
    assert_eq!(command_for_key(" ", true), Some(PlayerCommand::TogglePlay));
    assert_eq!(command_for_key("K", false), Some(PlayerCommand::TogglePlay));
    assert_eq!(command_for_key("ArrowLeft", true), Some(PlayerCommand::SkipBack));
    assert_eq!(command_for_key("l", true), Some(PlayerCommand::SkipForward));
    assert_eq!(command_for_key("ArrowUp", true), Some(PlayerCommand::VolumeUp));
    assert_eq!(command_for_key("ArrowUp", false), None);
    assert_eq!(command_for_key("ArrowDown", true), Some(PlayerCommand::VolumeDown));
    assert_eq!(command_for_key("M", true), Some(PlayerCommand::ToggleMute));
    assert_eq!(command_for_key("f", true), Some(PlayerCommand::ToggleFullscreen));
    assert_eq!(command_for_key("x", true), None);
}

#[test]
fn rating_cycle() {
    assert_eq!(next_rating(None), Some(MovieRating::Like));
    assert_eq!(next_rating(Some(MovieRating::Like)), Some(MovieRating::Love));
    assert_eq!(next_rating(Some(MovieRating::Love)), Some(MovieRating::Dislike));
    assert_eq!(next_rating(Some(MovieRating::Dislike)), None);
    let mut r = Some(MovieRating::Love);
    for _ in 0..4 {
        r = next_rating(r);
    }
    assert_eq!(r, Some(MovieRating::Love));
    assert_eq!(rating_glyph(Some(MovieRating::Love)), RatingGlyph::DoubleThumbsUp);
    assert_eq!(rating_glyph(Some(MovieRating::Dislike)), RatingGlyph::ThumbsDown);
    assert_eq!(rating_glyph(None), RatingGlyph::ThumbsUp);
}

#[test]
fn youtube_messages() {
    assert_eq!(yt_command("playVideo"), r#"{"event":"command","func":"playVideo","args":[]}"#);
    let s = read_yt_message(r#"{"event":"onStateChange","info":1}"#);
    assert!(s.playing && !s.ended && !s.stalled_or_cued);
    let s = read_yt_message(r#"{"event":"infoDelivery","info":{"playerState": 0,"currentTime":12.5}}"#);
    assert!(s.ended && s.has_current_time && !s.has_duration);
    let s = read_yt_message(r#"{"event":"onReady"}"#);
    assert!(s.stalled_or_cued);
    let s = read_yt_message(r#"{"info":-1}"#);
    assert!(s.stalled_or_cued);
}

#[test]
fn youtube_numbers() {
    let m = r#"{"info":{"currentTime": 12.5,"duration":100}}"#;
    assert_eq!(yt_number_field(m, "currentTime"), Some("12.5".to_string()));
    assert_eq!(yt_number_field(m, "duration"), Some("100".to_string()));
    assert_eq!(yt_number_field(m, "volume"), None);
    assert_eq!(yt_number_field(r#"{"currentTime"}"#, "currentTime"), None);
    assert_eq!(yt_number_field(r#"{"currentTime":x}"#, "currentTime"), Some(String::new()));
}

#[test]
fn embed_and_webkit() {
    assert!(is_webkit_user_agent("Mozilla/5.0 (Macintosh) AppleWebKit Version/17.0 Safari/605.1.15"));
    assert!(!is_webkit_user_agent("Mozilla/5.0 (Windows) Chrome/120.0 Safari/537.36"));
    assert!(!is_webkit_user_agent("Mozilla/5.0 (Linux; Android 14) Safari"));
    assert!(is_webkit_user_agent("Mozilla/5.0 (iPhone; CPU iPhone OS 17) CriOS Chrome"));
    let url = youtube_embed_url("abc123", "https://pstream.tv", 8);
    assert_eq!(url, "https://www.youtube.com/embed/abc123?autoplay=1&mute=1&controls=0&modestbranding=1&rel=0&iv_load_policy=3&playsinline=1&enablejsapi=1&disablekb=1&origin=https://pstream.tv&widget_referrer=https://pstream.tv&start=8");
}

#[test]
fn control_bar_labels() {
    assert!(controls_hidden(true, true));
    assert!(!controls_hidden(true, false));
    assert!(!controls_hidden(false, true));
    assert_eq!(play_button_title(true), "Pause (Space)");
    assert_eq!(play_button_title(false), "Play (Space)");
    assert_eq!(mute_button_title(true), "Unmute (M)");
    assert_eq!(mute_button_title(false), "Mute (M)");
    assert_eq!(play_button_icon(false), "ph-fill ph-play text-2xl md:text-3xl");
}

#[test]
fn numeric_prefix_follows_the_flags() {
    assert_eq!(numeric_prefix("12.5,\"x\"", &[true, true, false, true, false, false, false, false]), "12.5");
    assert_eq!(numeric_prefix("abc", &[true, true, false]), "ab");
    assert_eq!(numeric_prefix("..x", &[false, false, false]), "..");
    assert_eq!(numeric_prefix("", &[]), "");
    assert_eq!(numeric_flags("1a٣"), vec![true, false, true]);
    let v = "3.25s";
    assert_eq!(numeric_prefix(v, &numeric_flags(v)), "3.25");
}
