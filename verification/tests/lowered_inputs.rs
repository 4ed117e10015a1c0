use pstream_frontend::hero::hero_maturity_of_lowered;
use pstream_frontend::info_modal::{certification_of_lowered, lowercase_genre_names, modal_vibe_tags_of_lowered};
use pstream_frontend::maturity_badge::{rating_of_normalized, BadgeRating, VoteLevel};
use pstream_frontend::movie_card_popup::vibe_tags_of_lowered;
use pstream_frontend::player::is_webkit_lowered;

#[test]
fn popup_tags_from_lowered_overview() {
    let tags = vibe_tags_of_lowered(None, None, "a detective hunts a serial killer");
    assert_eq!(tags[0], "Gritty");
    assert_eq!(tags.len(), 3);
    // upper-case cue words are not recognised once the text is taken as lowered
    let tags = vibe_tags_of_lowered(None, None, "A DETECTIVE");
    assert_eq!(tags, vec!["Compelling", "Suspenseful", "Exciting"]);
}

#[test]
fn modal_lines_from_lowered_genres() {
    let g = lowercase_genre_names(&[(1, "Science FICTION".to_string()), (2, "Crime".to_string())]);
    assert_eq!(g, vec![(1, "science fiction".to_string()), (2, "crime".to_string())]);
    assert_eq!(modal_vibe_tags_of_lowered(&g, "quantum leap"), vec!["Mind-Bending", "Cerebral", "Gritty"]);
    assert_eq!(modal_vibe_tags_of_lowered(&[(1, "Crime".to_string())], ""), vec!["Captivating", "Compelling"]);
    assert_eq!(certification_of_lowered(&[(5, "children".to_string())], VoteLevel::Under60), "U");
    assert_eq!(certification_of_lowered(&[(5, "Children".to_string())], VoteLevel::Under60), "12");
}

#[test]
fn hero_and_badge_from_normalised_text() {
    assert_eq!(hero_maturity_of_lowered(&["horror".to_string()], "action", VoteLevel::From60), "18");
    assert_eq!(hero_maturity_of_lowered(&["Horror".to_string()], "Action", VoteLevel::From60), "12");
    assert_eq!(rating_of_normalized("PG-13", false, None), BadgeRating::TwelveA);
    assert_eq!(rating_of_normalized("pg-13", false, None), BadgeRating::Twelve);
    assert!(is_webkit_lowered("mozilla/5.0 (ipad)"));
    assert!(!is_webkit_lowered("IPAD"));
}
