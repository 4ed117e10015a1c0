use pstream_frontend::hero::{
    acclaim_badge_for, choose_badge, creator_badge_for, hero_genre_label, hero_kind_label, hero_length_label,
    hero_maturity_label, hero_year_label, is_megaphone_icon, parse_u32, CrewCredit,
};
use pstream_frontend::maturity_badge::VoteLevel;

fn names(v: &[&str]) -> Vec<String> {
    v.iter().map(|x| x.to_string()).collect()
}

#[test]
fn hero_kind_and_genre() {
    assert_eq!(hero_kind_label(true), "Series");
    assert_eq!(hero_kind_label(false), "Film");
    assert_eq!(hero_genre_label(Some("Drama")), "Drama");
    assert_eq!(hero_genre_label(None), "Action");
}

#[test]
fn hero_year_prefers_details_then_item_then_default() {
    assert_eq!(hero_year_label(Some("2019-05-01"), Some("2001-01-01")), "2019");
    assert_eq!(hero_year_label(Some("19"), Some("2001-01-01")), "2001");
    assert_eq!(hero_year_label(None, Some("1999")), "1999");
    assert_eq!(hero_year_label(None, None), "2024");
    assert_eq!(hero_year_label(Some(""), Some("abc")), "2024");
    // three chars but five bytes: long enough in bytes, so all three chars are kept
    assert_eq!(hero_year_label(Some("éé1"), None), "éé1");
}

#[test]
fn hero_length_captions() {
    assert_eq!(hero_length_label(true, Some(1), None), "1 Season");
    assert_eq!(hero_length_label(true, Some(5), None), "5 Seasons");
    assert_eq!(hero_length_label(true, None, None), "1 Season");
    assert_eq!(hero_length_label(false, None, Some(148)), "2h 28m");
    assert_eq!(hero_length_label(false, None, Some(45)), "45m");
    assert_eq!(hero_length_label(false, None, Some(60)), "1h 0m");
    assert_eq!(hero_length_label(false, None, None), "1h 45m");
}

#[test]
fn hero_maturity_rules() {
    assert_eq!(hero_maturity_label(&names(&["Animation"]), "Animation", VoteLevel::From65), "U");
    assert_eq!(hero_maturity_label(&names(&["Family"]), "Family", VoteLevel::From70), "PG");
    assert_eq!(hero_maturity_label(&names(&["Horror", "Comedy"]), "Horror", VoteLevel::Under60), "18");
    assert_eq!(hero_maturity_label(&names(&["Crime"]), "Crime", VoteLevel::From78), "18");
    assert_eq!(hero_maturity_label(&names(&["Thriller"]), "Thriller", VoteLevel::From72), "15");
    assert_eq!(hero_maturity_label(&names(&["Drama"]), "Drama", VoteLevel::From80), "18");
    assert_eq!(hero_maturity_label(&names(&["Drama"]), "Drama", VoteLevel::From65), "15");
    assert_eq!(hero_maturity_label(&names(&[]), "Action", VoteLevel::From60), "12");
    // the line's genre label alone can decide
    assert_eq!(hero_maturity_label(&names(&[]), "Children's", VoteLevel::From82), "PG");
}

#[test]
fn u32_parsing_like_std() {
    for s in ["2024", "+7", "0", "4294967295", "4294967296", "", "+", "-1", "12a", " 1", "007"] {
        assert_eq!(parse_u32(s), s.parse::<u32>().ok(), "{s:?}");
    }
}

#[test]
fn acclaim_badges() {
    let b = acclaim_badge_for("2010", VoteLevel::From82).unwrap();
    assert_eq!((b.0.as_str(), b.1.as_str()), ("clapper", "Critically Acclaimed Masterpiece"));
    let b = acclaim_badge_for("2010", VoteLevel::From78).unwrap();
    assert_eq!(b.1, "Critically Acclaimed");
    let b = acclaim_badge_for("2025", VoteLevel::From72).unwrap();
    assert_eq!((b.0.as_str(), b.1.as_str()), ("megaphone", "Trending Now"));
    assert!(acclaim_badge_for("2023", VoteLevel::From72).is_none());
    assert!(acclaim_badge_for("abcd", VoteLevel::From72).is_some());
    assert!(acclaim_badge_for("2030", VoteLevel::From70).is_none());
}

#[test]
fn creator_badge_takes_first_lead() {
    let crew = vec![
        CrewCredit { job: Some("Writer".to_string()), name: "A".to_string() },
        CrewCredit { job: None, name: "B".to_string() },
        CrewCredit { job: Some("Director".to_string()), name: "Denis Villeneuve".to_string() },
        CrewCredit { job: Some("Creator".to_string()), name: "C".to_string() },
    ];
    assert_eq!(creator_badge_for(&crew, false), Some("Directed by Denis Villeneuve".to_string()));
    assert_eq!(creator_badge_for(&crew, true), Some("Created by Denis Villeneuve".to_string()));
    assert_eq!(creator_badge_for(&crew[..2], false), None);
}

#[test]
fn curated_highlight_wins_once_evaluated() {
    let fb = Some(("clapper".to_string(), "Critically Acclaimed".to_string()));
    assert_eq!(choose_badge(true, Some("Visual Masterpiece"), None, fb.clone()), Some(("clapper".to_string(), "Visual Masterpiece".to_string())));
    assert_eq!(choose_badge(true, Some("Viral"), Some("megaphone"), fb.clone()), Some(("megaphone".to_string(), "Viral".to_string())));
    assert_eq!(choose_badge(true, None, Some("megaphone"), fb.clone()), None);
    assert_eq!(choose_badge(false, Some("x"), None, fb.clone()), fb);
    assert!(is_megaphone_icon("megaphone"));
    assert!(!is_megaphone_icon("clapper"));
}
