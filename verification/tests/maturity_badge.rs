use pstream_frontend::maturity_badge::{badge_dimensions, badge_rating, vote_reaches, BadgeRating, BadgeShape, VoteLevel};

#[test]
fn known_certifications() {
    assert_eq!(badge_rating(" pg-13 ", false, None), BadgeRating::TwelveA);
    assert_eq!(badge_rating("TV-MA", false, None), BadgeRating::Eighteen);
    assert_eq!(badge_rating("u", false, None), BadgeRating::U);
    assert_eq!(badge_rating("7+", false, None), BadgeRating::PG);
    assert_eq!(badge_rating("16", false, None), BadgeRating::Fifteen);
    assert_eq!(badge_rating("tv-14", false, None), BadgeRating::Twelve);
    assert_eq!(badge_rating("R18", false, None), BadgeRating::R18);
}

#[test]
fn unknown_certifications_fall_back() {
    assert_eq!(badge_rating("", true, None), BadgeRating::Eighteen);
    assert_eq!(badge_rating("", false, Some(VoteLevel::From78)), BadgeRating::Eighteen);
    assert_eq!(badge_rating("", false, Some(VoteLevel::From60)), BadgeRating::Fifteen);
    assert_eq!(badge_rating("", false, Some(VoteLevel::Under60)), BadgeRating::Twelve);
    assert_eq!(badge_rating("MA15+", false, None), BadgeRating::Eighteen);
    assert_eq!(badge_rating("X16", false, None), BadgeRating::Fifteen);
    assert_eq!(badge_rating("KPG", false, None), BadgeRating::PG);
    assert_eq!(badge_rating("UX", false, None), BadgeRating::U);
    assert_eq!(badge_rating("", false, None), BadgeRating::Twelve);
    assert_eq!(badge_rating("NR", false, None), BadgeRating::Eighteen);
}

#[test]
fn badge_looks() {
    assert_eq!(BadgeRating::U.label(), "U");
    assert_eq!(BadgeRating::TwelveA.fill(), "#f05a1a");
    assert_eq!(BadgeRating::R18.fill(), "#0060cf");
    assert_eq!(BadgeRating::PG.shape(), BadgeShape::Triangle);
    assert_eq!(BadgeRating::R18.shape(), BadgeShape::Square);
    assert_eq!(BadgeRating::Fifteen.shape(), BadgeShape::Circle);
    assert_eq!(BadgeRating::U.font_size(), 42);
    assert_eq!(BadgeRating::PG.font_size(), 34);
    assert_eq!(BadgeRating::TwelveA.font_size(), 31);
    assert_eq!(badge_dimensions("xs", true), (20, 18));
    assert_eq!(badge_dimensions("md", false), (32, 32));
    assert_eq!(badge_dimensions("lg", true), (40, 35));
    assert_eq!(badge_dimensions("weird", true), (24, 21));
}

#[test]
fn vote_levels() {
    assert!(vote_reaches(VoteLevel::From82, 80));
    assert!(vote_reaches(VoteLevel::From72, 72));
    assert!(!vote_reaches(VoteLevel::From70, 72));
    assert!(vote_reaches(VoteLevel::Under60, 0));
}
