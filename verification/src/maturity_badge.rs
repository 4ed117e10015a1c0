//! The BBFC-style maturity badge: which rating a certification string maps
//! to, with the title's adult flag and vote as fallbacks, and the badge's
//! colours, shape and pixel size.

use vstd::prelude::*;
use crate::text::{has_substring, str_contains, str_equal, to_uppercase_str, trim_str, trimmed, uppercased};

verus! {

/// Where a vote average (0–10) stands against the thresholds the interface
/// compares it with: 6.0, 6.5, 7.0, 7.2, 7.8, 8.0 and 8.2.
#[derive(Clone, Copy, Debug, PartialEq, Eq, Structural)]
pub enum VoteLevel {
    /// Below 6.0.
    Under60,
    /// At least 6.0, below 6.5.
    From60,
    /// At least 6.5, below 7.0.
    From65,
    /// At least 7.0, below 7.2.
    From70,
    /// At least 7.2, below 7.8.
    From72,
    /// At least 7.8, below 8.0.
    From78,
    /// At least 8.0, below 8.2.
    From80,
    /// At least 8.2.
    From82,
}

/// The lowest threshold, in tenths, that a level reaches (0 for the lowest level).
pub open spec fn level_floor(v: VoteLevel) -> int {
    match v {
        VoteLevel::Under60 => 0,
        VoteLevel::From60 => 60,
        VoteLevel::From65 => 65,
        VoteLevel::From70 => 70,
        VoteLevel::From72 => 72,
        VoteLevel::From78 => 78,
        VoteLevel::From80 => 80,
        VoteLevel::From82 => 82,
    }
}

/// A vote at this level is at least `tenths / 10`, for `tenths` one of the thresholds.
pub open spec fn reaches(v: VoteLevel, tenths: int) -> bool {
    level_floor(v) >= tenths
}

/// Whether a vote at level `v` is at least `tenths / 10`.
pub fn vote_reaches(v: VoteLevel, tenths: u32) -> (r: bool)
    ensures
        r == reaches(v, tenths as int),
{
    let floor: u32 = match v {
        VoteLevel::Under60 => 0,
        VoteLevel::From60 => 60,
        VoteLevel::From65 => 65,
        VoteLevel::From70 => 70,
        VoteLevel::From72 => 72,
        VoteLevel::From78 => 78,
        VoteLevel::From80 => 80,
        VoteLevel::From82 => 82,
    };
    floor >= tenths
}

/// The ratings a badge can show.
#[derive(Clone, Copy, Debug, PartialEq, Eq, Structural)]
pub enum BadgeRating {
    U,
    PG,
    TwelveA,
    Twelve,
    Fifteen,
    Eighteen,
    R18,
}

/// The outline a badge is drawn with.
#[derive(Clone, Copy, Debug, PartialEq, Eq, Structural)]
pub enum BadgeShape {
    Triangle,
    Square,
    Circle,
}

/// `c` is one of `opts`.
pub open spec fn one_of(c: Seq<char>, opts: Seq<Seq<char>>) -> bool {
    exists|i: int| 0 <= i < opts.len() && c == #[trigger] opts[i]
}

/// The rating an upper-cased, trimmed certification maps to, with the
/// adult flag and the vote as fallbacks for unknown certifications.
pub open spec fn rating_for(cert: Seq<char>, adult: bool, vote: Option<VoteLevel>) -> BadgeRating {
    if one_of(cert, seq!["U"@, "G"@, "TV-G"@, "TV-Y"@, "TV-Y7"@, "ALL"@, "0"@, "0+"@]) {
        BadgeRating::U
    } else if one_of(cert, seq!["PG"@, "TV-PG"@, "6"@, "7"@, "6+"@, "7+"@]) {
        BadgeRating::PG
    } else if one_of(cert, seq!["12A"@, "PG-13"@]) {
        BadgeRating::TwelveA
    } else if one_of(cert, seq!["12"@, "TV-14"@, "12+"@, "13"@, "14"@]) {
        BadgeRating::Twelve
    } else if one_of(cert, seq!["15"@, "15+"@, "16"@, "16+"@]) {
        BadgeRating::Fifteen
    } else if one_of(cert, seq!["18"@, "R"@, "TV-MA"@, "NC-17"@, "18+"@]) {
        BadgeRating::Eighteen
    } else if cert == "R18"@ {
        BadgeRating::R18
    } else if adult {
        BadgeRating::Eighteen
    } else if vote is Some {
        if reaches(vote->0, 78) {
            BadgeRating::Eighteen
        } else if reaches(vote->0, 60) {
            BadgeRating::Fifteen
        } else {
            BadgeRating::Twelve
        }
    } else if cert.len() > 0 && (has_substring(cert, "18"@) || has_substring(cert, "MA"@)
        || has_substring(cert, "R"@)) {
        BadgeRating::Eighteen
    } else if cert.len() > 0 && (has_substring(cert, "15"@) || has_substring(cert, "16"@)) {
        BadgeRating::Fifteen
    } else if cert.len() > 0 && has_substring(cert, "PG"@) {
        BadgeRating::PG
    } else if cert.len() > 0 && has_substring(cert, "U"@) {
        BadgeRating::U
    } else {
        BadgeRating::Twelve
    }
}

/// The certifications the badge knows are all different strings.
proof fn lemma_known_certs_distinct()
    ensures
        "G"@ != "U"@,
        "TV-G"@ != "U"@,
        "TV-G"@ != "G"@,
        "TV-Y"@ != "U"@,
        "TV-Y"@ != "G"@,
        "TV-Y"@ != "TV-G"@,
        "TV-Y7"@ != "U"@,
        "TV-Y7"@ != "G"@,
        "TV-Y7"@ != "TV-G"@,
        "TV-Y7"@ != "TV-Y"@,
        "ALL"@ != "U"@,
        "ALL"@ != "G"@,
        "ALL"@ != "TV-G"@,
        "ALL"@ != "TV-Y"@,
        "ALL"@ != "TV-Y7"@,
        "0"@ != "U"@,
        "0"@ != "G"@,
        "0"@ != "TV-G"@,
        "0"@ != "TV-Y"@,
        "0"@ != "TV-Y7"@,
        "0"@ != "ALL"@,
        "0+"@ != "U"@,
        "0+"@ != "G"@,
        "0+"@ != "TV-G"@,
        "0+"@ != "TV-Y"@,
        "0+"@ != "TV-Y7"@,
        "0+"@ != "ALL"@,
        "0+"@ != "0"@,
        "PG"@ != "U"@,
        "PG"@ != "G"@,
        "PG"@ != "TV-G"@,
        "PG"@ != "TV-Y"@,
        "PG"@ != "TV-Y7"@,
        "PG"@ != "ALL"@,
        "PG"@ != "0"@,
        "PG"@ != "0+"@,
        "TV-PG"@ != "U"@,
        "TV-PG"@ != "G"@,
        "TV-PG"@ != "TV-G"@,
        "TV-PG"@ != "TV-Y"@,
        "TV-PG"@ != "TV-Y7"@,
        "TV-PG"@ != "ALL"@,
        "TV-PG"@ != "0"@,
        "TV-PG"@ != "0+"@,
        "TV-PG"@ != "PG"@,
        "6"@ != "U"@,
        "6"@ != "G"@,
        "6"@ != "TV-G"@,
        "6"@ != "TV-Y"@,
        "6"@ != "TV-Y7"@,
        "6"@ != "ALL"@,
        "6"@ != "0"@,
        "6"@ != "0+"@,
        "6"@ != "PG"@,
        "6"@ != "TV-PG"@,
        "7"@ != "U"@,
        "7"@ != "G"@,
        "7"@ != "TV-G"@,
        "7"@ != "TV-Y"@,
        "7"@ != "TV-Y7"@,
        "7"@ != "ALL"@,
        "7"@ != "0"@,
        "7"@ != "0+"@,
        "7"@ != "PG"@,
        "7"@ != "TV-PG"@,
        "7"@ != "6"@,
        "6+"@ != "U"@,
        "6+"@ != "G"@,
        "6+"@ != "TV-G"@,
        "6+"@ != "TV-Y"@,
        "6+"@ != "TV-Y7"@,
        "6+"@ != "ALL"@,
        "6+"@ != "0"@,
        "6+"@ != "0+"@,
        "6+"@ != "PG"@,
        "6+"@ != "TV-PG"@,
        "6+"@ != "6"@,
        "6+"@ != "7"@,
        "7+"@ != "U"@,
        "7+"@ != "G"@,
        "7+"@ != "TV-G"@,
        "7+"@ != "TV-Y"@,
        "7+"@ != "TV-Y7"@,
        "7+"@ != "ALL"@,
        "7+"@ != "0"@,
        "7+"@ != "0+"@,
        "7+"@ != "PG"@,
        "7+"@ != "TV-PG"@,
        "7+"@ != "6"@,
        "7+"@ != "7"@,
        "7+"@ != "6+"@,
        "12A"@ != "U"@,
        "12A"@ != "G"@,
        "12A"@ != "TV-G"@,
        "12A"@ != "TV-Y"@,
        "12A"@ != "TV-Y7"@,
        "12A"@ != "ALL"@,
        "12A"@ != "0"@,
        "12A"@ != "0+"@,
        "12A"@ != "PG"@,
        "12A"@ != "TV-PG"@,
        "12A"@ != "6"@,
        "12A"@ != "7"@,
        "12A"@ != "6+"@,
        "12A"@ != "7+"@,
        "PG-13"@ != "U"@,
        "PG-13"@ != "G"@,
        "PG-13"@ != "TV-G"@,
        "PG-13"@ != "TV-Y"@,
        "PG-13"@ != "TV-Y7"@,
        "PG-13"@ != "ALL"@,
        "PG-13"@ != "0"@,
        "PG-13"@ != "0+"@,
        "PG-13"@ != "PG"@,
        "PG-13"@ != "TV-PG"@,
        "PG-13"@ != "6"@,
        "PG-13"@ != "7"@,
        "PG-13"@ != "6+"@,
        "PG-13"@ != "7+"@,
        "PG-13"@ != "12A"@,
        "12"@ != "U"@,
        "12"@ != "G"@,
        "12"@ != "TV-G"@,
        "12"@ != "TV-Y"@,
        "12"@ != "TV-Y7"@,
        "12"@ != "ALL"@,
        "12"@ != "0"@,
        "12"@ != "0+"@,
        "12"@ != "PG"@,
        "12"@ != "TV-PG"@,
        "12"@ != "6"@,
        "12"@ != "7"@,
        "12"@ != "6+"@,
        "12"@ != "7+"@,
        "12"@ != "12A"@,
        "12"@ != "PG-13"@,
        "TV-14"@ != "U"@,
        "TV-14"@ != "G"@,
        "TV-14"@ != "TV-G"@,
        "TV-14"@ != "TV-Y"@,
        "TV-14"@ != "TV-Y7"@,
        "TV-14"@ != "ALL"@,
        "TV-14"@ != "0"@,
        "TV-14"@ != "0+"@,
        "TV-14"@ != "PG"@,
        "TV-14"@ != "TV-PG"@,
        "TV-14"@ != "6"@,
        "TV-14"@ != "7"@,
        "TV-14"@ != "6+"@,
        "TV-14"@ != "7+"@,
        "TV-14"@ != "12A"@,
        "TV-14"@ != "PG-13"@,
        "TV-14"@ != "12"@,
        "12+"@ != "U"@,
        "12+"@ != "G"@,
        "12+"@ != "TV-G"@,
        "12+"@ != "TV-Y"@,
        "12+"@ != "TV-Y7"@,
        "12+"@ != "ALL"@,
        "12+"@ != "0"@,
        "12+"@ != "0+"@,
        "12+"@ != "PG"@,
        "12+"@ != "TV-PG"@,
        "12+"@ != "6"@,
        "12+"@ != "7"@,
        "12+"@ != "6+"@,
        "12+"@ != "7+"@,
        "12+"@ != "12A"@,
        "12+"@ != "PG-13"@,
        "12+"@ != "12"@,
        "12+"@ != "TV-14"@,
        "13"@ != "U"@,
        "13"@ != "G"@,
        "13"@ != "TV-G"@,
        "13"@ != "TV-Y"@,
        "13"@ != "TV-Y7"@,
        "13"@ != "ALL"@,
        "13"@ != "0"@,
        "13"@ != "0+"@,
        "13"@ != "PG"@,
        "13"@ != "TV-PG"@,
        "13"@ != "6"@,
        "13"@ != "7"@,
        "13"@ != "6+"@,
        "13"@ != "7+"@,
        "13"@ != "12A"@,
        "13"@ != "PG-13"@,
        "13"@ != "12"@,
        "13"@ != "TV-14"@,
        "13"@ != "12+"@,
        "14"@ != "U"@,
        "14"@ != "G"@,
        "14"@ != "TV-G"@,
        "14"@ != "TV-Y"@,
        "14"@ != "TV-Y7"@,
        "14"@ != "ALL"@,
        "14"@ != "0"@,
        "14"@ != "0+"@,
        "14"@ != "PG"@,
        "14"@ != "TV-PG"@,
        "14"@ != "6"@,
        "14"@ != "7"@,
        "14"@ != "6+"@,
        "14"@ != "7+"@,
        "14"@ != "12A"@,
        "14"@ != "PG-13"@,
        "14"@ != "12"@,
        "14"@ != "TV-14"@,
        "14"@ != "12+"@,
        "14"@ != "13"@,
        "15"@ != "U"@,
        "15"@ != "G"@,
        "15"@ != "TV-G"@,
        "15"@ != "TV-Y"@,
        "15"@ != "TV-Y7"@,
        "15"@ != "ALL"@,
        "15"@ != "0"@,
        "15"@ != "0+"@,
        "15"@ != "PG"@,
        "15"@ != "TV-PG"@,
        "15"@ != "6"@,
        "15"@ != "7"@,
        "15"@ != "6+"@,
        "15"@ != "7+"@,
        "15"@ != "12A"@,
        "15"@ != "PG-13"@,
        "15"@ != "12"@,
        "15"@ != "TV-14"@,
        "15"@ != "12+"@,
        "15"@ != "13"@,
        "15"@ != "14"@,
        "15+"@ != "U"@,
        "15+"@ != "G"@,
        "15+"@ != "TV-G"@,
        "15+"@ != "TV-Y"@,
        "15+"@ != "TV-Y7"@,
        "15+"@ != "ALL"@,
        "15+"@ != "0"@,
        "15+"@ != "0+"@,
        "15+"@ != "PG"@,
        "15+"@ != "TV-PG"@,
        "15+"@ != "6"@,
        "15+"@ != "7"@,
        "15+"@ != "6+"@,
        "15+"@ != "7+"@,
        "15+"@ != "12A"@,
        "15+"@ != "PG-13"@,
        "15+"@ != "12"@,
        "15+"@ != "TV-14"@,
        "15+"@ != "12+"@,
        "15+"@ != "13"@,
        "15+"@ != "14"@,
        "15+"@ != "15"@,
        "16"@ != "U"@,
        "16"@ != "G"@,
        "16"@ != "TV-G"@,
        "16"@ != "TV-Y"@,
        "16"@ != "TV-Y7"@,
        "16"@ != "ALL"@,
        "16"@ != "0"@,
        "16"@ != "0+"@,
        "16"@ != "PG"@,
        "16"@ != "TV-PG"@,
        "16"@ != "6"@,
        "16"@ != "7"@,
        "16"@ != "6+"@,
        "16"@ != "7+"@,
        "16"@ != "12A"@,
        "16"@ != "PG-13"@,
        "16"@ != "12"@,
        "16"@ != "TV-14"@,
        "16"@ != "12+"@,
        "16"@ != "13"@,
        "16"@ != "14"@,
        "16"@ != "15"@,
        "16"@ != "15+"@,
        "16+"@ != "U"@,
        "16+"@ != "G"@,
        "16+"@ != "TV-G"@,
        "16+"@ != "TV-Y"@,
        "16+"@ != "TV-Y7"@,
        "16+"@ != "ALL"@,
        "16+"@ != "0"@,
        "16+"@ != "0+"@,
        "16+"@ != "PG"@,
        "16+"@ != "TV-PG"@,
        "16+"@ != "6"@,
        "16+"@ != "7"@,
        "16+"@ != "6+"@,
        "16+"@ != "7+"@,
        "16+"@ != "12A"@,
        "16+"@ != "PG-13"@,
        "16+"@ != "12"@,
        "16+"@ != "TV-14"@,
        "16+"@ != "12+"@,
        "16+"@ != "13"@,
        "16+"@ != "14"@,
        "16+"@ != "15"@,
        "16+"@ != "15+"@,
        "16+"@ != "16"@,
        "18"@ != "U"@,
        "18"@ != "G"@,
        "18"@ != "TV-G"@,
        "18"@ != "TV-Y"@,
        "18"@ != "TV-Y7"@,
        "18"@ != "ALL"@,
        "18"@ != "0"@,
        "18"@ != "0+"@,
        "18"@ != "PG"@,
        "18"@ != "TV-PG"@,
        "18"@ != "6"@,
        "18"@ != "7"@,
        "18"@ != "6+"@,
        "18"@ != "7+"@,
        "18"@ != "12A"@,
        "18"@ != "PG-13"@,
        "18"@ != "12"@,
        "18"@ != "TV-14"@,
        "18"@ != "12+"@,
        "18"@ != "13"@,
        "18"@ != "14"@,
        "18"@ != "15"@,
        "18"@ != "15+"@,
        "18"@ != "16"@,
        "18"@ != "16+"@,
        "R"@ != "U"@,
        "R"@ != "G"@,
        "R"@ != "TV-G"@,
        "R"@ != "TV-Y"@,
        "R"@ != "TV-Y7"@,
        "R"@ != "ALL"@,
        "R"@ != "0"@,
        "R"@ != "0+"@,
        "R"@ != "PG"@,
        "R"@ != "TV-PG"@,
        "R"@ != "6"@,
        "R"@ != "7"@,
        "R"@ != "6+"@,
        "R"@ != "7+"@,
        "R"@ != "12A"@,
        "R"@ != "PG-13"@,
        "R"@ != "12"@,
        "R"@ != "TV-14"@,
        "R"@ != "12+"@,
        "R"@ != "13"@,
        "R"@ != "14"@,
        "R"@ != "15"@,
        "R"@ != "15+"@,
        "R"@ != "16"@,
        "R"@ != "16+"@,
        "R"@ != "18"@,
        "TV-MA"@ != "U"@,
        "TV-MA"@ != "G"@,
        "TV-MA"@ != "TV-G"@,
        "TV-MA"@ != "TV-Y"@,
        "TV-MA"@ != "TV-Y7"@,
        "TV-MA"@ != "ALL"@,
        "TV-MA"@ != "0"@,
        "TV-MA"@ != "0+"@,
        "TV-MA"@ != "PG"@,
        "TV-MA"@ != "TV-PG"@,
        "TV-MA"@ != "6"@,
        "TV-MA"@ != "7"@,
        "TV-MA"@ != "6+"@,
        "TV-MA"@ != "7+"@,
        "TV-MA"@ != "12A"@,
        "TV-MA"@ != "PG-13"@,
        "TV-MA"@ != "12"@,
        "TV-MA"@ != "TV-14"@,
        "TV-MA"@ != "12+"@,
        "TV-MA"@ != "13"@,
        "TV-MA"@ != "14"@,
        "TV-MA"@ != "15"@,
        "TV-MA"@ != "15+"@,
        "TV-MA"@ != "16"@,
        "TV-MA"@ != "16+"@,
        "TV-MA"@ != "18"@,
        "TV-MA"@ != "R"@,
        "NC-17"@ != "U"@,
        "NC-17"@ != "G"@,
        "NC-17"@ != "TV-G"@,
        "NC-17"@ != "TV-Y"@,
        "NC-17"@ != "TV-Y7"@,
        "NC-17"@ != "ALL"@,
        "NC-17"@ != "0"@,
        "NC-17"@ != "0+"@,
        "NC-17"@ != "PG"@,
        "NC-17"@ != "TV-PG"@,
        "NC-17"@ != "6"@,
        "NC-17"@ != "7"@,
        "NC-17"@ != "6+"@,
        "NC-17"@ != "7+"@,
        "NC-17"@ != "12A"@,
        "NC-17"@ != "PG-13"@,
        "NC-17"@ != "12"@,
        "NC-17"@ != "TV-14"@,
        "NC-17"@ != "12+"@,
        "NC-17"@ != "13"@,
        "NC-17"@ != "14"@,
        "NC-17"@ != "15"@,
        "NC-17"@ != "15+"@,
        "NC-17"@ != "16"@,
        "NC-17"@ != "16+"@,
        "NC-17"@ != "18"@,
        "NC-17"@ != "R"@,
        "NC-17"@ != "TV-MA"@,
        "18+"@ != "U"@,
        "18+"@ != "G"@,
        "18+"@ != "TV-G"@,
        "18+"@ != "TV-Y"@,
        "18+"@ != "TV-Y7"@,
        "18+"@ != "ALL"@,
        "18+"@ != "0"@,
        "18+"@ != "0+"@,
        "18+"@ != "PG"@,
        "18+"@ != "TV-PG"@,
        "18+"@ != "6"@,
        "18+"@ != "7"@,
        "18+"@ != "6+"@,
        "18+"@ != "7+"@,
        "18+"@ != "12A"@,
        "18+"@ != "PG-13"@,
        "18+"@ != "12"@,
        "18+"@ != "TV-14"@,
        "18+"@ != "12+"@,
        "18+"@ != "13"@,
        "18+"@ != "14"@,
        "18+"@ != "15"@,
        "18+"@ != "15+"@,
        "18+"@ != "16"@,
        "18+"@ != "16+"@,
        "18+"@ != "18"@,
        "18+"@ != "R"@,
        "18+"@ != "TV-MA"@,
        "18+"@ != "NC-17"@,
        "R18"@ != "U"@,
        "R18"@ != "G"@,
        "R18"@ != "TV-G"@,
        "R18"@ != "TV-Y"@,
        "R18"@ != "TV-Y7"@,
        "R18"@ != "ALL"@,
        "R18"@ != "0"@,
        "R18"@ != "0+"@,
        "R18"@ != "PG"@,
        "R18"@ != "TV-PG"@,
        "R18"@ != "6"@,
        "R18"@ != "7"@,
        "R18"@ != "6+"@,
        "R18"@ != "7+"@,
        "R18"@ != "12A"@,
        "R18"@ != "PG-13"@,
        "R18"@ != "12"@,
        "R18"@ != "TV-14"@,
        "R18"@ != "12+"@,
        "R18"@ != "13"@,
        "R18"@ != "14"@,
        "R18"@ != "15"@,
        "R18"@ != "15+"@,
        "R18"@ != "16"@,
        "R18"@ != "16+"@,
        "R18"@ != "18"@,
        "R18"@ != "R"@,
        "R18"@ != "TV-MA"@,
        "R18"@ != "NC-17"@,
        "R18"@ != "18+"@,
{
    reveal_strlit("U");
    reveal_strlit("G");
    reveal_strlit("TV-G");
    reveal_strlit("TV-Y");
    reveal_strlit("TV-Y7");
    reveal_strlit("ALL");
    reveal_strlit("0");
    reveal_strlit("0+");
    reveal_strlit("PG");
    reveal_strlit("TV-PG");
    reveal_strlit("6");
    reveal_strlit("7");
    reveal_strlit("6+");
    reveal_strlit("7+");
    reveal_strlit("12A");
    reveal_strlit("PG-13");
    reveal_strlit("12");
    reveal_strlit("TV-14");
    reveal_strlit("12+");
    reveal_strlit("13");
    reveal_strlit("14");
    reveal_strlit("15");
    reveal_strlit("15+");
    reveal_strlit("16");
    reveal_strlit("16+");
    reveal_strlit("18");
    reveal_strlit("R");
    reveal_strlit("TV-MA");
    reveal_strlit("NC-17");
    reveal_strlit("18+");
    reveal_strlit("R18");
    assert("U"@.len() == 1);
    assert("G"@.len() == 1);
    assert("TV-G"@.len() == 4);
    assert("TV-Y"@.len() == 4);
    assert("TV-Y7"@.len() == 5);
    assert("ALL"@.len() == 3);
    assert("0"@.len() == 1);
    assert("0+"@.len() == 2);
    assert("PG"@.len() == 2);
    assert("TV-PG"@.len() == 5);
    assert("6"@.len() == 1);
    assert("7"@.len() == 1);
    assert("6+"@.len() == 2);
    assert("7+"@.len() == 2);
    assert("12A"@.len() == 3);
    assert("PG-13"@.len() == 5);
    assert("12"@.len() == 2);
    assert("TV-14"@.len() == 5);
    assert("12+"@.len() == 3);
    assert("13"@.len() == 2);
    assert("14"@.len() == 2);
    assert("15"@.len() == 2);
    assert("15+"@.len() == 3);
    assert("16"@.len() == 2);
    assert("16+"@.len() == 3);
    assert("18"@.len() == 2);
    assert("R"@.len() == 1);
    assert("TV-MA"@.len() == 5);
    assert("NC-17"@.len() == 5);
    assert("18+"@.len() == 3);
    assert("R18"@.len() == 3);
    assert("G"@[0] != "U"@[0]);
    assert("TV-Y"@[3] != "TV-G"@[3]);
    assert("0"@[0] != "U"@[0]);
    assert("0"@[0] != "G"@[0]);
    assert("PG"@[0] != "0+"@[0]);
    assert("TV-PG"@[3] != "TV-Y7"@[3]);
    assert("6"@[0] != "U"@[0]);
    assert("6"@[0] != "G"@[0]);
    assert("6"@[0] != "0"@[0]);
    assert("7"@[0] != "U"@[0]);
    assert("7"@[0] != "G"@[0]);
    assert("7"@[0] != "0"@[0]);
    assert("7"@[0] != "6"@[0]);
    assert("6+"@[0] != "0+"@[0]);
    assert("6+"@[0] != "PG"@[0]);
    assert("7+"@[0] != "0+"@[0]);
    assert("7+"@[0] != "PG"@[0]);
    assert("7+"@[0] != "6+"@[0]);
    assert("12A"@[0] != "ALL"@[0]);
    assert("PG-13"@[0] != "TV-Y7"@[0]);
    assert("PG-13"@[0] != "TV-PG"@[0]);
    assert("12"@[0] != "0+"@[0]);
    assert("12"@[0] != "PG"@[0]);
    assert("12"@[0] != "6+"@[0]);
    assert("12"@[0] != "7+"@[0]);
    assert("TV-14"@[3] != "TV-Y7"@[3]);
    assert("TV-14"@[3] != "TV-PG"@[3]);
    assert("TV-14"@[0] != "PG-13"@[0]);
    assert("12+"@[0] != "ALL"@[0]);
    assert("12+"@[2] != "12A"@[2]);
    assert("13"@[0] != "0+"@[0]);
    assert("13"@[0] != "PG"@[0]);
    assert("13"@[0] != "6+"@[0]);
    assert("13"@[0] != "7+"@[0]);
    assert("13"@[1] != "12"@[1]);
    assert("14"@[0] != "0+"@[0]);
    assert("14"@[0] != "PG"@[0]);
    assert("14"@[0] != "6+"@[0]);
    assert("14"@[0] != "7+"@[0]);
    assert("14"@[1] != "12"@[1]);
    assert("14"@[1] != "13"@[1]);
    assert("15"@[0] != "0+"@[0]);
    assert("15"@[0] != "PG"@[0]);
    assert("15"@[0] != "6+"@[0]);
    assert("15"@[0] != "7+"@[0]);
    assert("15"@[1] != "12"@[1]);
    assert("15"@[1] != "13"@[1]);
    assert("15"@[1] != "14"@[1]);
    assert("15+"@[0] != "ALL"@[0]);
    assert("15+"@[1] != "12A"@[1]);
    assert("15+"@[1] != "12+"@[1]);
    assert("16"@[0] != "0+"@[0]);
    assert("16"@[0] != "PG"@[0]);
    assert("16"@[0] != "6+"@[0]);
    assert("16"@[0] != "7+"@[0]);
    assert("16"@[1] != "12"@[1]);
    assert("16"@[1] != "13"@[1]);
    assert("16"@[1] != "14"@[1]);
    assert("16"@[1] != "15"@[1]);
    assert("16+"@[0] != "ALL"@[0]);
    assert("16+"@[1] != "12A"@[1]);
    assert("16+"@[1] != "12+"@[1]);
    assert("16+"@[1] != "15+"@[1]);
    assert("18"@[0] != "0+"@[0]);
    assert("18"@[0] != "PG"@[0]);
    assert("18"@[0] != "6+"@[0]);
    assert("18"@[0] != "7+"@[0]);
    assert("18"@[1] != "12"@[1]);
    assert("18"@[1] != "13"@[1]);
    assert("18"@[1] != "14"@[1]);
    assert("18"@[1] != "15"@[1]);
    assert("18"@[1] != "16"@[1]);
    assert("R"@[0] != "U"@[0]);
    assert("R"@[0] != "G"@[0]);
    assert("R"@[0] != "0"@[0]);
    assert("R"@[0] != "6"@[0]);
    assert("R"@[0] != "7"@[0]);
    assert("TV-MA"@[3] != "TV-Y7"@[3]);
    assert("TV-MA"@[3] != "TV-PG"@[3]);
    assert("TV-MA"@[0] != "PG-13"@[0]);
    assert("TV-MA"@[3] != "TV-14"@[3]);
    assert("NC-17"@[0] != "TV-Y7"@[0]);
    assert("NC-17"@[0] != "TV-PG"@[0]);
    assert("NC-17"@[0] != "PG-13"@[0]);
    assert("NC-17"@[0] != "TV-14"@[0]);
    assert("NC-17"@[0] != "TV-MA"@[0]);
    assert("18+"@[0] != "ALL"@[0]);
    assert("18+"@[1] != "12A"@[1]);
    assert("18+"@[1] != "12+"@[1]);
    assert("18+"@[1] != "15+"@[1]);
    assert("18+"@[1] != "16+"@[1]);
    assert("R18"@[0] != "ALL"@[0]);
    assert("R18"@[0] != "12A"@[0]);
    assert("R18"@[0] != "12+"@[0]);
    assert("R18"@[0] != "15+"@[0]);
    assert("R18"@[0] != "16+"@[0]);
    assert("R18"@[0] != "18+"@[0]);
}

/// The certifications the badge reads as U, whatever the adult flag and the vote.
pub proof fn law_badge_table_u(adult: bool, vote: Option<VoteLevel>)
    ensures
        rating_for("U"@, adult, vote) == BadgeRating::U,
        rating_for("G"@, adult, vote) == BadgeRating::U,
        rating_for("TV-G"@, adult, vote) == BadgeRating::U,
        rating_for("TV-Y"@, adult, vote) == BadgeRating::U,
        rating_for("TV-Y7"@, adult, vote) == BadgeRating::U,
        rating_for("ALL"@, adult, vote) == BadgeRating::U,
        rating_for("0"@, adult, vote) == BadgeRating::U,
        rating_for("0+"@, adult, vote) == BadgeRating::U,
{
    lemma_known_certs_distinct();
}

/// The certifications the badge reads as PG, whatever the adult flag and the vote.
pub proof fn law_badge_table_pg(adult: bool, vote: Option<VoteLevel>)
    ensures
        rating_for("PG"@, adult, vote) == BadgeRating::PG,
        rating_for("TV-PG"@, adult, vote) == BadgeRating::PG,
        rating_for("6"@, adult, vote) == BadgeRating::PG,
        rating_for("7"@, adult, vote) == BadgeRating::PG,
        rating_for("6+"@, adult, vote) == BadgeRating::PG,
        rating_for("7+"@, adult, vote) == BadgeRating::PG,
{
    lemma_known_certs_distinct();
}

/// The certifications the badge reads as 12A, whatever the adult flag and the vote.
pub proof fn law_badge_table_twelvea(adult: bool, vote: Option<VoteLevel>)
    ensures
        rating_for("12A"@, adult, vote) == BadgeRating::TwelveA,
        rating_for("PG-13"@, adult, vote) == BadgeRating::TwelveA,
{
    lemma_known_certs_distinct();
}

/// The certifications the badge reads as 12, whatever the adult flag and the vote.
pub proof fn law_badge_table_twelve(adult: bool, vote: Option<VoteLevel>)
    ensures
        rating_for("12"@, adult, vote) == BadgeRating::Twelve,
        rating_for("TV-14"@, adult, vote) == BadgeRating::Twelve,
        rating_for("12+"@, adult, vote) == BadgeRating::Twelve,
        rating_for("13"@, adult, vote) == BadgeRating::Twelve,
        rating_for("14"@, adult, vote) == BadgeRating::Twelve,
{
    lemma_known_certs_distinct();
}

/// The certifications the badge reads as 15, whatever the adult flag and the vote.
pub proof fn law_badge_table_fifteen(adult: bool, vote: Option<VoteLevel>)
    ensures
        rating_for("15"@, adult, vote) == BadgeRating::Fifteen,
        rating_for("15+"@, adult, vote) == BadgeRating::Fifteen,
        rating_for("16"@, adult, vote) == BadgeRating::Fifteen,
        rating_for("16+"@, adult, vote) == BadgeRating::Fifteen,
{
    lemma_known_certs_distinct();
}

/// The certifications the badge reads as 18, whatever the adult flag and the vote.
pub proof fn law_badge_table_eighteen(adult: bool, vote: Option<VoteLevel>)
    ensures
        rating_for("18"@, adult, vote) == BadgeRating::Eighteen,
        rating_for("R"@, adult, vote) == BadgeRating::Eighteen,
        rating_for("TV-MA"@, adult, vote) == BadgeRating::Eighteen,
        rating_for("NC-17"@, adult, vote) == BadgeRating::Eighteen,
        rating_for("18+"@, adult, vote) == BadgeRating::Eighteen,
{
    lemma_known_certs_distinct();
}

/// The certifications the badge reads as R18, whatever the adult flag and the vote.
pub proof fn law_badge_table_r18(adult: bool, vote: Option<VoteLevel>)
    ensures
        rating_for("R18"@, adult, vote) == BadgeRating::R18,
{
    lemma_known_certs_distinct();
}

/// An unknown certification of an adult title reads as 18.
pub proof fn law_badge_adult_fallback(cert: Seq<char>, vote: Option<VoteLevel>)
    requires
        cert != "U"@,
        cert != "G"@,
        cert != "TV-G"@,
        cert != "TV-Y"@,
        cert != "TV-Y7"@,
        cert != "ALL"@,
        cert != "0"@,
        cert != "0+"@,
        cert != "PG"@,
        cert != "TV-PG"@,
        cert != "6"@,
        cert != "7"@,
        cert != "6+"@,
        cert != "7+"@,
        cert != "12A"@,
        cert != "PG-13"@,
        cert != "12"@,
        cert != "TV-14"@,
        cert != "12+"@,
        cert != "13"@,
        cert != "14"@,
        cert != "15"@,
        cert != "15+"@,
        cert != "16"@,
        cert != "16+"@,
        cert != "18"@,
        cert != "R"@,
        cert != "TV-MA"@,
        cert != "NC-17"@,
        cert != "18+"@,
        cert != "R18"@,
    ensures
        rating_for(cert, true, vote) == BadgeRating::Eighteen,
{
}

/// An unknown certification of a title that is not adult reads by the
/// title's vote when there is one: 18 from 7.8, 15 from 6.0, else 12.
pub proof fn law_badge_vote_fallback(cert: Seq<char>, vote: VoteLevel)
    requires
        cert != "U"@,
        cert != "G"@,
        cert != "TV-G"@,
        cert != "TV-Y"@,
        cert != "TV-Y7"@,
        cert != "ALL"@,
        cert != "0"@,
        cert != "0+"@,
        cert != "PG"@,
        cert != "TV-PG"@,
        cert != "6"@,
        cert != "7"@,
        cert != "6+"@,
        cert != "7+"@,
        cert != "12A"@,
        cert != "PG-13"@,
        cert != "12"@,
        cert != "TV-14"@,
        cert != "12+"@,
        cert != "13"@,
        cert != "14"@,
        cert != "15"@,
        cert != "15+"@,
        cert != "16"@,
        cert != "16+"@,
        cert != "18"@,
        cert != "R"@,
        cert != "TV-MA"@,
        cert != "NC-17"@,
        cert != "18+"@,
        cert != "R18"@,
    ensures
        rating_for(cert, false, Some(vote)) == (if vote == VoteLevel::From78 || vote == VoteLevel::From80
            || vote == VoteLevel::From82 {
            BadgeRating::Eighteen
        } else if vote == VoteLevel::Under60 {
            BadgeRating::Twelve
        } else {
            BadgeRating::Fifteen
        }),
{
}

/// The certification as the badge reads it: trimmed, then upper-cased.
pub open spec fn normalized_cert(certification: Seq<char>) -> Seq<char> {
    uppercased(trimmed(certification))
}

/// Whether `cert` is one of the strings in `opts`.
fn cert_one_of(cert: &str, opts: &Vec<&'static str>) -> (r: bool)
    ensures
        r == one_of(cert@, opts@.map_values(|o: &str| o@)),
{
    let ghost ov = opts@.map_values(|o: &str| o@);
    let n = opts.len();
    let mut i: usize = 0;
    while i < n
        invariant
            n == opts@.len(),
            ov == opts@.map_values(|o: &str| o@),
            i <= n,
            forall|k: int| 0 <= k < i ==> cert@ != #[trigger] ov[k],
        decreases n - i,
    {
        if str_equal(cert, opts[i]) {
            assert(cert@ == ov[i as int]);
            return true;
        }
        i = i + 1;
    }
    false
}

/// The rating shown for a certification string, the adult flag and the vote:
/// the certification is trimmed and upper-cased, matched against the known
/// US/UK/age labels, and otherwise the adult flag, then the vote (18 from
/// 7.8, 15 from 6.0, else 12), then telling substrings decide.
pub fn badge_rating(certification: &str, adult: bool, vote: Option<VoteLevel>) -> (r: BadgeRating)
    ensures
        r == rating_for(normalized_cert(certification@), adult, vote),
{
    let upper = to_uppercase_str(trim_str(certification));
    rating_of_normalized(upper.as_str(), adult, vote)
}

/// The rating shown for an already trimmed and upper-cased certification
/// (see `badge_rating`).
pub fn rating_of_normalized(cert: &str, adult: bool, vote: Option<VoteLevel>) -> (r: BadgeRating)
    ensures
        r == rating_for(cert@, adult, vote),
{
    let u = vec!["U", "G", "TV-G", "TV-Y", "TV-Y7", "ALL", "0", "0+"];
    let pg = vec!["PG", "TV-PG", "6", "7", "6+", "7+"];
    let twelve_a = vec!["12A", "PG-13"];
    let twelve = vec!["12", "TV-14", "12+", "13", "14"];
    let fifteen = vec!["15", "15+", "16", "16+"];
    let eighteen = vec!["18", "R", "TV-MA", "NC-17", "18+"];
    assert(u@.map_values(|o: &str| o@) =~= seq!["U"@, "G"@, "TV-G"@, "TV-Y"@, "TV-Y7"@, "ALL"@, "0"@, "0+"@]);
    assert(pg@.map_values(|o: &str| o@) =~= seq!["PG"@, "TV-PG"@, "6"@, "7"@, "6+"@, "7+"@]);
    assert(twelve_a@.map_values(|o: &str| o@) =~= seq!["12A"@, "PG-13"@]);
    assert(twelve@.map_values(|o: &str| o@) =~= seq!["12"@, "TV-14"@, "12+"@, "13"@, "14"@]);
    assert(fifteen@.map_values(|o: &str| o@) =~= seq!["15"@, "15+"@, "16"@, "16+"@]);
    assert(eighteen@.map_values(|o: &str| o@) =~= seq!["18"@, "R"@, "TV-MA"@, "NC-17"@, "18+"@]);
    if cert_one_of(cert, &u) {
        BadgeRating::U
    } else if cert_one_of(cert, &pg) {
        BadgeRating::PG
    } else if cert_one_of(cert, &twelve_a) {
        BadgeRating::TwelveA
    } else if cert_one_of(cert, &twelve) {
        BadgeRating::Twelve
    } else if cert_one_of(cert, &fifteen) {
        BadgeRating::Fifteen
    } else if cert_one_of(cert, &eighteen) {
        BadgeRating::Eighteen
    } else if str_equal(cert, "R18") {
        BadgeRating::R18
    } else if adult {
        BadgeRating::Eighteen
    } else if let Some(v) = vote {
        if vote_reaches(v, 78) {
            BadgeRating::Eighteen
        } else if vote_reaches(v, 60) {
            BadgeRating::Fifteen
        } else {
            BadgeRating::Twelve
        }
    } else {
        let nonempty = cert.unicode_len() > 0;
        if nonempty && (str_contains(cert, "18") || str_contains(cert, "MA") || str_contains(
            cert,
            "R",
        )) {
            BadgeRating::Eighteen
        } else if nonempty && (str_contains(cert, "15") || str_contains(cert, "16")) {
            BadgeRating::Fifteen
        } else if nonempty && str_contains(cert, "PG") {
            BadgeRating::PG
        } else if nonempty && str_contains(cert, "U") {
            BadgeRating::U
        } else {
            BadgeRating::Twelve
        }
    }
}

/// The text printed on a badge.
pub open spec fn rating_label(r: BadgeRating) -> Seq<char> {
    match r {
        BadgeRating::U => "U"@,
        BadgeRating::PG => "PG"@,
        BadgeRating::TwelveA => "12A"@,
        BadgeRating::Twelve => "12"@,
        BadgeRating::Fifteen => "15"@,
        BadgeRating::Eighteen => "18"@,
        BadgeRating::R18 => "R18"@,
    }
}

/// The official fill colour of a badge.
pub open spec fn rating_fill(r: BadgeRating) -> Seq<char> {
    match r {
        BadgeRating::U => "#00a826"@,
        BadgeRating::PG => "#f5a800"@,
        BadgeRating::TwelveA => "#f05a1a"@,
        BadgeRating::Twelve => "#f05a1a"@,
        BadgeRating::Fifteen => "#eb287f"@,
        BadgeRating::Eighteen => "#dc1420"@,
        BadgeRating::R18 => "#0060cf"@,
    }
}

/// The outline of a badge: triangles for U and PG, a rounded square for R18,
/// circles otherwise.
pub open spec fn rating_shape(r: BadgeRating) -> BadgeShape {
    match r {
        BadgeRating::U => BadgeShape::Triangle,
        BadgeRating::PG => BadgeShape::Triangle,
        BadgeRating::R18 => BadgeShape::Square,
        _ => BadgeShape::Circle,
    }
}

impl BadgeRating {
    /// The text printed on the badge.
    pub fn label(self) -> (s: &'static str)
        ensures
            s@ == rating_label(self),
    {
        match self {
            BadgeRating::U => "U",
            BadgeRating::PG => "PG",
            BadgeRating::TwelveA => "12A",
            BadgeRating::Twelve => "12",
            BadgeRating::Fifteen => "15",
            BadgeRating::Eighteen => "18",
            BadgeRating::R18 => "R18",
        }
    }

    /// The fill colour of the badge.
    pub fn fill(self) -> (s: &'static str)
        ensures
            s@ == rating_fill(self),
    {
        match self {
            BadgeRating::U => "#00a826",
            BadgeRating::PG => "#f5a800",
            BadgeRating::TwelveA => "#f05a1a",
            BadgeRating::Twelve => "#f05a1a",
            BadgeRating::Fifteen => "#eb287f",
            BadgeRating::Eighteen => "#dc1420",
            BadgeRating::R18 => "#0060cf",
        }
    }

    /// The outline of the badge.
    pub fn shape(self) -> (s: BadgeShape)
        ensures
            s == rating_shape(self),
    {
        match self {
            BadgeRating::U => BadgeShape::Triangle,
            BadgeRating::PG => BadgeShape::Triangle,
            BadgeRating::R18 => BadgeShape::Square,
            _ => BadgeShape::Circle,
        }
    }

    /// The font size of the badge text: 42 for U, 34 for PG (triangles),
    /// 30 on the square, and on circles 42 for labels of up to two
    /// characters, 31 for longer ones.
    pub fn font_size(self) -> (px: u32)
        ensures
            px == (match self {
                BadgeRating::U => 42u32,
                BadgeRating::PG => 34u32,
                BadgeRating::R18 => 30u32,
                BadgeRating::TwelveA => 31u32,
                _ => 42u32,
            }),
    {
        match self {
            BadgeRating::U => 42,
            BadgeRating::PG => 34,
            BadgeRating::R18 => 30,
            BadgeRating::TwelveA => 31,
            _ => 42,
        }
    }
}

/// The width and height in pixels of a badge of the given size name
/// (`"xs"`, `"sm"`, `"md"`, `"lg"`; others as `"sm"`); triangles are a
/// little shorter than they are wide.
pub fn badge_dimensions(size: &str, is_triangle: bool) -> (wh: (u32, u32))
    ensures
        wh == (if size@ == "xs"@ {
            (20u32, if is_triangle { 18u32 } else { 20u32 })
        } else if size@ == "sm"@ {
            (24u32, if is_triangle { 21u32 } else { 24u32 })
        } else if size@ == "md"@ {
            (32u32, if is_triangle { 28u32 } else { 32u32 })
        } else if size@ == "lg"@ {
            (40u32, if is_triangle { 35u32 } else { 40u32 })
        } else {
            (24u32, if is_triangle { 21u32 } else { 24u32 })
        }),
{
    if str_equal(size, "xs") {
        (20, if is_triangle { 18 } else { 20 })
    } else if str_equal(size, "sm") {
        (24, if is_triangle { 21 } else { 24 })
    } else if str_equal(size, "md") {
        (32, if is_triangle { 28 } else { 32 })
    } else if str_equal(size, "lg") {
        (40, if is_triangle { 35 } else { 40 })
    } else {
        (24, if is_triangle { 21 } else { 24 })
    }
}

} // verus!
