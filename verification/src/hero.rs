//! The home page's hero banner: the metadata line under the title (kind,
//! genre, year, length, maturity), the two feature badges, and when the
//! background trailer may play.

use vstd::prelude::*;
use vstd::utf8::encode_utf8;
use crate::maturity_badge::{reaches, vote_reaches, VoteLevel};
use crate::text::{
    chars_of, decimal, has_substring, lowercased, push_decimal, str_contains, str_equal, string_of,
    to_lowercase_str,
};

verus! {

// ───────────────────────────── metadata line ─────────────────────────────

/// The kind word of the metadata line.
pub fn hero_kind_label(is_tv: bool) -> (s: &'static str)
    ensures
        s@ == (if is_tv {
            "Series"@
        } else {
            "Film"@
        }),
{
    if is_tv {
        "Series"
    } else {
        "Film"
    }
}

/// The genre of the metadata line: the title's first genre, else `Action`.
pub fn hero_genre_label(first_genre: Option<&str>) -> (s: String)
    ensures
        s@ == match first_genre {
            Some(g) => g@,
            None => "Action"@,
        },
{
    match first_genre {
        Some(g) => string_of(g),
        None => string_of("Action"),
    }
}

/// The year a date gives: its first four chars when it is at least four
/// bytes long.
pub open spec fn year_in(date: Seq<char>) -> Option<Seq<char>> {
    if encode_utf8(date).len() >= 4 {
        Some(
            if date.len() <= 4 {
                date
            } else {
                date.take(4)
            },
        )
    } else {
        None
    }
}

/// The year of the metadata line: from the details' date, else from the
/// listed item's date, else `2024`.
pub open spec fn hero_year(detail_date: Option<Seq<char>>, item_date: Option<Seq<char>>) -> Seq<char> {
    if detail_date is Some && year_in(detail_date->0) is Some {
        year_in(detail_date->0)->0
    } else if item_date is Some && year_in(item_date->0) is Some {
        year_in(item_date->0)->0
    } else {
        "2024"@
    }
}

/// The first four chars of a date at least four bytes long.
fn year_from(date: &str) -> (y: Option<String>)
    ensures
        match y {
            Some(s) => year_in(date@) == Some(s@),
            None => year_in(date@) is None,
        },
{
    if date.as_bytes().len() >= 4 {
        let n = date.unicode_len();
        if n <= 4 {
            Some(string_of(date))
        } else {
            let y = string_of(date.substring_char(0, 4));
            assert(y@ =~= date@.take(4));
            Some(y)
        }
    } else {
        None
    }
}

/// The year shown in the metadata line.
pub fn hero_year_label(detail_date: Option<&str>, item_date: Option<&str>) -> (s: String)
    ensures
        s@ == hero_year(
            match detail_date {
                Some(d) => Some(d@),
                None => None,
            },
            match item_date {
                Some(d) => Some(d@),
                None => None,
            },
        ),
{
    if let Some(d) = detail_date {
        if let Some(y) = year_from(d) {
            return y;
        }
    }
    if let Some(d) = item_date {
        if let Some(y) = year_from(d) {
            return y;
        }
    }
    string_of("2024")
}

/// The length of the metadata line: `"<n> Season(s)"` for a series (one
/// season when unknown), else `"<h>h <m>m"` from an hour on or `"<m>m"`
/// below, for the runtime in minutes (105 when unknown).
pub open spec fn hero_length(is_tv: bool, seasons: Option<u32>, runtime: Option<u32>) -> Seq<char> {
    if is_tv {
        let n: u32 = match seasons {
            Some(s) => s,
            None => 1,
        };
        decimal(n as nat) + " Season"@ + (if n == 1 {
            Seq::<char>::empty()
        } else {
            "s"@
        })
    } else {
        let r: u32 = match runtime {
            Some(x) => x,
            None => 105,
        };
        if r >= 60 {
            decimal((r / 60) as nat) + "h "@ + decimal((r % 60) as nat) + "m"@
        } else {
            decimal(r as nat) + "m"@
        }
    }
}

/// The length shown in the metadata line.
pub fn hero_length_label(is_tv: bool, seasons: Option<u32>, runtime: Option<u32>) -> (s: String)
    ensures
        s@ == hero_length(is_tv, seasons, runtime),
{
    let mut s = String::new();
    if is_tv {
        let n: u32 = match seasons {
            Some(x) => x,
            None => 1,
        };
        push_decimal(&mut s, n as u64);
        s.append(" Season");
        if n != 1 {
            s.append("s");
        }
        proof {
            if n == 1 {
                assert(s@ =~= decimal(n as nat) + " Season"@ + Seq::<char>::empty());
            }
        }
    } else {
        let r: u32 = match runtime {
            Some(x) => x,
            None => 105,
        };
        if r >= 60 {
            push_decimal(&mut s, (r / 60) as u64);
            s.append("h ");
            push_decimal(&mut s, (r % 60) as u64);
            s.append("m");
        } else {
            push_decimal(&mut s, r as u64);
            s.append("m");
        }
    }
    s
}

// ───────────────────────────── maturity rating ─────────────────────────────

/// Whether a lowercased genre name marks family viewing.
pub open spec fn family_word(n: Seq<char>) -> bool {
    has_substring(n, "anim"@) || has_substring(n, "family"@) || has_substring(n, "child"@)
}

/// Whether a lowercased genre name marks crime or thrillers.
pub open spec fn crime_word(n: Seq<char>) -> bool {
    has_substring(n, "crime"@) || has_substring(n, "thriller"@)
}

/// Whether a lowercased genre name marks horror.
pub open spec fn horror_word(n: Seq<char>) -> bool {
    has_substring(n, "horror"@)
}

/// Whether some genre name, or the metadata line's genre, satisfies `p`
/// (all of them lowercased).
pub open spec fn some_genre(genres: Seq<Seq<char>>, label: Seq<char>, p: spec_fn(Seq<char>) -> bool) -> bool {
    (exists|i: int| 0 <= i < genres.len() && p(#[trigger] genres[i])) || p(label)
}

/// The hero's maturity rating from lowercased genre names and label:
/// family titles `U` (below 7.0) or `PG`; horror `18`; crime and thrillers
/// `18` from 7.8, else `15`; any other title `18` from 8.0, `15` from 6.5,
/// else `12`.
pub open spec fn hero_maturity_lowered(genres: Seq<Seq<char>>, label: Seq<char>, vote: VoteLevel) -> Seq<char> {
    if some_genre(genres, label, |n: Seq<char>| family_word(n)) {
        if !reaches(vote, 70) {
            "U"@
        } else {
            "PG"@
        }
    } else if some_genre(genres, label, |n: Seq<char>| horror_word(n)) {
        "18"@
    } else if some_genre(genres, label, |n: Seq<char>| crime_word(n)) {
        if reaches(vote, 78) {
            "18"@
        } else {
            "15"@
        }
    } else if reaches(vote, 80) {
        "18"@
    } else if reaches(vote, 65) {
        "15"@
    } else {
        "12"@
    }
}

/// Each name lowercased.
pub open spec fn lower_all(v: Seq<Seq<char>>) -> Seq<Seq<char>> {
    v.map_values(|n: Seq<char>| lowercased(n))
}

/// The hero's maturity rating from the title's genre names, the line's
/// genre label and the vote, matched in lower case.
pub open spec fn hero_maturity(genres: Seq<Seq<char>>, label: Seq<char>, vote: VoteLevel) -> Seq<char> {
    hero_maturity_lowered(lower_all(genres), lowercased(label), vote)
}

/// The names of a list of genres.
pub open spec fn name_views(v: Seq<String>) -> Seq<Seq<char>> {
    v.map_values(|s: String| s@)
}

/// Which of the three genre families a lowercased name belongs to.
fn genre_marks(lower: &str) -> (m: (bool, bool, bool))
    ensures
        m == (family_word(lower@), horror_word(lower@), crime_word(lower@)),
{
    let family = str_contains(lower, "anim") || str_contains(lower, "family") || str_contains(lower, "child");
    let horror = str_contains(lower, "horror");
    let crime = str_contains(lower, "crime") || str_contains(lower, "thriller");
    (family, horror, crime)
}

/// The maturity rating of the hero's metadata line, from the title's genre
/// names, the line's genre label and the vote.
pub fn hero_maturity_label(genres: &[String], genre_label: &str, vote: VoteLevel) -> (s: &'static str)
    ensures
        s@ == hero_maturity(name_views(genres@), genre_label@, vote),
{
    let mut lowered: Vec<String> = Vec::new();
    let n = genres.len();
    let mut i: usize = 0;
    while i < n
        invariant
            n == genres@.len(),
            i <= n,
            lowered@.len() == i,
            forall|k: int| 0 <= k < i ==> (#[trigger] lowered@[k])@ == lowercased(genres@[k]@),
        decreases n - i,
    {
        lowered.push(to_lowercase_str(genres[i].as_str()));
        i = i + 1;
    }
    assert(name_views(lowered@) =~= lower_all(name_views(genres@)));
    let label_lower = to_lowercase_str(genre_label);
    hero_maturity_of_lowered(lowered.as_slice(), label_lower.as_str(), vote)
}

/// The maturity rating from lowercased genre names and label (see
/// `hero_maturity_label`).
pub fn hero_maturity_of_lowered(genres: &[String], label: &str, vote: VoteLevel) -> (s: &'static str)
    ensures
        s@ == hero_maturity_lowered(name_views(genres@), label@, vote),
{
    let ghost names = name_views(genres@);
    let mut family = false;
    let mut horror = false;
    let mut crime = false;
    let n = genres.len();
    let mut i: usize = 0;
    while i < n
        invariant
            n == genres@.len(),
            names == name_views(genres@),
            i <= n,
            family == exists|j: int| 0 <= j < i && family_word(#[trigger] names[j]),
            horror == exists|j: int| 0 <= j < i && horror_word(#[trigger] names[j]),
            crime == exists|j: int| 0 <= j < i && crime_word(#[trigger] names[j]),
        decreases n - i,
    {
        assert(names[i as int] == genres@[i as int]@);
        let (f, h, c) = genre_marks(genres[i].as_str());
        family = family || f;
        horror = horror || h;
        crime = crime || c;
        i = i + 1;
    }
    let (lf, lh, lc) = genre_marks(label);
    family = family || lf;
    horror = horror || lh;
    crime = crime || lc;
    proof {
        let fw = |x: Seq<char>| family_word(x);
        let hw = |x: Seq<char>| horror_word(x);
        let cw = |x: Seq<char>| crime_word(x);
        assert(family == some_genre(names, label@, fw)) by {
            if family && !lf {
                let j = choose|j: int| 0 <= j < n && family_word(#[trigger] names[j]);
                assert(fw(names[j]));
            }
        }
        assert(horror == some_genre(names, label@, hw)) by {
            if horror && !lh {
                let j = choose|j: int| 0 <= j < n && horror_word(#[trigger] names[j]);
                assert(hw(names[j]));
            }
        }
        assert(crime == some_genre(names, label@, cw)) by {
            if crime && !lc {
                let j = choose|j: int| 0 <= j < n && crime_word(#[trigger] names[j]);
                assert(cw(names[j]));
            }
        }
    }
    if family {
        if !vote_reaches(vote, 70) {
            "U"
        } else {
            "PG"
        }
    } else if horror {
        "18"
    } else if crime {
        if vote_reaches(vote, 78) {
            "18"
        } else {
            "15"
        }
    } else if vote_reaches(vote, 80) {
        "18"
    } else if vote_reaches(vote, 65) {
        "15"
    } else {
        "12"
    }
}

// ───────────────────────────── feature badges ─────────────────────────────

/// The value of a run of decimal digits.
pub open spec fn digits_value(s: Seq<char>) -> int
    decreases s.len(),
{
    if s.len() == 0 {
        0
    } else {
        digits_value(s.drop_last()) * 10 + (s.last() as int - 48)
    }
}

/// Whether every char is an ASCII digit.
pub open spec fn all_digits(s: Seq<char>) -> bool {
    forall|i: int| 0 <= i < s.len() ==> 48 <= #[trigger] (s[i] as int) <= 57
}

/// What `str::parse::<u32>` gives: an optional `+`, then one or more ASCII
/// digits whose value fits in a `u32`.
pub open spec fn parsed_u32(s: Seq<char>) -> Option<u32> {
    let body = if s.len() > 0 && s[0] == '+' {
        s.drop_first()
    } else {
        s
    };
    if body.len() > 0 && all_digits(body) && digits_value(body) <= u32::MAX {
        Some(digits_value(body) as u32)
    } else {
        None
    }
}

/// A digit run is worth at least any of its prefixes.
proof fn lemma_digits_prefix(s: Seq<char>, k: int)
    requires
        all_digits(s),
        0 <= k <= s.len(),
    ensures
        digits_value(s.take(k)) <= digits_value(s),
        0 <= digits_value(s.take(k)),
    decreases s.len() - k,
{
    if k < s.len() {
        lemma_digits_prefix(s, k + 1);
        assert(s.take(k + 1).drop_last() =~= s.take(k));
        assert(48 <= (s[k] as int) <= 57);
        assert(0 <= digits_value(s.take(k)) <= digits_value(s.take(k + 1))) by {
            lemma_digits_nonneg(s.take(k));
        }
    } else {
        assert(s.take(k) =~= s);
        lemma_digits_nonneg(s);
    }
}

/// A digit run has a non-negative value.
proof fn lemma_digits_nonneg(s: Seq<char>)
    requires
        all_digits(s),
    ensures
        digits_value(s) >= 0,
    decreases s.len(),
{
    if s.len() > 0 {
        assert(all_digits(s.drop_last()));
        lemma_digits_nonneg(s.drop_last());
        assert(48 <= (s[s.len() - 1] as int) <= 57);
    }
}

/// `str::parse::<u32>`, written out.
pub fn parse_u32(s: &str) -> (r: Option<u32>)
    ensures
        r == parsed_u32(s@),
{
    let v = chars_of(s);
    let mut start: usize = 0;
    if v.len() > 0 && v[0] == '+' {
        start = 1;
    }
    let ghost body = if s@.len() > 0 && s@[0] == '+' {
        s@.drop_first()
    } else {
        s@
    };
    assert(body =~= v@.skip(start as int));
    let n = v.len();
    if start >= n {
        return None;
    }
    let mut value: u64 = 0;
    let mut i: usize = start;
    while i < n
        invariant
            v@ == s@,
            n == v@.len(),
            start <= i <= n,
            body == v@.skip(start as int),
            body == (if s@.len() > 0 && s@[0] == '+' {
                s@.drop_first()
            } else {
                s@
            }),
            start < n,
            forall|j: int| start <= j < i ==> 48 <= #[trigger] (v@[j] as int) <= 57,
            value == digits_value(body.take(i - start)),
            value <= u32::MAX,
        decreases n - i,
    {
        let c = v[i];
        if c < '0' || c > '9' {
            assert(!all_digits(body)) by {
                assert(body[i - start] == c);
            }
            return None;
        }
        let d: u64 = if c == '0' {
            0
        } else if c == '1' {
            1
        } else if c == '2' {
            2
        } else if c == '3' {
            3
        } else if c == '4' {
            4
        } else if c == '5' {
            5
        } else if c == '6' {
            6
        } else if c == '7' {
            7
        } else if c == '8' {
            8
        } else {
            9
        };
        assert(d == c as int - 48);
        assert(body.take(i + 1 - start).drop_last() =~= body.take(i - start));
        assert(body.take(i + 1 - start).last() == c);
        let next = value * 10 + d;
        if next > 4294967295 {
            proof {
                if all_digits(body) {
                    lemma_digits_prefix(body, i + 1 - start);
                }
            }
            return None;
        }
        value = next;
        i = i + 1;
    }
    assert(body.take(n - start) =~= body);
    assert(all_digits(body)) by {
        assert forall|j: int| 0 <= j < body.len() implies 48 <= #[trigger] (body[j] as int) <= 57 by {
            assert(body[j] == v@[j + start]);
        }
    }
    Some(value as u32)
}

/// The left badge when no curated highlight is known: acclaim from the
/// vote, else "Trending Now" for a title from 2024 on with a vote of at
/// least 7.2 (a year that does not parse counts as 2024).
pub open spec fn acclaim_badge(year: Seq<char>, vote: VoteLevel) -> Option<(Seq<char>, Seq<char>)> {
    let yr: u32 = match parsed_u32(year) {
        Some(y) => y,
        None => 2024,
    };
    if reaches(vote, 82) {
        Some(("clapper"@, "Critically Acclaimed Masterpiece"@))
    } else if reaches(vote, 78) {
        Some(("clapper"@, "Critically Acclaimed"@))
    } else if yr >= 2024 && reaches(vote, 72) {
        Some(("megaphone"@, "Trending Now"@))
    } else {
        None
    }
}

/// The views of an optional icon-and-text badge.
pub open spec fn badge_view(b: Option<(String, String)>) -> Option<(Seq<char>, Seq<char>)> {
    match b {
        Some((i, t)) => Some((i@, t@)),
        None => None,
    }
}

/// The left badge's fallback, from the metadata line's year and the vote.
pub fn acclaim_badge_for(year: &str, vote: VoteLevel) -> (b: Option<(String, String)>)
    ensures
        badge_view(b) == acclaim_badge(year@, vote),
{
    let yr: u32 = match parse_u32(year) {
        Some(y) => y,
        None => 2024,
    };
    if vote_reaches(vote, 82) {
        Some((string_of("clapper"), string_of("Critically Acclaimed Masterpiece")))
    } else if vote_reaches(vote, 78) {
        Some((string_of("clapper"), string_of("Critically Acclaimed")))
    } else if yr >= 2024 && vote_reaches(vote, 72) {
        Some((string_of("megaphone"), string_of("Trending Now")))
    } else {
        None
    }
}

/// A crew credit of a title.
pub struct CrewCredit {
    pub job: Option<String>,
    pub name: String,
}

/// Whether a credit is for the director or the creator.
pub open spec fn leads(c: CrewCredit) -> bool {
    match c.job {
        Some(j) => j@ == "Director"@ || j@ == "Creator"@,
        None => false,
    }
}

/// The right badge's fallback: the first director or creator credited,
/// `"Created by …"` for a series and `"Directed by …"` for a film.
pub open spec fn creator_badge(crew: Seq<CrewCredit>, is_tv: bool) -> Option<Seq<char>> {
    if exists|i: int| 0 <= i < crew.len() && leads(#[trigger] crew[i]) {
        let i = choose|i: int|
            0 <= i < crew.len() && leads(#[trigger] crew[i]) && forall|j: int| 0 <= j < i ==> !leads(#[trigger] crew[j]);
        Some((if is_tv {
            "Created by "@
        } else {
            "Directed by "@
        }) + crew[i].name@)
    } else {
        None
    }
}

/// The right badge's fallback text.
pub fn creator_badge_for(crew: &[CrewCredit], is_tv: bool) -> (b: Option<String>)
    ensures
        match b {
            Some(t) => creator_badge(crew@, is_tv) == Some(t@),
            None => creator_badge(crew@, is_tv) is None,
        },
{
    let n = crew.len();
    let mut i: usize = 0;
    while i < n
        invariant
            n == crew@.len(),
            i <= n,
            forall|j: int| 0 <= j < i ==> !leads(#[trigger] crew@[j]),
        decreases n - i,
    {
        let c = &crew[i];
        let is_lead = match &c.job {
            Some(j) => str_equal(j.as_str(), "Director") || str_equal(j.as_str(), "Creator"),
            None => false,
        };
        if is_lead {
            assert(leads(crew@[i as int]));
            let ghost k = choose|k: int|
                0 <= k < crew@.len() && leads(#[trigger] crew@[k]) && forall|j: int|
                    0 <= j < k ==> !leads(#[trigger] crew@[j]);
            assert(k == i) by {
                if k < i {
                } else if k > i {
                    assert(!leads(crew@[i as int]));
                }
            }
            let mut t = if is_tv {
                string_of("Created by ")
            } else {
                string_of("Directed by ")
            };
            t.append(c.name.as_str());
            return Some(t);
        }
        i = i + 1;
    }
    None
}

/// Which badge shows: a curated highlight, once evaluated, decides alone
/// (its hook with its icon, `clapper` by default, or no badge); without one
/// the fallback shows.
pub open spec fn chosen_badge(
    evaluated: bool,
    hook: Option<Seq<char>>,
    icon: Option<Seq<char>>,
    fallback: Option<(Seq<char>, Seq<char>)>,
) -> Option<(Seq<char>, Seq<char>)> {
    if evaluated {
        match hook {
            Some(h) => Some(
                (
                    match icon {
                        Some(i) => i,
                        None => "clapper"@,
                    },
                    h,
                ),
            ),
            None => None,
        }
    } else {
        fallback
    }
}

/// The views of an optional string.
pub open spec fn opt_str_view(o: Option<&str>) -> Option<Seq<char>> {
    match o {
        Some(s) => Some(s@),
        None => None,
    }
}

/// The badge to show, given whether a curated highlight was found, its hook
/// and icon, and the fallback badge.
pub fn choose_badge(
    evaluated: bool,
    hook: Option<&str>,
    icon: Option<&str>,
    fallback: Option<(String, String)>,
) -> (b: Option<(String, String)>)
    ensures
        badge_view(b) == chosen_badge(evaluated, opt_str_view(hook), opt_str_view(icon), badge_view(fallback)),
{
    if evaluated {
        match hook {
            Some(h) => {
                let i = match icon {
                    Some(i) => string_of(i),
                    None => string_of("clapper"),
                };
                Some((i, string_of(h)))
            },
            None => None,
        }
    } else {
        fallback
    }
}

/// Whether a badge icon name is drawn as the megaphone (else the clapperboard).
pub fn is_megaphone_icon(icon: &str) -> (b: bool)
    ensures
        b == (icon@ == "megaphone"@),
{
    str_equal(icon, "megaphone")
}

} // verus!
