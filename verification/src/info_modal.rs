//! What the title details modal derives from a title's details: the vibe
//! line, the certification shown when TMDB gives none, and the
//! runtime-or-seasons caption.

use vstd::prelude::*;
use crate::maturity_badge::{reaches, vote_reaches, VoteLevel};
use crate::movie_card_popup::first_three;
use crate::text::{chars_contain_str, chars_of, decimal, has_substring, lowercased, push_decimal, str_equal, string_of, to_lowercase_str};

verus! {

/// A genre list as (id, name chars) pairs.
pub open spec fn genre_views(g: Seq<(u32, String)>) -> Seq<(u32, Seq<char>)> {
    g.map_values(|p: (u32, String)| (p.0, p.1@))
}

/// The chars of each string slice.
pub open spec fn str_views(v: Seq<&str>) -> Seq<Seq<char>> {
    v.map_values(|s: &str| s@)
}

/// The genre list with every name lowercased.
pub open spec fn lower_names(g: Seq<(u32, Seq<char>)>) -> Seq<(u32, Seq<char>)> {
    g.map_values(|p: (u32, Seq<char>)| (p.0, lowercased(p.1)))
}

/// The genre (its name lowercased) has the id `id`, or a name containing `name`.
pub open spec fn genre_hit(g: (u32, Seq<char>), id: u32, name: Seq<char>) -> bool {
    g.0 == id || has_substring(g.1, name)
}

/// Some genre (names lowercased) has the id `id`, or a name containing `name`.
pub open spec fn has_genre(genres: Seq<(u32, Seq<char>)>, id: u32, name: Seq<char>) -> bool {
    exists|k: int| 0 <= k < genres.len() && genre_hit(#[trigger] genres[k], id, name)
}

/// The genre (its name lowercased) marks a family or animated title.
pub open spec fn family_genre(g: (u32, Seq<char>)) -> bool {
    g.0 == 16 || g.0 == 10751 || has_substring(g.1, "animation"@) || has_substring(g.1, "family"@)
        || has_substring(g.1, "children"@)
}

/// `s` with every run of equal adjacent entries shortened to one (`Vec::dedup`).
pub open spec fn dedup_adjacent(s: Seq<Seq<char>>) -> Seq<Seq<char>>
    decreases s.len(),
{
    if s.len() == 0 {
        s
    } else {
        let d = dedup_adjacent(s.drop_last());
        if d.len() > 0 && d.last() == s.last() {
            d
        } else {
            d.push(s.last())
        }
    }
}

/// The science-fiction cue: the genre, or a telling word in the overview.
pub open spec fn modal_is_sci(genres: Seq<(u32, Seq<char>)>, ovl: Seq<char>) -> bool {
    has_genre(genres, 878, "sci-fi"@) || has_substring(ovl, "quantum"@) || has_substring(
        ovl,
        "timeline"@,
    ) || has_substring(ovl, "simulation"@)
}

/// The horror cue: the genre, or a telling word in the overview.
pub open spec fn modal_is_horror(genres: Seq<(u32, Seq<char>)>, ovl: Seq<char>) -> bool {
    has_genre(genres, 27, "horror"@) || has_substring(ovl, "curse"@) || has_substring(
        ovl,
        "supernatural"@,
    ) || has_substring(ovl, "haunting"@)
}

/// The tags a genre cue adds, when it holds.
pub open spec fn when(b: bool, tags: Seq<Seq<char>>) -> Seq<Seq<char>> {
    if b {
        tags
    } else {
        seq![]
    }
}

/// Every tag the modal's rules emit, in rule order, before adjacent
/// duplicates are dropped.
pub open spec fn modal_vibe_candidates(genres: Seq<(u32, Seq<char>)>, ovl: Seq<char>) -> Seq<
    Seq<char>,
> {
    let sci = modal_is_sci(genres, ovl);
    let t2 = when(sci, seq!["Mind-Bending"@, "Cerebral"@]) + when(
        modal_is_horror(genres, ovl),
        seq!["Ominous"@, "Chilling"@],
    );
    let t3 = if has_genre(genres, 53, "thriller"@) || has_genre(genres, 9648, "mystery"@) {
        t2 + when(!sci, seq!["Suspenseful"@]) + seq!["Psychological"@]
    } else {
        t2
    };
    let t9 = t3 + modal_genre_tags(genres);
    let t10 = if has_genre(genres, 18, "drama"@) && t9.len() == 0 {
        seq!["Compelling"@, "Emotional"@]
    } else {
        t9
    };
    if t10.len() == 0 {
        seq!["Captivating"@, "Compelling"@]
    } else {
        t10
    }
}

/// The tags of the comedy, crime, action/adventure, romance, family/animation
/// and documentary rules, in that order.
pub open spec fn modal_genre_tags(genres: Seq<(u32, Seq<char>)>) -> Seq<Seq<char>> {
    when(has_genre(genres, 35, "comedy"@), seq!["Witty"@, "Irreverent"@]) + when(
        has_genre(genres, 80, "crime"@),
        seq!["Gritty"@, "Atmospheric"@],
    ) + when(
        has_genre(genres, 28, "action"@) || has_genre(genres, 12, "adventure"@),
        seq!["High-Octane"@, "Exciting"@],
    ) + when(has_genre(genres, 10749, "romance"@), seq!["Heartfelt"@, "Emotional"@]) + when(
        has_genre(genres, 16, "animation"@) || has_genre(genres, 10751, "family"@),
        seq!["Imaginative"@, "Charming"@],
    ) + when(has_genre(genres, 99, "documentary"@), seq!["Provocative"@, "Eye-Opening"@])
}

/// The modal's vibe line: its rules' tags, adjacent repeats dropped, at most three.
pub open spec fn modal_vibe_tags_lowered(genres: Seq<(u32, Seq<char>)>, ovl: Seq<char>) -> Seq<Seq<char>> {
    first_three(dedup_adjacent(modal_vibe_candidates(genres, ovl)))
}

/// The modal's vibe line for a title's genres and overview, matched in lower case.
pub open spec fn modal_vibe_tags(genres: Seq<(u32, Seq<char>)>, overview: Seq<char>) -> Seq<Seq<char>> {
    modal_vibe_tags_lowered(lower_names(genres), lowercased(overview))
}

/// The place of a tag in the order in which the modal's rules emit them.
spec fn rule_rank(t: Seq<char>) -> int {
    if t == "Mind-Bending"@ {
        0
    } else if t == "Cerebral"@ {
        1
    } else if t == "Ominous"@ {
        2
    } else if t == "Chilling"@ {
        3
    } else if t == "Suspenseful"@ {
        4
    } else if t == "Psychological"@ {
        5
    } else if t == "Witty"@ {
        6
    } else if t == "Irreverent"@ {
        7
    } else if t == "Gritty"@ {
        8
    } else if t == "Atmospheric"@ {
        9
    } else if t == "High-Octane"@ {
        10
    } else if t == "Exciting"@ {
        11
    } else if t == "Heartfelt"@ {
        12
    } else if t == "Emotional"@ {
        13
    } else if t == "Imaginative"@ {
        14
    } else if t == "Charming"@ {
        15
    } else if t == "Provocative"@ {
        16
    } else if t == "Eye-Opening"@ {
        17
    } else {
        18
    }
}

/// The ranks of `s` lie in `lo..hi` and strictly increase.
spec fn ranked(s: Seq<Seq<char>>, lo: int, hi: int) -> bool {
    &&& forall|i: int| 0 <= i < s.len() ==> lo <= #[trigger] rule_rank(s[i]) < hi
    &&& forall|i: int, j: int| 0 <= i < j < s.len() ==> #[trigger] rule_rank(s[i]) < #[trigger] rule_rank(s[j])
}

/// Ranked runs one after the other make a ranked run.
proof fn lemma_ranked_concat(a: Seq<Seq<char>>, b: Seq<Seq<char>>, lo: int, mid: int, hi: int)
    requires
        lo <= mid <= hi,
        ranked(a, lo, mid),
        ranked(b, mid, hi),
    ensures
        ranked(a + b, lo, hi),
{
    assert forall|i: int| 0 <= i < (a + b).len() implies lo <= #[trigger] rule_rank((a + b)[i]) < hi by {
        if i >= a.len() {
            assert((a + b)[i] == b[i - a.len()]);
            assert(mid <= rule_rank(b[i - a.len()]) < hi);
        } else {
            assert((a + b)[i] == a[i]);
            assert(lo <= rule_rank(a[i]) < mid);
        }
    }
    assert forall|i: int, j: int| 0 <= i < j < (a + b).len() implies #[trigger] rule_rank((a + b)[i])
        < #[trigger] rule_rank((a + b)[j]) by {
        if j < a.len() {
            assert((a + b)[i] == a[i] && (a + b)[j] == a[j]);
        } else if i < a.len() {
            assert((a + b)[i] == a[i]);
            assert((a + b)[j] == b[j - a.len()]);
            assert(rule_rank(b[j - a.len()]) >= mid);
        } else {
            assert((a + b)[i] == b[i - a.len()]);
            assert((a + b)[j] == b[j - a.len()]);
        }
    }
}

/// A run with strictly increasing ranks holds no tag twice.
proof fn lemma_ranked_distinct(s: Seq<Seq<char>>, lo: int, hi: int)
    requires
        ranked(s, lo, hi),
    ensures
        s.no_duplicates(),
{
    assert forall|i: int, j: int| 0 <= i < s.len() && 0 <= j < s.len() && i != j implies s[i] != s[j] by {
        if i < j {
            assert(rule_rank(s[i]) < rule_rank(s[j]));
        } else {
            assert(rule_rank(s[j]) < rule_rank(s[i]));
        }
    }
}

/// With no equal neighbours, dropping adjacent repeats changes nothing.
proof fn lemma_dedup_noop(s: Seq<Seq<char>>)
    requires
        s.no_duplicates(),
    ensures
        dedup_adjacent(s) == s,
    decreases s.len(),
{
    if s.len() > 0 {
        let d = s.drop_last();
        assert(d.no_duplicates()) by {
            assert forall|i: int, j: int| 0 <= i < d.len() && 0 <= j < d.len() && i != j implies d[i] != d[j] by {
                assert(d[i] == s[i] && d[j] == s[j]);
            }
        }
        lemma_dedup_noop(d);
        if d.len() > 0 {
            assert(d.last() == s[s.len() - 2]);
        }
        assert(d.push(s.last()) =~= s);
    }
}

/// A rule's tags, emitted when it holds, are ranked.
proof fn lemma_group_ranked(flag: bool, tags: Seq<Seq<char>>, r: int)
    requires
        forall|i: int| 0 <= i < tags.len() ==> #[trigger] rule_rank(tags[i]) == r + i,
    ensures
        ranked(when(flag, tags), r, r + tags.len()),
{
}

/// The rank of each tag of the rules, and the two tags of the fallbacks
/// differ.
proof fn lemma_rule_ranks()
    ensures
        rule_rank("Mind-Bending"@) == 0,
        rule_rank("Cerebral"@) == 1,
        rule_rank("Ominous"@) == 2,
        rule_rank("Chilling"@) == 3,
        rule_rank("Suspenseful"@) == 4,
        rule_rank("Psychological"@) == 5,
        rule_rank("Witty"@) == 6,
        rule_rank("Irreverent"@) == 7,
        rule_rank("Gritty"@) == 8,
        rule_rank("Atmospheric"@) == 9,
        rule_rank("High-Octane"@) == 10,
        rule_rank("Exciting"@) == 11,
        rule_rank("Heartfelt"@) == 12,
        rule_rank("Emotional"@) == 13,
        rule_rank("Imaginative"@) == 14,
        rule_rank("Charming"@) == 15,
        rule_rank("Provocative"@) == 16,
        rule_rank("Eye-Opening"@) == 17,
        "Compelling"@ != "Emotional"@,
        "Captivating"@ != "Compelling"@,
{
    reveal_strlit("Compelling");
    reveal_strlit("Captivating");
    assert("Compelling"@.len() == 10 && "Captivating"@.len() == 11);
    reveal_strlit("Mind-Bending");
    reveal_strlit("Cerebral");
    reveal_strlit("Ominous");
    reveal_strlit("Chilling");
    reveal_strlit("Suspenseful");
    reveal_strlit("Psychological");
    reveal_strlit("Witty");
    reveal_strlit("Irreverent");
    reveal_strlit("Gritty");
    reveal_strlit("Atmospheric");
    reveal_strlit("High-Octane");
    reveal_strlit("Exciting");
    reveal_strlit("Heartfelt");
    reveal_strlit("Emotional");
    reveal_strlit("Imaginative");
    reveal_strlit("Charming");
    reveal_strlit("Provocative");
    reveal_strlit("Eye-Opening");
    reveal_strlit("Compelling");
    reveal_strlit("Captivating");
    assert("Mind-Bending"@.len() == 12);
    assert("Cerebral"@.len() == 8);
    assert("Ominous"@.len() == 7);
    assert("Chilling"@.len() == 8);
    assert("Suspenseful"@.len() == 11);
    assert("Psychological"@.len() == 13);
    assert("Witty"@.len() == 5);
    assert("Irreverent"@.len() == 10);
    assert("Gritty"@.len() == 6);
    assert("Atmospheric"@.len() == 11);
    assert("High-Octane"@.len() == 11);
    assert("Exciting"@.len() == 8);
    assert("Heartfelt"@.len() == 9);
    assert("Emotional"@.len() == 9);
    assert("Imaginative"@.len() == 11);
    assert("Charming"@.len() == 8);
    assert("Provocative"@.len() == 11);
    assert("Eye-Opening"@.len() == 11);
    assert("Chilling"@[1] != "Cerebral"@[1]);
    assert("Atmospheric"@[0] != "Suspenseful"@[0]);
    assert("High-Octane"@[0] != "Suspenseful"@[0]);
    assert("High-Octane"@[0] != "Atmospheric"@[0]);
    assert("Exciting"@[0] != "Cerebral"@[0]);
    assert("Exciting"@[0] != "Chilling"@[0]);
    assert("Emotional"@[0] != "Heartfelt"@[0]);
    assert("Imaginative"@[0] != "Suspenseful"@[0]);
    assert("Imaginative"@[0] != "Atmospheric"@[0]);
    assert("Imaginative"@[0] != "High-Octane"@[0]);
    assert("Charming"@[1] != "Cerebral"@[1]);
    assert("Charming"@[2] != "Chilling"@[2]);
    assert("Charming"@[0] != "Exciting"@[0]);
    assert("Provocative"@[0] != "Suspenseful"@[0]);
    assert("Provocative"@[0] != "Atmospheric"@[0]);
    assert("Provocative"@[0] != "High-Octane"@[0]);
    assert("Provocative"@[0] != "Imaginative"@[0]);
    assert("Eye-Opening"@[0] != "Suspenseful"@[0]);
    assert("Eye-Opening"@[0] != "Atmospheric"@[0]);
    assert("Eye-Opening"@[0] != "High-Octane"@[0]);
    assert("Eye-Opening"@[0] != "Imaginative"@[0]);
    assert("Eye-Opening"@[0] != "Provocative"@[0]);
    assert(rule_rank("Mind-Bending"@) == 0);
    assert(rule_rank("Cerebral"@) == 1);
    assert(rule_rank("Ominous"@) == 2);
    assert(rule_rank("Chilling"@) == 3);
    assert(rule_rank("Suspenseful"@) == 4);
    assert(rule_rank("Psychological"@) == 5);
    assert(rule_rank("Witty"@) == 6);
    assert(rule_rank("Irreverent"@) == 7);
    assert(rule_rank("Gritty"@) == 8);
    assert(rule_rank("Atmospheric"@) == 9);
    assert(rule_rank("High-Octane"@) == 10);
    assert(rule_rank("Exciting"@) == 11);
    assert(rule_rank("Heartfelt"@) == 12);
    assert(rule_rank("Emotional"@) == 13);
    assert(rule_rank("Imaginative"@) == 14);
    assert(rule_rank("Charming"@) == 15);
    assert(rule_rank("Provocative"@) == 16);
    assert(rule_rank("Eye-Opening"@) == 17);
}

/// The tags of the cue rules (science fiction, horror, thriller) are ranked.
proof fn lemma_cue_rules_ranked(gs: Seq<(u32, Seq<char>)>, ovl: Seq<char>)
    ensures
        ({
            let sci = modal_is_sci(gs, ovl);
            let t2 = when(sci, seq!["Mind-Bending"@, "Cerebral"@]) + when(
                modal_is_horror(gs, ovl),
                seq!["Ominous"@, "Chilling"@],
            );
            let t3 = if has_genre(gs, 53, "thriller"@) || has_genre(gs, 9648, "mystery"@) {
                t2 + when(!sci, seq!["Suspenseful"@]) + seq!["Psychological"@]
            } else {
                t2
            };
            ranked(t3, 0, 6) && (t3.len() == 0 || t3.len() >= 2)
        }),
{
    lemma_rule_ranks();
    let sci = modal_is_sci(gs, ovl);
    let a = when(sci, seq!["Mind-Bending"@, "Cerebral"@]);
    let b = when(modal_is_horror(gs, ovl), seq!["Ominous"@, "Chilling"@]);
    lemma_group_ranked(sci, seq!["Mind-Bending"@, "Cerebral"@], 0);
    lemma_group_ranked(modal_is_horror(gs, ovl), seq!["Ominous"@, "Chilling"@], 2);
    lemma_ranked_concat(a, b, 0, 2, 4);
    let thr = has_genre(gs, 53, "thriller"@) || has_genre(gs, 9648, "mystery"@);
    let sp = when(!sci, seq!["Suspenseful"@]) + seq!["Psychological"@];
    lemma_group_ranked(!sci, seq!["Suspenseful"@], 4);
    lemma_group_ranked(true, seq!["Psychological"@], 5);
    lemma_ranked_concat(when(!sci, seq!["Suspenseful"@]), seq!["Psychological"@], 4, 5, 6);
    if thr {
        lemma_ranked_concat(a + b, sp, 0, 4, 6);
    } else {
        assert(ranked(a + b, 0, 6));
    }
}

/// The tags of the genre rules are ranked, and come in pairs.
proof fn lemma_genre_rules_ranked(gs: Seq<(u32, Seq<char>)>)
    ensures
        ranked(modal_genre_tags(gs), 6, 18),
        modal_genre_tags(gs).len() % 2 == 0,
{
    lemma_rule_ranks();
    let g1 = when(has_genre(gs, 35, "comedy"@), seq!["Witty"@, "Irreverent"@]);
    let g2 = when(has_genre(gs, 80, "crime"@), seq!["Gritty"@, "Atmospheric"@]);
    let g3 = when(has_genre(gs, 28, "action"@) || has_genre(gs, 12, "adventure"@), seq!["High-Octane"@, "Exciting"@]);
    let g4 = when(has_genre(gs, 10749, "romance"@), seq!["Heartfelt"@, "Emotional"@]);
    let g5 = when(has_genre(gs, 16, "animation"@) || has_genre(gs, 10751, "family"@), seq!["Imaginative"@, "Charming"@]);
    let g6 = when(has_genre(gs, 99, "documentary"@), seq!["Provocative"@, "Eye-Opening"@]);
    lemma_group_ranked(has_genre(gs, 35, "comedy"@), seq!["Witty"@, "Irreverent"@], 6);
    lemma_group_ranked(has_genre(gs, 80, "crime"@), seq!["Gritty"@, "Atmospheric"@], 8);
    lemma_group_ranked(
        has_genre(gs, 28, "action"@) || has_genre(gs, 12, "adventure"@),
        seq!["High-Octane"@, "Exciting"@],
        10,
    );
    lemma_group_ranked(has_genre(gs, 10749, "romance"@), seq!["Heartfelt"@, "Emotional"@], 12);
    lemma_group_ranked(
        has_genre(gs, 16, "animation"@) || has_genre(gs, 10751, "family"@),
        seq!["Imaginative"@, "Charming"@],
        14,
    );
    lemma_group_ranked(has_genre(gs, 99, "documentary"@), seq!["Provocative"@, "Eye-Opening"@], 16);
    lemma_ranked_concat(g1, g2, 6, 8, 10);
    lemma_ranked_concat(g1 + g2, g3, 6, 10, 12);
    lemma_ranked_concat(g1 + g2 + g3, g4, 6, 12, 14);
    lemma_ranked_concat(g1 + g2 + g3 + g4, g5, 6, 14, 16);
    lemma_ranked_concat(g1 + g2 + g3 + g4 + g5, g6, 6, 16, 18);
    assert(modal_genre_tags(gs) == g1 + g2 + g3 + g4 + g5 + g6);
}

/// The tags of the modal's rules before the fallbacks hold no tag twice,
/// and there are none or at least two.
proof fn lemma_rule_tags(gs: Seq<(u32, Seq<char>)>, ovl: Seq<char>)
    ensures
        ({
            let sci = modal_is_sci(gs, ovl);
            let t2 = when(sci, seq!["Mind-Bending"@, "Cerebral"@]) + when(
                modal_is_horror(gs, ovl),
                seq!["Ominous"@, "Chilling"@],
            );
            let t3 = if has_genre(gs, 53, "thriller"@) || has_genre(gs, 9648, "mystery"@) {
                t2 + when(!sci, seq!["Suspenseful"@]) + seq!["Psychological"@]
            } else {
                t2
            };
            let t9 = t3 + modal_genre_tags(gs);
            t9.no_duplicates() && (t9.len() == 0 || t9.len() >= 2)
        }),
{
    lemma_cue_rules_ranked(gs, ovl);
    lemma_genre_rules_ranked(gs);
    let sci = modal_is_sci(gs, ovl);
    let t2 = when(sci, seq!["Mind-Bending"@, "Cerebral"@]) + when(
        modal_is_horror(gs, ovl),
        seq!["Ominous"@, "Chilling"@],
    );
    let t3 = if has_genre(gs, 53, "thriller"@) || has_genre(gs, 9648, "mystery"@) {
        t2 + when(!sci, seq!["Suspenseful"@]) + seq!["Psychological"@]
    } else {
        t2
    };
    lemma_ranked_concat(t3, modal_genre_tags(gs), 0, 6, 18);
    lemma_ranked_distinct(t3 + modal_genre_tags(gs), 0, 18);
}

/// The details modal always names two or three vibes, none twice.
pub proof fn law_modal_vibe_line(genres: Seq<(u32, Seq<char>)>, overview: Seq<char>)
    ensures
        2 <= modal_vibe_tags(genres, overview).len() <= 3,
        modal_vibe_tags(genres, overview).no_duplicates(),
{
    let ovl = lowercased(overview);
    let gs = lower_names(genres);
    lemma_rule_ranks();
    lemma_rule_tags(gs, ovl);
    let c = modal_vibe_candidates(gs, ovl);
    assert(c.no_duplicates() && c.len() >= 2);
    lemma_dedup_noop(c);
    let d = first_three(c);
    assert(d.no_duplicates()) by {
        assert forall|i: int, j: int| 0 <= i < d.len() && 0 <= j < d.len() && i != j implies d[i] != d[j] by {
            assert(d[i] == c[i] && d[j] == c[j]);
        }
    }
}

/// Whether some genre (names lowercased) has id `id` or a name containing `name`.
fn genre_matches(genres: &[(u32, String)], id: u32, name: &str) -> (r: bool)
    ensures
        r == has_genre(genre_views(genres@), id, name@),
{
    let ghost gv = genre_views(genres@);
    let n = genres.len();
    let mut k: usize = 0;
    while k < n
        invariant
            n == genres@.len(),
            gv == genre_views(genres@),
            k <= n,
            forall|q: int| 0 <= q < k ==> !genre_hit(#[trigger] gv[q], id, name@),
        decreases n - k,
    {
        let g = &genres[k];
        assert(gv[k as int] == (g.0, g.1@));
        if g.0 == id {
            assert(genre_hit(gv[k as int], id, name@));
            return true;
        }
        let lc = chars_of(g.1.as_str());
        if chars_contain_str(&lc, name) {
            assert(genre_hit(gv[k as int], id, name@));
            return true;
        }
        k = k + 1;
    }
    false
}

/// Appends two tags when `b` holds.
fn push_pair_when(tags: &mut Vec<&'static str>, b: bool, x: &'static str, y: &'static str)
    ensures
        str_views(final(tags)@) == str_views(old(tags)@) + when(b, seq![x@, y@]),
{
    if b {
        tags.push(x);
        tags.push(y);
    }
    assert(str_views(tags@) =~= str_views(old(tags)@) + when(b, seq![x@, y@]));
}

/// `tags` with adjacent repeats dropped.
fn dedup_tags(tags: &Vec<&'static str>) -> (out: Vec<&'static str>)
    ensures
        str_views(out@) == dedup_adjacent(str_views(tags@)),
{
    let mut out: Vec<&'static str> = Vec::new();
    let n = tags.len();
    let mut i: usize = 0;
    assert(str_views(tags@).take(0) =~= Seq::<Seq<char>>::empty());
    while i < n
        invariant
            n == tags@.len(),
            i <= n,
            str_views(out@) == dedup_adjacent(str_views(tags@).take(i as int)),
        decreases n - i,
    {
        let ghost tv = str_views(tags@);
        assert(tv.take(i + 1).drop_last() =~= tv.take(i as int));
        assert(tv.take(i + 1).last() == tags@[i as int]@);
        let keep = if out.len() == 0 {
            true
        } else {
            !str_equal(out[out.len() - 1], tags[i])
        };
        if keep {
            out.push(tags[i]);
            assert(str_views(out@) =~= str_views(out@).drop_last().push(tags@[i as int]@));
        }
        i = i + 1;
    }
    assert(str_views(tags@).take(n as int) =~= str_views(tags@));
    out
}

/// Appends the tags of the per-genre rules.
fn push_genre_rule_tags(tags: &mut Vec<&'static str>, genres: &[(u32, String)])
    ensures
        str_views(final(tags)@) == str_views(old(tags)@) + modal_genre_tags(genre_views(genres@)),
{
    let comedy = genre_matches(genres, 35, "comedy");
    push_pair_when(tags, comedy, "Witty", "Irreverent");
    let crime = genre_matches(genres, 80, "crime");
    push_pair_when(tags, crime, "Gritty", "Atmospheric");
    let action = genre_matches(genres, 28, "action") || genre_matches(genres, 12, "adventure");
    push_pair_when(tags, action, "High-Octane", "Exciting");
    let romance = genre_matches(genres, 10749, "romance");
    push_pair_when(tags, romance, "Heartfelt", "Emotional");
    let family = genre_matches(genres, 16, "animation") || genre_matches(genres, 10751, "family");
    push_pair_when(tags, family, "Imaginative", "Charming");
    let documentary = genre_matches(genres, 99, "documentary");
    push_pair_when(tags, documentary, "Provocative", "Eye-Opening");
    assert(str_views(tags@) =~= str_views(old(tags)@) + modal_genre_tags(genre_views(genres@)));
}

/// The details modal's vibe line ("This movie is: …"): tags emitted by
/// genre and overview rules (science fiction, horror, thriller or mystery,
/// comedy, crime, action or adventure, romance, animation or family,
/// documentary, then drama or a default), adjacent repeats dropped, at
/// most three. Genres match by TMDB id or by a word in their lowercased name.
pub fn derive_vibe_tags(genres: &[(u32, String)], overview: &str) -> (tags: Vec<&'static str>)
    ensures
        str_views(tags@) == modal_vibe_tags(genre_views(genres@), overview@),
{
    let lowered = lowercase_genre_names(genres);
    let lower = to_lowercase_str(overview);
    modal_vibe_tags_of_lowered(lowered.as_slice(), lower.as_str())
}

/// The genres with their names lowercased.
pub fn lowercase_genre_names(genres: &[(u32, String)]) -> (r: Vec<(u32, String)>)
    ensures
        genre_views(r@) == lower_names(genre_views(genres@)),
{
    let mut r: Vec<(u32, String)> = Vec::new();
    let n = genres.len();
    let mut i: usize = 0;
    while i < n
        invariant
            n == genres@.len(),
            i <= n,
            r@.len() == i,
            forall|k: int| 0 <= k < i ==> (#[trigger] r@[k]).0 == genres@[k].0 && r@[k].1@ == lowercased(genres@[k].1@),
        decreases n - i,
    {
        let g = &genres[i];
        r.push((g.0, to_lowercase_str(g.1.as_str())));
        i = i + 1;
    }
    assert(genre_views(r@) =~= lower_names(genre_views(genres@)));
    r
}

/// The details modal's vibe line from genres whose names are already
/// lowercased and an already lowercased overview (see `derive_vibe_tags`).
pub fn modal_vibe_tags_of_lowered(genres: &[(u32, String)], overview_lower: &str) -> (tags: Vec<&'static str>)
    ensures
        str_views(tags@) == modal_vibe_tags_lowered(genre_views(genres@), overview_lower@),
{
    let ghost gv = genre_views(genres@);
    let ovl = chars_of(overview_lower);
    let sci = genre_matches(genres, 878, "sci-fi") || chars_contain_str(&ovl, "quantum")
        || chars_contain_str(&ovl, "timeline") || chars_contain_str(&ovl, "simulation");
    let horror = genre_matches(genres, 27, "horror") || chars_contain_str(&ovl, "curse")
        || chars_contain_str(&ovl, "supernatural") || chars_contain_str(&ovl, "haunting");
    assert(sci == modal_is_sci(gv, overview_lower@));
    assert(horror == modal_is_horror(gv, overview_lower@));
    let mut tags: Vec<&'static str> = Vec::new();
    push_pair_when(&mut tags, sci, "Mind-Bending", "Cerebral");
    push_pair_when(&mut tags, horror, "Ominous", "Chilling");
    let ghost t2 = str_views(tags@);
    if genre_matches(genres, 53, "thriller") || genre_matches(genres, 9648, "mystery") {
        if !sci {
            tags.push("Suspenseful");
        }
        tags.push("Psychological");
        assert(str_views(tags@) =~= t2 + when(!sci, seq!["Suspenseful"@]) + seq!["Psychological"@]);
    }
    let ghost t3 = str_views(tags@);
    push_genre_rule_tags(&mut tags, genres);
    assert(str_views(tags@) == t3 + modal_genre_tags(gv));
    if genre_matches(genres, 18, "drama") && tags.len() == 0 {
        tags.push("Compelling");
        tags.push("Emotional");
        assert(str_views(tags@) =~= seq!["Compelling"@, "Emotional"@]);
    }
    if tags.len() == 0 {
        tags.push("Captivating");
        tags.push("Compelling");
        assert(str_views(tags@) =~= seq!["Captivating"@, "Compelling"@]);
    }
    assert(str_views(tags@) == modal_vibe_candidates(gv, overview_lower@));
    let mut out = dedup_tags(&tags);
    let ghost all = str_views(out@);
    out.truncate(3);
    assert(str_views(out@) =~= first_three(all));
    out
}

/// The certification the details modal shows: family and animation titles
/// get U below a 7.0 vote and PG from it; horror gets 18; others get 18 from
/// 8.0, 15 from 6.5, else 12.
pub open spec fn modal_certification_lowered(genres: Seq<(u32, Seq<char>)>, vote: VoteLevel) -> Seq<char> {
    if exists|k: int| 0 <= k < genres.len() && family_genre(#[trigger] genres[k]) {
        if !reaches(vote, 70) {
            "U"@
        } else {
            "PG"@
        }
    } else if has_genre(genres, 27, "horror"@) {
        "18"@
    } else if reaches(vote, 80) {
        "18"@
    } else if reaches(vote, 65) {
        "15"@
    } else {
        "12"@
    }
}

/// The certification the details modal shows for a title's genres (matched
/// in lower case) and vote.
pub open spec fn modal_certification(genres: Seq<(u32, Seq<char>)>, vote: VoteLevel) -> Seq<char> {
    modal_certification_lowered(lower_names(genres), vote)
}

/// A vote below 7.0.
pub open spec fn below_seven(vote: VoteLevel) -> bool {
    vote == VoteLevel::Under60 || vote == VoteLevel::From60 || vote == VoteLevel::From65
}

/// A family or animated title (a genre named so, in lower case, or with the
/// animation or family id) is certified U below a 7.0 vote and PG from it,
/// whatever else its genres are and however high its vote.
pub proof fn law_family_titles_u_or_pg(genres: Seq<(u32, Seq<char>)>, vote: VoteLevel, k: int)
    requires
        0 <= k < genres.len(),
        family_genre(genres[k]),
    ensures
        modal_certification_lowered(genres, vote) == (if below_seven(vote) {
            "U"@
        } else {
            "PG"@
        }),
{
    assert(family_genre(genres[k]));
}

/// The same, on genres as TMDB names them: a genre with the animation (16)
/// or family (10751) id makes the title U or PG.
pub proof fn law_family_ids_u_or_pg(genres: Seq<(u32, Seq<char>)>, vote: VoteLevel, k: int)
    requires
        0 <= k < genres.len(),
        genres[k].0 == 16 || genres[k].0 == 10751,
    ensures
        modal_certification(genres, vote) == (if below_seven(vote) {
            "U"@
        } else {
            "PG"@
        }),
{
    let g = lower_names(genres);
    assert(g[k].0 == genres[k].0);
    law_family_titles_u_or_pg(g, vote, k);
}

/// A title with neither a family nor a horror genre is certified by its
/// vote alone: 18 from 8.0, 15 from 6.5, else 12.
pub proof fn law_plain_titles_by_vote(genres: Seq<(u32, Seq<char>)>, vote: VoteLevel)
    requires
        forall|k: int| 0 <= k < genres.len() ==> !family_genre(#[trigger] genres[k]),
        !has_genre(genres, 27, "horror"@),
    ensures
        modal_certification_lowered(genres, vote) == (if vote == VoteLevel::From80 || vote == VoteLevel::From82 {
            "18"@
        } else if vote == VoteLevel::Under60 || vote == VoteLevel::From60 {
            "12"@
        } else {
            "15"@
        }),
{
}

/// A horror title that is not also a family title is certified 18,
/// whatever its vote.
pub proof fn law_horror_titles_18(genres: Seq<(u32, Seq<char>)>, vote: VoteLevel)
    requires
        forall|k: int| 0 <= k < genres.len() ==> !family_genre(#[trigger] genres[k]),
        has_genre(genres, 27, "horror"@),
    ensures
        modal_certification_lowered(genres, vote) == "18"@,
{
}

/// The certification and the vibe line match genre names and the overview
/// without regard to case: titles whose genre names and overview lowercase
/// alike get the same ones.
pub proof fn law_modal_ignores_case(
    g1: Seq<(u32, Seq<char>)>,
    g2: Seq<(u32, Seq<char>)>,
    o1: Seq<char>,
    o2: Seq<char>,
    vote: VoteLevel,
)
    requires
        lower_names(g1) == lower_names(g2),
        lowercased(o1) == lowercased(o2),
    ensures
        modal_certification(g1, vote) == modal_certification(g2, vote),
        modal_vibe_tags(g1, o1) == modal_vibe_tags(g2, o2),
        modal_vibe_tags(g1, o1) == modal_vibe_tags_lowered(lower_names(g1), lowercased(o1)),
        modal_certification(g1, vote) == modal_certification_lowered(lower_names(g1), vote),
{
}

/// Whether some genre marks a family or animated title.
fn any_family_genre(genres: &[(u32, String)]) -> (r: bool)
    ensures
        r == exists|k: int|
            0 <= k < genre_views(genres@).len() && family_genre(#[trigger] genre_views(genres@)[k]),
{
    let ghost gv = genre_views(genres@);
    let n = genres.len();
    let mut k: usize = 0;
    while k < n
        invariant
            n == genres@.len(),
            gv == genre_views(genres@),
            k <= n,
            forall|q: int| 0 <= q < k ==> !family_genre(#[trigger] gv[q]),
        decreases n - k,
    {
        let g = &genres[k];
        assert(gv[k as int] == (g.0, g.1@));
        let lc = chars_of(g.1.as_str());
        if g.0 == 16 || g.0 == 10751 || chars_contain_str(&lc, "animation") || chars_contain_str(
            &lc,
            "family",
        ) || chars_contain_str(&lc, "children") {
            assert(family_genre(gv[k as int]));
            return true;
        }
        k = k + 1;
    }
    false
}

/// The details modal's certification for a title's genres and vote.
pub fn certification_for(genres: &[(u32, String)], vote: VoteLevel) -> (c: &'static str)
    ensures
        c@ == modal_certification(genre_views(genres@), vote),
{
    let lowered = lowercase_genre_names(genres);
    certification_of_lowered(lowered.as_slice(), vote)
}

/// The details modal's certification from genres whose names are already
/// lowercased.
pub fn certification_of_lowered(genres: &[(u32, String)], vote: VoteLevel) -> (c: &'static str)
    ensures
        c@ == modal_certification_lowered(genre_views(genres@), vote),
{
    let family = any_family_genre(genres);
    if family {
        if !vote_reaches(vote, 70) {
            "U"
        } else {
            "PG"
        }
    } else if genre_matches(genres, 27, "horror") {
        "18"
    } else if vote_reaches(vote, 80) {
        "18"
    } else if vote_reaches(vote, 65) {
        "15"
    } else {
        "12"
    }
}

/// The runtime-or-seasons caption of the details modal: `"<h>h <m>m"` for a
/// known runtime in minutes, else `"<n> Season"`/`"<n> Seasons"` for a
/// positive season count, else nothing.
pub open spec fn modal_duration(runtime: Option<u32>, seasons: u32) -> Seq<char> {
    match runtime {
        Some(r) => decimal((r / 60) as nat) + "h "@ + decimal((r % 60) as nat) + "m"@,
        None => if seasons > 0 {
            decimal(seasons as nat) + (if seasons == 1 {
                " Season"@
            } else {
                " Seasons"@
            })
        } else {
            Seq::<char>::empty()
        },
    }
}

/// The details modal's runtime-or-seasons caption.
pub fn modal_duration_label(runtime: Option<u32>, seasons: u32) -> (s: String)
    ensures
        s@ == modal_duration(runtime, seasons),
{
    match runtime {
        Some(r) => {
            let mut s = String::new();
            push_decimal(&mut s, (r / 60) as u64);
            s.append("h ");
            push_decimal(&mut s, (r % 60) as u64);
            s.append("m");
            s
        },
        None => {
            if seasons > 0 {
                let mut s = String::new();
                push_decimal(&mut s, seasons as u64);
                if seasons == 1 {
                    s.append(" Season");
                } else {
                    s.append(" Seasons");
                }
                s
            } else {
                String::new()
            }
        },
    }
}

// ───────────────────────────── details lines ─────────────────────────────

/// How many cast members the details modal lists.
pub const CAST_SHOWN: usize = 4;

/// The cast the details modal lists: the first four names (fewer when the
/// cast is smaller).
pub fn leading_cast(cast: &[String]) -> (v: Vec<String>)
    ensures
        v@.len() == (if cast@.len() <= 4 {
            cast@.len()
        } else {
            4
        }),
        forall|i: int| 0 <= i < v@.len() ==> v@[i]@ == cast@[i]@,
{
    let mut v: Vec<String> = Vec::new();
    let mut i: usize = 0;
    while i < cast.len() && i < CAST_SHOWN
        invariant
            i <= cast@.len(),
            i <= 4,
            v@.len() == i,
            forall|j: int| 0 <= j < i ==> v@[j]@ == cast@[j]@,
        decreases cast@.len() - i,
    {
        v.push(cast[i].clone());
        i = i + 1;
    }
    v
}

/// The tags joined by `", "`.
pub open spec fn joined_tags(tags: Seq<Seq<char>>) -> Seq<char>
    decreases tags.len(),
{
    if tags.len() == 0 {
        Seq::empty()
    } else if tags.len() == 1 {
        tags[0]
    } else {
        joined_tags(tags.drop_last()) + ", "@ + tags.last()
    }
}

/// The vibe line's text: the tags joined by `", "`.
pub fn join_tags(tags: &[&str]) -> (s: String)
    ensures
        s@ == joined_tags(str_views(tags@)),
{
    let ghost tv = str_views(tags@);
    let mut s = String::new();
    let mut i: usize = 0;
    while i < tags.len()
        invariant
            tv == str_views(tags@),
            i <= tags@.len(),
            s@ == joined_tags(tv.take(i as int)),
        decreases tags@.len() - i,
    {
        assert(tv.take(i + 1).drop_last() =~= tv.take(i as int));
        if i > 0 {
            s.append(", ");
        }
        s.append(tags[i]);
        i = i + 1;
        proof {
            if i == 1 {
                assert(s@ =~= tv.take(1)[0]);
            }
        }
    }
    assert(tv.take(tags@.len() as int) =~= tv);
    s
}

/// The browse route of a genre, `/browse/genre-<id>`.
pub fn genre_route(id: u32) -> (s: String)
    ensures
        s@ == "/browse/genre-"@ + decimal(id as nat),
{
    let mut s = string_of("/browse/genre-");
    push_decimal(&mut s, id as u64);
    s
}

/// The lead-in of the vibe line.
pub fn vibe_lead(is_tv: bool) -> (s: &'static str)
    ensures
        s@ == (if is_tv {
            "This show is: "@
        } else {
            "This movie is: "@
        }),
{
    if is_tv {
        "This show is: "
    } else {
        "This movie is: "
    }
}

} // verus!
