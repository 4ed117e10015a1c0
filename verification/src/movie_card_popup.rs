//! The vibe descriptors shown under a hovered movie card: up to three short
//! tags gathered from curated pills, cues in the overview text, the TMDB
//! genres, and a fixed fallback pool.

use vstd::prelude::*;
use crate::text::{
    chars_contain_str, chars_of, eq_ascii_ci, has_substring, is_white_space, lower_code, lowercased, str_eq_ascii_ci,
    string_of, to_lowercase_str, trim_str, trimmed, trimmed_end, trimmed_start,
};

verus! {

// ───────────────────────────── specifications ─────────────────────────────

/// The chars of each string, in order.
pub open spec fn views(v: Seq<String>) -> Seq<Seq<char>> {
    v.map_values(|s: String| s@)
}

/// Some tag of `tags` equals `c` up to ASCII case.
pub open spec fn holds_ci(tags: Seq<Seq<char>>, c: Seq<char>) -> bool {
    exists|k: int| 0 <= k < tags.len() && eq_ascii_ci(#[trigger] tags[k], c)
}

/// `tags` with `c` appended, unless a tag equal to it up to ASCII case is already there.
pub open spec fn add_distinct(tags: Seq<Seq<char>>, c: Seq<char>) -> Seq<Seq<char>> {
    if holds_ci(tags, c) {
        tags
    } else {
        tags.push(c)
    }
}

/// The candidates `cands` offered one after the other to `tags`, each kept
/// only when no tag kept so far equals it up to ASCII case.
pub open spec fn gather(tags: Seq<Seq<char>>, cands: Seq<Seq<char>>) -> Seq<Seq<char>>
    decreases cands.len(),
{
    if cands.len() == 0 {
        tags
    } else {
        add_distinct(gather(tags, cands.drop_last()), cands.last())
    }
}

/// At most the first three entries of `s`.
pub open spec fn first_three(s: Seq<Seq<char>>) -> Seq<Seq<char>> {
    if s.len() <= 3 {
        s
    } else {
        s.take(3)
    }
}

/// Curated pills, trimmed, the empty ones left out.
pub open spec fn pill_candidates(pills: Seq<Seq<char>>) -> Seq<Seq<char>>
    decreases pills.len(),
{
    if pills.len() == 0 {
        seq![]
    } else {
        let t = trimmed(pills.last());
        pill_candidates(pills.drop_last()) + (if t.len() > 0 {
            seq![t]
        } else {
            seq![]
        })
    }
}

/// The number of thematic cues read from the overview.
pub open spec fn cue_count() -> int {
    14
}

/// The keywords of thematic cue `i`.
pub open spec fn cue_keywords(i: int) -> Seq<Seq<char>> {
    if i == 0 {
        seq![
            "silo"@,
            "dystop"@,
            "post-apoc"@,
            "apocalyp"@,
            "bunker"@,
            "toxic future"@,
            "ruined future"@,
        ]
    } else if i == 1 {
        seq![
            "cyberpunk"@,
            "artificial intelligence"@,
            "cyborg"@,
            "robot"@,
            "virtual reality"@,
            "simulation"@,
        ]
    } else if i == 2 {
        seq![
            "space"@,
            "galaxy"@,
            "alien"@,
            "interstellar"@,
            "starship"@,
            "planet"@,
            "extraterrestrial"@,
        ]
    } else if i == 3 {
        seq!["time travel"@, "multiverse"@, "timeline"@, "paradox"@]
    } else if i == 4 {
        seq!["conspiracy"@, "secrets"@, "lies"@, "deception"@, "whistleblower"@, "cover-up"@]
    } else if i == 5 {
        seq![
            "detective"@,
            "murder"@,
            "investigat"@,
            "serial killer"@,
            "crime syndicate"@,
            "underworld"@,
        ]
    } else if i == 6 {
        seq!["psychological"@, "paranoia"@, "sanity"@, "hallucination"@, "nightmare"@]
    } else if i == 7 {
        seq!["survival"@, "survive"@, "stranded"@, "hostile"@, "deadly"@]
    } else if i == 8 {
        seq!["heist"@, "thief"@, "steal"@, "con artist"@, "casino"@]
    } else if i == 9 {
        seq!["supernatural"@, "ghost"@, "haunt"@, "demon"@, "curse"@, "witch"@]
    } else if i == 10 {
        seq!["romantic"@, "falls in love"@, "heartbreak"@, "wedding"@, "passion"@]
    } else if i == 11 {
        seq!["satire"@, "parody"@, "hilarious"@, "misadventures"@, "absurd"@]
    } else if i == 12 {
        seq!["coming of age"@, "adolescen"@, "high school"@, "childhood"@, "growing up"@]
    } else {
        seq!["epic battle"@, "empire"@, "kingdom"@, "dynasty"@, "warrior"@, "rebellion"@]
    }
}

/// The tag that thematic cue `i` contributes.
pub open spec fn cue_label(i: int) -> Seq<char> {
    if i == 0 {
        "Dystopian"@
    } else if i == 1 {
        "Cyberpunk"@
    } else if i == 2 {
        "Mind-Bending"@
    } else if i == 3 {
        "Mind-Bending"@
    } else if i == 4 {
        "Suspenseful"@
    } else if i == 5 {
        "Gritty"@
    } else if i == 6 {
        "Psychological"@
    } else if i == 7 {
        "Edge-of-Your-Seat"@
    } else if i == 8 {
        "Slick"@
    } else if i == 9 {
        "Ominous"@
    } else if i == 10 {
        "Heartfelt"@
    } else if i == 11 {
        "Irreverent"@
    } else if i == 12 {
        "Coming-of-Age"@
    } else {
        "Epic"@
    }
}

/// Some keyword of `kws` occurs in `text`.
pub open spec fn mentions_any(text: Seq<char>, kws: Seq<Seq<char>>) -> bool {
    exists|j: int| 0 <= j < kws.len() && has_substring(text, #[trigger] kws[j])
}

/// The labels of the first `k` cues whose keywords occur in `ov_lower`, in cue order.
pub open spec fn theme_candidates(ov_lower: Seq<char>, k: int) -> Seq<Seq<char>>
    decreases k,
{
    if k <= 0 {
        seq![]
    } else {
        theme_candidates(ov_lower, k - 1) + (if mentions_any(ov_lower, cue_keywords(k - 1)) {
            seq![cue_label(k - 1)]
        } else {
            seq![]
        })
    }
}

/// The two tags that a TMDB genre id contributes (none for other ids).
pub open spec fn genre_tags(gid: i64) -> Seq<Seq<char>> {
    if gid == 28 {
        seq!["High-Octane"@, "Action"@]
    } else if gid == 12 {
        seq!["Adventurous"@, "Thrilling"@]
    } else if gid == 16 {
        seq!["Imaginative"@, "Charming"@]
    } else if gid == 35 {
        seq!["Witty"@, "Feel-Good"@]
    } else if gid == 80 {
        seq!["Gritty"@, "Dark"@]
    } else if gid == 99 {
        seq!["Provocative"@, "Insightful"@]
    } else if gid == 18 {
        seq!["Compelling"@, "Emotional"@]
    } else if gid == 10751 {
        seq!["Heartwarming"@, "Family"@]
    } else if gid == 14 {
        seq!["Enchanting"@, "Mythical"@]
    } else if gid == 36 {
        seq!["Sweeping"@, "Historical"@]
    } else if gid == 27 {
        seq!["Chilling"@, "Terrifying"@]
    } else if gid == 10402 {
        seq!["Soulful"@, "Rhythmic"@]
    } else if gid == 9648 {
        seq!["Mysterious"@, "Intriguing"@]
    } else if gid == 10749 {
        seq!["Romantic"@, "Passionate"@]
    } else if gid == 878 {
        seq!["Sci-Fi"@, "Futuristic"@]
    } else if gid == 53 {
        seq!["Suspenseful"@, "Gripping"@]
    } else if gid == 10752 {
        seq!["Visceral"@, "Intense"@]
    } else if gid == 37 {
        seq!["Atmospheric"@, "Raw"@]
    } else if gid == 10759 {
        seq!["Thrilling"@, "Action"@]
    } else if gid == 10762 {
        seq!["Playful"@, "Wholesome"@]
    } else if gid == 10764 {
        seq!["Unscripted"@, "Dramatic"@]
    } else if gid == 10765 {
        seq!["Sci-Fi"@, "Imaginative"@]
    } else if gid == 10768 {
        seq!["Political"@, "Intense"@]
    } else {
        seq![]
    }
}

/// The genre tags of every id of `gids`, in order.
pub open spec fn genre_candidates(gids: Seq<i64>) -> Seq<Seq<char>>
    decreases gids.len(),
{
    if gids.len() == 0 {
        seq![]
    } else {
        genre_candidates(gids.drop_last()) + genre_tags(gids.last())
    }
}

/// The tags offered last, when fewer than three were found.
pub open spec fn fallback_pool() -> Seq<Seq<char>> {
    seq!["Compelling"@, "Suspenseful"@, "Exciting"@, "Atmospheric"@, "Intriguing"@]
}

/// Every candidate tag, in the order in which they are offered.
pub open spec fn vibe_candidates(
    pills: Option<Seq<Seq<char>>>,
    gids: Option<Seq<i64>>,
    ov_lower: Seq<char>,
) -> Seq<Seq<char>> {
    let p = match pills {
        Some(ps) => pill_candidates(ps),
        None => seq![],
    };
    let g = match gids {
        Some(gs) => genre_candidates(gs),
        None => seq![],
    };
    p + theme_candidates(ov_lower, cue_count()) + g + fallback_pool()
}

/// The vibe tags of a title, given its lowercased overview: the first three
/// distinct (up to ASCII case) candidates.
pub open spec fn vibe_tags_lowered(
    pills: Option<Seq<Seq<char>>>,
    gids: Option<Seq<i64>>,
    ov_lower: Seq<char>,
) -> Seq<Seq<char>> {
    first_three(gather(seq![], vibe_candidates(pills, gids, ov_lower)))
}

/// The vibe tags of a title.
pub open spec fn vibe_tags(
    pills: Option<Seq<Seq<char>>>,
    gids: Option<Seq<i64>>,
    overview: Seq<char>,
) -> Seq<Seq<char>> {
    vibe_tags_lowered(pills, gids, lowercased(overview))
}

// ───────────────────────────── tables ─────────────────────────────

/// The keywords of thematic cue `i`.
fn cue_keywords_of(i: usize) -> (r: Vec<&'static str>)
    requires
        i < 14,
    ensures
        r@.map_values(|k: &str| k@) == cue_keywords(i as int),
{
    let r = if i == 0 {
        vec!["silo", "dystop", "post-apoc", "apocalyp", "bunker", "toxic future", "ruined future"]
    } else if i == 1 {
        vec![
            "cyberpunk",
            "artificial intelligence",
            "cyborg",
            "robot",
            "virtual reality",
            "simulation",
        ]
    } else if i == 2 {
        vec!["space", "galaxy", "alien", "interstellar", "starship", "planet", "extraterrestrial"]
    } else if i == 3 {
        vec!["time travel", "multiverse", "timeline", "paradox"]
    } else if i == 4 {
        vec!["conspiracy", "secrets", "lies", "deception", "whistleblower", "cover-up"]
    } else if i == 5 {
        vec![
            "detective",
            "murder",
            "investigat",
            "serial killer",
            "crime syndicate",
            "underworld",
        ]
    } else if i == 6 {
        vec!["psychological", "paranoia", "sanity", "hallucination", "nightmare"]
    } else if i == 7 {
        vec!["survival", "survive", "stranded", "hostile", "deadly"]
    } else if i == 8 {
        vec!["heist", "thief", "steal", "con artist", "casino"]
    } else if i == 9 {
        vec!["supernatural", "ghost", "haunt", "demon", "curse", "witch"]
    } else if i == 10 {
        vec!["romantic", "falls in love", "heartbreak", "wedding", "passion"]
    } else if i == 11 {
        vec!["satire", "parody", "hilarious", "misadventures", "absurd"]
    } else if i == 12 {
        vec!["coming of age", "adolescen", "high school", "childhood", "growing up"]
    } else {
        vec!["epic battle", "empire", "kingdom", "dynasty", "warrior", "rebellion"]
    };
    assert(r@.map_values(|k: &str| k@) =~= cue_keywords(i as int));
    r
}

/// The tag that thematic cue `i` contributes.
fn cue_label_of(i: usize) -> (r: &'static str)
    requires
        i < 14,
    ensures
        r@ == cue_label(i as int),
{
    if i == 0 {
        "Dystopian"
    } else if i == 1 {
        "Cyberpunk"
    } else if i == 2 {
        "Mind-Bending"
    } else if i == 3 {
        "Mind-Bending"
    } else if i == 4 {
        "Suspenseful"
    } else if i == 5 {
        "Gritty"
    } else if i == 6 {
        "Psychological"
    } else if i == 7 {
        "Edge-of-Your-Seat"
    } else if i == 8 {
        "Slick"
    } else if i == 9 {
        "Ominous"
    } else if i == 10 {
        "Heartfelt"
    } else if i == 11 {
        "Irreverent"
    } else if i == 12 {
        "Coming-of-Age"
    } else {
        "Epic"
    }
}

/// The two tags of a genre id, if it has any.
fn genre_tag_pair(gid: i64) -> (r: Option<(&'static str, &'static str)>)
    ensures
        genre_tags(gid) == (match r {
            Some(p) => seq![p.0@, p.1@],
            None => Seq::<Seq<char>>::empty(),
        }),
{
    match gid {
        28 => Some(("High-Octane", "Action")),
        12 => Some(("Adventurous", "Thrilling")),
        16 => Some(("Imaginative", "Charming")),
        35 => Some(("Witty", "Feel-Good")),
        80 => Some(("Gritty", "Dark")),
        99 => Some(("Provocative", "Insightful")),
        18 => Some(("Compelling", "Emotional")),
        10751 => Some(("Heartwarming", "Family")),
        14 => Some(("Enchanting", "Mythical")),
        36 => Some(("Sweeping", "Historical")),
        27 => Some(("Chilling", "Terrifying")),
        10402 => Some(("Soulful", "Rhythmic")),
        9648 => Some(("Mysterious", "Intriguing")),
        10749 => Some(("Romantic", "Passionate")),
        878 => Some(("Sci-Fi", "Futuristic")),
        53 => Some(("Suspenseful", "Gripping")),
        10752 => Some(("Visceral", "Intense")),
        37 => Some(("Atmospheric", "Raw")),
        10759 => Some(("Thrilling", "Action")),
        10762 => Some(("Playful", "Wholesome")),
        10764 => Some(("Unscripted", "Dramatic")),
        10765 => Some(("Sci-Fi", "Imaginative")),
        10768 => Some(("Political", "Intense")),
        _ => None,
    }
}


/// The pills of a title, each as its chars.
pub open spec fn pill_views(pills: Option<&[String]>) -> Option<Seq<Seq<char>>> {
    match pills {
        Some(ps) => Some(views(ps@)),
        None => None,
    }
}

/// The genre ids of a title, as a sequence.
pub open spec fn gid_views(gids: Option<&[i64]>) -> Option<Seq<i64>> {
    match gids {
        Some(gs) => Some(gs@),
        None => None,
    }
}

// ───────────────────────────── lemmas ─────────────────────────────

/// No two entries of `s` are equal up to ASCII case.
pub open spec fn distinct_ci(s: Seq<Seq<char>>) -> bool {
    forall|i: int, j: int|
        0 <= i < s.len() && 0 <= j < s.len() && i != j ==> !eq_ascii_ci(
            #[trigger] s[i],
            #[trigger] s[j],
        )
}

/// Equality up to ASCII case is symmetric and transitive.
proof fn lemma_eq_ci_equivalence(a: Seq<char>, b: Seq<char>, c: Seq<char>)
    ensures
        eq_ascii_ci(a, b) ==> eq_ascii_ci(b, a),
        eq_ascii_ci(a, b) && eq_ascii_ci(b, c) ==> eq_ascii_ci(a, c),
{
    if eq_ascii_ci(a, b) {
        assert forall|i: int| 0 <= i < b.len() implies #[trigger] lower_code(b[i]) == lower_code(
            a[i],
        ) by {
            assert(lower_code(a[i]) == lower_code(b[i]));
        }
        if eq_ascii_ci(b, c) {
            assert forall|i: int| 0 <= i < a.len() implies #[trigger] lower_code(a[i])
                == lower_code(c[i]) by {
                assert(lower_code(a[i]) == lower_code(b[i]));
                assert(lower_code(b[i]) == lower_code(c[i]));
            }
        }
    }
}

/// After gathering, every starting tag and every candidate is held up to ASCII case.
proof fn lemma_gather_holds(t: Seq<Seq<char>>, c: Seq<Seq<char>>)
    ensures
        forall|j: int| 0 <= j < c.len() ==> holds_ci(gather(t, c), #[trigger] c[j]),
    decreases c.len(),
{
    if c.len() > 0 {
        let d = c.drop_last();
        lemma_gather_holds(t, d);
        let g = gather(t, d);
        let g2 = gather(t, c);
        assert(g2 == add_distinct(g, c.last()));
        assert(g2.len() >= g.len());
        assert(g2.subrange(0, g.len() as int) =~= g);
        assert forall|j: int| 0 <= j < c.len() implies holds_ci(g2, #[trigger] c[j]) by {
            if j < c.len() - 1 {
                assert(d[j] == c[j]);
                assert(holds_ci(g, c[j]));
                let k = choose|k: int| 0 <= k < g.len() && eq_ascii_ci(#[trigger] g[k], c[j]);
                assert(g2.subrange(0, g.len() as int)[k] == g2[k]);
                assert(eq_ascii_ci(g2[k], c[j]));
            } else {
                if !holds_ci(g, c.last()) {
                    let k = g.len() as int;
                    assert(g2[k] == c.last());
                    assert forall|i: int| 0 <= i < g2[k].len() implies #[trigger] lower_code(
                        g2[k][i],
                    ) == lower_code(c[j][i]) by {}
                    assert(eq_ascii_ci(g2[k], c[j]));
                }
            }
        }
    }
}

/// Gathering keeps tags pairwise distinct up to ASCII case.
proof fn lemma_gather_distinct(t: Seq<Seq<char>>, c: Seq<Seq<char>>)
    requires
        distinct_ci(t),
    ensures
        distinct_ci(gather(t, c)),
    decreases c.len(),
{
    if c.len() > 0 {
        lemma_gather_distinct(t, c.drop_last());
        let g = gather(t, c.drop_last());
        let x = c.last();
        if !holds_ci(g, x) {
            let g2 = g.push(x);
            assert forall|i: int, j: int|
                0 <= i < g2.len() && 0 <= j < g2.len() && i != j implies !eq_ascii_ci(
                #[trigger] g2[i],
                #[trigger] g2[j],
            ) by {
                if i == g.len() {
                    lemma_eq_ci_equivalence(g2[i], g2[j], g2[j]);
                    assert(g2[j] == g[j]);
                    if eq_ascii_ci(g[j], x) {
                        assert(holds_ci(g, x));
                    }
                } else if j == g.len() {
                    assert(g2[i] == g[i]);
                    if eq_ascii_ci(g[i], x) {
                        assert(holds_ci(g, x));
                    }
                } else {
                    assert(g2[i] == g[i] && g2[j] == g[j]);
                }
            }
        }
    }
}

/// The gathered tags always number at least three, and are pairwise distinct
/// up to ASCII case, because the fallback pool closes every candidate list.
proof fn lemma_vibe_tags_shape(pre: Seq<Seq<char>>)
    ensures
        gather(seq![], pre + fallback_pool()).len() >= 3,
        distinct_ci(gather(seq![], pre + fallback_pool())),
{
    let c = pre + fallback_pool();
    let g = gather(seq![], c);
    lemma_gather_distinct(seq![], c);
    lemma_gather_holds(seq![], c);
    let n = pre.len() as int;
    reveal_strlit("Compelling");
    reveal_strlit("Suspenseful");
    reveal_strlit("Exciting");
    assert(c[n] == "Compelling"@);
    assert(c[n + 1] == "Suspenseful"@);
    assert(c[n + 2] == "Exciting"@);
    assert(holds_ci(g, c[n]));
    assert(holds_ci(g, c[n + 1]));
    assert(holds_ci(g, c[n + 2]));
    let k0 = choose|k: int| 0 <= k < g.len() && eq_ascii_ci(#[trigger] g[k], c[n]);
    let k1 = choose|k: int| 0 <= k < g.len() && eq_ascii_ci(#[trigger] g[k], c[n + 1]);
    let k2 = choose|k: int| 0 <= k < g.len() && eq_ascii_ci(#[trigger] g[k], c[n + 2]);
    assert(g[k0].len() == 10);
    assert(g[k1].len() == 11);
    assert(g[k2].len() == 8);
}

// ───────────────────────────── what the tags look like ─────────────────────────────

/// A tag as shown: not empty, with no white space at either end.
pub open spec fn clean_tag(t: Seq<char>) -> bool {
    t.len() > 0 && trimmed(t) == t
}

/// Every entry of `s` is a clean tag.
pub open spec fn all_clean(s: Seq<Seq<char>>) -> bool {
    forall|i: int| 0 <= i < s.len() ==> clean_tag(#[trigger] s[i])
}

/// `idx` picks the entries of `sub` out of `s`, in increasing positions.
pub open spec fn picks(idx: Seq<int>, sub: Seq<Seq<char>>, s: Seq<Seq<char>>) -> bool {
    &&& idx.len() == sub.len()
    &&& forall|i: int| 0 <= i < idx.len() ==> 0 <= #[trigger] idx[i] < s.len() && sub[i] == s[idx[i]]
    &&& forall|i: int, j: int| 0 <= i < j < idx.len() ==> #[trigger] idx[i] < #[trigger] idx[j]
}

/// `sub` is made of entries of `s`, kept in the order in which `s` has them.
pub open spec fn in_order_within(sub: Seq<Seq<char>>, s: Seq<Seq<char>>) -> bool {
    exists|idx: Seq<int>| #[trigger] picks(idx, sub, s)
}

/// The positions of the candidates that gathering keeps.
spec fn gather_picks(c: Seq<Seq<char>>) -> Seq<int>
    decreases c.len(),
{
    if c.len() == 0 {
        seq![]
    } else {
        let p = gather_picks(c.drop_last());
        if holds_ci(gather(seq![], c.drop_last()), c.last()) {
            p
        } else {
            p.push(c.len() - 1)
        }
    }
}

/// Gathering keeps candidates in their order.
proof fn lemma_gather_picks(c: Seq<Seq<char>>)
    ensures
        picks(gather_picks(c), gather(seq![], c), c),
    decreases c.len(),
{
    if c.len() > 0 {
        let d = c.drop_last();
        lemma_gather_picks(d);
        let p = gather_picks(d);
        let g = gather(seq![], d);
        assert forall|i: int| 0 <= i < p.len() implies p[i] < d.len() && c[p[i]] == d[p[i]] by {}
        if !holds_ci(g, c.last()) {
            let q = p.push(c.len() - 1);
            let h = g.push(c.last());
            assert forall|i: int| 0 <= i < q.len() implies 0 <= #[trigger] q[i] < c.len() && h[i] == c[q[i]] by {
                if i < p.len() {
                    assert(q[i] == p[i] && h[i] == g[i]);
                }
            }
            assert forall|i: int, j: int| 0 <= i < j < q.len() implies #[trigger] q[i] < #[trigger] q[j] by {
                if j < p.len() {
                    assert(q[i] == p[i] && q[j] == p[j]);
                } else {
                    assert(q[i] == p[i]);
                }
            }
        }
    }
}

/// A literal that starts and ends with a char other than white space is clean.
proof fn lemma_clean_literal(t: Seq<char>)
    requires
        t.len() > 0,
        !is_white_space(t[0]),
        !is_white_space(t.last()),
    ensures
        clean_tag(t),
{
    assert(trimmed_start(t) == t);
    assert(trimmed_end(t) == t);
}

/// Trimming the start leaves no white space first.
proof fn lemma_trimmed_start_head(s: Seq<char>)
    ensures
        trimmed_start(s).len() > 0 ==> !is_white_space(trimmed_start(s)[0]),
    decreases s.len(),
{
    if s.len() > 0 && is_white_space(s[0]) {
        lemma_trimmed_start_head(s.drop_first());
    }
}

/// Trimming the end keeps a prefix, with no white space last.
proof fn lemma_trimmed_end_shape(s: Seq<char>)
    ensures
        trimmed_end(s).len() <= s.len(),
        trimmed_end(s) =~= s.take(trimmed_end(s).len() as int),
        trimmed_end(s).len() > 0 ==> !is_white_space(trimmed_end(s).last()),
    decreases s.len(),
{
    if s.len() > 0 && is_white_space(s.last()) {
        lemma_trimmed_end_shape(s.drop_last());
        assert(s.drop_last().take(trimmed_end(s).len() as int) =~= s.take(trimmed_end(s).len() as int));
    }
}

/// A trimmed text that is not empty is clean.
proof fn lemma_trimmed_clean(s: Seq<char>)
    requires
        trimmed(s).len() > 0,
    ensures
        clean_tag(trimmed(s)),
{
    let y = trimmed_start(s);
    lemma_trimmed_start_head(s);
    lemma_trimmed_end_shape(y);
    let t = trimmed(s);
    assert(t[0] == y[0]);
    lemma_clean_literal(t);
}

/// The pill candidates are clean.
proof fn lemma_pill_candidates_clean(ps: Seq<Seq<char>>)
    ensures
        all_clean(pill_candidates(ps)),
    decreases ps.len(),
{
    if ps.len() > 0 {
        lemma_pill_candidates_clean(ps.drop_last());
        let t = trimmed(ps.last());
        if t.len() > 0 {
            lemma_trimmed_clean(ps.last());
        }
        let a = pill_candidates(ps.drop_last());
        let b: Seq<Seq<char>> = if t.len() > 0 { seq![t] } else { seq![] };
        assert forall|i: int| 0 <= i < (a + b).len() implies clean_tag(#[trigger] (a + b)[i]) by {
            if i >= a.len() {
                assert((a + b)[i] == b[i - a.len()]);
            }
        }
    }
}

/// Every cue label is clean.
proof fn lemma_cue_labels_clean()
    ensures
        forall|i: int| clean_tag(#[trigger] cue_label(i)),
{
    reveal_strlit("Dystopian");
    lemma_clean_literal("Dystopian"@);
    reveal_strlit("Cyberpunk");
    lemma_clean_literal("Cyberpunk"@);
    reveal_strlit("Mind-Bending");
    lemma_clean_literal("Mind-Bending"@);
    reveal_strlit("Suspenseful");
    lemma_clean_literal("Suspenseful"@);
    reveal_strlit("Gritty");
    lemma_clean_literal("Gritty"@);
    reveal_strlit("Psychological");
    lemma_clean_literal("Psychological"@);
    reveal_strlit("Edge-of-Your-Seat");
    lemma_clean_literal("Edge-of-Your-Seat"@);
    reveal_strlit("Slick");
    lemma_clean_literal("Slick"@);
    reveal_strlit("Ominous");
    lemma_clean_literal("Ominous"@);
    reveal_strlit("Heartfelt");
    lemma_clean_literal("Heartfelt"@);
    reveal_strlit("Irreverent");
    lemma_clean_literal("Irreverent"@);
    reveal_strlit("Coming-of-Age");
    lemma_clean_literal("Coming-of-Age"@);
    reveal_strlit("Epic");
    lemma_clean_literal("Epic"@);
}

/// The theme candidates are clean.
proof fn lemma_theme_candidates_clean(ov_lower: Seq<char>, k: int)
    ensures
        all_clean(theme_candidates(ov_lower, k)),
    decreases k,
{
    if k > 0 {
        lemma_theme_candidates_clean(ov_lower, k - 1);
        lemma_cue_labels_clean();
        let a = theme_candidates(ov_lower, k - 1);
        let b: Seq<Seq<char>> = if mentions_any(ov_lower, cue_keywords(k - 1)) {
            seq![cue_label(k - 1)]
        } else {
            seq![]
        };
        assert forall|i: int| 0 <= i < (a + b).len() implies clean_tag(#[trigger] (a + b)[i]) by {
            if i >= a.len() {
                assert((a + b)[i] == b[i - a.len()]);
            }
        }
    }
}

/// The tags of every genre are clean.
proof fn lemma_genre_tags_clean(gid: i64)
    ensures
        all_clean(genre_tags(gid)),
{
    reveal_strlit("High-Octane");
    lemma_clean_literal("High-Octane"@);
    reveal_strlit("Action");
    lemma_clean_literal("Action"@);
    reveal_strlit("Adventurous");
    lemma_clean_literal("Adventurous"@);
    reveal_strlit("Thrilling");
    lemma_clean_literal("Thrilling"@);
    reveal_strlit("Imaginative");
    lemma_clean_literal("Imaginative"@);
    reveal_strlit("Charming");
    lemma_clean_literal("Charming"@);
    reveal_strlit("Witty");
    lemma_clean_literal("Witty"@);
    reveal_strlit("Feel-Good");
    lemma_clean_literal("Feel-Good"@);
    reveal_strlit("Gritty");
    lemma_clean_literal("Gritty"@);
    reveal_strlit("Dark");
    lemma_clean_literal("Dark"@);
    reveal_strlit("Provocative");
    lemma_clean_literal("Provocative"@);
    reveal_strlit("Insightful");
    lemma_clean_literal("Insightful"@);
    reveal_strlit("Compelling");
    lemma_clean_literal("Compelling"@);
    reveal_strlit("Emotional");
    lemma_clean_literal("Emotional"@);
    reveal_strlit("Heartwarming");
    lemma_clean_literal("Heartwarming"@);
    reveal_strlit("Family");
    lemma_clean_literal("Family"@);
    reveal_strlit("Enchanting");
    lemma_clean_literal("Enchanting"@);
    reveal_strlit("Mythical");
    lemma_clean_literal("Mythical"@);
    reveal_strlit("Sweeping");
    lemma_clean_literal("Sweeping"@);
    reveal_strlit("Historical");
    lemma_clean_literal("Historical"@);
    reveal_strlit("Chilling");
    lemma_clean_literal("Chilling"@);
    reveal_strlit("Terrifying");
    lemma_clean_literal("Terrifying"@);
    reveal_strlit("Soulful");
    lemma_clean_literal("Soulful"@);
    reveal_strlit("Rhythmic");
    lemma_clean_literal("Rhythmic"@);
    reveal_strlit("Mysterious");
    lemma_clean_literal("Mysterious"@);
    reveal_strlit("Intriguing");
    lemma_clean_literal("Intriguing"@);
    reveal_strlit("Romantic");
    lemma_clean_literal("Romantic"@);
    reveal_strlit("Passionate");
    lemma_clean_literal("Passionate"@);
    reveal_strlit("Sci-Fi");
    lemma_clean_literal("Sci-Fi"@);
    reveal_strlit("Futuristic");
    lemma_clean_literal("Futuristic"@);
    reveal_strlit("Suspenseful");
    lemma_clean_literal("Suspenseful"@);
    reveal_strlit("Gripping");
    lemma_clean_literal("Gripping"@);
    reveal_strlit("Visceral");
    lemma_clean_literal("Visceral"@);
    reveal_strlit("Intense");
    lemma_clean_literal("Intense"@);
    reveal_strlit("Atmospheric");
    lemma_clean_literal("Atmospheric"@);
    reveal_strlit("Raw");
    lemma_clean_literal("Raw"@);
    reveal_strlit("Playful");
    lemma_clean_literal("Playful"@);
    reveal_strlit("Wholesome");
    lemma_clean_literal("Wholesome"@);
    reveal_strlit("Unscripted");
    lemma_clean_literal("Unscripted"@);
    reveal_strlit("Dramatic");
    lemma_clean_literal("Dramatic"@);
    reveal_strlit("Political");
    lemma_clean_literal("Political"@);
}

/// The genre candidates are clean.
proof fn lemma_genre_candidates_clean(gids: Seq<i64>)
    ensures
        all_clean(genre_candidates(gids)),
    decreases gids.len(),
{
    if gids.len() > 0 {
        lemma_genre_candidates_clean(gids.drop_last());
        lemma_genre_tags_clean(gids.last());
        let a = genre_candidates(gids.drop_last());
        let b = genre_tags(gids.last());
        assert forall|i: int| 0 <= i < (a + b).len() implies clean_tag(#[trigger] (a + b)[i]) by {
            if i >= a.len() {
                assert((a + b)[i] == b[i - a.len()]);
            }
        }
    }
}

/// The fallback tags are clean.
proof fn lemma_fallback_clean()
    ensures
        all_clean(fallback_pool()),
{
    reveal_strlit("Compelling");
    lemma_clean_literal("Compelling"@);
    reveal_strlit("Suspenseful");
    lemma_clean_literal("Suspenseful"@);
    reveal_strlit("Exciting");
    lemma_clean_literal("Exciting"@);
    reveal_strlit("Atmospheric");
    lemma_clean_literal("Atmospheric"@);
    reveal_strlit("Intriguing");
    lemma_clean_literal("Intriguing"@);
}

/// Both parts clean make a clean whole.
proof fn lemma_concat_clean(a: Seq<Seq<char>>, b: Seq<Seq<char>>)
    requires
        all_clean(a),
        all_clean(b),
    ensures
        all_clean(a + b),
{
    assert forall|i: int| 0 <= i < (a + b).len() implies clean_tag(#[trigger] (a + b)[i]) by {
        if i >= a.len() {
            assert((a + b)[i] == b[i - a.len()]);
        }
    }
}

/// The vibe tags are clean (not empty, trimmed), and they are candidates
/// kept in the order in which they are offered: the curated pills first,
/// then the overview's cues, then the genres' tags, then the fallback pool.
pub proof fn law_vibe_tags_in_order(pills: Option<Seq<Seq<char>>>, gids: Option<Seq<i64>>, ov_lower: Seq<char>)
    ensures
        in_order_within(vibe_tags_lowered(pills, gids, ov_lower), vibe_candidates(pills, gids, ov_lower)),
        all_clean(vibe_tags_lowered(pills, gids, ov_lower)),
{
    let c = vibe_candidates(pills, gids, ov_lower);
    let g = gather(seq![], c);
    lemma_gather_picks(c);
    let p = gather_picks(c);
    let tags = first_three(g);
    let q = if g.len() <= 3 { p } else { p.take(3) };
    assert(picks(q, tags, c)) by {
        assert forall|i: int| 0 <= i < q.len() implies 0 <= #[trigger] q[i] < c.len() && tags[i] == c[q[i]] by {
            assert(q[i] == p[i]);
        }
        assert forall|i: int, j: int| 0 <= i < j < q.len() implies #[trigger] q[i] < #[trigger] q[j] by {
            assert(q[i] == p[i] && q[j] == p[j]);
        }
    }
    let pc = match pills {
        Some(ps) => pill_candidates(ps),
        None => seq![],
    };
    let gc = match gids {
        Some(gs) => genre_candidates(gs),
        None => seq![],
    };
    match pills {
        Some(ps) => lemma_pill_candidates_clean(ps),
        None => {},
    }
    match gids {
        Some(gs) => lemma_genre_candidates_clean(gs),
        None => {},
    }
    lemma_theme_candidates_clean(ov_lower, cue_count());
    lemma_fallback_clean();
    lemma_concat_clean(pc, theme_candidates(ov_lower, cue_count()));
    lemma_concat_clean(pc + theme_candidates(ov_lower, cue_count()), gc);
    lemma_concat_clean(pc + theme_candidates(ov_lower, cue_count()) + gc, fallback_pool());
    assert(c == pc + theme_candidates(ov_lower, cue_count()) + gc + fallback_pool());
    assert forall|i: int| 0 <= i < tags.len() implies clean_tag(#[trigger] tags[i]) by {
        assert(tags[i] == c[q[i]]);
    }
}

/// Gathering two runs of candidates is gathering the second after the first.
proof fn lemma_gather_split(t: Seq<Seq<char>>, a: Seq<Seq<char>>, b: Seq<Seq<char>>)
    ensures
        gather(t, a + b) == gather(gather(t, a), b),
    decreases b.len(),
{
    if b.len() == 0 {
        assert(a + b =~= a);
    } else {
        lemma_gather_split(t, a, b.drop_last());
        assert((a + b).drop_last() =~= a + b.drop_last());
        assert((a + b).last() == b.last());
    }
}

/// Gathering keeps the tags already there, first and in place.
proof fn lemma_gather_keeps_prefix(t: Seq<Seq<char>>, c: Seq<Seq<char>>)
    ensures
        gather(t, c).len() >= t.len(),
        forall|i: int| 0 <= i < t.len() ==> #[trigger] gather(t, c)[i] == t[i],
    decreases c.len(),
{
    if c.len() > 0 {
        lemma_gather_keeps_prefix(t, c.drop_last());
        let g = gather(t, c.drop_last());
        assert forall|i: int| 0 <= i < t.len() implies #[trigger] gather(t, c)[i] == t[i] by {
            assert(g[i] == t[i]);
            if !holds_ci(g, c.last()) {
                assert(g.push(c.last())[i] == g[i]);
            }
        }
    }
}

/// The vibe tags begin with the curated pills: trimmed, the empty ones left
/// out, each kept only the first time (up to ASCII case), as many of them
/// as fit in three.
pub proof fn law_vibe_tags_start_with_pills(pills: Seq<Seq<char>>, gids: Option<Seq<i64>>, ov_lower: Seq<char>)
    ensures
        ({
            let p = gather(seq![], pill_candidates(pills));
            let tags = vibe_tags_lowered(Some(pills), gids, ov_lower);
            forall|i: int| 0 <= i < p.len() && i < 3 ==> #[trigger] tags[i] == p[i]
        }),
{
    let pc = pill_candidates(pills);
    let rest = theme_candidates(ov_lower, cue_count()) + (match gids {
        Some(gs) => genre_candidates(gs),
        None => seq![],
    }) + fallback_pool();
    let c = vibe_candidates(Some(pills), gids, ov_lower);
    assert(c =~= pc + rest);
    lemma_gather_split(seq![], pc, rest);
    let p = gather(seq![], pc);
    lemma_gather_keeps_prefix(p, rest);
    let g = gather(seq![], c);
    assert forall|i: int| 0 <= i < p.len() && i < 3 implies #[trigger] vibe_tags_lowered(Some(pills), gids, ov_lower)[i]
        == p[i] by {
        assert(g[i] == p[i]);
    }
}

/// The overview's cues are matched without regard to case: the vibe tags
/// of an overview are those read from its lowercased text, and overviews
/// that lowercase alike get the same tags.
pub proof fn law_vibe_cues_ignore_case(
    pills: Option<Seq<Seq<char>>>,
    gids: Option<Seq<i64>>,
    o1: Seq<char>,
    o2: Seq<char>,
)
    requires
        lowercased(o1) == lowercased(o2),
    ensures
        vibe_tags(pills, gids, o1) == vibe_tags(pills, gids, o2),
        vibe_tags(pills, gids, o1) == vibe_tags_lowered(pills, gids, lowercased(o1)),
{
}

/// No cue whose keywords occur in the text: no theme candidate.
proof fn lemma_no_theme(ov_lower: Seq<char>, k: int)
    requires
        forall|i: int| 0 <= i < k ==> !mentions_any(ov_lower, #[trigger] cue_keywords(i)),
    ensures
        theme_candidates(ov_lower, k) == Seq::<Seq<char>>::empty(),
    decreases k,
{
    if k > 0 {
        lemma_no_theme(ov_lower, k - 1);
        assert(!mentions_any(ov_lower, cue_keywords(k - 1)));
        assert(theme_candidates(ov_lower, k - 1) + Seq::<Seq<char>>::empty() =~= Seq::<Seq<char>>::empty());
    }
}

/// A title with no curated pill, no genre and no cue in its overview gets
/// the first three tags of the fallback pool: Compelling, Suspenseful,
/// Exciting.
pub proof fn law_vibe_fallback_only(ov_lower: Seq<char>)
    requires
        forall|i: int| 0 <= i < cue_count() ==> !mentions_any(ov_lower, #[trigger] cue_keywords(i)),
    ensures
        vibe_tags_lowered(None, None, ov_lower) == seq!["Compelling"@, "Suspenseful"@, "Exciting"@],
{
    reveal_strlit("Compelling");
    reveal_strlit("Suspenseful");
    reveal_strlit("Exciting");
    reveal_strlit("Atmospheric");
    reveal_strlit("Intriguing");
    lemma_no_theme(ov_lower, cue_count());
    let c = vibe_candidates(None, None, ov_lower);
    assert(c =~= fallback_pool());
    let f = fallback_pool();
    let e = Seq::<Seq<char>>::empty();
    let g1 = gather(e, f.take(1));
    let g2 = gather(e, f.take(2));
    let g3 = gather(e, f.take(3));
    assert(f.take(1).drop_last() =~= e);
    assert(gather(e, e) == e);
    assert(!holds_ci(e, f[0]));
    assert(g1 =~= seq!["Compelling"@]);
    assert(f.take(2).drop_last() =~= f.take(1));
    assert(!holds_ci(g1, f[1])) by {
        assert(!eq_ascii_ci(g1[0], f[1]));
    }
    assert(g2 =~= seq!["Compelling"@, "Suspenseful"@]);
    assert(f.take(3).drop_last() =~= f.take(2));
    assert(!holds_ci(g2, f[2])) by {
        assert(!eq_ascii_ci(g2[0], f[2]));
        assert(!eq_ascii_ci(g2[1], f[2]));
    }
    assert(g3 =~= seq!["Compelling"@, "Suspenseful"@, "Exciting"@]);
    lemma_gather_split(e, f.take(3), f.skip(3));
    assert(f.take(3) + f.skip(3) =~= f);
    lemma_gather_keeps_prefix(g3, f.skip(3));
    let g = gather(e, f);
    assert(g.len() >= 3);
    assert(first_three(g) =~= g3);
}

// ───────────────────────────── gathering ─────────────────────────────

/// Offers `cand` to `tags`: it is appended unless a tag equal to it up to
/// ASCII case is already there.
fn offer_tag(tags: &mut Vec<String>, cand: &String)
    ensures
        views(final(tags)@) == add_distinct(views(old(tags)@), cand@),
{
    let n = tags.len();
    let mut k: usize = 0;
    while k < n
        invariant
            n == tags.len(),
            tags@ == old(tags)@,
            k <= n,
            forall|j: int| 0 <= j < k ==> !eq_ascii_ci(#[trigger] views(tags@)[j], cand@),
        decreases n - k,
    {
        if str_eq_ascii_ci(tags[k].as_str(), cand.as_str()) {
            assert(eq_ascii_ci(views(tags@)[k as int], cand@));
            assert(holds_ci(views(tags@), cand@));
            return;
        }
        k = k + 1;
    }
    assert(!holds_ci(views(tags@), cand@));
    tags.push(cand.clone());
    assert(views(tags@) =~= views(old(tags)@).push(cand@));
}

/// Appends the trimmed, non-empty pills to `out`.
fn push_pill_candidates(out: &mut Vec<String>, pills: &[String])
    ensures
        views(final(out)@) == views(old(out)@) + pill_candidates(views(pills@)),
{
    let n = pills.len();
    let mut i: usize = 0;
    while i < n
        invariant
            n == pills@.len(),
            i <= n,
            views(out@) == views(old(out)@) + pill_candidates(views(pills@).take(i as int)),
        decreases n - i,
    {
        let ghost before = views(out@);
        let t = trim_str(pills[i].as_str());
        let ghost pv = views(pills@);
        assert(pv.take(i + 1).drop_last() =~= pv.take(i as int));
        assert(pv.take(i + 1).last() == pills@[i as int]@);
        if t.unicode_len() > 0 {
            out.push(string_of(t));
            assert(views(out@) =~= before.push(t@));
        }
        assert(views(out@) =~= views(old(out)@) + pill_candidates(pv.take(i + 1)));
        i = i + 1;
    }
    assert(views(pills@).take(n as int) =~= views(pills@));
}

/// Whether some keyword of thematic cue `i` occurs in `ov_lower`.
fn cue_matches(ov_lower: &Vec<char>, i: usize) -> (r: bool)
    requires
        i < 14,
    ensures
        r == mentions_any(ov_lower@, cue_keywords(i as int)),
{
    let kws = cue_keywords_of(i);
    let ghost kv = kws@.map_values(|k: &str| k@);
    let m = kws.len();
    let mut j: usize = 0;
    while j < m
        invariant
            m == kws@.len(),
            kv == kws@.map_values(|k: &str| k@),
            kv == cue_keywords(i as int),
            j <= m,
            forall|q: int| 0 <= q < j ==> !has_substring(ov_lower@, #[trigger] kv[q]),
        decreases m - j,
    {
        if chars_contain_str(ov_lower, kws[j]) {
            assert(has_substring(ov_lower@, kv[j as int]));
            return true;
        }
        j = j + 1;
    }
    false
}

/// Appends the labels of the thematic cues found in `ov_lower`.
fn push_theme_candidates(out: &mut Vec<String>, ov_lower: &Vec<char>)
    ensures
        views(final(out)@) == views(old(out)@) + theme_candidates(ov_lower@, cue_count()),
{
    let mut k: usize = 0;
    while k < 14
        invariant
            k <= 14,
            views(out@) == views(old(out)@) + theme_candidates(ov_lower@, k as int),
        decreases 14 - k,
    {
        let ghost before = views(out@);
        if cue_matches(ov_lower, k) {
            out.push(string_of(cue_label_of(k)));
            assert(views(out@) =~= before.push(cue_label(k as int)));
        }
        assert(views(out@) =~= views(old(out)@) + theme_candidates(ov_lower@, k + 1));
        k = k + 1;
    }
}

/// Appends the genre tags of every id of `gids`.
fn push_genre_candidates(out: &mut Vec<String>, gids: &[i64])
    ensures
        views(final(out)@) == views(old(out)@) + genre_candidates(gids@),
{
    let n = gids.len();
    let mut i: usize = 0;
    while i < n
        invariant
            n == gids@.len(),
            i <= n,
            views(out@) == views(old(out)@) + genre_candidates(gids@.take(i as int)),
        decreases n - i,
    {
        let ghost before = views(out@);
        assert(gids@.take(i + 1).drop_last() =~= gids@.take(i as int));
        match genre_tag_pair(gids[i]) {
            Some((a, b)) => {
                out.push(string_of(a));
                out.push(string_of(b));
                assert(views(out@) =~= before + seq![a@, b@]);
            },
            None => {},
        }
        assert(views(out@) =~= views(old(out)@) + genre_candidates(gids@.take(i + 1)));
        i = i + 1;
    }
    assert(gids@.take(n as int) =~= gids@);
}

/// Appends the fallback pool.
fn push_fallback_candidates(out: &mut Vec<String>)
    ensures
        views(final(out)@) == views(old(out)@) + fallback_pool(),
{
    out.push(string_of("Compelling"));
    out.push(string_of("Suspenseful"));
    out.push(string_of("Exciting"));
    out.push(string_of("Atmospheric"));
    out.push(string_of("Intriguing"));
    assert(views(out@) =~= views(old(out)@) + fallback_pool());
}

/// Offers every candidate in order to an empty tag list.
fn gather_all(cands: &Vec<String>) -> (tags: Vec<String>)
    ensures
        views(tags@) == gather(seq![], views(cands@)),
{
    let mut tags: Vec<String> = Vec::new();
    let n = cands.len();
    let mut i: usize = 0;
    assert(views(tags@) =~= gather(seq![], views(cands@).take(0)));
    while i < n
        invariant
            n == cands@.len(),
            i <= n,
            views(tags@) == gather(seq![], views(cands@).take(i as int)),
        decreases n - i,
    {
        let ghost cv = views(cands@);
        assert(cv.take(i + 1).drop_last() =~= cv.take(i as int));
        offer_tag(&mut tags, &cands[i]);
        i = i + 1;
    }
    assert(views(cands@).take(n as int) =~= views(cands@));
    tags
}

/// The (up to) three vibe descriptors of a title: its curated pills (trimmed,
/// non-empty), then the labels of the thematic cues found in its lowercased
/// overview, then the tags of its genres, then a fallback pool; a candidate
/// is kept only when no kept tag equals it up to ASCII case, and the first
/// three kept are returned.
pub fn derive_vibe_tags(
    vibe_pills: Option<&[String]>,
    genre_ids: Option<&[i64]>,
    overview: &str,
) -> (tags: Vec<String>)
    ensures
        views(tags@) == vibe_tags(pill_views(vibe_pills), gid_views(genre_ids), overview@),
        tags@.len() == 3,
        distinct_ci(views(tags@)),
{
    let lower = to_lowercase_str(overview);
    vibe_tags_of_lowered(vibe_pills, genre_ids, lower.as_str())
}

/// The vibe descriptors of a title from its already lowercased overview
/// (see `derive_vibe_tags`).
pub fn vibe_tags_of_lowered(
    vibe_pills: Option<&[String]>,
    genre_ids: Option<&[i64]>,
    overview_lower: &str,
) -> (tags: Vec<String>)
    ensures
        views(tags@) == vibe_tags_lowered(pill_views(vibe_pills), gid_views(genre_ids), overview_lower@),
        tags@.len() == 3,
        distinct_ci(views(tags@)),
{
    let mut cands: Vec<String> = Vec::new();
    match vibe_pills {
        Some(pills) => push_pill_candidates(&mut cands, pills),
        None => {},
    }
    let ov_lower = chars_of(overview_lower);
    push_theme_candidates(&mut cands, &ov_lower);
    match genre_ids {
        Some(gids) => push_genre_candidates(&mut cands, gids),
        None => {},
    }
    push_fallback_candidates(&mut cands);
    assert(views(cands@) =~= vibe_candidates(pill_views(vibe_pills), gid_views(genre_ids), overview_lower@));
    let mut tags = gather_all(&cands);
    let ghost all = views(tags@);
    proof {
        let g = match gid_views(genre_ids) {
            Some(gs) => genre_candidates(gs),
            None => seq![],
        };
        let p = match pill_views(vibe_pills) {
            Some(ps) => pill_candidates(ps),
            None => seq![],
        };
        let pre = p + theme_candidates(overview_lower@, cue_count()) + g;
        assert(views(cands@) =~= pre + fallback_pool());
        lemma_vibe_tags_shape(pre);
    }
    tags.truncate(3);
    assert(views(tags@) =~= first_three(all));
    assert(distinct_ci(views(tags@))) by {
        assert forall|i: int, j: int|
            0 <= i < views(tags@).len() && 0 <= j < views(tags@).len() && i != j implies !eq_ascii_ci(
            #[trigger] views(tags@)[i],
            #[trigger] views(tags@)[j],
        ) by {
            assert(views(tags@)[i] == all[i] && views(tags@)[j] == all[j]);
        }
    }
    tags
}

} // verus!
