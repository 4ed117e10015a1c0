//! The genre menus under the navbar: genres sorted by name (ties keep their
//! order) and laid out in three columns read top to bottom, the mobile
//! genre pill, and the tabs of the mobile "New & Hot" page.

use vstd::prelude::*;
use crate::text::chars_of;

verus! {

/// A genre offered by a category menu.
#[derive(Clone, Debug)]
pub struct SubNavGenre {
    pub id: u32,
    pub name: String,
}

// ───────────────────────────── name order ─────────────────────────────

/// Whether name `a` sorts strictly before name `b`: the first differing
/// char decides by code point, and a proper prefix sorts first. Comparing
/// code points orders strings exactly as comparing their UTF-8 bytes does.
pub open spec fn name_lt(a: Seq<char>, b: Seq<char>) -> bool
    decreases a.len(),
{
    if a.len() == 0 {
        b.len() > 0
    } else if b.len() == 0 {
        false
    } else if a[0] != b[0] {
        (a[0] as int) < (b[0] as int)
    } else {
        name_lt(a.drop_first(), b.drop_first())
    }
}

/// The name order is transitive.
pub proof fn lemma_name_lt_transitive(a: Seq<char>, b: Seq<char>, c: Seq<char>)
    requires
        name_lt(a, b),
        name_lt(b, c),
    ensures
        name_lt(a, c),
    decreases a.len(),
{
    if a.len() > 0 && b.len() > 0 && c.len() > 0 {
        if a[0] == b[0] && b[0] == c[0] {
            lemma_name_lt_transitive(a.drop_first(), b.drop_first(), c.drop_first());
        }
    }
}

/// Of two different names, one sorts before the other.
pub proof fn lemma_name_lt_total(a: Seq<char>, b: Seq<char>)
    requires
        a != b,
    ensures
        name_lt(a, b) || name_lt(b, a),
    decreases a.len(),
{
    if a.len() > 0 && b.len() > 0 && a[0] == b[0] {
        if a.drop_first() == b.drop_first() {
            assert(a =~= seq![a[0]] + a.drop_first());
            assert(b =~= seq![b[0]] + b.drop_first());
            assert(false);
        } else {
            lemma_name_lt_total(a.drop_first(), b.drop_first());
        }
    } else if a.len() == 0 && b.len() == 0 {
        assert(a =~= b);
    } else if a.len() > 0 && b.len() > 0 {
        assert((a[0] as int) != (b[0] as int));
    }
}

/// Whether `a` sorts strictly before `b`.
pub fn chars_lt(a: &Vec<char>, b: &Vec<char>) -> (r: bool)
    ensures
        r == name_lt(a@, b@),
{
    let na = a.len();
    let nb = b.len();
    let mut i: usize = 0;
    assert(a@.skip(0) =~= a@);
    assert(b@.skip(0) =~= b@);
    while i < na && i < nb
        invariant
            na == a@.len(),
            nb == b@.len(),
            i <= na,
            i <= nb,
            name_lt(a@, b@) == name_lt(a@.skip(i as int), b@.skip(i as int)),
        decreases na - i,
    {
        let ghost sa = a@.skip(i as int);
        let ghost sb = b@.skip(i as int);
        assert(sa[0] == a@[i as int]);
        assert(sb[0] == b@[i as int]);
        let ca = a[i];
        let cb = b[i];
        if ca != cb {
            assert(name_lt(sa, sb) == ((ca as int) < (cb as int)));
            return ca < cb;
        }
        assert(sa.drop_first() =~= a@.skip(i + 1));
        assert(sb.drop_first() =~= b@.skip(i + 1));
        i = i + 1;
    }
    assert(a@.skip(i as int).len() == na - i);
    assert(b@.skip(i as int).len() == nb - i);
    i == na && i < nb
}

// ───────────────────────────── stable sort by name ─────────────────────────────

/// The names of the genres.
pub open spec fn genre_names(g: Seq<SubNavGenre>) -> Seq<Seq<char>> {
    g.map_values(|x: SubNavGenre| x.name@)
}

/// Whether genre `i` is listed before genre `j`: by name, and by given
/// position between equal names.
pub open spec fn listed_before(names: Seq<Seq<char>>, i: int, j: int) -> bool {
    name_lt(names[i], names[j]) || (names[i] == names[j] && i < j)
}

/// `listed_before` is transitive.
pub proof fn lemma_listed_before_transitive(names: Seq<Seq<char>>, i: int, j: int, l: int)
    requires
        listed_before(names, i, j),
        listed_before(names, j, l),
    ensures
        listed_before(names, i, l),
{
    if name_lt(names[i], names[j]) && name_lt(names[j], names[l]) {
        lemma_name_lt_transitive(names[i], names[j], names[l]);
    }
}

/// Whether `order` lists positions strictly by `listed_before`.
pub open spec fn ordered_by_name(names: Seq<Seq<char>>, order: Seq<usize>) -> bool {
    forall|p: int, q: int|
        0 <= p < q < order.len() ==> listed_before(names, #[trigger] order[p] as int, #[trigger] order[q] as int)
}

/// The order in which a category menu lists its genres, as positions in
/// `genres`: every position once, sorted by name, equal names kept in
/// their given order (the one such order).
pub fn genre_order(genres: &[SubNavGenre]) -> (order: Vec<usize>)
    ensures
        order@.len() == genres@.len(),
        forall|p: int| 0 <= p < order@.len() ==> order@[p] < genres@.len(),
        forall|j: int| 0 <= j < genres@.len() ==> #[trigger] order@.contains(j as usize),
        ordered_by_name(genre_names(genres@), order@),
{
    let ghost nm = genre_names(genres@);
    let n = genres.len();
    let mut names: Vec<Vec<char>> = Vec::new();
    let mut i: usize = 0;
    while i < n
        invariant
            n == genres@.len(),
            nm == genre_names(genres@),
            i <= n,
            names@.len() == i,
            forall|j: int| 0 <= j < i ==> (#[trigger] names@[j])@ == nm[j],
        decreases n - i,
    {
        names.push(chars_of(genres[i].name.as_str()));
        i = i + 1;
    }
    let mut order: Vec<usize> = Vec::new();
    i = 0;
    while i < n
        invariant
            n == genres@.len(),
            nm == genre_names(genres@),
            names@.len() == n,
            forall|j: int| 0 <= j < n ==> (#[trigger] names@[j])@ == nm[j],
            i <= n,
            order@.len() == i,
            forall|p: int| 0 <= p < order@.len() ==> order@[p] < i,
            forall|j: int| 0 <= j < i ==> #[trigger] order@.contains(j as usize),
            ordered_by_name(nm, order@),
        decreases n - i,
    {
        let mut k: usize = 0;
        while k < order.len() && !chars_lt(&names[i], &names[order[k]])
            invariant
                n == genres@.len(),
                i < n,
                names@.len() == n,
                forall|j: int| 0 <= j < n ==> (#[trigger] names@[j])@ == nm[j],
                forall|p: int| 0 <= p < order@.len() ==> order@[p] < i,
                k <= order@.len(),
                forall|p: int| 0 <= p < k ==> !name_lt(nm[i as int], #[trigger] nm[order@[p] as int]),
            decreases order@.len() - k,
        {
            k = k + 1;
        }
        let ghost old_order = order@;
        proof {
            assert forall|p: int| 0 <= p < k implies listed_before(nm, #[trigger] old_order[p] as int, i as int) by {
                let o = old_order[p] as int;
                assert(!name_lt(nm[i as int], nm[o]));
                if nm[o] != nm[i as int] {
                    lemma_name_lt_total(nm[o], nm[i as int]);
                }
            }
            if k < old_order.len() {
                assert(name_lt(nm[i as int], nm[old_order[k as int] as int]));
            }
        }
        order.insert(k, i);
        proof {
            let no = order@;
            assert(no =~= old_order.insert(k as int, i));
            assert forall|p: int, q: int| 0 <= p < q < no.len() implies listed_before(
                nm,
                #[trigger] no[p] as int,
                #[trigger] no[q] as int,
            ) by {
                if p < k && q < k {
                    assert(no[p] == old_order[p] && no[q] == old_order[q]);
                } else if p < k && q == k {
                    assert(no[p] == old_order[p]);
                } else if p < k && q > k {
                    assert(no[p] == old_order[p] && no[q] == old_order[q - 1]);
                    if p < q - 1 {
                        assert(listed_before(nm, old_order[p] as int, old_order[q - 1] as int));
                    }
                    assert(listed_before(nm, old_order[p] as int, i as int));
                    assert(listed_before(nm, i as int, old_order[k as int] as int));
                    lemma_listed_before_transitive(nm, old_order[p] as int, i as int, old_order[k as int] as int);
                    if k < q - 1 {
                        assert(listed_before(nm, old_order[k as int] as int, old_order[q - 1] as int));
                        lemma_listed_before_transitive(
                            nm,
                            old_order[p] as int,
                            old_order[k as int] as int,
                            old_order[q - 1] as int,
                        );
                    }
                } else if p == k {
                    assert(no[q] == old_order[q - 1]);
                    assert(listed_before(nm, i as int, old_order[k as int] as int));
                    if k < q - 1 {
                        assert(listed_before(nm, old_order[k as int] as int, old_order[q - 1] as int));
                        lemma_listed_before_transitive(
                            nm,
                            i as int,
                            old_order[k as int] as int,
                            old_order[q - 1] as int,
                        );
                    }
                } else {
                    assert(no[p] == old_order[p - 1] && no[q] == old_order[q - 1]);
                    assert(listed_before(nm, old_order[p - 1] as int, old_order[q - 1] as int));
                }
            }
            assert forall|j: int| 0 <= j < i + 1 implies #[trigger] no.contains(j as usize) by {
                if j == i {
                    assert(no[k as int] == i);
                } else {
                    assert(old_order.contains(j as usize));
                    let p = choose|p: int| 0 <= p < old_order.len() && old_order[p] == j as usize;
                    if p < k {
                        assert(no[p] == j as usize);
                    } else {
                        assert(no[p + 1] == j as usize);
                    }
                }
            }
        }
        i = i + 1;
    }
    order
}

/// The genres of a category menu in the order the menu lists them.
pub fn sorted_genres(genres: &[SubNavGenre]) -> (s: Vec<SubNavGenre>)
    ensures
        exists|order: Seq<usize>|
            {
                &&& order.len() == genres@.len()
                &&& forall|j: int| 0 <= j < genres@.len() ==> #[trigger] order.contains(j as usize)
                &&& ordered_by_name(genre_names(genres@), order)
                &&& s@.len() == order.len()
                &&& forall|p: int|
                    0 <= p < order.len() ==> order[p] < genres@.len() && #[trigger] s@[p].id
                        == genres@[order[p] as int].id && s@[p].name@ == genres@[order[p] as int].name@
            },
{
    let order = genre_order(genres);
    let mut s: Vec<SubNavGenre> = Vec::new();
    let mut p: usize = 0;
    while p < order.len()
        invariant
            order@.len() == genres@.len(),
            forall|q: int| 0 <= q < order@.len() ==> order@[q] < genres@.len(),
            p <= order@.len(),
            s@.len() == p,
            forall|q: int|
                0 <= q < p ==> #[trigger] s@[q].id == genres@[order@[q] as int].id && s@[q].name@
                    == genres@[order@[q] as int].name@,
        decreases order@.len() - p,
    {
        let g = &genres[order[p]];
        s.push(SubNavGenre { id: g.id, name: g.name.clone() });
        p = p + 1;
    }
    assert(s@.len() == order@.len());
    s
}

// ───────────────────────────── three-column menu ─────────────────────────────

/// The number of rows of a three-column menu of `count` entries.
pub open spec fn menu_rows(count: int) -> int {
    (count + 2) / 3
}

/// The entry shown in cell `cell` of a three-column menu laid out column by
/// column: cells run row by row, and the cell in row `r`, column `c` shows
/// entry `c * rows + r` when there is one.
pub open spec fn menu_entry(count: int, cell: int) -> Option<int> {
    let rows = menu_rows(count);
    let idx = (cell % 3) * rows + cell / 3;
    if idx < count {
        Some(idx)
    } else {
        None
    }
}

/// The cells of the desktop genre menu, row by row, each holding the
/// position in the sorted list of the genre it shows (or nothing).
pub fn menu_cells(count: usize) -> (cells: Vec<Option<usize>>)
    ensures
        cells@.len() == 3 * menu_rows(count as int),
        forall|k: int|
            0 <= k < cells@.len() ==> match #[trigger] cells@[k] {
                Some(x) => menu_entry(count as int, k) == Some(x as int),
                None => menu_entry(count as int, k) is None,
            },
{
    let rows: usize = count / 3 + (if count % 3 > 0 {
        1
    } else {
        0
    });
    assert(rows == menu_rows(count as int));
    let mut cells: Vec<Option<usize>> = Vec::new();
    let mut r: usize = 0;
    while r < rows
        invariant
            rows == menu_rows(count as int),
            r <= rows,
            cells@.len() == 3 * r,
            forall|k: int|
                0 <= k < cells@.len() ==> match #[trigger] cells@[k] {
                    Some(x) => menu_entry(count as int, k) == Some(x as int),
                    None => menu_entry(count as int, k) is None,
                },
        decreases rows - r,
    {
        let mut c: usize = 0;
        while c < 3
            invariant
                rows == menu_rows(count as int),
                r < rows,
                c <= 3,
                cells@.len() == 3 * r + c,
                forall|k: int|
                    0 <= k < cells@.len() ==> match #[trigger] cells@[k] {
                        Some(x) => menu_entry(count as int, k) == Some(x as int),
                        None => menu_entry(count as int, k) is None,
                    },
            decreases 3 - c,
        {
            let idx: usize = if c == 0 {
                r
            } else if c == 1 {
                rows + r
            } else {
                rows + rows + r
            };
            let ghost cell = 3 * r + c;
            assert(cell % 3 == c && cell / 3 == r);
            assert(idx == (cell % 3) * rows + cell / 3) by {
                if c == 1 {
                    assert((cell % 3) * rows == rows);
                } else if c == 2 {
                    assert((cell % 3) * rows == rows + rows);
                }
            }
            if idx < count {
                cells.push(Some(idx));
            } else {
                cells.push(None);
            }
            c = c + 1;
        }
        r = r + 1;
    }
    cells
}

// ───────────────────────────── mobile pills ─────────────────────────────

/// What tapping the mobile genre pill does.
#[derive(Clone, Copy, Debug, PartialEq, Eq, Structural)]
pub enum GenrePillTap {
    /// Clear the selected genre.
    ClearGenre,
    /// Open or close the genre sheet.
    ToggleSheet,
}

/// A tap on the genre pill clears the selected genre if there is one,
/// else opens or closes the genre sheet.
pub fn genre_pill_tap(has_selected_genre: bool) -> (t: GenrePillTap)
    ensures
        t == (if has_selected_genre {
            GenrePillTap::ClearGenre
        } else {
            GenrePillTap::ToggleSheet
        }),
{
    if has_selected_genre {
        GenrePillTap::ClearGenre
    } else {
        GenrePillTap::ToggleSheet
    }
}

/// The tabs of the mobile "New & Hot" page.
#[derive(Clone, Copy, Debug, PartialEq, Eq, Structural)]
pub enum NewPopularTab {
    Watching,
    JustLanded,
    Top10Movies,
    Top10Series,
    ComingSoon,
}

/// The tabs in the order they are shown.
pub fn new_popular_tabs() -> (tabs: Vec<NewPopularTab>)
    ensures
        tabs@ == seq![
            NewPopularTab::Watching,
            NewPopularTab::JustLanded,
            NewPopularTab::Top10Movies,
            NewPopularTab::Top10Series,
            NewPopularTab::ComingSoon,
        ],
{
    let tabs = vec![
        NewPopularTab::Watching,
        NewPopularTab::JustLanded,
        NewPopularTab::Top10Movies,
        NewPopularTab::Top10Series,
        NewPopularTab::ComingSoon,
    ];
    assert(tabs@ =~= seq![
        NewPopularTab::Watching,
        NewPopularTab::JustLanded,
        NewPopularTab::Top10Movies,
        NewPopularTab::Top10Series,
        NewPopularTab::ComingSoon,
    ]);
    tabs
}

/// The label of a "New & Hot" tab.
pub fn new_popular_label(tab: NewPopularTab) -> (s: &'static str)
    ensures
        s@ == match tab {
            NewPopularTab::Watching => "Everyone's Watching"@,
            NewPopularTab::JustLanded => "Just Landed"@,
            NewPopularTab::Top10Movies => "Top 10 Movies"@,
            NewPopularTab::Top10Series => "Top 10 Series"@,
            NewPopularTab::ComingSoon => "Coming Soon"@,
        },
{
    match tab {
        NewPopularTab::Watching => "Everyone's Watching",
        NewPopularTab::JustLanded => "Just Landed",
        NewPopularTab::Top10Movies => "Top 10 Movies",
        NewPopularTab::Top10Series => "Top 10 Series",
        NewPopularTab::ComingSoon => "Coming Soon",
    }
}

/// The corner rounding of a pill in a joined strip of `total` pills: round
/// on the outer side of the first and last.
pub fn pill_corners(idx: usize, total: usize) -> (s: &'static str)
    ensures
        s@ == (if idx == 0 {
            "rounded-l-[20px] rounded-r-[10px]"@
        } else if idx + 1 == total {
            "rounded-l-[10px] rounded-r-[20px]"@
        } else {
            "rounded-[10px]"@
        }),
{
    if idx == 0 {
        "rounded-l-[20px] rounded-r-[10px]"
    } else if total >= 1 && idx == total - 1 {
        "rounded-l-[10px] rounded-r-[20px]"
    } else {
        "rounded-[10px]"
    }
}

} // verus!
