//! The content rows of the browse pages: the paged feed that fills a row
//! without repeating a title, the carousel's scroll geometry and page dots,
//! and the big rank numbers of the top-ten row.

use vstd::prelude::*;

verus! {

// ───────────────────────────── merging fetched pages ─────────────────────────────

/// `existing` followed by each id of `incoming`, in order, that is not
/// already present (neither in `existing` nor earlier in `incoming`).
pub open spec fn merged(existing: Seq<u32>, incoming: Seq<u32>) -> Seq<u32>
    decreases incoming.len(),
{
    if incoming.len() == 0 {
        existing
    } else {
        let m = merged(existing, incoming.drop_last());
        if m.contains(incoming.last()) {
            m
        } else {
            m.push(incoming.last())
        }
    }
}

/// The positions in `incoming` of the ids that `merged` appends, in order.
pub open spec fn fresh_positions(existing: Seq<u32>, incoming: Seq<u32>) -> Seq<int>
    decreases incoming.len(),
{
    if incoming.len() == 0 {
        Seq::empty()
    } else {
        let f = fresh_positions(existing, incoming.drop_last());
        if merged(existing, incoming.drop_last()).contains(incoming.last()) {
            f
        } else {
            f.push(incoming.len() - 1)
        }
    }
}

/// Merging keeps what was there as a prefix, appends exactly the ids at the
/// fresh positions, and those positions are increasing and in range.
pub proof fn lemma_merged_shape(existing: Seq<u32>, incoming: Seq<u32>)
    ensures
        merged(existing, incoming).len() == existing.len() + fresh_positions(existing, incoming).len(),
        merged(existing, incoming).subrange(0, existing.len() as int) == existing,
        forall|k: int|
            0 <= k < fresh_positions(existing, incoming).len() ==> {
                &&& 0 <= #[trigger] fresh_positions(existing, incoming)[k] < incoming.len()
                &&& merged(existing, incoming)[existing.len() + k] == incoming[fresh_positions(
                    existing,
                    incoming,
                )[k]]
            },
        forall|k: int, l: int|
            0 <= k < l < fresh_positions(existing, incoming).len() ==> fresh_positions(existing, incoming)[k]
                < fresh_positions(existing, incoming)[l],
    decreases incoming.len(),
{
    if incoming.len() > 0 {
        let prev = incoming.drop_last();
        lemma_merged_shape(existing, prev);
        let m = merged(existing, prev);
        let f = fresh_positions(existing, prev);
        if !m.contains(incoming.last()) {
            assert(m.push(incoming.last()).subrange(0, existing.len() as int) =~= m.subrange(
                0,
                existing.len() as int,
            ));
        }
        assert forall|k: int| 0 <= k < f.len() implies #[trigger] prev[f[k]] == incoming[f[k]] by {}
    }
}

/// Every id of the fetched page ends up in the row, and the row holds
/// nothing that was neither there before nor fetched.
pub proof fn lemma_merged_members(existing: Seq<u32>, incoming: Seq<u32>)
    ensures
        forall|x: u32| #[trigger] incoming.contains(x) ==> merged(existing, incoming).contains(x),
        forall|x: u32| existing.contains(x) ==> #[trigger] merged(existing, incoming).contains(x),
        forall|x: u32|
            #[trigger] merged(existing, incoming).contains(x) ==> existing.contains(x) || incoming.contains(x),
    decreases incoming.len(),
{
    if incoming.len() > 0 {
        let prev = incoming.drop_last();
        lemma_merged_members(existing, prev);
        let m = merged(existing, prev);
        assert forall|x: u32| #[trigger] incoming.contains(x) implies merged(existing, incoming).contains(x) by {
            let i = choose|i: int| 0 <= i < incoming.len() && incoming[i] == x;
            if i < incoming.len() - 1 {
                assert(prev[i] == x);
                assert(prev.contains(x));
                assert(m.contains(x));
                if !m.contains(incoming.last()) {
                    let j = choose|j: int| 0 <= j < m.len() && m[j] == x;
                    assert(m.push(incoming.last())[j] == x);
                }
            } else {
                if !m.contains(incoming.last()) {
                    assert(m.push(incoming.last())[m.len() as int] == x);
                }
            }
        }
        assert forall|x: u32| existing.contains(x) implies #[trigger] merged(existing, incoming).contains(x) by {
            assert(m.contains(x));
            if !m.contains(incoming.last()) {
                let j = choose|j: int| 0 <= j < m.len() && m[j] == x;
                assert(m.push(incoming.last())[j] == x);
            }
        }
        assert forall|x: u32| #[trigger] merged(existing, incoming).contains(x) implies existing.contains(x)
            || incoming.contains(x) by {
            let r = merged(existing, incoming);
            let j = choose|j: int| 0 <= j < r.len() && r[j] == x;
            if j < m.len() {
                assert(m[j] == x);
                assert(m.contains(x));
                if prev.contains(x) {
                    let i = choose|i: int| 0 <= i < prev.len() && prev[i] == x;
                    assert(incoming[i] == x);
                }
            } else {
                assert(incoming[incoming.len() - 1] == x);
            }
        }
    }
}

/// A row that held each id once still holds each id once after a page is
/// merged into it.
pub proof fn lemma_merged_distinct(existing: Seq<u32>, incoming: Seq<u32>)
    requires
        existing.no_duplicates(),
    ensures
        merged(existing, incoming).no_duplicates(),
    decreases incoming.len(),
{
    if incoming.len() > 0 {
        lemma_merged_distinct(existing, incoming.drop_last());
    }
}

/// Whether `v` holds `x`.
pub fn holds_id(v: &Vec<u32>, x: u32) -> (b: bool)
    ensures
        b == v@.contains(x),
{
    let n = v.len();
    let mut i: usize = 0;
    while i < n
        invariant
            n == v@.len(),
            i <= n,
            forall|j: int| 0 <= j < i ==> v@[j] != x,
        decreases n - i,
    {
        if v[i] == x {
            return true;
        }
        i = i + 1;
    }
    false
}

/// Appends to `ids` each fetched id not already present, in order, and
/// returns the positions in `incoming` of the ids it appended (so that the
/// caller appends the matching items).
pub fn merge_fetched(ids: &mut Vec<u32>, incoming: &[u32]) -> (appended: Vec<usize>)
    ensures
        final(ids)@ == merged(old(ids)@, incoming@),
        appended@.len() == fresh_positions(old(ids)@, incoming@).len(),
        forall|k: int| 0 <= k < appended@.len() ==> appended@[k] == fresh_positions(old(ids)@, incoming@)[k],
{
    let ghost start = ids@;
    let mut appended: Vec<usize> = Vec::new();
    let n = incoming.len();
    let mut i: usize = 0;
    while i < n
        invariant
            n == incoming@.len(),
            i <= n,
            ids@ == merged(start, incoming@.take(i as int)),
            appended@.len() == fresh_positions(start, incoming@.take(i as int)).len(),
            forall|k: int|
                0 <= k < appended@.len() ==> appended@[k] == fresh_positions(start, incoming@.take(i as int))[k],
        decreases n - i,
    {
        let ghost before = incoming@.take(i as int);
        assert(incoming@.take(i + 1).drop_last() =~= before);
        assert(incoming@.take(i + 1).last() == incoming@[i as int]);
        let x = incoming[i];
        if !holds_id(ids, x) {
            ids.push(x);
            appended.push(i);
        }
        i = i + 1;
    }
    assert(incoming@.take(n as int) =~= incoming@);
    appended
}

// ───────────────────────────── the paged feed ─────────────────────────────

/// What a row has loaded: the ids shown, in order, the next page to ask
/// for, whether more pages may come, and whether a request is in flight.
pub struct RowFeed {
    ids: Vec<u32>,
    page: u32,
    has_more: bool,
    is_fetching: bool,
}

/// The state of a row's feed as plain values.
pub struct FeedView {
    pub ids: Seq<u32>,
    pub page: nat,
    pub has_more: bool,
    pub is_fetching: bool,
}

impl View for RowFeed {
    type V = FeedView;

    closed spec fn view(&self) -> FeedView {
        FeedView { ids: self.ids@, page: self.page as nat, has_more: self.has_more, is_fetching: self.is_fetching }
    }
}

/// Each id is shown once and pages are counted from 1.
pub open spec fn feed_wf(v: FeedView) -> bool {
    v.ids.no_duplicates() && v.page >= 1
}

/// Whether a new request may start: none is in flight and the source has
/// not run dry.
pub open spec fn may_load(v: FeedView) -> bool {
    !v.is_fetching && v.has_more
}

/// The page a request starts for, if one may start.
pub open spec fn requested_page(v: FeedView) -> Option<nat> {
    if may_load(v) {
        Some(v.page)
    } else {
        None
    }
}

/// The feed once a request has started (unchanged when none may start).
pub open spec fn after_begin(v: FeedView) -> FeedView {
    if may_load(v) {
        FeedView { is_fetching: true, ..v }
    } else {
        v
    }
}

/// The feed once a fetched page has come in: an empty page ends the feed;
/// otherwise the new ids are appended and the page count moves on.
pub open spec fn after_finish(v: FeedView, fetched: Seq<u32>) -> FeedView {
    if fetched.len() == 0 {
        FeedView { has_more: false, is_fetching: false, ..v }
    } else {
        FeedView { ids: merged(v.ids, fetched), page: v.page + 1, is_fetching: false, ..v }
    }
}

impl RowFeed {
    /// Every row shows each id once and counts pages from 1.
    #[verifier::type_invariant]
    spec fn well_formed(&self) -> bool {
        feed_wf(self@)
    }

    /// The ids shown, in order.
    pub fn ids(&self) -> (v: &Vec<u32>)
        ensures
            v@ == self@.ids,
            feed_wf(self@),
    {
        proof {
            use_type_invariant(self);
        }
        &self.ids
    }

    /// The next page to ask for.
    pub fn page(&self) -> (p: u32)
        ensures
            p == self@.page,
    {
        self.page
    }

    /// Whether more pages may come.
    pub fn has_more(&self) -> (b: bool)
        ensures
            b == self@.has_more,
    {
        self.has_more
    }

    /// Whether a request is in flight.
    pub fn is_fetching(&self) -> (b: bool)
        ensures
            b == self@.is_fetching,
    {
        self.is_fetching
    }

    /// An empty row about to ask for its first page.
    pub fn new() -> (f: RowFeed)
        ensures
            feed_wf(f@),
            f@.ids == Seq::<u32>::empty(),
            f@.page == 1,
            f@.has_more,
            !f@.is_fetching,
    {
        RowFeed { ids: Vec::new(), page: 1, has_more: true, is_fetching: false }
    }

    /// Starts loading the next page: returns the page to fetch and marks the
    /// row as fetching; returns `None` and changes nothing while a request is
    /// in flight or once the source has run dry.
    pub fn begin_load(&mut self) -> (p: Option<u32>)
        ensures
            final(self)@ == after_begin(old(self)@),
            p matches Some(n) ==> requested_page(old(self)@) == Some(n as nat),
            p is None ==> requested_page(old(self)@) is None,
    {
        proof {
            use_type_invariant(&*self);
        }
        if self.is_fetching || !self.has_more {
            return None;
        }
        self.is_fetching = true;
        Some(self.page)
    }

    /// Takes in a fetched page (see `after_finish`) and returns the positions
    /// in `fetched` of the ids it appended, so that the caller appends the
    /// matching items.
    pub fn finish_load(&mut self, fetched: &[u32]) -> (appended: Vec<usize>)
        requires
            old(self)@.page < u32::MAX,
        ensures
            final(self)@ == after_finish(old(self)@, fetched@),
            feed_wf(final(self)@),
            appended@ == fresh_positions(old(self)@.ids, fetched@).map_values(|k: int| k as usize),
    {
        proof {
            use_type_invariant(&*self);
        }
        let appended: Vec<usize>;
        let ghost before = self.ids@;
        if fetched.len() == 0 {
            self.has_more = false;
            self.is_fetching = false;
            appended = Vec::new();
            assert(appended@ =~= fresh_positions(before, fetched@).map_values(|k: int| k as usize));
        } else {
            let mut taken = RowFeed::new();
            std::mem::swap(self, &mut taken);
            let RowFeed { mut ids, page, has_more, is_fetching: _ } = taken;
            appended = merge_fetched(&mut ids, fetched);
            proof {
                lemma_merged_distinct(before, fetched@);
                assert(appended@ =~= fresh_positions(before, fetched@).map_values(|k: int| k as usize));
            }
            *self = RowFeed { ids, page: page + 1, has_more, is_fetching: false };
        }
        appended
    }
}

/// Once a request has started, no second one starts until its page is in.
pub proof fn law_one_request_at_a_time(v: FeedView)
    ensures
        requested_page(after_begin(v)) is None,
{
}

/// A feed that has run dry stays dry: no request starts and a late page
/// does not revive it.
pub proof fn law_dry_feed_stays_dry(v: FeedView, fetched: Seq<u32>)
    requires
        !v.has_more,
    ensures
        requested_page(v) is None,
        !after_finish(v, fetched).has_more,
{
}

/// Taking in a page keeps each title once, keeps what was shown, in place,
/// and shows every title of the page.
pub proof fn law_page_merge(v: FeedView, fetched: Seq<u32>)
    requires
        feed_wf(v),
    ensures
        feed_wf(after_finish(v, fetched)),
        after_finish(v, fetched).ids.subrange(0, v.ids.len() as int) == v.ids,
        forall|x: u32| #[trigger] fetched.contains(x) ==> after_finish(v, fetched).ids.contains(x),
        forall|x: u32|
            #[trigger] after_finish(v, fetched).ids.contains(x) ==> v.ids.contains(x) || fetched.contains(x),
{
    lemma_merged_distinct(v.ids, fetched);
    lemma_merged_shape(v.ids, fetched);
    lemma_merged_members(v.ids, fetched);
    if fetched.len() == 0 {
        assert(v.ids.subrange(0, v.ids.len() as int) =~= v.ids);
    }
}

/// The feed after a row asks for one page after another, each request
/// answered with the next of `pages` (a failed fetch counts as an empty
/// page); once no request may start, later pages are never asked for.
pub open spec fn feed_run(v: FeedView, pages: Seq<Seq<u32>>) -> FeedView
    decreases pages.len(),
{
    if pages.len() == 0 {
        v
    } else {
        let w = feed_run(v, pages.drop_last());
        if may_load(w) {
            after_finish(after_begin(w), pages.last())
        } else {
            w
        }
    }
}

/// All the pages' ids, one page after the other.
pub open spec fn all_ids(pages: Seq<Seq<u32>>) -> Seq<u32>
    decreases pages.len(),
{
    if pages.len() == 0 {
        seq![]
    } else {
        all_ids(pages.drop_last()) + pages.last()
    }
}

/// A row with nothing loaded, about to ask for its first page.
pub open spec fn fresh_feed() -> FeedView {
    FeedView { ids: seq![], page: 1, has_more: true, is_fetching: false }
}

/// Merging two pages one after the other is merging them together.
proof fn lemma_merged_concat(existing: Seq<u32>, a: Seq<u32>, b: Seq<u32>)
    ensures
        merged(merged(existing, a), b) == merged(existing, a + b),
    decreases b.len(),
{
    if b.len() == 0 {
        assert(a + b =~= a);
    } else {
        lemma_merged_concat(existing, a, b.drop_last());
        assert((a + b).drop_last() =~= a + b.drop_last());
        assert((a + b).last() == b.last());
    }
}

/// Running the pages in two parts is running them all.
proof fn lemma_feed_run_split(v: FeedView, a: Seq<Seq<u32>>, b: Seq<Seq<u32>>)
    ensures
        feed_run(feed_run(v, a), b) == feed_run(v, a + b),
    decreases b.len(),
{
    if b.len() == 0 {
        assert(a + b =~= a);
    } else {
        lemma_feed_run_split(v, a, b.drop_last());
        assert((a + b).drop_last() =~= a + b.drop_last());
        assert((a + b).last() == b.last());
    }
}

/// A dry feed takes no page.
proof fn lemma_dry_run(v: FeedView, pages: Seq<Seq<u32>>)
    requires
        !v.has_more,
        !v.is_fetching,
    ensures
        feed_run(v, pages) == v,
    decreases pages.len(),
{
    if pages.len() > 0 {
        lemma_dry_run(v, pages.drop_last());
    }
}

/// From a fresh row, pages that all hold something show every title of
/// them once, first occurrences kept in order, and count one page each.
proof fn lemma_full_pages(pages: Seq<Seq<u32>>)
    requires
        forall|i: int| 0 <= i < pages.len() ==> (#[trigger] pages[i]).len() > 0,
    ensures
        feed_run(fresh_feed(), pages) == (FeedView {
            ids: merged(seq![], all_ids(pages)),
            page: 1 + pages.len(),
            has_more: true,
            is_fetching: false,
        }),
    decreases pages.len(),
{
    if pages.len() > 0 {
        let d = pages.drop_last();
        assert forall|i: int| 0 <= i < d.len() implies (#[trigger] d[i]).len() > 0 by {
            assert(d[i] == pages[i]);
        }
        lemma_full_pages(d);
        assert(pages.last() == pages[pages.len() - 1]);
        lemma_merged_concat(seq![], all_ids(d), pages.last());
    }
}

/// A row shows the pages it fetched one after the other, each title once
/// (its first occurrence, in order), counting one page per page that held
/// something. The first empty page ends the feed for good: no later page
/// is asked for.
pub proof fn law_feed_over_pages(pages: Seq<Seq<u32>>, k: int)
    requires
        0 <= k <= pages.len(),
        forall|i: int| 0 <= i < k ==> (#[trigger] pages[i]).len() > 0,
        k < pages.len() ==> pages[k].len() == 0,
    ensures
        ({
            let end = feed_run(fresh_feed(), pages);
            &&& end.ids == merged(seq![], all_ids(pages.take(k)))
            &&& end.ids.no_duplicates()
            &&& end.page == 1 + k
            &&& end.has_more == (k == pages.len())
            &&& !end.is_fetching
        }),
{
    let a = pages.take(k);
    assert forall|i: int| 0 <= i < a.len() implies (#[trigger] a[i]).len() > 0 by {
        assert(a[i] == pages[i]);
    }
    lemma_full_pages(a);
    lemma_merged_distinct(seq![], all_ids(a));
    if k < pages.len() {
        let b = pages.subrange(k, k + 1);
        let rest = pages.subrange(k + 1, pages.len() as int);
        let w = feed_run(fresh_feed(), a);
        let after = feed_run(fresh_feed(), a + b);
        lemma_feed_run_split(fresh_feed(), a, b);
        assert(b.drop_last() =~= Seq::<Seq<u32>>::empty());
        assert(feed_run(w, b.drop_last()) == w);
        assert(b.last() == pages[k]);
        assert(after == after_finish(after_begin(w), pages[k]));
        assert(!after.has_more && !after.is_fetching && after.ids == w.ids && after.page == w.page);
        lemma_dry_run(after, rest);
        lemma_feed_run_split(fresh_feed(), a + b, rest);
        assert(a + b + rest =~= pages);
    } else {
        assert(a =~= pages);
    }
}

// ───────────────────────────── carousel geometry ─────────────────────────────

/// Which way a carousel arrow scrolls.
#[derive(Clone, Copy, Debug, PartialEq, Eq, Structural)]
pub enum ScrollDirection {
    Left,
    Right,
}

/// The page gutter of a carousel at a given client width (pixels).
pub open spec fn gutter(client_w: int) -> int {
    if client_w >= 1750 {
        60
    } else if client_w >= 1350 {
        56
    } else if client_w >= 800 {
        48
    } else {
        16
    }
}

/// How far one arrow click scrolls: the width between the gutters plus the
/// card gap, at least 100 pixels.
pub open spec fn page_width(client_w: int) -> int {
    let w = client_w - 2 * gutter(client_w) + 6;
    if w > 100 {
        w
    } else {
        100
    }
}

/// The scroll step of a carousel.
pub fn scroll_step(client_w: i32) -> (w: i64)
    ensures
        w == page_width(client_w as int),
{
    let cw = client_w as i64;
    let g: i64 = if cw >= 1750 {
        60
    } else if cw >= 1350 {
        56
    } else if cw >= 800 {
        48
    } else {
        16
    };
    let w = cw - 2 * g + 6;
    if w > 100 {
        w
    } else {
        100
    }
}

/// Where an arrow click scrolls to: one step back, not before the start, or
/// one step on, not past the end.
pub open spec fn scroll_goal(dir: ScrollDirection, current: int, client_w: int, scroll_w: int) -> int {
    let step = page_width(client_w);
    match dir {
        ScrollDirection::Left => if current - step > 0 {
            current - step
        } else {
            0
        },
        ScrollDirection::Right => if current + step < scroll_w - client_w {
            current + step
        } else {
            scroll_w - client_w
        },
    }
}

/// The scroll position an arrow click moves the carousel to.
pub fn scroll_target(dir: ScrollDirection, current: i32, client_w: i32, scroll_w: i32) -> (t: i64)
    ensures
        t == scroll_goal(dir, current as int, client_w as int, scroll_w as int),
{
    let step = scroll_step(client_w);
    let cur = current as i64;
    match dir {
        ScrollDirection::Left => if cur - step > 0 {
            cur - step
        } else {
            0
        },
        ScrollDirection::Right => {
            let end = scroll_w as i64 - client_w as i64;
            if cur + step < end {
                cur + step
            } else {
                end
            }
        },
    }
}

/// Whether a click to the right should already ask for the next page: when
/// less than two widths of content are left.
pub fn should_prefetch(dir: ScrollDirection, current: i32, client_w: i32, scroll_w: i32) -> (b: bool)
    ensures
        b == (dir == ScrollDirection::Right && current + 2 * client_w >= scroll_w),
{
    match dir {
        ScrollDirection::Left => false,
        ScrollDirection::Right => current as i64 + 2 * (client_w as i64) >= scroll_w as i64,
    }
}

/// Which carousel arrows are live: left once scrolled more than 10 pixels,
/// right while more than 10 pixels of content lie beyond the view.
pub fn scroll_edges(current: i32, client_w: i32, scroll_w: i32) -> (e: (bool, bool))
    ensures
        e.0 == (current > 10),
        e.1 == (scroll_w > client_w + 10 && scroll_w - (current + client_w) > 10),
{
    let cur = current as i64;
    let cw = client_w as i64;
    let sw = scroll_w as i64;
    (cur > 10, sw > cw + 10 && sw - (cur + cw) > 10)
}

/// The page a feed row is on: the scroll offset plus three tenths of a page,
/// in whole pages (zero before the start).
pub open spec fn feed_page_at(current: int, client_w: int) -> int {
    let pw = page_width(client_w);
    let num = 10 * current + 3 * pw;
    if num < 0 {
        0
    } else {
        num / (10 * pw)
    }
}

/// The page index of a feed row at the given scroll offset.
pub fn feed_page_index(current: i32, client_w: i32) -> (p: usize)
    ensures
        p == feed_page_at(current as int, client_w as int),
{
    let pw = scroll_step(client_w);
    let num = 10 * (current as i64) + 3 * pw;
    if num < 0 {
        0
    } else {
        let den = 10 * pw;
        assert(num / den <= num / 1000) by (nonlinear_arith)
            requires
                num >= 0,
                den >= 1000,
        ;
        (num / den) as usize
    }
}

/// The page a themed row is on: the scroll offset over 85% of the client
/// width, rounded to the nearest whole page (zero before the start).
pub open spec fn vibe_page_at(current: int, client_w: int) -> int {
    if current <= 0 {
        0
    } else {
        (200 * current + 85 * client_w) / (170 * client_w)
    }
}

/// The page index of a themed row; `None` while the row has no width.
pub fn vibe_page_index(current: i32, client_w: i32) -> (p: Option<usize>)
    ensures
        client_w <= 0 ==> p is None,
        client_w > 0 ==> p == Some(vibe_page_at(current as int, client_w as int) as usize),
{
    if client_w <= 0 {
        return None;
    }
    if current <= 0 {
        return Some(0);
    }
    let num = 200 * (current as i64) + 85 * (client_w as i64);
    let den = 170 * (client_w as i64);
    assert(num / den <= num / 170) by (nonlinear_arith)
        requires
            num >= 0,
            den >= 170,
    ;
    Some((num / den) as usize)
}

/// How many page dots a row of `count` titles shows: none up to four
/// titles, else a quarter of the count, between two and six.
pub open spec fn dot_count(count: int) -> int {
    if count <= 4 {
        0
    } else if count / 4 < 2 {
        2
    } else if count / 4 > 6 {
        6
    } else {
        count / 4
    }
}

/// The page dots of a row: one flag per dot, set on the current page's dot.
pub fn page_dots(count: usize, current: usize) -> (dots: Vec<bool>)
    ensures
        dots@.len() == dot_count(count as int),
        forall|i: int| 0 <= i < dots@.len() ==> dots@[i] == (i == current),
{
    let n: usize = if count <= 4 {
        0
    } else if count / 4 < 2 {
        2
    } else if count / 4 > 6 {
        6
    } else {
        count / 4
    };
    let mut dots: Vec<bool> = Vec::new();
    let mut i: usize = 0;
    while i < n
        invariant
            i <= n,
            n == dot_count(count as int),
            dots@.len() == i,
            forall|j: int| 0 <= j < i ==> dots@[j] == (j == current),
        decreases n - i,
    {
        dots.push(i == current);
        i = i + 1;
    }
    dots
}

// ───────────────────────────── the top-ten row ─────────────────────────────

/// How many titles the top-ten row shows at most.
pub const TOP_TEN: usize = 10;

/// The first ten titles of a list (all of them when fewer).
pub fn first_ten<T>(v: Vec<T>) -> (r: Vec<T>)
    ensures
        r@ == (if v@.len() <= 10 {
            v@
        } else {
            v@.take(10)
        }),
{
    let mut r = v;
    r.truncate(TOP_TEN);
    proof {
        if r@.len() > 10 {
            assert(false);
        }
    }
    assert(r@ =~= (if v@.len() <= 10 {
        v@
    } else {
        v@.take(10)
    }));
    r
}

/// The titles the top-ten row shows when it is handed a list: its first
/// ten, unless the list is missing or empty, in which case the row fetches
/// the trending titles itself (`None`).
pub fn given_top_ten<T>(given: Option<Vec<T>>) -> (r: Option<Vec<T>>)
    ensures
        match given {
            Some(v) => if v@.len() > 0 {
                r is Some && r->0@ == (if v@.len() <= 10 {
                    v@
                } else {
                    v@.take(10)
                })
            } else {
                r is None
            },
            None => r is None,
        },
{
    match given {
        Some(v) => if v.len() > 0 {
            Some(first_ten(v))
        } else {
            None
        },
        None => None,
    }
}

/// The width classes of a rank number: widest for 10, wide for 1.
pub fn rank_width_class(index: usize) -> (s: &'static str)
    ensures
        s@ == (if index == 9 {
            "w-[130px] sm:w-[140px] md:w-[150px] lg:w-[185px]"@
        } else if index == 0 {
            "w-[105px] sm:w-[115px] md:w-[125px] lg:w-[155px]"@
        } else {
            "w-[95px] sm:w-[105px] md:w-[115px] lg:w-[145px]"@
        }),
{
    if index == 9 {
        "w-[130px] sm:w-[140px] md:w-[150px] lg:w-[185px]"
    } else if index == 0 {
        "w-[105px] sm:w-[115px] md:w-[125px] lg:w-[155px]"
    } else {
        "w-[95px] sm:w-[105px] md:w-[115px] lg:w-[145px]"
    }
}

/// The letter spacing of a rank number: tighter for the two digits of 10.
pub fn rank_letter_spacing(index: usize) -> (s: &'static str)
    ensures
        s@ == (if index == 9 {
            "-15px"@
        } else {
            "-5px"@
        }),
{
    if index == 9 {
        "-15px"
    } else {
        "-5px"
    }
}

/// The left padding that makes room for a card's rank number.
pub fn rank_padding_class(index: usize) -> (s: &'static str)
    ensures
        s@ == (if index == 9 {
            "pl-[110px] sm:pl-[120px] md:pl-[130px] lg:pl-[165px]"@
        } else {
            "pl-[75px] sm:pl-[85px] md:pl-[95px] lg:pl-[125px]"@
        }),
{
    if index == 9 {
        "pl-[110px] sm:pl-[120px] md:pl-[130px] lg:pl-[165px]"
    } else {
        "pl-[75px] sm:pl-[85px] md:pl-[95px] lg:pl-[125px]"
    }
}

/// The rank printed for the card at `index`: `index + 1`.
pub fn rank_label(index: usize) -> (s: String)
    requires
        index < usize::MAX,
    ensures
        s@ == crate::text::decimal((index + 1) as nat),
{
    let mut s = String::new();
    crate::text::push_decimal(&mut s, (index + 1) as u64);
    s
}

} // verus!
