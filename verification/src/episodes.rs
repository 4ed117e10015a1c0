//! The episode and recommendation lists of the details modal and the
//! player's episode drawer: how many entries show, the "show more / show
//! less" toggle, and the captions of an episode.

use vstd::prelude::*;
use crate::text::{decimal, push_decimal, string_of};

verus! {

/// How many episodes the details modal adds per "show more".
pub const EPISODE_BATCH: usize = 6;

/// How many recommendations the details modal adds per "show more".
pub const RECOMMENDATION_BATCH: usize = 9;

// ───────────────────────────── batched lists ─────────────────────────────

/// A list shown a batch at a time: how many entries are asked for, and the
/// batch size. Its count is always a whole, positive number of batches.
pub struct Batched {
    visible: usize,
    batch: usize,
}

/// A batched list as plain numbers.
pub struct BatchedView {
    pub visible: nat,
    pub batch: nat,
}

impl View for Batched {
    type V = BatchedView;

    closed spec fn view(&self) -> BatchedView {
        BatchedView { visible: self.visible as nat, batch: self.batch as nat }
    }
}

/// The count asked for is a whole, positive number of batches.
pub open spec fn batched_wf(b: BatchedView) -> bool {
    b.batch > 0 && b.visible >= b.batch && b.visible % b.batch == 0
}

/// Whether entries remain beyond those shown.
pub open spec fn more_left(b: BatchedView, total: int) -> bool {
    b.visible < total
}

/// How many entries show: those asked for, at most all there are.
pub open spec fn shown_count(b: BatchedView, total: int) -> int {
    if b.visible < total {
        b.visible as int
    } else {
        total
    }
}

/// Whether the toggle shows: while entries remain, or after more than one
/// batch was opened.
pub open spec fn toggle_shown(b: BatchedView, total: int) -> bool {
    more_left(b, total) || b.visible > b.batch
}

/// The list after pressing the toggle: one batch more while entries
/// remain, else back to the first batch.
pub open spec fn after_toggle(b: BatchedView, total: int) -> BatchedView {
    if more_left(b, total) {
        BatchedView { visible: b.visible + b.batch, ..b }
    } else {
        BatchedView { visible: b.batch, ..b }
    }
}

impl Batched {
    /// Every list keeps a whole, positive number of batches.
    #[verifier::type_invariant]
    spec fn well_formed(&self) -> bool {
        batched_wf(self@)
    }

    /// A list showing its first batch.
    pub fn new(batch: usize) -> (b: Batched)
        requires
            batch > 0,
        ensures
            batched_wf(b@),
            b@.visible == batch,
            b@.batch == batch,
    {
        proof {
            vstd::arithmetic::div_mod::lemma_mod_self_0(batch as int);
        }
        Batched { visible: batch, batch }
    }

    /// How many entries are asked for.
    pub fn visible(&self) -> (v: usize)
        ensures
            v == self@.visible,
            batched_wf(self@),
    {
        proof {
            use_type_invariant(self);
        }
        self.visible
    }

    /// The batch size.
    pub fn batch(&self) -> (n: usize)
        ensures
            n == self@.batch,
    {
        self.batch
    }

    /// How many of `total` entries show.
    pub fn shown(&self, total: usize) -> (n: usize)
        ensures
            n == shown_count(self@, total as int),
    {
        if self.visible < total {
            self.visible
        } else {
            total
        }
    }

    /// Whether entries remain beyond those shown.
    pub fn has_more(&self, total: usize) -> (b: bool)
        ensures
            b == more_left(self@, total as int),
    {
        self.visible < total
    }

    /// Whether the show more / show less toggle shows.
    pub fn shows_toggle(&self, total: usize) -> (b: bool)
        ensures
            b == toggle_shown(self@, total as int),
    {
        self.visible < total || self.visible > self.batch
    }

    /// Presses the toggle (see `after_toggle`); one batch more must still
    /// fit the machine's `usize`.
    pub fn toggle(&mut self, total: usize)
        requires
            more_left(old(self)@, total as int) ==> old(self)@.visible + old(self)@.batch <= usize::MAX,
        ensures
            final(self)@ == after_toggle(old(self)@, total as int),
            batched_wf(final(self)@),
    {
        proof {
            use_type_invariant(&*self);
        }
        if self.visible < total {
            proof {
                vstd::arithmetic::div_mod::lemma_mod_adds(self.visible as int, self.batch as int, self.batch as int);
                vstd::arithmetic::div_mod::lemma_mod_self_0(self.batch as int);
            }
            self.visible = self.visible + self.batch;
        } else {
            proof {
                vstd::arithmetic::div_mod::lemma_mod_self_0(self.batch as int);
            }
            self.visible = self.batch;
        }
    }

    /// Goes back to the first batch (another season was chosen).
    pub fn reset(&mut self)
        ensures
            final(self)@.visible == old(self)@.batch,
            final(self)@.batch == old(self)@.batch,
            batched_wf(final(self)@),
    {
        proof {
            use_type_invariant(&*self);
            vstd::arithmetic::div_mod::lemma_mod_self_0(self.batch as int);
        }
        self.visible = self.batch;
    }
}

/// Pressing the toggle once everything shows folds the list back to its
/// first batch, and the toggle then stays for as long as entries remain.
pub proof fn law_toggle_folds_back(b: BatchedView, total: int)
    requires
        batched_wf(b),
        !more_left(b, total),
    ensures
        after_toggle(b, total).visible == b.batch,
        shown_count(after_toggle(b, total), total) == (if b.batch < total {
            b.batch as int
        } else {
            total
        }),
{
}

/// Each "show more" shows one batch more, up to all entries.
pub proof fn law_show_more_grows(b: BatchedView, total: int)
    requires
        batched_wf(b),
        more_left(b, total),
    ensures
        shown_count(after_toggle(b, total), total) > shown_count(b, total),
        shown_count(after_toggle(b, total), total) <= shown_count(b, total) + b.batch,
{
}

/// The list after `n` presses of the toggle.
pub open spec fn after_presses(b: BatchedView, total: int, n: nat) -> BatchedView
    decreases n,
{
    if n == 0 {
        b
    } else {
        after_toggle(after_presses(b, total, (n - 1) as nat), total)
    }
}

/// How many batches it takes to show all `total` entries (one at least).
pub open spec fn batches_needed(batch: int, total: int) -> int {
    if total <= batch {
        1
    } else {
        (total - 1) / batch + 1
    }
}

/// One batch short of the batches needed leaves entries out; all of them
/// leave none.
proof fn lemma_batches_needed(batch: int, total: int)
    requires
        batch > 0,
    ensures
        batches_needed(batch, total) >= 1,
        batch * (batches_needed(batch, total) - 1) < total || batches_needed(batch, total) == 1,
        batch * batches_needed(batch, total) >= total,
{
    if total > batch {
        let q = (total - 1) / batch;
        assert(batch * q <= total - 1 && total - 1 < batch * q + batch) by (nonlinear_arith)
            requires
                batch > 0,
                total - 1 >= 0,
                q == (total - 1) / batch,
        ;
        assert(batch * (q + 1) == batch * q + batch) by (nonlinear_arith);
        assert(q >= 1) by (nonlinear_arith)
            requires
                batch > 0,
                total > batch,
                q == (total - 1) / batch,
        ;
    }
}

/// Pressing the toggle again and again cycles through the batches: from
/// the first batch, after `n` presses the list asks for `1 + n mod m`
/// batches, where `m` batches show all entries, and it shows that many
/// entries, at most all there are.
pub proof fn law_toggle_cycles(b: BatchedView, total: int, n: nat)
    requires
        batched_wf(b),
        b.visible == b.batch,
        0 <= total,
    ensures
        after_presses(b, total, n).batch == b.batch,
        after_presses(b, total, n).visible == b.batch * (1 + (n as int) % batches_needed(b.batch as int, total)),
        shown_count(after_presses(b, total, n), total) == (if b.batch * (1 + (n as int) % batches_needed(
            b.batch as int,
            total,
        )) < total {
            b.batch * (1 + (n as int) % batches_needed(b.batch as int, total))
        } else {
            total
        }),
    decreases n,
{
    let batch = b.batch as int;
    let m = batches_needed(batch, total);
    lemma_batches_needed(batch, total);
    if n == 0 {
        assert(0int % m == 0) by (nonlinear_arith)
            requires
                m >= 1,
        ;
        assert(batch * 1 == batch);
    } else {
        let k = (n - 1) as nat;
        law_toggle_cycles(b, total, k);
        let prev = after_presses(b, total, k);
        let r = (k as int) % m;
        assert(0 <= r < m) by (nonlinear_arith)
            requires
                m >= 1,
                r == (k as int) % m,
        ;
        assert(prev.visible == batch * (1 + r));
        if r + 1 < m {
            assert(batch * (1 + r) <= batch * (m - 1)) by (nonlinear_arith)
                requires
                    batch > 0,
                    r + 1 <= m - 1,
            ;
            assert(more_left(prev, total));
            assert(batch * (1 + r) + batch == batch * (2 + r)) by (nonlinear_arith);
            assert((n as int) % m == r + 1) by (nonlinear_arith)
                requires
                    m >= 1,
                    r == (k as int) % m,
                    r + 1 < m,
                    n == k + 1,
            ;
        } else {
            assert(r + 1 == m);
            assert(!more_left(prev, total));
            assert((n as int) % m == 0) by (nonlinear_arith)
                requires
                    m >= 1,
                    r == (k as int) % m,
                    r + 1 == m,
                    n == k + 1,
            ;
            assert(batch * (1 + 0) == batch);
        }
    }
}

// ───────────────────────────── episode captions ─────────────────────────────

/// The runtime caption of an episode: `"<minutes>m"`, empty when unknown.
pub fn runtime_caption(runtime: Option<u32>) -> (s: String)
    ensures
        s@ == match runtime {
            Some(r) => decimal(r as nat) + "m"@,
            None => Seq::<char>::empty(),
        },
{
    match runtime {
        Some(r) => {
            let mut s = String::new();
            push_decimal(&mut s, r as u64);
            s.append("m");
            s
        },
        None => String::new(),
    }
}

/// The synopsis shown for an entry: its own, or a placeholder when empty.
pub fn synopsis_or_placeholder(overview: &str) -> (s: String)
    ensures
        s@ == (if overview@.len() == 0 {
            "No description available."@
        } else {
            overview@
        }),
{
    if overview.unicode_len() == 0 {
        string_of("No description available.")
    } else {
        string_of(overview)
    }
}

/// The drawer's episode heading, `"<number>. <name>"`.
pub fn episode_heading(number: u32, name: &str) -> (s: String)
    ensures
        s@ == decimal(number as nat) + ". "@ + name@,
{
    let mut s = String::new();
    push_decimal(&mut s, number as u64);
    s.append(". ");
    s.append(name);
    s
}

/// A season's entry in a season picker, `"Season <n>"`.
pub fn season_label(season: u32) -> (s: String)
    ensures
        s@ == "Season "@ + decimal(season as nat),
{
    let mut s = string_of("Season ");
    push_decimal(&mut s, season as u64);
    s
}

/// Whether the drawer highlights an episode: the one playing, in the
/// season playing.
pub fn is_playing_episode(shown_season: u32, number: u32, current_season: u32, current_episode: u32) -> (b: bool)
    ensures
        b == (shown_season == current_season && number == current_episode),
{
    shown_season == current_season && number == current_episode
}

/// Whether a season's episodes are fetched: only for a known series and a
/// real season.
pub fn should_fetch_season(series_id: u32, season: u32) -> (b: bool)
    ensures
        b == (series_id > 0 && season > 0),
{
    series_id > 0 && season > 0
}

/// The seasons a picker offers: 1 to `count`, in order.
pub fn season_choices(count: u32) -> (v: Vec<u32>)
    ensures
        v@.len() == count,
        forall|i: int| 0 <= i < v@.len() ==> v@[i] == i + 1,
{
    let mut v: Vec<u32> = Vec::new();
    let mut s: u32 = 0;
    while s < count
        invariant
            s <= count,
            v@.len() == s,
            forall|i: int| 0 <= i < v@.len() ==> v@[i] == i + 1,
        decreases count - s,
    {
        v.push(s + 1);
        s = s + 1;
    }
    v
}

} // verus!
