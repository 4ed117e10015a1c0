//! The hover behaviour of a title card: a short delay before its preview
//! popup opens, a grace period before it closes (so the pointer can travel
//! into the popup), and yielding to whichever card's popup opened last.
//!
//! The card is a state machine: the host delivers each pointer event or
//! timer expiry, gets back the next state and the effects to carry out
//! (timers to cancel or schedule, the shared "open popup" slot to claim or
//! release), and performs them.

use vstd::prelude::*;

verus! {

/// How long the pointer must rest on a card before its popup opens (ms).
pub const SHOW_DELAY_MS: i32 = 20;

/// How long a popup lingers after the pointer leaves its card (ms).
pub const CLOSE_DELAY_MS: i32 = 150;

/// A card's hover state: whether its popup is shown, and which of its two
/// timers is pending. It is always well formed (see `hover_wf`).
#[derive(Clone, Copy, Debug)]
pub struct HoverCard {
    hovered: bool,
    show_pending: bool,
    close_pending: bool,
}

/// A card's hover state as plain values.
pub struct HoverState {
    pub hovered: bool,
    pub show_pending: bool,
    pub close_pending: bool,
}

impl View for HoverCard {
    type V = HoverState;

    closed spec fn view(&self) -> HoverState {
        HoverState { hovered: self.hovered, show_pending: self.show_pending, close_pending: self.close_pending }
    }
}

/// What happens to a card.
#[derive(Clone, Copy, Debug, PartialEq, Eq, Structural)]
pub enum HoverEvent {
    /// The pointer enters the card.
    MouseEnter,
    /// The pointer leaves the card or its popup.
    MouseLeave,
    /// The pointer enters the card's popup.
    PopupEntered,
    /// The show timer expires; `measured` tells whether the card's element
    /// could be measured to place the popup.
    ShowDue { measured: bool },
    /// The close timer expires.
    CloseDue,
    /// Another card's popup became the open one.
    OtherPopupOpened,
    /// The card (or its popup) was clicked to open the details modal.
    Opened,
    /// The host could not schedule a timer.
    TimerUnavailable,
}

/// What the host must do after a step.
#[derive(Clone, Copy, Debug, PartialEq, Eq, Structural)]
pub struct HoverEffects {
    /// Cancel the pending show timer.
    pub cancel_show: bool,
    /// Cancel the pending close timer.
    pub cancel_close: bool,
    /// Schedule the show timer (`SHOW_DELAY_MS`).
    pub schedule_show: bool,
    /// Schedule the close timer (`CLOSE_DELAY_MS`).
    pub schedule_close: bool,
    /// Record this card as the one whose popup is open, placing the popup.
    pub claim_popup: bool,
    /// Clear the open-popup slot if it names this card.
    pub release_popup: bool,
    /// Clear the open-popup slot, whatever it names.
    pub clear_popup: bool,
}

/// No effect at all.
pub open spec fn no_effects() -> HoverEffects {
    HoverEffects {
        cancel_show: false,
        cancel_close: false,
        schedule_show: false,
        schedule_close: false,
        claim_popup: false,
        release_popup: false,
        clear_popup: false,
    }
}

/// The two timers are never pending together, and a card whose popup is
/// shown has no show timer pending.
pub open spec fn hover_wf(s: HoverState) -> bool {
    &&& !(s.show_pending && s.close_pending)
    &&& s.show_pending ==> !s.hovered
}

/// Whether the card shows its popup exactly when `hovered`, with no timer
/// pending.
pub open spec fn settled(s: HoverState, hovered: bool) -> bool {
    s.hovered == hovered && !s.show_pending && !s.close_pending
}

/// One step of the card: its next state and the effects to carry out.
pub open spec fn hover_step(s: HoverState, e: HoverEvent) -> (HoverState, HoverEffects) {
    match e {
        HoverEvent::MouseEnter => {
            let schedule = !s.hovered && !s.show_pending;
            (
                HoverState { close_pending: false, show_pending: s.show_pending || schedule, ..s },
                HoverEffects { cancel_close: s.close_pending, schedule_show: schedule, ..no_effects() },
            )
        },
        HoverEvent::MouseLeave => (
            HoverState { show_pending: false, close_pending: true, ..s },
            HoverEffects {
                cancel_show: s.show_pending,
                cancel_close: s.close_pending,
                schedule_close: true,
                ..no_effects()
            },
        ),
        HoverEvent::PopupEntered => (
            HoverState { close_pending: false, ..s },
            HoverEffects { cancel_close: s.close_pending, ..no_effects() },
        ),
        HoverEvent::ShowDue { measured } => (
            HoverState { show_pending: false, hovered: s.hovered || measured, ..s },
            HoverEffects { claim_popup: measured, ..no_effects() },
        ),
        HoverEvent::CloseDue => (
            HoverState { close_pending: false, hovered: false, ..s },
            HoverEffects { release_popup: true, ..no_effects() },
        ),
        HoverEvent::OtherPopupOpened => if s.hovered {
            (
                HoverState { hovered: false, show_pending: false, close_pending: false },
                HoverEffects { cancel_show: s.show_pending, cancel_close: s.close_pending, ..no_effects() },
            )
        } else {
            (s, no_effects())
        },
        HoverEvent::Opened => (
            HoverState { hovered: false, ..s },
            HoverEffects { clear_popup: true, ..no_effects() },
        ),
        HoverEvent::TimerUnavailable => (
            HoverState { show_pending: false, close_pending: false, ..s },
            no_effects(),
        ),
    }
}

impl HoverCard {
    /// Every card is well formed.
    #[verifier::type_invariant]
    spec fn well_formed(&self) -> bool {
        hover_wf(self@)
    }

    /// A card at rest: no popup, no timer.
    pub fn new() -> (c: HoverCard)
        ensures
            hover_wf(c@),
            !c@.hovered && !c@.show_pending && !c@.close_pending,
    {
        HoverCard { hovered: false, show_pending: false, close_pending: false }
    }

    /// Applies one event (see `hover_step`).
    pub fn step(self, e: HoverEvent) -> (r: (HoverCard, HoverEffects))
        ensures
            r.0@ == hover_step(self@, e).0,
            r.1 == hover_step(self@, e).1,
            hover_wf(r.0@),
    {
        proof {
            use_type_invariant(&self);
        }
        let none = HoverEffects {
            cancel_show: false,
            cancel_close: false,
            schedule_show: false,
            schedule_close: false,
            claim_popup: false,
            release_popup: false,
            clear_popup: false,
        };
        match e {
            HoverEvent::MouseEnter => {
                let schedule = !self.hovered && !self.show_pending;
                (
                    HoverCard { close_pending: false, show_pending: self.show_pending || schedule, ..self },
                    HoverEffects { cancel_close: self.close_pending, schedule_show: schedule, ..none },
                )
            },
            HoverEvent::MouseLeave => (
                HoverCard { show_pending: false, close_pending: true, ..self },
                HoverEffects {
                    cancel_show: self.show_pending,
                    cancel_close: self.close_pending,
                    schedule_close: true,
                    ..none
                },
            ),
            HoverEvent::PopupEntered => (
                HoverCard { close_pending: false, ..self },
                HoverEffects { cancel_close: self.close_pending, ..none },
            ),
            HoverEvent::ShowDue { measured } => (
                HoverCard { show_pending: false, hovered: self.hovered || measured, ..self },
                HoverEffects { claim_popup: measured, ..none },
            ),
            HoverEvent::CloseDue => (
                HoverCard { close_pending: false, hovered: false, ..self },
                HoverEffects { release_popup: true, ..none },
            ),
            HoverEvent::OtherPopupOpened => if self.hovered {
                (
                    HoverCard { hovered: false, show_pending: false, close_pending: false },
                    HoverEffects { cancel_show: self.show_pending, cancel_close: self.close_pending, ..none },
                )
            } else {
                (self, none)
            },
            HoverEvent::Opened => (HoverCard { hovered: false, ..self }, HoverEffects { clear_popup: true, ..none }),
            HoverEvent::TimerUnavailable => (
                HoverCard { show_pending: false, close_pending: false, ..self },
                none,
            ),
        }
    }

    /// Whether the card's popup shows.
    pub fn is_hovered(&self) -> (b: bool)
        ensures
            b == self@.hovered,
    {
        self.hovered
    }

    /// Whether the show timer is pending.
    pub fn show_pending(&self) -> (b: bool)
        ensures
            b == self@.show_pending,
    {
        self.show_pending
    }

    /// Whether the close timer is pending.
    pub fn close_pending(&self) -> (b: bool)
        ensures
            b == self@.close_pending,
    {
        self.close_pending
    }
}

/// Leaving a card and coming back before the close delay keeps its popup
/// open, with no timer left pending.
pub proof fn law_return_within_grace(s: HoverState)
    requires
        hover_wf(s),
        s.hovered,
    ensures
        settled(hover_step(hover_step(s, HoverEvent::MouseLeave).0, HoverEvent::MouseEnter).0, true),
        hover_step(hover_step(s, HoverEvent::MouseLeave).0, HoverEvent::MouseEnter).1.cancel_close,
{
}

/// Entering a card twice is the same as entering it once, and the second
/// entry schedules nothing.
pub proof fn law_enter_idempotent(s: HoverState)
    requires
        hover_wf(s),
    ensures
        hover_step(hover_step(s, HoverEvent::MouseEnter).0, HoverEvent::MouseEnter).0 == hover_step(
            s,
            HoverEvent::MouseEnter,
        ).0,
        !hover_step(hover_step(s, HoverEvent::MouseEnter).0, HoverEvent::MouseEnter).1.schedule_show,
{
}

/// A popup closes when its close delay runs out after the pointer left, and
/// gives up the open-popup slot.
pub proof fn law_leave_then_close(s: HoverState)
    requires
        hover_wf(s),
    ensures
        !hover_step(hover_step(s, HoverEvent::MouseLeave).0, HoverEvent::CloseDue).0.hovered,
        hover_step(hover_step(s, HoverEvent::MouseLeave).0, HoverEvent::CloseDue).1.release_popup,
{
}

/// When another card's popup opens, a shown popup closes at once and its
/// card is left with nothing pending.
pub proof fn law_yield_to_other(s: HoverState)
    requires
        hover_wf(s),
        s.hovered,
    ensures
        settled(hover_step(s, HoverEvent::OtherPopupOpened).0, false),
{
}

/// Only an expired show timer, with the card measured, opens the popup.
pub proof fn law_only_show_timer_opens(s: HoverState, e: HoverEvent)
    requires
        hover_wf(s),
        !s.hovered,
        hover_step(s, e).0.hovered,
    ensures
        e is ShowDue,
        hover_step(s, e).1.claim_popup,
{
}

// ───────────────────────────── several cards ─────────────────────────────

/// The cards of a page after card `k` takes `e`, with the shared open-popup
/// slot `active` (a card id). Each card is known by its id in `ids`: when
/// `k` claims the slot, the slot names `ids[k]` and every card with another
/// id is told that another popup opened; a release clears the slot only if
/// it names `ids[k]`; a clear empties it.
pub open spec fn board_step(
    ids: Seq<Seq<char>>,
    cards: Seq<HoverState>,
    active: Option<Seq<char>>,
    k: int,
    e: HoverEvent,
) -> (Seq<HoverState>, Option<Seq<char>>) {
    let (c, fx) = hover_step(cards[k], e);
    let moved = cards.update(k, c);
    if fx.claim_popup {
        (
            Seq::new(
                cards.len(),
                |j: int|
                    if j != k && ids[j] != ids[k] {
                        hover_step(moved[j], HoverEvent::OtherPopupOpened).0
                    } else {
                        moved[j]
                    },
            ),
            Some(ids[k]),
        )
    } else if fx.release_popup {
        (moved, if active == Some(ids[k]) { None } else { active })
    } else if fx.clear_popup {
        (moved, None)
    } else {
        (moved, active)
    }
}

/// The page's cards are consistent with the slot: every card is well
/// formed, every card showing its popup is named by the slot unless the
/// slot is empty, and all cards showing a popup are the same title.
pub open spec fn board_wf(ids: Seq<Seq<char>>, cards: Seq<HoverState>, active: Option<Seq<char>>) -> bool {
    &&& ids.len() == cards.len()
    &&& forall|j: int| 0 <= j < cards.len() ==> hover_wf(#[trigger] cards[j])
    &&& forall|j: int|
        0 <= j < cards.len() && (#[trigger] cards[j]).hovered ==> active is None || active == Some(ids[j])
    &&& forall|i: int, j: int|
        0 <= i < cards.len() && 0 <= j < cards.len() && (#[trigger] cards[i]).hovered
            && (#[trigger] cards[j]).hovered ==> ids[i] == ids[j]
}

/// A step keeps a card well formed.
proof fn lemma_step_keeps_wf(s: HoverState, e: HoverEvent)
    requires
        hover_wf(s),
    ensures
        hover_wf(hover_step(s, e).0),
{
}

/// At most one title's popup is open on a page: whatever card takes
/// whatever event, the cards stay consistent with the shared slot, and when
/// a card's popup opens, the slot names it and every card of another title
/// shows no popup, those that showed one left with no timer pending.
pub proof fn law_one_popup_open(
    ids: Seq<Seq<char>>,
    cards: Seq<HoverState>,
    active: Option<Seq<char>>,
    k: int,
    e: HoverEvent,
)
    requires
        board_wf(ids, cards, active),
        0 <= k < cards.len(),
    ensures
        ({
            let (next, slot) = board_step(ids, cards, active, k, e);
            &&& board_wf(ids, next, slot)
            &&& hover_step(cards[k], e).1.claim_popup ==> slot == Some(ids[k]) && forall|j: int|
                0 <= j < cards.len() && ids[j] != ids[k] ==> !(#[trigger] next[j]).hovered
            &&& hover_step(cards[k], e).1.claim_popup ==> forall|j: int|
                0 <= j < cards.len() && ids[j] != ids[k] && (#[trigger] cards[j]).hovered ==> settled(
                    next[j],
                    false,
                )
        }),
{
    let (c, fx) = hover_step(cards[k], e);
    let moved = cards.update(k, c);
    lemma_step_keeps_wf(cards[k], e);
    let (next, slot) = board_step(ids, cards, active, k, e);
    assert(next.len() == cards.len());
    assert forall|j: int| 0 <= j < cards.len() implies hover_wf(#[trigger] next[j]) by {
        if fx.claim_popup && j != k && ids[j] != ids[k] {
            lemma_step_keeps_wf(moved[j], HoverEvent::OtherPopupOpened);
        }
    }
    // After the step, a card shows its popup only if it is `k` claiming the
    // slot, or it showed it before and no card of another title claimed.
    assert forall|j: int| 0 <= j < cards.len() && (#[trigger] next[j]).hovered implies (j == k
        && fx.claim_popup) || (cards[j].hovered && (!fx.claim_popup || ids[j] == ids[k])) by {
        if j != k {
            assert(moved[j] == cards[j]);
        } else {
            assert(moved[j] == c);
            if !fx.claim_popup {
                assert(c.hovered ==> cards[k].hovered);
            }
        }
    }
    assert forall|j: int| 0 <= j < cards.len() && (#[trigger] next[j]).hovered implies slot is None
        || slot == Some(ids[j]) by {
        if !fx.claim_popup && fx.release_popup {
            assert(!c.hovered);
        }
    }
    assert forall|i: int, j: int|
        0 <= i < cards.len() && 0 <= j < cards.len() && (#[trigger] next[i]).hovered
            && (#[trigger] next[j]).hovered implies ids[i] == ids[j] by {
        assert(cards[i].hovered || i == k);
        assert(cards[j].hovered || j == k);
    }
}

/// The corner a card popup grows from, by the side it opens on.
pub fn popup_origin(side: &str) -> (s: &'static str)
    ensures
        s@ == (if side@ == "left"@ {
            "top left"@
        } else if side@ == "right"@ {
            "top right"@
        } else {
            "top center"@
        }),
{
    if crate::text::str_equal(side, "left") {
        "top left"
    } else if crate::text::str_equal(side, "right") {
        "top right"
    } else {
        "top center"
    }
}

// ───────────────────────────── tooltips ─────────────────────────────

/// How long the pointer must rest on a button before its tooltip shows (ms).
pub const TOOLTIP_DELAY_MS: i32 = 300;

/// A tooltip: whether it shows, and whether its delay timer is pending.
#[derive(Clone, Copy, Debug, PartialEq, Eq, Structural)]
pub struct Tooltip {
    pub shown: bool,
    pub pending: bool,
}

/// What happens to a tooltip.
#[derive(Clone, Copy, Debug, PartialEq, Eq, Structural)]
pub enum TooltipEvent {
    /// The pointer enters the button.
    Enter,
    /// The delay ran out.
    Due,
    /// The pointer leaves the button.
    Leave,
}

/// What the host must do after a tooltip step: cancel the pending delay,
/// and/or schedule a new one (`TOOLTIP_DELAY_MS`).
#[derive(Clone, Copy, Debug, PartialEq, Eq, Structural)]
pub struct TooltipEffects {
    pub cancel: bool,
    pub schedule: bool,
}

/// One step of a tooltip: entering starts the delay unless one is pending,
/// the delay shows the tooltip, leaving hides it and drops the delay.
pub open spec fn tooltip_step(t: Tooltip, e: TooltipEvent) -> (Tooltip, TooltipEffects) {
    match e {
        TooltipEvent::Enter => if t.pending {
            (t, TooltipEffects { cancel: false, schedule: false })
        } else {
            (Tooltip { pending: true, ..t }, TooltipEffects { cancel: false, schedule: true })
        },
        TooltipEvent::Due => (Tooltip { pending: false, shown: true }, TooltipEffects { cancel: false, schedule: false }),
        TooltipEvent::Leave => (
            Tooltip { pending: false, shown: false },
            TooltipEffects { cancel: t.pending, schedule: false },
        ),
    }
}

impl Tooltip {
    /// A hidden tooltip.
    pub fn new() -> (t: Tooltip)
        ensures
            !t.shown && !t.pending,
    {
        Tooltip { shown: false, pending: false }
    }

    /// Applies one event (see `tooltip_step`).
    pub fn step(self, e: TooltipEvent) -> (r: (Tooltip, TooltipEffects))
        ensures
            r == tooltip_step(self, e),
    {
        match e {
            TooltipEvent::Enter => if self.pending {
                (self, TooltipEffects { cancel: false, schedule: false })
            } else {
                (Tooltip { pending: true, ..self }, TooltipEffects { cancel: false, schedule: true })
            },
            TooltipEvent::Due => (Tooltip { pending: false, shown: true }, TooltipEffects { cancel: false, schedule: false }),
            TooltipEvent::Leave => (
                Tooltip { pending: false, shown: false },
                TooltipEffects { cancel: self.pending, schedule: false },
            ),
        }
    }
}

/// A tooltip shows only after its delay, and leaving always hides it with
/// no delay left pending.
pub proof fn law_tooltip_delay(t: Tooltip)
    requires
        !t.shown,
        !t.pending,
    ensures
        !tooltip_step(t, TooltipEvent::Enter).0.shown,
        tooltip_step(tooltip_step(t, TooltipEvent::Enter).0, TooltipEvent::Due).0.shown,
        ({
            let e = tooltip_step(t, TooltipEvent::Enter).0;
            let (l, fx) = tooltip_step(e, TooltipEvent::Leave);
            !l.shown && !l.pending && fx.cancel
        }),
{
}

} // verus!
