use pstream_frontend::hover_card::{popup_origin, Tooltip, TooltipEvent, TOOLTIP_DELAY_MS, HoverCard, HoverEvent, CLOSE_DELAY_MS, SHOW_DELAY_MS};

/// A card whose popup shows (entered, then the show delay ran out).
fn shown_card() -> HoverCard {
    let (c, _) = HoverCard::new().step(HoverEvent::MouseEnter);
    c.step(HoverEvent::ShowDue { measured: true }).0
}

/// A card waiting for its show delay.
fn waiting_card() -> HoverCard {
    HoverCard::new().step(HoverEvent::MouseEnter).0
}

/// A shown card the pointer left.
fn closing_card() -> HoverCard {
    shown_card().step(HoverEvent::MouseLeave).0
}

#[test]
fn enter_schedules_show_then_show_opens_popup() {
    let c = HoverCard::new();
    let (c, e) = c.step(HoverEvent::MouseEnter);
    assert!(e.schedule_show && !e.cancel_close && c.show_pending() && !c.is_hovered());
    let (c, e) = c.step(HoverEvent::ShowDue { measured: true });
    assert!(c.is_hovered() && !c.show_pending() && e.claim_popup);
    assert_eq!(SHOW_DELAY_MS, 20);
    assert_eq!(CLOSE_DELAY_MS, 150);
}

#[test]
fn leave_and_come_back_keeps_popup() {
    let c = shown_card();
    let (c, e) = c.step(HoverEvent::MouseLeave);
    assert!(e.schedule_close && c.close_pending() && c.is_hovered());
    let (c, e) = c.step(HoverEvent::PopupEntered);
    assert!(e.cancel_close && !c.close_pending() && c.is_hovered());
}

#[test]
fn close_due_hides_and_releases() {
    let c = closing_card();
    let (c, e) = c.step(HoverEvent::CloseDue);
    assert!(!c.is_hovered() && !c.close_pending() && e.release_popup);
}

#[test]
fn another_popup_closes_this_one() {
    let c = closing_card();
    let (c, e) = c.step(HoverEvent::OtherPopupOpened);
    assert!(!c.is_hovered() && !c.show_pending() && !c.close_pending());
    assert!(e.cancel_close && !e.cancel_show);
    let idle = HoverCard::new();
    let (c2, e2) = idle.step(HoverEvent::OtherPopupOpened);
    assert!(!c2.is_hovered() && !c2.show_pending() && !c2.close_pending());
    assert!(!e2.cancel_close && !e2.cancel_show);
}

#[test]
fn unmeasured_card_stays_closed_and_click_clears_popup() {
    let c = waiting_card();
    let (c, e) = c.step(HoverEvent::ShowDue { measured: false });
    assert!(!c.is_hovered() && !c.show_pending() && !e.claim_popup);
    let shown = shown_card();
    let (c, e) = shown.step(HoverEvent::Opened);
    assert!(!c.is_hovered() && e.clear_popup);
    let (c, _) = waiting_card().step(HoverEvent::TimerUnavailable);
    assert!(!c.show_pending());
}

#[test]
fn popup_grows_from_its_side() {
    assert_eq!(popup_origin("left"), "top left");
    assert_eq!(popup_origin("right"), "top right");
    assert_eq!(popup_origin("center"), "top center");
}

#[test]
fn tooltip_waits_then_shows_and_hides_on_leave() {
    let t = Tooltip::new();
    let (t, fx) = t.step(TooltipEvent::Enter);
    assert!(fx.schedule && !t.shown && t.pending);
    let (t2, fx) = t.step(TooltipEvent::Enter);
    assert!(!fx.schedule && t2 == t);
    let (t, _) = t.step(TooltipEvent::Due);
    assert!(t.shown && !t.pending);
    let (t, fx) = t.step(TooltipEvent::Leave);
    assert!(!t.shown && !fx.cancel);
    let (t, _) = t.step(TooltipEvent::Enter);
    let (t, fx) = t.step(TooltipEvent::Leave);
    assert!(fx.cancel && !t.pending && !t.shown);
    assert_eq!(TOOLTIP_DELAY_MS, 300);
}

#[test]
fn only_one_title_popup_open_across_cards() {
    // Card A's popup is open and names the slot; card B's popup then opens.
    let a = HoverCard::new();
    let (a, _) = a.step(HoverEvent::MouseEnter);
    let (a, fx) = a.step(HoverEvent::ShowDue { measured: true });
    assert!(a.is_hovered() && fx.claim_popup);
    let b = HoverCard::new();
    let (b, _) = b.step(HoverEvent::MouseEnter);
    let (b, fx) = b.step(HoverEvent::ShowDue { measured: true });
    assert!(b.is_hovered() && fx.claim_popup);
    // The claim tells card A, which closes with nothing pending.
    let (a, _) = a.step(HoverEvent::OtherPopupOpened);
    assert!(!a.is_hovered() && !a.show_pending() && !a.close_pending());
    assert!(b.is_hovered());
}
