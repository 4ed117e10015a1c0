use pstream_frontend::search_box::{SearchBox, SEARCH_PAUSE_MS};

#[test]
fn typing_schedules_a_live_search() {
    let mut b = SearchBox::new();
    assert!(!b.is_open(false));
    let e = b.type_text("dune");
    assert_eq!(e.schedule_search.as_deref(), Some("dune"));
    assert!(!e.cancel_search);
    assert!(b.is_open(false));
    let e = b.type_text("dune 2");
    assert!(e.cancel_search);
    assert_eq!(e.schedule_search.as_deref(), Some("dune 2"));
    b.search_due();
    assert!(!b.search_pending);
    assert_eq!(SEARCH_PAUSE_MS, 300);
}

#[test]
fn search_button_opens_and_goes_to_search_when_empty() {
    let mut b = SearchBox::new();
    let e = b.press_search();
    assert!(b.active && e.focus);
    assert_eq!(e.navigate, Some("/search"));
    let e = b.press_search();
    assert!(!e.focus && e.navigate.is_none());
    let mut c = SearchBox::new();
    c.type_text("x");
    let e = c.press_search();
    assert!(e.focus && e.navigate.is_none());
}

#[test]
fn clear_and_escape() {
    let mut b = SearchBox::new();
    b.type_text("alien");
    let e = b.clear();
    assert!(e.cancel_search && e.focus);
    assert_eq!(e.navigate, Some("/search"));
    assert!(b.input.is_empty());
    b.active = true;
    b.type_text("alien");
    let e = b.escape();
    assert_eq!(e.navigate, Some("/browse"));
    assert!(!b.active && b.input.is_empty() && !b.search_pending);
    assert!(!b.is_open(false));
    assert!(b.is_open(true));
}

#[test]
fn outside_click_and_url_sync() {
    let mut b = SearchBox::new();
    b.sync_query("", false);
    assert!(!b.active);
    b.sync_query("q", false);
    assert!(b.active);
    assert_eq!(b.input, "q");
    b.input = "   ".to_string();
    b.click_outside(true);
    assert!(b.active);
    b.click_outside(false);
    assert!(!b.active);
    b.sync_query("", true);
    assert!(b.active);
    b.input = " x ".to_string();
    b.click_outside(false);
    assert!(b.active);
}
