//! The navbar's search box: when it is open, the live search that follows
//! typing after a pause, and the clear and escape keys.
//!
//! The host reports each event and carries out the returned effects
//! (cancelling or scheduling the 300 ms pause timer, navigating, focusing
//! the input). When the pause timer runs out, the host navigates to
//! `navigation::search_route` of the text it was scheduled with.

use vstd::prelude::*;
use crate::text::{string_of, trim_str, trimmed};

verus! {

/// How long typing must pause before the search runs (ms).
pub const SEARCH_PAUSE_MS: i32 = 300;

/// The search box: whether it is open, the text typed, and whether a live
/// search is waiting for typing to pause.
pub struct SearchBox {
    pub active: bool,
    pub input: String,
    pub search_pending: bool,
}

/// What the host must do after a search-box event.
pub struct SearchEffects {
    /// Cancel the pending live search.
    pub cancel_search: bool,
    /// Start the pause timer for a live search of this text.
    pub schedule_search: Option<String>,
    /// Navigate to this route.
    pub navigate: Option<&'static str>,
    /// Focus the input.
    pub focus: bool,
}

/// The search box as plain values.
pub struct SearchBoxView {
    pub active: bool,
    pub input: Seq<char>,
    pub search_pending: bool,
}

impl View for SearchBox {
    type V = SearchBoxView;

    open spec fn view(&self) -> SearchBoxView {
        SearchBoxView { active: self.active, input: self.input@, search_pending: self.search_pending }
    }
}

/// Whether the box shows as open: opened, on the search page, or holding text.
pub open spec fn box_open(v: SearchBoxView, on_search_page: bool) -> bool {
    v.active || on_search_page || v.input.len() > 0
}

impl SearchBox {
    /// A closed, empty search box.
    pub fn new() -> (b: SearchBox)
        ensures
            !b@.active,
            b@.input.len() == 0,
            !b@.search_pending,
    {
        SearchBox { active: false, input: String::new(), search_pending: false }
    }

    /// Whether the box shows as open (see `box_open`).
    pub fn is_open(&self, on_search_page: bool) -> (b: bool)
        ensures
            b == box_open(self@, on_search_page),
    {
        self.active || on_search_page || self.input.unicode_len() > 0
    }

    /// The page's `q` parameter changed: the box shows it, and opens when it
    /// is not empty or the search page is showing.
    pub fn sync_query(&mut self, query: &str, on_search_page: bool)
        ensures
            final(self)@.input == query@,
            final(self)@.active == (old(self)@.active || query@.len() > 0 || on_search_page),
            final(self)@.search_pending == old(self)@.search_pending,
    {
        self.input = string_of(query);
        if query.unicode_len() > 0 || on_search_page {
            self.active = true;
        }
    }

    /// A click outside the box closes it, unless the search page is showing
    /// or text other than white space was typed.
    pub fn click_outside(&mut self, on_search_page: bool)
        ensures
            final(self)@.active == (old(self)@.active && (on_search_page || trimmed(old(self)@.input).len() > 0)),
            final(self)@.input == old(self)@.input,
            final(self)@.search_pending == old(self)@.search_pending,
    {
        if !on_search_page && trim_str(self.input.as_str()).unicode_len() == 0 {
            self.active = false;
        }
    }

    /// Typing: the text changes, and the live search restarts its pause.
    pub fn type_text(&mut self, text: &str) -> (e: SearchEffects)
        ensures
            final(self)@.input == text@,
            final(self)@.active == old(self)@.active,
            final(self)@.search_pending,
            e.cancel_search == old(self)@.search_pending,
            e.schedule_search matches Some(q) && q@ == text@,
            e.navigate is None,
            !e.focus,
    {
        let cancel = self.search_pending;
        self.input = string_of(text);
        self.search_pending = true;
        SearchEffects { cancel_search: cancel, schedule_search: Some(string_of(text)), navigate: None, focus: false }
    }

    /// The pause timer ran out (the host then navigates).
    pub fn search_due(&mut self)
        ensures
            !final(self)@.search_pending,
            final(self)@.input == old(self)@.input,
            final(self)@.active == old(self)@.active,
    {
        self.search_pending = false;
    }

    /// The search button: opens a closed box and focuses it, going to the
    /// search page when nothing is typed; does nothing on an open box.
    pub fn press_search(&mut self) -> (e: SearchEffects)
        ensures
            final(self)@.active,
            final(self)@.input == old(self)@.input,
            final(self)@.search_pending == old(self)@.search_pending,
            e.focus == !old(self)@.active,
            e.navigate == (if !old(self)@.active && old(self)@.input.len() == 0 {
                Some("/search")
            } else {
                None::<&str>
            }),
            !e.cancel_search,
            e.schedule_search is None,
    {
        if self.active {
            return SearchEffects { cancel_search: false, schedule_search: None, navigate: None, focus: false };
        }
        self.active = true;
        let nav = if self.input.unicode_len() == 0 {
            Some("/search")
        } else {
            None
        };
        SearchEffects { cancel_search: false, schedule_search: None, navigate: nav, focus: true }
    }

    /// The clear button: drops the pending search and the text, goes to the
    /// search page and keeps the focus.
    pub fn clear(&mut self) -> (e: SearchEffects)
        ensures
            final(self)@.input.len() == 0,
            !final(self)@.search_pending,
            final(self)@.active == old(self)@.active,
            e.cancel_search == old(self)@.search_pending,
            e.navigate == Some("/search"),
            e.focus,
            e.schedule_search is None,
    {
        let cancel = self.search_pending;
        self.search_pending = false;
        self.input = String::new();
        SearchEffects { cancel_search: cancel, schedule_search: None, navigate: Some("/search"), focus: true }
    }

    /// The escape key: drops the pending search and the text, closes the
    /// box and goes back to browsing.
    pub fn escape(&mut self) -> (e: SearchEffects)
        ensures
            final(self)@.input.len() == 0,
            !final(self)@.search_pending,
            !final(self)@.active,
            e.cancel_search == old(self)@.search_pending,
            e.navigate == Some("/browse"),
            !e.focus,
            e.schedule_search is None,
    {
        let cancel = self.search_pending;
        self.search_pending = false;
        self.input = String::new();
        self.active = false;
        SearchEffects { cancel_search: cancel, schedule_search: None, navigate: Some("/browse"), focus: false }
    }
}

} // verus!
