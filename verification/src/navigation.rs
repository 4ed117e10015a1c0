//! Routing decisions of the navigation bars and the share sheet: which tab a
//! path highlights, where the mobile pills and bottom bar lead, the live
//! search route, and the share links built from a title and its URL.

use vstd::prelude::*;
use vstd::utf8::encode_utf8;
use crate::text::{push_char, has_prefix, str_equal, str_starts_with, string_of, trim_str, trimmed, chars_of, chars_occur_at, string_of_range};

verus! {

// ───────────────────────────── URI component encoding ─────────────────────────────

/// The bytes `encodeURIComponent` leaves as they are: ASCII letters and
/// digits and `- _ . ! ~ * ' ( )`.
pub open spec fn uri_unreserved(b: u8) -> bool {
    (65 <= b && b <= 90) || (97 <= b && b <= 122) || (48 <= b && b <= 57) || b == 45 || b == 95
        || b == 46 || b == 33 || b == 126 || b == 42 || b == 39 || b == 40 || b == 41
}

/// An upper-case hexadecimal digit.
pub open spec fn hex_upper(d: int) -> char {
    if d < 10 {
        (48 + d) as char
    } else {
        (55 + d) as char
    }
}

/// Each byte kept when unreserved, else written `%XY` in upper-case hex.
pub open spec fn percent_encode(bytes: Seq<u8>) -> Seq<char>
    decreases bytes.len(),
{
    if bytes.len() == 0 {
        seq![]
    } else {
        let b = bytes[0];
        (if uri_unreserved(b) {
            seq![b as char]
        } else {
            seq!['%', hex_upper(b as int / 16), hex_upper(b as int % 16)]
        }) + percent_encode(bytes.drop_first())
    }
}

/// What `encodeURIComponent` returns for a string: its UTF-8 bytes,
/// percent-encoded except the unreserved ones.
pub open spec fn uri_component(s: Seq<char>) -> Seq<char> {
    percent_encode(encode_utf8(s))
}

/// Percent-encoding two runs of bytes one after the other is encoding them
/// together.
proof fn lemma_percent_encode_concat(a: Seq<u8>, b: Seq<u8>)
    ensures
        percent_encode(a + b) == percent_encode(a) + percent_encode(b),
    decreases a.len(),
{
    if a.len() == 0 {
        assert(a + b =~= b);
    } else {
        lemma_percent_encode_concat(a.drop_first(), b);
        assert((a + b).drop_first() =~= a.drop_first() + b);
        assert((a + b)[0] == a[0]);
    }
}

/// Whether `encodeURIComponent` leaves the byte `b` as it is.
fn byte_unreserved(b: u8) -> (r: bool)
    ensures
        r == uri_unreserved(b),
{
    (65 <= b && b <= 90) || (97 <= b && b <= 122) || (48 <= b && b <= 57) || b == 45 || b == 95
        || b == 46 || b == 33 || b == 126 || b == 42 || b == 39 || b == 40 || b == 41
}

/// The upper-case hexadecimal digit of `d`.
fn hex_digit(d: u8) -> (c: char)
    requires
        d < 16,
    ensures
        c == hex_upper(d as int),
{
    if d < 10 {
        (48 + d) as char
    } else {
        (55 + d) as char
    }
}

/// `encodeURIComponent`: the UTF-8 bytes of `s`, each kept when it is an
/// ASCII letter or digit or one of `- _ . ! ~ * ' ( )`, else written `%XY`
/// in upper-case hex. (A Rust string holds no lone surrogate, so there is
/// no input on which JavaScript's version would throw.)
pub fn encode_uri_component(s: &str) -> (r: String)
    ensures
        r@ == uri_component(s@),
{
    let bytes = s.as_bytes();
    let mut out = String::new();
    let mut i: usize = 0;
    while i < bytes.len()
        invariant
            bytes@ == encode_utf8(s@),
            i <= bytes@.len(),
            out@ == percent_encode(bytes@.take(i as int)),
        decreases bytes@.len() - i,
    {
        let b = bytes[i];
        proof {
            assert(bytes@.take(i + 1) =~= bytes@.take(i as int) + seq![b]);
            lemma_percent_encode_concat(bytes@.take(i as int), seq![b]);
            assert(seq![b].drop_first() =~= Seq::<u8>::empty());
            assert(percent_encode(Seq::<u8>::empty()) =~= Seq::<char>::empty());
            assert(percent_encode(seq![b]) =~= (if uri_unreserved(b) {
                seq![b as char]
            } else {
                seq!['%', hex_upper(b as int / 16), hex_upper(b as int % 16)]
            }));
        }
        if byte_unreserved(b) {
            push_char(&mut out, b as char);
        } else {
            push_char(&mut out, '%');
            push_char(&mut out, hex_digit(b / 16));
            push_char(&mut out, hex_digit(b % 16));
            assert(out@ =~= percent_encode(bytes@.take(i as int)) + seq!['%', hex_upper(b as int / 16), hex_upper(b as int % 16)]);
        }
        i = i + 1;
    }
    proof {
        assert(bytes@.take(bytes@.len() as int) =~= bytes@);
    }
    out
}

// ───────────────────────────── navbar ─────────────────────────────

/// The desktop navbar tab that a path highlights (empty for none).
pub open spec fn tab_for_path(p: Seq<char>) -> Seq<char> {
    if has_prefix(p, "/browse/shows"@) || has_prefix(p, "/browse/series"@) {
        "tv"@
    } else if has_prefix(p, "/browse/movies"@) || has_prefix(p, "/browse/films"@) {
        "movies"@
    } else if has_prefix(p, "/browse/games"@) || has_prefix(p, "/games"@) {
        "games"@
    } else if has_prefix(p, "/latest"@) {
        "new"@
    } else if has_prefix(p, "/browse/my-list"@) {
        "list"@
    } else if has_prefix(p, "/browse/language"@) {
        "language"@
    } else if p == "/browse"@ || p == "/"@ || p.len() == 0 {
        "home"@
    } else {
        Seq::<char>::empty()
    }
}

/// The navbar tab highlighted for the current path.
pub fn active_tab(path: &str) -> (t: &'static str)
    ensures
        t@ == tab_for_path(path@),
{
    if str_starts_with(path, "/browse/shows") || str_starts_with(path, "/browse/series") {
        "tv"
    } else if str_starts_with(path, "/browse/movies") || str_starts_with(path, "/browse/films") {
        "movies"
    } else if str_starts_with(path, "/browse/games") || str_starts_with(path, "/games") {
        "games"
    } else if str_starts_with(path, "/latest") {
        "new"
    } else if str_starts_with(path, "/browse/my-list") {
        "list"
    } else if str_starts_with(path, "/browse/language") {
        "language"
    } else if str_equal(path, "/browse") || str_equal(path, "/") || path.unicode_len() == 0 {
        "home"
    } else {
        proof {
            reveal_strlit("");
            assert(""@ =~= Seq::<char>::empty());
        }
        ""
    }
}

/// A link of the desktop navbar: its tab id, label and route.
pub struct NavLink {
    pub id: &'static str,
    pub label: &'static str,
    pub href: &'static str,
}

/// The views of a navbar link.
pub open spec fn link_view(l: NavLink) -> (Seq<char>, Seq<char>, Seq<char>) {
    (l.id@, l.label@, l.href@)
}

/// The desktop navbar's links, in order.
pub fn desktop_nav_links() -> (v: Vec<NavLink>)
    ensures
        v@.map_values(|l: NavLink| link_view(l)) == seq![
            ("home"@, "Home"@, "/browse"@),
            ("tv"@, "Series"@, "/browse/series"@),
            ("movies"@, "Films"@, "/browse/films"@),
            ("games"@, "Games"@, "/browse/games"@),
            ("new"@, "New & Popular"@, "/latest"@),
            ("list"@, "My List"@, "/browse/my-list"@),
            ("language"@, "Browse by language"@, "/browse/language"@),
        ],
{
    let v = vec![
        NavLink { id: "home", label: "Home", href: "/browse" },
        NavLink { id: "tv", label: "Series", href: "/browse/series" },
        NavLink { id: "movies", label: "Films", href: "/browse/films" },
        NavLink { id: "games", label: "Games", href: "/browse/games" },
        NavLink { id: "new", label: "New & Popular", href: "/latest" },
        NavLink { id: "list", label: "My List", href: "/browse/my-list" },
        NavLink { id: "language", label: "Browse by language", href: "/browse/language" },
    ];
    assert(v@.map_values(|l: NavLink| link_view(l)) =~= seq![
        ("home"@, "Home"@, "/browse"@),
        ("tv"@, "Series"@, "/browse/series"@),
        ("movies"@, "Films"@, "/browse/films"@),
        ("games"@, "Games"@, "/browse/games"@),
        ("new"@, "New & Popular"@, "/latest"@),
        ("list"@, "My List"@, "/browse/my-list"@),
        ("language"@, "Browse by language"@, "/browse/language"@),
    ]);
    v
}

/// Where a mobile category pill leads: back to `/browse` when its route is
/// the current path, to its route otherwise.
pub fn pill_target(current_path: &str, route: &'static str) -> (t: &'static str)
    ensures
        t@ == (if current_path@ == route@ {
            "/browse"@
        } else {
            route@
        }),
{
    if str_equal(current_path, route) {
        "/browse"
    } else {
        route
    }
}

/// The label of the mobile category pill: the selected genre's name, else
/// the given label, else `Categories`.
pub fn category_pill_label(selected_genre_name: Option<&str>, dropdown_label: Option<&str>) -> (s: String)
    ensures
        s@ == (match selected_genre_name {
            Some(n) => n@,
            None => match dropdown_label {
                Some(l) => l@,
                None => "Categories"@,
            },
        }),
{
    match selected_genre_name {
        Some(n) => string_of(n),
        None => match dropdown_label {
            Some(l) => string_of(l),
            None => string_of("Categories"),
        },
    }
}

/// The route of a bottom-bar item of the mobile layout (`None` for unknown ids).
pub fn bottom_nav_route(id: &str) -> (r: Option<&'static str>)
    ensures
        r matches Some(x) ==> (id@ == "home"@ && x@ == "/browse"@) || (id@ == "clips"@ && x@ == "/latest"@)
            || (id@ == "search"@ && x@ == "/search"@) || (id@ == "settings"@ && x@ == "/browse/my-list"@),
        r is None ==> id@ != "home"@ && id@ != "clips"@ && id@ != "search"@ && id@ != "settings"@,
{
    if str_equal(id, "home") {
        Some("/browse")
    } else if str_equal(id, "clips") {
        Some("/latest")
    } else if str_equal(id, "search") {
        Some("/search")
    } else if str_equal(id, "settings") {
        Some("/browse/my-list")
    } else {
        None
    }
}

// ───────────────────────────── search ─────────────────────────────

/// The route the live search navigates to once typing pauses: `/search` for
/// a blank query, else `/search?q=` and the encoded query.
pub open spec fn search_route_for(query: Seq<char>, encoded: Seq<char>) -> Seq<char> {
    if trimmed(query).len() == 0 {
        "/search"@
    } else {
        "/search?q="@ + encoded
    }
}

/// The search route for `query`, encoded as by `encodeURIComponent`.
pub fn search_route(query: &str) -> (r: String)
    ensures
        r@ == search_route_for(query@, uri_component(query@)),
{
    if trim_str(query).unicode_len() == 0 {
        string_of("/search")
    } else {
        let mut r = string_of("/search?q=");
        let encoded = encode_uri_component(query);
        r.append(encoded.as_str());
        r
    }
}

/// The search route of a cast member's name, as the details modal links it.
pub fn cast_search_link(name: &str) -> (r: String)
    ensures
        r@ == "/search?q="@ + uri_component(name@),
{
    let mut r = string_of("/search?q=");
    let e = encode_uri_component(name);
    r.append(e.as_str());
    r
}

// ───────────────────────────── share sheet ─────────────────────────────

/// `s` with every leading repetition of `p` removed (`str::trim_start_matches`).
pub open spec fn strip_prefixes(s: Seq<char>, p: Seq<char>) -> Seq<char>
    decreases s.len(),
{
    if p.len() > 0 && has_prefix(s, p) {
        strip_prefixes(s.subrange(p.len() as int, s.len() as int), p)
    } else {
        s
    }
}

/// Once every leading copy of a non-empty prefix is stripped, the text no
/// longer starts with it, and stripping again changes nothing.
pub proof fn law_stripped_has_no_prefix(s: Seq<char>, p: Seq<char>)
    requires
        p.len() > 0,
    ensures
        !has_prefix(strip_prefixes(s, p), p),
        strip_prefixes(strip_prefixes(s, p), p) == strip_prefixes(s, p),
    decreases s.len(),
{
    if has_prefix(s, p) {
        law_stripped_has_no_prefix(s.subrange(p.len() as int, s.len() as int), p);
    }
}

/// `s` with every leading repetition of `p` removed.
pub fn strip_prefixes_of(s: &str, p: &str) -> (r: String)
    ensures
        r@ == strip_prefixes(s@, p@),
{
    let v = chars_of(s);
    let pv = chars_of(p);
    let mut start: usize = 0;
    let n = v.len();
    if pv.len() == 0 {
        return string_of(s);
    }
    assert(v@.subrange(0, n as int) =~= v@);
    while pv.len() <= n - start && chars_occur_at(&v, &pv, start)
        invariant
            n == v@.len(),
            v@ == s@,
            pv@ == p@,
            pv@.len() > 0,
            start <= n,
            strip_prefixes(s@, p@) == strip_prefixes(v@.subrange(start as int, n as int), p@),
        decreases n - start,
    {
        let ghost rest = v@.subrange(start as int, n as int);
        assert(rest.subrange(0, p@.len() as int) =~= v@.subrange(start as int, start + p@.len()));
        assert(rest.subrange(p@.len() as int, rest.len() as int) =~= v@.subrange(start + p@.len(), n as int));
        start = start + pv.len();
    }
    proof {
        let rest = v@.subrange(start as int, n as int);
        if has_prefix(rest, p@) {
            assert(rest.subrange(0, p@.len() as int) =~= v@.subrange(start as int, start + p@.len()));
        }
    }
    string_of_range(&v, start, n)
}

/// The link shown under the share sheet's title: the URL without its
/// `https://` and then `http://` prefixes.
pub fn display_url(url: &str) -> (r: String)
    ensures
        r@ == strip_prefixes(strip_prefixes(url@, "https://"@), "http://"@),
{
    let a = strip_prefixes_of(url, "https://");
    strip_prefixes_of(a.as_str(), "http://")
}

/// The text shared by message: the title, a space, the URL.
pub open spec fn share_text(title: Seq<char>, url: Seq<char>) -> Seq<char> {
    title + " "@ + url
}

/// The WhatsApp share link of a title.
pub fn whatsapp_share_link(title: &str, url: &str) -> (r: String)
    ensures
        r@ == "https://wa.me/?text="@ + uri_component(share_text(title@, url@)),
{
    let mut text = string_of(title);
    text.append(" ");
    text.append(url);
    let mut r = string_of("https://wa.me/?text=");
    let e = encode_uri_component(text.as_str());
    r.append(e.as_str());
    r
}

/// The SMS share link of a title.
pub fn sms_share_link(title: &str, url: &str) -> (r: String)
    ensures
        r@ == "sms:?&body="@ + uri_component(share_text(title@, url@)),
{
    let mut text = string_of(title);
    text.append(" ");
    text.append(url);
    let mut r = string_of("sms:?&body=");
    let e = encode_uri_component(text.as_str());
    r.append(e.as_str());
    r
}

/// The X (Twitter) share link of a title.
pub fn x_share_link(title: &str, url: &str) -> (r: String)
    ensures
        r@ == "https://twitter.com/intent/tweet?text="@ + uri_component(title@) + "&url="@
            + uri_component(url@),
{
    let mut r = string_of("https://twitter.com/intent/tweet?text=");
    let t = encode_uri_component(title);
    r.append(t.as_str());
    r.append("&url=");
    let u = encode_uri_component(url);
    r.append(u.as_str());
    r
}

// ───────────────────────────── share sheet toast ─────────────────────────────

/// How long the share sheet's toast shows (ms).
pub const TOAST_MS: i32 = 1800;

/// What the share sheet copies the title's link for.
#[derive(Clone, Copy, Debug, PartialEq, Eq, Structural)]
pub enum CopyFor {
    /// The Instagram button: the link is to be pasted there.
    Instagram,
    /// The Snapchat button.
    Snapchat,
    /// The "Copy link" button.
    Clipboard,
}

/// The toast shown once the link is copied.
pub open spec fn toast_text(target: CopyFor) -> Seq<char> {
    match target {
        CopyFor::Instagram => "Link copied — paste it into Instagram"@,
        CopyFor::Snapchat => "Link copied — paste it into Snapchat"@,
        CopyFor::Clipboard => "Link copied"@,
    }
}

/// The share sheet's toast: what it shows, and whether its timer is pending.
#[derive(Clone, Copy, Debug, PartialEq, Eq, Structural)]
pub struct ShareToast {
    pub shown: Option<CopyFor>,
    pub pending: bool,
}

/// What happens to the toast.
#[derive(Clone, Copy, Debug, PartialEq, Eq, Structural)]
pub enum ToastEvent {
    /// The link was copied for `target`.
    Copied { target: CopyFor },
    /// The toast's timer ran out.
    Due,
}

/// What the host must do after a toast step: cancel the pending timer,
/// and/or schedule a new one (`TOAST_MS`).
#[derive(Clone, Copy, Debug, PartialEq, Eq, Structural)]
pub struct ToastEffects {
    pub cancel: bool,
    pub schedule: bool,
}

/// One step of the toast: a copy shows its message and restarts the timer
/// (cancelling the one pending); the timer hides the toast.
pub open spec fn toast_step(t: ShareToast, e: ToastEvent) -> (ShareToast, ToastEffects) {
    match e {
        ToastEvent::Copied { target } => (
            ShareToast { shown: Some(target), pending: true },
            ToastEffects { cancel: t.pending, schedule: true },
        ),
        ToastEvent::Due => (ShareToast { shown: None, pending: false }, ToastEffects { cancel: false, schedule: false }),
    }
}

impl ShareToast {
    /// No toast.
    pub fn new() -> (t: ShareToast)
        ensures
            t.shown is None && !t.pending,
    {
        ShareToast { shown: None, pending: false }
    }

    /// Applies one event (see `toast_step`).
    pub fn step(self, e: ToastEvent) -> (r: (ShareToast, ToastEffects))
        ensures
            r == toast_step(self, e),
    {
        match e {
            ToastEvent::Copied { target } => (
                ShareToast { shown: Some(target), pending: true },
                ToastEffects { cancel: self.pending, schedule: true },
            ),
            ToastEvent::Due => (ShareToast { shown: None, pending: false }, ToastEffects { cancel: false, schedule: false }),
        }
    }

    /// The text the toast shows, if any.
    pub fn text(&self) -> (s: Option<&'static str>)
        ensures
            match self.shown {
                Some(t) => s matches Some(x) && x@ == toast_text(t),
                None => s is None,
            },
    {
        match self.shown {
            Some(CopyFor::Instagram) => Some("Link copied — paste it into Instagram"),
            Some(CopyFor::Snapchat) => Some("Link copied — paste it into Snapchat"),
            Some(CopyFor::Clipboard) => Some("Link copied"),
            None => None,
        }
    }
}

/// Each copy shows its own message for a full toast lifetime: a second copy
/// before the first toast ends replaces the message and restarts the timer,
/// and only the timer of the last copy hides it.
pub proof fn law_toast_restarts(t: ShareToast, a: CopyFor, b: CopyFor)
    ensures
        ({
            let (first, _) = toast_step(t, ToastEvent::Copied { target: a });
            let (second, fx) = toast_step(first, ToastEvent::Copied { target: b });
            &&& second.shown == Some(b) && fx.cancel && fx.schedule
            &&& toast_step(second, ToastEvent::Due).0.shown is None
        }),
{
}

} // verus!
