use pstream_frontend::navigation::{CopyFor, ShareToast, ToastEvent, TOAST_MS};
use pstream_frontend::navigation::{
    active_tab, bottom_nav_route, category_pill_label, desktop_nav_links, display_url, pill_target,
    search_route, strip_prefixes_of,
};
use pstream_frontend::navigation::{
    cast_search_link, encode_uri_component, sms_share_link, whatsapp_share_link, x_share_link,
};

#[test]
fn navbar_tab_by_path() {
    assert_eq!(active_tab("/browse/series/123"), "tv");
    assert_eq!(active_tab("/browse/shows"), "tv");
    assert_eq!(active_tab("/browse/films"), "movies");
    assert_eq!(active_tab("/games/x"), "games");
    assert_eq!(active_tab("/latest"), "new");
    assert_eq!(active_tab("/browse/my-list"), "list");
    assert_eq!(active_tab("/browse/language/fr"), "language");
    assert_eq!(active_tab("/browse"), "home");
    assert_eq!(active_tab("/"), "home");
    assert_eq!(active_tab(""), "home");
    assert_eq!(active_tab("/search"), "");
    assert_eq!(active_tab("/browse/genre-28"), "");
}

#[test]
fn mobile_pills_and_bottom_bar() {
    assert_eq!(pill_target("/browse/series", "/browse/series"), "/browse");
    assert_eq!(pill_target("/browse", "/browse/series"), "/browse/series");
    assert_eq!(category_pill_label(Some("Comedy"), Some("Genres")), "Comedy");
    assert_eq!(category_pill_label(None, Some("Genres")), "Genres");
    assert_eq!(category_pill_label(None, None), "Categories");
    assert_eq!(bottom_nav_route("home"), Some("/browse"));
    assert_eq!(bottom_nav_route("clips"), Some("/latest"));
    assert_eq!(bottom_nav_route("search"), Some("/search"));
    assert_eq!(bottom_nav_route("settings"), Some("/browse/my-list"));
    assert_eq!(bottom_nav_route("other"), None);
}

#[test]
fn live_search_route() {
    assert_eq!(search_route("   "), "/search");
    assert_eq!(search_route(""), "/search");
    assert_eq!(search_route("star wars"), "/search?q=star%20wars");
    assert_eq!(search_route(" amélie "), "/search?q=%20am%C3%A9lie%20");
}

#[test]
fn share_sheet_display_url() {
    assert_eq!(display_url("https://pstream.tv/title/1"), "pstream.tv/title/1");
    assert_eq!(display_url("http://pstream.tv"), "pstream.tv");
    assert_eq!(display_url("https://http://x"), "x");
    assert_eq!(display_url("ftp://x"), "ftp://x");
    assert_eq!(strip_prefixes_of("ababc", "ab"), "c");
    assert_eq!(strip_prefixes_of("abc", ""), "abc");
    assert_eq!("ababc".trim_start_matches("ab"), strip_prefixes_of("ababc", "ab"));
}

#[test]
fn desktop_links_in_order() {
    let links = desktop_nav_links();
    let ids: Vec<&str> = links.iter().map(|l| l.id).collect();
    assert_eq!(ids, vec!["home", "tv", "movies", "games", "new", "list", "language"]);
    assert_eq!(links[4].label, "New & Popular");
    assert_eq!(links[6].href, "/browse/language");
}

#[test]
fn uri_component_encoding() {
    assert_eq!(encode_uri_component("AZaz09-_.!~*'()"), "AZaz09-_.!~*'()");
    assert_eq!(encode_uri_component("a b&c=d/e?f#g"), "a%20b%26c%3Dd%2Fe%3Ff%23g");
    assert_eq!(encode_uri_component("é"), "%C3%A9");
    assert_eq!(encode_uri_component("€"), "%E2%82%AC");
    assert_eq!(encode_uri_component("😀"), "%F0%9F%98%80");
    assert_eq!(encode_uri_component(""), "");
    assert_eq!(encode_uri_component("\n"), "%0A");
}

#[test]
fn cast_and_share_links() {
    assert_eq!(cast_search_link("Zoë Saldaña"), "/search?q=Zo%C3%AB%20Salda%C3%B1a");
    assert_eq!(
        whatsapp_share_link("Dune: Part Two", "https://pstream.tv/t/1"),
        "https://wa.me/?text=Dune%3A%20Part%20Two%20https%3A%2F%2Fpstream.tv%2Ft%2F1"
    );
    assert_eq!(sms_share_link("Up", "https://x.y"), "sms:?&body=Up%20https%3A%2F%2Fx.y");
    assert_eq!(
        x_share_link("Up & Away", "https://x.y/?a=1"),
        "https://twitter.com/intent/tweet?text=Up%20%26%20Away&url=https%3A%2F%2Fx.y%2F%3Fa%3D1"
    );
}

#[test]
fn share_toast_messages_and_restart() {
    assert_eq!(TOAST_MS, 1800);
    let t = ShareToast::new();
    assert_eq!(t.text(), None);
    let (t, fx) = t.step(ToastEvent::Copied { target: CopyFor::Instagram });
    assert!(fx.schedule && !fx.cancel);
    assert_eq!(t.text(), Some("Link copied — paste it into Instagram"));
    let (t, fx) = t.step(ToastEvent::Copied { target: CopyFor::Snapchat });
    assert!(fx.schedule && fx.cancel);
    assert_eq!(t.text(), Some("Link copied — paste it into Snapchat"));
    let (t, _) = t.step(ToastEvent::Copied { target: CopyFor::Clipboard });
    assert_eq!(t.text(), Some("Link copied"));
    let (t, _) = t.step(ToastEvent::Due);
    assert_eq!(t.text(), None);
    assert!(!t.pending);
}
