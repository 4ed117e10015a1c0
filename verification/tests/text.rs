use pstream_frontend::text::{char_is_white_space, trim_start_str, str_contains, str_eq_ascii_ci, str_equal, str_starts_with, trim_str};

#[test]
fn string_helpers() {
    assert!(str_eq_ascii_ci("Cozy", "cOZY"));
    assert!(!str_eq_ascii_ci("Cozy", "Cozy "));
    assert!(str_contains("a detective story", "detect"));
    assert!(!str_contains("abc", "abcd"));
    assert!(str_contains("abc", ""));
    assert!(str_starts_with("/browse/series", "/browse"));
    assert!(!str_starts_with("/b", "/browse"));
    assert!(str_equal("x", "x"));
    assert!(!str_equal("x", "y"));
    assert_eq!(trim_str("  hi \n"), "hi");
}

#[test]
fn trimming_matches_std() {
    let samples = [
        "", " ", "  a b  ", "\t\n x \r\n", "\u{a0}\u{2003}hi\u{3000}", "\u{85}\u{1680}\u{2028}\u{2029}\u{202f}\u{205f}",
        "\u{200b}x\u{200b}", "\u{feff}y", "no-space", "é ", " \u{200a}z",
    ];
    for s in samples.iter() {
        assert_eq!(trim_str(s), s.trim(), "{s:?}");
        assert_eq!(trim_start_str(s), s.trim_start(), "{s:?}");
    }
    for c in '\0'..=char::MAX {
        assert_eq!(char_is_white_space(c), c.is_whitespace(), "{c:?}");
    }
}
