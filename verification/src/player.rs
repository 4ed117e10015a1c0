//! Player and trailer logic: keyboard shortcuts, the rating button's cycle,
//! the YouTube iframe protocol (commands sent, state read back from its
//! messages), the embed URL, and the WebKit check behind the zoom factor.

use vstd::prelude::*;
use crate::movie_card_popup::mentions_any;
use crate::text::{
    char_is_numeric, chars_contain, chars_occur_at, chars_contain_str, chars_of, decimal, has_substring, lowercased,
    numeric_char, occurs_at, push_decimal, str_equal, string_of, string_of_range, to_lowercase_str,
    trim_start_str, trimmed_start,
};

verus! {

// ───────────────────────────── keyboard ─────────────────────────────

/// What a key does in the full-screen player.
#[derive(Clone, Copy, Debug, PartialEq, Eq, Structural)]
pub enum PlayerCommand {
    TogglePlay,
    SkipBack,
    SkipForward,
    VolumeUp,
    VolumeDown,
    ToggleMute,
    ToggleFullscreen,
}

/// The command bound to a key (`KeyboardEvent.key`): space/K play or pause,
/// ←/J back 10 s, →/L forward 10 s, ↑/↓ volume (only where the player has a
/// volume control), M mute, F full screen.
pub open spec fn key_command(key: Seq<char>, with_volume_keys: bool) -> Option<PlayerCommand> {
    if key == " "@ || key == "k"@ || key == "K"@ {
        Some(PlayerCommand::TogglePlay)
    } else if key == "ArrowLeft"@ || key == "j"@ || key == "J"@ {
        Some(PlayerCommand::SkipBack)
    } else if key == "ArrowRight"@ || key == "l"@ || key == "L"@ {
        Some(PlayerCommand::SkipForward)
    } else if with_volume_keys && key == "ArrowUp"@ {
        Some(PlayerCommand::VolumeUp)
    } else if with_volume_keys && key == "ArrowDown"@ {
        Some(PlayerCommand::VolumeDown)
    } else if key == "m"@ || key == "M"@ {
        Some(PlayerCommand::ToggleMute)
    } else if key == "f"@ || key == "F"@ {
        Some(PlayerCommand::ToggleFullscreen)
    } else {
        None
    }
}

/// The command bound to `key`; the streaming player binds ↑/↓ to volume,
/// the simple player does not.
pub fn command_for_key(key: &str, with_volume_keys: bool) -> (c: Option<PlayerCommand>)
    ensures
        c == key_command(key@, with_volume_keys),
{
    if str_equal(key, " ") || str_equal(key, "k") || str_equal(key, "K") {
        Some(PlayerCommand::TogglePlay)
    } else if str_equal(key, "ArrowLeft") || str_equal(key, "j") || str_equal(key, "J") {
        Some(PlayerCommand::SkipBack)
    } else if str_equal(key, "ArrowRight") || str_equal(key, "l") || str_equal(key, "L") {
        Some(PlayerCommand::SkipForward)
    } else if with_volume_keys && str_equal(key, "ArrowUp") {
        Some(PlayerCommand::VolumeUp)
    } else if with_volume_keys && str_equal(key, "ArrowDown") {
        Some(PlayerCommand::VolumeDown)
    } else if str_equal(key, "m") || str_equal(key, "M") {
        Some(PlayerCommand::ToggleMute)
    } else if str_equal(key, "f") || str_equal(key, "F") {
        Some(PlayerCommand::ToggleFullscreen)
    } else {
        None
    }
}

/// Every key of the player's shortcuts differs from the others.
proof fn lemma_shortcut_keys_distinct()
    ensures
        " "@ != "k"@,
        " "@ != "K"@,
        "k"@ != "K"@,
        " "@ != "ArrowLeft"@,
        "k"@ != "ArrowLeft"@,
        "K"@ != "ArrowLeft"@,
        " "@ != "j"@,
        "k"@ != "j"@,
        "K"@ != "j"@,
        "ArrowLeft"@ != "j"@,
        " "@ != "J"@,
        "k"@ != "J"@,
        "K"@ != "J"@,
        "ArrowLeft"@ != "J"@,
        "j"@ != "J"@,
        " "@ != "ArrowRight"@,
        "k"@ != "ArrowRight"@,
        "K"@ != "ArrowRight"@,
        "ArrowLeft"@ != "ArrowRight"@,
        "j"@ != "ArrowRight"@,
        "J"@ != "ArrowRight"@,
        " "@ != "l"@,
        "k"@ != "l"@,
        "K"@ != "l"@,
        "ArrowLeft"@ != "l"@,
        "j"@ != "l"@,
        "J"@ != "l"@,
        "ArrowRight"@ != "l"@,
        " "@ != "L"@,
        "k"@ != "L"@,
        "K"@ != "L"@,
        "ArrowLeft"@ != "L"@,
        "j"@ != "L"@,
        "J"@ != "L"@,
        "ArrowRight"@ != "L"@,
        "l"@ != "L"@,
        " "@ != "ArrowUp"@,
        "k"@ != "ArrowUp"@,
        "K"@ != "ArrowUp"@,
        "ArrowLeft"@ != "ArrowUp"@,
        "j"@ != "ArrowUp"@,
        "J"@ != "ArrowUp"@,
        "ArrowRight"@ != "ArrowUp"@,
        "l"@ != "ArrowUp"@,
        "L"@ != "ArrowUp"@,
        " "@ != "ArrowDown"@,
        "k"@ != "ArrowDown"@,
        "K"@ != "ArrowDown"@,
        "ArrowLeft"@ != "ArrowDown"@,
        "j"@ != "ArrowDown"@,
        "J"@ != "ArrowDown"@,
        "ArrowRight"@ != "ArrowDown"@,
        "l"@ != "ArrowDown"@,
        "L"@ != "ArrowDown"@,
        "ArrowUp"@ != "ArrowDown"@,
        " "@ != "m"@,
        "k"@ != "m"@,
        "K"@ != "m"@,
        "ArrowLeft"@ != "m"@,
        "j"@ != "m"@,
        "J"@ != "m"@,
        "ArrowRight"@ != "m"@,
        "l"@ != "m"@,
        "L"@ != "m"@,
        "ArrowUp"@ != "m"@,
        "ArrowDown"@ != "m"@,
        " "@ != "M"@,
        "k"@ != "M"@,
        "K"@ != "M"@,
        "ArrowLeft"@ != "M"@,
        "j"@ != "M"@,
        "J"@ != "M"@,
        "ArrowRight"@ != "M"@,
        "l"@ != "M"@,
        "L"@ != "M"@,
        "ArrowUp"@ != "M"@,
        "ArrowDown"@ != "M"@,
        "m"@ != "M"@,
        " "@ != "f"@,
        "k"@ != "f"@,
        "K"@ != "f"@,
        "ArrowLeft"@ != "f"@,
        "j"@ != "f"@,
        "J"@ != "f"@,
        "ArrowRight"@ != "f"@,
        "l"@ != "f"@,
        "L"@ != "f"@,
        "ArrowUp"@ != "f"@,
        "ArrowDown"@ != "f"@,
        "m"@ != "f"@,
        "M"@ != "f"@,
        " "@ != "F"@,
        "k"@ != "F"@,
        "K"@ != "F"@,
        "ArrowLeft"@ != "F"@,
        "j"@ != "F"@,
        "J"@ != "F"@,
        "ArrowRight"@ != "F"@,
        "l"@ != "F"@,
        "L"@ != "F"@,
        "ArrowUp"@ != "F"@,
        "ArrowDown"@ != "F"@,
        "m"@ != "F"@,
        "M"@ != "F"@,
        "f"@ != "F"@,
{
    reveal_strlit(" ");
    reveal_strlit("k");
    reveal_strlit("K");
    reveal_strlit("ArrowLeft");
    reveal_strlit("j");
    reveal_strlit("J");
    reveal_strlit("ArrowRight");
    reveal_strlit("l");
    reveal_strlit("L");
    reveal_strlit("ArrowUp");
    reveal_strlit("ArrowDown");
    reveal_strlit("m");
    reveal_strlit("M");
    reveal_strlit("f");
    reveal_strlit("F");
    assert(" "@.len() == 1);
    assert("k"@.len() == 1);
    assert("K"@.len() == 1);
    assert("ArrowLeft"@.len() == 9);
    assert("j"@.len() == 1);
    assert("J"@.len() == 1);
    assert("ArrowRight"@.len() == 10);
    assert("l"@.len() == 1);
    assert("L"@.len() == 1);
    assert("ArrowUp"@.len() == 7);
    assert("ArrowDown"@.len() == 9);
    assert("m"@.len() == 1);
    assert("M"@.len() == 1);
    assert("f"@.len() == 1);
    assert("F"@.len() == 1);
    assert("k"@[0] != " "@[0]);
    assert("K"@[0] != " "@[0]);
    assert("K"@[0] != "k"@[0]);
    assert("j"@[0] != " "@[0]);
    assert("j"@[0] != "k"@[0]);
    assert("j"@[0] != "K"@[0]);
    assert("J"@[0] != " "@[0]);
    assert("J"@[0] != "k"@[0]);
    assert("J"@[0] != "K"@[0]);
    assert("J"@[0] != "j"@[0]);
    assert("l"@[0] != " "@[0]);
    assert("l"@[0] != "k"@[0]);
    assert("l"@[0] != "K"@[0]);
    assert("l"@[0] != "j"@[0]);
    assert("l"@[0] != "J"@[0]);
    assert("L"@[0] != " "@[0]);
    assert("L"@[0] != "k"@[0]);
    assert("L"@[0] != "K"@[0]);
    assert("L"@[0] != "j"@[0]);
    assert("L"@[0] != "J"@[0]);
    assert("L"@[0] != "l"@[0]);
    assert("ArrowDown"@[5] != "ArrowLeft"@[5]);
    assert("m"@[0] != " "@[0]);
    assert("m"@[0] != "k"@[0]);
    assert("m"@[0] != "K"@[0]);
    assert("m"@[0] != "j"@[0]);
    assert("m"@[0] != "J"@[0]);
    assert("m"@[0] != "l"@[0]);
    assert("m"@[0] != "L"@[0]);
    assert("M"@[0] != " "@[0]);
    assert("M"@[0] != "k"@[0]);
    assert("M"@[0] != "K"@[0]);
    assert("M"@[0] != "j"@[0]);
    assert("M"@[0] != "J"@[0]);
    assert("M"@[0] != "l"@[0]);
    assert("M"@[0] != "L"@[0]);
    assert("M"@[0] != "m"@[0]);
    assert("f"@[0] != " "@[0]);
    assert("f"@[0] != "k"@[0]);
    assert("f"@[0] != "K"@[0]);
    assert("f"@[0] != "j"@[0]);
    assert("f"@[0] != "J"@[0]);
    assert("f"@[0] != "l"@[0]);
    assert("f"@[0] != "L"@[0]);
    assert("f"@[0] != "m"@[0]);
    assert("f"@[0] != "M"@[0]);
    assert("F"@[0] != " "@[0]);
    assert("F"@[0] != "k"@[0]);
    assert("F"@[0] != "K"@[0]);
    assert("F"@[0] != "j"@[0]);
    assert("F"@[0] != "J"@[0]);
    assert("F"@[0] != "l"@[0]);
    assert("F"@[0] != "L"@[0]);
    assert("F"@[0] != "m"@[0]);
    assert("F"@[0] != "M"@[0]);
    assert("F"@[0] != "f"@[0]);
}

/// The player's shortcuts, key by key: space and K play or pause, ← and J
/// go back, → and L go forward, M mutes, F goes full screen, and ↑/↓ change
/// the volume exactly where the player has volume keys.
pub proof fn law_shortcut_keys(with_volume_keys: bool)
    ensures
        key_command(" "@, with_volume_keys) == Some(PlayerCommand::TogglePlay),
        key_command("k"@, with_volume_keys) == Some(PlayerCommand::TogglePlay),
        key_command("K"@, with_volume_keys) == Some(PlayerCommand::TogglePlay),
        key_command("ArrowLeft"@, with_volume_keys) == Some(PlayerCommand::SkipBack),
        key_command("j"@, with_volume_keys) == Some(PlayerCommand::SkipBack),
        key_command("J"@, with_volume_keys) == Some(PlayerCommand::SkipBack),
        key_command("ArrowRight"@, with_volume_keys) == Some(PlayerCommand::SkipForward),
        key_command("l"@, with_volume_keys) == Some(PlayerCommand::SkipForward),
        key_command("L"@, with_volume_keys) == Some(PlayerCommand::SkipForward),
        key_command("ArrowUp"@, with_volume_keys) == (if with_volume_keys {
            Some(PlayerCommand::VolumeUp)
        } else {
            None
        }),
        key_command("ArrowDown"@, with_volume_keys) == (if with_volume_keys {
            Some(PlayerCommand::VolumeDown)
        } else {
            None
        }),
        key_command("m"@, with_volume_keys) == Some(PlayerCommand::ToggleMute),
        key_command("M"@, with_volume_keys) == Some(PlayerCommand::ToggleMute),
        key_command("f"@, with_volume_keys) == Some(PlayerCommand::ToggleFullscreen),
        key_command("F"@, with_volume_keys) == Some(PlayerCommand::ToggleFullscreen),
{
    lemma_shortcut_keys_distinct();
}

/// A key that is none of the shortcuts does nothing.
pub proof fn law_other_keys_do_nothing(key: Seq<char>, with_volume_keys: bool)
    requires
        key != " "@,
        key != "k"@,
        key != "K"@,
        key != "ArrowLeft"@,
        key != "j"@,
        key != "J"@,
        key != "ArrowRight"@,
        key != "l"@,
        key != "L"@,
        key != "ArrowUp"@,
        key != "ArrowDown"@,
        key != "m"@,
        key != "M"@,
        key != "f"@,
        key != "F"@,
    ensures
        key_command(key, with_volume_keys) is None,
{
}

// ───────────────────────────── rating ─────────────────────────────

/// A viewer's rating of a title.
#[derive(Clone, Copy, Debug, PartialEq, Eq, Structural)]
pub enum MovieRating {
    Like,
    Dislike,
    Love,
}

/// The rating after a press of the rating button: none → like → love →
/// dislike → none.
pub open spec fn rating_after(r: Option<MovieRating>) -> Option<MovieRating> {
    match r {
        None => Some(MovieRating::Like),
        Some(MovieRating::Like) => Some(MovieRating::Love),
        Some(MovieRating::Love) => Some(MovieRating::Dislike),
        Some(MovieRating::Dislike) => None,
    }
}

/// The rating after one press of the rating button.
pub fn next_rating(r: Option<MovieRating>) -> (n: Option<MovieRating>)
    ensures
        n == rating_after(r),
{
    match r {
        None => Some(MovieRating::Like),
        Some(MovieRating::Like) => Some(MovieRating::Love),
        Some(MovieRating::Love) => Some(MovieRating::Dislike),
        Some(MovieRating::Dislike) => None,
    }
}

/// Four presses of the rating button bring any rating back, and fewer
/// presses never do: the button cycles through all four states.
pub proof fn law_rating_cycle(r: Option<MovieRating>)
    ensures
        rating_after(rating_after(rating_after(rating_after(r)))) == r,
        rating_after(r) != r,
        rating_after(rating_after(r)) != r,
        rating_after(rating_after(rating_after(r))) != r,
{
}

/// The glyph the rating button shows.
#[derive(Clone, Copy, Debug, PartialEq, Eq, Structural)]
pub enum RatingGlyph {
    ThumbsUp,
    ThumbsDown,
    DoubleThumbsUp,
}

/// The glyph for a rating: two thumbs for love, thumbs down for dislike,
/// thumbs up otherwise.
pub fn rating_glyph(r: Option<MovieRating>) -> (g: RatingGlyph)
    ensures
        g == (match r {
            Some(MovieRating::Love) => RatingGlyph::DoubleThumbsUp,
            Some(MovieRating::Dislike) => RatingGlyph::ThumbsDown,
            _ => RatingGlyph::ThumbsUp,
        }),
{
    match r {
        Some(MovieRating::Love) => RatingGlyph::DoubleThumbsUp,
        Some(MovieRating::Dislike) => RatingGlyph::ThumbsDown,
        _ => RatingGlyph::ThumbsUp,
    }
}

// ───────────────────────────── YouTube iframe protocol ─────────────────────────────

/// The message that asks the YouTube iframe to run `func`.
pub open spec fn yt_command_message(func: Seq<char>) -> Seq<char> {
    "{\"event\":\"command\",\"func\":\""@ + func + "\",\"args\":[]}"@
}

/// The JSON command message for the YouTube iframe API.
pub fn yt_command(func: &str) -> (m: String)
    ensures
        m@ == yt_command_message(func@),
{
    let mut m = string_of("{\"event\":\"command\",\"func\":\"");
    m.append(func);
    m.append("\",\"args\":[]}");
    m
}

/// What a message from the YouTube iframe says.
#[derive(Clone, Copy, Debug, PartialEq, Eq, Structural)]
pub struct YtSignals {
    /// The player reports itself cued, unstarted or just ready.
    pub stalled_or_cued: bool,
    /// The player reports that it is playing.
    pub playing: bool,
    /// The player reports that the video ended.
    pub ended: bool,
    /// The message carries a `currentTime`.
    pub has_current_time: bool,
    /// The message carries a `duration`.
    pub has_duration: bool,
}

/// The state reports of one player state code, in the three fields the
/// iframe uses, with and without a space after the colon.
pub open spec fn state_reports(code: Seq<char>) -> Seq<Seq<char>> {
    seq![
        "\"playerState\":"@ + code,
        "\"playerState\": "@ + code,
        "\"info\":"@ + code,
        "\"info\": "@ + code,
        "\"data\":"@ + code,
        "\"data\": "@ + code,
    ]
}

/// What the message `msg` says.
pub open spec fn yt_signals(msg: Seq<char>) -> YtSignals {
    YtSignals {
        stalled_or_cued: mentions_any(msg, state_reports("5"@)) || mentions_any(
            msg,
            state_reports("-1"@),
        ) || has_substring(msg, "\"onReady\""@),
        playing: mentions_any(msg, state_reports("1"@)),
        ended: mentions_any(msg, state_reports("0"@)),
        has_current_time: has_substring(msg, "\"currentTime\""@),
        has_duration: has_substring(msg, "\"duration\""@),
    }
}

/// Whether some report of state `code` occurs in `msg`.
fn reports_state(msg: &Vec<char>, code: &str) -> (r: bool)
    ensures
        r == mentions_any(msg@, state_reports(code@)),
{
    let prefixes = vec!["\"playerState\":", "\"playerState\": ", "\"info\":", "\"info\": ", "\"data\":", "\"data\": "];
    let ghost reps = state_reports(code@);
    let mut j: usize = 0;
    while j < 6
        invariant
            prefixes@.len() == 6,
            prefixes@.map_values(|p: &str| p@) == seq![
                "\"playerState\":"@,
                "\"playerState\": "@,
                "\"info\":"@,
                "\"info\": "@,
                "\"data\":"@,
                "\"data\": "@,
            ],
            reps == state_reports(code@),
            j <= 6,
            forall|q: int| 0 <= q < j ==> !has_substring(msg@, #[trigger] reps[q]),
        decreases 6 - j,
    {
        let mut pat = string_of(prefixes[j]);
        pat.append(code);
        let pv = chars_of(pat.as_str());
        assert(pv@ == prefixes@.map_values(|p: &str| p@)[j as int] + code@);
        assert(pv@ == reps[j as int]);
        if chars_contain(msg, &pv) {
            return true;
        }
        j = j + 1;
    }
    false
}

/// Reads a message of the YouTube iframe: whether it reports the player
/// cued/unstarted/ready, playing, or ended, and whether it carries the
/// current time and the duration.
pub fn read_yt_message(msg: &str) -> (s: YtSignals)
    ensures
        s == yt_signals(msg@),
{
    let m = chars_of(msg);
    let stalled = reports_state(&m, "5") || reports_state(&m, "-1") || chars_contain_str(
        &m,
        "\"onReady\"",
    );
    YtSignals {
        stalled_or_cued: stalled,
        playing: reports_state(&m, "1"),
        ended: reports_state(&m, "0"),
        has_current_time: chars_contain_str(&m, "\"currentTime\""),
        has_duration: chars_contain_str(&m, "\"duration\""),
    }
}

/// The first index from `start` on at which `needle` occurs in `hay`.
pub open spec fn find_from(hay: Seq<char>, needle: Seq<char>, start: int) -> Option<int>
    decreases hay.len() + 1 - start,
{
    if start < 0 || start + needle.len() > hay.len() {
        None
    } else if occurs_at(hay, needle, start) {
        Some(start)
    } else {
        find_from(hay, needle, start + 1)
    }
}

/// The first index from `start` on at which `c` occurs in `s`.
pub open spec fn find_char_from(s: Seq<char>, c: char, start: int) -> Option<int>
    decreases s.len() - start,
{
    if start < 0 || start >= s.len() {
        None
    } else if s[start] == c {
        Some(start)
    } else {
        find_char_from(s, c, start + 1)
    }
}

/// The length of the run of numeric chars and dots at the start of `s`.
pub open spec fn numeric_run(s: Seq<char>) -> nat
    decreases s.len(),
{
    if s.len() == 0 {
        0
    } else if numeric_char(s[0]) || s[0] == '.' {
        1 + numeric_run(s.drop_first())
    } else {
        0
    }
}

/// The text of the number a YouTube message gives for `key`: after the first
/// `"<key>"`, past the next colon and any leading white space, the run of
/// numeric chars and dots. `None` when the key or the colon is missing.
pub open spec fn yt_number_text(msg: Seq<char>, key: Seq<char>) -> Option<Seq<char>> {
    let pat = seq!['"'] + key + seq!['"'];
    match find_from(msg, pat, 0) {
        None => None,
        Some(i) => match find_char_from(msg, ':', i + pat.len()) {
            None => None,
            Some(c) => {
                let v = trimmed_start(msg.subrange(c + 1, msg.len() as int));
                Some(v.take(numeric_run(v) as int))
            },
        },
    }
}

/// The first index from `start` on at which `needle` occurs in `hay`.
fn find_in(hay: &Vec<char>, needle: &Vec<char>, start: usize) -> (r: Option<usize>)
    ensures
        match r {
            Some(i) => find_from(hay@, needle@, start as int) == Some(i as int),
            None => find_from(hay@, needle@, start as int) is None,
        },
    decreases hay@.len() + 1 - start,
{
    if needle.len() > hay.len() || start > hay.len() - needle.len() {
        return None;
    }
    if chars_occur_at(hay, needle, start) {
        Some(start)
    } else {
        if needle.len() == 0 {
            assert(hay@.subrange(start as int, start as int) =~= needle@);
        }
        find_in(hay, needle, start + 1)
    }
}

/// The first index from `start` on at which `c` occurs in `s`.
fn find_char_in(s: &Vec<char>, c: char, start: usize) -> (r: Option<usize>)
    ensures
        match r {
            Some(i) => find_char_from(s@, c, start as int) == Some(i as int),
            None => find_char_from(s@, c, start as int) is None,
        },
    decreases s@.len() - start,
{
    if start >= s.len() {
        None
    } else if s[start] == c {
        Some(start)
    } else {
        find_char_in(s, c, start + 1)
    }
}

/// The length of the run at the start of `v` of chars that are dots or
/// flagged numeric in `numeric` (one flag per char).
pub open spec fn flagged_run(v: Seq<char>, numeric: Seq<bool>) -> nat
    decreases v.len(),
{
    if v.len() == 0 || numeric.len() == 0 {
        0
    } else if numeric[0] || v[0] == '.' {
        1 + flagged_run(v.drop_first(), numeric.drop_first())
    } else {
        0
    }
}

/// The flags of `v` are whether each char is numeric: the flagged run is
/// the numeric run.
proof fn lemma_flagged_run_is_numeric_run(v: Seq<char>)
    ensures
        flagged_run(v, v.map_values(|c: char| numeric_char(c))) == numeric_run(v),
    decreases v.len(),
{
    if v.len() > 0 {
        assert(v.map_values(|c: char| numeric_char(c)).drop_first() =~= v.drop_first().map_values(
            |c: char| numeric_char(c),
        ));
        lemma_flagged_run_is_numeric_run(v.drop_first());
    }
}

/// Whether each char of `v` is numeric (Unicode `Nd`, `Nl` or `No`).
pub fn numeric_flags(v: &str) -> (flags: Vec<bool>)
    ensures
        flags@ == v@.map_values(|c: char| numeric_char(c)),
{
    let vc = chars_of(v);
    let mut flags: Vec<bool> = Vec::new();
    let mut i: usize = 0;
    while i < vc.len()
        invariant
            vc@ == v@,
            i <= vc@.len(),
            flags@ == vc@.take(i as int).map_values(|c: char| numeric_char(c)),
        decreases vc@.len() - i,
    {
        flags.push(char_is_numeric(vc[i]));
        assert(vc@.take(i + 1) =~= vc@.take(i as int).push(vc@[i as int]));
        i = i + 1;
    }
    assert(vc@.take(i as int) =~= vc@);
    flags
}

/// The start of `v` that reads as a number: the run of chars that are dots
/// or flagged numeric in `numeric`, which holds one flag per char of `v`.
pub fn numeric_prefix(v: &str, numeric: &[bool]) -> (r: String)
    requires
        numeric@.len() == v@.len(),
    ensures
        r@ == v@.take(flagged_run(v@, numeric@) as int),
{
    let vc = chars_of(v);
    let len = vc.len();
    let mut i: usize = len;
    let mut n: usize = 0;
    // Scan from the end: n is the run length of the suffix starting at i.
    while i > 0
        invariant
            len == vc@.len(),
            vc@ == v@,
            numeric@.len() == len,
            i <= len,
            n <= len - i,
            n == flagged_run(vc@.subrange(i as int, len as int), numeric@.subrange(i as int, len as int)),
        decreases i,
    {
        i = i - 1;
        assert(vc@.subrange(i as int, len as int).drop_first() =~= vc@.subrange(i + 1, len as int));
        assert(numeric@.subrange(i as int, len as int).drop_first() =~= numeric@.subrange(
            i + 1,
            len as int,
        ));
        if numeric[i] || vc[i] == '.' {
            n = n + 1;
        } else {
            n = 0;
        }
    }
    assert(vc@.subrange(0, len as int) =~= vc@);
    assert(numeric@.subrange(0, len as int) =~= numeric@);
    let r = string_of_range(&vc, 0, n);
    assert(vc@.subrange(0, n as int) =~= v@.take(n as int));
    r
}

/// The text of the number a YouTube message gives for `key` (see
/// [`yt_number_text`]); the caller parses it as a float.
pub fn yt_number_field(msg: &str, key: &str) -> (r: Option<String>)
    ensures
        match r {
            Some(t) => yt_number_text(msg@, key@) == Some(t@),
            None => yt_number_text(msg@, key@) is None,
        },
{
    let m = chars_of(msg);
    let mut pat_s = string_of("\"");
    pat_s.append(key);
    pat_s.append("\"");
    proof {
        reveal_strlit("\"");
    }
    let pat = chars_of(pat_s.as_str());
    assert(pat@ =~= seq!['"'] + key@ + seq!['"']);
    match find_in(&m, &pat, 0) {
        None => None,
        Some(i) => {
            proof {
                lemma_find_in_range(m@, pat@, 0);
                assert(find_from(m@, pat@, 0) == Some(i as int));
                assert(i + pat@.len() <= m@.len());
            }
            let after = i + pat.len();
            match find_char_in(&m, ':', after) {
                None => None,
                Some(c) => {
                    proof {
                        lemma_find_char_in_range(m@, ':', after as int);
                        assert(find_char_from(m@, ':', after as int) == Some(c as int));
                        assert(c < m.len());
                    }
                    let rest = string_of_range(&m, c + 1, m.len());
                    let v = trim_start_str(rest.as_str());
                    let flags = numeric_flags(v);
                    proof {
                        lemma_flagged_run_is_numeric_run(v@);
                    }
                    Some(numeric_prefix(v, flags.as_slice()))
                },
            }
        },
    }
}

/// A found occurrence lies inside the string.
proof fn lemma_find_in_range(hay: Seq<char>, needle: Seq<char>, start: int)
    ensures
        find_from(hay, needle, start) is Some ==> start <= find_from(hay, needle, start)->0
            && find_from(hay, needle, start)->0 + needle.len() <= hay.len(),
    decreases hay.len() + 1 - start,
{
    if !(start < 0 || start + needle.len() > hay.len()) && !occurs_at(hay, needle, start) {
        lemma_find_in_range(hay, needle, start + 1);
    }
}

/// A found char index lies inside the string.
proof fn lemma_find_char_in_range(s: Seq<char>, c: char, start: int)
    ensures
        find_char_from(s, c, start) is Some ==> start <= find_char_from(s, c, start)->0 < s.len(),
    decreases s.len() - start,
{
    if start >= 0 && start < s.len() && s[start] != c {
        lemma_find_char_in_range(s, c, start + 1);
    }
}

/// The embed URL of a YouTube trailer: autoplaying, muted, without controls,
/// with the JS API enabled for `origin`, starting at `start_secs`.
pub fn youtube_embed_url(key: &str, origin: &str, start_secs: u32) -> (url: String)
    ensures
        url@ == "https://www.youtube.com/embed/"@ + key@
            + "?autoplay=1&mute=1&controls=0&modestbranding=1&rel=0&iv_load_policy=3&playsinline=1&enablejsapi=1&disablekb=1&origin="@
            + origin@ + "&widget_referrer="@ + origin@ + "&start="@ + decimal(start_secs as nat),
{
    let mut url = string_of("https://www.youtube.com/embed/");
    url.append(key);
    url.append(
        "?autoplay=1&mute=1&controls=0&modestbranding=1&rel=0&iv_load_policy=3&playsinline=1&enablejsapi=1&disablekb=1&origin=",
    );
    url.append(origin);
    url.append("&widget_referrer=");
    url.append(origin);
    url.append("&start=");
    push_decimal(&mut url, start_secs as u64);
    url
}

/// Whether a lowercased user agent is an Apple WebKit browser: Safari that
/// is neither Chrome nor Android, or any iPhone, iPad or iPod.
pub open spec fn webkit_agent(u: Seq<char>) -> bool {
    (has_substring(u, "safari"@) && !has_substring(u, "chrome"@) && !has_substring(u, "android"@))
        || has_substring(u, "iphone"@) || has_substring(u, "ipad"@) || has_substring(u, "ipod"@)
}

/// Whether a user agent is an Apple WebKit browser, read from the
/// lowercased user agent.
pub fn is_webkit_user_agent(user_agent: &str) -> (b: bool)
    ensures
        b == webkit_agent(lowercased(user_agent@)),
{
    let lower = to_lowercase_str(user_agent);
    is_webkit_lowered(lower.as_str())
}

/// Whether an already lowercased user agent is an Apple WebKit browser.
pub fn is_webkit_lowered(u: &str) -> (b: bool)
    ensures
        b == webkit_agent(u@),
{
    let u = chars_of(u);
    (chars_contain_str(&u, "safari") && !chars_contain_str(&u, "chrome") && !chars_contain_str(
        &u,
        "android",
    )) || chars_contain_str(&u, "iphone") || chars_contain_str(&u, "ipad") || chars_contain_str(
        &u,
        "ipod",
    )
}

// ───────────────────────────── control bar ─────────────────────────────

/// Whether the player's controls fade out: while playing with the pointer idle.
pub fn controls_hidden(is_idle: bool, is_playing: bool) -> (b: bool)
    ensures
        b == (is_idle && is_playing),
{
    is_idle && is_playing
}

/// The tooltip of the play/pause button.
pub fn play_button_title(is_playing: bool) -> (s: &'static str)
    ensures
        s@ == (if is_playing {
            "Pause (Space)"@
        } else {
            "Play (Space)"@
        }),
{
    if is_playing {
        "Pause (Space)"
    } else {
        "Play (Space)"
    }
}

/// The tooltip of the mute button.
pub fn mute_button_title(is_muted: bool) -> (s: &'static str)
    ensures
        s@ == (if is_muted {
            "Unmute (M)"@
        } else {
            "Mute (M)"@
        }),
{
    if is_muted {
        "Unmute (M)"
    } else {
        "Mute (M)"
    }
}

/// The icon of the play/pause button.
pub fn play_button_icon(is_playing: bool) -> (s: &'static str)
    ensures
        s@ == (if is_playing {
            "ph-fill ph-pause text-2xl md:text-3xl"@
        } else {
            "ph-fill ph-play text-2xl md:text-3xl"@
        }),
{
    if is_playing {
        "ph-fill ph-pause text-2xl md:text-3xl"
    } else {
        "ph-fill ph-play text-2xl md:text-3xl"
    }
}

} // verus!
