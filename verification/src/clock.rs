//! Clock-style time captions of the players: `MM:SS`, or `HH:MM:SS` from an
//! hour on, and the simple player's `MM:SS / MM:SS` progress caption.

use vstd::prelude::*;
use crate::text::{decimal_pad2, push_decimal_pad2};

verus! {

/// A whole number of seconds as a clock: `HH:MM:SS` from one hour on,
/// `MM:SS` below, every field zero-padded to two digits.
pub open spec fn clock(total: nat) -> Seq<char> {
    let hours = total / 3600;
    let mins = (total % 3600) / 60;
    let secs = total % 60;
    if hours > 0 {
        decimal_pad2(hours) + ":"@ + decimal_pad2(mins) + ":"@ + decimal_pad2(secs)
    } else {
        decimal_pad2(mins) + ":"@ + decimal_pad2(secs)
    }
}

/// The clock caption of a whole number of seconds.
pub fn format_clock(total_secs: u64) -> (s: String)
    ensures
        s@ == clock(total_secs as nat),
{
    let hours = total_secs / 3600;
    let mins = (total_secs % 3600) / 60;
    let secs = total_secs % 60;
    let mut s = String::new();
    if hours > 0 {
        push_decimal_pad2(&mut s, hours);
        s.append(":");
    }
    push_decimal_pad2(&mut s, mins);
    s.append(":");
    push_decimal_pad2(&mut s, secs);
    s
}

/// The simple player's caption: elapsed and total time, each as minutes and
/// seconds zero-padded to two digits (`"01:05 / 42:00"`).
pub fn progress_caption(progress_secs: u32, duration_secs: u32) -> (s: String)
    ensures
        s@ == decimal_pad2((progress_secs / 60) as nat) + ":"@ + decimal_pad2((progress_secs % 60) as nat)
            + " / "@ + decimal_pad2((duration_secs / 60) as nat) + ":"@ + decimal_pad2(
            (duration_secs % 60) as nat,
        ),
{
    let mut s = String::new();
    push_decimal_pad2(&mut s, (progress_secs / 60) as u64);
    s.append(":");
    push_decimal_pad2(&mut s, (progress_secs % 60) as u64);
    s.append(" / ");
    push_decimal_pad2(&mut s, (duration_secs / 60) as u64);
    s.append(":");
    push_decimal_pad2(&mut s, (duration_secs % 60) as u64);
    s
}

} // verus!
