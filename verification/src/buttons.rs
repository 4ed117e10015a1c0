//! The shared action buttons: the play and "More Info" pills, and the round
//! buttons (list, rating, mute/replay, close, caret) that share one geometry
//! on every surface.

use vstd::prelude::*;
use crate::text::{str_equal, string_of};

verus! {

// ───────────────────────────── round buttons ─────────────────────────────

/// The geometry of a round button of the given size: its dimension
/// classes, its icon classes and its icon size in pixels.
pub open spec fn round_specs(size: Seq<char>) -> (Seq<char>, Seq<char>, u32) {
    if size == "xs"@ || size == "sm"@ {
        ("w-7 h-7"@, "text-xs"@, 12)
    } else if size == "lg"@ {
        ("w-11 h-11 md:w-12 md:h-12"@, "text-xl md:text-2xl"@, 22)
    } else {
        ("w-[39px] h-[39px]"@, "text-[17px]"@, 17)
    }
}

/// The geometry of a round button.
pub fn circular_button_specs(size: &str) -> (r: (&'static str, &'static str, u32))
    ensures
        (r.0@, r.1@, r.2) == round_specs(size@),
{
    if str_equal(size, "xs") || str_equal(size, "sm") {
        ("w-7 h-7", "text-xs", 12)
    } else if str_equal(size, "lg") {
        ("w-11 h-11 md:w-12 md:h-12", "text-xl md:text-2xl", 22)
    } else {
        ("w-[39px] h-[39px]", "text-[17px]", 17)
    }
}

/// The classes every round button shares.
pub open spec fn round_base() -> Seq<char> {
    "rounded-full border border-white/40 bg-zinc-800/80 hover:bg-white/15 hover:border-white text-white flex items-center justify-center transition-all duration-150 active:scale-95 cursor-pointer shadow-md select-none shrink-0 "@
}

/// The class list of a round button: the shared classes, its dimension
/// classes and any extra classes.
pub fn circular_button_classes(dim_classes: &str, extra_class: &str) -> (s: String)
    ensures
        s@ == round_base() + dim_classes@ + " "@ + extra_class@,
{
    let mut s = string_of(
        "rounded-full border border-white/40 bg-zinc-800/80 hover:bg-white/15 hover:border-white text-white flex items-center justify-center transition-all duration-150 active:scale-95 cursor-pointer shadow-md select-none shrink-0 ",
    );
    s.append(dim_classes);
    s.append(" ");
    s.append(extra_class);
    s
}

/// The label of a play button.
pub fn play_label(is_resume: bool) -> (s: &'static str)
    ensures
        s@ == (if is_resume {
            "Resume"@
        } else {
            "Play"@
        }),
{
    if is_resume {
        "Resume"
    } else {
        "Play"
    }
}

/// What the mute/replay button offers.
#[derive(Clone, Copy, Debug, PartialEq, Eq, Structural)]
pub enum MuteReplayMode {
    /// The trailer ended: replay it.
    Replay,
    /// The trailer is muted: unmute it.
    Unmute,
    /// The trailer plays with sound: mute it.
    Mute,
}

/// The mute/replay button's mode: replay once the trailer ended, else
/// unmute or mute.
pub fn mute_replay_mode(is_ended: bool, is_muted: bool) -> (m: MuteReplayMode)
    ensures
        m == (if is_ended {
            MuteReplayMode::Replay
        } else if is_muted {
            MuteReplayMode::Unmute
        } else {
            MuteReplayMode::Mute
        }),
{
    if is_ended {
        MuteReplayMode::Replay
    } else if is_muted {
        MuteReplayMode::Unmute
    } else {
        MuteReplayMode::Mute
    }
}

impl MuteReplayMode {
    /// The button's tooltip.
    pub fn title(self) -> (s: &'static str)
        ensures
            s@ == match self {
                MuteReplayMode::Replay => "Replay trailer"@,
                MuteReplayMode::Unmute => "Unmute trailer"@,
                MuteReplayMode::Mute => "Mute trailer"@,
            },
    {
        match self {
            MuteReplayMode::Replay => "Replay trailer",
            MuteReplayMode::Unmute => "Unmute trailer",
            MuteReplayMode::Mute => "Mute trailer",
        }
    }

    /// The button's icon.
    pub fn icon(self) -> (s: &'static str)
        ensures
            s@ == match self {
                MuteReplayMode::Replay => "ph-arrow-counter-clockwise"@,
                MuteReplayMode::Unmute => "ph-speaker-slash"@,
                MuteReplayMode::Mute => "ph-speaker-high"@,
            },
    {
        match self {
            MuteReplayMode::Replay => "ph-arrow-counter-clockwise",
            MuteReplayMode::Unmute => "ph-speaker-slash",
            MuteReplayMode::Mute => "ph-speaker-high",
        }
    }
}

// ───────────────────────────── pills ─────────────────────────────

/// The padding, text and icon classes of a pill of the given size.
pub open spec fn pill_specs(size: Seq<char>) -> (Seq<char>, Seq<char>, Seq<char>) {
    if size == "sm"@ {
        ("px-3.5 py-1"@, "text-xs"@, "text-sm"@)
    } else if size == "lg"@ {
        ("px-6 sm:px-7 py-2 sm:py-2.5"@, "text-[15px] md:text-[17px]"@, "text-xl sm:text-[22px]"@)
    } else {
        ("px-4 sm:px-5 py-1.5 sm:py-2"@, "text-[13px] sm:text-sm"@, "text-base sm:text-lg"@)
    }
}

/// The padding, text and icon classes of a pill.
pub fn pill_size_classes(size: &str) -> (r: (&'static str, &'static str, &'static str))
    ensures
        (r.0@, r.1@, r.2@) == pill_specs(size@),
{
    if str_equal(size, "sm") {
        ("px-3.5 py-1", "text-xs", "text-sm")
    } else if str_equal(size, "lg") {
        ("px-6 sm:px-7 py-2 sm:py-2.5", "text-[15px] md:text-[17px]", "text-xl sm:text-[22px]")
    } else {
        ("px-4 sm:px-5 py-1.5 sm:py-2", "text-[13px] sm:text-sm", "text-base sm:text-lg")
    }
}

/// Whether a pill shape asks for rounded corners rather than a stadium.
pub open spec fn is_boxy(shape: Seq<char>) -> bool {
    shape == "rounded"@ || shape == "rect"@
}

/// The corner radius of a pill: a stadium, or for boxy pills a radius by size.
pub open spec fn pill_radius_spec(shape: Seq<char>, size: Seq<char>) -> Seq<char> {
    if is_boxy(shape) {
        if size == "sm"@ {
            "rounded-[4px]"@
        } else if size == "lg"@ {
            "rounded-[8px]"@
        } else {
            "rounded-[6px]"@
        }
    } else {
        "rounded-full"@
    }
}

/// The corner radius class of a pill.
pub fn pill_radius(shape: &str, size: &str) -> (s: &'static str)
    ensures
        s@ == pill_radius_spec(shape@, size@),
{
    if str_equal(shape, "rounded") || str_equal(shape, "rect") {
        if str_equal(size, "sm") {
            "rounded-[4px]"
        } else if str_equal(size, "lg") {
            "rounded-[8px]"
        } else {
            "rounded-[6px]"
        }
    } else {
        "rounded-full"
    }
}

/// The background of a "More Info" pill: frosted white when boxy, grey
/// glass otherwise.
pub fn more_info_background(shape: &str) -> (s: &'static str)
    ensures
        s@ == (if is_boxy(shape@) {
            "bg-white/20 hover:bg-white/30 backdrop-blur-md"@
        } else {
            "bg-[#6d6d6e]/70 hover:bg-[#6d6d6e]/40 backdrop-blur-sm"@
        }),
{
    if str_equal(shape, "rounded") || str_equal(shape, "rect") {
        "bg-white/20 hover:bg-white/30 backdrop-blur-md"
    } else {
        "bg-[#6d6d6e]/70 hover:bg-[#6d6d6e]/40 backdrop-blur-sm"
    }
}

/// The class list of a play pill: the shared classes, then padding, text,
/// radius, any extra classes, and `no-underline` when it is a link.
pub open spec fn play_pill_spec(size: Seq<char>, shape: Seq<char>, extra: Seq<char>, is_link: bool) -> Seq<char> {
    "bg-white text-black font-bold flex items-center justify-center gap-2.5 hover:bg-white/80 active:scale-95 transition-all shadow-md cursor-pointer select-none "@
        + pill_specs(size).0 + " "@ + pill_specs(size).1 + " "@ + pill_radius_spec(shape, size) + " "@ + extra
        + " "@ + (if is_link {
        "no-underline"@
    } else {
        Seq::<char>::empty()
    })
}

/// The class list of a play pill.
pub fn play_pill_classes(size: &str, shape: &str, extra: &str, is_link: bool) -> (s: String)
    ensures
        s@ == play_pill_spec(size@, shape@, extra@, is_link),
{
    let (pad, text, _) = pill_size_classes(size);
    let mut s = string_of(
        "bg-white text-black font-bold flex items-center justify-center gap-2.5 hover:bg-white/80 active:scale-95 transition-all shadow-md cursor-pointer select-none ",
    );
    s.append(pad);
    s.append(" ");
    s.append(text);
    s.append(" ");
    s.append(pill_radius(shape, size));
    s.append(" ");
    s.append(extra);
    s.append(" ");
    if is_link {
        s.append("no-underline");
    }
    proof {
        if !is_link {
            assert(s@ =~= play_pill_spec(size@, shape@, extra@, is_link));
        }
    }
    s
}

/// The class list of a "More Info" pill: background, the shared classes,
/// padding, text, radius, any extra classes, and a trailing space.
pub open spec fn more_info_pill_spec(size: Seq<char>, shape: Seq<char>, extra: Seq<char>) -> Seq<char> {
    (if is_boxy(shape) {
        "bg-white/20 hover:bg-white/30 backdrop-blur-md"@
    } else {
        "bg-[#6d6d6e]/70 hover:bg-[#6d6d6e]/40 backdrop-blur-sm"@
    }) + " text-white font-bold flex items-center justify-center gap-2.5 active:scale-95 transition-all shadow-md cursor-pointer select-none "@
        + pill_specs(size).0 + " "@ + pill_specs(size).1 + " "@ + pill_radius_spec(shape, size) + " "@ + extra
        + " "@
}

/// The class list of a "More Info" pill.
pub fn more_info_pill_classes(size: &str, shape: &str, extra: &str) -> (s: String)
    ensures
        s@ == more_info_pill_spec(size@, shape@, extra@),
{
    let (pad, text, _) = pill_size_classes(size);
    let mut s = string_of(more_info_background(shape));
    s.append(
        " text-white font-bold flex items-center justify-center gap-2.5 active:scale-95 transition-all shadow-md cursor-pointer select-none ",
    );
    s.append(pad);
    s.append(" ");
    s.append(text);
    s.append(" ");
    s.append(pill_radius(shape, size));
    s.append(" ");
    s.append(extra);
    s.append(" ");
    s
}

} // verus!
