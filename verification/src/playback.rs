//! When background trailers play: the hero banner's trailer (a short idle
//! delay before it starts, pausing when scrolled away, unloading after a
//! long absence, handing off to the details modal), the details modal's
//! banner, and the trailer player itself: how it answers the YouTube
//! iframe's messages, its safety fallback timer, and its reaction to the
//! browser tab being hidden.
//!
//! Both are state machines: the host reports what happened, and carries out
//! the returned effects (player commands, timers).

use vstd::prelude::*;
use crate::player::YtSignals;

verus! {

/// The idle delay before the hero trailer starts (ms).
pub const TRAILER_DELAY_MS: i32 = 2500;

/// How long a trailer may stay out of sight before it is unloaded (ms).
pub const UNLOAD_DELAY_MS: i32 = 15000;

// ───────────────────────────── hero trailer ─────────────────────────────

/// The hero trailer's state; it is always well formed (see `hero_wf`).
#[derive(Clone, Copy, Debug)]
pub struct HeroTrailer {
    show_video: bool,
    video_ready: bool,
    ended: bool,
    out_of_view: bool,
    unloaded: bool,
    delay_pending: bool,
    unload_pending: bool,
}

/// The hero trailer's state as plain values.
pub struct HeroState {
    /// The idle delay has run out: the trailer may show.
    pub show_video: bool,
    /// The player reported that it is playing.
    pub video_ready: bool,
    /// The trailer played to its end.
    pub ended: bool,
    /// Less than 45% of the banner is in view.
    pub out_of_view: bool,
    /// The player was unloaded after a long absence.
    pub unloaded: bool,
    /// The idle-delay timer is pending.
    pub delay_pending: bool,
    /// The unload timer is pending.
    pub unload_pending: bool,
}

impl View for HeroTrailer {
    type V = HeroState;

    closed spec fn view(&self) -> HeroState {
        HeroState {
            show_video: self.show_video,
            video_ready: self.video_ready,
            ended: self.ended,
            out_of_view: self.out_of_view,
            unloaded: self.unloaded,
            delay_pending: self.delay_pending,
            unload_pending: self.unload_pending,
        }
    }
}

/// What happens to the hero trailer.
#[derive(Clone, Copy, Debug, PartialEq, Eq, Structural)]
pub enum HeroEvent {
    /// The banner mounted, or its title changed: start over.
    Restart,
    /// The idle delay ran out.
    DelayDue,
    /// The banner's share in view crossed 45%; `out` tells which way. The
    /// details modal's and the card popups' state are reported with it.
    Visibility { out: bool, modal_open: bool, popup_open: bool },
    /// The unload timer ran out.
    UnloadDue,
    /// The player started playing.
    Ready,
    /// The trailer reached its end.
    Ended,
    /// The mute/replay button was pressed.
    MuteReplayPressed,
    /// The replay control forced a replay.
    ForceReplay,
    /// The details modal opened.
    ModalOpened,
    /// The details modal closed; `paused_by_modal` tells whether the hero
    /// had paused for it, `resume_here` whether the modal recorded a
    /// playback time for this title.
    ModalClosed { paused_by_modal: bool, resume_here: bool },
}

/// What the host must do after a hero step.
#[derive(Clone, Copy, Debug, PartialEq, Eq, Structural)]
pub struct HeroEffects {
    /// Send `pauseVideo` to the player.
    pub pause: bool,
    /// Send `playVideo` to the player.
    pub play: bool,
    /// Send `playVideo` again shortly after (80 ms).
    pub play_again_soon: bool,
    /// Send `seekTo` then `playVideo` to restart the trailer.
    pub rewind: bool,
    /// Flip the preview mute setting and tell the player.
    pub toggle_mute: bool,
    /// Seek the player to the time the modal recorded.
    pub seek_to_recorded: bool,
    /// Clear the "paused by the modal" mark.
    pub clear_modal_mark: bool,
    /// Cancel the pending idle-delay timer.
    pub cancel_delay: bool,
    /// Schedule the idle-delay timer (`TRAILER_DELAY_MS`).
    pub schedule_delay: bool,
    /// Cancel the pending unload timer.
    pub cancel_unload: bool,
    /// Schedule the unload timer (`UNLOAD_DELAY_MS`).
    pub schedule_unload: bool,
}

/// No effect at all.
pub open spec fn no_hero_effects() -> HeroEffects {
    HeroEffects {
        pause: false,
        play: false,
        play_again_soon: false,
        rewind: false,
        toggle_mute: false,
        seek_to_recorded: false,
        clear_modal_mark: false,
        cancel_delay: false,
        schedule_delay: false,
        cancel_unload: false,
        schedule_unload: false,
    }
}

/// The unload timer runs only while the banner is out of view.
pub open spec fn hero_wf(s: HeroState) -> bool {
    s.unload_pending ==> s.out_of_view
}

/// The state after starting over: nothing shown or ended, the idle delay
/// pending.
pub open spec fn restarted(s: HeroState) -> HeroState {
    HeroState { show_video: false, video_ready: false, ended: false, delay_pending: true, ..s }
}

/// One step of the hero trailer.
pub open spec fn hero_step(s: HeroState, e: HeroEvent) -> (HeroState, HeroEffects) {
    match e {
        HeroEvent::Restart => (
            restarted(s),
            HeroEffects { cancel_delay: s.delay_pending, schedule_delay: true, ..no_hero_effects() },
        ),
        HeroEvent::DelayDue => (HeroState { show_video: true, delay_pending: false, ..s }, no_hero_effects()),
        HeroEvent::Visibility { out, modal_open, popup_open } => if out == s.out_of_view {
            (s, no_hero_effects())
        } else if out {
            (
                HeroState { out_of_view: true, unload_pending: true, ..s },
                HeroEffects {
                    pause: true,
                    cancel_unload: s.unload_pending,
                    schedule_unload: true,
                    ..no_hero_effects()
                },
            )
        } else if s.unloaded {
            (
                HeroState { out_of_view: false, unload_pending: false, unloaded: false, show_video: true, ..s },
                HeroEffects { cancel_unload: s.unload_pending, ..no_hero_effects() },
            )
        } else {
            (
                HeroState { out_of_view: false, unload_pending: false, ..s },
                HeroEffects {
                    cancel_unload: s.unload_pending,
                    play: s.show_video && !s.ended && !modal_open && !popup_open,
                    ..no_hero_effects()
                },
            )
        },
        HeroEvent::UnloadDue => (
            HeroState { unloaded: true, show_video: false, video_ready: false, unload_pending: false, ..s },
            no_hero_effects(),
        ),
        HeroEvent::Ready => (HeroState { video_ready: true, ..s }, no_hero_effects()),
        HeroEvent::Ended => (HeroState { ended: true, ..s }, no_hero_effects()),
        HeroEvent::MuteReplayPressed => if s.ended {
            (
                restarted(s),
                HeroEffects { cancel_delay: s.delay_pending, schedule_delay: true, ..no_hero_effects() },
            )
        } else {
            (s, HeroEffects { toggle_mute: true, ..no_hero_effects() })
        },
        HeroEvent::ForceReplay => (
            restarted(s),
            HeroEffects {
                cancel_delay: s.delay_pending,
                schedule_delay: true,
                rewind: true,
                ..no_hero_effects()
            },
        ),
        HeroEvent::ModalOpened => (s, HeroEffects { pause: true, ..no_hero_effects() }),
        HeroEvent::ModalClosed { paused_by_modal, resume_here } => if !paused_by_modal {
            (s, no_hero_effects())
        } else {
            let t = if resume_here {
                HeroState { ended: false, show_video: true, ..s }
            } else {
                s
            };
            let go = t.show_video && !t.ended && !t.out_of_view;
            (
                t,
                HeroEffects {
                    clear_modal_mark: true,
                    seek_to_recorded: resume_here,
                    play: go,
                    play_again_soon: go,
                    ..no_hero_effects()
                },
            )
        },
    }
}

/// Whether the hero trailer plays: the delay ran out, a trailer is known,
/// it has not ended, the banner is in view and loaded, and neither the
/// details modal nor a card popup is open.
pub open spec fn hero_should_play(s: HeroState, has_trailer: bool, modal_open: bool, popup_open: bool) -> bool {
    s.show_video && has_trailer && !s.ended && !s.out_of_view && !s.unloaded && !modal_open && !popup_open
}

impl HeroTrailer {
    /// Every hero trailer is well formed.
    #[verifier::type_invariant]
    spec fn well_formed(&self) -> bool {
        hero_wf(self@)
    }

    /// Whether the idle delay has run out.
    pub fn show_video(&self) -> (b: bool)
        ensures
            b == self@.show_video,
    {
        self.show_video
    }

    /// Whether the trailer played to its end.
    pub fn ended(&self) -> (b: bool)
        ensures
            b == self@.ended,
    {
        self.ended
    }

    /// Whether the player was unloaded.
    pub fn unloaded(&self) -> (b: bool)
        ensures
            b == self@.unloaded,
    {
        self.unloaded
    }

    /// A freshly mounted banner, before its first `Restart`.
    pub fn new() -> (t: HeroTrailer)
        ensures
            hero_wf(t@),
            !t@.show_video && !t@.video_ready && !t@.ended && !t@.out_of_view && !t@.unloaded,
            !t@.delay_pending && !t@.unload_pending,
    {
        HeroTrailer {
            show_video: false,
            video_ready: false,
            ended: false,
            out_of_view: false,
            unloaded: false,
            delay_pending: false,
            unload_pending: false,
        }
    }

    /// Applies one event (see `hero_step`).
    pub fn step(self, e: HeroEvent) -> (r: (HeroTrailer, HeroEffects))
        ensures
            r.0@ == hero_step(self@, e).0,
            r.1 == hero_step(self@, e).1,
            hero_wf(r.0@),
    {
        proof {
            use_type_invariant(&self);
        }
        let none = HeroEffects {
            pause: false,
            play: false,
            play_again_soon: false,
            rewind: false,
            toggle_mute: false,
            seek_to_recorded: false,
            clear_modal_mark: false,
            cancel_delay: false,
            schedule_delay: false,
            cancel_unload: false,
            schedule_unload: false,
        };
        let again = HeroTrailer { show_video: false, video_ready: false, ended: false, delay_pending: true, ..self };
        match e {
            HeroEvent::Restart => (again, HeroEffects { cancel_delay: self.delay_pending, schedule_delay: true, ..none }),
            HeroEvent::DelayDue => (HeroTrailer { show_video: true, delay_pending: false, ..self }, none),
            HeroEvent::Visibility { out, modal_open, popup_open } => if out == self.out_of_view {
                (self, none)
            } else if out {
                (
                    HeroTrailer { out_of_view: true, unload_pending: true, ..self },
                    HeroEffects { pause: true, cancel_unload: self.unload_pending, schedule_unload: true, ..none },
                )
            } else if self.unloaded {
                (
                    HeroTrailer {
                        out_of_view: false,
                        unload_pending: false,
                        unloaded: false,
                        show_video: true,
                        ..self
                    },
                    HeroEffects { cancel_unload: self.unload_pending, ..none },
                )
            } else {
                (
                    HeroTrailer { out_of_view: false, unload_pending: false, ..self },
                    HeroEffects {
                        cancel_unload: self.unload_pending,
                        play: self.show_video && !self.ended && !modal_open && !popup_open,
                        ..none
                    },
                )
            },
            HeroEvent::UnloadDue => (
                HeroTrailer { unloaded: true, show_video: false, video_ready: false, unload_pending: false, ..self },
                none,
            ),
            HeroEvent::Ready => (HeroTrailer { video_ready: true, ..self }, none),
            HeroEvent::Ended => (HeroTrailer { ended: true, ..self }, none),
            HeroEvent::MuteReplayPressed => if self.ended {
                (again, HeroEffects { cancel_delay: self.delay_pending, schedule_delay: true, ..none })
            } else {
                (self, HeroEffects { toggle_mute: true, ..none })
            },
            HeroEvent::ForceReplay => (
                again,
                HeroEffects { cancel_delay: self.delay_pending, schedule_delay: true, rewind: true, ..none },
            ),
            HeroEvent::ModalOpened => (self, HeroEffects { pause: true, ..none }),
            HeroEvent::ModalClosed { paused_by_modal, resume_here } => if !paused_by_modal {
                (self, none)
            } else {
                let t = if resume_here {
                    HeroTrailer { ended: false, show_video: true, ..self }
                } else {
                    self
                };
                let go = t.show_video && !t.ended && !t.out_of_view;
                (
                    t,
                    HeroEffects {
                        clear_modal_mark: true,
                        seek_to_recorded: resume_here,
                        play: go,
                        play_again_soon: go,
                        ..none
                    },
                )
            },
        }
    }

    /// Whether the trailer plays (see `hero_should_play`).
    pub fn should_play(&self, has_trailer: bool, modal_open: bool, popup_open: bool) -> (b: bool)
        ensures
            b == hero_should_play(self@, has_trailer, modal_open, popup_open),
    {
        self.show_video && has_trailer && !self.ended && !self.out_of_view && !self.unloaded && !modal_open
            && !popup_open
    }

    /// Whether the trailer is visible: it plays and the player is ready.
    pub fn is_visible(&self, has_trailer: bool, modal_open: bool, popup_open: bool) -> (b: bool)
        ensures
            b == (hero_should_play(self@, has_trailer, modal_open, popup_open) && self@.video_ready),
    {
        self.should_play(has_trailer, modal_open, popup_open) && self.video_ready
    }
}

/// When the details modal closes after the hero paused for it, the hero
/// resumes (`playVideo`, and again shortly after) exactly when its trailer
/// is shown, not ended and in view, whether or not the modal recorded a
/// playback time; a recorded time also seeks there and shows the trailer
/// again even if it had ended. When the hero had not paused for the modal,
/// closing it changes nothing.
pub proof fn law_modal_close_resumes(s: HeroState)
    ensures
        ({
            let (t, fx) = hero_step(s, HeroEvent::ModalClosed { paused_by_modal: true, resume_here: false });
            &&& fx.play == (s.show_video && !s.ended && !s.out_of_view)
            &&& fx.play_again_soon == fx.play
            &&& fx.clear_modal_mark && !fx.seek_to_recorded
            &&& t == s
        }),
        ({
            let (t, fx) = hero_step(s, HeroEvent::ModalClosed { paused_by_modal: true, resume_here: true });
            &&& fx.play == !s.out_of_view
            &&& fx.play_again_soon == fx.play
            &&& fx.clear_modal_mark && fx.seek_to_recorded
            &&& t.show_video && !t.ended
        }),
        forall|r: bool|
            #![trigger hero_step(s, HeroEvent::ModalClosed { paused_by_modal: false, resume_here: r })]
            hero_step(s, HeroEvent::ModalClosed { paused_by_modal: false, resume_here: r }).0 == s
                && !hero_step(s, HeroEvent::ModalClosed { paused_by_modal: false, resume_here: r }).1.play
                && !hero_step(s, HeroEvent::ModalClosed { paused_by_modal: false, resume_here: r }).1.clear_modal_mark,
{
}

/// The trailer's end and its replay: an ended trailer stops playing; the
/// mute/replay button on an ended trailer starts over (idle delay again,
/// sound left alone), and on a running one only flips the sound; the
/// forced replay always starts over and rewinds. After the idle delay a
/// restarted trailer in view, loaded and not hidden behind the modal or a
/// popup plays again.
pub proof fn law_end_and_replay(s: HeroState, has_trailer: bool)
    ensures
        !hero_should_play(hero_step(s, HeroEvent::Ended).0, has_trailer, false, false),
        !hero_step(s, HeroEvent::Ended).1.play,
        s.ended ==> ({
            let (t, fx) = hero_step(s, HeroEvent::MuteReplayPressed);
            !t.ended && !t.show_video && t.delay_pending && fx.schedule_delay && !fx.toggle_mute
        }),
        !s.ended ==> ({
            let (t, fx) = hero_step(s, HeroEvent::MuteReplayPressed);
            t == s && fx.toggle_mute && !fx.schedule_delay && !fx.play && !fx.pause
        }),
        ({
            let (t, fx) = hero_step(s, HeroEvent::ForceReplay);
            !t.ended && !t.show_video && fx.rewind && fx.schedule_delay
        }),
        !s.out_of_view && !s.unloaded ==> hero_should_play(
            hero_step(hero_step(s, HeroEvent::ForceReplay).0, HeroEvent::DelayDue).0,
            has_trailer,
            false,
            false,
        ) == has_trailer,
{
}

/// The player reporting that it plays only makes the trailer visible: what
/// decides whether it plays is unchanged.
pub proof fn law_ready_shows(s: HeroState, has_trailer: bool, m: bool, p: bool)
    ensures
        hero_step(s, HeroEvent::Ready).0.video_ready,
        hero_should_play(hero_step(s, HeroEvent::Ready).0, has_trailer, m, p) == hero_should_play(s, has_trailer, m, p),
        !hero_step(s, HeroEvent::Ready).1.play && !hero_step(s, HeroEvent::Ready).1.pause,
{
}

/// Opening the details modal pauses the hero and changes nothing else.
pub proof fn law_modal_open_pauses(s: HeroState)
    ensures
        hero_step(s, HeroEvent::ModalOpened).0 == s,
        hero_step(s, HeroEvent::ModalOpened).1.pause,
        !hero_step(s, HeroEvent::ModalOpened).1.play,
{
}

/// A banner scrolled out of view never plays, and scrolling it away pauses
/// the player and starts the unload countdown.
pub proof fn law_hidden_banner_is_silent(s: HeroState, modal_open: bool, popup_open: bool)
    requires
        hero_wf(s),
        !s.out_of_view,
    ensures
        !hero_should_play(
            hero_step(s, HeroEvent::Visibility { out: true, modal_open, popup_open }).0,
            true,
            modal_open,
            popup_open,
        ),
        hero_step(s, HeroEvent::Visibility { out: true, modal_open, popup_open }).1.pause,
        hero_step(s, HeroEvent::Visibility { out: true, modal_open, popup_open }).1.schedule_unload,
{
}

/// Coming back after the trailer was unloaded loads it again, at once.
pub proof fn law_reload_on_return(s: HeroState, m1: bool, p1: bool, m2: bool, p2: bool)
    requires
        hero_wf(s),
        !s.out_of_view,
    ensures
        ({
            let away = hero_step(s, HeroEvent::Visibility { out: true, modal_open: m1, popup_open: p1 }).0;
            let gone = hero_step(away, HeroEvent::UnloadDue).0;
            let back = hero_step(gone, HeroEvent::Visibility { out: false, modal_open: m2, popup_open: p2 }).0;
            back.show_video && !back.unloaded && !back.out_of_view && !back.unload_pending
        }),
{
}

/// Coming back before the unload delay resumes a trailer that was playing,
/// and cancels the countdown.
pub proof fn law_resume_on_quick_return(s: HeroState)
    requires
        hero_wf(s),
        !s.out_of_view,
        !s.unloaded,
        s.show_video,
        !s.ended,
    ensures
        ({
            let away = hero_step(s, HeroEvent::Visibility { out: true, modal_open: false, popup_open: false });
            let back = hero_step(away.0, HeroEvent::Visibility { out: false, modal_open: false, popup_open: false });
            back.1.play && back.1.cancel_unload && !back.0.unload_pending && hero_should_play(
                back.0,
                true,
                false,
                false,
            )
        }),
{
}

/// Starting over (a new title, or a replay) hides the trailer until the
/// idle delay runs out again.
pub proof fn law_restart_waits(s: HeroState, has_trailer: bool, m: bool, p: bool)
    ensures
        !hero_should_play(hero_step(s, HeroEvent::Restart).0, has_trailer, m, p),
        hero_step(s, HeroEvent::Restart).1.schedule_delay,
        !hero_step(s, HeroEvent::Restart).0.ended,
{
}

/// Opening the details modal pauses the hero; closing it, after the hero
/// paused for it with a time recorded for this title, seeks the hero to
/// that time and resumes it when the banner is in view.
pub proof fn law_modal_hand_off(s: HeroState)
    requires
        hero_wf(s),
    ensures
        hero_step(s, HeroEvent::ModalOpened).1.pause,
        hero_step(s, HeroEvent::ModalOpened).0 == s,
        ({
            let (t, fx) = hero_step(s, HeroEvent::ModalClosed { paused_by_modal: true, resume_here: true });
            fx.seek_to_recorded && fx.clear_modal_mark && t.show_video && !t.ended && (fx.play <==> !s.out_of_view)
        }),
{
}

// ───────────────────────────── hero ⇄ details-modal hand-off ─────────────────────────────

/// What the hero banner and the details modal share to hand a trailer over:
/// whether the hero paused for the modal, and the title whose modal closed
/// with a playback time past zero, not yet taken up. (The time itself is a
/// float the host keeps beside it.)
#[derive(Clone, Copy, Debug, PartialEq, Eq, Structural)]
pub struct HandOff {
    pub paused_by_modal: bool,
    pub closing_title: Option<u32>,
}

/// What happens to the hand-off.
#[derive(Clone, Copy, Debug, PartialEq, Eq, Structural)]
pub enum HandOffEvent {
    /// The hero's "More Info" opened the modal (the hero pauses).
    HeroOpensModal,
    /// A card opened the modal (the hero was not the one paused).
    CardOpensModal,
    /// The modal of `title` closed; `time_positive` tells whether its
    /// playback time was past zero.
    ModalCloses { title: u32, time_positive: bool },
    /// The hero showing `hero_title` saw the modal close.
    HeroSeesClose { hero_title: u32 },
}

/// One step of the hand-off, with the event it hands to the hero trailer
/// (`HeroEvent::ModalClosed`) when the hero sees the modal close.
pub open spec fn hand_off_step(h: HandOff, e: HandOffEvent) -> (HandOff, Option<HeroEvent>) {
    match e {
        HandOffEvent::HeroOpensModal => (HandOff { paused_by_modal: true, ..h }, None),
        HandOffEvent::CardOpensModal => (HandOff { paused_by_modal: false, ..h }, None),
        HandOffEvent::ModalCloses { title, time_positive } => (
            if time_positive {
                HandOff { closing_title: Some(title), ..h }
            } else {
                h
            },
            None,
        ),
        HandOffEvent::HeroSeesClose { hero_title } => if h.paused_by_modal {
            (
                HandOff { paused_by_modal: false, closing_title: None },
                Some(HeroEvent::ModalClosed { paused_by_modal: true, resume_here: h.closing_title == Some(hero_title) }),
            )
        } else {
            (h, Some(HeroEvent::ModalClosed { paused_by_modal: false, resume_here: false }))
        },
    }
}

impl HandOff {
    /// Nothing handed over yet.
    pub fn new() -> (h: HandOff)
        ensures
            !h.paused_by_modal && h.closing_title is None,
    {
        HandOff { paused_by_modal: false, closing_title: None }
    }

    /// Applies one event (see `hand_off_step`).
    pub fn step(self, e: HandOffEvent) -> (r: (HandOff, Option<HeroEvent>))
        ensures
            r == hand_off_step(self, e),
    {
        match e {
            HandOffEvent::HeroOpensModal => (HandOff { paused_by_modal: true, ..self }, None),
            HandOffEvent::CardOpensModal => (HandOff { paused_by_modal: false, ..self }, None),
            HandOffEvent::ModalCloses { title, time_positive } => (
                if time_positive {
                    HandOff { closing_title: Some(title), ..self }
                } else {
                    self
                },
                None,
            ),
            HandOffEvent::HeroSeesClose { hero_title } => if self.paused_by_modal {
                let here = match self.closing_title {
                    Some(t) => t == hero_title,
                    None => false,
                };
                (
                    HandOff { paused_by_modal: false, closing_title: None },
                    Some(HeroEvent::ModalClosed { paused_by_modal: true, resume_here: here }),
                )
            } else {
                (self, Some(HeroEvent::ModalClosed { paused_by_modal: false, resume_here: false }))
            },
        }
    }
}

/// A trailer handed from the hero to the details modal comes back: when the
/// hero opened the modal for its title and the modal closed past the start,
/// the hero resumes from the recorded time, and the record is taken up, so
/// a later close without a new record does not resume again. A modal opened
/// from a card never resumes the hero.
pub proof fn law_hand_off_round_trip(h: HandOff, title: u32)
    ensures
        ({
            let opened = hand_off_step(h, HandOffEvent::HeroOpensModal).0;
            let closed = hand_off_step(opened, HandOffEvent::ModalCloses { title, time_positive: true }).0;
            let (seen, ev) = hand_off_step(closed, HandOffEvent::HeroSeesClose { hero_title: title });
            &&& ev == Some(HeroEvent::ModalClosed { paused_by_modal: true, resume_here: true })
            &&& seen.closing_title is None && !seen.paused_by_modal
            &&& hand_off_step(seen, HandOffEvent::HeroSeesClose { hero_title: title }).1 == Some(
                HeroEvent::ModalClosed { paused_by_modal: false, resume_here: false },
            )
        }),
        ({
            let opened = hand_off_step(h, HandOffEvent::CardOpensModal).0;
            let closed = hand_off_step(opened, HandOffEvent::ModalCloses { title, time_positive: true }).0;
            hand_off_step(closed, HandOffEvent::HeroSeesClose { hero_title: title }).1 == Some(
                HeroEvent::ModalClosed { paused_by_modal: false, resume_here: false },
            )
        }),
{
}

/// What the shared store holds about the details modal: whether it is
/// open, on which title, the trailer the hero handed over, the card whose
/// popup is open, and the hero's hand-off. (The playback times are floats
/// the host keeps beside it.)
pub struct ModalStore {
    pub open: bool,
    pub movie_id: Option<u32>,
    pub is_tv: bool,
    pub video_key: Option<String>,
    pub is_teaser: bool,
    pub active_popup: Option<String>,
    pub hand_off: HandOff,
}

impl ModalStore {
    /// The hero's "More Info": the hero pauses for the modal and hands its
    /// trailer over (the host records the hero's playback time as the
    /// modal's start time).
    pub fn open_from_hero(&mut self, id: u32, is_tv: bool, video_key: Option<String>, is_teaser: bool)
        ensures
            final(self).open,
            final(self).movie_id == Some(id),
            final(self).is_tv == is_tv,
            final(self).video_key == video_key,
            final(self).is_teaser == is_teaser,
            final(self).active_popup == old(self).active_popup,
            final(self).hand_off == hand_off_step(old(self).hand_off, HandOffEvent::HeroOpensModal).0,
    {
        self.hand_off = self.hand_off.step(HandOffEvent::HeroOpensModal).0;
        self.video_key = video_key;
        self.is_teaser = is_teaser;
        self.movie_id = Some(id);
        self.is_tv = is_tv;
        self.open = true;
    }

    /// A click on a card (a row card or a top-ten card): no popup stays
    /// open and the hero is not the one paused (the host sets the modal's
    /// times to zero); the handed-over trailer is left as it was.
    pub fn open_from_card(&mut self, id: u32, is_tv: bool)
        ensures
            final(self).open,
            final(self).movie_id == Some(id),
            final(self).is_tv == is_tv,
            final(self).video_key == old(self).video_key,
            final(self).is_teaser == old(self).is_teaser,
            final(self).active_popup is None,
            final(self).hand_off == hand_off_step(old(self).hand_off, HandOffEvent::CardOpensModal).0,
    {
        self.active_popup = None;
        self.hand_off = self.hand_off.step(HandOffEvent::CardOpensModal).0;
        self.movie_id = Some(id);
        self.is_tv = is_tv;
        self.open = true;
    }

    /// The modal closes: it records its title for the hero when its
    /// playback time (or, before any update, its start time) is past zero,
    /// and drops the handed-over trailer (the host sets both times to zero,
    /// and the banner takes `BannerEvent::Closed`).
    pub fn close(&mut self, time_positive: bool)
        ensures
            !final(self).open,
            final(self).video_key is None,
            final(self).movie_id == old(self).movie_id,
            final(self).is_tv == old(self).is_tv,
            final(self).is_teaser == old(self).is_teaser,
            final(self).active_popup == old(self).active_popup,
            final(self).hand_off == match old(self).movie_id {
                Some(id) => hand_off_step(old(self).hand_off, HandOffEvent::ModalCloses { title: id, time_positive }).0,
                None => old(self).hand_off,
            },
    {
        match self.movie_id {
            Some(id) => {
                self.hand_off = self.hand_off.step(HandOffEvent::ModalCloses { title: id, time_positive }).0;
            },
            None => {},
        }
        self.video_key = None;
        self.open = false;
    }

    /// A click in a card's popup: the popup closes and the modal opens;
    /// the hand-off and the times are left as they were.
    pub fn open_from_popup(&mut self, id: u32, is_tv: bool)
        ensures
            final(self).open,
            final(self).movie_id == Some(id),
            final(self).is_tv == is_tv,
            final(self).video_key == old(self).video_key,
            final(self).is_teaser == old(self).is_teaser,
            final(self).active_popup is None,
            final(self).hand_off == old(self).hand_off,
    {
        self.active_popup = None;
        self.movie_id = Some(id);
        self.is_tv = is_tv;
        self.open = true;
    }
}

// ───────────────────────────── details-modal trailer ─────────────────────────────

/// The trailer banner at the top of the details modal.
#[derive(Clone, Copy, Debug, PartialEq, Eq, Structural)]
pub struct ModalBanner {
    /// A trailer was found and is meant to play.
    pub playing: bool,
    /// The player reported that it is playing.
    pub ready: bool,
    /// The trailer played to its end.
    pub ended: bool,
    /// The banner is scrolled out of view.
    pub out_of_view: bool,
    /// The player was unloaded after a long absence.
    pub unloaded: bool,
    /// The unload timer is pending.
    pub unload_pending: bool,
}

/// What happens to the modal's banner.
#[derive(Clone, Copy, Debug, PartialEq, Eq, Structural)]
pub enum BannerEvent {
    /// Another title is shown: its trailer is not known yet.
    TitleChanged,
    /// The title's trailer was found: play it.
    TrailerFound,
    /// The player started playing.
    Ready,
    /// The trailer reached its end.
    Ended,
    /// The replay button was pressed.
    Replay,
    /// The banner crossed the out-of-view line; `out` tells which way.
    Scrolled { out: bool },
    /// The unload timer ran out.
    UnloadDue,
    /// The modal closed.
    Closed,
}

/// What the host must do after a banner step.
#[derive(Clone, Copy, Debug, PartialEq, Eq, Structural)]
pub struct BannerEffects {
    /// Send `pauseVideo`.
    pub pause: bool,
    /// Send `playVideo`.
    pub play: bool,
    /// Cancel the pending unload timer.
    pub cancel_unload: bool,
    /// Schedule the unload timer (`UNLOAD_DELAY_MS`).
    pub schedule_unload: bool,
}

/// One step of the modal's banner.
pub open spec fn banner_step(s: ModalBanner, e: BannerEvent) -> (ModalBanner, BannerEffects) {
    let none = BannerEffects { pause: false, play: false, cancel_unload: false, schedule_unload: false };
    match e {
        BannerEvent::TitleChanged => (ModalBanner { playing: false, ready: false, ended: false, ..s }, none),
        BannerEvent::TrailerFound => (ModalBanner { playing: true, ..s }, none),
        BannerEvent::Ready => (ModalBanner { ready: true, ..s }, none),
        BannerEvent::Ended => (ModalBanner { ended: true, playing: false, ready: false, ..s }, none),
        BannerEvent::Replay => (ModalBanner { ended: false, playing: true, ..s }, none),
        BannerEvent::Scrolled { out } => if out == s.out_of_view {
            (s, none)
        } else if out {
            (
                ModalBanner { out_of_view: true, unload_pending: true, ..s },
                BannerEffects { pause: true, cancel_unload: s.unload_pending, schedule_unload: true, ..none },
            )
        } else if s.unloaded {
            (
                ModalBanner { out_of_view: false, unload_pending: false, unloaded: false, ..s },
                BannerEffects { cancel_unload: s.unload_pending, ..none },
            )
        } else {
            (
                ModalBanner { out_of_view: false, unload_pending: false, ..s },
                BannerEffects { cancel_unload: s.unload_pending, play: s.playing && !s.ended, ..none },
            )
        },
        BannerEvent::UnloadDue => (ModalBanner { unloaded: true, ready: false, unload_pending: false, ..s }, none),
        BannerEvent::Closed => (
            ModalBanner {
                playing: false,
                ready: false,
                ended: false,
                out_of_view: false,
                unloaded: false,
                unload_pending: false,
            },
            BannerEffects { cancel_unload: s.unload_pending, ..none },
        ),
    }
}

/// Whether the modal's trailer plays: found, not ended, in view and loaded.
pub open spec fn banner_plays(s: ModalBanner) -> bool {
    s.playing && !s.ended && !s.out_of_view && !s.unloaded
}

/// Whether the video covers the banner's still: it plays, the player is
/// ready, and the banner is in view.
pub open spec fn banner_shows_video(s: ModalBanner) -> bool {
    s.ready && s.playing && !s.ended && !s.out_of_view
}

impl ModalBanner {
    /// A closed modal's banner.
    pub fn new() -> (b: ModalBanner)
        ensures
            !b.playing && !b.ready && !b.ended && !b.out_of_view && !b.unloaded && !b.unload_pending,
    {
        ModalBanner { playing: false, ready: false, ended: false, out_of_view: false, unloaded: false, unload_pending: false }
    }

    /// Applies one event (see `banner_step`).
    pub fn step(self, e: BannerEvent) -> (r: (ModalBanner, BannerEffects))
        ensures
            r == banner_step(self, e),
    {
        let none = BannerEffects { pause: false, play: false, cancel_unload: false, schedule_unload: false };
        match e {
            BannerEvent::TitleChanged => (ModalBanner { playing: false, ready: false, ended: false, ..self }, none),
            BannerEvent::TrailerFound => (ModalBanner { playing: true, ..self }, none),
            BannerEvent::Ready => (ModalBanner { ready: true, ..self }, none),
            BannerEvent::Ended => (ModalBanner { ended: true, playing: false, ready: false, ..self }, none),
            BannerEvent::Replay => (ModalBanner { ended: false, playing: true, ..self }, none),
            BannerEvent::Scrolled { out } => if out == self.out_of_view {
                (self, none)
            } else if out {
                (
                    ModalBanner { out_of_view: true, unload_pending: true, ..self },
                    BannerEffects { pause: true, cancel_unload: self.unload_pending, schedule_unload: true, ..none },
                )
            } else if self.unloaded {
                (
                    ModalBanner { out_of_view: false, unload_pending: false, unloaded: false, ..self },
                    BannerEffects { cancel_unload: self.unload_pending, ..none },
                )
            } else {
                (
                    ModalBanner { out_of_view: false, unload_pending: false, ..self },
                    BannerEffects { cancel_unload: self.unload_pending, play: self.playing && !self.ended, ..none },
                )
            },
            BannerEvent::UnloadDue => (ModalBanner { unloaded: true, ready: false, unload_pending: false, ..self }, none),
            BannerEvent::Closed => (
                ModalBanner {
                    playing: false,
                    ready: false,
                    ended: false,
                    out_of_view: false,
                    unloaded: false,
                    unload_pending: false,
                },
                BannerEffects { cancel_unload: self.unload_pending, ..none },
            ),
        }
    }

    /// Whether the trailer plays (see `banner_plays`).
    pub fn plays(&self) -> (b: bool)
        ensures
            b == banner_plays(*self),
    {
        self.playing && !self.ended && !self.out_of_view && !self.unloaded
    }

    /// Whether the video covers the still (see `banner_shows_video`).
    pub fn shows_video(&self) -> (b: bool)
        ensures
            b == banner_shows_video(*self),
    {
        self.ready && self.playing && !self.ended && !self.out_of_view
    }
}

/// A banner scrolled away stops at once; back within the unload delay it
/// resumes, back later it reloads and plays again, and either way the
/// countdown is cancelled.
pub proof fn law_banner_scroll_round_trip(s: ModalBanner)
    requires
        s.playing,
        !s.ended,
        !s.out_of_view,
        !s.unloaded,
    ensures
        ({
            let (away, fx) = banner_step(s, BannerEvent::Scrolled { out: true });
            let (back, fx2) = banner_step(away, BannerEvent::Scrolled { out: false });
            !banner_plays(away) && fx.pause && fx.schedule_unload && fx2.play && fx2.cancel_unload && banner_plays(back)
        }),
        ({
            let away = banner_step(s, BannerEvent::Scrolled { out: true }).0;
            let gone = banner_step(away, BannerEvent::UnloadDue).0;
            let (back, fx) = banner_step(gone, BannerEvent::Scrolled { out: false });
            !banner_plays(gone) && !fx.play && fx.cancel_unload == gone.unload_pending && banner_plays(back)
                && !back.ready
        }),
{
}

// ───────────────────────────── trailer player ─────────────────────────────

/// How long the trailer player waits for a sign of playback before it
/// shows its frame anyway (ms).
pub const FALLBACK_DELAY_MS: i32 = 1200;

/// The trailer player's own state.
///
/// The safety fallback timers are not part of it: the player never cancels
/// one, so several may be pending at once, and each that runs out reports
/// `TrailerEvent::FallbackDue`.
#[derive(Clone, Copy, Debug, PartialEq, Eq, Structural)]
pub struct TrailerState {
    /// The video frame is ready to be shown.
    pub frame_ready: bool,
    /// The seek to the requested start time was sent for this video.
    pub initial_seek_done: bool,
    /// The player was asked to play at least once: the iframe is loaded.
    pub started: bool,
}

/// What happens to the trailer player. Its inputs `is_playing`, `is_muted`
/// and whether it has a video are passed to each step beside the event.
#[derive(Clone, Copy, Debug, PartialEq, Eq, Structural)]
pub enum TrailerEvent {
    /// A message of the YouTube iframe arrived. `signals` is what it says
    /// (see `read_yt_message`); `time_read` tells whether its `currentTime`
    /// parsed as a number; `near_end` whether, with its `currentTime` and
    /// `duration` parsed, the video is longer than 25 s and less than 7 s
    /// (but more than none) is left; `wants_initial_seek` whether a start
    /// time over half a second was requested.
    Message { signals: YtSignals, time_read: bool, near_end: bool, wants_initial_seek: bool },
    /// The `is_playing` input changed.
    PlayingChanged,
    /// Whether the player may play changed: asked to, with the tab shown and
    /// the player loaded (see `TabState::allows_play`).
    PlaybackAllowed { allowed: bool },
    /// A safety fallback timer ran out.
    FallbackDue,
    /// The video changed.
    KeyChanged,
    /// The player was unloaded after the tab stayed hidden.
    Unloaded,
    /// The player is loaded again after the tab came back.
    Reloaded,
}

/// What the host must do after a trailer step.
#[derive(Clone, Copy, Debug, PartialEq, Eq, Structural)]
pub struct TrailerEffects {
    /// Send `playVideo`.
    pub play: bool,
    /// Send the `listening` handshake.
    pub listen: bool,
    /// Send `pauseVideo`.
    pub pause: bool,
    /// Restart the playback-time ticker.
    pub start_ticker: bool,
    /// Stop the playback-time ticker.
    pub stop_ticker: bool,
    /// Send `unMute`.
    pub unmute: bool,
    /// Seek to the requested start time.
    pub seek_initial: bool,
    /// Run the `on_ready` callback.
    pub run_on_ready: bool,
    /// Run the `on_ended` callback: the video reported its end.
    pub run_on_ended: bool,
    /// Run the `on_ended` callback: the outro is cut short.
    pub cut_outro: bool,
    /// Take in the reported playback time.
    pub report_time: bool,
    /// Schedule a safety fallback timer (`FALLBACK_DELAY_MS`).
    pub schedule_fallback: bool,
}

/// No effect at all.
pub open spec fn no_trailer_effects() -> TrailerEffects {
    TrailerEffects {
        play: false,
        listen: false,
        pause: false,
        start_ticker: false,
        stop_ticker: false,
        unmute: false,
        seek_initial: false,
        run_on_ready: false,
        run_on_ended: false,
        cut_outro: false,
        report_time: false,
        schedule_fallback: false,
    }
}

/// The safety check that runs whenever the playing input or the video
/// changes: while playing a video, schedule a fallback timer; otherwise
/// hide the frame.
pub open spec fn fallback_check(s: TrailerState, is_playing: bool, has_key: bool) -> (TrailerState, TrailerEffects) {
    if is_playing && has_key {
        (s, TrailerEffects { schedule_fallback: true, ..no_trailer_effects() })
    } else {
        (TrailerState { frame_ready: false, ..s }, no_trailer_effects())
    }
}

/// One step of the trailer player.
pub open spec fn trailer_step(
    s: TrailerState,
    e: TrailerEvent,
    is_playing: bool,
    is_muted: bool,
    has_key: bool,
) -> (TrailerState, TrailerEffects) {
    let none = no_trailer_effects();
    match e {
        TrailerEvent::Message { signals, time_read, near_end, wants_initial_seek } => {
            let confirmed = signals.playing;
            let seek = confirmed && !s.initial_seek_done && wants_initial_seek;
            let timed = signals.has_current_time && time_read;
            (
                TrailerState {
                    frame_ready: s.frame_ready || confirmed || timed,
                    initial_seek_done: s.initial_seek_done || seek,
                    ..s
                },
                TrailerEffects {
                    play: signals.stalled_or_cued && is_playing,
                    unmute: confirmed && !is_muted,
                    seek_initial: seek,
                    run_on_ready: confirmed,
                    run_on_ended: signals.ended,
                    report_time: timed,
                    cut_outro: signals.has_current_time && signals.has_duration && near_end,
                    ..none
                },
            )
        },
        TrailerEvent::PlayingChanged => fallback_check(
            TrailerState { started: s.started || is_playing, ..s },
            is_playing,
            has_key,
        ),
        TrailerEvent::PlaybackAllowed { allowed } => {
            if allowed {
                (s, TrailerEffects { play: true, listen: true, start_ticker: true, ..none })
            } else {
                (s, TrailerEffects { pause: true, stop_ticker: true, ..none })
            }
        },
        TrailerEvent::FallbackDue => (
            TrailerState { frame_ready: true, ..s },
            TrailerEffects { run_on_ready: true, ..none },
        ),
        TrailerEvent::KeyChanged => {
            let reset = TrailerState {
                frame_ready: false,
                initial_seek_done: false,
                started: s.started && is_playing,
            };
            let (t, fx) = fallback_check(reset, is_playing, has_key);
            (t, TrailerEffects { stop_ticker: true, ..fx })
        },
        TrailerEvent::Unloaded => (TrailerState { started: false, frame_ready: false, ..s }, none),
        TrailerEvent::Reloaded => (TrailerState { started: true, ..s }, none),
    }
}

/// Whether the trailer's frame shows (full opacity): ready and playing.
pub open spec fn trailer_shows(s: TrailerState, is_playing: bool) -> bool {
    s.frame_ready && is_playing
}

/// Whether the iframe is in the page: there is a video and the player was
/// asked to play at least once.
pub open spec fn trailer_mounted(s: TrailerState, has_key: bool) -> bool {
    has_key && s.started
}

impl TrailerState {
    /// A fresh player: nothing ready, no seek yet, started only if it is
    /// asked to play from the start.
    pub fn new(is_playing: bool) -> (t: TrailerState)
        ensures
            !t.frame_ready,
            !t.initial_seek_done,
            t.started == is_playing,
    {
        TrailerState { frame_ready: false, initial_seek_done: false, started: is_playing }
    }

    /// Applies one event (see `trailer_step`).
    pub fn step(self, e: TrailerEvent, is_playing: bool, is_muted: bool, has_key: bool) -> (r: (
        TrailerState,
        TrailerEffects,
    ))
        ensures
            r == trailer_step(self, e, is_playing, is_muted, has_key),
    {
        let none = TrailerEffects {
            play: false,
            listen: false,
            pause: false,
            start_ticker: false,
            stop_ticker: false,
            unmute: false,
            seek_initial: false,
            run_on_ready: false,
            run_on_ended: false,
            cut_outro: false,
            report_time: false,
            schedule_fallback: false,
        };
        match e {
            TrailerEvent::Message { signals, time_read, near_end, wants_initial_seek } => {
                let confirmed = signals.playing;
                let seek = confirmed && !self.initial_seek_done && wants_initial_seek;
                let timed = signals.has_current_time && time_read;
                (
                    TrailerState {
                        frame_ready: self.frame_ready || confirmed || timed,
                        initial_seek_done: self.initial_seek_done || seek,
                        ..self
                    },
                    TrailerEffects {
                        play: signals.stalled_or_cued && is_playing,
                        unmute: confirmed && !is_muted,
                        seek_initial: seek,
                        run_on_ready: confirmed,
                        run_on_ended: signals.ended,
                        report_time: timed,
                        cut_outro: signals.has_current_time && signals.has_duration && near_end,
                        ..none
                    },
                )
            },
            TrailerEvent::PlayingChanged => {
                let t = TrailerState { started: self.started || is_playing, ..self };
                Self::safety_check(t, is_playing, has_key)
            },
            TrailerEvent::PlaybackAllowed { allowed } => {
                if allowed {
                    (self, TrailerEffects { play: true, listen: true, start_ticker: true, ..none })
                } else {
                    (self, TrailerEffects { pause: true, stop_ticker: true, ..none })
                }
            },
            TrailerEvent::FallbackDue => (
                TrailerState { frame_ready: true, ..self },
                TrailerEffects { run_on_ready: true, ..none },
            ),
            TrailerEvent::KeyChanged => {
                let reset = TrailerState {
                    frame_ready: false,
                    initial_seek_done: false,
                    started: self.started && is_playing,
                };
                let (t, fx) = Self::safety_check(reset, is_playing, has_key);
                (t, TrailerEffects { stop_ticker: true, ..fx })
            },
            TrailerEvent::Unloaded => (TrailerState { started: false, frame_ready: false, ..self }, none),
            TrailerEvent::Reloaded => (TrailerState { started: true, ..self }, none),
        }
    }

    /// The safety check (see `fallback_check`).
    fn safety_check(s: TrailerState, is_playing: bool, has_key: bool) -> (r: (TrailerState, TrailerEffects))
        ensures
            r == fallback_check(s, is_playing, has_key),
    {
        let none = TrailerEffects {
            play: false,
            listen: false,
            pause: false,
            start_ticker: false,
            stop_ticker: false,
            unmute: false,
            seek_initial: false,
            run_on_ready: false,
            run_on_ended: false,
            cut_outro: false,
            report_time: false,
            schedule_fallback: false,
        };
        if is_playing && has_key {
            (s, TrailerEffects { schedule_fallback: true, ..none })
        } else {
            (TrailerState { frame_ready: false, ..s }, none)
        }
    }

    /// Whether the frame shows (see `trailer_shows`).
    pub fn shows(&self, is_playing: bool) -> (b: bool)
        ensures
            b == trailer_shows(*self, is_playing),
    {
        self.frame_ready && is_playing
    }

    /// Whether the iframe is in the page (see `trailer_mounted`).
    pub fn mounted(&self, has_key: bool) -> (b: bool)
        ensures
            b == trailer_mounted(*self, has_key),
    {
        has_key && self.started
    }
}

/// A report that the player is cued, unstarted or just ready sends
/// `playVideo` exactly when the trailer is meant to play.
pub proof fn law_stall_kick(
    s: TrailerState,
    signals: YtSignals,
    time_read: bool,
    near_end: bool,
    wants_initial_seek: bool,
    is_playing: bool,
    is_muted: bool,
    has_key: bool,
)
    requires
        signals.stalled_or_cued,
    ensures
        trailer_step(
            s,
            TrailerEvent::Message { signals, time_read, near_end, wants_initial_seek },
            is_playing,
            is_muted,
            has_key,
        ).1.play == is_playing,
{
}

/// A report that the player is playing makes the frame ready, runs
/// `on_ready`, and restores the sound exactly when the trailer is not muted.
pub proof fn law_playing_confirmed(
    s: TrailerState,
    signals: YtSignals,
    time_read: bool,
    near_end: bool,
    wants_initial_seek: bool,
    is_playing: bool,
    is_muted: bool,
    has_key: bool,
)
    requires
        signals.playing,
    ensures
        ({
            let r = trailer_step(
                s,
                TrailerEvent::Message { signals, time_read, near_end, wants_initial_seek },
                is_playing,
                is_muted,
                has_key,
            );
            r.0.frame_ready && r.1.run_on_ready && r.1.unmute == !is_muted
        }),
{
}

/// The initial seek is sent at most once per video: only while it has not
/// been done, it is then marked done, and only a change of video clears
/// the mark.
pub proof fn law_initial_seek_once(
    s: TrailerState,
    e: TrailerEvent,
    is_playing: bool,
    is_muted: bool,
    has_key: bool,
)
    ensures
        ({
            let r = trailer_step(s, e, is_playing, is_muted, has_key);
            &&& r.1.seek_initial ==> !s.initial_seek_done && r.0.initial_seek_done
            &&& e != TrailerEvent::KeyChanged && s.initial_seek_done ==> r.0.initial_seek_done
        }),
{
}

/// Once a trailer with a video is asked to play, a safety timer is
/// scheduled, and when it runs out the frame is ready (whatever the
/// inputs are then), so a playing trailer shows even if the player never
/// reported anything.
pub proof fn law_fallback_shows_frame(s: TrailerState, is_playing: bool, is_muted: bool, has_key: bool)
    ensures
        trailer_step(s, TrailerEvent::PlayingChanged, true, is_muted, true).1.schedule_fallback,
        trailer_step(s, TrailerEvent::FallbackDue, is_playing, is_muted, has_key).0.frame_ready,
        trailer_step(s, TrailerEvent::FallbackDue, is_playing, is_muted, has_key).1.run_on_ready,
        trailer_shows(
            trailer_step(
                trailer_step(s, TrailerEvent::PlayingChanged, true, is_muted, true).0,
                TrailerEvent::FallbackDue,
                true,
                is_muted,
                true,
            ).0,
            true,
        ),
{
}

/// The `on_ended` callback runs when the player reports the end of the
/// video, and when a report with the time and the duration shows the
/// outro reached.
pub proof fn law_end_reports(
    s: TrailerState,
    signals: YtSignals,
    time_read: bool,
    near_end: bool,
    wants_initial_seek: bool,
    is_playing: bool,
    is_muted: bool,
    has_key: bool,
)
    ensures
        ({
            let fx = trailer_step(
                s,
                TrailerEvent::Message { signals, time_read, near_end, wants_initial_seek },
                is_playing,
                is_muted,
                has_key,
            ).1;
            &&& fx.run_on_ended == signals.ended
            &&& fx.cut_outro == (signals.has_current_time && signals.has_duration && near_end)
        }),
{
}

/// A paused trailer never shows, and pausing hides the frame until it is
/// confirmed again.
pub proof fn law_paused_hides(s: TrailerState, is_muted: bool, has_key: bool)
    ensures
        !trailer_shows(s, false),
        !trailer_step(s, TrailerEvent::PlayingChanged, false, is_muted, has_key).0.frame_ready,
        !trailer_step(s, TrailerEvent::PlayingChanged, false, is_muted, has_key).1.schedule_fallback,
{
}

/// A change of video hides the frame, forgets the initial seek and stops
/// the ticker.
pub proof fn law_key_change_hides(s: TrailerState, is_playing: bool, is_muted: bool, has_key: bool)
    ensures
        ({
            let r = trailer_step(s, TrailerEvent::KeyChanged, is_playing, is_muted, has_key);
            !r.0.frame_ready && !r.0.initial_seek_done && r.1.stop_ticker && !trailer_shows(r.0, is_playing)
        }),
{
}

/// The iframe is loaded only once the trailer was asked to play: no event
/// but a playing input or a reload after the tab came back starts it.
pub proof fn law_loads_only_when_asked(
    s: TrailerState,
    e: TrailerEvent,
    is_playing: bool,
    is_muted: bool,
    has_key: bool,
)
    requires
        !s.started,
        trailer_step(s, e, is_playing, is_muted, has_key).0.started,
    ensures
        (e == TrailerEvent::PlayingChanged && is_playing) || e == TrailerEvent::Reloaded,
{
}

/// The trailer with a video after a run of play/pause switches: for each,
/// the playing input changes to `switches[i]` and the permission to play
/// follows it (the tab staying shown).
pub open spec fn after_switches(s: TrailerState, switches: Seq<bool>, is_muted: bool) -> TrailerState
    decreases switches.len(),
{
    if switches.len() == 0 {
        s
    } else {
        let w = after_switches(s, switches.drop_last(), is_muted);
        let p = switches.last();
        let changed = trailer_step(w, TrailerEvent::PlayingChanged, p, is_muted, true).0;
        trailer_step(changed, TrailerEvent::PlaybackAllowed { allowed: p }, p, is_muted, true).0
    }
}

/// Pausing and resuming a started trailer any number of times (a modal
/// opening and closing over it, say) keeps its iframe in the page, so it
/// is never reloaded; each switch to pause sends `pauseVideo` and each
/// switch back sends `playVideo`.
pub proof fn law_switches_keep_iframe(s: TrailerState, switches: Seq<bool>, is_muted: bool)
    requires
        s.started,
    ensures
        trailer_mounted(after_switches(s, switches, is_muted), true),
        forall|i: int|
            0 <= i < switches.len() ==> {
                let w = after_switches(s, switches.take(i), is_muted);
                let p = #[trigger] switches[i];
                let changed = trailer_step(w, TrailerEvent::PlayingChanged, p, is_muted, true).0;
                let fx = trailer_step(changed, TrailerEvent::PlaybackAllowed { allowed: p }, p, is_muted, true).1;
                trailer_mounted(changed, true) && fx.pause == !p && fx.play == p
            },
    decreases switches.len(),
{
    if switches.len() > 0 {
        let d = switches.drop_last();
        law_switches_keep_iframe(s, d, is_muted);
        assert forall|i: int| 0 <= i < switches.len() implies {
            let w = after_switches(s, switches.take(i), is_muted);
            let p = #[trigger] switches[i];
            let changed = trailer_step(w, TrailerEvent::PlayingChanged, p, is_muted, true).0;
            let fx = trailer_step(changed, TrailerEvent::PlaybackAllowed { allowed: p }, p, is_muted, true).1;
            trailer_mounted(changed, true) && fx.pause == !p && fx.play == p
        } by {
            if i < d.len() {
                assert(switches.take(i) =~= d.take(i));
                assert(switches[i] == d[i]);
            } else {
                assert(switches.take(i) =~= d);
            }
        }
    }
}

// ───────────────────────────── hidden browser tab ─────────────────────────────

/// The trailer player's view of the browser tab.
#[derive(Clone, Copy, Debug, PartialEq, Eq, Structural)]
pub struct TabState {
    /// The tab is hidden.
    pub hidden: bool,
    /// The trailer was playing when the tab was hidden.
    pub was_playing: bool,
    /// The player was unloaded while the tab stayed hidden.
    pub unloaded: bool,
    /// The unload timer is pending.
    pub unload_pending: bool,
}

/// What happens to the tab.
#[derive(Clone, Copy, Debug, PartialEq, Eq, Structural)]
pub enum TabEvent {
    /// The tab was hidden; `playing` tells whether the trailer was asked to play.
    Hidden { playing: bool },
    /// The tab came back; `playing` tells whether the trailer is asked to play.
    Shown { playing: bool },
    /// The unload timer ran out.
    UnloadDue,
}

/// What the host must do after a tab step.
#[derive(Clone, Copy, Debug, PartialEq, Eq, Structural)]
pub struct TabEffects {
    /// Send `pauseVideo`.
    pub pause: bool,
    /// Send `playVideo`.
    pub play: bool,
    /// Mark the player as started again after reloading.
    pub restart_player: bool,
    /// Forget that the player ever started and that its frame was ready.
    pub reset_player: bool,
    /// Cancel the pending unload timer.
    pub cancel_unload: bool,
    /// Schedule the unload timer (`UNLOAD_DELAY_MS`).
    pub schedule_unload: bool,
}

/// One step of the tab state.
pub open spec fn tab_step(s: TabState, e: TabEvent) -> (TabState, TabEffects) {
    let none = TabEffects {
        pause: false,
        play: false,
        restart_player: false,
        reset_player: false,
        cancel_unload: false,
        schedule_unload: false,
    };
    match e {
        TabEvent::Hidden { playing } => (
            TabState {
                hidden: true,
                was_playing: s.was_playing || (playing && !s.unloaded),
                unload_pending: true,
                ..s
            },
            TabEffects { pause: true, cancel_unload: s.unload_pending, schedule_unload: true, ..none },
        ),
        TabEvent::Shown { playing } => {
            let resume = s.was_playing && playing;
            (
                TabState { hidden: false, was_playing: false, unloaded: false, unload_pending: false },
                TabEffects {
                    cancel_unload: s.unload_pending,
                    restart_player: s.unloaded && resume,
                    play: !s.unloaded && resume,
                    ..none
                },
            )
        },
        TabEvent::UnloadDue => (
            TabState { unloaded: true, unload_pending: false, ..s },
            TabEffects { reset_player: true, ..none },
        ),
    }
}

/// Whether the trailer player plays: asked to, with the tab shown and the
/// player loaded.
pub open spec fn tab_allows_play(s: TabState, playing: bool) -> bool {
    playing && !s.hidden && !s.unloaded
}

impl TabState {
    /// A visible tab.
    pub fn new() -> (t: TabState)
        ensures
            !t.hidden && !t.was_playing && !t.unloaded && !t.unload_pending,
    {
        TabState { hidden: false, was_playing: false, unloaded: false, unload_pending: false }
    }

    /// Applies one event (see `tab_step`).
    pub fn step(self, e: TabEvent) -> (r: (TabState, TabEffects))
        ensures
            r == tab_step(self, e),
    {
        let none = TabEffects {
            pause: false,
            play: false,
            restart_player: false,
            reset_player: false,
            cancel_unload: false,
            schedule_unload: false,
        };
        match e {
            TabEvent::Hidden { playing } => (
                TabState {
                    hidden: true,
                    was_playing: self.was_playing || (playing && !self.unloaded),
                    unload_pending: true,
                    ..self
                },
                TabEffects { pause: true, cancel_unload: self.unload_pending, schedule_unload: true, ..none },
            ),
            TabEvent::Shown { playing } => {
                let resume = self.was_playing && playing;
                (
                    TabState { hidden: false, was_playing: false, unloaded: false, unload_pending: false },
                    TabEffects {
                        cancel_unload: self.unload_pending,
                        restart_player: self.unloaded && resume,
                        play: !self.unloaded && resume,
                        ..none
                    },
                )
            },
            TabEvent::UnloadDue => (
                TabState { unloaded: true, unload_pending: false, ..self },
                TabEffects { reset_player: true, ..none },
            ),
        }
    }

    /// Whether the trailer plays (see `tab_allows_play`).
    pub fn allows_play(&self, playing: bool) -> (b: bool)
        ensures
            b == tab_allows_play(*self, playing),
    {
        playing && !self.hidden && !self.unloaded
    }
}

/// A hidden tab never plays; a trailer that was playing when its tab was
/// hidden resumes when the tab comes back soon, and is reloaded when it
/// comes back late.
pub proof fn law_tab_round_trip(s: TabState)
    requires
        !s.hidden,
        !s.unloaded,
        !s.was_playing,
    ensures
        ({
            let h = tab_step(s, TabEvent::Hidden { playing: true }).0;
            !tab_allows_play(h, true) && tab_step(h, TabEvent::Shown { playing: true }).1.play
                && tab_allows_play(tab_step(h, TabEvent::Shown { playing: true }).0, true)
        }),
        ({
            let h = tab_step(s, TabEvent::Hidden { playing: true }).0;
            let gone = tab_step(h, TabEvent::UnloadDue).0;
            tab_step(gone, TabEvent::Shown { playing: true }).1.restart_player && !tab_step(
                gone,
                TabEvent::Shown { playing: true },
            ).1.play && tab_allows_play(tab_step(gone, TabEvent::Shown { playing: true }).0, true)
        }),
{
}

/// The mute command the trailer player sends: `mute` when muted, `unMute`
/// once its frame is ready, nothing before.
pub fn mute_command(muted: bool, frame_ready: bool) -> (c: Option<&'static str>)
    ensures
        muted ==> c == Some("mute"),
        !muted && frame_ready ==> c == Some("unMute"),
        !muted && !frame_ready ==> c is None,
{
    if muted {
        Some("mute")
    } else if frame_ready {
        Some("unMute")
    } else {
        None
    }
}

} // verus!
