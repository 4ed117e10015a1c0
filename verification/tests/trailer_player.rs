use pstream_frontend::playback::{TrailerEvent, TrailerState, FALLBACK_DELAY_MS};
use pstream_frontend::player::{read_yt_message, YtSignals};

fn message(raw: &str, time_read: bool, near_end: bool, wants_initial_seek: bool) -> TrailerEvent {
    TrailerEvent::Message { signals: read_yt_message(raw), time_read, near_end, wants_initial_seek }
}

#[test]
fn stalled_player_is_kicked_only_while_meant_to_play() {
    let s = TrailerState::new(true);
    let (_, fx) = s.step(message(r#"{"event":"infoDelivery","info":{"playerState":5}}"#, false, false, false), true, true, true);
    assert!(fx.play);
    let (_, fx) = s.step(message(r#"{"event":"onReady"}"#, false, false, false), false, true, true);
    assert!(!fx.play);
    let (_, fx) = s.step(message(r#"{"info": -1}"#, false, false, false), true, true, true);
    assert!(fx.play);
}

#[test]
fn playing_report_readies_frame_and_unmutes_unless_muted() {
    let s = TrailerState::new(true);
    assert!(!s.shows(true));
    let (t, fx) = s.step(message(r#"{"event":"onStateChange","info":1}"#, false, false, false), true, false, true);
    assert!(t.frame_ready && t.shows(true) && !t.shows(false));
    assert!(fx.unmute && fx.run_on_ready && !fx.play);
    let (_, fx) = s.step(message(r#"{"event":"onStateChange","info":1}"#, false, false, false), true, true, true);
    assert!(!fx.unmute && fx.run_on_ready);
}

#[test]
fn initial_seek_happens_once_per_video() {
    let s = TrailerState::new(true);
    let playing = r#"{"event":"onStateChange","data":1}"#;
    let (t, fx) = s.step(message(playing, false, false, true), true, true, true);
    assert!(fx.seek_initial && t.initial_seek_done);
    let (t, fx) = t.step(message(playing, false, false, true), true, true, true);
    assert!(!fx.seek_initial && t.initial_seek_done);
    let (t, fx) = t.step(TrailerEvent::KeyChanged, true, true, true);
    assert!(!t.initial_seek_done && !t.frame_ready && fx.stop_ticker && fx.schedule_fallback);
    let (_, fx) = t.step(message(playing, false, false, true), true, true, true);
    assert!(fx.seek_initial);
    let (_, fx) = s.step(message(playing, false, false, false), true, true, true);
    assert!(!fx.seek_initial);
}

#[test]
fn fallback_timer_shows_a_silent_player() {
    assert_eq!(FALLBACK_DELAY_MS, 1200);
    let s = TrailerState::new(false);
    let (t, fx) = s.step(TrailerEvent::PlayingChanged, true, true, true);
    assert!(fx.schedule_fallback && t.started && !t.frame_ready);
    let (t, fx) = t.step(TrailerEvent::FallbackDue, true, true, true);
    assert!(t.frame_ready && fx.run_on_ready && t.shows(true));
    let (t, fx) = t.step(TrailerEvent::PlayingChanged, false, true, true);
    assert!(!t.frame_ready && !fx.schedule_fallback && !t.shows(false));
    let (_, fx) = s.step(TrailerEvent::PlayingChanged, true, true, false);
    assert!(!fx.schedule_fallback);
}

#[test]
fn end_and_outro_run_on_ended() {
    let s = TrailerState::new(true);
    let (_, fx) = s.step(message(r#"{"info":0}"#, false, false, false), true, true, true);
    assert!(fx.run_on_ended && !fx.cut_outro);
    let raw = r#"{"info":{"currentTime":95.0,"duration":100.0}}"#;
    let (t, fx) = s.step(message(raw, true, true, false), true, true, true);
    assert!(fx.cut_outro && fx.report_time && t.frame_ready && !fx.run_on_ended);
    let no_duration = YtSignals { stalled_or_cued: false, playing: false, ended: false, has_current_time: true, has_duration: false };
    let (_, fx) = s.step(TrailerEvent::Message { signals: no_duration, time_read: true, near_end: true, wants_initial_seek: false }, true, true, true);
    assert!(!fx.cut_outro && fx.report_time);
}

#[test]
fn play_and_pause_commands_follow_permission() {
    let s = TrailerState::new(true);
    let (t, fx) = s.step(TrailerEvent::PlaybackAllowed { allowed: true }, true, true, true);
    assert!(fx.play && fx.listen && fx.start_ticker && !fx.pause && t == s);
    let (_, fx) = s.step(TrailerEvent::PlaybackAllowed { allowed: false }, true, true, true);
    assert!(fx.pause && fx.stop_ticker && !fx.play);
}

#[test]
fn iframe_mounts_once_asked_to_play_and_unloads_when_hidden_long() {
    let s = TrailerState::new(false);
    assert!(!s.mounted(true));
    let (t, _) = s.step(TrailerEvent::PlayingChanged, true, true, true);
    assert!(t.mounted(true) && !t.mounted(false));
    let (t, _) = t.step(TrailerEvent::Unloaded, true, true, true);
    assert!(!t.mounted(true) && !t.frame_ready);
    let (t, _) = t.step(TrailerEvent::Reloaded, true, true, true);
    assert!(t.mounted(true));
    let (t, _) = t.step(TrailerEvent::KeyChanged, false, true, true);
    assert!(!t.mounted(true));
}

#[test]
fn play_pause_switches_keep_the_iframe() {
    let (mut s, _) = TrailerState::new(false).step(TrailerEvent::PlayingChanged, true, true, true);
    for p in [false, true, false, false, true, false, true] {
        let (t, _) = s.step(TrailerEvent::PlayingChanged, p, true, true);
        let (t, fx) = t.step(TrailerEvent::PlaybackAllowed { allowed: p }, p, true, true);
        assert!(t.mounted(true));
        assert_eq!(fx.play, p);
        assert_eq!(fx.pause, !p);
        s = t;
    }
}
