use pstream_frontend::playback::{HandOff, HandOffEvent, ModalStore};
use pstream_frontend::playback::{mute_command, BannerEvent, ModalBanner, HeroEvent, HeroTrailer, TabEvent, TabState, TRAILER_DELAY_MS, UNLOAD_DELAY_MS};

#[test]
fn hero_trailer_waits_then_plays() {
    let t = HeroTrailer::new();
    let (t, e) = t.step(HeroEvent::Restart);
    assert!(e.schedule_delay && !e.cancel_delay);
    assert!(!t.should_play(true, false, false));
    let (t, _) = t.step(HeroEvent::DelayDue);
    assert!(t.should_play(true, false, false));
    assert!(!t.should_play(false, false, false));
    assert!(!t.should_play(true, true, false));
    assert!(!t.should_play(true, false, true));
    assert!(!t.is_visible(true, false, false));
    let (t, _) = t.step(HeroEvent::Ready);
    assert!(t.is_visible(true, false, false));
    assert_eq!(TRAILER_DELAY_MS, 2500);
    assert_eq!(UNLOAD_DELAY_MS, 15000);
}

#[test]
fn hero_scrolling_away_pauses_and_unloads() {
    let t = HeroTrailer::new();
    let (t, _) = t.step(HeroEvent::Restart);
    let (t, _) = t.step(HeroEvent::DelayDue);
    let (away, e) = t.step(HeroEvent::Visibility { out: true, modal_open: false, popup_open: false });
    assert!(e.pause && e.schedule_unload && !away.should_play(true, false, false));
    // quick return resumes
    let (back, e) = away.step(HeroEvent::Visibility { out: false, modal_open: false, popup_open: false });
    assert!(e.play && e.cancel_unload && back.should_play(true, false, false));
    // late return reloads
    let (gone, _) = away.step(HeroEvent::UnloadDue);
    assert!(gone.unloaded() && !gone.show_video());
    let (back, e) = gone.step(HeroEvent::Visibility { out: false, modal_open: false, popup_open: false });
    assert!(!e.play && back.show_video() && !back.unloaded());
    // repeated report changes nothing
    let (same, e) = back.step(HeroEvent::Visibility { out: false, modal_open: false, popup_open: false });
    assert!(same.show_video() == back.show_video() && same.unloaded() == back.unloaded());
    assert!(same.should_play(true, false, false) && back.should_play(true, false, false));
    assert!(!e.play && !e.pause);
}

#[test]
fn hero_replay_and_mute() {
    let t = HeroTrailer::new();
    let (t, _) = t.step(HeroEvent::Restart);
    let (t, _) = t.step(HeroEvent::DelayDue);
    let (t, e) = t.step(HeroEvent::MuteReplayPressed);
    assert!(e.toggle_mute && !e.schedule_delay);
    let (t, _) = t.step(HeroEvent::Ended);
    assert!(!t.should_play(true, false, false));
    let (t, e) = t.step(HeroEvent::MuteReplayPressed);
    assert!(!e.toggle_mute && e.schedule_delay && !t.ended() && !t.show_video());
    let (t, e) = t.step(HeroEvent::ForceReplay);
    assert!(e.rewind && e.schedule_delay && e.cancel_delay && !t.ended());
}

#[test]
fn hero_modal_hand_off() {
    let t = HeroTrailer::new();
    let (t, _) = t.step(HeroEvent::Restart);
    let (t, _) = t.step(HeroEvent::DelayDue);
    let (t, e) = t.step(HeroEvent::ModalOpened);
    assert!(e.pause);
    let (t, e) = t.step(HeroEvent::ModalClosed { paused_by_modal: true, resume_here: true });
    assert!(e.clear_modal_mark && e.seek_to_recorded && e.play && e.play_again_soon);
    assert!(t.show_video() && !t.ended());
    let (_, e) = t.step(HeroEvent::ModalClosed { paused_by_modal: false, resume_here: true });
    assert!(!e.play && !e.clear_modal_mark);
    let (ended, _) = t.step(HeroEvent::Ended);
    let (t2, e) = ended.step(HeroEvent::ModalClosed { paused_by_modal: true, resume_here: false });
    assert!(e.clear_modal_mark && !e.play && t2.ended());
}

#[test]
fn tab_hidden_and_back() {
    let s = TabState::new();
    assert!(s.allows_play(true));
    let (h, e) = s.step(TabEvent::Hidden { playing: true });
    assert!(e.pause && e.schedule_unload && !h.allows_play(true) && h.was_playing);
    let (b, e) = h.step(TabEvent::Shown { playing: true });
    assert!(e.play && e.cancel_unload && !e.restart_player && b.allows_play(true));
    let (gone, e) = h.step(TabEvent::UnloadDue);
    assert!(e.reset_player && gone.unloaded);
    let (b, e) = gone.step(TabEvent::Shown { playing: true });
    assert!(e.restart_player && !e.play && b.allows_play(true));
    let (h2, _) = s.step(TabEvent::Hidden { playing: false });
    let (_, e) = h2.step(TabEvent::Shown { playing: true });
    assert!(!e.play && !e.restart_player);
}

#[test]
fn mute_commands() {
    assert_eq!(mute_command(true, false), Some("mute"));
    assert_eq!(mute_command(true, true), Some("mute"));
    assert_eq!(mute_command(false, true), Some("unMute"));
    assert_eq!(mute_command(false, false), None);
}

#[test]
fn modal_banner_lifecycle() {
    let b = ModalBanner::new();
    assert!(!b.plays());
    let (b, _) = b.step(BannerEvent::TrailerFound);
    assert!(b.plays() && !b.shows_video());
    let (b, _) = b.step(BannerEvent::Ready);
    assert!(b.shows_video());
    let (away, fx) = b.step(BannerEvent::Scrolled { out: true });
    assert!(fx.pause && fx.schedule_unload && !away.plays() && !away.shows_video());
    let (back, fx) = away.step(BannerEvent::Scrolled { out: false });
    assert!(fx.play && fx.cancel_unload && back.plays());
    let (gone, _) = away.step(BannerEvent::UnloadDue);
    assert!(gone.unloaded && !gone.ready);
    let (back, fx) = gone.step(BannerEvent::Scrolled { out: false });
    assert!(!fx.play && back.plays());
    let (ended, _) = back.step(BannerEvent::Ended);
    assert!(!ended.plays() && !ended.playing);
    let (again, _) = ended.step(BannerEvent::Replay);
    assert!(again.plays());
    let (closed, fx) = away.step(BannerEvent::Closed);
    assert_eq!(closed, ModalBanner::new());
    assert!(fx.cancel_unload);
    let (fresh, _) = again.step(BannerEvent::TitleChanged);
    assert!(!fresh.playing && !fresh.ready && !fresh.ended);
}

#[test]
fn hero_modal_hand_off_record() {
    let h = HandOff::new();
    let (h, ev) = h.step(HandOffEvent::HeroOpensModal);
    assert!(ev.is_none() && h.paused_by_modal);
    let (h, _) = h.step(HandOffEvent::ModalCloses { title: 42, time_positive: true });
    assert_eq!(h.closing_title, Some(42));
    let (h, ev) = h.step(HandOffEvent::HeroSeesClose { hero_title: 42 });
    assert_eq!(ev, Some(HeroEvent::ModalClosed { paused_by_modal: true, resume_here: true }));
    assert!(!h.paused_by_modal && h.closing_title.is_none());
    let (_, ev) = h.step(HandOffEvent::HeroSeesClose { hero_title: 42 });
    assert_eq!(ev, Some(HeroEvent::ModalClosed { paused_by_modal: false, resume_here: false }));
    // another title, or a modal opened from a card
    let (h, _) = HandOff::new().step(HandOffEvent::HeroOpensModal);
    let (h, _) = h.step(HandOffEvent::ModalCloses { title: 7, time_positive: true });
    let (_, ev) = h.step(HandOffEvent::HeroSeesClose { hero_title: 42 });
    assert_eq!(ev, Some(HeroEvent::ModalClosed { paused_by_modal: true, resume_here: false }));
    let (h, _) = HandOff::new().step(HandOffEvent::CardOpensModal);
    let (h, _) = h.step(HandOffEvent::ModalCloses { title: 42, time_positive: false });
    assert_eq!(h.closing_title, None);
    let (_, ev) = h.step(HandOffEvent::HeroSeesClose { hero_title: 42 });
    assert_eq!(ev, Some(HeroEvent::ModalClosed { paused_by_modal: false, resume_here: false }));
}

#[test]
fn modal_store_opens_from_hero_card_or_popup() {
    let mut st = ModalStore {
        open: false,
        movie_id: None,
        is_tv: false,
        video_key: None,
        is_teaser: false,
        active_popup: Some("movie-9".to_string()),
        hand_off: HandOff::new(),
    };
    st.open_from_hero(5, true, Some("abc".to_string()), true);
    assert!(st.open && st.movie_id == Some(5) && st.is_tv && st.is_teaser);
    assert_eq!(st.video_key.as_deref(), Some("abc"));
    assert_eq!(st.active_popup.as_deref(), Some("movie-9"));
    assert!(st.hand_off.paused_by_modal);
    st.open_from_popup(6, false);
    assert!(st.hand_off.paused_by_modal && st.active_popup.is_none() && st.movie_id == Some(6));
    st.open_from_card(7, false);
    assert!(!st.hand_off.paused_by_modal && st.movie_id == Some(7) && !st.is_tv);
    assert_eq!(st.video_key.as_deref(), Some("abc"));
}

#[test]
fn modal_store_close_records_for_the_hero() {
    let mut st = ModalStore {
        open: false,
        movie_id: None,
        is_tv: false,
        video_key: None,
        is_teaser: false,
        active_popup: None,
        hand_off: HandOff::new(),
    };
    st.close(true);
    assert!(!st.open && st.hand_off.closing_title.is_none());
    st.open_from_hero(11, false, Some("k".to_string()), false);
    st.close(false);
    assert!(!st.open && st.video_key.is_none() && st.hand_off.closing_title.is_none());
    st.open_from_hero(11, false, Some("k".to_string()), false);
    st.close(true);
    assert_eq!(st.hand_off.closing_title, Some(11));
    assert_eq!(st.movie_id, Some(11));
    let (_, ev) = st.hand_off.step(HandOffEvent::HeroSeesClose { hero_title: 11 });
    assert_eq!(ev, Some(HeroEvent::ModalClosed { paused_by_modal: true, resume_here: true }));
}
