use pstream_frontend::episodes::{
    episode_heading, is_playing_episode, runtime_caption, season_choices, season_label, should_fetch_season,
    synopsis_or_placeholder, Batched, EPISODE_BATCH, RECOMMENDATION_BATCH,
};

#[test]
fn episodes_show_six_at_a_time_then_fold() {
    let mut b = Batched::new(EPISODE_BATCH);
    assert_eq!(b.shown(14), 6);
    assert!(b.has_more(14) && b.shows_toggle(14));
    b.toggle(14);
    assert_eq!(b.shown(14), 12);
    b.toggle(14);
    assert_eq!(b.shown(14), 14);
    assert!(!b.has_more(14) && b.shows_toggle(14));
    b.toggle(14);
    assert_eq!(b.visible(), 6);
    assert_eq!(b.shown(14), 6);
}

#[test]
fn short_lists_have_no_toggle() {
    let b = Batched::new(RECOMMENDATION_BATCH);
    assert_eq!(b.shown(5), 5);
    assert!(!b.has_more(5));
    assert!(!b.shows_toggle(5));
    assert!(!b.shows_toggle(9));
    assert!(b.shows_toggle(10));
}

#[test]
fn season_change_resets_batches() {
    let mut b = Batched::new(6);
    b.toggle(100);
    b.toggle(100);
    assert_eq!(b.visible(), 18);
    b.reset();
    assert_eq!(b.visible(), 6);
}

#[test]
fn episode_captions() {
    assert_eq!(runtime_caption(Some(42)), "42m");
    assert_eq!(runtime_caption(None), "");
    assert_eq!(synopsis_or_placeholder(""), "No description available.");
    assert_eq!(synopsis_or_placeholder("A twist."), "A twist.");
    assert_eq!(episode_heading(3, "The Heist"), "3. The Heist");
    assert_eq!(season_label(2), "Season 2");
    assert!(is_playing_episode(2, 5, 2, 5));
    assert!(!is_playing_episode(1, 5, 2, 5));
    assert!(should_fetch_season(10, 1));
    assert!(!should_fetch_season(0, 1));
    assert!(!should_fetch_season(10, 0));
    assert_eq!(season_choices(3), vec![1, 2, 3]);
    assert!(season_choices(0).is_empty());
}

#[test]
fn toggle_cycles_through_the_batches() {
    // 14 episodes take three batches of six: 6, 12, 18, then back to 6.
    let mut b = Batched::new(EPISODE_BATCH);
    let mut seen = Vec::new();
    for _ in 0..7 {
        b.toggle(14);
        seen.push(b.visible());
    }
    assert_eq!(seen, vec![12, 18, 6, 12, 18, 6, 12]);
    let mut c = Batched::new(EPISODE_BATCH);
    c.toggle(4);
    assert_eq!(c.visible(), 6);
    assert_eq!(c.shown(4), 4);
}
