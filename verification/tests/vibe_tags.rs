use pstream_frontend::movie_card_popup::derive_vibe_tags;

fn s(v: &[&str]) -> Vec<String> {
    v.iter().map(|x| x.to_string()).collect()
}

#[test]
fn pills_are_trimmed_and_deduplicated_ignoring_case() {
    let pills = s(&["  Cozy ", "cozy", "", "Dark"]);
    let tags = derive_vibe_tags(Some(&pills), None, "");
    assert_eq!(tags, s(&["Cozy", "Dark", "Compelling"]));
}

#[test]
fn overview_cues_then_genres() {
    let gids = vec![28i64];
    let tags = derive_vibe_tags(None, Some(&gids), "A DETECTIVE hunts a serial killer");
    assert_eq!(tags, s(&["Gritty", "High-Octane", "Action"]));
}

#[test]
fn empty_input_falls_back_to_pool() {
    let tags = derive_vibe_tags(None, None, "");
    assert_eq!(tags, s(&["Compelling", "Suspenseful", "Exciting"]));
}

#[test]
fn fallback_skips_tags_already_present() {
    let gids = vec![18i64, 53];
    // Drama gives Compelling, Emotional; thriller gives Suspenseful.
    let tags = derive_vibe_tags(None, Some(&gids), "");
    assert_eq!(tags, s(&["Compelling", "Emotional", "Suspenseful"]));
}

#[test]
fn unknown_genres_and_space_cues() {
    let gids = vec![1i64, 2, 3];
    let tags = derive_vibe_tags(None, Some(&gids), "Lost in space after time travel");
    assert_eq!(tags, s(&["Mind-Bending", "Compelling", "Suspenseful"]));
}

#[test]
fn vibe_tags_are_trimmed_and_come_pills_first() {
    let pills = s(&["  Bleak ", "", "Cozy"]);
    let tags = derive_vibe_tags(Some(&pills), Some(&[28]), "A quiet story.");
    assert_eq!(tags, s(&["Bleak", "Cozy", "High-Octane"]));
    let tags = derive_vibe_tags(Some(&s(&["   "])), Some(&[35]), "A detective hunts a ghost.");
    assert_eq!(tags, s(&["Gritty", "Ominous", "Witty"]));
    let tags = derive_vibe_tags(None, None, "");
    assert_eq!(tags, s(&["Compelling", "Suspenseful", "Exciting"]));
}

#[test]
fn vibe_tags_start_with_the_distinct_pills() {
    let pills = s(&["Noir", " noir ", "Slow Burn"]);
    let tags = derive_vibe_tags(Some(&pills), Some(&[28]), "");
    assert_eq!(tags, s(&["Noir", "Slow Burn", "High-Octane"]));
    let many = s(&["A", "B", "C", "D"]);
    assert_eq!(derive_vibe_tags(Some(&many), None, ""), s(&["A", "B", "C"]));
}
