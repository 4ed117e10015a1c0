use pstream_frontend::info_modal::{
    certification_for, derive_vibe_tags, genre_route, join_tags, leading_cast, modal_duration_label, vibe_lead,
};
use pstream_frontend::maturity_badge::VoteLevel;

fn genres(v: &[(u32, &str)]) -> Vec<(u32, String)> {
    v.iter().map(|(i, n)| (*i, n.to_string())).collect()
}

#[test]
fn modal_vibe_line() {
    assert_eq!(derive_vibe_tags(&genres(&[(878, "Science Fiction"), (53, "Thriller")]), ""), vec!["Mind-Bending", "Cerebral", "Psychological"]);
    assert_eq!(derive_vibe_tags(&genres(&[(53, "Thriller")]), ""), vec!["Suspenseful", "Psychological"]);
    assert_eq!(derive_vibe_tags(&genres(&[(18, "Drama")]), ""), vec!["Compelling", "Emotional"]);
    assert_eq!(derive_vibe_tags(&genres(&[]), "Nothing here"), vec!["Captivating", "Compelling"]);
    assert_eq!(derive_vibe_tags(&genres(&[(1, "Dark Comedy")]), "A HAUNTING tale"), vec!["Ominous", "Chilling", "Witty"]);
    assert_eq!(derive_vibe_tags(&genres(&[(18, "Drama"), (35, "Comedy")]), ""), vec!["Witty", "Irreverent"]);
}

#[test]
fn modal_certifications() {
    assert_eq!(certification_for(&genres(&[(16, "Animation")]), VoteLevel::From65), "U");
    assert_eq!(certification_for(&genres(&[(1, "Children")]), VoteLevel::From72), "PG");
    assert_eq!(certification_for(&genres(&[(27, "Horror")]), VoteLevel::Under60), "18");
    assert_eq!(certification_for(&genres(&[(18, "Drama")]), VoteLevel::From80), "18");
    assert_eq!(certification_for(&genres(&[(18, "Drama")]), VoteLevel::From65), "15");
    assert_eq!(certification_for(&genres(&[]), VoteLevel::From60), "12");
}

#[test]
fn modal_duration_and_lines() {
    assert_eq!(modal_duration_label(Some(125), 0), "2h 5m");
    assert_eq!(modal_duration_label(Some(45), 3), "0h 45m");
    assert_eq!(modal_duration_label(None, 1), "1 Season");
    assert_eq!(modal_duration_label(None, 4), "4 Seasons");
    assert_eq!(modal_duration_label(None, 0), "");
    let cast: Vec<String> = ["A", "B", "C", "D", "E"].iter().map(|s| s.to_string()).collect();
    assert_eq!(leading_cast(&cast), vec!["A", "B", "C", "D"]);
    assert_eq!(leading_cast(&cast[..2]), vec!["A", "B"]);
    assert_eq!(join_tags(&["Witty", "Gritty"]), "Witty, Gritty");
    assert_eq!(join_tags(&["Witty"]), "Witty");
    assert_eq!(join_tags(&[]), "");
    assert_eq!(genre_route(28), "/browse/genre-28");
    assert_eq!(vibe_lead(true), "This show is: ");
    assert_eq!(vibe_lead(false), "This movie is: ");
}

#[test]
fn modal_vibe_line_has_two_or_three_distinct_tags() {
    let all = genres(&[
        (878, "Science Fiction"),
        (27, "Horror"),
        (53, "Thriller"),
        (35, "Comedy"),
        (80, "Crime"),
        (28, "Action"),
        (10749, "Romance"),
        (16, "Animation"),
        (99, "Documentary"),
        (18, "Drama"),
    ]);
    let cases = [genres(&[]), genres(&[(53, "Thriller")]), genres(&[(10749, "Romance")]), all];
    for g in cases.iter() {
        let tags = derive_vibe_tags(g, "a quantum curse");
        assert!(tags.len() >= 2 && tags.len() <= 3);
        for i in 0..tags.len() {
            for j in 0..i {
                assert_ne!(tags[i], tags[j]);
            }
        }
    }
}
