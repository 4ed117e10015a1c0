use pstream_frontend::sub_nav::{
    chars_lt, genre_order, genre_pill_tap, menu_cells, new_popular_label, new_popular_tabs, pill_corners,
    sorted_genres, GenrePillTap, NewPopularTab, SubNavGenre,
};

fn g(id: u32, name: &str) -> SubNavGenre {
    SubNavGenre { id, name: name.to_string() }
}

#[test]
fn genres_sort_by_name_keeping_ties_in_order() {
    let genres = vec![g(1, "Thriller"), g(2, "Action"), g(3, "Drama"), g(4, "Action"), g(5, "action")];
    assert_eq!(genre_order(&genres), vec![1, 3, 2, 0, 4]);
    let sorted = sorted_genres(&genres);
    let ids: Vec<u32> = sorted.iter().map(|x| x.id).collect();
    assert_eq!(ids, vec![2, 4, 3, 1, 5]);
}

#[test]
fn name_order_matches_string_order() {
    let words = ["", "a", "B", "b", "ab", "Éclair", "Zebra", "zz", "a b"];
    for x in words.iter() {
        for y in words.iter() {
            let xv: Vec<char> = x.chars().collect();
            let yv: Vec<char> = y.chars().collect();
            assert_eq!(chars_lt(&xv, &yv), x < y, "{x:?} < {y:?}");
        }
    }
}

#[test]
fn menu_is_laid_out_in_three_columns_top_to_bottom() {
    assert_eq!(menu_cells(7), vec![Some(0), Some(3), Some(6), Some(1), Some(4), None, Some(2), Some(5), None]);
    assert_eq!(menu_cells(6), vec![Some(0), Some(2), Some(4), Some(1), Some(3), Some(5)]);
    assert!(menu_cells(0).is_empty());
    assert_eq!(menu_cells(1), vec![Some(0), None, None]);
}

#[test]
fn genre_pill_and_new_and_hot_tabs() {
    assert_eq!(genre_pill_tap(true), GenrePillTap::ClearGenre);
    assert_eq!(genre_pill_tap(false), GenrePillTap::ToggleSheet);
    let tabs = new_popular_tabs();
    assert_eq!(tabs.len(), 5);
    assert_eq!(tabs[0], NewPopularTab::Watching);
    assert_eq!(new_popular_label(NewPopularTab::Watching), "Everyone's Watching");
    assert_eq!(new_popular_label(NewPopularTab::ComingSoon), "Coming Soon");
    assert_eq!(pill_corners(0, 5), "rounded-l-[20px] rounded-r-[10px]");
    assert_eq!(pill_corners(4, 5), "rounded-l-[10px] rounded-r-[20px]");
    assert_eq!(pill_corners(2, 5), "rounded-[10px]");
}
