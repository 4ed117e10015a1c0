use pstream_frontend::rows::{
    feed_page_index, first_ten, given_top_ten, merge_fetched, page_dots, rank_label, rank_letter_spacing,
    rank_padding_class, rank_width_class, scroll_edges, scroll_step, scroll_target, should_prefetch,
    vibe_page_index, RowFeed, ScrollDirection,
};

#[test]
fn feed_starts_on_page_one_and_refuses_a_second_request() {
    let mut f = RowFeed::new();
    assert_eq!(f.page(), 1);
    assert!(f.has_more());
    assert_eq!(f.begin_load(), Some(1));
    assert!(f.is_fetching());
    assert_eq!(f.begin_load(), None);
}

#[test]
fn feed_appends_new_ids_only_and_moves_to_next_page() {
    let mut f = RowFeed::new();
    f.begin_load();
    let appended = f.finish_load(&[10, 20, 10, 30]);
    assert_eq!(*f.ids(), vec![10, 20, 30]);
    assert_eq!(appended, vec![0, 1, 3]);
    assert_eq!(f.page(), 2);
    assert!(!f.is_fetching());
    f.begin_load();
    let appended = f.finish_load(&[30, 40, 20]);
    assert_eq!(*f.ids(), vec![10, 20, 30, 40]);
    assert_eq!(appended, vec![1]);
    assert_eq!(f.page(), 3);
}

#[test]
fn empty_page_ends_the_feed_for_good() {
    let mut f = RowFeed::new();
    f.begin_load();
    let appended = f.finish_load(&[]);
    assert!(appended.is_empty());
    assert!(!f.has_more());
    assert_eq!(f.page(), 1);
    assert_eq!(f.begin_load(), None);
    assert!(!f.is_fetching());
}

#[test]
fn merge_keeps_existing_order() {
    let mut ids = vec![5, 6];
    let appended = merge_fetched(&mut ids, &[6, 7, 5, 8, 8]);
    assert_eq!(ids, vec![5, 6, 7, 8]);
    assert_eq!(appended, vec![1, 3]);
}

#[test]
fn scroll_step_by_width() {
    assert_eq!(scroll_step(1920), 1920 - 120 + 6);
    assert_eq!(scroll_step(1750), 1750 - 120 + 6);
    assert_eq!(scroll_step(1400), 1400 - 112 + 6);
    assert_eq!(scroll_step(1000), 1000 - 96 + 6);
    assert_eq!(scroll_step(500), 500 - 32 + 6);
    assert_eq!(scroll_step(100), 100);
    assert_eq!(scroll_step(0), 100);
}

#[test]
fn scroll_targets_are_clamped() {
    // step at 1000 px is 910
    assert_eq!(scroll_target(ScrollDirection::Left, 500, 1000, 5000), 0);
    assert_eq!(scroll_target(ScrollDirection::Left, 2000, 1000, 5000), 1090);
    assert_eq!(scroll_target(ScrollDirection::Right, 0, 1000, 5000), 910);
    assert_eq!(scroll_target(ScrollDirection::Right, 3500, 1000, 5000), 4000);
}

#[test]
fn prefetch_when_two_widths_or_less_remain() {
    assert!(should_prefetch(ScrollDirection::Right, 3000, 1000, 5000));
    assert!(!should_prefetch(ScrollDirection::Right, 2999, 1000, 5000));
    assert!(!should_prefetch(ScrollDirection::Left, 3000, 1000, 5000));
}

#[test]
fn arrows_follow_the_edges() {
    assert_eq!(scroll_edges(0, 1000, 5000), (false, true));
    assert_eq!(scroll_edges(11, 1000, 5000), (true, true));
    assert_eq!(scroll_edges(3990, 1000, 5000), (true, false));
    assert_eq!(scroll_edges(0, 1000, 1010), (false, false));
}

#[test]
fn feed_page_index_rounds_at_seven_tenths() {
    // page width at 1000 px is 910: page 1 starts at 0.7 * 910 = 637
    assert_eq!(feed_page_index(0, 1000), 0);
    assert_eq!(feed_page_index(636, 1000), 0);
    assert_eq!(feed_page_index(637, 1000), 1);
    assert_eq!(feed_page_index(1547, 1000), 2);
    assert_eq!(feed_page_index(-1000, 1000), 0);
}

#[test]
fn vibe_page_index_rounds_to_nearest() {
    // one page is 0.85 * 1000 = 850 px
    assert_eq!(vibe_page_index(424, 1000), Some(0));
    assert_eq!(vibe_page_index(425, 1000), Some(1));
    assert_eq!(vibe_page_index(1700, 1000), Some(2));
    assert_eq!(vibe_page_index(-50, 1000), Some(0));
    assert_eq!(vibe_page_index(100, 0), None);
}

#[test]
fn page_dots_by_count() {
    assert!(page_dots(4, 0).is_empty());
    assert_eq!(page_dots(5, 0), vec![true, false]);
    assert_eq!(page_dots(12, 2), vec![false, false, true]);
    assert_eq!(page_dots(40, 1).len(), 6);
    assert_eq!(page_dots(40, 9), vec![false; 6]);
}

#[test]
fn top_ten_takes_ten() {
    let v: Vec<u32> = (1..=14).collect();
    assert_eq!(first_ten(v.clone()), (1..=10).collect::<Vec<u32>>());
    assert_eq!(first_ten(vec![1u32, 2]), vec![1, 2]);
    assert_eq!(given_top_ten(Some(v)), Some((1..=10).collect::<Vec<u32>>()));
    assert_eq!(given_top_ten::<u32>(Some(vec![])), None);
    assert_eq!(given_top_ten::<u32>(None), None);
}

#[test]
fn rank_number_styles() {
    assert_eq!(rank_label(0), "1");
    assert_eq!(rank_label(9), "10");
    assert_eq!(rank_width_class(9), "w-[130px] sm:w-[140px] md:w-[150px] lg:w-[185px]");
    assert_eq!(rank_width_class(0), "w-[105px] sm:w-[115px] md:w-[125px] lg:w-[155px]");
    assert_eq!(rank_width_class(4), "w-[95px] sm:w-[105px] md:w-[115px] lg:w-[145px]");
    assert_eq!(rank_letter_spacing(9), "-15px");
    assert_eq!(rank_letter_spacing(3), "-5px");
    assert_eq!(rank_padding_class(9), "pl-[110px] sm:pl-[120px] md:pl-[130px] lg:pl-[165px]");
    assert_eq!(rank_padding_class(1), "pl-[75px] sm:pl-[85px] md:pl-[95px] lg:pl-[125px]");
}

#[test]
fn feed_over_pages_keeps_first_occurrences_and_stops_at_first_empty_page() {
    let pages: Vec<Vec<u32>> = vec![vec![1, 2, 3], vec![3, 4], vec![], vec![5, 6]];
    let mut f = RowFeed::new();
    let mut asked = 0;
    for p in &pages {
        if f.begin_load().is_none() {
            continue;
        }
        asked += 1;
        f.finish_load(p);
    }
    assert_eq!(asked, 3);
    assert_eq!(*f.ids(), vec![1, 2, 3, 4]);
    assert_eq!(f.page(), 3);
    assert!(!f.has_more() && !f.is_fetching());
}
