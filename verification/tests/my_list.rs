use pstream_frontend::my_list::{is_listed, list_button_title, toggle_in_list};
use std::collections::HashMap;

#[test]
fn toggling_adds_then_removes() {
    let mut list: HashMap<u32, u64> = HashMap::new();
    assert!(toggle_in_list(&mut list, 42, 1000));
    assert_eq!(list.get(&42), Some(&1000));
    assert!(is_listed(&list, 42));
    assert!(!toggle_in_list(&mut list, 42, 2000));
    assert!(list.is_empty());
    assert!(!is_listed(&list, 42));
}

#[test]
fn toggling_one_title_leaves_others() {
    let mut list: HashMap<u32, u64> = HashMap::new();
    list.insert(1, 10);
    list.insert(2, 20);
    toggle_in_list(&mut list, 1, 99);
    assert_eq!(list.len(), 1);
    assert_eq!(list.get(&2), Some(&20));
    assert_eq!(list_button_title(true), "Remove from My List");
    assert_eq!(list_button_title(false), "Add to My List");
}
