use chordthingy::history::HistoryList;

#[test]
fn a_new_list_is_empty() {
    let mut list: HistoryList<u32> = HistoryList::new(3);
    assert_eq!(list.newest(), None);
    assert_eq!(list.pop_newest(), None);
}

#[test]
fn the_newest_item_is_in_front() {
    let mut list = HistoryList::new(3);
    assert_eq!(list.push("a"), None);
    assert_eq!(list.newest(), Some(&"a"));
    assert_eq!(list.push("b"), None);
    assert_eq!(list.newest(), Some(&"b"));
    assert_eq!(list.pop_newest(), Some("b"));
    assert_eq!(list.pop_newest(), Some("a"));
    assert_eq!(list.pop_newest(), None);
}

#[test]
fn a_full_list_gives_up_its_oldest_item() {
    let mut list = HistoryList::new(2);
    assert_eq!(list.push(1), None);
    assert_eq!(list.push(2), None);
    assert_eq!(list.push(3), Some(1));
    assert_eq!(list.push(4), Some(2));
    assert_eq!(list.newest(), Some(&4));
    assert_eq!(list.pop_newest(), Some(4));
    assert_eq!(list.pop_newest(), Some(3));
    assert_eq!(list.pop_newest(), None);
    assert_eq!(list.push(5), None);
}

#[test]
fn a_list_of_capacity_zero_keeps_nothing() {
    let mut list = HistoryList::new(0);
    assert_eq!(list.push('x'), Some('x'));
    assert_eq!(list.newest(), None);
    assert_eq!(list.pop_newest(), None);
}

#[test]
fn lists_with_the_same_items_are_equal() {
    let mut a = HistoryList::new(2);
    let mut b = HistoryList::new(2);
    a.push(1);
    a.push(2);
    a.push(3);
    b.push(2);
    b.push(3);
    assert_eq!(a, b);
    b.pop_newest();
    assert_ne!(a, b);
}
