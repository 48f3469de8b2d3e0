use webrtc_hub::table::Entry;
use webrtc_hub::Table;

fn entry(key: &[u8], value: &str) -> Entry {
    Entry { key: key.to_vec(), value: value.to_string() }
}

#[test]
fn new_table_holds_nothing() {
    let table = Table::new();
    assert_eq!(table.get(&vec![1, 2, 3]), None);
    assert_eq!(table.get(&Vec::new()), None);
    assert!(table.into_entries().is_empty());
}

#[test]
fn insert_then_get() {
    let mut table = Table::new();
    assert_eq!(table.insert(vec![1], "one".to_string()), None);
    assert_eq!(table.get(&vec![1]), Some("one".to_string()));
    assert_eq!(table.get(&vec![2]), None);
}

#[test]
fn insert_replaces_and_returns_the_prior_value() {
    let mut table = Table::new();
    table.insert(vec![1], "one".to_string());
    assert_eq!(table.insert(vec![1], "uno".to_string()), Some("one".to_string()));
    assert_eq!(table.get(&vec![1]), Some("uno".to_string()));
    assert_eq!(table.into_entries().len(), 1);
}

#[test]
fn insert_keeps_the_other_keys() {
    let mut table = Table::new();
    table.insert(vec![1], "one".to_string());
    table.insert(vec![2], "two".to_string());
    table.insert(vec![3], "three".to_string());
    table.insert(vec![1], "uno".to_string());
    assert_eq!(table.get(&vec![1]), Some("uno".to_string()));
    assert_eq!(table.get(&vec![2]), Some("two".to_string()));
    assert_eq!(table.get(&vec![3]), Some("three".to_string()));
}

#[test]
fn remove_returns_the_value_and_clears_the_key() {
    let mut table = Table::new();
    table.insert(vec![1], "one".to_string());
    table.insert(vec![2], "two".to_string());
    table.insert(vec![3], "three".to_string());
    assert_eq!(table.remove(&vec![1]), Some("one".to_string()));
    assert_eq!(table.get(&vec![1]), None);
    assert_eq!(table.get(&vec![2]), Some("two".to_string()));
    assert_eq!(table.get(&vec![3]), Some("three".to_string()));
    assert_eq!(table.remove(&vec![1]), None);
}

#[test]
fn remove_the_last_and_the_only_entry() {
    let mut table = Table::new();
    table.insert(vec![1], "one".to_string());
    table.insert(vec![2], "two".to_string());
    assert_eq!(table.remove(&vec![2]), Some("two".to_string()));
    assert_eq!(table.get(&vec![1]), Some("one".to_string()));
    assert_eq!(table.remove(&vec![1]), Some("one".to_string()));
    assert!(table.into_entries().is_empty());
}

#[test]
fn remove_of_an_absent_key_changes_nothing() {
    let mut table = Table::new();
    table.insert(vec![1], "one".to_string());
    assert_eq!(table.remove(&vec![9]), None);
    assert_eq!(table.get(&vec![1]), Some("one".to_string()));
}

#[test]
fn keys_are_compared_byte_by_byte() {
    let mut table = Table::new();
    table.insert(vec![1, 2], "ab".to_string());
    table.insert(vec![1], "a".to_string());
    table.insert(Vec::new(), "".to_string());
    table.insert(vec![1, 3], "ac".to_string());
    assert_eq!(table.get(&vec![1, 2]), Some("ab".to_string()));
    assert_eq!(table.get(&vec![1]), Some("a".to_string()));
    assert_eq!(table.get(&Vec::new()), Some(String::new()));
    assert_eq!(table.get(&vec![1, 3]), Some("ac".to_string()));
    assert_eq!(table.get(&vec![2, 1]), None);
}

#[test]
fn from_entries_keeps_the_later_of_two_equal_keys() {
    let table = Table::from_entries(vec![
        entry(&[1], "one"),
        entry(&[2], "two"),
        entry(&[1], "uno"),
    ]);
    assert_eq!(table.get(&vec![1]), Some("uno".to_string()));
    assert_eq!(table.get(&vec![2]), Some("two".to_string()));
    assert_eq!(table.into_entries().len(), 2);
}

#[test]
fn entries_go_out_and_come_back() {
    let mut table = Table::new();
    table.insert(vec![7], "seven".to_string());
    table.insert(vec![8], "eight".to_string());
    table.insert(vec![9], "nine".to_string());
    table.remove(&vec![7]);
    let entries = table.into_entries();
    assert_eq!(entries.len(), 2);
    let back = Table::from_entries(entries);
    assert_eq!(back.get(&vec![7]), None);
    assert_eq!(back.get(&vec![8]), Some("eight".to_string()));
    assert_eq!(back.get(&vec![9]), Some("nine".to_string()));
}
