use ble_session::text_map::TextMap;

#[test]
fn new_map_is_empty() {
    let m: TextMap<u64> = TextMap::new();
    assert_eq!(m.len(), 0);
    assert!(m.is_empty());
    assert_eq!(m.get("a"), None);
    assert!(!m.contains_key("a"));
    assert_eq!(m.entry_at(0), None);
}

#[test]
fn insert_then_get() {
    let mut m: TextMap<u64> = TextMap::new();
    assert_eq!(m.insert(String::from("a"), 1), None);
    assert_eq!(m.insert(String::from("b"), 2), None);
    assert_eq!(m.len(), 2);
    assert!(!m.is_empty());
    assert_eq!(m.get("a"), Some(&1));
    assert_eq!(m.get("b"), Some(&2));
    assert_eq!(m.get("c"), None);
    assert!(m.contains_key("b"));
}

#[test]
fn insert_on_a_known_key_replaces_in_place() {
    let mut m: TextMap<u64> = TextMap::new();
    m.insert(String::from("a"), 1);
    m.insert(String::from("b"), 2);
    m.insert(String::from("c"), 3);
    assert_eq!(m.insert(String::from("b"), 20), Some(2));
    assert_eq!(m.len(), 3);
    assert_eq!(m.entry_at(0), Some(("a", &1)));
    assert_eq!(m.entry_at(1), Some(("b", &20)));
    assert_eq!(m.entry_at(2), Some(("c", &3)));
    assert_eq!(m.entry_at(3), None);
    assert_eq!(m.get("b"), Some(&20));
}

#[test]
fn keys_are_told_apart_by_case() {
    let mut m: TextMap<u64> = TextMap::new();
    m.insert(String::from("ab"), 1);
    m.insert(String::from("AB"), 2);
    assert_eq!(m.len(), 2);
    assert_eq!(m.get("ab"), Some(&1));
    assert_eq!(m.get("AB"), Some(&2));
    assert_eq!(m.get("Ab"), None);
}

#[test]
fn remove_takes_the_entry_out() {
    let mut m: TextMap<u64> = TextMap::new();
    m.insert(String::from("a"), 1);
    m.insert(String::from("b"), 2);
    m.insert(String::from("c"), 3);
    assert_eq!(m.remove("b"), Some(2));
    assert_eq!(m.len(), 2);
    assert_eq!(m.get("b"), None);
    assert_eq!(m.entry_at(0), Some(("a", &1)));
    assert_eq!(m.entry_at(1), Some(("c", &3)));
    assert_eq!(m.entry_at(2), None);
    assert_eq!(m.remove("b"), None);
    assert_eq!(m.len(), 2);
}

#[test]
fn a_removed_key_comes_back_at_the_end() {
    let mut m: TextMap<u64> = TextMap::new();
    m.insert(String::from("a"), 1);
    m.insert(String::from("b"), 2);
    m.remove("a");
    m.insert(String::from("a"), 3);
    assert_eq!(m.entry_at(0), Some(("b", &2)));
    assert_eq!(m.entry_at(1), Some(("a", &3)));
    assert_eq!(m.get("a"), Some(&3));
}

#[test]
fn get_by_prefix_takes_the_first_key_that_is_a_prefix() {
    let mut m: TextMap<u64> = TextMap::new();
    m.insert(String::from("Square-02"), 2);
    m.insert(String::from("Square"), 7);
    m.insert(String::from("Square-01"), 1);
    assert_eq!(m.get_by_prefix("Square-01-XYZ"), Some(&7));
    assert_eq!(m.get_by_prefix("Square-02-XYZ"), Some(&2));
    assert_eq!(m.get_by_prefix("Squar"), None);
    assert_eq!(m.get_by_prefix("Round"), None);
}

#[test]
fn get_by_prefix_accepts_the_whole_name() {
    let mut m: TextMap<u64> = TextMap::new();
    m.insert(String::from("Square-01"), 1);
    assert_eq!(m.get_by_prefix("Square-01"), Some(&1));
}

#[test]
fn an_empty_key_is_a_prefix_of_every_name() {
    let mut m: TextMap<u64> = TextMap::new();
    m.insert(String::new(), 5);
    assert_eq!(m.get_by_prefix("anything"), Some(&5));
    assert_eq!(m.get(""), Some(&5));
}

#[test]
fn clear_empties_the_map() {
    let mut m: TextMap<Vec<u8>> = TextMap::new();
    m.insert(String::from("a"), vec![1, 2]);
    m.clear();
    assert!(m.is_empty());
    assert_eq!(m.get("a"), None);
    m.keys_are_distinct();
}
