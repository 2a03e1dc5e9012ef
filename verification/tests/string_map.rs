use zookeeper_operator::string_map::StringMap;

#[test]
fn empty_map_holds_nothing() {
    let map = StringMap::new();
    assert_eq!(map.len(), 0);
    assert!(!map.contains_key("a"));
    assert!(map.get("a").is_none());
}

#[test]
fn insert_stores_and_replaces() {
    let mut map = StringMap::new();
    map.insert("a".to_string(), "1".to_string());
    map.insert("b".to_string(), "2".to_string());
    assert_eq!(map.len(), 2);
    assert_eq!(map.get("a").map(String::as_str), Some("1"));
    assert_eq!(map.get("b").map(String::as_str), Some("2"));
    map.insert("a".to_string(), "3".to_string());
    assert_eq!(map.len(), 2);
    assert_eq!(map.get("a").map(String::as_str), Some("3"));
    assert_eq!(map.get("b").map(String::as_str), Some("2"));
    assert!(map.contains_key("a"));
    assert!(!map.contains_key("c"));
    assert!(!map.contains_key(""));
}

#[test]
fn entries_come_in_insertion_order() {
    let mut map = StringMap::new();
    map.insert("z".to_string(), "26".to_string());
    map.insert("a".to_string(), "1".to_string());
    map.insert("z".to_string(), "0".to_string());
    map.insert("".to_string(), "empty".to_string());
    assert_eq!(map.len(), 3);
    assert_eq!(map.key_at(0), "z");
    assert_eq!(map.value_at(0), "0");
    assert_eq!(map.key_at(1), "a");
    assert_eq!(map.value_at(1), "1");
    assert_eq!(map.key_at(2), "");
    assert_eq!(map.value_at(2), "empty");
}

#[test]
fn clone_holds_the_same_entries() {
    let mut map = StringMap::new();
    map.insert("k".to_string(), "v".to_string());
    let mut copy = map.clone();
    assert_eq!(copy, map);
    copy.insert("k".to_string(), "w".to_string());
    assert_eq!(map.get("k").map(String::as_str), Some("v"));
    assert_eq!(copy.get("k").map(String::as_str), Some("w"));
}
