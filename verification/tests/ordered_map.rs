use xtask::ordered_map::OrderedMap;

fn listing(map: &OrderedMap<String>) -> Vec<(String, String)> {
    let mut out = Vec::new();
    for i in 0..map.len() {
        out.push((map.key_at(i).clone(), map.value_at(i).clone()));
    }
    out
}

fn pair(key: &str, value: &str) -> (String, String) {
    (key.to_string(), value.to_string())
}

#[test]
fn new_map_is_empty() {
    let map: OrderedMap<String> = OrderedMap::new();
    assert!(map.is_empty());
    assert_eq!(map.len(), 0);
    assert!(map.get("PATH").is_none());
}

#[test]
fn entries_are_listed_in_key_order() {
    let mut map = OrderedMap::new();
    map.insert("b".to_string(), "2".to_string());
    map.insert("a".to_string(), "1".to_string());
    map.insert("c".to_string(), "3".to_string());
    map.insert("ab".to_string(), "4".to_string());
    assert_eq!(listing(&map), vec![pair("a", "1"), pair("ab", "4"), pair("b", "2"), pair("c", "3")]);
}

#[test]
fn insert_replaces_the_value_of_a_key() {
    let mut map = OrderedMap::new();
    map.insert("a".to_string(), "1".to_string());
    map.insert("a".to_string(), "2".to_string());
    assert_eq!(map.len(), 1);
    assert_eq!(map.get("a"), Some(&"2".to_string()));
    assert!(map.contains_key("a"));
    assert!(!map.contains_key("b"));
}

#[test]
fn extend_prefers_the_entries_that_come_in() {
    let mut left = OrderedMap::new();
    left.insert("A".to_string(), "1".to_string());
    left.insert("B".to_string(), "2".to_string());
    let mut right = OrderedMap::new();
    right.insert("B".to_string(), "3".to_string());
    right.insert("C".to_string(), "4".to_string());
    left.extend(right);
    assert_eq!(listing(&left), vec![pair("A", "1"), pair("B", "3"), pair("C", "4")]);
}

#[test]
fn listing_order_is_that_of_std() {
    let keys = ["zeta", "", "alpha", "Alpha", "alp", "\u{e9}t\u{e9}", "a\u{10348}", "a~", "10", "9"];
    let mut map = OrderedMap::new();
    for key in keys {
        map.insert(key.to_string(), key.to_uppercase());
    }
    let mut expected: Vec<String> = keys.iter().map(|k| k.to_string()).collect();
    expected.sort();
    let listed: Vec<String> = listing(&map).into_iter().map(|(k, _)| k).collect();
    assert_eq!(listed, expected);
}
