use codex_master::string_map::{StringMap, StringSet};

#[test]
fn a_map_gives_back_what_was_put_last() {
    let mut map: StringMap<usize> = StringMap::new();
    assert!(map.is_empty());
    map.insert("b".to_string(), 1);
    map.insert("a".to_string(), 2);
    map.insert("b".to_string(), 3);
    assert_eq!(map.len(), 2);
    assert_eq!(map.get("b"), Some(&3));
    assert_eq!(map.get("a"), Some(&2));
    assert_eq!(map.get("c"), None);
    if let Some(value) = map.get_mut("a") {
        *value = 5;
    }
    assert_eq!(map.remove("a"), Some(5));
    assert_eq!(map.remove("a"), None);
    assert!(!map.contains_key("a"));
    assert_eq!(map.get("b"), Some(&3));
    let copy = map.clone();
    map.insert("d".to_string(), 4);
    assert_eq!(copy.len(), 1);
    assert_eq!(copy.key_at(0), "b");
    assert_eq!(*copy.value_at(0), 3);
}

#[test]
fn a_set_holds_each_member_once() {
    let mut set = StringSet::new();
    set.insert("a".to_string());
    set.insert("a".to_string());
    set.insert("b".to_string());
    assert_eq!(set.len(), 2);
    assert!(set.contains("a") && set.contains("b") && !set.contains("c"));
    set.remove("a");
    assert!(!set.contains("a"));
    assert_eq!(set.member_at(0), "b");
    set.remove("b");
    assert!(set.is_empty());
}
