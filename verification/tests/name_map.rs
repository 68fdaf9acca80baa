use opsd::name_map::NameMap;

#[test]
fn names_map_to_their_last_value() {
    let mut map: NameMap<u32> = NameMap::new();
    assert!(!map.contains("a"));
    assert_eq!(map.get("a"), None);
    map.insert("a".to_string(), 1);
    map.insert("b".to_string(), 2);
    map.insert("a".to_string(), 3);
    assert!(map.contains("a"));
    assert_eq!(map.get("a"), Some(&3));
    assert_eq!(map.get("b"), Some(&2));
    assert_eq!(map.get(""), None);
}

#[test]
fn values_change_in_place() {
    let mut map: NameMap<Vec<u8>> = NameMap::new();
    map.insert("x".to_string(), vec![1]);
    assert!(map.get_mut("y").is_none());
    if let Some(value) = map.get_mut("x") {
        value.push(2);
    }
    assert_eq!(map.get("x"), Some(&vec![1, 2]));
}

#[test]
fn removed_names_are_gone() {
    let mut map: NameMap<u32> = NameMap::new();
    map.insert("a".to_string(), 1);
    map.insert("b".to_string(), 2);
    map.insert("c".to_string(), 3);
    assert_eq!(map.remove("b"), Some(2));
    assert_eq!(map.remove("b"), None);
    assert!(!map.contains("b"));
    assert_eq!(map.get("a"), Some(&1));
    assert_eq!(map.get("c"), Some(&3));
}
