use web_client::string_map::StringMap;

#[test]
fn map_reads_back_what_was_stored_last() {
    let mut map: StringMap<u32> = StringMap::new();
    assert_eq!(map.get("a"), None);
    map.insert("a".to_owned(), 1);
    map.insert("b".to_owned(), 2);
    map.insert("a".to_owned(), 3);
    assert_eq!(map.get("a"), Some(&3));
    assert_eq!(map.get("b"), Some(&2));
    assert_eq!(map.remove("a"), Some(3));
    assert_eq!(map.remove("a"), None);
    assert_eq!(map.get("a"), None);
    assert_eq!(map.get("b"), Some(&2));
}

#[test]
fn map_drops_and_counts_keys_by_value() {
    let mut map: StringMap<String> = StringMap::new();
    for (key, value) in [("a", "x"), ("b", "x"), ("c", "y"), ("d", "x")] {
        map.insert(key.to_owned(), value.to_owned());
    }
    assert_eq!(map.count_others("a", "x"), 2);
    assert_eq!(map.count_others("c", "x"), 3);
    assert_eq!(map.count_others("c", "y"), 0);
    map.remove_value("x");
    assert_eq!(map.get("a"), None);
    assert_eq!(map.get("b"), None);
    assert_eq!(map.get("c"), Some(&"y".to_owned()));
    assert_eq!(map.get("d"), None);
}
