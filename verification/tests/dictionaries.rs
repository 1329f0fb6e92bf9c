use portal_capture::dyn_map::DynMap;

#[test]
fn empty_dictionary_has_nothing() {
    let map: DynMap<u32> = DynMap::new();
    assert!(map.get("").is_none());
    assert!(map.into_entries().is_empty());
}

#[test]
fn last_value_of_a_key_counts() {
    let map = DynMap::new()
        .with_owned("a".to_owned(), 1)
        .with_owned("b".to_owned(), 2)
        .with_owned("a".to_owned(), 3);
    assert_eq!(map.get("a"), Some(&3));
    assert_eq!(map.get("b"), Some(&2));
    assert_eq!(map.get("c"), None);
    assert_eq!(map.into_entries(), vec![("a".to_owned(), 3), ("b".to_owned(), 2)]);
}
