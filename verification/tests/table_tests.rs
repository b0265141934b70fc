use transcription_engine::table::Table;

#[test]
fn a_table_holds_one_value_for_each_key() {
    let mut table: Table<u32> = Table::new();
    assert_eq!(table.len(), 0);
    assert!(!table.contains_key("a"));
    assert_eq!(table.get("a"), None);

    table.insert("a".to_string(), 1);
    table.insert("b".to_string(), 2);
    table.insert("".to_string(), 0);
    assert_eq!(table.len(), 3);
    assert_eq!(table.get("a"), Some(&1));
    assert_eq!(table.get("b"), Some(&2));
    assert_eq!(table.get(""), Some(&0));
    assert!(table.contains_key("b"));
    assert!(!table.contains_key("B"));

    // A key that is put in again keeps its place and takes the new value.
    table.insert("a".to_string(), 10);
    assert_eq!(table.len(), 3);
    assert_eq!(table.get("a"), Some(&10));
    assert_eq!(*table.value_at(0), 10);
    assert_eq!(*table.value_at(1), 2);

    assert_eq!(table.remove("b"), Some(2));
    assert_eq!(table.remove("b"), None);
    assert_eq!(table.len(), 2);
    assert_eq!(table.get("b"), None);
    assert_eq!(table.get("a"), Some(&10));
    assert_eq!(table.get(""), Some(&0));
    assert_eq!(table.remove("missing"), None);
    assert_eq!(table.remove("a"), Some(10));
    assert_eq!(table.remove(""), Some(0));
    assert_eq!(table.len(), 0);
}

#[test]
fn a_table_keeps_many_keys_apart() {
    let mut table: Table<String> = Table::new();
    for i in 0..200 {
        table.insert(format!("key-{}", i), format!("value-{}", i));
    }
    for i in (0..200).step_by(3) {
        assert_eq!(table.remove(&format!("key-{}", i)), Some(format!("value-{}", i)));
    }
    for i in 0..200 {
        let got = table.get(&format!("key-{}", i)).cloned();
        if i % 3 == 0 {
            assert_eq!(got, None);
        } else {
            assert_eq!(got, Some(format!("value-{}", i)));
        }
    }
    assert_eq!(table.len(), 200 - 67);
}
