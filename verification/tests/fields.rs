use ajars::fields::Fields;

#[test]
fn a_new_map_is_empty() {
    let fields = Fields::new();
    assert_eq!(fields.len(), 0);
    assert!(!fields.contains("a"));
    assert_eq!(fields.get("a"), None);
}

#[test]
fn insert_binds_a_new_name_at_the_end() {
    let mut fields = Fields::new();
    fields.insert("a", "1");
    fields.insert("b", "2");
    assert_eq!(fields.len(), 2);
    assert_eq!(fields.name_at(0), "a");
    assert_eq!(fields.value_at(0), "1");
    assert_eq!(fields.name_at(1), "b");
    assert_eq!(fields.value_at(1), "2");
    assert_eq!(fields.get("b").unwrap(), "2");
}

#[test]
fn insert_replaces_the_value_of_a_known_name_in_place() {
    let mut fields = Fields::new();
    fields.insert("a", "1");
    fields.insert("b", "2");
    fields.insert("a", "3");
    assert_eq!(fields.len(), 2);
    assert_eq!(fields.name_at(0), "a");
    assert_eq!(fields.value_at(0), "3");
    assert_eq!(fields.get("a").unwrap(), "3");
    assert_eq!(fields.get("b").unwrap(), "2");
}

#[test]
fn names_are_compared_exactly() {
    let mut fields = Fields::new();
    fields.insert("Content-Type", "application/json");
    assert!(fields.contains("Content-Type"));
    assert!(!fields.contains("content-type"));
    assert!(!fields.contains(""));
}

#[test]
fn the_empty_name_is_a_name() {
    let mut fields = Fields::new();
    fields.insert("", "x");
    assert!(fields.contains(""));
    assert_eq!(fields.get("").unwrap(), "x");
}

#[test]
fn collect_keeps_the_last_value_and_the_first_place() {
    let pairs = vec![
        ("a".to_owned(), "1".to_owned()),
        ("b".to_owned(), "2".to_owned()),
        ("a".to_owned(), "3".to_owned()),
    ];
    let fields = Fields::collect(&pairs);
    assert_eq!(
        fields.pairs(),
        &vec![("a".to_owned(), "3".to_owned()), ("b".to_owned(), "2".to_owned())]
    );
}

#[test]
fn clone_keeps_entries_and_order() {
    let mut fields = Fields::new();
    fields.insert("z", "26");
    fields.insert("a", "1");
    let copy = fields.clone();
    assert_eq!(copy.pairs(), fields.pairs());
    fields.insert("a", "2");
    assert_eq!(copy.get("a").unwrap(), "1");
}

#[test]
fn same_as_ignores_order() {
    let mut first = Fields::new();
    first.insert("a", "1");
    first.insert("b", "2");
    let mut second = Fields::new();
    second.insert("b", "2");
    second.insert("a", "1");
    assert!(first.same_as(&second));
    assert!(second.same_as(&first));
}

#[test]
fn same_as_sees_a_different_value_and_a_missing_name() {
    let mut first = Fields::new();
    first.insert("a", "1");
    let mut second = Fields::new();
    second.insert("a", "2");
    assert!(!first.same_as(&second));
    let mut third = Fields::new();
    third.insert("a", "1");
    third.insert("b", "2");
    assert!(first.is_part_of(&third));
    assert!(!third.is_part_of(&first));
    assert!(!first.same_as(&third));
}
