use chiaro::flags::{key_less, FlagMap};
use chiaro::layout::{normalize_flags, normalize_order, CarSetupLayoutFlag};

#[test]
fn dynamic_layout_helpers_ignore_empty_and_duplicate_keys() {
    assert_eq!(
        normalize_order(&["summary".into(), String::new(), "summary".into()]),
        ["summary"]
    );
    assert_eq!(
        normalize_flags(&[
            CarSetupLayoutFlag { key: "status".into(), value: true },
            CarSetupLayoutFlag { key: "status".into(), value: false },
        ])
        .get("status"),
        Some(true)
    );
}

#[test]
fn blank_keys_are_dropped_from_flags() {
    let flags = normalize_flags(&[
        CarSetupLayoutFlag { key: "  ".into(), value: true },
        CarSetupLayoutFlag { key: "tires".into(), value: false },
    ]);
    assert_eq!(flags.len(), 1);
    assert_eq!(flags.get("  "), None);
    assert_eq!(flags.get("tires"), Some(false));
}

#[test]
fn normalizing_an_order_twice_changes_nothing() {
    let once = normalize_order(&["b".into(), "a".into(), "b".into(), " ".into(), "c".into()]);
    assert_eq!(once, ["b", "a", "c"]);
    assert_eq!(normalize_order(&once), once);
}

#[test]
fn flag_maps_keep_their_keys_sorted() {
    let mut map = FlagMap::new();
    map.insert("setup:tires".to_owned(), true);
    map.insert("summary".to_owned(), false);
    map.insert("setup:brakes".to_owned(), false);
    map.insert("setup:tires".to_owned(), false);
    let keys: Vec<&str> = map.entries().iter().map(|(k, _)| k.as_str()).collect();
    assert_eq!(keys, ["setup:brakes", "setup:tires", "summary"]);
    assert_eq!(map.get("setup:tires"), Some(false));
    map.insert_if_absent("setup:tires".to_owned(), true);
    assert_eq!(map.get("setup:tires"), Some(false));
    map.insert_if_absent("aero".to_owned(), true);
    assert_eq!(map.entries()[0], ("aero".to_owned(), true));
}

#[test]
fn flag_maps_with_the_same_entries_are_equal() {
    let mut a = FlagMap::new();
    a.insert("x".to_owned(), true);
    a.insert("y".to_owned(), false);
    let mut b = FlagMap::new();
    b.insert("y".to_owned(), false);
    b.insert("x".to_owned(), true);
    assert!(a.same_entries(&b));
    b.insert("x".to_owned(), false);
    assert!(!a.same_entries(&b));
    assert!(a.same_entries(&a.duplicate()));
}

#[test]
fn keys_compare_by_code_point() {
    assert!(key_less("a", "b"));
    assert!(key_less("ab", "abc"));
    assert!(!key_less("abc", "ab"));
    assert!(!key_less("same", "same"));
    assert!(key_less("Z", "a"));
    assert!(key_less("a", "é"));
}
