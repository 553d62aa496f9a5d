use jsandbox::peers::PeerTable;

#[test]
fn registered_peer_resolves_under_both_names() {
    let mut table = PeerTable::new("main");
    assert!(table.register("util", "export const x = 1;"));
    assert_eq!(table.resolve("util"), Some("export const x = 1;"));
    assert_eq!(table.resolve("util.js"), Some("export const x = 1;"));
    assert_eq!(table.resolve("util.mjs"), None);
    assert_eq!(table.resolve("util.js.js"), None);
    assert_eq!(table.resolve(""), None);
    assert!(table.offers("util"));
    assert!(table.offers("util.js"));
    assert!(!table.offers("main"));
}

#[test]
fn new_table_offers_nothing() {
    let table = PeerTable::new("main");
    assert_eq!(table.resolve("main"), None);
    assert_eq!(table.resolve("util"), None);
    assert!(!table.offers(""));
}

#[test]
fn entry_with_the_target_name_is_skipped() {
    let mut table = PeerTable::new("main");
    assert!(!table.register("main", "export const x = 1;"));
    assert_eq!(table.resolve("main"), None);
    assert_eq!(table.resolve("main.js"), None);
}

#[test]
fn entry_with_empty_name_or_source_is_skipped() {
    let mut table = PeerTable::new("main");
    assert!(!table.register("", "export const x = 1;"));
    assert!(!table.register("util", ""));
    assert!(!table.register("", ""));
    assert_eq!(table.resolve(""), None);
    assert_eq!(table.resolve(".js"), None);
    assert_eq!(table.resolve("util"), None);
    assert_eq!(table.resolve("util.js"), None);
}

#[test]
fn later_registration_replaces_the_earlier_under_the_same_key() {
    let mut table = PeerTable::new("main");
    assert!(table.register("a", "first"));
    assert!(table.register("a.js", "second"));
    assert!(table.register("b", "third"));
    assert_eq!(table.resolve("a"), Some("first"));
    assert_eq!(table.resolve("a.js"), Some("second"));
    assert_eq!(table.resolve("a.js.js"), Some("second"));
    assert_eq!(table.resolve("b"), Some("third"));
    assert!(table.register("a", "fourth"));
    assert_eq!(table.resolve("a"), Some("fourth"));
    assert_eq!(table.resolve("a.js"), Some("fourth"));
}

#[test]
fn table_from_entries_registers_in_order_and_skips_malformed_ones() {
    let entries = vec![
        ("util".to_string(), "u".to_string()),
        ("main".to_string(), "self".to_string()),
        ("".to_string(), "nameless".to_string()),
        ("empty".to_string(), "".to_string()),
        ("lib".to_string(), "l".to_string()),
        ("util".to_string(), "u2".to_string()),
    ];
    let table = PeerTable::from_entries("main", &entries);
    assert_eq!(table.resolve("util"), Some("u2"));
    assert_eq!(table.resolve("util.js"), Some("u2"));
    assert_eq!(table.resolve("lib"), Some("l"));
    assert_eq!(table.resolve("lib.js"), Some("l"));
    assert_eq!(table.resolve("main"), None);
    assert_eq!(table.resolve("main.js"), None);
    assert_eq!(table.resolve("empty"), None);
    assert_eq!(table.resolve(""), None);
}

#[test]
fn alias_of_another_peer_can_spell_the_target_name() {
    let entries = vec![("util".to_string(), "u".to_string())];
    let table = PeerTable::from_entries("util.js", &entries);
    assert_eq!(table.resolve("util.js"), Some("u"));
    assert_eq!(table.resolve("util"), Some("u"));
}

#[test]
fn names_are_compared_letter_for_letter() {
    let mut table = PeerTable::new("Main");
    assert!(table.register("main", "lower"));
    assert!(table.register("caf\u{e9}", "accent"));
    assert_eq!(table.resolve("main"), Some("lower"));
    assert_eq!(table.resolve("Main"), None);
    assert_eq!(table.resolve("caf\u{e9}.js"), Some("accent"));
    assert_eq!(table.resolve("cafe\u{301}.js"), None);
}
