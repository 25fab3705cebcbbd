use clipshot::plugins::ids::plugin_id;
use clipshot::text::{decimal_string, holds_text};

#[test]
fn decimal_string_writes_single_digits() {
    assert_eq!(decimal_string(0), "0");
    assert_eq!(decimal_string(7), "7");
    assert_eq!(decimal_string(9), "9");
}

#[test]
fn decimal_string_writes_longer_numbers() {
    assert_eq!(decimal_string(10), "10");
    assert_eq!(decimal_string(42), "42");
    assert_eq!(decimal_string(100), "100");
    assert_eq!(decimal_string(1234567890), "1234567890");
}

#[test]
fn decimal_string_writes_the_largest_number() {
    assert_eq!(decimal_string(u64::MAX), "18446744073709551615");
    assert_eq!(decimal_string(u64::MAX), u64::MAX.to_string());
}

#[test]
fn decimal_string_agrees_with_std_on_many_numbers() {
    let mut n: u64 = 0;
    while n < 2000 {
        assert_eq!(decimal_string(n), n.to_string());
        n += 1;
    }
}

#[test]
fn plugin_id_is_prefix_and_numeral() {
    assert_eq!(plugin_id(0), "plugin_0");
    assert_eq!(plugin_id(1), "plugin_1");
    assert_eq!(plugin_id(10), "plugin_10");
    assert_eq!(plugin_id(907), "plugin_907");
}

#[test]
fn plugin_ids_of_different_loads_differ() {
    let mut seen: Vec<String> = Vec::new();
    let mut n: u64 = 0;
    while n < 300 {
        let id = plugin_id(n);
        assert!(!seen.contains(&id));
        seen.push(id);
        n += 1;
    }
}

#[test]
fn holds_text_compares_whole_texts() {
    let stored = String::from("plugin_1");
    assert!(holds_text(&stored, "plugin_1"));
    assert!(!holds_text(&stored, "plugin_10"));
    assert!(!holds_text(&stored, "plugin_"));
    assert!(!holds_text(&stored, ""));
    assert!(holds_text(&String::new(), ""));
}
