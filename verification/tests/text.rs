use stats_provider::text::{
    contains_owned_text, contains_text, push_decimal, push_number_token, push_token, same_text,
};

fn decimal_of(n: u64) -> String {
    let mut buf = String::new();
    push_decimal(&mut buf, n);
    buf
}

#[test]
fn same_text_compares_character_for_character() {
    assert!(same_text("", ""));
    assert!(same_text("usage", "usage"));
    assert!(!same_text("usage", "usag"));
    assert!(!same_text("usage", "usagE"));
    assert!(!same_text("", "a"));
    assert!(same_text("°C", "°C"));
    assert!(!same_text("°C", "°F"));
}

#[test]
fn names_are_found_in_lists() {
    assert!(contains_text(&["week", "day"], "day"));
    assert!(!contains_text(&["week", "day"], "da"));
    assert!(!contains_text(&[], "day"));
    let owned = vec!["en0".to_string(), "lo0".to_string()];
    assert!(contains_owned_text(&owned, "lo0"));
    assert!(!contains_owned_text(&owned, "en1"));
    assert!(!contains_owned_text(&[], ""));
}

#[test]
fn numbers_are_written_in_decimal() {
    assert_eq!(decimal_of(0), "0");
    assert_eq!(decimal_of(7), "7");
    assert_eq!(decimal_of(10), "10");
    assert_eq!(decimal_of(3600), "3600");
    assert_eq!(decimal_of(1234567890), "1234567890");
    assert_eq!(decimal_of(u64::MAX), "18446744073709551615");
    for n in [9u64, 99, 100, 101, 909, 1000, 65535, 4294967296] {
        assert_eq!(decimal_of(n), n.to_string());
    }
}

#[test]
fn numbers_are_appended_to_what_is_there() {
    let mut buf = "n=".to_string();
    push_decimal(&mut buf, 42);
    push_decimal(&mut buf, 0);
    assert_eq!(buf, "n=420");
}

#[test]
fn token_is_key_quoted_value_and_a_space() {
    let mut buf = String::new();
    push_token(&mut buf, "CPU_USAGE", "42", "%");
    assert_eq!(buf, "CPU_USAGE=\"42%\" ");
    push_token(&mut buf, "ARCH", "arm64", "");
    assert_eq!(buf, "CPU_USAGE=\"42%\" ARCH=\"arm64\" ");
    push_token(&mut buf, "", "", "");
    assert_eq!(buf, "CPU_USAGE=\"42%\" ARCH=\"arm64\" =\"\" ");
}

#[test]
fn number_token_holds_the_number_in_decimal() {
    let mut buf = String::new();
    push_number_token(&mut buf, "DISK_COUNT", 3, "");
    push_number_token(&mut buf, "CPU_FREQUENCY", 3200, "MHz");
    assert_eq!(buf, "DISK_COUNT=\"3\" CPU_FREQUENCY=\"3200MHz\" ");
}
