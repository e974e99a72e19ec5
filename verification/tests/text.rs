use opensnipping::text::{push_decimal, push_signed_decimal, str_contains};

fn decimal(n: u64) -> String {
    let mut out = String::new();
    push_decimal(&mut out, n);
    out
}

fn signed(i: i32) -> String {
    let mut out = String::new();
    push_signed_decimal(&mut out, i);
    out
}

#[test]
fn decimal_digits_of_naturals() {
    assert_eq!(decimal(0), "0");
    assert_eq!(decimal(7), "7");
    assert_eq!(decimal(10), "10");
    assert_eq!(decimal(42), "42");
    assert_eq!(decimal(1009), "1009");
    assert_eq!(decimal(4294967295), "4294967295");
    assert_eq!(decimal(u64::MAX), "18446744073709551615");
    for n in [1u64, 9, 99, 100, 12345, 9876543210] {
        assert_eq!(decimal(n), n.to_string());
    }
}

#[test]
fn decimal_of_signed_numbers() {
    assert_eq!(signed(0), "0");
    assert_eq!(signed(5), "5");
    assert_eq!(signed(-5), "-5");
    assert_eq!(signed(i32::MAX), "2147483647");
    assert_eq!(signed(i32::MIN), "-2147483648");
}

#[test]
fn digits_are_appended_to_what_is_there() {
    let mut out = String::from("fd=");
    push_signed_decimal(&mut out, -12);
    out.push_str(" path=");
    push_decimal(&mut out, 340);
    assert_eq!(out, "fd=-12 path=340");
}

#[test]
fn substring_search() {
    assert!(str_contains("hello world", "o w"));
    assert!(str_contains("hello world", "hello"));
    assert!(str_contains("hello world", "world"));
    assert!(str_contains("hello world", ""));
    assert!(str_contains("", ""));
    assert!(str_contains("aaab", "aab"));
    assert!(!str_contains("hello world", "worlds"));
    assert!(!str_contains("", "a"));
    assert!(!str_contains("abc", "abcd"));
    assert!(!str_contains("abcabc", "cb"));
    assert!(str_contains("größe überschritten", "über"));
    assert!(!str_contains("grosse", "ß"));
}
