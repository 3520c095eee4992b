use app_api::text::{char_count, is_blank, is_whitespace, owned, push_decimal, push_signed_decimal, take_chars, trim};

#[test]
fn trim_removes_surrounding_whitespace() {
    assert_eq!(trim("  hello world \n"), "hello world");
    assert_eq!(trim("\u{3000}\tname\u{a0}"), "name");
    assert_eq!(trim("plain"), "plain");
}

#[test]
fn trim_of_blank_is_empty() {
    assert_eq!(trim(""), "");
    assert_eq!(trim(" \t\r\n\u{2028}"), "");
}

#[test]
fn is_blank_matches_trim() {
    assert!(is_blank(""));
    assert!(is_blank("   \u{85}"));
    assert!(!is_blank(" x "));
    assert!(is_whitespace('\u{200a}'));
    assert!(!is_whitespace('\u{200b}'));
}

#[test]
fn char_count_counts_characters() {
    assert_eq!(char_count("Привет"), 6);
    assert_eq!(char_count(""), 0);
}

#[test]
fn take_chars_cuts_by_characters() {
    assert_eq!(take_chars("Привет", 3), "При");
    assert_eq!(take_chars("ab", 5), "ab");
}

#[test]
fn decimal_notation() {
    let mut s = owned("n=");
    push_decimal(&mut s, 0);
    assert_eq!(s, "n=0");
    let mut s = String::new();
    push_decimal(&mut s, 1234567890);
    assert_eq!(s, "1234567890");
    let mut s = String::new();
    push_decimal(&mut s, u64::MAX);
    assert_eq!(s, u64::MAX.to_string());
}

#[test]
fn signed_decimal_notation() {
    let mut s = String::new();
    push_signed_decimal(&mut s, -42);
    assert_eq!(s, "-42");
    let mut s = String::new();
    push_signed_decimal(&mut s, i64::MIN);
    assert_eq!(s, i64::MIN.to_string());
    let mut s = String::new();
    push_signed_decimal(&mut s, 1700000000);
    assert_eq!(s, "1700000000");
}
