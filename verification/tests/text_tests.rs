//! The text kernel: decimal rendering, parsing, search and replace.

use survey::text::{
    contains_char, contains_str, find_str, i32_to_string, i64_to_string, parse_i32, replace_first,
    split_commas, str_eq, u32_to_string, u64_to_string, usize_to_string,
};

#[test]
fn decimal_rendering() {
    assert_eq!(u64_to_string(0), "0");
    assert_eq!(u64_to_string(7), "7");
    assert_eq!(u64_to_string(12345), "12345");
    assert_eq!(u64_to_string(u64::MAX), "18446744073709551615");
    assert_eq!(u32_to_string(4294967295), "4294967295");
    assert_eq!(usize_to_string(50), "50");
    assert_eq!(i64_to_string(0), "0");
    assert_eq!(i64_to_string(-1), "-1");
    assert_eq!(i64_to_string(-42), "-42");
    assert_eq!(i64_to_string(i64::MIN), "-9223372036854775808");
    assert_eq!(i64_to_string(i64::MAX), "9223372036854775807");
    assert_eq!(i32_to_string(-2147483648), "-2147483648");
}

#[test]
fn integer_parsing() {
    assert_eq!(parse_i32("0"), Some(0));
    assert_eq!(parse_i32("42"), Some(42));
    assert_eq!(parse_i32("-42"), Some(-42));
    assert_eq!(parse_i32("+42"), Some(42));
    assert_eq!(parse_i32("2147483647"), Some(2147483647));
    assert_eq!(parse_i32("-2147483648"), Some(-2147483648));
    assert_eq!(parse_i32("2147483648"), None);
    assert_eq!(parse_i32("-2147483649"), None);
    assert_eq!(parse_i32("99999999999999999999"), None);
    assert_eq!(parse_i32(""), None);
    assert_eq!(parse_i32("-"), None);
    assert_eq!(parse_i32("+"), None);
    assert_eq!(parse_i32("1.5"), None);
    assert_eq!(parse_i32(" 1"), None);
    assert_eq!(parse_i32("1 "), None);
    assert_eq!(parse_i32("abc"), None);
}

#[test]
fn substring_search() {
    assert!(contains_str("survey_admins_secret_key violated", "survey_admins_secret_key"));
    assert!(contains_str("abc", ""));
    assert!(contains_str("", ""));
    assert!(!contains_str("", "a"));
    assert!(!contains_str("abc", "abcd"));
    assert!(contains_str("aaab", "aab"));
    assert!(!contains_str("acbacb", "abc"));
    assert_eq!(find_str("hello world", "o"), Some(4));
    assert_eq!(find_str("hello", "x"), None);
    assert!(contains_char("user@example.com", '@'));
    assert!(!contains_char("username", '@'));
}

#[test]
fn string_equality_and_replacement() {
    assert!(str_eq("abc", "abc"));
    assert!(!str_eq("abc", "abd"));
    assert!(!str_eq("abc", "ab"));
    assert_eq!(replace_first("/a/{uuid}/b", "{uuid}", "42"), "/a/42/b");
    assert_eq!(replace_first("none here", "{uuid}", "42"), "none here");
    assert_eq!(replace_first("xx", "x", "yy"), "yyx");
}

#[test]
fn comma_splitting() {
    assert_eq!(split_commas("1,2,3"), vec!["1", "2", "3"]);
    assert_eq!(split_commas("1"), vec!["1"]);
    assert_eq!(split_commas(""), vec![""]);
    assert_eq!(split_commas("a,,b"), vec!["a", "", "b"]);
    assert_eq!(split_commas(",x"), vec!["", "x"]);
    assert_eq!(split_commas("x,"), vec!["x", ""]);
}
