//! Tests of the text utilities: decimal rendering and parsing, trimming,
//! splitting and lowercasing.

use helix_core::text::{ascii_lower, parse_u64, split_char, str_eq, starts_with_str, trim, trim_end_char, u64_to_dec};

#[test]
fn decimal_rendering() {
    assert_eq!(u64_to_dec(0), "0");
    assert_eq!(u64_to_dec(7), "7");
    assert_eq!(u64_to_dec(1234567890), "1234567890");
    assert_eq!(u64_to_dec(u64::MAX), "18446744073709551615");
}

#[test]
fn decimal_parsing() {
    assert_eq!(parse_u64("0"), Some(0));
    assert_eq!(parse_u64("007"), Some(7));
    assert_eq!(parse_u64("18446744073709551615"), Some(u64::MAX));
    assert_eq!(parse_u64("18446744073709551616"), None);
    assert_eq!(parse_u64(""), None);
    assert_eq!(parse_u64("12a"), None);
    assert_eq!(parse_u64("-3"), None);
}

#[test]
fn decimal_round_trip() {
    for n in [0u64, 1, 9, 10, 99, 100, 4096, u64::MAX] {
        assert_eq!(parse_u64(&u64_to_dec(n)), Some(n));
    }
}

#[test]
fn string_helpers() {
    assert!(str_eq("abc", "abc"));
    assert!(!str_eq("abc", "abd"));
    assert!(!str_eq("abc", "ab"));
    assert!(starts_with_str("abcdef", "abc"));
    assert!(!starts_with_str("ab", "abc"));
    assert_eq!(trim("  a b\t"), "a b");
    assert_eq!(trim("\r\n"), "");
    assert_eq!(trim_end_char("value\\\\", '\\'), "value");
    assert_eq!(ascii_lower("HyBrId-7"), "hybrid-7");
}

#[test]
fn splitting() {
    let parts = split_char("a,b,,c", ',');
    assert_eq!(parts, vec!["a", "b", "", "c"]);
    assert_eq!(split_char("", ','), vec![""]);
    assert_eq!(split_char("x", ','), vec!["x"]);
}
