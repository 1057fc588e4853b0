//! Text helpers: trimming, decimal parsing and rendering.

use belfry_core::text::{chars_of, parse_u32, push_decimal, push_zero_padded, text_eq, trim};

#[test]
fn trim_removes_unicode_white_space_at_both_ends() {
    assert_eq!(trim("  abc \t\n"), "abc");
    assert_eq!(trim("\u{3000}\u{a0}x y\u{2029}"), "x y");
    assert_eq!(trim("   "), "");
    assert_eq!(trim(""), "");
    assert_eq!(trim("no-space"), "no-space");
    for s in ["  a b  ", "\u{85}q\u{200a}", "\u{1680}", "z\u{202f}"] {
        assert_eq!(trim(s), s.trim());
    }
}

#[test]
fn parse_u32_follows_str_parse() {
    assert_eq!(parse_u32("0"), Some(0));
    assert_eq!(parse_u32("12"), Some(12));
    assert_eq!(parse_u32("+7"), Some(7));
    assert_eq!(parse_u32("007"), Some(7));
    assert_eq!(parse_u32("4294967295"), Some(u32::MAX));
    assert_eq!(parse_u32("4294967296"), None);
    assert_eq!(parse_u32("99999999999999999999"), None);
    assert_eq!(parse_u32(""), None);
    assert_eq!(parse_u32("+"), None);
    assert_eq!(parse_u32("-1"), None);
    assert_eq!(parse_u32("++1"), None);
    assert_eq!(parse_u32("1 "), None);
    assert_eq!(parse_u32("not-a-number"), None);
    for s in ["0", "+0", "123", "4294967295", "4294967296", "-0", "", "+", "٣"] {
        assert_eq!(parse_u32(s), s.parse::<u32>().ok());
    }
}

#[test]
fn decimal_and_zero_padding() {
    let mut s = String::from("n=");
    push_decimal(&mut s, 0);
    assert_eq!(s, "n=0");
    let mut s = String::new();
    push_decimal(&mut s, u64::MAX);
    assert_eq!(s, u64::MAX.to_string());
    let mut s = String::new();
    push_zero_padded(&mut s, 7, 4);
    assert_eq!(s, "0007");
    let mut s = String::new();
    push_zero_padded(&mut s, 12345, 4);
    assert_eq!(s, "12345");
    let mut s = String::from("ep-");
    push_zero_padded(&mut s, 0, 0);
    assert_eq!(s, "ep-0");
}

#[test]
fn text_eq_and_chars() {
    assert!(text_eq("abc", "abc"));
    assert!(!text_eq("abc", "abd"));
    assert!(!text_eq("ab", "abc"));
    assert!(text_eq("", ""));
    assert_eq!(chars_of("aé"), vec!['a', 'é']);
}
