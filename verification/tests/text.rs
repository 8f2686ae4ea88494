use llm_cascade::text::{
    join, parse_u64, replace_char_str, starts_with_str, str_eq, trim_end_matches_char, trim_str,
    u64_to_decimal,
};
use llm_cascade::setup::split_char;

#[test]
fn decimal_rendering() {
    assert_eq!(u64_to_decimal(0), "0");
    assert_eq!(u64_to_decimal(7), "7");
    assert_eq!(u64_to_decimal(429), "429");
    assert_eq!(u64_to_decimal(u64::MAX), "18446744073709551615");
}

#[test]
fn trimming() {
    assert_eq!(trim_str("  a b \n"), "a b");
    assert_eq!(trim_str("\u{3000}x\u{a0}"), "x");
    assert_eq!(trim_str("   "), "");
    assert_eq!(trim_end_matches_char("http://x///", '/'), "http://x");
    assert_eq!(trim_end_matches_char("////", '/'), "");
    assert_eq!(trim_end_matches_char("abc", '/'), "abc");
}

#[test]
fn parsing_u64_like_from_str() {
    assert_eq!(parse_u64("120"), Some(120));
    assert_eq!(parse_u64("+5"), Some(5));
    assert_eq!(parse_u64("007"), Some(7));
    assert_eq!(parse_u64(""), None);
    assert_eq!(parse_u64("+"), None);
    assert_eq!(parse_u64("-1"), None);
    assert_eq!(parse_u64(" 5"), None);
    assert_eq!(parse_u64("1.5"), None);
    assert_eq!(parse_u64("18446744073709551615"), Some(u64::MAX));
    assert_eq!(parse_u64("18446744073709551616"), None);
    for s in ["0", "99", "+12", "x", "", "12a", "99999999999999999999"] {
        assert_eq!(parse_u64(s), s.parse::<u64>().ok());
    }
}

#[test]
fn joining_and_splitting() {
    let parts = vec!["a".to_string(), "b".to_string(), "c".to_string()];
    assert_eq!(join(&parts, "; "), "a; b; c");
    assert_eq!(join(&vec![], ", "), "");
    assert_eq!(join(&vec!["x".to_string()], ", "), "x");
    assert_eq!(split_char("a,,b", ','), vec!["a", "", "b"]);
    assert_eq!(split_char("", ','), vec![""]);
    assert_eq!(split_char("1,", ','), vec!["1", ""]);
}

#[test]
fn comparing_and_replacing() {
    assert!(str_eq("abc", "abc"));
    assert!(!str_eq("abc", "abd"));
    assert!(!str_eq("ab", "abc"));
    assert!(str_eq("", ""));
    assert!(starts_with_str("~/x", "~/"));
    assert!(!starts_with_str("~", "~/"));
    assert_eq!(replace_char_str("my-llm-x", '-', '_'), "my_llm_x");
}
