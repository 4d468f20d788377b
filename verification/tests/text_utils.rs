use dark_instruments::bridge::error::{
    AdbError, CaptureScreenError, DisplaySizeError, ScreenSumError,
};
use dark_instruments::toolkit::rand::rand_rng;
use dark_instruments::{count_tokens, parse_u32, str_contains, str_eq, trim_str};

#[test]
fn trimming_strips_both_ends() {
    assert_eq!(trim_str("  a b\t\n"), "a b");
    assert_eq!(trim_str(""), "");
    assert_eq!(trim_str(" \t\r\n"), "");
    assert_eq!(trim_str("x"), "x");
}

#[test]
fn trimming_and_tokens_follow_unicode_whitespace() {
    // no-break space, ideographic space, and em space all trim away
    assert_eq!(trim_str("\u{a0}a\u{a0}"), "a");
    assert_eq!(trim_str("\u{3000}ab\u{2003}"), "ab");
    // and separate tokens
    assert_eq!(count_tokens("a\u{a0}b"), 2);
    assert_eq!(count_tokens("a\u{2028}b\u{202f}c"), 3);
}

#[test]
fn token_counting() {
    assert_eq!(count_tokens(""), 0);
    assert_eq!(count_tokens("   "), 0);
    assert_eq!(count_tokens("one"), 1);
    assert_eq!(count_tokens("a b\tc"), 3);
    assert_eq!(count_tokens("  a   b  "), 2);
}

#[test]
fn substring_search() {
    assert!(str_contains("hello world", "lo wo"));
    assert!(str_contains("hello", ""));
    assert!(str_contains("hello", "hello"));
    assert!(!str_contains("abc", "abcd"));
    assert!(!str_contains("", "a"));
}

#[test]
fn string_equality() {
    assert!(str_eq("abc", "abc"));
    assert!(!str_eq("abc", "abd"));
    assert!(!str_eq("abc", "abcd"));
    assert!(str_eq("", ""));
}

#[test]
fn unsigned_parsing() {
    assert_eq!(parse_u32("0"), Some(0));
    assert_eq!(parse_u32("007"), Some(7));
    assert_eq!(parse_u32("4294967295"), Some(u32::MAX));
    assert_eq!(parse_u32("4294967296"), None);
    assert_eq!(parse_u32(""), None);
    assert_eq!(parse_u32("12a"), None);
    assert_eq!(parse_u32("-1"), None);
}

#[test]
fn random_draws_respect_their_bounds() {
    assert_eq!(rand_rng(5, 5), 5);
    for _ in 0..20 {
        let r = rand_rng(1000, 3000);
        assert!((1000..=3000).contains(&r));
    }
}

#[test]
fn error_messages() {
    assert_eq!(AdbError::AdbNotFound.message(), "ADB binary not found");
    assert_eq!(
        AdbError::TargetNotOnline.message(),
        "Provided target is not online"
    );
    assert_eq!(
        AdbError::NoExclusiveTargetOnline.message(),
        "No exclusive target online"
    );
    assert_eq!(DisplaySizeError.message(), "Failed to get display size");
    assert_eq!(CaptureScreenError.message(), "Failed to capture screen");
    assert_eq!(ScreenSumError.message(), "Failed to calculate screen sum");
}
