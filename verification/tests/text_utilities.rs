use ari::text::{note_text, parse_id, quote, str_eq};

#[test]
fn str_eq_compares_by_characters() {
    assert!(str_eq("alpha", "alpha"));
    assert!(!str_eq("alpha", "beta"));
    assert!(!str_eq("a", "aa"));
    assert!(str_eq("", ""));
}

#[test]
fn quote_wraps_plain_text() {
    assert_eq!(quote("hi"), "\"hi\"");
    assert_eq!(quote(""), "\"\"");
}

#[test]
fn quote_escapes_special_characters() {
    assert_eq!(quote("a\"b"), "\"a\\\"b\"");
    assert_eq!(quote("a\\b"), "\"a\\\\b\"");
    assert_eq!(quote("a\nb\tc\rd"), "\"a\\nb\\tc\\rd\"");
}

#[test]
fn quote_keeps_non_ascii_text() {
    assert_eq!(quote("héllo ✓"), "\"héllo ✓\"");
}

#[test]
fn note_text_prefixes_every_line() {
    assert_eq!(note_text("thinking"), "-# thinking\n");
    assert_eq!(note_text("a\nb"), "-# a\n-# b\n");
    assert_eq!(note_text(""), "-# \n");
}

#[test]
fn parse_id_accepts_decimal_identifiers() {
    assert_eq!(parse_id("123"), Some(123));
    assert_eq!(parse_id("007"), Some(7));
    assert_eq!(parse_id("18446744073709551615"), Some(u64::MAX));
}

#[test]
fn parse_id_rejects_non_identifiers() {
    assert_eq!(parse_id(""), None);
    assert_eq!(parse_id("0"), None);
    assert_eq!(parse_id("12a"), None);
    assert_eq!(parse_id("+5"), None);
    assert_eq!(parse_id("-5"), None);
    assert_eq!(parse_id(" 5"), None);
    assert_eq!(parse_id("18446744073709551616"), None);
}
