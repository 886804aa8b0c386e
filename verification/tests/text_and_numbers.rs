use process::ProcessError;
use process::num::parse_dec_u16;
use process::num::parse_dec_u32;
use process::num::parse_hex_u64;
use process::text::contains_str;
use process::text::split_char;
use process::text::tokenize;
use process::text::trim_str;

#[test]
fn tokenize_splits_on_nul_and_whitespace() {
    assert_eq!(
        tokenize("/usr/bin/sleep\03600\0"),
        vec!["/usr/bin/sleep".to_string(), "3600".to_string()]
    );
    assert_eq!(tokenize("  a \t b \n"), vec!["a".to_string(), "b".to_string()]);
}

#[test]
fn tokenize_of_empty_or_blank_is_empty() {
    assert_eq!(tokenize(""), Vec::<String>::new());
    assert_eq!(tokenize(" \t\n\0"), Vec::<String>::new());
}

#[test]
fn split_keeps_empty_segments() {
    assert_eq!(
        split_char("a::b:", ':'),
        vec!["a".to_string(), String::new(), "b".to_string(), String::new()]
    );
    assert_eq!(split_char("", ':'), vec![String::new()]);
}

#[test]
fn trim_removes_surrounding_whitespace_only() {
    assert_eq!(trim_str(" \tx y\n "), "x y");
    assert_eq!(trim_str("plain"), "plain");
    assert_eq!(trim_str("  \t"), "");
}

#[test]
fn contains_finds_substrings() {
    assert!(contains_str("firefox", "fox"));
    assert!(contains_str("firefox", "firefox"));
    assert!(contains_str("firefox", ""));
    assert!(!contains_str("fire", "firefox"));
    assert!(!contains_str("firefox", "box"));
}

#[test]
fn hex_parse_exact_values() {
    assert_eq!(parse_hex_u64("0").unwrap(), 0);
    assert_eq!(parse_hex_u64("ff").unwrap(), 255);
    assert_eq!(parse_hex_u64("FF").unwrap(), 255);
    assert_eq!(parse_hex_u64("10").unwrap(), 16);
    assert_eq!(parse_hex_u64("ffffffffffffffff").unwrap(), u64::MAX);
    assert_eq!(parse_hex_u64("0000000180000000").unwrap(), 0x0000000180000000);
}

#[test]
fn hex_parse_rejects_bad_input() {
    assert!(matches!(parse_hex_u64(""), Err(ProcessError::Parse)));
    assert!(matches!(parse_hex_u64("g"), Err(ProcessError::Parse)));
    assert!(matches!(parse_hex_u64("10000000000000000"), Err(ProcessError::Parse)));
}

#[test]
fn dec_parse_exact_values_and_bounds() {
    assert_eq!(parse_dec_u32("0").unwrap(), 0);
    assert_eq!(parse_dec_u32("1000").unwrap(), 1000);
    assert_eq!(parse_dec_u32("4294967295").unwrap(), u32::MAX);
    assert!(matches!(parse_dec_u32("4294967296"), Err(ProcessError::Parse)));
    assert_eq!(parse_dec_u16("65535").unwrap(), u16::MAX);
    assert!(matches!(parse_dec_u16("65536"), Err(ProcessError::Parse)));
    assert!(matches!(parse_dec_u32("12a"), Err(ProcessError::Parse)));
    assert!(matches!(parse_dec_u32(""), Err(ProcessError::Parse)));
    assert!(matches!(parse_dec_u32("+1"), Err(ProcessError::Parse)));
}
