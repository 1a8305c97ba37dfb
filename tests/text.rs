use hifumi::text::{same_text, split_whitespace, starts_with, strip_leading_text};

#[test]
fn splits_on_unicode_whitespace() {
    assert_eq!(
        split_whitespace("  a\tbc\u{a0}d\u{2003}\u{3000}e  "),
        vec!["a".to_string(), "bc".to_string(), "d".to_string(), "e".to_string()]
    );
    assert!(split_whitespace("").is_empty());
    assert!(split_whitespace(" \n\r\u{85}").is_empty());
    assert_eq!(split_whitespace("x"), vec!["x".to_string()]);
}

#[test]
fn prefix_tests() {
    assert!(starts_with("h!ping", "h!"));
    assert!(starts_with("h!", "h!"));
    assert!(starts_with("abc", ""));
    assert!(!starts_with("h", "h!"));
    assert!(!starts_with("H!ping", "h!"));
    assert_eq!(strip_leading_text("h!h!x", "h!"), "h!x");
    assert_eq!(strip_leading_text("ping", "h!"), "ping");
    assert!(same_text("é", "é"));
    assert!(!same_text("ab", "abc"));
}
