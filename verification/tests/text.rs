use discord_social_rpc::text::{str_concat, contains_char, decimal_string, is_whitespace, starts_with, trim};

#[test]
fn trim_removes_unicode_whitespace() {
    assert_eq!(trim("  abc \t\n"), "abc");
    assert_eq!(trim("\u{3000}abc\u{a0}"), "abc");
    assert_eq!(trim("a b"), "a b");
    assert_eq!(trim("   "), "");
    assert_eq!(trim(""), "");
}

#[test]
fn trim_is_idempotent_on_examples() {
    for s in ["  x  ", "\u{2003}y", "z", " ", "a  b "] {
        let once = trim(s);
        assert_eq!(trim(&once), once);
    }
}

#[test]
fn whitespace_agrees_with_std() {
    for c in ['\u{0}', ' ', '\t', '\n', '\u{b}', '\u{c}', '\r', 'a', '\u{85}', '\u{a0}', '\u{1680}', '\u{2000}', '\u{200a}', '\u{200b}', '\u{2028}', '\u{2029}', '\u{202f}', '\u{205f}', '\u{3000}', '\u{feff}'] {
        assert_eq!(is_whitespace(c), c.is_whitespace(), "{:?}", c);
    }
}

#[test]
fn prefix_and_membership() {
    assert!(starts_with("mp:abc", "mp:"));
    assert!(!starts_with("m", "mp:"));
    assert!(starts_with("abc", ""));
    assert!(contains_char("a b", ' '));
    assert!(!contains_char("ab", ' '));
}

#[test]
fn decimal_formatting() {
    assert_eq!(decimal_string(0), "0");
    assert_eq!(decimal_string(7), "7");
    assert_eq!(decimal_string(404), "404");
    assert_eq!(decimal_string(u64::MAX), u64::MAX.to_string());
    assert_eq!(str_concat("ab", "cd"), "abcd");
}
