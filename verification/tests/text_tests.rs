use dsh_desktop::text::{
    contains, decimal_string, join, starts_with, str_eq, trim_end_str, trim_str,
};

#[test]
fn trims_unicode_whitespace() {
    assert_eq!(trim_str("  a b \t\n"), "a b");
    assert_eq!(trim_str("\u{3000}x\u{a0}"), "x");
    assert_eq!(trim_str("   "), "");
    assert_eq!(trim_end_str("  a \r\n"), "  a");
    assert_eq!(trim_end_str(""), "");
    assert_eq!(trim_str("\u{200b}x"), "\u{200b}x");
}

#[test]
fn decimal_matches_to_string() {
    for n in [0u64, 7, 10, 99, 100, 426, 65535, u64::MAX] {
        assert_eq!(decimal_string(n), n.to_string());
    }
}

#[test]
fn searches_and_compares() {
    assert!(contains("abcdef", "cde"));
    assert!(contains("abc", ""));
    assert!(!contains("abc", "abcd"));
    assert!(starts_with("├── x", "├── "));
    assert!(!starts_with("ab", "abc"));
    assert!(str_eq("数据", "数据"));
    assert!(!str_eq("a", "b"));
}

#[test]
fn joins_with_separator() {
    let v = vec!["a".to_string(), "b".to_string(), "c".to_string()];
    assert_eq!(join(&v, "\n  "), "a\n  b\n  c");
    assert_eq!(join(&Vec::new(), ","), "");
    assert_eq!(join(&vec!["x".to_string()], ","), "x");
}
