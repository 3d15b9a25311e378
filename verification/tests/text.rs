use calendar_tray::text::{chars_of_str, str_eq, trim_str};

#[test]
fn trim_removes_surrounding_whitespace() {
    assert_eq!(trim_str("  [1]\n"), "[1]");
    assert_eq!(trim_str("\t\r\nabc"), "abc");
    assert_eq!(trim_str("abc  "), "abc");
    assert_eq!(trim_str("a b"), "a b");
    assert_eq!(trim_str(""), "");
    assert_eq!(trim_str(" \n\t "), "");
}

#[test]
fn trim_removes_unicode_whitespace() {
    assert_eq!(trim_str("\u{00A0}\u{2003}x\u{2028}\u{3000}"), "x");
    assert_eq!(trim_str("\u{1680}\u{205F}"), "");
}

#[test]
fn trim_keeps_inner_whitespace() {
    assert_eq!(trim_str("  a \u{00A0} b  "), "a \u{00A0} b");
}

#[test]
fn str_eq_compares_characters() {
    assert!(str_eq("", ""));
    assert!(str_eq("quit", "quit"));
    assert!(str_eq("\u{4e16}\u{754c}", "\u{4e16}\u{754c}"));
    assert!(!str_eq("quit", "quit "));
    assert!(!str_eq("quit", "quiT"));
    assert!(!str_eq("a", ""));
}

#[test]
fn chars_of_str_lists_characters() {
    assert_eq!(chars_of_str("ab\u{e9}"), vec!['a', 'b', '\u{e9}']);
    assert_eq!(chars_of_str(""), Vec::<char>::new());
}
