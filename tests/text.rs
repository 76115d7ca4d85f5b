use hive::text::{is_line_char, truncate, truncate_label, truncate_str};

#[test]
fn test_truncate() {
    assert_eq!(truncate("hello", 10), "hello");
    assert_eq!(truncate("hello world", 5), "hell\u{2026}");
    assert_eq!(truncate("hi", 2), "hi");
}

#[test]
fn truncate_to_one_character() {
    assert_eq!(truncate("hello", 1), "\u{2026}");
    assert_eq!(truncate("h\u{e9}llo", 3), "h\u{e9}\u{2026}");
}

#[test]
fn truncate_str_cuts_bytes() {
    assert_eq!(truncate_str("explorer-1", 10), "explorer-1");
    assert_eq!(truncate_str("explorer-12", 8), "explore\u{2026}");
    assert_eq!(truncate_str("abc", 0), "\u{2026}");
}

#[test]
fn truncate_label_cuts_bytes() {
    assert_eq!(truncate_label("auth", 4), "auth");
    assert_eq!(truncate_label("handoff", 5), "hand\u{2026}");
}

#[test]
fn line_chars_recognised() {
    assert!(is_line_char("\u{2500}"));
    assert!(is_line_char("\u{2219}"));
    assert!(!is_line_char("x"));
    assert!(!is_line_char("\u{2500}\u{2500}"));
}
