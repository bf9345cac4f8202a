use deploy_readiness::text::{decimal_string, join, text_after_last, text_before_first, text_prefix};

#[test]
fn decimal_notation() {
    assert_eq!(decimal_string(0), "0");
    assert_eq!(decimal_string(7), "7");
    assert_eq!(decimal_string(10), "10");
    assert_eq!(decimal_string(12345), "12345");
    assert_eq!(decimal_string(usize::MAX), usize::MAX.to_string());
}

#[test]
fn joining() {
    assert_eq!(join(&vec![], ","), "");
    assert_eq!(join(&vec!["a".to_string()], ","), "a");
    assert_eq!(join(&vec!["a".to_string(), "".to_string(), "c".to_string()], ", "), "a, , c");
}

#[test]
fn splitting_at_characters() {
    assert_eq!(text_before_first("jane.doe@example.com", '@'), "jane.doe");
    assert_eq!(text_before_first("a@b@c", '@'), "a");
    assert_eq!(text_before_first("nobody", '@'), "nobody");
    assert_eq!(text_before_first("", '@'), "");
    assert_eq!(text_after_last("a-b-c", '-'), Some("c".to_string()));
    assert_eq!(text_after_last("abc", '-'), None);
    assert_eq!(text_after_last("-", '-'), Some(String::new()));
}

#[test]
fn prefixes() {
    assert_eq!(text_prefix("0123456789", 7), "0123456");
    assert_eq!(text_prefix("abc", 7), "abc");
    assert_eq!(text_prefix("\u{e9}\u{e9}\u{e9}", 2), "\u{e9}\u{e9}");
}
