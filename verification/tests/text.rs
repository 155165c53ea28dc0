use weechat::text::{decimal_bytes, decode_lossy, decode_strict, same_text, strip_nul};
use weechat::LossyCString;

#[test]
fn nul_bytes_are_stripped_not_refused() {
    assert_eq!(LossyCString::new("plain"), b"plain");
    assert_eq!(LossyCString::new("a\0b\0\0c"), b"abc");
    assert_eq!(LossyCString::new("\0"), b"");
    assert_eq!(LossyCString::new(""), b"");
    assert_eq!(LossyCString::new("caf\u{e9}\0!"), "caf\u{e9}!".as_bytes());
    assert_eq!(strip_nul(&[0, 1, 0, 2, 0]), vec![1, 2]);
    assert_eq!(strip_nul(&strip_nul(&[0, 1, 0, 2, 0])), vec![1, 2]);
}

#[test]
fn strict_decoding_refuses_invalid_utf8() {
    assert_eq!(decode_strict(b"hello"), Some(String::from("hello")));
    assert_eq!(decode_strict("h\u{e9}llo \u{1f600}".as_bytes()), Some(String::from("h\u{e9}llo \u{1f600}")));
    assert_eq!(decode_strict(b""), Some(String::new()));
    assert_eq!(decode_strict(b"\xff"), None);
    assert_eq!(decode_strict(b"ab\xc3"), None);
    assert_eq!(decode_strict(b"\xed\xa0\x80"), None);
}

#[test]
fn lossy_decoding_never_fails() {
    assert_eq!(decode_lossy(b"hello"), "hello");
    assert_eq!(decode_lossy("h\u{e9}".as_bytes()), "h\u{e9}");
    assert_eq!(decode_lossy(b"a\xffb"), "a\u{fffd}b");
    assert_eq!(decode_lossy(b"\xc3"), "\u{fffd}");
    assert_eq!(decode_lossy(b""), "");
}

#[test]
fn same_text_compares_contents() {
    assert!(same_text("boolean", "boolean"));
    assert!(same_text("", ""));
    assert!(!same_text("boolean", "boolea"));
    assert!(!same_text("boolean", "Boolean"));
    assert!(!same_text("a", "b"));
}

#[test]
fn numbers_are_written_in_decimal() {
    assert_eq!(decimal_bytes(0), b"0");
    assert_eq!(decimal_bytes(7), b"7");
    assert_eq!(decimal_bytes(10), b"10");
    assert_eq!(decimal_bytes(6667), b"6667");
    assert_eq!(decimal_bytes(-1), b"-1");
    assert_eq!(decimal_bytes(-120), b"-120");
    assert_eq!(decimal_bytes(i32::MAX), b"2147483647");
    assert_eq!(decimal_bytes(i32::MIN), b"-2147483648");
}
