//! Tests for the text and decoding utilities.

use ace_tool::index::decode::decode_bytes_with_encoding;
use ace_tool::index::pattern::{is_indexable_file_standalone, path_components, glob_to_regex};
use ace_tool::text::{contains_str, parse_u64};

#[test]
fn parse_unsigned() {
    assert_eq!(parse_u64("0"), Some(0));
    assert_eq!(parse_u64("007"), Some(7));
    assert_eq!(parse_u64("+12"), Some(12));
    assert_eq!(parse_u64("+"), None);
    assert_eq!(parse_u64(""), None);
    assert_eq!(parse_u64("1_000"), None);
    assert_eq!(parse_u64("99999999999999999999"), None);
    for s in ["1", "42", "+9", "x", "-1", "18446744073709551615"] {
        assert_eq!(parse_u64(s), s.parse::<u64>().ok());
    }
}

#[test]
fn substring_search() {
    assert!(contains_str("abc", ""));
    assert!(contains_str("abc", "bc"));
    assert!(!contains_str("abc", "abcd"));
    assert!(!contains_str("", "a"));
    assert!(contains_str("ééx", "éx"));
}

#[test]
fn decode_utf8_and_fallbacks() {
    assert_eq!(decode_bytes_with_encoding("héllo".as_bytes()), "héllo");
    // GBK bytes for "中文" are not valid UTF-8.
    assert_eq!(decode_bytes_with_encoding(&[0xD6, 0xD0, 0xCE, 0xC4]), "中文");
    // A UTF-8 byte order mark is removed.
    assert_eq!(decode_bytes_with_encoding(&[0xEF, 0xBB, 0xBF, b'a']), "a");
    assert_eq!(decode_bytes_with_encoding(b""), "");
}

#[test]
fn path_parts_and_globs() {
    assert_eq!(path_components("a/b/c.rs"), vec!["a".to_string(), "b".to_string(), "c.rs".to_string()]);
    assert_eq!(path_components(""), vec![String::new()]);
    assert_eq!(path_components("a//b"), vec!["a".to_string(), String::new(), "b".to_string()]);
    assert_eq!(glob_to_regex("*.min.js"), "^.*\\.min\\.js$");
    assert_eq!(glob_to_regex("a?c"), "^a.c$");
}

#[test]
fn indexable_files() {
    let exts = vec![".rs".to_string(), ".md".to_string()];
    let names = vec!["Makefile".to_string()];
    assert!(is_indexable_file_standalone("main.rs", Some("rs"), &exts, &names));
    assert!(is_indexable_file_standalone("README.MD", Some("MD"), &exts, &names));
    assert!(is_indexable_file_standalone("Makefile", None, &exts, &names));
    assert!(!is_indexable_file_standalone("image.png", Some("png"), &exts, &names));
    assert!(!is_indexable_file_standalone("LICENSE", None, &exts, &names));
}

#[test]
fn decode_falls_back_to_lossy_utf8() {
    // A UTF-8 byte order mark makes every decoder read UTF-8; with this many
    // replacement characters no decoding is accepted, and the lossy UTF-8
    // text keeps the mark.
    let mut bytes = vec![0xEF, 0xBB, 0xBF];
    for _ in 0..10 {
        bytes.extend_from_slice("\u{FFFD}".as_bytes());
    }
    let expected = format!("\u{FEFF}{}", "\u{FFFD}".repeat(10));
    assert_eq!(decode_bytes_with_encoding(&bytes), expected);
    // Up to five replacement characters are tolerated in a short text.
    let five = "\u{FFFD}".repeat(5);
    assert_eq!(decode_bytes_with_encoding(five.as_bytes()), five);
}
