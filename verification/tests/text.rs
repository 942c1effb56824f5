use laermampel::text::{
    after_last, begins_with, contains, hex_number, join, number, padded, same, same_ignoring_case, signed_number, strip_start,
    trim_leading, trim_trailing,
};
use laermampel::wide::{text_from, wide, wide_fixed, zero_at};

#[test]
fn numbers_as_text() {
    for x in [0u64, 7, 10, 99, 100, 12345, u64::MAX] {
        assert_eq!(number(x), x.to_string());
    }
    for x in [0i64, -1, 42, i64::MIN, i64::MAX] {
        assert_eq!(signed_number(x), x.to_string());
    }
    assert_eq!(padded(5), "05");
    assert_eq!(padded(59), "59");
    assert_eq!(hex_number(0x1e7d, 4), "1e7d");
    assert_eq!(hex_number(0xa, 2), "0a");
}

#[test]
fn searching_and_cutting() {
    assert!(contains("abcabd", "abd") && contains("abc", "") && contains("", "") && !contains("abc", "abcd"));
    assert!(begins_with("wasapi:x", "wasapi:") && !begins_with("was", "wasapi:"));
    assert_eq!(strip_start("wasapi:x", "wasapi:").as_deref(), Some("x"));
    assert_eq!(strip_start("alsa:x", "wasapi:"), None);
    assert_eq!(after_last("a/tag/b/tag/c", "/tag/").as_deref(), Some("c"));
    assert_eq!(after_last("/tag/", "/tag/").as_deref(), Some(""));
    assert_eq!(after_last("tag", "/tag/"), None);
    assert_eq!(trim_trailing("v1//", '/'), "v1");
    assert_eq!(trim_leading("vv1.2", 'v'), "1.2");
    assert_eq!(trim_leading("vv", 'v'), "");
}

#[test]
fn comparing_texts() {
    assert!(same("ä", "ä") && !same("ä", "a") && !same("a", "aa"));
    assert!(same_ignoring_case("C:\\Programme", "c:\\pROGRAMME"));
    // Only the letters A to Z.
    assert!(!same_ignoring_case("Ä", "ä"));
    let list = vec!["a".to_string(), "b".to_string(), "c".to_string()];
    assert_eq!(join(&list, ", "), "a, b, c");
    assert_eq!(join(&Vec::new(), ", "), "");
}

#[test]
fn wide_text_is_utf16() {
    for s in ["", "Lärmampel", "🎤 laut", "\u{ffff}\u{10000}\u{10ffff}"] {
        let expected: Vec<u16> = s.encode_utf16().chain(std::iter::once(0)).collect();
        assert_eq!(wide(s), expected);
        assert_eq!(zero_at(&wide(s)), expected.len() - 1);
        let units: Vec<u16> = s.encode_utf16().collect();
        assert_eq!(text_from(&units), s);
    }
    assert_eq!(text_from(&vec![0x41, 0xd800, 0x42]), "A\u{fffd}B");
    assert_eq!(text_from(&vec![0xdc00, 0xd800, 0xd83d, 0xde00, 0xd800]), "\u{fffd}\u{fffd}😀\u{fffd}");
    let fixed = wide_fixed("LucyWolf");
    assert_eq!(&fixed[..8], "LucyWolf".encode_utf16().collect::<Vec<u16>>());
    assert!(fixed[8..].iter().all(|&u| u == 0));
    let long = wide_fixed(&"x".repeat(300));
    assert!(long[..255].iter().all(|&u| u == 0x78));
    assert_eq!(long[255], 0);
}
