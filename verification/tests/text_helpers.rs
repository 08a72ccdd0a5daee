use sing_box_for_windows::text::{
    chars_of, i64_to_string, is_blank, is_whitespace, parse_u64_max, str_contains, str_replace,
    str_starts_with, str_trim, str_trim_end_char, string_of, u64_to_string, u64_to_string2,
};

#[test]
fn whitespace_matches_std_on_every_char_class() {
    let samples = [
        ' ', '\t', '\n', '\r', '\u{0B}', '\u{0C}', '\u{85}', '\u{A0}', '\u{1680}', '\u{2000}',
        '\u{200A}', '\u{2028}', '\u{2029}', '\u{202F}', '\u{205F}', '\u{3000}', 'a', '0', '_',
        '\u{200B}', '\u{FEFF}', '\u{180E}', '\u{1F600}', 'é',
    ];
    for c in samples {
        assert_eq!(is_whitespace(c), c.is_whitespace(), "char {:?}", c);
    }
    for u in 0u32..0x3100 {
        if let Some(c) = char::from_u32(u) {
            assert_eq!(is_whitespace(c), c.is_whitespace(), "code point {:#x}", u);
        }
    }
}

#[test]
fn trim_matches_std() {
    for s in ["", "  ", " a ", "\u{3000}name\u{A0}", "x y", "\n\tz\r\n", "a\u{200B}"] {
        assert_eq!(str_trim(s), s.trim());
    }
    assert!(is_blank(" \t\n"));
    assert!(!is_blank(" x "));
}

#[test]
fn decimal_formatting_matches_std() {
    for n in [0u64, 7, 10, 99, 100, 12345, u64::MAX] {
        assert_eq!(u64_to_string(n), n.to_string());
    }
    assert_eq!(u64_to_string2(5), "05");
    assert_eq!(u64_to_string2(42), "42");
    for n in [0i64, -1, 17, -120, i64::MIN, i64::MAX] {
        assert_eq!(i64_to_string(n), n.to_string());
    }
}

#[test]
fn parse_with_upper_bound() {
    assert_eq!(parse_u64_max("12", 720), Some(12));
    assert_eq!(parse_u64_max("+12", 720), Some(12));
    assert_eq!(parse_u64_max("007", 720), Some(7));
    assert_eq!(parse_u64_max("99999999999999999999999", 720), None);
    assert_eq!(parse_u64_max("", 720), None);
    assert_eq!(parse_u64_max("-1", 720), None);
    assert_eq!(parse_u64_max("1a", 720), None);
}

#[test]
fn search_and_replace() {
    assert!(str_contains("hello world", "o w"));
    assert!(str_contains("abc", ""));
    assert!(!str_contains("abc", "abcd"));
    assert!(str_starts_with("sing-box version 1.2", "sing-box"));
    assert!(!str_starts_with("sin", "sing"));
    assert_eq!(str_replace("a/b//c", "/", "\\"), "a\\b\\\\c");
    assert_eq!(str_replace("aaa", "aa", "b"), "aaa".replace("aa", "b"));
    assert_eq!(str_trim_end_char("https://x/ui///", '/'), "https://x/ui");
}

#[test]
fn chars_round_trip() {
    let v = chars_of("añ🙂b");
    assert_eq!(v, vec!['a', 'ñ', '🙂', 'b']);
    assert_eq!(string_of(&v), "añ🙂b");
}
