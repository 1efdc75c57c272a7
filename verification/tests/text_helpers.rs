use hdr::text::{char_is_whitespace, chars_of, contains_str, trim_str};

#[test]
fn whitespace_follows_unicode() {
    for c in [' ', '\t', '\n', '\r', '\u{0b}', '\u{0c}', '\u{85}', '\u{a0}', '\u{1680}',
        '\u{2000}', '\u{200a}', '\u{2028}', '\u{2029}', '\u{202f}', '\u{205f}', '\u{3000}'] {
        assert!(char_is_whitespace(c), "{:?}", c);
    }
    for c in ['a', '0', '\u{200b}', '\u{feff}', '\u{180e}', '\0'] {
        assert!(!char_is_whitespace(c), "{:?}", c);
    }
    for u in 0u32..0x3100 {
        if let Some(c) = char::from_u32(u) {
            assert_eq!(char_is_whitespace(c), c.is_whitespace(), "{:x}", u);
        }
    }
}

#[test]
fn trim_removes_outer_whitespace() {
    assert_eq!(trim_str("  1.2.3\n"), "1.2.3");
    assert_eq!(trim_str("1.2.3"), "1.2.3");
    assert_eq!(trim_str(" \t\r\n "), "");
    assert_eq!(trim_str(""), "");
    assert_eq!(trim_str("\u{3000}v 1 \u{a0}"), "v 1");
    for s in ["  a b  ", "x", "\n\nq\n", "é ü ", "  "] {
        assert_eq!(trim_str(s), s.trim());
    }
}

#[test]
fn law_trim_is_idempotent() {
    for s in ["  a b  ", "\tvalue\n", "", "  "] {
        let once = trim_str(s);
        assert_eq!(trim_str(&once), once);
    }
}

#[test]
fn contains_finds_substrings() {
    assert!(contains_str("Ver. 13.0.1", "Ver."));
    assert!(contains_str("abc", ""));
    assert!(contains_str("xxVer.", "Ver."));
    assert!(!contains_str("Ver", "Ver."));
    assert!(!contains_str("ver. 1", "Ver."));
    assert!(!contains_str("", "a"));
    assert!(contains_str("ééVer.é", "Ver."));
}

#[test]
fn chars_of_lists_characters() {
    assert_eq!(chars_of("aé\n"), vec!['a', 'é', '\n']);
    assert!(chars_of("").is_empty());
}
