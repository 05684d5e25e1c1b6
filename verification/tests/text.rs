use astreinte::text::{chars_of, first_word_of, is_white_space_char, string_from_chars, trim};

#[test]
fn trim_removes_surrounding_white_space() {
    assert_eq!(trim("  ssi \t\n"), "ssi");
    assert_eq!(trim("réseau"), "réseau");
    assert_eq!(trim("   "), "");
    assert_eq!(trim(""), "");
    assert_eq!(trim(" a b "), "a b");
}

#[test]
fn trim_knows_unicode_white_space() {
    assert_eq!(trim("\u{a0}\u{3000}infra\u{2028}"), "infra");
    assert_eq!(trim("\u{200b}x"), "\u{200b}x");
}

#[test]
fn trim_agrees_with_std() {
    for s in ["", " ", "a", "  a  ", "\u{85}b\u{202f}", "x y\u{205f}", "\u{1680}\u{2000}\u{200a}"] {
        assert_eq!(trim(s), s.trim());
    }
}

#[test]
fn white_space_is_that_of_std() {
    for c in ['\t', '\n', '\u{b}', '\u{c}', '\r', ' ', '\u{85}', '\u{a0}', '\u{1680}', '\u{2005}', '\u{2028}', '\u{2029}', '\u{202f}', '\u{205f}', '\u{3000}', 'a', '\u{200b}', '\u{feff}', 'é'] {
        assert_eq!(is_white_space_char(c), c.is_whitespace(), "{:?}", c);
    }
}

#[test]
fn first_word_is_that_of_split_whitespace() {
    assert_eq!(first_word_of("  Jean Dupont"), Some("Jean".to_string()));
    assert_eq!(first_word_of("Alice"), Some("Alice".to_string()));
    assert_eq!(first_word_of(" \t "), None);
    assert_eq!(first_word_of(""), None);
    for s in ["Marie-Claire  Durand", "\u{3000}Zoé\u{a0}X", "a\nb"] {
        assert_eq!(first_word_of(s).as_deref(), s.split_whitespace().next());
    }
}

#[test]
fn chars_and_substrings() {
    let v = chars_of("héllo");
    assert_eq!(v, vec!['h', 'é', 'l', 'l', 'o']);
    assert_eq!(string_from_chars(&v, 1, 4), "éll");
    assert_eq!(string_from_chars(&v, 2, 2), "");
}

#[test]
fn trimming_twice_changes_nothing() {
    for s in ["  a ", "\u{a0}b c\u{3000}", "", "   ", "x"] {
        assert_eq!(trim(&trim(s)), trim(s));
    }
}
