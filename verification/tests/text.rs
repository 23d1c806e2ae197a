use semantic_search::text::{blank, space};

#[test]
fn ascii_white_space_is_space() {
    for c in [' ', '\t', '\n', '\u{b}', '\u{c}', '\r'] {
        assert!(space(c), "{:?}", c);
    }
}

#[test]
fn unicode_white_space_is_space() {
    for c in [
        '\u{85}', '\u{a0}', '\u{1680}', '\u{2000}', '\u{2005}', '\u{200a}', '\u{2028}',
        '\u{2029}', '\u{202f}', '\u{205f}', '\u{3000}',
    ] {
        assert!(space(c), "{:?}", c);
    }
}

#[test]
fn neighbours_of_white_space_are_not_space() {
    for c in [
        '\u{8}', '\u{e}', '\u{1f}', '!', '\u{84}', '\u{86}', '\u{9f}', '\u{a1}', '\u{167f}',
        '\u{1681}', '\u{1fff}', '\u{200b}', '\u{2027}', '\u{202a}', '\u{202e}', '\u{2030}',
        '\u{205e}', '\u{2060}', '\u{2fff}', '\u{3001}', 'a', '0', '\u{10ffff}',
    ] {
        assert!(!space(c), "{:?}", c);
    }
}

#[test]
fn space_agrees_with_the_standard_library() {
    for n in 0u32..0x11000 {
        if let Some(c) = char::from_u32(n) {
            assert_eq!(space(c), c.is_whitespace(), "{:#x}", n);
        }
    }
}

#[test]
fn empty_text_is_blank() {
    assert!(blank(""));
}

#[test]
fn white_space_only_is_blank() {
    assert!(blank(" "));
    assert!(blank(" \t\r\n"));
    assert!(blank("\u{a0}\u{3000}"));
}

#[test]
fn text_with_a_letter_is_not_blank() {
    assert!(!blank("soccer"));
    assert!(!blank("  x  "));
    assert!(!blank("\t\t."));
    assert!(!blank("   \u{200b}"));
}
