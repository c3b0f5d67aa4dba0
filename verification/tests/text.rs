use postboard::text::blank;
use postboard::text::space_char;

#[test]
fn empty_is_blank() {
    assert!(blank(""));
}

#[test]
fn spaces_are_blank() {
    assert!(blank("   "));
    assert!(blank("\t\n\r "));
}

#[test]
fn unicode_spaces_are_blank() {
    assert!(blank("\u{00a0}\u{2003}\u{3000}"));
}

#[test]
fn text_is_not_blank() {
    assert!(!blank("a"));
    assert!(!blank("  a  "));
    assert!(!blank("hello world"));
}

#[test]
fn space_char_matches_std() {
    for c in [' ', '\t', '\n', 'x', '0', '\u{3000}', '\u{200b}', 'ß'] {
        assert_eq!(space_char(c), c.is_whitespace());
    }
}
