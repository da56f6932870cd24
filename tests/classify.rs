use unicode_xid::UnicodeXID;
use venus_symbol::classify::{class_set, is_member, CharClass};

#[test]
fn ascii_letters_start_and_continue() {
    for c in ['A', 'H', 'z', 'O'] {
        assert!(is_member(CharClass::IdentifierStart, c));
        assert!(is_member(CharClass::IdentifierContinue, c));
    }
}

#[test]
fn digits_and_underscore_only_continue() {
    for c in ['0', '2', '9', '_'] {
        assert!(!is_member(CharClass::IdentifierStart, c));
        assert!(is_member(CharClass::IdentifierContinue, c));
    }
}

#[test]
fn punctuation_is_in_neither_class() {
    for c in [' ', '+', '=', '(', '-', '\u{2192}'] {
        assert!(!is_member(CharClass::IdentifierStart, c));
        assert!(!is_member(CharClass::IdentifierContinue, c));
    }
}

#[test]
fn combining_marks_only_continue() {
    for c in ['\u{0301}', '\u{0302}', '\u{20D7}'] {
        assert!(!is_member(CharClass::IdentifierStart, c));
        assert!(is_member(CharClass::IdentifierContinue, c));
    }
}

#[test]
fn each_trie_level_answers() {
    // first tree (below 0x800), second tree (below 0x10000), third tree
    assert!(is_member(CharClass::IdentifierStart, '\u{03B1}'));
    assert!(is_member(CharClass::IdentifierStart, '\u{4E2D}'));
    assert!(is_member(CharClass::IdentifierStart, '\u{1D400}'));
    assert!(is_member(CharClass::IdentifierStart, '\u{20000}'));
    assert!(!is_member(CharClass::IdentifierStart, '\u{E000}'));
    assert!(!is_member(CharClass::IdentifierStart, '\u{10FFFF}'));
    assert!(!is_member(CharClass::IdentifierContinue, '\u{E0000}'));
    assert!(is_member(CharClass::IdentifierContinue, '\u{E0100}'));
}

#[test]
fn class_set_lookup_matches_is_member() {
    let start = class_set(CharClass::IdentifierStart);
    let cont = class_set(CharClass::IdentifierContinue);
    for c in ['a', '1', '\u{0301}', '\u{4E2D}', '\u{1D400}', '\u{10FFFF}'] {
        assert!(start.lookup_in_bounds(c));
        assert!(cont.lookup_in_bounds(c));
        assert_eq!(start.contains_char(c), is_member(CharClass::IdentifierStart, c));
        assert_eq!(cont.contains_char(c), is_member(CharClass::IdentifierContinue, c));
    }
    assert!(start.contains_char('a'));
    assert!(!start.contains_char('1'));
}

#[test]
fn classes_agree_with_the_unicode_xid_properties() {
    // The reference tables are of a later Unicode version; identifier
    // properties are never withdrawn, so every member here is a member there,
    // and the long-assigned scripts below 0x800 agree exactly.
    for cp in 0..=0x10FFFFu32 {
        let c = match char::from_u32(cp) {
            Some(c) => c,
            None => continue,
        };
        let start = is_member(CharClass::IdentifierStart, c);
        let cont = is_member(CharClass::IdentifierContinue, c);
        if start {
            assert!(UnicodeXID::is_xid_start(c), "{:x}", cp);
        }
        if cont {
            assert!(UnicodeXID::is_xid_continue(c), "{:x}", cp);
        }
        if cp < 0x800 {
            assert_eq!(start, UnicodeXID::is_xid_start(c), "{:x}", cp);
            assert_eq!(cont, UnicodeXID::is_xid_continue(c), "{:x}", cp);
        }
    }
}

#[test]
fn every_lookup_stays_inside_the_tables() {
    let start = class_set(CharClass::IdentifierStart);
    let cont = class_set(CharClass::IdentifierContinue);
    for cp in 0..=0x10FFFFu32 {
        if let Some(c) = char::from_u32(cp) {
            assert!(start.lookup_in_bounds(c), "{:x}", cp);
            assert!(cont.lookup_in_bounds(c), "{:x}", cp);
        }
    }
}
