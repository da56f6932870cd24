use venus_symbol::cursor::Cursor;
use venus_symbol::errors::SyntaxError;
use venus_symbol::symbol::{ParseResult, Symbol, START_EXPECTED, TRAILING_INPUT};

fn accepted(input: Cursor<'_>) -> (Cursor<'_>, Symbol) {
    match Symbol::parse(input) {
        ParseResult::Pending(next, symbol) => (next, symbol),
        ParseResult::Stop(e) => panic!("rejected: {:?}", e),
    }
}

fn rejected(input: Cursor<'_>) -> SyntaxError {
    match Symbol::parse(input) {
        ParseResult::Pending(next, symbol) => panic!("accepted {:?}, left {:?}", symbol, next),
        ParseResult::Stop(e) => e,
    }
}

#[test]
fn empty_input_is_rejected_at_zero() {
    let e = rejected(Cursor::new(""));
    assert_eq!(e.message, "expected identifier-start character");
    assert_eq!((e.start, e.end), (0, 0));
}

#[test]
fn leading_digit_is_rejected_at_zero() {
    let e = rejected(Cursor::new("2H"));
    assert_eq!(e.message, START_EXPECTED);
    assert_eq!((e.start, e.end), (0, 1));
}

#[test]
fn leading_multibyte_punctuation_is_rejected_over_its_bytes() {
    let e = rejected(Cursor::new("\u{2192}x"));
    assert_eq!((e.start, e.end), (0, 3));
}

#[test]
fn single_start_character_is_a_symbol() {
    let (next, symbol) = accepted(Cursor::new("H"));
    assert_eq!(symbol.as_str(), "H");
    assert!(next.is_empty());
    assert_eq!(next.rest_text(), "");
    assert_eq!(next.start_offset(), 1);
}

#[test]
fn digits_continue_a_symbol() {
    // digits are identifier-continue characters, so they extend the symbol
    let (next, symbol) = accepted(Cursor::new("H2O"));
    assert_eq!(symbol.as_str(), "H2O");
    assert!(next.is_empty());
    assert_eq!(next.start_offset(), 3);
}

#[test]
fn a_step_that_starts_at_a_digit_rejects() {
    let e = rejected(Cursor::new("2O"));
    assert_eq!(e.message, START_EXPECTED);
    assert_eq!((e.start, e.end), (0, 1));
}

#[test]
fn steps_are_driven_one_symbol_at_a_time() {
    let (next, symbol) = accepted(Cursor::new("H2O + O2"));
    assert_eq!(symbol.as_str(), "H2O");
    assert_eq!(next.rest_text(), " + O2");
    assert_eq!(next.start_offset(), 3);
    let e = rejected(next);
    assert_eq!((e.start, e.end), (3, 4));
    let (after, first) = next.advance(3);
    assert_eq!(first, " + ");
    let (last, symbol) = accepted(after);
    assert_eq!(symbol.as_str(), "O2");
    assert_eq!(last.start_offset(), 8);
    assert!(last.is_empty());
}

#[test]
fn benzoic_acid_is_one_whole_symbol() {
    let symbol = Symbol::from_str("C6H5COOH").unwrap();
    assert_eq!(symbol.as_str(), "C6H5COOH");
}

#[test]
fn trailing_text_fails_whole_validation() {
    let e = Symbol::from_str("C6H5 COOH").unwrap_err();
    assert_eq!(e.message, "unexpected trailing characters after symbol");
    assert_eq!((e.start, e.end), (4, 5));
    let e = Symbol::from_str("O\u{2192}").unwrap_err();
    assert_eq!(e.message, TRAILING_INPUT);
    assert_eq!((e.start, e.end), (1, 4));
}

#[test]
fn whole_validation_passes_on_the_start_error() {
    let e = Symbol::from_str("").unwrap_err();
    assert_eq!(e, SyntaxError::new(START_EXPECTED, 0, 0));
    let e = Symbol::from_str("+H").unwrap_err();
    assert_eq!(e, SyntaxError::new(START_EXPECTED, 0, 1));
}

#[test]
fn greek_letter_with_combining_marks_is_one_symbol() {
    let text = "\u{03B1}\u{0301}\u{0302}x+y";
    let (next, symbol) = accepted(Cursor::new(text));
    assert_eq!(symbol.as_str(), "\u{03B1}\u{0301}\u{0302}x");
    let widths: usize = symbol.as_str().chars().map(char::len_utf8).sum();
    assert_eq!(widths, 7);
    assert_eq!(next.start_offset(), 7);
    assert_eq!(next.rest_text(), "+y");
}

#[test]
fn symbols_from_the_astral_planes() {
    let (next, symbol) = accepted(Cursor::new("\u{1D400}\u{1D7CE} "));
    assert_eq!(symbol.as_str(), "\u{1D400}\u{1D7CE}");
    assert_eq!(next.start_offset(), 8);
    assert_eq!(next.rest_text(), " ");
}

#[test]
fn tokenizing_twice_gives_the_same_result() {
    for text in ["", "H2O", "2H", "\u{03B1}\u{0301}+", "Fe + S"] {
        assert_eq!(Symbol::parse(Cursor::new(text)), Symbol::parse(Cursor::new(text)));
    }
}

#[test]
fn the_consumed_slice_reparses_to_itself() {
    for text in ["Fe3 + S", "H", "\u{03B1}\u{0301}\u{0302}x+y", "NaCl)"] {
        let input = Cursor::new(text);
        let (next, symbol) = accepted(input);
        let consumed = &text[..next.start_offset()];
        assert_eq!(consumed, symbol.as_str());
        let (again_next, again) = accepted(Cursor::new(consumed));
        assert_eq!(again, symbol);
        assert!(again_next.is_empty());
        assert_eq!(again_next.start_offset(), consumed.len());
        assert_eq!(Symbol::from_str(consumed).unwrap(), symbol);
    }
}

#[test]
fn cursor_advances_by_bytes() {
    let c = Cursor::new("\u{03B1}\u{03B2}c");
    assert_eq!(c.start_offset(), 0);
    assert!(!c.is_empty());
    let (next, head) = c.advance(2);
    assert_eq!(head, "\u{03B1}");
    assert_eq!(next.rest_text(), "\u{03B2}c");
    assert_eq!(next.start_offset(), 2);
    let (end, tail) = next.advance(3);
    assert_eq!(tail, "\u{03B2}c");
    assert!(end.is_empty());
    assert_eq!(end.start_offset(), 5);
}

#[test]
fn new_unchecked_keeps_the_text() {
    let symbol = Symbol::new_unchecked("Cl");
    assert_eq!(symbol.as_str(), "Cl");
    assert_eq!(Symbol::from_str("Cl").unwrap(), symbol);
}

#[test]
fn syntax_error_new_keeps_its_fields() {
    let e = SyntaxError::new("expected", 3, 5);
    assert_eq!(e.message, "expected");
    assert_eq!((e.start, e.end), (3, 5));
}
