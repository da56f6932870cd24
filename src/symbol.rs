use crate::classify::{is_member, CharClass};
use crate::cursor::Cursor;
use crate::encoding::{
    byte_len, lemma_encode_push, lemma_encode_split, lemma_prefix_boundary, split_first, utf8_width,
};
use crate::errors::{ErrorView, SyntaxError};
use crate::grammar::{
    is_continue, is_identifier, is_start, lemma_identifier_iff_whole, lemma_symbol_len_exact,
    lemma_symbol_len_facts, symbol_len,
};
use vstd::prelude::*;
use vstd::utf8::{encode_scalar, encode_utf8, encode_utf8_decode_utf8};

verus! {

/// The message of a rejection at a character that cannot begin a symbol.
pub const START_EXPECTED: &'static str = "expected identifier-start character";

/// The message of a whole-text validation that found more after the symbol.
pub const TRAILING_INPUT: &'static str = "unexpected trailing characters after symbol";

/// A validated, non-empty identifier-shaped text.
#[derive(Debug, PartialEq, Eq, Hash)]
pub struct Symbol {
    text: String,
}

impl View for Symbol {
    type V = Seq<char>;

    closed spec fn view(&self) -> Seq<char> {
        self.text@
    }
}

/// The result of one tokenizing step: the cursor past the value and the
/// value, or the reason for stopping.
#[derive(Debug, PartialEq, Eq)]
pub enum ParseResult<'a, T> {
    Pending(Cursor<'a>, T),
    Stop(SyntaxError),
}

/// What one tokenizing step comes to.
pub enum Outcome {
    /// The symbol's characters, the characters left after it, and the
    /// absolute byte offset at which they start.
    Accept { symbol: Seq<char>, rest: Seq<char>, offset: nat },
    Reject(ErrorView),
}

/// The number of bytes of the first character of `s`, or zero if `s` is
/// empty.
pub open spec fn first_width(s: Seq<char>) -> nat {
    if s.len() == 0 {
        0
    } else {
        encode_scalar(s[0] as u32).len()
    }
}

/// Tokenizing `rest`, found at byte `offset` of the original input: the symbol
/// at its front is accepted, and otherwise the first character, if any, is
/// rejected.
pub open spec fn tokenize(rest: Seq<char>, offset: nat) -> Outcome {
    let k = symbol_len(rest) as int;
    if k == 0 {
        Outcome::Reject(
            ErrorView { message: START_EXPECTED@, start: offset, end: offset + first_width(rest) },
        )
    } else {
        Outcome::Accept {
            symbol: rest.take(k),
            rest: rest.skip(k),
            offset: offset + byte_len(rest.take(k)),
        }
    }
}

/// The outcome that a result of [`Symbol::parse`] stands for.
pub open spec fn outcome_of(r: ParseResult<Symbol>) -> Outcome {
    match r {
        ParseResult::Pending(next, symbol) => Outcome::Accept {
            symbol: symbol@,
            rest: next@.rest,
            offset: next@.offset,
        },
        ParseResult::Stop(e) => Outcome::Reject(e@),
    }
}

/// Why `s` is not one whole symbol, if it is not: the rejection of its first
/// character, or else the trailing text after the symbol at its front.
pub open spec fn whole_symbol_error(s: Seq<char>) -> Option<ErrorView> {
    match tokenize(s, 0) {
        Outcome::Reject(e) => Some(e),
        Outcome::Accept { symbol, rest, offset } => if rest.len() == 0 {
            None
        } else {
            Some(ErrorView { message: TRAILING_INPUT@, start: offset, end: offset + first_width(rest) })
        },
    }
}

/// The first character's encoding is part of the whole.
proof fn lemma_first_width_bound(s: Seq<char>)
    ensures
        first_width(s) <= byte_len(s),
{
    if s.len() > 0 {
        lemma_encode_split(s, 1);
        lemma_encode_push(s, 0);
        assert(s.subrange(0, 0) =~= Seq::<char>::empty());
        assert(encode_utf8(Seq::<char>::empty()) =~= Seq::<u8>::empty());
    }
}

impl Symbol {
    #[verifier::type_invariant]
    spec fn inv(&self) -> bool {
        is_identifier(self.text@)
    }

    /// A symbol of `text`, which is already known to be an identifier.
    pub fn new_unchecked(text: &str) -> (r: Symbol)
        requires
            is_identifier(text@),
        ensures
            r@ == text@,
    {
        Symbol { text: text.to_string() }
    }

    /// The symbol's text.
    pub fn as_str(&self) -> (r: &str)
        ensures
            r@ == self@,
            is_identifier(r@),
    {
        proof {
            use_type_invariant(self);
        }
        self.text.as_str()
    }

    /// The rejection at `input`, whose first character, if any, cannot begin
    /// a symbol.
    fn reject<'a>(input: Cursor<'a>, first: Option<char>) -> (r: ParseResult<'a, Symbol>)
        requires
            first == (if input@.rest.len() == 0 {
                None::<char>
            } else {
                Some(input@.rest[0])
            }),
        ensures
            outcome_of(r) == (Outcome::Reject(
                ErrorView {
                    message: START_EXPECTED@,
                    start: input@.offset,
                    end: input@.offset + first_width(input@.rest),
                },
            )),
    {
        let start = input.start_offset();
        proof {
            lemma_first_width_bound(input@.rest);
        }
        let end = match first {
            Some(c) => start + utf8_width(c),
            None => start,
        };
        ParseResult::Stop(SyntaxError::new(START_EXPECTED, start, end))
    }

    /// Consumes the symbol at the front of `input`: an identifier-start
    /// character and every identifier-continue character after it. Returns
    /// the cursor past the symbol together with the symbol, or rejects the
    /// first character at the cursor's offset.
    pub fn parse<'a>(input: Cursor<'a>) -> (r: ParseResult<'a, Symbol>)
        ensures
            outcome_of(r) == tokenize(input@.rest, input@.offset),
    {
        let text = input.rest_text();
        let ghost s = text@;
        let mut tail: &str;
        let mut consumed: usize;
        match split_first(text) {
            Some((c, after)) => {
                if is_member(CharClass::IdentifierStart, c) {
                    consumed = utf8_width(c);
                    tail = after;
                } else {
                    return Self::reject(input, Some(c));
                }
            },
            None => {
                return Self::reject(input, None);
            },
        }
        proof {
            lemma_encode_push(s, 0);
            assert(s.subrange(0, 0) =~= Seq::<char>::empty());
            assert(encode_utf8(Seq::<char>::empty()) =~= Seq::<u8>::empty());
            lemma_encode_split(s, 1);
            assert(s.drop_first() =~= s.subrange(1, s.len() as int));
        }
        let ghost mut k: int = 1;
        loop
            invariant
                1 <= k <= s.len(),
                tail@ == s.subrange(k, s.len() as int),
                consumed == byte_len(s.subrange(0, k)),
                is_start(s[0]),
                forall|i: int| 1 <= i < k ==> #[trigger] is_continue(s[i]),
                input@.offset + byte_len(s) <= usize::MAX,
                byte_len(s.subrange(0, k)) <= byte_len(s),
            ensures
                k == s.len() || !is_continue(s[k]),
            decreases s.len() - k,
        {
            match split_first(tail) {
                Some((ch, after)) => {
                    if is_member(CharClass::IdentifierContinue, ch) {
                        proof {
                            lemma_encode_push(s, k);
                            lemma_encode_split(s, k + 1);
                        }
                        consumed = consumed + utf8_width(ch);
                        tail = after;
                        proof {
                            k = k + 1;
                            assert(s.subrange(k - 1, s.len() as int).drop_first() =~= s.subrange(
                                k,
                                s.len() as int,
                            ));
                        }
                    } else {
                        break ;
                    }
                },
                None => {
                    break ;
                },
            }
        }
        proof {
            lemma_symbol_len_exact(s, k);
            assert(s =~= s.take(k) + s.skip(k));
            lemma_prefix_boundary(s.take(k), s.skip(k));
        }
        let (next, taken) = input.advance(consumed);
        proof {
            lemma_encode_split(s, k);
            assert(encode_utf8(s).subrange(0, consumed as int) =~= encode_utf8(s.take(k)));
            encode_utf8_decode_utf8(taken@);
            encode_utf8_decode_utf8(s.take(k));
            lemma_symbol_len_facts(s);
            assert(taken@ == s.take(k));
            assert(next@.rest =~= s.skip(k));
            assert(s.take(k) =~= s.subrange(0, k));
        }
        ParseResult::Pending(next, Symbol::new_unchecked(taken))
    }

    /// Validates `s` as one whole symbol: the symbol at its front must span
    /// all of it. A rejected first character is reported as the tokenizer
    /// reports it; text after the symbol is reported at its offset.
    pub fn from_str(s: &str) -> (r: Result<Symbol, SyntaxError>)
        requires
            byte_len(s@) <= usize::MAX,
        ensures
            match r {
                Ok(symbol) => whole_symbol_error(s@) is None && symbol@ == s@,
                Err(e) => whole_symbol_error(s@) == Some(e@),
            },
    {
        match Symbol::parse(Cursor::new(s)) {
            ParseResult::Pending(state, symbol) => {
                if state.is_empty() {
                    proof {
                        lemma_symbol_len_facts(s@);
                        assert(s@.take(s@.len() as int) =~= s@);
                    }
                    Ok(symbol)
                } else {
                    let start = state.start_offset();
                    proof {
                        lemma_first_width_bound(state@.rest);
                    }
                    let end = match split_first(state.rest_text()) {
                        Some((c, _)) => start + utf8_width(c),
                        None => start,
                    };
                    Err(SyntaxError::new(TRAILING_INPUT, start, end))
                }
            },
            ParseResult::Stop(e) => Err(e),
        }
    }
}

/// Tokenizing equal inputs gives equal results: the same symbol, remainder
/// and offset, or the same error.
pub proof fn lemma_parse_deterministic(
    a: Cursor,
    b: Cursor,
    ra: ParseResult<Symbol>,
    rb: ParseResult<Symbol>,
)
    requires
        a@ == b@,
        outcome_of(ra) == tokenize(a@.rest, a@.offset),
        outcome_of(rb) == tokenize(b@.rest, b@.offset),
    ensures
        outcome_of(ra) == outcome_of(rb),
{
}

/// The text that a successful step consumed, tokenized alone from any
/// offset, gives the same symbol and leaves nothing; it is also one whole
/// symbol.
pub proof fn lemma_reparse_consumed(rest: Seq<char>, offset: nat, start: nat)
    requires
        tokenize(rest, offset) is Accept,
    ensures
        ({
            let symbol = tokenize(rest, offset)->Accept_symbol;
            &&& tokenize(symbol, start) == (Outcome::Accept {
                symbol,
                rest: Seq::<char>::empty(),
                offset: start + byte_len(symbol),
            })
            &&& whole_symbol_error(symbol) is None
        }),
{
    let symbol = tokenize(rest, offset)->Accept_symbol;
    lemma_symbol_len_facts(rest);
    lemma_identifier_iff_whole(symbol);
    assert(symbol.take(symbol.len() as int) =~= symbol);
    assert(symbol.skip(symbol.len() as int) =~= Seq::<char>::empty());
}

/// A text passes whole-text validation exactly when it is one identifier.
pub proof fn lemma_whole_symbol_iff_identifier(s: Seq<char>)
    ensures
        whole_symbol_error(s) is None <==> is_identifier(s),
{
    lemma_symbol_len_facts(s);
    lemma_identifier_iff_whole(s);
}


} // verus!
