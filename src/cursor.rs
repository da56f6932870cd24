use crate::encoding::byte_len;
use vstd::prelude::*;
use vstd::utf8::{
    decode_utf8_split, encode_utf8, encode_utf8_decode_utf8, encode_utf8_valid_utf8,
    is_char_boundary,
};

verus! {

/// An immutable view of the input that is left, together with the number of
/// bytes of the original input consumed before it.
#[derive(Clone, Copy, Debug, PartialEq, Eq)]
pub struct Cursor<'a> {
    rest: &'a str,
    offset: usize,
}

/// What a [`Cursor`] stands for: the characters left and the absolute byte
/// offset at which they start.
pub struct CursorView {
    pub rest: Seq<char>,
    pub offset: nat,
}

impl<'a> View for Cursor<'a> {
    type V = CursorView;

    closed spec fn view(&self) -> CursorView {
        CursorView { rest: self.rest@, offset: self.offset as nat }
    }
}

/// The offset just past the remaining text fits in a `usize`.
pub open spec fn cursor_fits(v: CursorView) -> bool {
    v.offset + byte_len(v.rest) <= usize::MAX
}

impl<'a> Cursor<'a> {
    #[verifier::type_invariant]
    spec fn inv(&self) -> bool {
        cursor_fits(self@)
    }

    /// A cursor at the start of `text`.
    pub fn new(text: &'a str) -> (r: Cursor<'a>)
        requires
            byte_len(text@) <= usize::MAX,
        ensures
            r@.rest == text@,
            r@.offset == 0,
    {
        Cursor { rest: text, offset: 0 }
    }

    /// The text that is left.
    pub fn rest_text(&self) -> (r: &'a str)
        ensures
            r@ == self@.rest,
            cursor_fits(self@),
    {
        proof {
            use_type_invariant(self);
        }
        self.rest
    }

    /// The number of bytes of the original input consumed so far.
    pub fn start_offset(&self) -> (r: usize)
        ensures
            r == self@.offset,
            cursor_fits(self@),
    {
        proof {
            use_type_invariant(self);
        }
        self.offset
    }

    /// Whether no input is left.
    pub fn is_empty(&self) -> (r: bool)
        ensures
            r == (self@.rest.len() == 0),
    {
        self.rest.is_empty()
    }

    /// Consumes the first `byte_count` bytes, which must end on a character
    /// boundary: returns the cursor past them and the text they hold.
    pub fn advance(self, byte_count: usize) -> (r: (Cursor<'a>, &'a str))
        requires
            is_char_boundary(encode_utf8(self@.rest), byte_count as int),
        ensures
            r.1@ + r.0@.rest == self@.rest,
            encode_utf8(r.1@) == encode_utf8(self@.rest).subrange(0, byte_count as int),
            byte_len(r.1@) == byte_count,
            r.0@.offset == self@.offset + byte_count,
    {
        proof {
            use_type_invariant(&self);
        }
        let (head, tail) = self.rest.split_at(byte_count);
        proof {
            let bytes = encode_utf8(self@.rest);
            broadcast use encode_utf8_valid_utf8;

            decode_utf8_split(bytes, byte_count as int);
            encode_utf8_decode_utf8(self@.rest);
            encode_utf8_decode_utf8(head@);
            encode_utf8_decode_utf8(tail@);
            assert(head@ + tail@ == self@.rest);
        }
        (Cursor { rest: tail, offset: self.offset + byte_count }, head)
    }
}

} // verus!
