use vstd::prelude::*;
use vstd::utf8::{
    decode_utf8_split, encode_scalar, encode_utf8, encode_utf8_decode_utf8,
    encode_utf8_first_scalar, encode_utf8_valid_utf8, is_char_boundary, length_of_first_scalar,
    pop_first_scalar,
};

verus! {

/// The number of bytes of the UTF-8 encoding of `chars`.
pub open spec fn byte_len(chars: Seq<char>) -> nat {
    encode_utf8(chars).len()
}

/// The UTF-8 encoding of a concatenation is the concatenation of the
/// encodings.
pub proof fn lemma_encode_concat(a: Seq<char>, b: Seq<char>)
    ensures
        encode_utf8(a + b) == encode_utf8(a) + encode_utf8(b),
    decreases a.len(),
{
    if a.len() == 0 {
        assert(a + b =~= b);
        assert(encode_utf8(a) + encode_utf8(b) =~= encode_utf8(b));
    } else {
        assert((a + b).drop_first() =~= a.drop_first() + b);
        lemma_encode_concat(a.drop_first(), b);
        assert(encode_utf8(a + b) =~= encode_utf8(a) + encode_utf8(b));
    }
}

/// Splitting a character sequence at `k` splits its encoding at the length of
/// the encoded prefix.
pub proof fn lemma_encode_split(s: Seq<char>, k: int)
    requires
        0 <= k <= s.len(),
    ensures
        encode_utf8(s) == encode_utf8(s.subrange(0, k)) + encode_utf8(
            s.subrange(k, s.len() as int),
        ),
        byte_len(s) == byte_len(s.subrange(0, k)) + byte_len(s.subrange(k, s.len() as int)),
{
    assert(s =~= s.subrange(0, k) + s.subrange(k, s.len() as int));
    lemma_encode_concat(s.subrange(0, k), s.subrange(k, s.len() as int));
}

/// Extending a prefix by one character adds that character's encoding.
pub proof fn lemma_encode_push(s: Seq<char>, k: int)
    requires
        0 <= k < s.len(),
    ensures
        encode_utf8(s.subrange(0, k + 1)) == encode_utf8(s.subrange(0, k)) + encode_scalar(
            s[k] as u32,
        ),
        byte_len(s.subrange(0, k + 1)) == byte_len(s.subrange(0, k)) + encode_scalar(
            s[k] as u32,
        ).len(),
{
    let one = seq![s[k]];
    assert(s.subrange(0, k + 1) =~= s.subrange(0, k) + one);
    lemma_encode_concat(s.subrange(0, k), one);
    assert(one.drop_first() =~= Seq::<char>::empty());
    assert(encode_utf8(one.drop_first()) =~= Seq::<u8>::empty());
    assert(encode_utf8(one) =~= encode_scalar(s[k] as u32));
}

/// The end of an encoded prefix is a character boundary of the whole
/// encoding.
pub proof fn lemma_prefix_boundary(a: Seq<char>, b: Seq<char>)
    ensures
        is_char_boundary(encode_utf8(a + b), byte_len(a) as int),
    decreases a.len(),
{
    broadcast use encode_utf8_valid_utf8;

    if a.len() == 0 {
    } else {
        let bytes = encode_utf8(a + b);
        encode_utf8_first_scalar(a + b);
        assert((a + b)[0] == a[0]);
        assert((a + b).drop_first() =~= a.drop_first() + b);
        assert(pop_first_scalar(bytes) =~= encode_utf8(a.drop_first() + b));
        assert(length_of_first_scalar(bytes) == encode_scalar(a[0] as u32).len());
        lemma_prefix_boundary(a.drop_first(), b);
    }
}

/// The number of bytes that encode `c`.
pub fn utf8_width(c: char) -> (r: usize)
    ensures
        r == encode_scalar(c as u32).len(),
        1 <= r <= 4,
{
    let cp = c as u32;
    if cp < 0x80 {
        1
    } else if cp < 0x800 {
        2
    } else if cp < 0x10000 {
        3
    } else {
        4
    }
}

/// The first character of `s` and the text after it, or `None` when `s` is
/// empty.
pub fn split_first(s: &str) -> (r: Option<(char, &str)>)
    ensures
        match r {
            None => s@.len() == 0,
            Some((c, rest)) => s@.len() > 0 && c == s@[0] && rest@ == s@.drop_first(),
        },
{
    let mut chars = s.chars();
    match chars.next() {
        None => None,
        Some(c) => {
            let width = utf8_width(c);
            proof {
                broadcast use encode_utf8_valid_utf8;

                let one = seq![c];
                let tail = s@.drop_first();
                assert(s@ =~= one + tail);
                lemma_encode_push(s@, 0);
                assert(s@.subrange(0, 0) =~= Seq::<char>::empty());
                assert(encode_utf8(Seq::<char>::empty()) =~= Seq::<u8>::empty());
                assert(s@.subrange(0, 1) =~= one);
                lemma_prefix_boundary(one, tail);
            }
            let (head, rest) = s.split_at(width);
            proof {
                let bytes = encode_utf8(s@);
                decode_utf8_split(bytes, width as int);
                encode_utf8_decode_utf8(s@);
                encode_utf8_decode_utf8(head@);
                encode_utf8_decode_utf8(rest@);
                assert(head@ + rest@ == s@);
                encode_utf8_decode_utf8(seq![c]);
                lemma_encode_concat(seq![c], s@.drop_first());
                assert(rest@ =~= s@.drop_first());
            }
            Some((c, rest))
        },
    }
}

} // verus!
