use crate::classify::{in_class, CharClass};
use vstd::prelude::*;

verus! {

/// Whether `c` may begin a symbol.
pub open spec fn is_start(c: char) -> bool {
    in_class(CharClass::IdentifierStart, c)
}

/// Whether `c` may follow the first character of a symbol.
pub open spec fn is_continue(c: char) -> bool {
    in_class(CharClass::IdentifierContinue, c)
}

/// The number of leading characters of `s` that may continue a symbol.
pub open spec fn continue_run(s: Seq<char>) -> nat
    decreases s.len(),
{
    if s.len() > 0 && is_continue(s[0]) {
        1 + continue_run(s.drop_first())
    } else {
        0
    }
}

/// The number of characters of the symbol at the front of `s`: an
/// identifier-start character and all the identifier-continue characters
/// that directly follow it; zero when `s` does not begin with a symbol.
pub open spec fn symbol_len(s: Seq<char>) -> nat {
    if s.len() > 0 && is_start(s[0]) {
        1 + continue_run(s.drop_first())
    } else {
        0
    }
}

/// Whether `s` is, as a whole, one symbol.
pub open spec fn is_identifier(s: Seq<char>) -> bool {
    &&& s.len() > 0
    &&& is_start(s[0])
    &&& forall|i: int| 1 <= i < s.len() ==> #[trigger] is_continue(s[i])
}

/// The run of continue characters is never longer than the text.
pub proof fn lemma_continue_run_bound(s: Seq<char>)
    ensures
        continue_run(s) <= s.len(),
        forall|i: int| 0 <= i < continue_run(s) ==> #[trigger] is_continue(s[i]),
        continue_run(s) < s.len() ==> !is_continue(s[continue_run(s) as int]),
    decreases s.len(),
{
    if s.len() > 0 && is_continue(s[0]) {
        lemma_continue_run_bound(s.drop_first());
        assert forall|i: int| 0 <= i < continue_run(s) implies #[trigger] is_continue(s[i]) by {
            if i > 0 {
                assert(s[i] == s.drop_first()[i - 1]);
            }
        }
    }
}

/// A run of `j` continue characters that ends the text or stops before a
/// character that cannot continue is the whole run.
pub proof fn lemma_continue_run_exact(s: Seq<char>, j: int)
    requires
        0 <= j <= s.len(),
        forall|i: int| 0 <= i < j ==> #[trigger] is_continue(s[i]),
        j == s.len() || !is_continue(s[j]),
    ensures
        continue_run(s) == j,
    decreases j,
{
    if j > 0 {
        let t = s.drop_first();
        assert forall|i: int| 0 <= i < j - 1 implies #[trigger] is_continue(t[i]) by {
            assert(is_continue(s[i + 1]));
        }
        if j < s.len() {
            assert(t[j - 1] == s[j]);
        }
        lemma_continue_run_exact(t, j - 1);
    }
}

/// The symbol at the front of `s` is `k` characters long when `s` begins
/// with a start character followed by continue characters up to `k`, and the
/// text ends at `k` or its `k`th character cannot continue a symbol.
pub proof fn lemma_symbol_len_exact(s: Seq<char>, k: int)
    requires
        1 <= k <= s.len(),
        is_start(s[0]),
        forall|i: int| 1 <= i < k ==> #[trigger] is_continue(s[i]),
        k == s.len() || !is_continue(s[k]),
    ensures
        symbol_len(s) == k,
{
    let t = s.drop_first();
    assert forall|i: int| 0 <= i < k - 1 implies #[trigger] is_continue(t[i]) by {
        assert(is_continue(s[i + 1]));
    }
    if k < s.len() {
        assert(t[k - 1] == s[k]);
    }
    lemma_continue_run_exact(t, k - 1);
}

/// The symbol at the front of `s` fits in `s` and is itself an identifier;
/// what follows it, if anything, cannot continue it.
pub proof fn lemma_symbol_len_facts(s: Seq<char>)
    ensures
        symbol_len(s) <= s.len(),
        symbol_len(s) > 0 ==> is_identifier(s.take(symbol_len(s) as int)),
        0 < symbol_len(s) < s.len() ==> !is_continue(s[symbol_len(s) as int]),
{
    if s.len() > 0 && is_start(s[0]) {
        let t = s.drop_first();
        lemma_continue_run_bound(t);
        let k = symbol_len(s) as int;
        let p = s.take(k);
        assert forall|i: int| 1 <= i < p.len() implies #[trigger] is_continue(p[i]) by {
            assert(p[i] == t[i - 1]);
        }
        if k < s.len() {
            assert(s[k] == t[k - 1]);
        }
    }
}

/// A text is one whole symbol exactly when the symbol at its front spans it.
pub proof fn lemma_identifier_iff_whole(s: Seq<char>)
    ensures
        is_identifier(s) <==> (s.len() > 0 && symbol_len(s) == s.len()),
{
    lemma_symbol_len_facts(s);
    if is_identifier(s) {
        lemma_symbol_len_exact(s, s.len() as int);
    }
    if s.len() > 0 && symbol_len(s) == s.len() {
        assert(s.take(s.len() as int) =~= s);
    }
}

} // verus!
