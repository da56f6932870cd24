use crate::tables::{
    XID_START_TREE1_LEVEL1, XID_START_TREE2_LEVEL1, XID_START_TREE2_LEVEL2, XID_START_TREE3_LEVEL1,
    XID_START_TREE3_LEVEL2, XID_START_TREE3_LEVEL3, XID_CONTINUE_TREE1_LEVEL1,
    XID_CONTINUE_TREE2_LEVEL1, XID_CONTINUE_TREE2_LEVEL2, XID_CONTINUE_TREE3_LEVEL1,
    XID_CONTINUE_TREE3_LEVEL2, XID_CONTINUE_TREE3_LEVEL3,
};
use crate::trie::{TrieModel, TrieSet};
use vstd::prelude::*;

verus! {

/// The two character classes that the identifier grammar is made of.
#[derive(Clone, Copy, Debug, PartialEq, Eq, Structural)]
pub enum CharClass {
    IdentifierStart,
    IdentifierContinue,
}

/// The tables of each class.
pub open spec fn class_model(class: CharClass) -> TrieModel {
    match class {
        CharClass::IdentifierStart => TrieModel {
            tree1_level1: XID_START_TREE1_LEVEL1@,
            tree2_level1: XID_START_TREE2_LEVEL1@,
            tree2_level2: XID_START_TREE2_LEVEL2@,
            tree3_level1: XID_START_TREE3_LEVEL1@,
            tree3_level2: XID_START_TREE3_LEVEL2@,
            tree3_level3: XID_START_TREE3_LEVEL3@,
        },
        CharClass::IdentifierContinue => TrieModel {
            tree1_level1: XID_CONTINUE_TREE1_LEVEL1@,
            tree2_level1: XID_CONTINUE_TREE2_LEVEL1@,
            tree2_level2: XID_CONTINUE_TREE2_LEVEL2@,
            tree3_level1: XID_CONTINUE_TREE3_LEVEL1@,
            tree3_level2: XID_CONTINUE_TREE3_LEVEL2@,
            tree3_level3: XID_CONTINUE_TREE3_LEVEL3@,
        },
    }
}

/// Whether `c` belongs to `class`.
pub closed spec fn in_class(class: CharClass, c: char) -> bool {
    class_model(class).contains(c as int)
}


/// The trie of `class`.
pub fn class_set(class: CharClass) -> (r: TrieSet)
    ensures
        r@ == class_model(class),
{
    match class {
        CharClass::IdentifierStart => TrieSet {
            tree1_level1: &XID_START_TREE1_LEVEL1,
            tree2_level1: &XID_START_TREE2_LEVEL1,
            tree2_level2: &XID_START_TREE2_LEVEL2,
            tree3_level1: &XID_START_TREE3_LEVEL1,
            tree3_level2: &XID_START_TREE3_LEVEL2,
            tree3_level3: &XID_START_TREE3_LEVEL3,
        },
        CharClass::IdentifierContinue => TrieSet {
            tree1_level1: &XID_CONTINUE_TREE1_LEVEL1,
            tree2_level1: &XID_CONTINUE_TREE2_LEVEL1,
            tree2_level2: &XID_CONTINUE_TREE2_LEVEL2,
            tree3_level1: &XID_CONTINUE_TREE3_LEVEL1,
            tree3_level2: &XID_CONTINUE_TREE3_LEVEL2,
            tree3_level3: &XID_CONTINUE_TREE3_LEVEL3,
        },
    }
}

/// Whether the scalar value `c` belongs to `class`. Total and allocation free.
pub fn is_member(class: CharClass, c: char) -> (r: bool)
    ensures
        r == in_class(class, c),
{
    class_set(class).contains_char(c)
}

} // verus!
