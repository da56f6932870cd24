use vstd::prelude::*;

verus! {

/// A compressed set of Unicode scalar values, laid out as the three tries that
/// `ucd_trie` reads: code points below 0x800 resolve in one level, those below
/// 0x10000 in two, and the rest in three. Each leaf is a 64-bit chunk whose bits
/// are the members among 64 consecutive code points.
#[derive(Clone, Copy)]
pub struct TrieSet {
    pub tree1_level1: &'static [u64],
    pub tree2_level1: &'static [u8],
    pub tree2_level2: &'static [u64],
    pub tree3_level1: &'static [u8],
    pub tree3_level2: &'static [u8],
    pub tree3_level3: &'static [u64],
}

/// The tables of a [`TrieSet`] as sequences.
pub struct TrieModel {
    pub tree1_level1: Seq<u64>,
    pub tree2_level1: Seq<u8>,
    pub tree2_level2: Seq<u64>,
    pub tree3_level1: Seq<u8>,
    pub tree3_level2: Seq<u8>,
    pub tree3_level3: Seq<u64>,
}

impl View for TrieSet {
    type V = TrieModel;

    open spec fn view(&self) -> TrieModel {
        TrieModel {
            tree1_level1: self.tree1_level1@,
            tree2_level1: self.tree2_level1@,
            tree2_level2: self.tree2_level2@,
            tree3_level1: self.tree3_level1@,
            tree3_level2: self.tree3_level2@,
            tree3_level3: self.tree3_level3@,
        }
    }
}

/// Bit `cp mod 64` of a leaf chunk.
pub open spec fn chunk_contains(chunk: u64, cp: int) -> bool {
    (chunk >> ((cp % 64) as u64)) & 1u64 == 1u64
}

impl TrieModel {
    /// The block of the second tree that holds `cp`, which lies in
    /// `0x800..0x10000`.
    pub open spec fn tree2_block(cp: int) -> int {
        cp / 64 - 0x20
    }

    /// The block of the third tree's first level that holds `cp`, which is at
    /// least 0x10000.
    pub open spec fn tree3_block(cp: int) -> int {
        cp / 4096 - 0x10
    }

    /// The index into the third tree's second level at which the lookup of
    /// `cp` reads, for a block `k` inside the first level.
    pub open spec fn tree3_slot(&self, k: int, cp: int) -> int {
        (self.tree3_level1[k] as int) * 64 + (cp / 64) % 64
    }

    /// The indices that the lookup of `cp` follows all fall inside their
    /// tables; a block past the end of the first level of the second or third
    /// tree is no fault, since the lookup stops there.
    pub open spec fn path_in_bounds(&self, cp: int) -> bool {
        if cp < 0x800 {
            cp / 64 < self.tree1_level1.len()
        } else if cp < 0x10000 {
            let k = Self::tree2_block(cp);
            k < self.tree2_level1.len() ==> (self.tree2_level1[k] as int)
                < self.tree2_level2.len()
        } else {
            let k = Self::tree3_block(cp);
            k < self.tree3_level1.len() ==> {
                &&& self.tree3_slot(k, cp) < self.tree3_level2.len()
                &&& (self.tree3_level2[self.tree3_slot(k, cp)] as int) < self.tree3_level3.len()
            }
        }
    }

    /// Whether the code point `cp` is in the set: the leaf chunk that covers
    /// `cp` is found by its high bits, level by level. An index past the end
    /// of its table means "not a member".
    pub open spec fn contains(&self, cp: int) -> bool {
        if !self.path_in_bounds(cp) {
            false
        } else if cp < 0x800 {
            chunk_contains(self.tree1_level1[cp / 64], cp)
        } else if cp < 0x10000 {
            let k = Self::tree2_block(cp);
            if k < self.tree2_level1.len() {
                chunk_contains(self.tree2_level2[self.tree2_level1[k] as int], cp)
            } else {
                false
            }
        } else {
            let k = Self::tree3_block(cp);
            if k < self.tree3_level1.len() {
                chunk_contains(self.tree3_level3[self.tree3_level2[self.tree3_slot(k, cp)] as int], cp)
            } else {
                false
            }
        }
    }
}

/// Relies on `ucd_trie::TrieSetSlice::contains_char`, which descends the three
/// trees as `TrieModel::contains` states. It indexes the first tree and the
/// inner levels without a check, so those indices must be in bounds.
#[verifier::external_body]
fn trie_contains_char(set: &TrieSet, c: char) -> (r: bool)
    requires
        set@.path_in_bounds(c as int),
    ensures
        r == set@.contains(c as int),
{
    let slice = ucd_trie::TrieSetSlice {
        tree1_level1: set.tree1_level1,
        tree2_level1: set.tree2_level1,
        tree2_level2: set.tree2_level2,
        tree3_level1: set.tree3_level1,
        tree3_level2: set.tree3_level2,
        tree3_level3: set.tree3_level3,
    };
    slice.contains_char(c)
}

impl TrieSet {
    /// Whether the lookup of `cp`, a code point below 0x800, stays inside the
    /// first tree.
    fn tree1_in_bounds(&self, cp: usize) -> (r: bool)
        requires
            cp < 0x800,
        ensures
            r == self@.path_in_bounds(cp as int),
    {
        cp / 64 < self.tree1_level1.len()
    }

    /// Whether the lookup of `cp`, a code point in `0x800..0x10000`, stays
    /// inside the second tree.
    fn tree2_in_bounds(&self, cp: usize) -> (r: bool)
        requires
            0x800 <= cp < 0x10000,
        ensures
            r == self@.path_in_bounds(cp as int),
    {
        assert(cp / 64 >= 0x20) by (nonlinear_arith)
            requires
                cp >= 0x800,
        ;
        let k = cp / 64 - 0x20;
        if k < self.tree2_level1.len() {
            (self.tree2_level1[k] as usize) < self.tree2_level2.len()
        } else {
            true
        }
    }

    /// Whether the lookup of `cp`, a code point from 0x10000 on, stays inside
    /// the third tree.
    fn tree3_in_bounds(&self, cp: usize) -> (r: bool)
        requires
            0x10000 <= cp <= 0x10FFFF,
        ensures
            r == self@.path_in_bounds(cp as int),
    {
        assert(cp / 4096 >= 0x10) by (nonlinear_arith)
            requires
                cp >= 0x10000,
        ;
        let k = cp / 4096 - 0x10;
        if k < self.tree3_level1.len() {
            let child = self.tree3_level1[k] as usize;
            let i = child * 64 + (cp / 64) % 64;
            i < self.tree3_level2.len() && (self.tree3_level2[i] as usize)
                < self.tree3_level3.len()
        } else {
            true
        }
    }

    /// Whether the lookup of `c` stays inside the tables.
    pub fn lookup_in_bounds(&self, c: char) -> (r: bool)
        ensures
            r == self@.path_in_bounds(c as int),
    {
        let cp = c as u32 as usize;
        if cp < 0x800 {
            self.tree1_in_bounds(cp)
        } else if cp < 0x10000 {
            self.tree2_in_bounds(cp)
        } else {
            self.tree3_in_bounds(cp)
        }
    }

    /// Whether the scalar value `c` is in the set.
    pub fn contains_char(&self, c: char) -> (r: bool)
        ensures
            r == self@.contains(c as int),
    {
        if self.lookup_in_bounds(c) {
            trie_contains_char(self, c)
        } else {
            false
        }
    }
}

} // verus!
