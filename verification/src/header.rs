//! The scalar parameters that parameterize every lookup in a trie.

use vstd::prelude::*;

verus! {

/// The two supported trie layouts.
///
/// `Fast` favors lookup speed: the whole basic range is reachable in two
/// stages at the cost of a larger index array. `Small` keeps the two-stage
/// path only for the lowest dense range and routes everything else through an
/// extra intermediate index level, trading one indirection for much smaller
/// tables. The block sizes and shift amounts of each layout are fixed by the
/// serialized format, not configurable per instance.
#[derive(Debug, Clone, Copy, PartialEq, Eq, Structural)]
pub enum TrieType {
    /// Two-stage addressing for the whole basic range.
    Fast,
    /// Three-stage addressing beyond the small fast range.
    Small,
}

/// The six scalar fields fixed at construction and never mutated.
#[derive(Debug, Clone, Copy, PartialEq, Eq, Structural)]
pub struct CodePointTrieHeader {
    /// The smallest code point above which lookup takes the simplified
    /// high-range path instead of the general multi-stage walk.
    pub high_start: u32,
    /// `high_start >> 12`, precomputed so the high-range test can compare
    /// 16-bit values without shifting at lookup time.
    pub shifted12_high_start: u16,
    /// Offset of the canonical all-null block at the third index stage.
    pub index3_null_offset: u16,
    /// Offset of the canonical all-null block in the data array.
    pub data_null_offset: u32,
    /// The value read for any code point that resolves to the null block.
    pub null_value: u8,
    /// Which layout's addressing constants apply.
    pub trie_type: TrieType,
}

impl CodePointTrieHeader {
    /// Whether `cp` lies in the high range served by the direct shortcut.
    pub fn is_high_range(&self, cp: u32) -> (r: bool)
        ensures
            r == (cp >= self.high_start),
    {
        cp >= self.high_start
    }

    /// Whether `offset` is the recorded null block of the data array.
    pub fn is_null_data_block(&self, offset: u32) -> (r: bool)
        ensures
            r == (offset == self.data_null_offset),
    {
        offset == self.data_null_offset
    }

    /// Whether `offset` is the recorded null block of the third index stage.
    pub fn is_null_index3_block(&self, offset: u16) -> (r: bool)
        ensures
            r == (offset == self.index3_null_offset),
    {
        offset == self.index3_null_offset
    }
}

} // verus!
