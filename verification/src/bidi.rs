//! Bidi embedding-level helpers and visual reordering.
//!
//! Levels are plain `u8` values as defined by UAX #9: at most 126, odd for
//! right-to-left. The reordering itself is performed by the `unicode_bidi`
//! crate behind one trusted wrapper; everything around it is verified.

use vstd::prelude::*;

verus! {

/// The direction of a piece of processed text.
#[derive(Debug, Clone, Copy, PartialEq, Eq, Structural)]
pub enum BidiDirection {
    /// Uniformly left-to-right.
    Ltr,
    /// Uniformly right-to-left.
    Rtl,
    /// Mixed directions.
    Mixed,
}

/// The visual-to-source map that reordering `levels` produces: entry `v` is
/// the source index displayed at visual position `v`. Named here; the value
/// is computed by `unicode_bidi` and depends on the levels alone.
pub uninterp spec fn reorder_visual_of(levels: Seq<u8>) -> Seq<usize>;

/// Relies on `unicode_bidi::BidiInfo::reorder_visual`: the pure UAX #9 rule
/// L2 reordering of precomputed levels. Its result holds one entry per level
/// and is a function of the levels alone. Levels above 126 are excluded:
/// on them the reordering can fail inside the outside crate.
#[verifier::external_body]
fn reorder_visual_raw(levels: &[u8]) -> (r: Vec<usize>)
    requires
        forall|i: int| 0 <= i < levels@.len() ==> levels@[i] <= 126,
    ensures
        r@.len() == levels@.len(),
        r@ == reorder_visual_of(levels@),
{
    unicode_bidi::BidiInfo::reorder_visual(unicode_bidi::Level::from_slice_unchecked(levels))
}

/// Thin wrapper around a vector that maps visual indices to source indices:
/// `map[visual_index] == source_index`. Produced by [`reorder_visual`].
#[derive(Debug, PartialEq, Eq)]
pub struct ReorderedIndexMap(pub Vec<usize>);

impl View for ReorderedIndexMap {
    type V = Seq<usize>;

    closed spec fn view(&self) -> Seq<usize> {
        self.0@
    }
}

impl ReorderedIndexMap {
    /// The whole map as a slice of indices.
    pub fn as_slice(&self) -> (r: &[usize])
        ensures
            r@ == self@,
    {
        self.0.as_slice()
    }

    /// The length of this map.
    pub fn len(&self) -> (n: usize)
        ensures
            n == self@.len(),
    {
        self.0.len()
    }

    /// Whether this map is empty.
    pub fn is_empty(&self) -> (r: bool)
        ensures
            r == (self@.len() == 0),
    {
        self.0.is_empty()
    }

    /// The element at `index`, or 0 when out of bounds (note that 0 is also
    /// a valid in-bounds value; consult `len` to tell the cases apart).
    pub fn get(&self, index: usize) -> (r: usize)
        ensures
            index < self@.len() ==> r == self@[index as int],
            index >= self@.len() ==> r == 0,
    {
        if index < self.0.len() {
            self.0[index]
        } else {
            0
        }
    }
}

/// Produces the visual-to-source reordering map for a list of levels. Every
/// level must be a valid UAX #9 level, at most 126.
pub fn reorder_visual(levels: &[u8]) -> (r: ReorderedIndexMap)
    requires
        forall|i: int| 0 <= i < levels@.len() ==> levels@[i] <= 126,
    ensures
        r@ == reorder_visual_of(levels@),
        r@.len() == levels@.len(),
{
    ReorderedIndexMap(reorder_visual_raw(levels))
}

/// Whether a level value denotes right-to-left text. Invalid levels (above
/// 126) are treated as the left-to-right default.
pub fn level_is_rtl(level: u8) -> (r: bool)
    ensures
        r == (level <= 126 && level % 2 == 1),
{
    level <= 126 && level % 2 == 1
}

/// Whether a level value denotes left-to-right text. Invalid levels (above
/// 126) are treated as the left-to-right default.
pub fn level_is_ltr(level: u8) -> (r: bool)
    ensures
        r == (level > 126 || level % 2 == 0),
{
    level > 126 || level % 2 == 0
}

/// The basic right-to-left level value.
pub fn level_rtl() -> (r: u8)
    ensures
        r == 1,
{
    1
}

/// The basic left-to-right level value.
pub fn level_ltr() -> (r: u8)
    ensures
        r == 0,
{
    0
}

} // verus!
