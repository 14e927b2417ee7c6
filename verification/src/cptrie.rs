//! The code point trie: a block-deduplicated, multi-stage lookup structure
//! mapping every code point to a stored 8-bit value.
//!
//! An untrusted `(header, index, data)` triple is validated once by
//! [`CodePointTrie::try_new`]; afterwards [`CodePointTrie::get`] is total over
//! `u32`, never fails, and every address it computes is proved in bounds by
//! the structural invariant the constructor established.

use vstd::prelude::*;

use crate::header::CodePointTrieHeader;
use crate::header::TrieType;
use crate::views::U16View;
use crate::views::U8View;

verus! {

/// Largest code point served by the two-stage fast path of each layout.
pub open spec fn spec_fast_max(t: TrieType) -> u32 {
    match t {
        TrieType::Fast => 0xFFFF,
        TrieType::Small => 0xFFF,
    }
}

/// Number of leading index entries that form the fast-path table: one entry
/// per 64 code points up to the layout's fast boundary.
pub open spec fn spec_fast_table_len(t: TrieType) -> int {
    match t {
        TrieType::Fast => 1024,
        TrieType::Small => 64,
    }
}

/// Offset added to `cp >> 14` to address the first stage of the multi-stage
/// walk: the first-stage table sits right after the fast-path table, whose
/// leading part the walk never revisits.
pub open spec fn spec_index1_base(t: TrieType) -> int {
    match t {
        TrieType::Fast => 1020,
        TrieType::Small => 64,
    }
}

/// Length of the canonical null data block of each layout: the block
/// granularity of the paths that may point at it.
pub open spec fn spec_null_block_len(t: TrieType) -> int {
    match t {
        TrieType::Fast => 64,
        TrieType::Small => 16,
    }
}

/// Data position resolved by the two-stage fast path: a fast-table entry
/// plus the code point's displacement inside its 64-entry block.
pub open spec fn spec_fast_index(index: Seq<u16>, cp: u32) -> int {
    index[(cp >> 6) as int] + (cp & 0x3F)
}

/// Position of the first-stage entry for `cp` in the multi-stage walk.
pub open spec fn spec_index1_pos(t: TrieType, cp: u32) -> int {
    (cp >> 14) + spec_index1_base(t)
}

/// Position of the second-stage entry for `cp`: the first-stage entry names
/// a 32-entry block, indexed by the next five bits of the code point.
pub open spec fn spec_index2_pos(t: TrieType, index: Seq<u16>, cp: u32) -> int {
    index[spec_index1_pos(t, cp)] + ((cp >> 9) & 0x1F)
}

/// The third-stage entry for `cp`: either the position of a plain block of
/// 16-bit data offsets, or (flagged by the top bit) the base of a group
/// encoding 18-bit data offsets.
pub open spec fn spec_index3_entry(t: TrieType, index: Seq<u16>, cp: u32) -> u16 {
    index[spec_index2_pos(t, index, cp)]
}

/// Displacement of `cp` inside its 32-entry third-stage block.
pub open spec fn spec_index3_pos(cp: u32) -> u32 {
    (cp >> 4) & 0x1F
}

/// For 18-bit third-stage groups: nine 16-bit entries encode eight offsets,
/// the first entry carrying two high bits for each of the following eight.
/// This is the position of the group's leading entry for displacement `k`.
pub open spec fn spec_group_base(e: u16, k: u32) -> int {
    (e & 0x7FFF) + (k & 0x18) + (k >> 3)
}

/// Start of the data block resolved by the multi-stage walk.
pub open spec fn spec_data_block(t: TrieType, index: Seq<u16>, cp: u32) -> int {
    let e = spec_index3_entry(t, index, cp);
    let k = spec_index3_pos(cp);
    if e & 0x8000 == 0 {
        index[e + k] as int
    } else {
        let gb = spec_group_base(e, k);
        let hi = ((index[gb] as u32) << ((2 + 2 * (k & 7)) as u32)) & 0x30000;
        hi + index[gb + 1 + (k & 7)]
    }
}

/// Data position resolved by the multi-stage walk: the block start plus the
/// code point's displacement inside its 16-entry block.
pub open spec fn spec_small_index(t: TrieType, index: Seq<u16>, cp: u32) -> int {
    spec_data_block(t, index, cp) + (cp & 0xF)
}

/// The data position read for `cp <= 0x10FFFF`: the fast path below the
/// layout's fast boundary, the dedicated trailing entry for the high range,
/// and the multi-stage walk in between.
pub open spec fn spec_lookup_index(
    h: CodePointTrieHeader,
    index: Seq<u16>,
    data_len: int,
    cp: u32,
) -> int {
    if cp <= spec_fast_max(h.trie_type) {
        spec_fast_index(index, cp)
    } else if cp >= h.high_start {
        data_len - 2
    } else {
        spec_small_index(h.trie_type, index, cp)
    }
}

/// The value a lookup returns. Code points beyond `0x10FFFF` carry no
/// information and degrade directly to `null_value`; every other code point
/// reads the resolved data position.
pub open spec fn spec_lookup(
    h: CodePointTrieHeader,
    index: Seq<u16>,
    data: Seq<u8>,
    cp: u32,
) -> u8 {
    if cp > 0x10FFFF {
        h.null_value
    } else {
        data[spec_lookup_index(h, index, data.len() as int, cp)]
    }
}

/// The header's bounds and derived fields are consistent: the high boundary
/// lies in the code point range, sits on a 0x1000 boundary (so the 16-bit
/// shortcut comparison is exact), and `shifted12_high_start` really is
/// `high_start >> 12`.
pub open spec fn spec_header_ok(h: CodePointTrieHeader) -> bool {
    &&& h.high_start <= 0x110000
    &&& h.high_start & 0xFFF == 0
    &&& h.shifted12_high_start as u32 == h.high_start >> 12
}

/// The fast-path table is present and each of its entries can address a whole
/// 64-entry data block.
pub open spec fn spec_fast_ok(t: TrieType, index: Seq<u16>, data_len: int) -> bool {
    &&& index.len() >= spec_fast_table_len(t)
    &&& forall|i: int|
        0 <= i < spec_fast_table_len(t) ==> #[trigger] index[i] + 64 <= data_len
}

/// Every stage the multi-stage walk visits for `cp` stays inside the index
/// array, and the resolved data block can hold a full 16-entry displacement.
pub open spec fn spec_small_walk_ok(t: TrieType, index: Seq<u16>, data_len: int, cp: u32) -> bool {
    &&& 0 <= spec_index1_pos(t, cp) < index.len()
    &&& 0 <= spec_index2_pos(t, index, cp) < index.len()
    &&& {
        let e = spec_index3_entry(t, index, cp);
        let k = spec_index3_pos(cp);
        if e & 0x8000 == 0 {
            &&& e + k < index.len()
            &&& index[e + k] + 16 <= data_len
        } else {
            &&& 0 <= spec_group_base(e, k) < index.len()
            &&& spec_group_base(e, k) + 1 + (k & 7) < index.len()
            &&& spec_data_block(t, index, cp) + 16 <= data_len
        }
    }
}

/// The structural invariant a constructed trie satisfies: a consistent
/// header; an in-bounds fast table; an in-bounds multi-stage walk for every
/// code point between the fast boundary and `high_start`; the trailing
/// high-range entry present whenever the high range is reachable; the
/// recorded third-stage null block inside the index array; and the recorded
/// null data block inside the data array, holding `null_value` throughout.
pub open spec fn spec_valid(h: CodePointTrieHeader, index: Seq<u16>, data: Seq<u8>) -> bool {
    &&& spec_header_ok(h)
    &&& spec_fast_ok(h.trie_type, index, data.len() as int)
    &&& (h.high_start < 0x110000 ==> data.len() >= 2)
    &&& forall|cp: u32|
        spec_fast_max(h.trie_type) < cp < h.high_start ==> #[trigger] spec_small_walk_ok(
            h.trie_type,
            index,
            data.len() as int,
            cp,
        )
    &&& h.index3_null_offset + 32 <= index.len()
    &&& h.data_null_offset + spec_null_block_len(h.trie_type) <= data.len()
    &&& forall|p: int|
        h.data_null_offset <= p < h.data_null_offset + spec_null_block_len(h.trie_type)
            ==> #[trigger] data[p] == h.null_value
}

/// The structural violation found by the validating constructor.
#[derive(Debug, Clone, Copy, PartialEq, Eq, Structural)]
pub enum ValidationError {
    /// `high_start` exceeds 0x110000 or does not sit on a 0x1000 boundary.
    HighStartInvalid { high_start: u32 },
    /// `shifted12_high_start` does not equal `high_start >> 12`.
    Shifted12Mismatch { expected: u32, actual: u32 },
    /// The index array is shorter than the layout's fast-path table.
    IndexTooShort { expected: usize, actual: usize },
    /// The data array cannot hold the trailing high-range entries.
    DataTooShort { expected: usize, actual: usize },
    /// A fast-path entry's data block would run past the data array.
    FastOffsetOutOfRange { position: usize, offset: usize, data_len: usize },
    /// A stage position or stored offset points past the index array.
    IndexOffsetOutOfRange { position: usize, index_len: usize },
    /// A resolved data block would run past the data array.
    DataOffsetOutOfRange { offset: usize, data_len: usize },
    /// A recorded null offset points out of bounds.
    NullOffsetOutOfRange { offset: usize, len: usize },
    /// The recorded null data block holds a value other than `null_value`.
    NullBlockValueMismatch { position: usize, value: u8, null_value: u8 },
}

/// What each reported violation says of the offending triple: the carried
/// fields name the inconsistent header field, the out-of-range position or
/// offset, or the corrupt null entry, together with the bound it broke.
pub open spec fn spec_error_meaning(
    e: ValidationError,
    h: CodePointTrieHeader,
    index: Seq<u16>,
    data: Seq<u8>,
) -> bool {
    match e {
        ValidationError::HighStartInvalid { high_start } => high_start == h.high_start && (
        h.high_start > 0x110000 || h.high_start & 0xFFF != 0),
        ValidationError::Shifted12Mismatch { expected, actual } => expected == h.high_start >> 12
            && actual == h.shifted12_high_start as u32 && expected != actual,
        ValidationError::IndexTooShort { expected, actual } => expected == spec_fast_table_len(
            h.trie_type,
        ) && actual == index.len() && actual < expected,
        ValidationError::DataTooShort { expected, actual } => expected == 2 && actual == data.len()
            && h.high_start < 0x110000 && data.len() < 2,
        ValidationError::FastOffsetOutOfRange { position, offset, data_len } => 0 <= position
            < spec_fast_table_len(h.trie_type) && offset == index[position as int] && data_len
            == data.len() && offset + 64 > data.len(),
        ValidationError::IndexOffsetOutOfRange { position, index_len } => index_len == index.len()
            && position >= index.len(),
        ValidationError::DataOffsetOutOfRange { offset, data_len } => data_len == data.len()
            && offset + 16 > data.len(),
        ValidationError::NullOffsetOutOfRange { offset, len } => (offset == h.index3_null_offset
            && len == index.len() && offset + 32 > len) || (offset == h.data_null_offset && len
            == data.len() && h.data_null_offset + spec_null_block_len(h.trie_type) > data.len()),
        ValidationError::NullBlockValueMismatch { position, value, null_value } => null_value
            == h.null_value && h.data_null_offset <= position < h.data_null_offset
            + spec_null_block_len(h.trie_type) && value == data[position as int] && value
            != h.null_value,
    }
}

proof fn lemma_fast_bits(cp: u32)
    by (bit_vector)
    ensures
        cp <= 0xFFFF ==> (cp >> 6) < 1024,
        cp <= 0xFFF ==> (cp >> 6) < 64,
        (cp & 0x3F) < 64,
{
}

proof fn lemma_high_test(cp: u32, hs: u32)
    by (bit_vector)
    requires
        hs & 0xFFF == 0,
    ensures
        (cp >= hs) == ((cp >> 12) >= (hs >> 12)),
{
}

proof fn lemma_small_bits(cp: u32)
    by (bit_vector)
    ensures
        cp <= 0x10FFFF ==> (cp >> 14) <= 0x43,
        ((cp >> 9) & 0x1F) <= 31,
        ((cp >> 4) & 0x1F) <= 31,
        (cp & 0xF) <= 15,
{
}

proof fn lemma_k_bits(k: u32)
    by (bit_vector)
    requires
        k <= 31,
    ensures
        (k & 7) <= 7,
        (k & 0x18) <= 24,
        (k >> 3) <= 3,
        (2 + 2 * (k & 7)) <= 16,
{
}

proof fn lemma_shift_bound(w: u16, k: u32)
    by (bit_vector)
    requires
        k <= 31,
    ensures
        (((w as u32) << ((2 + 2 * (k & 7)) as u32)) & 0x30000) <= 0x30000,
{
}

proof fn lemma_same_block(base: u32, cp: u32)
    by (bit_vector)
    requires
        base & 0xF == 0,
        base <= cp < base + 16,
    ensures
        cp >> 14 == base >> 14,
        (cp >> 9) & 0x1F == (base >> 9) & 0x1F,
        (cp >> 4) & 0x1F == (base >> 4) & 0x1F,
{
}

proof fn lemma_step_16(cp: u32, hs: u32)
    by (bit_vector)
    requires
        cp & 0xF == 0,
        hs & 0xFFF == 0,
        cp < hs,
        hs <= 0x110000,
    ensures
        cp + 16 <= hs,
        ((cp + 16) as u32) & 0xF == 0,
{
}

/// Code points that share a 16-aligned block resolve through the same
/// stages: the walk's in-bounds predicate and resolved block agree on them.
proof fn lemma_walk_same_block(t: TrieType, index: Seq<u16>, data_len: int, base: u32, cp: u32)
    requires
        base & 0xF == 0,
        base <= cp < base + 16,
    ensures
        spec_small_walk_ok(t, index, data_len, cp) == spec_small_walk_ok(t, index, data_len, base),
        spec_data_block(t, index, cp) == spec_data_block(t, index, base),
{
    lemma_same_block(base, cp);
    assert(spec_index1_pos(t, cp) == spec_index1_pos(t, base));
    assert(spec_index2_pos(t, index, cp) == spec_index2_pos(t, index, base));
    assert(spec_index3_entry(t, index, cp) == spec_index3_entry(t, index, base));
    assert(spec_index3_pos(cp) == spec_index3_pos(base));
}

/// A compact, immutable map from code points to 8-bit values. Owns one
/// header and the two validated arrays; the sole reader of both.
#[derive(Debug, PartialEq, Eq)]
pub struct CodePointTrie {
    header: CodePointTrieHeader,
    index: U16View,
    data: U8View,
}

impl CodePointTrie {
    /// The header the trie was constructed with.
    pub closed spec fn spec_header(&self) -> CodePointTrieHeader {
        self.header
    }

    /// The index array as a sequence of 16-bit block pointers.
    pub closed spec fn spec_index(&self) -> Seq<u16> {
        self.index@
    }

    /// The data array as a sequence of stored values.
    pub closed spec fn spec_data(&self) -> Seq<u8> {
        self.data@
    }

    /// The structural invariant: established once by the validating
    /// constructor and carried by every trie value, which is what lets `get`
    /// run without bounds checks. `use_type_invariant` recovers it from any
    /// trie at hand.
    #[verifier::type_invariant]
    pub open spec fn wf(&self) -> bool {
        spec_valid(self.spec_header(), self.spec_index(), self.spec_data())
    }

    /// A copy of the trie's header.
    pub fn header(&self) -> (r: CodePointTrieHeader)
        ensures
            r == self.spec_header(),
    {
        self.header
    }

    /// Turns an untrusted triple into a trie, or reports the first structural
    /// violation found. Succeeds exactly when the triple satisfies
    /// [`spec_valid`]; no partial trie is ever returned.
    pub fn try_new(header: CodePointTrieHeader, index: U16View, data: U8View) -> (r: Result<
        CodePointTrie,
        ValidationError,
    >)
        ensures
            r is Ok <==> spec_valid(header, index@, data@),
            r matches Ok(t) ==> t.spec_header() == header && t.spec_index() == index@
                && t.spec_data() == data@,
            r matches Err(e) ==> spec_error_meaning(e, header, index@, data@),
    {
        match Self::validate(&header, &index, &data) {
            Ok(()) => Ok(CodePointTrie { header, index, data }),
            Err(e) => Err(e),
        }
    }

    /// The lookup: total over `u32`, pure, and free of bounds failures.
    /// Returns exactly the value of the specification-level stage walk
    /// [`spec_lookup`]; code points above `0x10FFFF` yield `null_value`.
    pub fn get(&self, cp: u32) -> (r: u8)
        ensures
            r == spec_lookup(self.spec_header(), self.spec_index(), self.spec_data(), cp),
    {
        proof {
            use_type_invariant(self);
        }
        let t = self.header.trie_type;
        let fast_max: u32 = match t {
            TrieType::Fast => 0xFFFF,
            TrieType::Small => 0xFFF,
        };
        if cp <= fast_max {
            proof {
                lemma_fast_bits(cp);
            }
            let i = (cp >> 6) as usize;
            let block = self.index.at(i) as usize;
            self.data.at(block + (cp & 0x3F) as usize)
        } else if cp > 0x10FFFF {
            self.header.null_value
        } else if (cp >> 12) >= self.header.shifted12_high_start as u32 {
            proof {
                lemma_high_test(cp, self.header.high_start);
            }
            self.data.at(self.data.len() - 2)
        } else {
            proof {
                lemma_high_test(cp, self.header.high_start);
                assert(spec_small_walk_ok(t, self.index@, self.data@.len() as int, cp));
                lemma_small_bits(cp);
            }
            let i1 = (cp >> 14) as usize + (match t {
                TrieType::Fast => 1020,
                TrieType::Small => 64,
            });
            let e1 = self.index.at(i1) as usize;
            let i2 = e1 + ((cp >> 9) & 0x1F) as usize;
            let e2 = self.index.at(i2);
            let k: u32 = (cp >> 4) & 0x1F;
            let block: usize;
            if e2 & 0x8000 == 0 {
                let i3 = e2 as usize + k as usize;
                block = self.index.at(i3) as usize;
            } else {
                proof {
                    lemma_k_bits(k);
                }
                let gb = (e2 & 0x7FFF) as usize + (k & 0x18) as usize + (k >> 3) as usize;
                let w = self.index.at(gb);
                proof {
                    lemma_shift_bound(w, k);
                }
                let hi = ((w as u32) << (2 + 2 * (k & 7))) & 0x30000;
                let lo = self.index.at(gb + 1 + (k & 7) as usize) as u32;
                block = (hi + lo) as usize;
            }
            self.data.at(block + (cp & 0xF) as usize)
        }
    }

    /// Runs every structural check once; `get` never re-checks them.
    fn validate(h: &CodePointTrieHeader, index: &U16View, data: &U8View) -> (r: Result<
        (),
        ValidationError,
    >)
        ensures
            r is Ok <==> spec_valid(*h, index@, data@),
            r matches Err(e) ==> spec_error_meaning(e, *h, index@, data@),
    {
        let index_len = index.len();
        let dlen = data.len();
        let t = h.trie_type;

        // Header consistency.
        if h.high_start > 0x110000 || (h.high_start & 0xFFF) != 0 {
            return Err(ValidationError::HighStartInvalid { high_start: h.high_start });
        }
        if (h.shifted12_high_start as u32) != (h.high_start >> 12) {
            return Err(ValidationError::Shifted12Mismatch {
                expected: h.high_start >> 12,
                actual: h.shifted12_high_start as u32,
            });
        }

        // Fast-path table present and in bounds.
        let fast_len: usize = match t {
            TrieType::Fast => 1024,
            TrieType::Small => 64,
        };
        if index_len < fast_len {
            return Err(ValidationError::IndexTooShort { expected: fast_len, actual: index_len });
        }
        let mut i: usize = 0;
        while i < fast_len
            invariant
                i <= fast_len,
                t == h.trie_type,
                fast_len == spec_fast_table_len(t),
                fast_len <= index@.len(),
                index_len == index@.len(),
                dlen == data@.len(),
                forall|j: int| 0 <= j < i ==> #[trigger] index@[j] + 64 <= dlen,
            decreases fast_len - i,
        {
            let e = index.at(i) as usize;
            if e + 64 > dlen {
                proof {
                    assert(index@[i as int] + 64 > data@.len());
                    assert(!spec_fast_ok(h.trie_type, index@, data@.len() as int));
                }
                return Err(ValidationError::FastOffsetOutOfRange {
                    position: i,
                    offset: e,
                    data_len: dlen,
                });
            }
            i = i + 1;
        }

        // Trailing high-range entry, when the high range is reachable.
        if h.high_start < 0x110000 && dlen < 2 {
            return Err(ValidationError::DataTooShort { expected: 2, actual: dlen });
        }

        // Recorded null offsets, and the null data block's contents.
        let i3n = h.index3_null_offset as usize;
        if i3n + 32 > index_len {
            return Err(ValidationError::NullOffsetOutOfRange { offset: i3n, len: index_len });
        }
        let nb: usize = match t {
            TrieType::Fast => 64,
            TrieType::Small => 16,
        };
        let dn = h.data_null_offset as usize;
        if dlen < nb || dn > dlen - nb {
            return Err(ValidationError::NullOffsetOutOfRange { offset: dn, len: dlen });
        }
        let mut j: usize = 0;
        while j < nb
            invariant
                j <= nb,
                t == h.trie_type,
                nb == spec_null_block_len(t),
                dn == h.data_null_offset,
                dn + nb <= data@.len(),
                dlen == data@.len(),
                forall|p: int| dn <= p < dn + j ==> #[trigger] data@[p] == h.null_value,
            decreases nb - j,
        {
            let v = data.at(dn + j);
            if v != h.null_value {
                proof {
                    assert(data@[(dn + j) as int] != h.null_value);
                }
                return Err(ValidationError::NullBlockValueMismatch {
                    position: dn + j,
                    value: v,
                    null_value: h.null_value,
                });
            }
            j = j + 1;
        }

        // The multi-stage walk, one 16-code-point block at a time.
        let fm: u32 = match t {
            TrieType::Fast => 0xFFFF,
            TrieType::Small => 0xFFF,
        };
        if h.high_start > fm {
            proof {
                assert((fm + 1) as u32 & 0xF == 0) by (bit_vector)
                    requires
                        fm == 0xFFFu32 || fm == 0xFFFFu32,
                ;
            }
            let mut cp: u32 = fm + 1;
            while cp < h.high_start
                invariant
                    t == h.trie_type,
                    fm == spec_fast_max(t),
                    fm + 1 <= cp <= h.high_start,
                    cp & 0xF == 0,
                    h.high_start <= 0x110000,
                    h.high_start & 0xFFF == 0,
                    index_len == index@.len(),
                    dlen == data@.len(),
                    forall|c: u32|
                        fm < c < cp ==> #[trigger] spec_small_walk_ok(
                            t,
                            index@,
                            data@.len() as int,
                            c,
                        ),
                decreases h.high_start - cp,
            {
                proof {
                    lemma_small_bits(cp);
                }
                let i1 = (cp >> 14) as usize + (match t {
                    TrieType::Fast => 1020,
                    TrieType::Small => 64,
                });
                if i1 >= index_len {
                    proof {
                        assert(!spec_small_walk_ok(t, index@, data@.len() as int, cp));
                    }
                    return Err(ValidationError::IndexOffsetOutOfRange {
                        position: i1,
                        index_len,
                    });
                }
                let e1 = index.at(i1) as usize;
                let i2 = e1 + ((cp >> 9) & 0x1F) as usize;
                if i2 >= index_len {
                    proof {
                        assert(!spec_small_walk_ok(t, index@, data@.len() as int, cp));
                    }
                    return Err(ValidationError::IndexOffsetOutOfRange {
                        position: i2,
                        index_len,
                    });
                }
                let e2 = index.at(i2);
                let k: u32 = (cp >> 4) & 0x1F;
                if e2 & 0x8000 == 0 {
                    let i3 = e2 as usize + k as usize;
                    if i3 >= index_len {
                        proof {
                            assert(!spec_small_walk_ok(t, index@, data@.len() as int, cp));
                        }
                        return Err(ValidationError::IndexOffsetOutOfRange {
                            position: i3,
                            index_len,
                        });
                    }
                    let b = index.at(i3) as usize;
                    if b + 16 > dlen {
                        proof {
                            assert(!spec_small_walk_ok(t, index@, data@.len() as int, cp));
                        }
                        return Err(ValidationError::DataOffsetOutOfRange {
                            offset: b,
                            data_len: dlen,
                        });
                    }
                } else {
                    proof {
                        lemma_k_bits(k);
                    }
                    let gb = (e2 & 0x7FFF) as usize + (k & 0x18) as usize + (k >> 3) as usize;
                    if gb >= index_len {
                        proof {
                            assert(!spec_small_walk_ok(t, index@, data@.len() as int, cp));
                        }
                        return Err(ValidationError::IndexOffsetOutOfRange {
                            position: gb,
                            index_len,
                        });
                    }
                    let g1 = gb + 1 + (k & 7) as usize;
                    if g1 >= index_len {
                        proof {
                            assert(!spec_small_walk_ok(t, index@, data@.len() as int, cp));
                        }
                        return Err(ValidationError::IndexOffsetOutOfRange {
                            position: g1,
                            index_len,
                        });
                    }
                    let w = index.at(gb);
                    proof {
                        lemma_shift_bound(w, k);
                    }
                    let hi = ((w as u32) << (2 + 2 * (k & 7))) & 0x30000;
                    let b = hi as usize + index.at(g1) as usize;
                    if b + 16 > dlen {
                        proof {
                            assert(!spec_small_walk_ok(t, index@, data@.len() as int, cp));
                        }
                        return Err(ValidationError::DataOffsetOutOfRange {
                            offset: b,
                            data_len: dlen,
                        });
                    }
                }
                proof {
                    assert(spec_small_walk_ok(t, index@, data@.len() as int, cp));
                    assert forall|c: u32| cp <= c < cp + 16 implies #[trigger] spec_small_walk_ok(
                        t,
                        index@,
                        data@.len() as int,
                        c,
                    ) by {
                        lemma_walk_same_block(t, index@, data@.len() as int, cp, c);
                    }
                    lemma_step_16(cp, h.high_start);
                }
                cp = cp + 16;
            }
        }

        Ok(())
    }

    /// Null consistency: on a valid trie, a code point whose resolved data
    /// position lies inside the recorded null data block reads exactly
    /// `null_value`.
    pub proof fn lemma_null_consistency(
        h: CodePointTrieHeader,
        index: Seq<u16>,
        data: Seq<u8>,
        cp: u32,
    )
        requires
            spec_valid(h, index, data),
            cp <= 0x10FFFF,
            h.data_null_offset <= spec_lookup_index(h, index, data.len() as int, cp)
                < h.data_null_offset + spec_null_block_len(h.trie_type),
        ensures
            spec_lookup(h, index, data, cp) == h.null_value,
    {
    }

    /// High-range shortcut equivalence: on a valid trie, the 16-bit
    /// comparison against `shifted12_high_start` that the lookup performs
    /// agrees with the definitional test against `high_start`, and every
    /// high-range code point beyond the fast boundary reads the dedicated
    /// trailing data entry.
    pub proof fn lemma_high_range_shortcut(
        h: CodePointTrieHeader,
        index: Seq<u16>,
        data: Seq<u8>,
        cp: u32,
    )
        requires
            spec_valid(h, index, data),
        ensures
            ((cp >> 12) >= h.shifted12_high_start as u32) == (cp >= h.high_start),
            spec_fast_max(h.trie_type) < cp <= 0x10FFFF && cp >= h.high_start ==> spec_lookup(
                h,
                index,
                data,
                cp,
            ) == data[data.len() - 2],
    {
        lemma_high_test(cp, h.high_start);
    }

    /// Corrupt input is rejected: a fast-path entry pointing at or past the
    /// end of the data array falsifies the structural invariant, so the
    /// validating constructor cannot accept such a triple.
    pub proof fn lemma_corrupt_fast_offset_rejected(
        h: CodePointTrieHeader,
        index: Seq<u16>,
        data: Seq<u8>,
        i: int,
    )
        requires
            0 <= i < spec_fast_table_len(h.trie_type),
            index[i] >= data.len(),
        ensures
            !spec_valid(h, index, data),
    {
    }

    /// Corrupt input is rejected, multi-stage case: a resolved data block
    /// starting at or past the end of the data array falsifies the
    /// structural invariant for any code point that reaches it.
    pub proof fn lemma_corrupt_small_offset_rejected(
        h: CodePointTrieHeader,
        index: Seq<u16>,
        data: Seq<u8>,
        cp: u32,
    )
        requires
            spec_fast_max(h.trie_type) < cp < h.high_start,
            spec_data_block(h.trie_type, index, cp) >= data.len(),
        ensures
            !spec_valid(h, index, data),
    {
        if spec_valid(h, index, data) {
            assert(spec_small_walk_ok(h.trie_type, index, data.len() as int, cp));
        }
    }
}

} // verus!
