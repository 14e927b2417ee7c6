//! Read-only, typed views over raw byte buffers.
//!
//! A view presents a byte sequence as a sequence of fixed-width unsigned
//! integers without copying it again and without assuming any alignment of
//! the backing storage: every element access decodes little-endian bytes at
//! `index * width`. This single chokepoint is shared by the trie's index and
//! data arrays and carries no semantics of its own.

use vstd::prelude::*;

verus! {

/// Error returned when a raw byte sequence's length is not an exact multiple
/// of the element width it is to be viewed as.
#[derive(Debug, Clone, Copy, PartialEq, Eq, Structural)]
pub struct MalformedLength {
    /// The length of the byte sequence that was offered.
    pub len: usize,
    /// The element width in bytes that the view expected.
    pub width: usize,
}

/// The 16-bit little-endian element at position `i` of `bytes`.
pub open spec fn u16_at(bytes: Seq<u8>, i: int) -> u16 {
    (bytes[2 * i] + 256 * bytes[2 * i + 1]) as u16
}

/// The sequence of 16-bit elements stored little-endian in `bytes`.
pub open spec fn u16s_of(bytes: Seq<u8>) -> Seq<u16> {
    Seq::new((bytes.len() / 2) as nat, |i: int| u16_at(bytes, i))
}

/// A read-only view of a byte buffer as unsigned 16-bit integers, decoded
/// little-endian element by element.
#[derive(Debug, Clone, PartialEq, Eq)]
pub struct U16View {
    bytes: Vec<u8>,
}

impl View for U16View {
    type V = Seq<u16>;

    closed spec fn view(&self) -> Seq<u16> {
        u16s_of(self.bytes@)
    }
}

impl U16View {
    /// Reinterprets `bytes` as 16-bit elements. Succeeds exactly when the
    /// length is a multiple of two; performs no validation of element values.
    pub fn parse_bytes(bytes: Vec<u8>) -> (r: Result<U16View, MalformedLength>)
        ensures
            r is Ok <==> bytes@.len() % 2 == 0,
            r matches Ok(v) ==> v@ == u16s_of(bytes@),
    {
        if bytes.len() % 2 == 0 {
            Ok(U16View { bytes })
        } else {
            Err(MalformedLength { len: bytes.len(), width: 2 })
        }
    }

    /// Serializes already-aligned 16-bit values into a fresh little-endian view.
    pub fn from_u16s(vals: &Vec<u16>) -> (r: U16View)
        requires
            vals@.len() * 2 <= usize::MAX,
        ensures
            r@ == vals@,
    {
        let mut bytes: Vec<u8> = Vec::new();
        let mut i: usize = 0;
        while i < vals.len()
            invariant
                i <= vals@.len(),
                vals@.len() * 2 <= usize::MAX,
                bytes@.len() == 2 * i,
                forall|j: int| 0 <= j < i ==> u16_at(bytes@, j) == vals@[j],
            decreases vals@.len() - i,
        {
            let v = vals[i];
            bytes.push((v % 256) as u8);
            bytes.push((v / 256) as u8);
            assert(u16_at(bytes@, i as int) == vals@[i as int]);
            i = i + 1;
        }
        let r = U16View { bytes };
        assert(r@ =~= vals@);
        r
    }

    /// The number of 16-bit elements in the view.
    pub fn len(&self) -> (n: usize)
        ensures
            n == self@.len(),
    {
        self.bytes.len() / 2
    }

    /// Bounds-checked random access to the element at `index`.
    pub fn get(&self, index: usize) -> (r: Option<u16>)
        ensures
            index < self@.len() ==> r == Some(self@[index as int]),
            index >= self@.len() ==> r is None,
    {
        if index < self.len() {
            Some(self.at(index))
        } else {
            None
        }
    }

    /// Unchecked-by-the-caller access: the bound is a proof obligation.
    pub fn at(&self, index: usize) -> (r: u16)
        requires
            index < self@.len(),
        ensures
            r == self@[index as int],
    {
        let n = self.bytes.len();
        proof {
            assert(2 * (n as int / 2) <= n as int);
            assert(index + 1 <= n as int / 2);
            assert(2 * index + 1 < n);
        }
        let lo = self.bytes[2 * index];
        let hi = self.bytes[2 * index + 1];
        lo as u16 + (hi as u16) * 256
    }
}

/// A read-only view of a byte buffer as unsigned 8-bit values; each byte is
/// one element, so the reinterpretation is structural only.
#[derive(Debug, Clone, PartialEq, Eq)]
pub struct U8View {
    bytes: Vec<u8>,
}

impl View for U8View {
    type V = Seq<u8>;

    closed spec fn view(&self) -> Seq<u8> {
        self.bytes@
    }
}

impl U8View {
    /// Reinterprets `bytes` as 8-bit elements. The element width is one byte,
    /// so every length is an exact multiple and parsing always succeeds; the
    /// fallible signature is kept so both arrays share one parsing contract.
    pub fn parse_bytes(bytes: Vec<u8>) -> (r: Result<U8View, MalformedLength>)
        ensures
            r matches Ok(v) && v@ == bytes@,
    {
        Ok(U8View { bytes })
    }

    /// The number of elements in the view.
    pub fn len(&self) -> (n: usize)
        ensures
            n == self@.len(),
    {
        self.bytes.len()
    }

    /// Bounds-checked random access to the element at `index`.
    pub fn get(&self, index: usize) -> (r: Option<u8>)
        ensures
            index < self@.len() ==> r == Some(self@[index as int]),
            index >= self@.len() ==> r is None,
    {
        if index < self.bytes.len() {
            Some(self.bytes[index])
        } else {
            None
        }
    }

    /// Unchecked-by-the-caller access: the bound is a proof obligation.
    pub fn at(&self, index: usize) -> (r: u8)
        requires
            index < self@.len(),
        ensures
            r == self@[index as int],
    {
        self.bytes[index]
    }
}

} // verus!
