//! Round-trip tests on hand-authored tries: the lookup algorithm must agree
//! with a directly written array-of-arrays reference for every code point,
//! on both layouts, including the 18-bit third-stage encoding.

use codepointtrie::CodePointTrie;
use codepointtrie::CodePointTrieHeader;
use codepointtrie::TrieType;
use codepointtrie::U16View;
use codepointtrie::U8View;

/// A `Small` trie over `high_start = 0x2000` whose supplementary span is
/// encoded with an 18-bit third-stage group (top bit set on the second-stage
/// entries). Data layout: a fast block at 0, a small block at 64, the high
/// value at 82 and the error value at 83.
fn small_trie_with_groups() -> (CodePointTrie, Vec<u8>) {
    let mut index: Vec<u16> = vec![0; 133];
    // One first-stage entry for U+1000..U+3FFF, naming the block at 65.
    index[64] = 65;
    // Second-stage entries for U+1000..U+1FFF: an 18-bit group at 97.
    for j in 8..16 {
        index[65 + j] = 0x8000 | 97;
    }
    // Four groups of nine entries: a leading high-bits word (zero here)
    // followed by eight 16-bit offsets, all naming the data block at 64.
    for p in 97..133 {
        index[p] = if (p - 97) % 9 == 0 { 0 } else { 64 };
    }
    let mut data: Vec<u8> = vec![0; 84];
    for i in 16..64 {
        data[i] = (i % 7) as u8;
    }
    for i in 64..80 {
        data[i] = (10 + i - 64) as u8;
    }
    data[82] = 5; // high value
    data[83] = 7; // error value
    let header = CodePointTrieHeader {
        high_start: 0x2000,
        shifted12_high_start: 0x2,
        index3_null_offset: 2,
        data_null_offset: 0,
        null_value: 0,
        trie_type: TrieType::Small,
    };
    let index_view = U16View::from_u16s(&index);
    let data_view = U8View::parse_bytes(data.clone()).expect("any length");
    let trie = CodePointTrie::try_new(header, index_view, data_view)
        .expect("the hand-authored trie is well formed");
    (trie, data)
}

#[test]
fn small_trie_round_trip_matches_reference() {
    let (trie, data) = small_trie_with_groups();
    // The reference model: walk the authored arrays directly.
    let expected = |cp: u32| -> u8 {
        if cp <= 0xFFF {
            data[(cp & 63) as usize]
        } else if cp > 0x10FFFF {
            0
        } else if cp >= 0x2000 {
            data[82]
        } else {
            data[(64 + (cp & 15)) as usize]
        }
    };
    let mut cp: u32 = 0;
    while cp <= 0x2100 {
        assert_eq!(trie.get(cp), expected(cp), "at U+{:04X}", cp);
        cp += 1;
    }
    assert_eq!(trie.get(0xFFFF), expected(0xFFFF));
    assert_eq!(trie.get(0x10FFFF), expected(0x10FFFF));
    assert_eq!(trie.get(0x110000), 0);
    assert_eq!(trie.get(u32::MAX), 0);
}

#[test]
fn small_trie_group_values() {
    let (trie, _) = small_trie_with_groups();
    assert_eq!(trie.get(0x1000), 10);
    assert_eq!(trie.get(0x1234), 14);
    assert_eq!(trie.get(0x1FFF), 25);
    assert_eq!(trie.get(0x2000), 5);
    assert_eq!(trie.get(0x30), 6);
}

#[test]
fn fast_trie_round_trip() {
    let index: Vec<u16> = vec![0; 1024];
    let mut data: Vec<u8> = vec![3; 66];
    data[64] = 8; // high value
    data[65] = 9; // error value
    let header = CodePointTrieHeader {
        high_start: 0x10000,
        shifted12_high_start: 0x10,
        index3_null_offset: 0,
        data_null_offset: 0,
        null_value: 3,
        trie_type: TrieType::Fast,
    };
    let trie = CodePointTrie::try_new(
        header,
        U16View::from_u16s(&index),
        U8View::parse_bytes(data).expect("any length"),
    )
    .expect("the hand-authored trie is well formed");
    assert_eq!(trie.get(0x41), 3);
    assert_eq!(trie.get(0xFFFF), 3);
    assert_eq!(trie.get(0x10000), 8);
    assert_eq!(trie.get(0x10FFFF), 8);
    assert_eq!(trie.get(0x110000), 3);
    assert_eq!(trie.get(u32::MAX), 3);
}

#[test]
fn small_trie_with_bottom_high_start() {
    // With `high_start` at zero the whole supplementary range takes the
    // high-range shortcut, while the fast range below 0x1000 still walks
    // the fast table.
    let index: Vec<u16> = vec![0; 64];
    let mut data: Vec<u8> = vec![0; 66];
    data[64] = 8; // high value
    data[65] = 9; // error value
    let header = CodePointTrieHeader {
        high_start: 0,
        shifted12_high_start: 0,
        index3_null_offset: 0,
        data_null_offset: 0,
        null_value: 0,
        trie_type: TrieType::Small,
    };
    let trie = CodePointTrie::try_new(
        header,
        U16View::from_u16s(&index),
        U8View::parse_bytes(data).expect("any length"),
    )
    .expect("the hand-authored trie is well formed");
    assert_eq!(trie.get(0x41), 0);
    assert_eq!(trie.get(0xFFF), 0);
    assert_eq!(trie.get(0x1000), 8);
    assert_eq!(trie.get(0x10FFFF), 8);
    assert_eq!(trie.get(0x110000), 0);
}
