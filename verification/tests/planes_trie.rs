//! Conformance tests on the plane-number fixture trie.

use codepointtrie::U16View;
use codepointtrie::planes::get_planes_trie;

/// The index array of the plane-number trie as aligned 16-bit values.
fn planes_index_u16() -> Vec<u16> {
    vec![
        0, 64, 0, 0, 0, 0, 0, 0, 0, 0, 0, 0, 0, 0, 0, 0,
        0, 0, 0, 0, 0, 0, 0, 0, 0, 0, 0, 0, 0, 0, 0, 0,
        0, 0, 0, 0, 0, 0, 0, 0, 0, 0, 0, 0, 0, 0, 0, 0,
        0, 0, 0, 0, 0, 0, 0, 0, 0, 0, 0, 0, 0, 0, 0, 0,
        648, 656, 656, 656, 688, 688, 688, 688, 720, 720, 720, 720, 752, 752, 752, 752,
        784, 784, 784, 784, 816, 816, 816, 816, 848, 848, 848, 848, 880, 880, 880, 880,
        912, 912, 912, 912, 944, 944, 944, 944, 976, 976, 976, 976, 1008, 1008, 1008, 1008,
        1040, 1040, 1040, 1040, 1072, 1072, 1072, 1072, 1104, 1104, 1104, 1104, 1136, 1136, 1136, 1136,
        0, 16, 32, 48, 64, 80, 96, 112, 0, 16, 32, 48, 0, 16, 32, 48,
        0, 16, 32, 48, 0, 16, 32, 48, 0, 16, 32, 48, 0, 16, 32, 48,
        0, 16, 32, 48, 0, 16, 32, 48, 128, 128, 128, 128, 128, 128, 128, 128,
        128, 128, 128, 128, 128, 128, 128, 128, 128, 128, 128, 128, 128, 128, 128, 128,
        128, 128, 128, 128, 128, 128, 128, 128, 144, 144, 144, 144, 144, 144, 144, 144,
        144, 144, 144, 144, 144, 144, 144, 144, 144, 144, 144, 144, 144, 144, 144, 144,
        144, 144, 144, 144, 144, 144, 144, 144, 160, 160, 160, 160, 160, 160, 160, 160,
        160, 160, 160, 160, 160, 160, 160, 160, 160, 160, 160, 160, 160, 160, 160, 160,
        160, 160, 160, 160, 160, 160, 160, 160, 176, 176, 176, 176, 176, 176, 176, 176,
        176, 176, 176, 176, 176, 176, 176, 176, 176, 176, 176, 176, 176, 176, 176, 176,
        176, 176, 176, 176, 176, 176, 176, 176, 192, 192, 192, 192, 192, 192, 192, 192,
        192, 192, 192, 192, 192, 192, 192, 192, 192, 192, 192, 192, 192, 192, 192, 192,
        192, 192, 192, 192, 192, 192, 192, 192, 208, 208, 208, 208, 208, 208, 208, 208,
        208, 208, 208, 208, 208, 208, 208, 208, 208, 208, 208, 208, 208, 208, 208, 208,
        208, 208, 208, 208, 208, 208, 208, 208, 224, 224, 224, 224, 224, 224, 224, 224,
        224, 224, 224, 224, 224, 224, 224, 224, 224, 224, 224, 224, 224, 224, 224, 224,
        224, 224, 224, 224, 224, 224, 224, 224, 240, 240, 240, 240, 240, 240, 240, 240,
        240, 240, 240, 240, 240, 240, 240, 240, 240, 240, 240, 240, 240, 240, 240, 240,
        240, 240, 240, 240, 240, 240, 240, 240, 256, 256, 256, 256, 256, 256, 256, 256,
        256, 256, 256, 256, 256, 256, 256, 256, 256, 256, 256, 256, 256, 256, 256, 256,
        256, 256, 256, 256, 256, 256, 256, 256, 272, 272, 272, 272, 272, 272, 272, 272,
        272, 272, 272, 272, 272, 272, 272, 272, 272, 272, 272, 272, 272, 272, 272, 272,
        272, 272, 272, 272, 272, 272, 272, 272, 288, 288, 288, 288, 288, 288, 288, 288,
        288, 288, 288, 288, 288, 288, 288, 288, 288, 288, 288, 288, 288, 288, 288, 288,
        288, 288, 288, 288, 288, 288, 288, 288, 304, 304, 304, 304, 304, 304, 304, 304,
        304, 304, 304, 304, 304, 304, 304, 304, 304, 304, 304, 304, 304, 304, 304, 304,
        304, 304, 304, 304, 304, 304, 304, 304, 320, 320, 320, 320, 320, 320, 320, 320,
        320, 320, 320, 320, 320, 320, 320, 320, 320, 320, 320, 320, 320, 320, 320, 320,
        320, 320, 320, 320, 320, 320, 320, 320, 336, 336, 336, 336, 336, 336, 336, 336,
        336, 336, 336, 336, 336, 336, 336, 336, 336, 336, 336, 336, 336, 336, 336, 336,
        336, 336, 336, 336, 336, 336, 336, 336, 352, 352, 352, 352, 352, 352, 352, 352,
        352, 352, 352, 352, 352, 352, 352, 352, 352, 352, 352, 352, 352, 352, 352, 352,
        352, 352, 352, 352, 352, 352, 352, 352, 128, 136, 136, 136, 136, 136, 136, 136,
        2, 2, 2, 2, 2, 2, 2, 2, 2, 2, 2, 2, 2, 2, 2, 2,
        2, 2, 2, 2, 2, 2, 2, 2, 2, 2, 2, 2, 2, 2, 2, 2,
        168, 168, 168, 168, 168, 168, 168, 168, 168, 168, 168, 168, 168, 168, 168, 168,
        168, 168, 168, 168, 168, 168, 168, 168, 168, 168, 168, 168, 168, 168, 168, 168,
        200, 200, 200, 200, 200, 200, 200, 200, 200, 200, 200, 200, 200, 200, 200, 200,
        200, 200, 200, 200, 200, 200, 200, 200, 200, 200, 200, 200, 200, 200, 200, 200,
        232, 232, 232, 232, 232, 232, 232, 232, 232, 232, 232, 232, 232, 232, 232, 232,
        232, 232, 232, 232, 232, 232, 232, 232, 232, 232, 232, 232, 232, 232, 232, 232,
        264, 264, 264, 264, 264, 264, 264, 264, 264, 264, 264, 264, 264, 264, 264, 264,
        264, 264, 264, 264, 264, 264, 264, 264, 264, 264, 264, 264, 264, 264, 264, 264,
        296, 296, 296, 296, 296, 296, 296, 296, 296, 296, 296, 296, 296, 296, 296, 296,
        296, 296, 296, 296, 296, 296, 296, 296, 296, 296, 296, 296, 296, 296, 296, 296,
        328, 328, 328, 328, 328, 328, 328, 328, 328, 328, 328, 328, 328, 328, 328, 328,
        328, 328, 328, 328, 328, 328, 328, 328, 328, 328, 328, 328, 328, 328, 328, 328,
        360, 360, 360, 360, 360, 360, 360, 360, 360, 360, 360, 360, 360, 360, 360, 360,
        360, 360, 360, 360, 360, 360, 360, 360, 360, 360, 360, 360, 360, 360, 360, 360,
        392, 392, 392, 392, 392, 392, 392, 392, 392, 392, 392, 392, 392, 392, 392, 392,
        392, 392, 392, 392, 392, 392, 392, 392, 392, 392, 392, 392, 392, 392, 392, 392,
        424, 424, 424, 424, 424, 424, 424, 424, 424, 424, 424, 424, 424, 424, 424, 424,
        424, 424, 424, 424, 424, 424, 424, 424, 424, 424, 424, 424, 424, 424, 424, 424,
        456, 456, 456, 456, 456, 456, 456, 456, 456, 456, 456, 456, 456, 456, 456, 456,
        456, 456, 456, 456, 456, 456, 456, 456, 456, 456, 456, 456, 456, 456, 456, 456,
        488, 488, 488, 488, 488, 488, 488, 488, 488, 488, 488, 488, 488, 488, 488, 488,
        488, 488, 488, 488, 488, 488, 488, 488, 488, 488, 488, 488, 488, 488, 488, 488,
        520, 520, 520, 520, 520, 520, 520, 520, 520, 520, 520, 520, 520, 520, 520, 520,
        520, 520, 520, 520, 520, 520, 520, 520, 520, 520, 520, 520, 520, 520, 520, 520,
        552, 552, 552, 552, 552, 552, 552, 552, 552, 552, 552, 552, 552, 552, 552, 552,
        552, 552, 552, 552, 552, 552, 552, 552, 552, 552, 552, 552, 552, 552, 552, 552,
        584, 584, 584, 584, 584, 584, 584, 584, 584, 584, 584, 584, 584, 584, 584, 584,
        584, 584, 584, 584, 584, 584, 584, 584, 584, 584, 584, 584, 584, 584, 584, 584,
        616, 616, 616, 616, 616, 616, 616, 616, 616, 616, 616, 616, 616, 616, 616, 616,
        616, 616, 616, 616, 616, 616, 616, 616, 616, 616, 616, 616, 616, 616, 616, 616,
    ]
}

#[test]
fn test_index_byte_array_literal() {
    let index_zv_bytes: U16View =
        U16View::parse_bytes(codepointtrie::planes::planes_index_bytes()).expect("infallible");
    let index_zv_aligned: U16View = U16View::from_u16s(&planes_index_u16());
    assert_eq!(index_zv_bytes, index_zv_aligned);
}

#[test]
fn planes_fixture_values() {
    let trie = get_planes_trie().expect("the embedded planes data is well formed");
    assert_eq!(trie.get(0x41), 0);
    assert_eq!(trie.get(0x10500), 1);
    assert_eq!(trie.get(0x20500), 2);
    assert_eq!(trie.get(0x10FFFF), 16);
    assert_eq!(trie.get(0x110000), 0);
}

#[test]
fn planes_full_domain_matches_plane_number() {
    let trie = get_planes_trie().expect("the embedded planes data is well formed");
    let mut cp: u32 = 0;
    while cp <= 0x10FFFF {
        assert_eq!(trie.get(cp), (cp >> 16) as u8, "at U+{:04X}", cp);
        cp += 1;
    }
}

#[test]
fn planes_total_over_u32() {
    let trie = get_planes_trie().expect("the embedded planes data is well formed");
    assert_eq!(trie.get(0x110000), 0);
    assert_eq!(trie.get(0x7FFF_FFFF), 0);
    assert_eq!(trie.get(u32::MAX), 0);
}

#[test]
fn planes_null_block_consistency() {
    let trie = get_planes_trie().expect("the embedded planes data is well formed");
    let header = trie.header();
    assert_eq!(header.null_value, 0);
    // Code points of plane 0 resolve into the recorded null data block.
    assert_eq!(trie.get(0x0), header.null_value);
    assert_eq!(trie.get(0x41), header.null_value);
    // Beyond the Unicode range the lookup degrades to the null value too.
    assert_eq!(trie.get(0x110000), header.null_value);
}

#[test]
fn planes_header_queries() {
    let trie = get_planes_trie().expect("the embedded planes data is well formed");
    let header = trie.header();
    assert!(header.is_high_range(0x100000));
    assert!(header.is_high_range(0x10FFFF));
    assert!(!header.is_high_range(0xFFFFF));
    assert!(header.is_null_data_block(0));
    assert!(!header.is_null_data_block(64));
    assert!(header.is_null_index3_block(2));
    assert!(!header.is_null_index3_block(3));
}
