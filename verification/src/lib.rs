//! A compact, validated lookup structure mapping every Unicode code point
//! (`0..=0x10FFFF`) to a fixed-width property value, backed by a serialized
//! byte layout with two selectable layouts (`Fast` and `Small`).
//!
//! A byte blob is validated once into a [`cptrie::CodePointTrie`]; every later
//! lookup is a pure, total function of the trie's immutable state. Around the
//! trie stand small verified pieces of the text machinery that consumes such
//! property lookups: bidi level helpers and visual reordering, ISO-8601
//! offset formatting, list-joiner patterns, and display-name options.

pub mod bidi;
pub mod cptrie;
pub mod displaynames;
pub mod header;
pub mod iso8601;
pub mod list_patterns;
pub mod planes;
pub mod views;

pub use cptrie::CodePointTrie;
pub use cptrie::ValidationError;
pub use header::CodePointTrieHeader;
pub use header::TrieType;
pub use views::MalformedLength;
pub use views::U16View;
pub use views::U8View;
