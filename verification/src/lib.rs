//! A reversible textual encoding for arbitrary byte sequences over a fixed
//! alphabet of 256 distinct emoji glyphs, one glyph per byte value.
//!
//! `alphabet` holds the fixed table, its two total lookups and the proof
//! that no glyph repeats; `emoji` holds the `EmojiId` identifier type with
//! its encode and decode operations and the round-trip laws.

pub mod alphabet;
pub mod emoji;

pub use emoji::EmojiId;
pub use emoji::EmojiIdError;
