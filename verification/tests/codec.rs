use emoji_id::EmojiId;
use emoji_id::EmojiIdError;
use emoji_id::alphabet::byte_for;
use emoji_id::alphabet::glyph_for;

/// Encoding the empty byte sequence gives the empty string, and decoding
/// the empty string gives an empty identifier, not an error.
#[test]
fn empty_input() {
    let id = EmojiId::from(Vec::new());
    assert_eq!(id.to_string(), "");
    let decoded = EmojiId::from_str("").unwrap();
    assert_eq!(decoded.as_bytes(), &[] as &[u8]);
}

/// Exact values of the forward and reverse lookups at the alphabet's ends.
#[test]
fn known_lookup_values() {
    assert_eq!(glyph_for(0), '\u{1F98B}');
    assert_eq!(glyph_for(255), '\u{1F9F2}');
    assert_eq!(byte_for('\u{1F98B}'), Some(0));
    assert_eq!(byte_for('\u{1F9F2}'), Some(255));
    assert_eq!(byte_for('a'), None);
    assert_eq!(EmojiId::from(vec![0u8]).to_string(), "\u{1F98B}");
    assert_eq!(EmojiId::from(vec![0u8, 255u8]).to_string(), "\u{1F98B}\u{1F9F2}");
}

/// Decoding an encoding returns the original bytes, for empty, short and
/// full-range inputs.
#[test]
fn round_trip_bytes() {
    let samples: Vec<Vec<u8>> = vec![
        vec![],
        vec![0],
        vec![255],
        vec![1, 1, 2, 3, 5, 8, 13, 21, 34, 55, 89, 144, 233],
        (0..=u8::MAX).collect(),
        (0..=u8::MAX).rev().collect(),
    ];
    for bytes in samples {
        let encoded = EmojiId::from(bytes.clone()).to_string();
        let decoded = EmojiId::from_str(&encoded).unwrap();
        assert_eq!(decoded.as_bytes(), &bytes);
    }
}

/// A foreign character is rejected wherever it stands: first, middle or
/// last position.
#[test]
fn foreign_glyph_any_position() {
    let valid: String = vec![glyph_for(7), glyph_for(42), glyph_for(200)]
        .into_iter()
        .collect();
    let glyphs: Vec<char> = valid.chars().collect();
    for pos in 0..=glyphs.len() {
        let mut chars = glyphs.clone();
        chars.insert(pos, 'x');
        let tainted: String = chars.into_iter().collect();
        assert_eq!(EmojiId::from_str(&tainted), Err(EmojiIdError::InvalidEmoji));
    }
}

/// The glyph count of an encoding equals the byte count of the input.
#[test]
fn length_preservation() {
    let samples: Vec<Vec<u8>> = vec![vec![], vec![9], vec![3, 3, 3], (0..=u8::MAX).collect()];
    for bytes in samples {
        let encoded = EmojiId::from(bytes.clone()).to_string();
        assert_eq!(encoded.chars().count(), bytes.len());
    }
}

/// Repeated calls on identical input yield bit-identical output.
#[test]
fn deterministic() {
    let bytes: Vec<u8> = vec![10, 20, 30, 40, 250];
    let first = EmojiId::from(bytes.clone()).to_string();
    let second = EmojiId::from(bytes.clone()).to_string();
    assert_eq!(first, second);
    let d1 = EmojiId::from_str(&first).unwrap();
    let d2 = EmojiId::from_str(&second).unwrap();
    assert_eq!(d1, d2);
    assert_eq!(d1.as_bytes(), d2.as_bytes());
}

/// Identifiers compare structurally and order lexicographically over
/// their bytes, so they can serve as map keys or be sorted.
#[test]
fn ordering_and_equality() {
    let empty = EmojiId::from(Vec::new());
    let a = EmojiId::from(vec![1u8, 2, 3]);
    let b = EmojiId::from(vec![1u8, 2, 4]);
    let c = EmojiId::from(vec![1u8, 2, 3]);
    assert_eq!(a, c);
    assert!(a < b);
    assert!(empty < a);
    assert!(a < EmojiId::from(vec![1u8, 2, 3, 0]));
    let mut ids = vec![b.clone(), a.clone(), empty.clone()];
    ids.sort();
    assert_eq!(ids, vec![empty, a, b]);
}
