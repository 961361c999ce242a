use emoji_id::EmojiId;
use emoji_id::EmojiIdError;
use emoji_id::alphabet::byte_for;
use emoji_id::alphabet::glyph_for;

/// The full alphabet, in order, as a string: one glyph per byte value.
fn full_alphabet_string() -> String {
    (0..=u8::MAX).map(glyph_for).collect()
}

/// Check that the emoji table has no duplicates.
#[test]
fn no_duplicate_emoji() {
    let emoji: Vec<char> = (0..=u8::MAX).map(glyph_for).collect();
    assert_eq!(
        emoji[..emoji.len()]
            .iter()
            .enumerate()
            .any(|(i, e)| emoji[i + 1..].contains(e)),
        false
    );
}

/// Test valid emoji ID from bytes.
#[test]
fn valid_emoji_id_from_bytes() {
    // Generate an emoji ID from a complete ordered byte vector
    let bytes: Vec<u8> = (0..=u8::MAX).collect();
    let emoji_id = EmojiId::from_bytes(bytes.as_slice());

    // Ensure we get the corresponding emoji
    assert_eq!(emoji_id.to_string(), full_alphabet_string());

    // Check that we get the original bytes back again
    assert_eq!(emoji_id.as_bytes(), &bytes);
}

/// Test valid emoji ID from string.
#[test]
fn valid_emoji_id_from_string() {
    // Generate an emoji ID from a complete ordered emoji string
    let emoji: String = full_alphabet_string();
    let emoji_id = EmojiId::from_str(&emoji).unwrap();

    // Ensure we get the corresponding bytes
    assert_eq!(emoji_id.as_bytes(), &(0..=u8::MAX).collect::<Vec<u8>>());

    // Check that we get the original emoji string back again
    assert_eq!(emoji_id.to_string(), emoji);
}

/// Test invalid emoji.
#[test]
fn invalid_emoji() {
    // Choose an emoji not in the emojibet
    let invalid_emoji: char = '🍅';
    assert_eq!(byte_for(invalid_emoji).is_some(), false);

    // This emoji string contains the invalid emoji character
    let emoji_string = "🌴🦀🔌📌🚑🌰🍓🌴🍊🌁🔒💡🍜📜👛🍵👛🍽🍂🍻🦋🍓👶🍭🍼🍀🍪💔💵🥑🔋🍒🍅";
    assert!(emoji_string.contains(invalid_emoji));

    // We can't create an emoji ID from it
    assert_eq!(EmojiId::from_str(emoji_string), Err(EmojiIdError::InvalidEmoji));
}
