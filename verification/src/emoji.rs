use vstd::prelude::*;

use crate::alphabet::byte_for;
use crate::alphabet::byte_of;
use crate::alphabet::glyph_for;
use crate::alphabet::glyph_of;
use crate::alphabet::in_alphabet;
use crate::alphabet::lemma_byte_of_glyph_of;
use crate::alphabet::lemma_glyph_of_byte_of;

verus! {

/// The one failure of the codec: decoding met a character that is not a
/// member of the 256-glyph alphabet.
#[derive(Clone, Copy, Debug, PartialEq, Eq)]
pub enum EmojiIdError {
    InvalidEmoji,
}

/// An emoji encoding of a byte vector.
/// This can be useful for representations of things like keys or addresses
/// where visual differentiation is important. Equality and ordering are
/// structural over the wrapped bytes (lexicographic, byte-wise).
#[derive(Clone, Debug, Eq, PartialEq, Ord, PartialOrd, Hash)]
pub struct EmojiId {
    bytes: Vec<u8>,
}

impl View for EmojiId {
    type V = Seq<u8>;

    closed spec fn view(&self) -> Seq<u8> {
        self.bytes@
    }
}

/// The encoding of a byte sequence: one glyph per byte, in input order.
pub open spec fn encode_spec(bytes: Seq<u8>) -> Seq<char> {
    bytes.map(|i: int, b: u8| glyph_of(b))
}

/// Whether every character of a text is an alphabet glyph: exactly the
/// texts that decode successfully.
pub open spec fn valid_glyphs(text: Seq<char>) -> bool {
    forall|i: int| 0 <= i < text.len() ==> in_alphabet(text[i])
}

/// The decoding of a text: one byte per glyph, in input order; meaningful
/// only when `valid_glyphs(text)` holds.
pub open spec fn decode_spec(text: Seq<char>) -> Seq<u8> {
    text.map(|i: int, c: char| byte_of(c))
}

/// Relies on `String::push`: appends the given character to the end of
/// the string.
#[verifier::external_body]
fn push_char(s: &mut String, c: char)
    ensures
        final(s)@ == old(s)@.push(c),
{
    s.push(c)
}

impl EmojiId {
    /// Get the bytes from an emoji ID.
    pub fn as_bytes(&self) -> (r: &[u8])
        ensures
            r@ == self@,
    {
        self.bytes.as_slice()
    }

    /// Copy a byte slice into an emoji ID.
    pub fn from_bytes(value: &[u8]) -> (r: EmojiId)
        ensures
            r@ == value@,
    {
        EmojiId { bytes: vstd::slice::slice_to_vec(value) }
    }

    /// Try to convert a string of emoji to an emoji ID: succeeds exactly
    /// when every character is an alphabet glyph, and then wraps one byte
    /// per glyph; fails on the first foreign character.
    pub fn from_str(s: &str) -> (r: Result<EmojiId, EmojiIdError>)
        ensures
            r is Ok <==> valid_glyphs(s@),
            r is Ok ==> r->Ok_0@ == decode_spec(s@),
            r is Err ==> r->Err_0 == EmojiIdError::InvalidEmoji,
    {
        let mut bytes = Vec::<u8>::new();
        for c in it: s.chars()
            invariant
                it.seq() == s@,
                bytes@.len() == it.index(),
                forall|i: int| 0 <= i < it.index() ==> in_alphabet(s@[i]),
                forall|i: int| 0 <= i < it.index() ==> bytes@[i] == byte_of(s@[i]),
        {
            match byte_for(c) {
                Some(b) => {
                    proof {
                        lemma_byte_of_glyph_of(b);
                    }
                    bytes.push(b);
                },
                None => {
                    return Err(EmojiIdError::InvalidEmoji);
                },
            }
        }
        proof {
            assert(bytes@ =~= decode_spec(s@));
        }
        Ok(EmojiId { bytes })
    }

    /// Render the emoji ID as its glyph string: one glyph per byte, in
    /// order, so the glyph count equals the byte count.
    pub fn to_string(&self) -> (s: String)
        ensures
            s@ == encode_spec(self@),
            s@.len() == self@.len(),
    {
        let mut s = String::new();
        let n = self.bytes.len();
        for i in 0..n
            invariant
                n == self.bytes.len(),
                s@.len() == i,
                forall|j: int| 0 <= j < i ==> s@[j] == glyph_of(self.bytes@[j]),
        {
            let c = glyph_for(self.bytes[i]);
            push_char(&mut s, c);
        }
        proof {
            assert(s@ =~= encode_spec(self@));
        }
        s
    }
}

impl From<Vec<u8>> for EmojiId {
    /// Wrap an owned byte vector as an emoji ID.
    fn from(value: Vec<u8>) -> (r: Self) {
        EmojiId { bytes: value }
    }
}

impl vstd::std_specs::convert::FromSpecImpl<Vec<u8>> for EmojiId {
    open spec fn obeys_from_spec() -> bool {
        true
    }

    closed spec fn from_spec(value: Vec<u8>) -> Self {
        EmojiId { bytes: value }
    }
}

/// What `EmojiId::from` builds: the identifier wraps exactly the given
/// bytes, so `EmojiId::from(value)@ == value@` for every byte vector.
pub proof fn lemma_from_wraps_bytes(value: Vec<u8>)
    ensures
        <EmojiId as vstd::std_specs::convert::FromSpec<Vec<u8>>>::obeys_from_spec(),
        <EmojiId as vstd::std_specs::convert::FromSpec<Vec<u8>>>::from_spec(value)@ == value@,
{
}

/// Round trip from bytes: every byte sequence, the empty one included,
/// encodes to a text of alphabet glyphs, and decoding that text gives the
/// original bytes back.
pub proof fn lemma_round_trip_bytes(bytes: Seq<u8>)
    ensures
        valid_glyphs(encode_spec(bytes)),
        decode_spec(encode_spec(bytes)) == bytes,
{
    assert forall|i: int| 0 <= i < encode_spec(bytes).len() implies in_alphabet(
        encode_spec(bytes)[i],
    ) by {
        assert(encode_spec(bytes)[i] == glyph_of(bytes[i]));
    }
    assert forall|i: int| 0 <= i < bytes.len() implies decode_spec(encode_spec(bytes))[i]
        == bytes[i] by {
        lemma_byte_of_glyph_of(bytes[i]);
    }
    assert(decode_spec(encode_spec(bytes)) =~= bytes);
}

/// Round trip from text: a text made only of alphabet glyphs decodes, and
/// encoding the decoded bytes yields the same text again.
pub proof fn lemma_round_trip_string(text: Seq<char>)
    requires
        valid_glyphs(text),
    ensures
        encode_spec(decode_spec(text)) == text,
{
    assert forall|i: int| 0 <= i < text.len() implies encode_spec(decode_spec(text))[i]
        == text[i] by {
        lemma_glyph_of_byte_of(text[i]);
    }
    assert(encode_spec(decode_spec(text)) =~= text);
}

/// Determinism: encoding and decoding are functions of the input value
/// alone, with no hidden state, so calls on identical inputs yield
/// identical results in whatever order they are made.
pub proof fn lemma_codec_deterministic(b1: Seq<u8>, b2: Seq<u8>, t1: Seq<char>, t2: Seq<char>)
    requires
        b1 == b2,
        t1 == t2,
    ensures
        encode_spec(b1) == encode_spec(b2),
        valid_glyphs(t1) == valid_glyphs(t2),
        decode_spec(t1) == decode_spec(t2),
{
}

} // verus!
