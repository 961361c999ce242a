use vstd::prelude::*;

verus! {

/// The canonical glyph for each byte value: the fixed 256-entry alphabet,
/// one distinct Unicode scalar value per byte, indexed by the byte itself.
pub open spec fn glyph_of(b: u8) -> char {
    match b {
        0u8 => '🦋',
        1u8 => '📟',
        2u8 => '🌈',
        3u8 => '🌊',
        4u8 => '🍯',
        5u8 => '🍋',
        6u8 => '🌙',
        7u8 => '🤔',
        8u8 => '🌕',
        9u8 => '⭐',
        10u8 => '🎋',
        11u8 => '🌰',
        12u8 => '🌴',
        13u8 => '🌵',
        14u8 => '🌲',
        15u8 => '🌸',
        16u8 => '🌹',
        17u8 => '🌻',
        18u8 => '🌽',
        19u8 => '🍀',
        20u8 => '🍁',
        21u8 => '🍄',
        22u8 => '🥑',
        23u8 => '🍆',
        24u8 => '🍇',
        25u8 => '🍈',
        26u8 => '🍉',
        27u8 => '🍊',
        28u8 => '🏋',
        29u8 => '🌁',
        30u8 => '🍍',
        31u8 => '🍎',
        32u8 => '🍏',
        33u8 => '🍑',
        34u8 => '🍒',
        35u8 => '🍓',
        36u8 => '🍔',
        37u8 => '🍕',
        38u8 => '🍗',
        39u8 => '🍚',
        40u8 => '🍐',
        41u8 => '🍟',
        42u8 => '🍥',
        43u8 => '🍣',
        44u8 => '🍦',
        45u8 => '🍩',
        46u8 => '🍪',
        47u8 => '🍫',
        48u8 => '🍬',
        49u8 => '🍭',
        50u8 => '🎯',
        51u8 => '🎥',
        52u8 => '🍳',
        53u8 => '🥄',
        54u8 => '🍵',
        55u8 => '🍶',
        56u8 => '🍷',
        57u8 => '🍸',
        58u8 => '🍾',
        59u8 => '🍺',
        60u8 => '🍼',
        61u8 => '🎀',
        62u8 => '🍝',
        63u8 => '🍂',
        64u8 => '🍃',
        65u8 => '🤖',
        66u8 => '🎈',
        67u8 => '🎉',
        68u8 => '🎒',
        69u8 => '🎓',
        70u8 => '🍠',
        71u8 => '🍡',
        72u8 => '🍢',
        73u8 => '🎣',
        74u8 => '🍤',
        75u8 => '🏥',
        76u8 => '🍧',
        77u8 => '🍨',
        78u8 => '🎩',
        79u8 => '🎪',
        80u8 => '🎬',
        81u8 => '🎭',
        82u8 => '🍮',
        83u8 => '🍰',
        84u8 => '🍱',
        85u8 => '🍲',
        86u8 => '🎳',
        87u8 => '🎵',
        88u8 => '🎷',
        89u8 => '🎸',
        90u8 => '🍹',
        91u8 => '🎺',
        92u8 => '🍻',
        93u8 => '🎼',
        94u8 => '🍽',
        95u8 => '🎾',
        96u8 => '🍿',
        97u8 => '🏀',
        98u8 => '🍞',
        99u8 => '🎆',
        100u8 => '🏈',
        101u8 => '⚽',
        102u8 => '🎠',
        103u8 => '🐥',
        104u8 => '🎦',
        105u8 => '🏭',
        106u8 => '🎰',
        107u8 => '🐀',
        108u8 => '🏉',
        109u8 => '🎊',
        110u8 => '🌍',
        111u8 => '🎁',
        112u8 => '🏦',
        113u8 => '🎍',
        114u8 => '🎑',
        115u8 => '🎔',
        116u8 => '🙈',
        117u8 => '🎗',
        118u8 => '🍘',
        119u8 => '🍙',
        120u8 => '🎚',
        121u8 => '🍛',
        122u8 => '🍜',
        123u8 => '🎎',
        124u8 => '🎏',
        125u8 => '🎢',
        126u8 => '🏣',
        127u8 => '🎨',
        128u8 => '🦀',
        129u8 => '🏪',
        130u8 => '🏬',
        131u8 => '🐭',
        132u8 => '🎮',
        133u8 => '🏯',
        134u8 => '🏰',
        135u8 => '🦆',
        136u8 => '🦂',
        137u8 => '🍴',
        138u8 => '🏵',
        139u8 => '🎶',
        140u8 => '🏷',
        141u8 => '🏸',
        142u8 => '🏺',
        143u8 => '🎻',
        144u8 => '🐼',
        145u8 => '🎽',
        146u8 => '🐾',
        147u8 => '👀',
        148u8 => '👅',
        149u8 => '👑',
        150u8 => '👒',
        151u8 => '🧢',
        152u8 => '💅',
        153u8 => '👕',
        154u8 => '👖',
        155u8 => '👗',
        156u8 => '👘',
        157u8 => '👙',
        158u8 => '💃',
        159u8 => '👛',
        160u8 => '🏑',
        161u8 => '👟',
        162u8 => '👠',
        163u8 => '🥊',
        164u8 => '👢',
        165u8 => '👣',
        166u8 => '🤡',
        167u8 => '👻',
        168u8 => '👽',
        169u8 => '👾',
        170u8 => '🤠',
        171u8 => '👃',
        172u8 => '💄',
        173u8 => '💈',
        174u8 => '💉',
        175u8 => '💊',
        176u8 => '💋',
        177u8 => '👂',
        178u8 => '🏒',
        179u8 => '🐒',
        180u8 => '💁',
        181u8 => '💔',
        182u8 => '🔒',
        183u8 => '🧩',
        184u8 => '💡',
        185u8 => '💣',
        186u8 => '💤',
        187u8 => '💦',
        188u8 => '💨',
        189u8 => '💩',
        190u8 => '❕',
        191u8 => '💯',
        192u8 => '💰',
        193u8 => '💳',
        194u8 => '💵',
        195u8 => '💺',
        196u8 => '💻',
        197u8 => '💼',
        198u8 => '📈',
        199u8 => '📜',
        200u8 => '📌',
        201u8 => '🏓',
        202u8 => '📖',
        203u8 => '📿',
        204u8 => '📡',
        205u8 => '➰',
        206u8 => '📱',
        207u8 => '📷',
        208u8 => '🔋',
        209u8 => '🔌',
        210u8 => '🚰',
        211u8 => '🔑',
        212u8 => '🔔',
        213u8 => '🔥',
        214u8 => '🔦',
        215u8 => '🔧',
        216u8 => '🔨',
        217u8 => '🔩',
        218u8 => '🔪',
        219u8 => '🔫',
        220u8 => '🔬',
        221u8 => '🔭',
        222u8 => '🔮',
        223u8 => '🔱',
        224u8 => '🗽',
        225u8 => '😂',
        226u8 => '😇',
        227u8 => '😈',
        228u8 => '🤑',
        229u8 => '🎘',
        230u8 => '🏘',
        231u8 => '😱',
        232u8 => '😷',
        233u8 => '🤢',
        234u8 => '🐑',
        235u8 => '👶',
        236u8 => '🚀',
        237u8 => '🏚',
        238u8 => '🚂',
        239u8 => '🚚',
        240u8 => '🚑',
        241u8 => '🚒',
        242u8 => '🚓',
        243u8 => '🛵',
        244u8 => '🚗',
        245u8 => '🚜',
        246u8 => '🚢',
        247u8 => '🚦',
        248u8 => '🚧',
        249u8 => '🚨',
        250u8 => '🚪',
        251u8 => '🚫',
        252u8 => '🚲',
        253u8 => '🚽',
        254u8 => '🚿',
        255u8 => '🧲',
    }
}

/// A character belongs to the alphabet when some byte value maps to it.
pub open spec fn in_alphabet(c: char) -> bool {
    exists|b: u8| glyph_of(b) == c
}

/// The byte value that an alphabet glyph stands for; meaningful only
/// when `in_alphabet(c)` holds.
pub open spec fn byte_of(c: char) -> u8 {
    choose|b: u8| glyph_of(b) == c
}

/// The position of a glyph in the alphabet, or -1 for a foreign character.
/// A proof-side inverse of `glyph_of`, used to establish that the alphabet
/// has no duplicate entries.
spec fn glyph_index(c: char) -> int {
    match c {
        '🦋' => 0,
        '📟' => 1,
        '🌈' => 2,
        '🌊' => 3,
        '🍯' => 4,
        '🍋' => 5,
        '🌙' => 6,
        '🤔' => 7,
        '🌕' => 8,
        '⭐' => 9,
        '🎋' => 10,
        '🌰' => 11,
        '🌴' => 12,
        '🌵' => 13,
        '🌲' => 14,
        '🌸' => 15,
        '🌹' => 16,
        '🌻' => 17,
        '🌽' => 18,
        '🍀' => 19,
        '🍁' => 20,
        '🍄' => 21,
        '🥑' => 22,
        '🍆' => 23,
        '🍇' => 24,
        '🍈' => 25,
        '🍉' => 26,
        '🍊' => 27,
        '🏋' => 28,
        '🌁' => 29,
        '🍍' => 30,
        '🍎' => 31,
        '🍏' => 32,
        '🍑' => 33,
        '🍒' => 34,
        '🍓' => 35,
        '🍔' => 36,
        '🍕' => 37,
        '🍗' => 38,
        '🍚' => 39,
        '🍐' => 40,
        '🍟' => 41,
        '🍥' => 42,
        '🍣' => 43,
        '🍦' => 44,
        '🍩' => 45,
        '🍪' => 46,
        '🍫' => 47,
        '🍬' => 48,
        '🍭' => 49,
        '🎯' => 50,
        '🎥' => 51,
        '🍳' => 52,
        '🥄' => 53,
        '🍵' => 54,
        '🍶' => 55,
        '🍷' => 56,
        '🍸' => 57,
        '🍾' => 58,
        '🍺' => 59,
        '🍼' => 60,
        '🎀' => 61,
        '🍝' => 62,
        '🍂' => 63,
        '🍃' => 64,
        '🤖' => 65,
        '🎈' => 66,
        '🎉' => 67,
        '🎒' => 68,
        '🎓' => 69,
        '🍠' => 70,
        '🍡' => 71,
        '🍢' => 72,
        '🎣' => 73,
        '🍤' => 74,
        '🏥' => 75,
        '🍧' => 76,
        '🍨' => 77,
        '🎩' => 78,
        '🎪' => 79,
        '🎬' => 80,
        '🎭' => 81,
        '🍮' => 82,
        '🍰' => 83,
        '🍱' => 84,
        '🍲' => 85,
        '🎳' => 86,
        '🎵' => 87,
        '🎷' => 88,
        '🎸' => 89,
        '🍹' => 90,
        '🎺' => 91,
        '🍻' => 92,
        '🎼' => 93,
        '🍽' => 94,
        '🎾' => 95,
        '🍿' => 96,
        '🏀' => 97,
        '🍞' => 98,
        '🎆' => 99,
        '🏈' => 100,
        '⚽' => 101,
        '🎠' => 102,
        '🐥' => 103,
        '🎦' => 104,
        '🏭' => 105,
        '🎰' => 106,
        '🐀' => 107,
        '🏉' => 108,
        '🎊' => 109,
        '🌍' => 110,
        '🎁' => 111,
        '🏦' => 112,
        '🎍' => 113,
        '🎑' => 114,
        '🎔' => 115,
        '🙈' => 116,
        '🎗' => 117,
        '🍘' => 118,
        '🍙' => 119,
        '🎚' => 120,
        '🍛' => 121,
        '🍜' => 122,
        '🎎' => 123,
        '🎏' => 124,
        '🎢' => 125,
        '🏣' => 126,
        '🎨' => 127,
        '🦀' => 128,
        '🏪' => 129,
        '🏬' => 130,
        '🐭' => 131,
        '🎮' => 132,
        '🏯' => 133,
        '🏰' => 134,
        '🦆' => 135,
        '🦂' => 136,
        '🍴' => 137,
        '🏵' => 138,
        '🎶' => 139,
        '🏷' => 140,
        '🏸' => 141,
        '🏺' => 142,
        '🎻' => 143,
        '🐼' => 144,
        '🎽' => 145,
        '🐾' => 146,
        '👀' => 147,
        '👅' => 148,
        '👑' => 149,
        '👒' => 150,
        '🧢' => 151,
        '💅' => 152,
        '👕' => 153,
        '👖' => 154,
        '👗' => 155,
        '👘' => 156,
        '👙' => 157,
        '💃' => 158,
        '👛' => 159,
        '🏑' => 160,
        '👟' => 161,
        '👠' => 162,
        '🥊' => 163,
        '👢' => 164,
        '👣' => 165,
        '🤡' => 166,
        '👻' => 167,
        '👽' => 168,
        '👾' => 169,
        '🤠' => 170,
        '👃' => 171,
        '💄' => 172,
        '💈' => 173,
        '💉' => 174,
        '💊' => 175,
        '💋' => 176,
        '👂' => 177,
        '🏒' => 178,
        '🐒' => 179,
        '💁' => 180,
        '💔' => 181,
        '🔒' => 182,
        '🧩' => 183,
        '💡' => 184,
        '💣' => 185,
        '💤' => 186,
        '💦' => 187,
        '💨' => 188,
        '💩' => 189,
        '❕' => 190,
        '💯' => 191,
        '💰' => 192,
        '💳' => 193,
        '💵' => 194,
        '💺' => 195,
        '💻' => 196,
        '💼' => 197,
        '📈' => 198,
        '📜' => 199,
        '📌' => 200,
        '🏓' => 201,
        '📖' => 202,
        '📿' => 203,
        '📡' => 204,
        '➰' => 205,
        '📱' => 206,
        '📷' => 207,
        '🔋' => 208,
        '🔌' => 209,
        '🚰' => 210,
        '🔑' => 211,
        '🔔' => 212,
        '🔥' => 213,
        '🔦' => 214,
        '🔧' => 215,
        '🔨' => 216,
        '🔩' => 217,
        '🔪' => 218,
        '🔫' => 219,
        '🔬' => 220,
        '🔭' => 221,
        '🔮' => 222,
        '🔱' => 223,
        '🗽' => 224,
        '😂' => 225,
        '😇' => 226,
        '😈' => 227,
        '🤑' => 228,
        '🎘' => 229,
        '🏘' => 230,
        '😱' => 231,
        '😷' => 232,
        '🤢' => 233,
        '🐑' => 234,
        '👶' => 235,
        '🚀' => 236,
        '🏚' => 237,
        '🚂' => 238,
        '🚚' => 239,
        '🚑' => 240,
        '🚒' => 241,
        '🚓' => 242,
        '🛵' => 243,
        '🚗' => 244,
        '🚜' => 245,
        '🚢' => 246,
        '🚦' => 247,
        '🚧' => 248,
        '🚨' => 249,
        '🚪' => 250,
        '🚫' => 251,
        '🚲' => 252,
        '🚽' => 253,
        '🚿' => 254,
        '🧲' => 255,
        _ => -1,
    }
}

/// `glyph_index` inverts `glyph_of` entry by entry.
proof fn lemma_glyph_index_inverts(b: u8)
    ensures
        glyph_index(glyph_of(b)) == b as int,
{
}

/// No byte values share a glyph: the alphabet has no duplicate entries.
pub proof fn lemma_no_duplicate_glyphs()
    ensures
        forall|i: u8, j: u8| i != j ==> glyph_of(i) != glyph_of(j),
{
    assert forall|i: u8, j: u8| i != j implies glyph_of(i) != glyph_of(j) by {
        lemma_glyph_index_inverts(i);
        lemma_glyph_index_inverts(j);
    }
}

/// Decoding a glyph that was produced from a byte gives that byte back.
pub proof fn lemma_byte_of_glyph_of(b: u8)
    ensures
        byte_of(glyph_of(b)) == b,
{
    lemma_no_duplicate_glyphs();
    assert(glyph_of(b) == glyph_of(b));
}

/// Encoding the byte that a glyph decodes to gives that glyph back.
pub proof fn lemma_glyph_of_byte_of(c: char)
    requires
        in_alphabet(c),
    ensures
        glyph_of(byte_of(c)) == c,
{
}

/// The canonical glyph for a byte value, as executable code: a total
/// lookup into the fixed alphabet.
pub fn glyph_for(b: u8) -> (c: char)
    ensures
        c == glyph_of(b),
{
    match b {
        0u8 => '🦋',
        1u8 => '📟',
        2u8 => '🌈',
        3u8 => '🌊',
        4u8 => '🍯',
        5u8 => '🍋',
        6u8 => '🌙',
        7u8 => '🤔',
        8u8 => '🌕',
        9u8 => '⭐',
        10u8 => '🎋',
        11u8 => '🌰',
        12u8 => '🌴',
        13u8 => '🌵',
        14u8 => '🌲',
        15u8 => '🌸',
        16u8 => '🌹',
        17u8 => '🌻',
        18u8 => '🌽',
        19u8 => '🍀',
        20u8 => '🍁',
        21u8 => '🍄',
        22u8 => '🥑',
        23u8 => '🍆',
        24u8 => '🍇',
        25u8 => '🍈',
        26u8 => '🍉',
        27u8 => '🍊',
        28u8 => '🏋',
        29u8 => '🌁',
        30u8 => '🍍',
        31u8 => '🍎',
        32u8 => '🍏',
        33u8 => '🍑',
        34u8 => '🍒',
        35u8 => '🍓',
        36u8 => '🍔',
        37u8 => '🍕',
        38u8 => '🍗',
        39u8 => '🍚',
        40u8 => '🍐',
        41u8 => '🍟',
        42u8 => '🍥',
        43u8 => '🍣',
        44u8 => '🍦',
        45u8 => '🍩',
        46u8 => '🍪',
        47u8 => '🍫',
        48u8 => '🍬',
        49u8 => '🍭',
        50u8 => '🎯',
        51u8 => '🎥',
        52u8 => '🍳',
        53u8 => '🥄',
        54u8 => '🍵',
        55u8 => '🍶',
        56u8 => '🍷',
        57u8 => '🍸',
        58u8 => '🍾',
        59u8 => '🍺',
        60u8 => '🍼',
        61u8 => '🎀',
        62u8 => '🍝',
        63u8 => '🍂',
        64u8 => '🍃',
        65u8 => '🤖',
        66u8 => '🎈',
        67u8 => '🎉',
        68u8 => '🎒',
        69u8 => '🎓',
        70u8 => '🍠',
        71u8 => '🍡',
        72u8 => '🍢',
        73u8 => '🎣',
        74u8 => '🍤',
        75u8 => '🏥',
        76u8 => '🍧',
        77u8 => '🍨',
        78u8 => '🎩',
        79u8 => '🎪',
        80u8 => '🎬',
        81u8 => '🎭',
        82u8 => '🍮',
        83u8 => '🍰',
        84u8 => '🍱',
        85u8 => '🍲',
        86u8 => '🎳',
        87u8 => '🎵',
        88u8 => '🎷',
        89u8 => '🎸',
        90u8 => '🍹',
        91u8 => '🎺',
        92u8 => '🍻',
        93u8 => '🎼',
        94u8 => '🍽',
        95u8 => '🎾',
        96u8 => '🍿',
        97u8 => '🏀',
        98u8 => '🍞',
        99u8 => '🎆',
        100u8 => '🏈',
        101u8 => '⚽',
        102u8 => '🎠',
        103u8 => '🐥',
        104u8 => '🎦',
        105u8 => '🏭',
        106u8 => '🎰',
        107u8 => '🐀',
        108u8 => '🏉',
        109u8 => '🎊',
        110u8 => '🌍',
        111u8 => '🎁',
        112u8 => '🏦',
        113u8 => '🎍',
        114u8 => '🎑',
        115u8 => '🎔',
        116u8 => '🙈',
        117u8 => '🎗',
        118u8 => '🍘',
        119u8 => '🍙',
        120u8 => '🎚',
        121u8 => '🍛',
        122u8 => '🍜',
        123u8 => '🎎',
        124u8 => '🎏',
        125u8 => '🎢',
        126u8 => '🏣',
        127u8 => '🎨',
        128u8 => '🦀',
        129u8 => '🏪',
        130u8 => '🏬',
        131u8 => '🐭',
        132u8 => '🎮',
        133u8 => '🏯',
        134u8 => '🏰',
        135u8 => '🦆',
        136u8 => '🦂',
        137u8 => '🍴',
        138u8 => '🏵',
        139u8 => '🎶',
        140u8 => '🏷',
        141u8 => '🏸',
        142u8 => '🏺',
        143u8 => '🎻',
        144u8 => '🐼',
        145u8 => '🎽',
        146u8 => '🐾',
        147u8 => '👀',
        148u8 => '👅',
        149u8 => '👑',
        150u8 => '👒',
        151u8 => '🧢',
        152u8 => '💅',
        153u8 => '👕',
        154u8 => '👖',
        155u8 => '👗',
        156u8 => '👘',
        157u8 => '👙',
        158u8 => '💃',
        159u8 => '👛',
        160u8 => '🏑',
        161u8 => '👟',
        162u8 => '👠',
        163u8 => '🥊',
        164u8 => '👢',
        165u8 => '👣',
        166u8 => '🤡',
        167u8 => '👻',
        168u8 => '👽',
        169u8 => '👾',
        170u8 => '🤠',
        171u8 => '👃',
        172u8 => '💄',
        173u8 => '💈',
        174u8 => '💉',
        175u8 => '💊',
        176u8 => '💋',
        177u8 => '👂',
        178u8 => '🏒',
        179u8 => '🐒',
        180u8 => '💁',
        181u8 => '💔',
        182u8 => '🔒',
        183u8 => '🧩',
        184u8 => '💡',
        185u8 => '💣',
        186u8 => '💤',
        187u8 => '💦',
        188u8 => '💨',
        189u8 => '💩',
        190u8 => '❕',
        191u8 => '💯',
        192u8 => '💰',
        193u8 => '💳',
        194u8 => '💵',
        195u8 => '💺',
        196u8 => '💻',
        197u8 => '💼',
        198u8 => '📈',
        199u8 => '📜',
        200u8 => '📌',
        201u8 => '🏓',
        202u8 => '📖',
        203u8 => '📿',
        204u8 => '📡',
        205u8 => '➰',
        206u8 => '📱',
        207u8 => '📷',
        208u8 => '🔋',
        209u8 => '🔌',
        210u8 => '🚰',
        211u8 => '🔑',
        212u8 => '🔔',
        213u8 => '🔥',
        214u8 => '🔦',
        215u8 => '🔧',
        216u8 => '🔨',
        217u8 => '🔩',
        218u8 => '🔪',
        219u8 => '🔫',
        220u8 => '🔬',
        221u8 => '🔭',
        222u8 => '🔮',
        223u8 => '🔱',
        224u8 => '🗽',
        225u8 => '😂',
        226u8 => '😇',
        227u8 => '😈',
        228u8 => '🤑',
        229u8 => '🎘',
        230u8 => '🏘',
        231u8 => '😱',
        232u8 => '😷',
        233u8 => '🤢',
        234u8 => '🐑',
        235u8 => '👶',
        236u8 => '🚀',
        237u8 => '🏚',
        238u8 => '🚂',
        239u8 => '🚚',
        240u8 => '🚑',
        241u8 => '🚒',
        242u8 => '🚓',
        243u8 => '🛵',
        244u8 => '🚗',
        245u8 => '🚜',
        246u8 => '🚢',
        247u8 => '🚦',
        248u8 => '🚧',
        249u8 => '🚨',
        250u8 => '🚪',
        251u8 => '🚫',
        252u8 => '🚲',
        253u8 => '🚽',
        254u8 => '🚿',
        255u8 => '🧲',
    }
}

/// The byte value for a glyph, or `None` for a character outside the
/// alphabet: the reverse lookup, total over all characters.
#[verifier::rlimit(100)]
pub fn byte_for(c: char) -> (r: Option<u8>)
    ensures
        match r {
            Some(b) => glyph_of(b) == c,
            None => !in_alphabet(c),
        },
{
    match c {
        '🦋' => Some(0u8),
        '📟' => Some(1u8),
        '🌈' => Some(2u8),
        '🌊' => Some(3u8),
        '🍯' => Some(4u8),
        '🍋' => Some(5u8),
        '🌙' => Some(6u8),
        '🤔' => Some(7u8),
        '🌕' => Some(8u8),
        '⭐' => Some(9u8),
        '🎋' => Some(10u8),
        '🌰' => Some(11u8),
        '🌴' => Some(12u8),
        '🌵' => Some(13u8),
        '🌲' => Some(14u8),
        '🌸' => Some(15u8),
        '🌹' => Some(16u8),
        '🌻' => Some(17u8),
        '🌽' => Some(18u8),
        '🍀' => Some(19u8),
        '🍁' => Some(20u8),
        '🍄' => Some(21u8),
        '🥑' => Some(22u8),
        '🍆' => Some(23u8),
        '🍇' => Some(24u8),
        '🍈' => Some(25u8),
        '🍉' => Some(26u8),
        '🍊' => Some(27u8),
        '🏋' => Some(28u8),
        '🌁' => Some(29u8),
        '🍍' => Some(30u8),
        '🍎' => Some(31u8),
        '🍏' => Some(32u8),
        '🍑' => Some(33u8),
        '🍒' => Some(34u8),
        '🍓' => Some(35u8),
        '🍔' => Some(36u8),
        '🍕' => Some(37u8),
        '🍗' => Some(38u8),
        '🍚' => Some(39u8),
        '🍐' => Some(40u8),
        '🍟' => Some(41u8),
        '🍥' => Some(42u8),
        '🍣' => Some(43u8),
        '🍦' => Some(44u8),
        '🍩' => Some(45u8),
        '🍪' => Some(46u8),
        '🍫' => Some(47u8),
        '🍬' => Some(48u8),
        '🍭' => Some(49u8),
        '🎯' => Some(50u8),
        '🎥' => Some(51u8),
        '🍳' => Some(52u8),
        '🥄' => Some(53u8),
        '🍵' => Some(54u8),
        '🍶' => Some(55u8),
        '🍷' => Some(56u8),
        '🍸' => Some(57u8),
        '🍾' => Some(58u8),
        '🍺' => Some(59u8),
        '🍼' => Some(60u8),
        '🎀' => Some(61u8),
        '🍝' => Some(62u8),
        '🍂' => Some(63u8),
        '🍃' => Some(64u8),
        '🤖' => Some(65u8),
        '🎈' => Some(66u8),
        '🎉' => Some(67u8),
        '🎒' => Some(68u8),
        '🎓' => Some(69u8),
        '🍠' => Some(70u8),
        '🍡' => Some(71u8),
        '🍢' => Some(72u8),
        '🎣' => Some(73u8),
        '🍤' => Some(74u8),
        '🏥' => Some(75u8),
        '🍧' => Some(76u8),
        '🍨' => Some(77u8),
        '🎩' => Some(78u8),
        '🎪' => Some(79u8),
        '🎬' => Some(80u8),
        '🎭' => Some(81u8),
        '🍮' => Some(82u8),
        '🍰' => Some(83u8),
        '🍱' => Some(84u8),
        '🍲' => Some(85u8),
        '🎳' => Some(86u8),
        '🎵' => Some(87u8),
        '🎷' => Some(88u8),
        '🎸' => Some(89u8),
        '🍹' => Some(90u8),
        '🎺' => Some(91u8),
        '🍻' => Some(92u8),
        '🎼' => Some(93u8),
        '🍽' => Some(94u8),
        '🎾' => Some(95u8),
        '🍿' => Some(96u8),
        '🏀' => Some(97u8),
        '🍞' => Some(98u8),
        '🎆' => Some(99u8),
        '🏈' => Some(100u8),
        '⚽' => Some(101u8),
        '🎠' => Some(102u8),
        '🐥' => Some(103u8),
        '🎦' => Some(104u8),
        '🏭' => Some(105u8),
        '🎰' => Some(106u8),
        '🐀' => Some(107u8),
        '🏉' => Some(108u8),
        '🎊' => Some(109u8),
        '🌍' => Some(110u8),
        '🎁' => Some(111u8),
        '🏦' => Some(112u8),
        '🎍' => Some(113u8),
        '🎑' => Some(114u8),
        '🎔' => Some(115u8),
        '🙈' => Some(116u8),
        '🎗' => Some(117u8),
        '🍘' => Some(118u8),
        '🍙' => Some(119u8),
        '🎚' => Some(120u8),
        '🍛' => Some(121u8),
        '🍜' => Some(122u8),
        '🎎' => Some(123u8),
        '🎏' => Some(124u8),
        '🎢' => Some(125u8),
        '🏣' => Some(126u8),
        '🎨' => Some(127u8),
        '🦀' => Some(128u8),
        '🏪' => Some(129u8),
        '🏬' => Some(130u8),
        '🐭' => Some(131u8),
        '🎮' => Some(132u8),
        '🏯' => Some(133u8),
        '🏰' => Some(134u8),
        '🦆' => Some(135u8),
        '🦂' => Some(136u8),
        '🍴' => Some(137u8),
        '🏵' => Some(138u8),
        '🎶' => Some(139u8),
        '🏷' => Some(140u8),
        '🏸' => Some(141u8),
        '🏺' => Some(142u8),
        '🎻' => Some(143u8),
        '🐼' => Some(144u8),
        '🎽' => Some(145u8),
        '🐾' => Some(146u8),
        '👀' => Some(147u8),
        '👅' => Some(148u8),
        '👑' => Some(149u8),
        '👒' => Some(150u8),
        '🧢' => Some(151u8),
        '💅' => Some(152u8),
        '👕' => Some(153u8),
        '👖' => Some(154u8),
        '👗' => Some(155u8),
        '👘' => Some(156u8),
        '👙' => Some(157u8),
        '💃' => Some(158u8),
        '👛' => Some(159u8),
        '🏑' => Some(160u8),
        '👟' => Some(161u8),
        '👠' => Some(162u8),
        '🥊' => Some(163u8),
        '👢' => Some(164u8),
        '👣' => Some(165u8),
        '🤡' => Some(166u8),
        '👻' => Some(167u8),
        '👽' => Some(168u8),
        '👾' => Some(169u8),
        '🤠' => Some(170u8),
        '👃' => Some(171u8),
        '💄' => Some(172u8),
        '💈' => Some(173u8),
        '💉' => Some(174u8),
        '💊' => Some(175u8),
        '💋' => Some(176u8),
        '👂' => Some(177u8),
        '🏒' => Some(178u8),
        '🐒' => Some(179u8),
        '💁' => Some(180u8),
        '💔' => Some(181u8),
        '🔒' => Some(182u8),
        '🧩' => Some(183u8),
        '💡' => Some(184u8),
        '💣' => Some(185u8),
        '💤' => Some(186u8),
        '💦' => Some(187u8),
        '💨' => Some(188u8),
        '💩' => Some(189u8),
        '❕' => Some(190u8),
        '💯' => Some(191u8),
        '💰' => Some(192u8),
        '💳' => Some(193u8),
        '💵' => Some(194u8),
        '💺' => Some(195u8),
        '💻' => Some(196u8),
        '💼' => Some(197u8),
        '📈' => Some(198u8),
        '📜' => Some(199u8),
        '📌' => Some(200u8),
        '🏓' => Some(201u8),
        '📖' => Some(202u8),
        '📿' => Some(203u8),
        '📡' => Some(204u8),
        '➰' => Some(205u8),
        '📱' => Some(206u8),
        '📷' => Some(207u8),
        '🔋' => Some(208u8),
        '🔌' => Some(209u8),
        '🚰' => Some(210u8),
        '🔑' => Some(211u8),
        '🔔' => Some(212u8),
        '🔥' => Some(213u8),
        '🔦' => Some(214u8),
        '🔧' => Some(215u8),
        '🔨' => Some(216u8),
        '🔩' => Some(217u8),
        '🔪' => Some(218u8),
        '🔫' => Some(219u8),
        '🔬' => Some(220u8),
        '🔭' => Some(221u8),
        '🔮' => Some(222u8),
        '🔱' => Some(223u8),
        '🗽' => Some(224u8),
        '😂' => Some(225u8),
        '😇' => Some(226u8),
        '😈' => Some(227u8),
        '🤑' => Some(228u8),
        '🎘' => Some(229u8),
        '🏘' => Some(230u8),
        '😱' => Some(231u8),
        '😷' => Some(232u8),
        '🤢' => Some(233u8),
        '🐑' => Some(234u8),
        '👶' => Some(235u8),
        '🚀' => Some(236u8),
        '🏚' => Some(237u8),
        '🚂' => Some(238u8),
        '🚚' => Some(239u8),
        '🚑' => Some(240u8),
        '🚒' => Some(241u8),
        '🚓' => Some(242u8),
        '🛵' => Some(243u8),
        '🚗' => Some(244u8),
        '🚜' => Some(245u8),
        '🚢' => Some(246u8),
        '🚦' => Some(247u8),
        '🚧' => Some(248u8),
        '🚨' => Some(249u8),
        '🚪' => Some(250u8),
        '🚫' => Some(251u8),
        '🚲' => Some(252u8),
        '🚽' => Some(253u8),
        '🚿' => Some(254u8),
        '🧲' => Some(255u8),
        _ => None,
    }
}

} // verus!
