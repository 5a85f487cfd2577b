//! Hexadecimal text, as the `hex` crate writes and reads it.

use crate::text::digit_char;
use vstd::prelude::*;
use vstd::utf8::{encode_utf8, is_ascii_chars, is_ascii_chars_encode_utf8};

verus! {

/// Why a text is no hexadecimal number.
#[derive(Debug, Clone, Copy, PartialEq, Eq, Structural)]
pub enum HexError {
    /// The byte at `index` is no hexadecimal digit; `c` is the character
    /// with the code of that byte.
    InvalidHexCharacter { c: char, index: usize },
    /// The text has an odd number of bytes.
    OddLength,
    /// The text has not the length of what was to be filled. Reading into
    /// a vector never says so.
    InvalidStringLength,
}

/// The value of a hexadecimal digit in either case, and -1 for any other
/// byte.
pub open spec fn hex_value(c: u8) -> int {
    if 0x30 <= c <= 0x39 {
        c - 0x30
    } else if 0x61 <= c <= 0x66 {
        c - 0x61 + 10
    } else if 0x41 <= c <= 0x46 {
        c - 0x41 + 10
    } else {
        -1
    }
}

pub open spec fn is_hex_digit(c: u8) -> bool {
    hex_value(c) >= 0
}

/// Whether a text is an even number of hexadecimal digits.
pub open spec fn is_hex_text(text: Seq<u8>) -> bool {
    &&& text.len() % 2 == 0
    &&& forall|i: int| 0 <= i < text.len() ==> is_hex_digit(#[trigger] text[i])
}

/// The bytes that a text of hexadecimal digits stands for: one for each
/// two digits, the higher digit first.
pub open spec fn decoded_bytes(text: Seq<u8>) -> Seq<u8> {
    Seq::new(
        text.len() / 2,
        |k: int| (16 * hex_value(text[2 * k]) + hex_value(text[2 * k + 1])) as u8,
    )
}

/// Bytes as text: two digits for each, the higher first, `a` to `f` in
/// lower case.
pub open spec fn encoded(bytes: Seq<u8>) -> Seq<char> {
    Seq::new(
        2 * bytes.len(),
        |i: int|
            if i % 2 == 0 {
                digit_char(bytes[i / 2] as int / 16)
            } else {
                digit_char(bytes[i / 2] as int % 16)
            },
    )
}

/// Whether reading `text` ends in `outcome`: in the bytes it stands for,
/// or in the error for an odd length, or else in that for the first byte
/// that is no digit.
pub open spec fn hex_decodes_to(text: Seq<u8>, outcome: Result<Seq<u8>, HexError>) -> bool {
    match outcome {
        Ok(bytes) => is_hex_text(text) && bytes == decoded_bytes(text),
        Err(HexError::OddLength) => text.len() % 2 == 1,
        Err(HexError::InvalidHexCharacter { c, index }) => {
            &&& text.len() % 2 == 0
            &&& index < text.len()
            &&& !is_hex_digit(text[index as int])
            &&& c == text[index as int] as char
            &&& forall|j: int| 0 <= j < index ==> is_hex_digit(#[trigger] text[j])
        },
        Err(HexError::InvalidStringLength) => false,
    }
}

/// What came of reading, with the bytes as a specification sees them.
pub open spec fn outcome_view(r: Result<Vec<u8>, HexError>) -> Result<Seq<u8>, HexError> {
    match r {
        Ok(bytes) => Ok(bytes@),
        Err(e) => Err(e),
    }
}

/// `hex::encode`: each byte of `bytes` as two hexadecimal digits, the
/// higher first, in lower case.
#[verifier::external_body]
pub(crate) fn hex_encode(bytes: &[u8]) -> (text: String)
    ensures
        text@ == encoded(bytes@),
{
    hex::encode(bytes)
}

/// `hex::decode`: reads two digits of either case into each byte. It
/// fails on an odd number of bytes, and else on the first byte that is no
/// digit, of which it gives the place and the character.
#[verifier::external_body]
pub(crate) fn hex_decode(text: &[u8]) -> (r: Result<Vec<u8>, HexError>)
    ensures
        hex_decodes_to(text@, outcome_view(r)),
{
    match hex::decode(text) {
        Ok(bytes) => Ok(bytes),
        Err(hex::FromHexError::InvalidHexCharacter { c, index }) => Err(
            HexError::InvalidHexCharacter { c, index },
        ),
        Err(hex::FromHexError::OddLength) => Err(HexError::OddLength),
        Err(hex::FromHexError::InvalidStringLength) => Err(HexError::InvalidStringLength),
    }
}

/// How `hex` words the error for a byte that is no digit; it names the
/// character and its place.
pub uninterp spec fn invalid_character_text(c: char, index: usize) -> Seq<char>;

impl HexError {
    /// The text of the error, as `hex` words it.
    pub open spec fn message(self) -> Seq<char> {
        match self {
            HexError::InvalidHexCharacter { c, index } => invalid_character_text(c, index),
            HexError::OddLength => "Odd number of digits"@,
            HexError::InvalidStringLength => "Invalid string length"@,
        }
    }

    /// The error as text.
    pub fn to_string(&self) -> (s: String)
        ensures
            s@ == self.message(),
    {
        hex_error_text(self)
    }
}

/// The `Display` of `hex::FromHexError`: a fixed sentence for an odd
/// length and for a wrong length, and for a byte that is no digit a
/// sentence with the character and its place.
#[verifier::external_body]
pub(crate) fn hex_error_text(e: &HexError) -> (s: String)
    ensures
        match *e {
            HexError::InvalidHexCharacter { c, index } => s@ == invalid_character_text(c, index),
            HexError::OddLength => s@ == "Odd number of digits"@,
            HexError::InvalidStringLength => s@ == "Invalid string length"@,
        },
{
    let outside = match *e {
        HexError::InvalidHexCharacter { c, index } => hex::FromHexError::InvalidHexCharacter {
            c,
            index,
        },
        HexError::OddLength => hex::FromHexError::OddLength,
        HexError::InvalidStringLength => hex::FromHexError::InvalidStringLength,
    };
    outside.to_string()
}

/// Reading a text has one outcome.
pub proof fn lemma_one_outcome(
    text: Seq<u8>,
    first: Result<Seq<u8>, HexError>,
    second: Result<Seq<u8>, HexError>,
)
    requires
        hex_decodes_to(text, first),
        hex_decodes_to(text, second),
    ensures
        first == second,
{
    if let Err(HexError::InvalidHexCharacter { c, index }) = first {
        if let Err(HexError::InvalidHexCharacter { c: c2, index: index2 }) = second {
            if index < index2 {
                assert(is_hex_digit(text[index as int]));
            } else if index2 < index {
                assert(is_hex_digit(text[index2 as int]));
            }
        } else if let Ok(_) = second {
            assert(is_hex_digit(text[index as int]));
        }
    } else if let Ok(_) = first {
        if let Err(HexError::InvalidHexCharacter { c, index }) = second {
            assert(is_hex_digit(text[index as int]));
        }
    }
}

/// Whether a character is a hexadecimal digit in lower case.
pub open spec fn is_lower_hex_char(c: char) -> bool {
    ('0' <= c <= '9') || ('a' <= c <= 'f')
}

/// Whether a text is an even number of hexadecimal digits in lower case.
pub open spec fn is_lower_hex(text: Seq<char>) -> bool {
    &&& text.len() % 2 == 0
    &&& forall|i: int| 0 <= i < text.len() ==> is_lower_hex_char(#[trigger] text[i])
}

/// What is written is read back: the text of any bytes is hexadecimal
/// digits in lower case, and stands for those bytes.
pub proof fn lemma_decode_after_encode(bytes: Seq<u8>)
    ensures
        is_lower_hex(encoded(bytes)),
        is_hex_text(encode_utf8(encoded(bytes))),
        decoded_bytes(encode_utf8(encoded(bytes))) == bytes,
{
    let text = encoded(bytes);
    assert forall|i: int| 0 <= i < text.len() implies is_lower_hex_char(#[trigger] text[i]) by {
        let b = bytes[i / 2];
        assert(0 <= b as int / 16 < 16 && 0 <= b as int % 16 < 16);
    }
    assert(is_ascii_chars(text));
    is_ascii_chars_encode_utf8(text);
    let raw = encode_utf8(text);
    assert forall|i: int| 0 <= i < raw.len() implies is_hex_digit(#[trigger] raw[i]) by {
        assert(is_lower_hex_char(text[i]));
        assert(raw[i] == text[i] as u8);
    }
    assert forall|k: int| 0 <= k < bytes.len() implies decoded_bytes(raw)[k] == bytes[k] by {
        let b = bytes[k];
        assert(0 <= b as int / 16 < 16 && 0 <= b as int % 16 < 16);
        assert(text[2 * k] == digit_char(b as int / 16));
        assert(text[2 * k + 1] == digit_char(b as int % 16));
        assert(raw[2 * k] == text[2 * k] as u8);
        assert(raw[2 * k + 1] == text[2 * k + 1] as u8);
        assert(hex_value(raw[2 * k]) == b as int / 16);
        assert(hex_value(raw[2 * k + 1]) == b as int % 16);
    }
    assert(decoded_bytes(raw) =~= bytes);
}

/// What is read is written back: a text of hexadecimal digits in lower
/// case is the text of the bytes it stands for.
pub proof fn lemma_encode_after_decode(text: Seq<char>)
    requires
        is_lower_hex(text),
    ensures
        is_hex_text(encode_utf8(text)),
        decoded_bytes(encode_utf8(text)).len() * 2 == text.len(),
        encoded(decoded_bytes(encode_utf8(text))) == text,
{
    assert(is_ascii_chars(text)) by {
        assert forall|i: int| 0 <= i < text.len() implies '\0' <= #[trigger] text[i]
            <= '\u{7f}' by {
            assert(is_lower_hex_char(text[i]));
        }
    }
    is_ascii_chars_encode_utf8(text);
    let raw = encode_utf8(text);
    assert forall|i: int| 0 <= i < raw.len() implies is_hex_digit(#[trigger] raw[i]) && digit_char(
        hex_value(raw[i]),
    ) == text[i] by {
        assert(is_lower_hex_char(text[i]));
        assert(raw[i] == text[i] as u8);
    }
    let bytes = decoded_bytes(raw);
    assert forall|i: int| 0 <= i < text.len() implies encoded(bytes)[i] == text[i] by {
        let k = i / 2;
        assert(is_hex_digit(raw[2 * k]) && is_hex_digit(raw[2 * k + 1]));
        let hi = hex_value(raw[2 * k]);
        let lo = hex_value(raw[2 * k + 1]);
        assert(bytes[k] == 16 * hi + lo);
        assert((16 * hi + lo) / 16 == hi && (16 * hi + lo) % 16 == lo);
        assert(digit_char(hex_value(raw[i])) == text[i]);
    }
    assert(encoded(bytes) =~= text);
}

} // verus!
