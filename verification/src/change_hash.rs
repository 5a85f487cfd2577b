//! Change hashes: the 32 bytes that name a committed batch of operations.

use crate::error::InvalidChangeHashSlice;
use crate::hex::{
    decoded_bytes, encoded, hex_decode, hex_decodes_to, hex_encode, is_hex_digit, is_hex_text,
    is_lower_hex, lemma_encode_after_decode, HexError,
};
use crate::lex::{
    compare_bytes, differ_at, lemma_lex_trichotomy, lex_less, lex_order, same_bytes,
};
use crate::text::{decimal, push_decimal};
use std::cmp::Ordering;
use vstd::prelude::*;
use vstd::slice::slice_to_vec;
use vstd::std_specs::cmp::{PartialEqSpecImpl, PartialOrdSpec};
use vstd::std_specs::convert::TryFromSpecImpl;
use vstd::string::StringExecFns;
use vstd::utf8::{encode_utf8, is_ascii_chars_encode_utf8};

verus! {

/// The number of bytes in a change hash.
pub const HASH_SIZE: usize = 32;

/// The hash of a change. Hashes are equal where their bytes are, and are
/// ordered as their bytes are.
#[derive(Debug, Clone, Copy, Eq, Hash, Ord)]
pub struct ChangeHash(pub [u8; HASH_SIZE]);

impl View for ChangeHash {
    type V = Seq<u8>;

    open spec fn view(&self) -> Seq<u8> {
        self.0@
    }
}

impl PartialEq for ChangeHash {
    fn eq(&self, other: &Self) -> (r: bool) {
        same_bytes(self.0.as_slice(), other.0.as_slice())
    }
}

impl PartialEqSpecImpl for ChangeHash {
    open spec fn obeys_eq_spec() -> bool {
        true
    }

    open spec fn eq_spec(&self, other: &Self) -> bool {
        self@ == other@
    }
}

impl PartialOrd for ChangeHash {
    fn partial_cmp(&self, other: &Self) -> (r: Option<Ordering>) {
        Some(compare_bytes(self.0.as_slice(), other.0.as_slice()))
    }
}

impl vstd::std_specs::cmp::PartialOrdSpecImpl for ChangeHash {
    open spec fn obeys_partial_cmp_spec() -> bool {
        true
    }

    open spec fn partial_cmp_spec(&self, other: &Self) -> Option<Ordering> {
        Some(lex_order(self@, other@))
    }
}

/// One hash is less than another exactly where its bytes come before the
/// other's: at the first byte in which the two differ, it has the smaller.
pub proof fn lemma_hash_order_is_byte_order(a: ChangeHash, b: ChangeHash)
    ensures
        a.partial_cmp_spec(&b) == Some(Ordering::Less) <==> lex_less(a@, b@),
        a.partial_cmp_spec(&b) == Some(Ordering::Equal) <==> a@ == b@,
        a.partial_cmp_spec(&b) == Some(Ordering::Greater) <==> lex_less(b@, a@),
        lex_less(a@, b@) <==> exists|k: int|
            0 <= k < 32 && a@.take(k) == b@.take(k) && #[trigger] a@[k] < b@[k],
{
    lemma_lex_trichotomy(a@, b@);
    if lex_less(a@, b@) {
        let k = choose|k: int| #[trigger]
            differ_at(a@, b@, k) && (k == a@.len() || a@[k] < b@[k]);
        assert(0 <= k < 32 && a@.take(k) == b@.take(k) && a@[k] < b@[k]);
    }
    if exists|k: int| 0 <= k < 32 && a@.take(k) == b@.take(k) && #[trigger] a@[k] < b@[k] {
        let k = choose|k: int| 0 <= k < 32 && a@.take(k) == b@.take(k) && #[trigger] a@[k] < b@[k];
        assert(differ_at(a@, b@, k));
    }
}

/// Why a text is no change hash.
#[derive(Debug, Clone, Copy, PartialEq, Eq, Structural)]
pub enum ParseChangeHashError {
    /// The text is no hexadecimal number.
    HexDecode(HexError),
    /// The text stands for `actual` bytes, which is not 32.
    IncorrectLength { actual: usize },
}

impl ParseChangeHashError {
    /// The text of the error: that of the error in reading hexadecimal,
    /// or the number of bytes that the text stands for.
    pub open spec fn message(self) -> Seq<char> {
        match self {
            ParseChangeHashError::HexDecode(e) => e.message(),
            ParseChangeHashError::IncorrectLength { actual } =>
                "incorrect length, change hash should be 32 bytes, got "@ + decimal(actual as nat),
        }
    }

    /// The error as text.
    pub fn to_string(&self) -> (s: String)
        ensures
            s@ == self.message(),
    {
        match self {
            ParseChangeHashError::HexDecode(e) => e.to_string(),
            ParseChangeHashError::IncorrectLength { actual } => {
                let mut s = String::from_str(
                    "incorrect length, change hash should be 32 bytes, got ",
                );
                push_decimal(&mut s, *actual as u64);
                s
            },
        }
    }
}

/// What reading a change hash from the bytes of a text comes to.
pub open spec fn parse_outcome(text: Seq<u8>, r: Result<ChangeHash, ParseChangeHashError>) -> bool {
    match r {
        Ok(hash) => is_hex_text(text) && text.len() == 64 && hash@ == decoded_bytes(text),
        Err(ParseChangeHashError::HexDecode(e)) => hex_decodes_to(text, Err(e)),
        Err(ParseChangeHashError::IncorrectLength { actual }) => is_hex_text(text) && text.len()
            != 64 && actual == text.len() / 2,
    }
}

/// The 32 bytes of `bytes` as an array.
fn to_array(bytes: &[u8]) -> (array: [u8; HASH_SIZE])
    requires
        bytes@.len() == 32,
    ensures
        array@ == bytes@,
{
    let mut array = [0u8;HASH_SIZE];
    let mut i: usize = 0;
    while i < HASH_SIZE
        invariant
            i <= 32,
            bytes@.len() == 32,
            forall|j: int| 0 <= j < i ==> array@[j] == bytes@[j],
        decreases 32 - i,
    {
        array[i] = bytes[i];
        i += 1;
    }
    assert(array@ =~= bytes@);
    array
}

impl ChangeHash {
    /// The bytes of the hash.
    pub fn as_bytes(&self) -> (bytes: &[u8])
        ensures
            bytes@ == self@,
    {
        self.0.as_slice()
    }

    /// The first four bytes, which frame the hash on the wire.
    pub fn checksum(&self) -> (sum: [u8; 4])
        ensures
            sum@ == self@.take(4),
    {
        let sum = [self.0[0], self.0[1], self.0[2], self.0[3]];
        assert(sum@ =~= self@.take(4));
        sum
    }

    /// The hash as text: 64 hexadecimal digits in lower case.
    pub fn to_string(&self) -> (s: String)
        ensures
            s@ == encoded(self@),
    {
        hex_encode(self.0.as_slice())
    }

    /// Reads a hash from hexadecimal text, in either case. A text that is
    /// no hexadecimal number fails as reading one does; one that stands
    /// for another number of bytes than 32 fails with that number.
    pub fn from_str(s: &str) -> (r: Result<Self, ParseChangeHashError>)
        ensures
            parse_outcome(encode_utf8(s@), r),
    {
        match hex_decode(s.as_bytes()) {
            Ok(bytes) => {
                if bytes.len() == HASH_SIZE {
                    Ok(ChangeHash(to_array(bytes.as_slice())))
                } else {
                    Err(ParseChangeHashError::IncorrectLength { actual: bytes.len() })
                }
            },
            Err(e) => Err(ParseChangeHashError::HexDecode(e)),
        }
    }
}

/// A text of 64 hexadecimal digits in lower case reads as a hash, and the
/// hash is written as that text again.
pub proof fn lemma_hash_text_round_trip(text: Seq<char>, r: Result<ChangeHash, ParseChangeHashError>)
    requires
        text.len() == 64,
        is_lower_hex(text),
        parse_outcome(encode_utf8(text), r),
    ensures
        r is Ok,
        encoded(r->Ok_0@) == text,
{
    lemma_encode_after_decode(text);
    is_ascii_chars_encode_utf8(text);
    if let Err(ParseChangeHashError::HexDecode(e)) = r {
        if let HexError::InvalidHexCharacter { c, index } = e {
            assert(is_hex_digit(encode_utf8(text)[index as int]));
        }
    }
}

impl AsRef<[u8]> for ChangeHash {
    fn as_ref(&self) -> (bytes: &[u8])
        ensures
            bytes@ == self@,
    {
        self.0.as_slice()
    }
}

impl std::str::FromStr for ChangeHash {
    type Err = ParseChangeHashError;

    fn from_str(s: &str) -> (r: Result<Self, ParseChangeHashError>)
        ensures
            parse_outcome(encode_utf8(s@), r),
    {
        ChangeHash::from_str(s)
    }
}

impl TryFrom<&[u8]> for ChangeHash {
    type Error = InvalidChangeHashSlice;

    /// The hash with the given bytes. Bytes that are not 32 in number are
    /// refused, and handed back in the error.
    fn try_from(bytes: &[u8]) -> (r: Result<Self, InvalidChangeHashSlice>)
        ensures
            match r {
                Ok(hash) => bytes@.len() == 32 && hash@ == bytes@,
                Err(e) => bytes@.len() != 32 && e.0@ == bytes@,
            },
    {
        if bytes.len() != HASH_SIZE {
            Err(InvalidChangeHashSlice(slice_to_vec(bytes)))
        } else {
            Ok(ChangeHash(to_array(bytes)))
        }
    }
}

impl TryFromSpecImpl<&[u8]> for ChangeHash {
    open spec fn obeys_try_from_spec() -> bool {
        false
    }

    open spec fn try_from_spec(bytes: &[u8]) -> Result<Self, InvalidChangeHashSlice> {
        arbitrary()
    }
}

} // verus!
