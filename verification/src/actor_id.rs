//! Actor identifiers: the byte strings that name the writers of a
//! document.

use crate::error::InvalidActorId;
use crate::hex::{decoded_bytes, encoded, hex_decode, hex_encode, is_hex_text};
use crate::lex::{compare_bytes, lex_order, same_bytes};
use std::cmp::Ordering;
use tinyvec::{ArrayVec, TinyVec};
use vstd::prelude::*;
use vstd::std_specs::cmp::{PartialEqSpecImpl, PartialOrdSpecImpl};
use vstd::std_specs::convert::{FromSpecImpl, TryFromSpecImpl};
use vstd::string::StringExecFns;
use vstd::utf8::encode_utf8;

verus! {

/// `uuid::Uuid`, taken as it is: of a value nothing is known but the
/// bytes that `uuid_bytes` names.
#[verifier::external_type_specification]
#[verifier::external_body]
pub struct ExUuid(uuid::Uuid);

/// The sixteen bytes of a universally unique identifier.
pub uninterp spec fn uuid_bytes(u: uuid::Uuid) -> Seq<u8>;

/// `Uuid::new_v4`: a fresh random identifier. Whatever chance gives, the
/// high half of byte 6 says version 4 and the two high bits of byte 8 say
/// the standard variant. Where the system cannot give random bytes, the
/// call panics; nothing that is handed to it decides that.
#[verifier::external_body]
fn fresh_uuid() -> (u: uuid::Uuid)
    ensures
        uuid_bytes(u).len() == 16,
        uuid_bytes(u)[6] / 16 == 4,
        uuid_bytes(u)[8] / 64 == 2,
{
    uuid::Uuid::new_v4()
}

/// `Uuid::as_bytes`: the bytes of the identifier, borrowed.
#[verifier::external_body]
fn uuid_as_bytes(u: &uuid::Uuid) -> (bytes: &[u8; 16])
    ensures
        bytes@ == uuid_bytes(*u),
{
    u.as_bytes()
}

/// The name of a writer: a string of bytes, of any length. Up to sixteen
/// bytes are held in place and more on the heap, which `tinyvec` sees to.
/// Two identifiers are equal where their bytes are, and are ordered as
/// their bytes are.
#[verifier::external_body]
#[derive(Debug, Eq, Hash, Ord)]
pub struct ActorId(TinyVec<[u8; 16]>);

/// The bytes of an actor identifier.
pub uninterp spec fn actor_bytes(a: ActorId) -> Seq<u8>;

impl View for ActorId {
    type V = Seq<u8>;

    open spec fn view(&self) -> Seq<u8> {
        actor_bytes(*self)
    }
}

/// `TinyVec::from` on a slice: a vector with a copy of the bytes, in place
/// where they fit and on the heap where they do not.
#[verifier::external_body]
fn actor_from_slice(bytes: &[u8]) -> (a: ActorId)
    ensures
        actor_bytes(a) == bytes@,
{
    ActorId(TinyVec::from(bytes))
}

/// `ArrayVec::try_from` on a slice, which succeeds where the bytes fit in
/// place, and the two constructors of `TinyVec`: the bytes are held in
/// place where they fit, and else the vector itself is kept.
#[verifier::external_body]
fn actor_from_vec(bytes: Vec<u8>) -> (a: ActorId)
    ensures
        actor_bytes(a) == bytes@,
{
    let inner = if let Ok(arr) = ArrayVec::try_from(bytes.as_slice()) {
        TinyVec::Inline(arr)
    } else {
        TinyVec::Heap(bytes)
    };
    ActorId(inner)
}

impl Clone for ActorId {
    /// `TinyVec`'s `clone`: a vector with the same bytes.
    #[verifier::external_body]
    fn clone(&self) -> (a: Self)
        ensures
            actor_bytes(a) == actor_bytes(*self),
    {
        ActorId(self.0.clone())
    }
}

impl ActorId {
    /// A fresh identifier: the sixteen bytes of a random universally
    /// unique identifier of version 4.
    pub fn random() -> (a: ActorId)
        ensures
            a@.len() == 16,
            a@[6] / 16 == 4,
            a@[8] / 64 == 2,
    {
        ActorId::from(fresh_uuid())
    }

    /// The bytes of the identifier. This is the `Deref` of `TinyVec`: the
    /// slice of the bytes it holds, wherever it holds them.
    #[verifier::external_body]
    pub fn to_bytes(&self) -> (bytes: &[u8])
        ensures
            bytes@ == actor_bytes(*self),
    {
        &self.0
    }

    /// The identifier in hexadecimal: two digits for each byte, in lower
    /// case.
    pub fn to_hex_string(&self) -> (s: String)
        ensures
            s@ == encoded(self@),
    {
        hex_encode(self.to_bytes())
    }

    /// The identifier as text: in hexadecimal.
    pub fn to_string(&self) -> (s: String)
        ensures
            s@ == encoded(self@),
    {
        self.to_hex_string()
    }
}

impl PartialEq for ActorId {
    fn eq(&self, other: &Self) -> (r: bool) {
        same_bytes(self.to_bytes(), other.to_bytes())
    }
}

impl PartialEqSpecImpl for ActorId {
    open spec fn obeys_eq_spec() -> bool {
        true
    }

    open spec fn eq_spec(&self, other: &Self) -> bool {
        self@ == other@
    }
}

impl PartialOrd for ActorId {
    fn partial_cmp(&self, other: &Self) -> (r: Option<Ordering>) {
        Some(compare_bytes(self.to_bytes(), other.to_bytes()))
    }
}

impl PartialOrdSpecImpl for ActorId {
    open spec fn obeys_partial_cmp_spec() -> bool {
        true
    }

    open spec fn partial_cmp_spec(&self, other: &Self) -> Option<Ordering> {
        Some(lex_order(self@, other@))
    }
}

impl From<uuid::Uuid> for ActorId {
    fn from(u: uuid::Uuid) -> (a: Self)
        ensures
            a@ == uuid_bytes(u),
    {
        actor_from_slice(uuid_as_bytes(&u).as_slice())
    }
}

impl FromSpecImpl<uuid::Uuid> for ActorId {
    /// Identifiers are told apart by their bytes only, so `from` is
    /// described by the bytes of what it gives.
    open spec fn obeys_from_spec() -> bool {
        false
    }

    open spec fn from_spec(u: uuid::Uuid) -> Self {
        arbitrary()
    }
}

impl From<&[u8]> for ActorId {
    fn from(b: &[u8]) -> (a: Self)
        ensures
            a@ == b@,
    {
        actor_from_slice(b)
    }
}

impl FromSpecImpl<&[u8]> for ActorId {
    open spec fn obeys_from_spec() -> bool {
        false
    }

    open spec fn from_spec(b: &[u8]) -> Self {
        arbitrary()
    }
}

impl From<&Vec<u8>> for ActorId {
    fn from(b: &Vec<u8>) -> (a: Self)
        ensures
            a@ == b@,
    {
        actor_from_slice(b.as_slice())
    }
}

impl FromSpecImpl<&Vec<u8>> for ActorId {
    open spec fn obeys_from_spec() -> bool {
        false
    }

    open spec fn from_spec(b: &Vec<u8>) -> Self {
        arbitrary()
    }
}

impl From<Vec<u8>> for ActorId {
    fn from(b: Vec<u8>) -> (a: Self)
        ensures
            a@ == b@,
    {
        actor_from_vec(b)
    }
}

impl FromSpecImpl<Vec<u8>> for ActorId {
    open spec fn obeys_from_spec() -> bool {
        false
    }

    open spec fn from_spec(b: Vec<u8>) -> Self {
        arbitrary()
    }
}

impl<const N: usize> From<[u8; N]> for ActorId {
    fn from(array: [u8; N]) -> (a: Self)
        ensures
            a@ == array@,
    {
        actor_from_slice(array.as_slice())
    }
}

impl<const N: usize> FromSpecImpl<[u8; N]> for ActorId {
    open spec fn obeys_from_spec() -> bool {
        false
    }

    open spec fn from_spec(array: [u8; N]) -> Self {
        arbitrary()
    }
}

impl<const N: usize> From<&[u8; N]> for ActorId {
    fn from(array: &[u8; N]) -> (a: Self)
        ensures
            a@ == array@,
    {
        actor_from_slice(array.as_slice())
    }
}

impl<const N: usize> FromSpecImpl<&[u8; N]> for ActorId {
    open spec fn obeys_from_spec() -> bool {
        false
    }

    open spec fn from_spec(array: &[u8; N]) -> Self {
        arbitrary()
    }
}

impl TryFrom<&str> for ActorId {
    type Error = InvalidActorId;

    /// Reads an identifier from hexadecimal text, in either case. A text
    /// that is no even number of hexadecimal digits is refused, and
    /// handed back in the error.
    fn try_from(s: &str) -> (r: Result<Self, InvalidActorId>)
        ensures
            match r {
                Ok(a) => is_hex_text(encode_utf8(s@)) && a@ == decoded_bytes(encode_utf8(s@)),
                Err(e) => !is_hex_text(encode_utf8(s@)) && e.0@ == s@,
            },
    {
        match hex_decode(s.as_bytes()) {
            Ok(bytes) => Ok(ActorId::from(bytes)),
            Err(_) => Err(InvalidActorId(String::from_str(s))),
        }
    }
}

impl TryFromSpecImpl<&str> for ActorId {
    open spec fn obeys_try_from_spec() -> bool {
        false
    }

    open spec fn try_from_spec(s: &str) -> Result<Self, InvalidActorId> {
        arbitrary()
    }
}

impl TryFrom<String> for ActorId {
    type Error = InvalidActorId;

    /// Reads an identifier from hexadecimal text, as from a `&str`.
    fn try_from(s: String) -> (r: Result<Self, InvalidActorId>)
        ensures
            match r {
                Ok(a) => is_hex_text(encode_utf8(s@)) && a@ == decoded_bytes(encode_utf8(s@)),
                Err(e) => !is_hex_text(encode_utf8(s@)) && e.0@ == s@,
            },
    {
        match hex_decode(s.as_str().as_bytes()) {
            Ok(bytes) => Ok(ActorId::from(bytes)),
            Err(_) => Err(InvalidActorId(s)),
        }
    }
}

impl TryFromSpecImpl<String> for ActorId {
    open spec fn obeys_try_from_spec() -> bool {
        false
    }

    open spec fn try_from_spec(s: String) -> Result<Self, InvalidActorId> {
        arbitrary()
    }
}

impl AsRef<[u8]> for ActorId {
    fn as_ref(&self) -> (bytes: &[u8])
        ensures
            bytes@ == self@,
    {
        self.to_bytes()
    }
}

impl std::str::FromStr for ActorId {
    type Err = InvalidActorId;

    fn from_str(s: &str) -> (r: Result<Self, InvalidActorId>)
        ensures
            match r {
                Ok(a) => is_hex_text(encode_utf8(s@)) && a@ == decoded_bytes(encode_utf8(s@)),
                Err(e) => !is_hex_text(encode_utf8(s@)) && e.0@ == s@,
            },
    {
        ActorId::try_from(s)
    }
}

} // verus!
