//! What decoding can refuse.

use crate::text::{byte_list, decimal, push_byte_list, push_decimal};
use vstd::prelude::*;
use vstd::string::StringExecFns;

verus! {

/// Why an action code and its value do not make an operation kind.
#[derive(Debug, Clone, Copy, PartialEq, Eq, Structural)]
pub enum InvalidOpType {
    /// The action code is none of those that are defined.
    UnknownAction(u64),
    /// The code is that of an increment, and the value is no integer.
    NonNumericInc,
}

impl InvalidOpType {
    /// The text of the error.
    pub open spec fn message(self) -> Seq<char> {
        match self {
            InvalidOpType::UnknownAction(code) => "unknown action "@ + decimal(code as nat),
            InvalidOpType::NonNumericInc => "non-numeric increment"@,
        }
    }

    /// The error as text, with the offending code where there is one.
    pub fn to_string(&self) -> (s: String)
        ensures
            s@ == self.message(),
    {
        match self {
            InvalidOpType::UnknownAction(code) => {
                let mut s = String::from_str("unknown action ");
                push_decimal(&mut s, *code);
                s
            },
            InvalidOpType::NonNumericInc => String::from_str("non-numeric increment"),
        }
    }
}

/// A text that was to be an actor identifier and is no hexadecimal
/// number. It holds the text.
#[derive(Debug, Clone, PartialEq, Eq)]
pub struct InvalidActorId(pub String);

impl InvalidActorId {
    /// The text of the error.
    pub open spec fn message(self) -> Seq<char> {
        "invalid actor ID: "@ + self.0@
    }

    /// The error as text, with the text that was refused.
    pub fn to_string(&self) -> (s: String)
        ensures
            s@ == self.message(),
    {
        let mut s = String::from_str("invalid actor ID: ");
        s.append(self.0.as_str());
        s
    }
}

/// Bytes that were to be a change hash and are not 32 in number. It holds
/// the bytes.
#[derive(Debug, Clone, PartialEq, Eq)]
pub struct InvalidChangeHashSlice(pub Vec<u8>);

impl InvalidChangeHashSlice {
    /// The text of the error.
    pub open spec fn message(self) -> Seq<char> {
        "invalid change hash slice: ["@ + byte_list(self.0@) + "]"@
    }

    /// The error as text, with the bytes that were refused.
    pub fn to_string(&self) -> (s: String)
        ensures
            s@ == self.message(),
    {
        let mut s = String::from_str("invalid change hash slice: [");
        push_byte_list(&mut s, &self.0);
        s.append("]");
        s
    }
}

} // verus!
