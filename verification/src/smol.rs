//! Small immutable strings, as `smol_str` provides them.
//!
//! Nothing here is proved: each contract restates what the `smol_str`
//! source shows of the function it names.

use smol_str::SmolStr;
use vstd::prelude::*;

verus! {

/// `smol_str::SmolStr`, taken as it is: of a value nothing is known but
/// the characters that `smol_chars` names.
#[verifier::external_type_specification]
#[verifier::external_body]
pub struct ExSmolStr(smol_str::SmolStr);

/// The characters that a small string holds.
pub uninterp spec fn smol_chars(s: SmolStr) -> Seq<char>;

/// `SmolStr::as_str`: the text of a small string, borrowed. Whatever the
/// representation (inline, shared or a run of whitespace), the slice that
/// comes back is the text the string was made from.
#[verifier::external_body]
pub(crate) fn smol_as_str(s: &SmolStr) -> (t: &str)
    ensures
        t@ == smol_chars(*s),
{
    s.as_str()
}

/// `SmolStr::new`: a small string that holds a copy of `text`.
#[verifier::external_body]
pub(crate) fn smol_new(text: &str) -> (s: SmolStr)
    ensures
        smol_chars(s) == text@,
{
    SmolStr::new(text)
}

/// `SmolStr`'s `Clone::clone`: the copy holds the same text.
pub assume_specification[ <smol_str::SmolStr as Clone>::clone ](s: &SmolStr) -> (r: SmolStr)
    ensures
        smol_chars(r) == smol_chars(*s),
;

/// `SmolStr`'s `PartialEq::eq`: it compares the two texts as `str`, so two
/// small strings are equal exactly when they hold the same characters.
#[verifier::external_body]
pub(crate) fn smol_eq(a: &SmolStr, b: &SmolStr) -> (r: bool)
    ensures
        r == (smol_chars(*a) == smol_chars(*b)),
{
    a.eq(b)
}

} // verus!
