//! What the beginning of a formatting span carries.

use crate::scalar::{ScalarValue, ScalarView};
use crate::smol::{smol_chars, smol_eq};
use smol_str::SmolStr;
use vstd::prelude::*;
use vstd::std_specs::cmp::PartialEqSpecImpl;

verus! {

/// The name of a mark and the value it gives to the span.
#[derive(Debug)]
pub struct MarkData {
    pub name: SmolStr,
    pub value: ScalarValue,
}

/// What the data of a mark is, to a specification.
pub struct MarkDataView {
    pub name: Seq<char>,
    pub value: ScalarView,
}

impl View for MarkData {
    type V = MarkDataView;

    open spec fn view(&self) -> MarkDataView {
        MarkDataView { name: smol_chars(self.name), value: self.value@ }
    }
}

impl MarkDataView {
    /// Equality of the data of marks: the same name and equal values.
    pub open spec fn same_as(self, other: MarkDataView) -> bool {
        self.name == other.name && self.value.same_as(other.value)
    }
}

impl PartialEq for MarkData {
    fn eq(&self, other: &Self) -> (r: bool) {
        smol_eq(&self.name, &other.name) && self.value == other.value
    }
}

impl PartialEqSpecImpl for MarkData {
    open spec fn obeys_eq_spec() -> bool {
        true
    }

    open spec fn eq_spec(&self, other: &Self) -> bool {
        self@.same_as(other@)
    }
}

impl Clone for MarkData {
    fn clone(&self) -> (data: Self)
        ensures
            data@ == self@,
    {
        MarkData { name: self.name.clone(), value: self.value.clone() }
    }
}

} // verus!
