//! Container kinds as an older format of documents names them.

use vstd::prelude::*;

verus! {

/// The kinds of container that are addressed by name.
#[derive(Debug, Clone, Copy, PartialEq, Eq, Hash, Structural)]
pub enum MapType {
    Mapping,
    Table,
}

/// The kinds of container that are addressed by position.
#[derive(Debug, Clone, Copy, PartialEq, Eq, Hash, Structural)]
pub enum SequenceType {
    List,
    Text,
}

} // verus!
