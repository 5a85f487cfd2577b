//! Container kinds, the encoding of sequences, and what is known of a
//! container.

use crate::legacy::{MapType, SequenceType};
use crate::op_id::{ObjId, OpId};
use vstd::prelude::*;
use vstd::std_specs::convert::FromSpecImpl;
use vstd::string::StringExecFns;

verus! {

/// The kind of a container.
#[derive(Debug, Clone, Copy, PartialEq, Eq, Hash, Structural)]
pub enum ObjType {
    /// A map from property names to values.
    Mapping,
    /// Kept for older documents: a table behaves exactly as a map.
    Table,
    /// A sequence of arbitrary values.
    List,
    /// A sequence of characters.
    Text,
}

impl ObjType {
    pub open spec fn spec_is_sequence(&self) -> bool {
        *self == ObjType::List || *self == ObjType::Text
    }

    /// Whether the container is addressed by position rather than by name.
    #[verifier::when_used_as_spec(spec_is_sequence)]
    pub fn is_sequence(&self) -> (b: bool)
        ensures
            b == self.spec_is_sequence(),
    {
        matches!(self, Self::List | Self::Text)
    }

    /// The name of the kind.
    pub open spec fn name(self) -> Seq<char> {
        match self {
            ObjType::Mapping => "map"@,
            ObjType::Table => "table"@,
            ObjType::List => "list"@,
            ObjType::Text => "text"@,
        }
    }

    /// The name of the kind, as text.
    pub fn to_string(&self) -> (s: String)
        ensures
            s@ == self.name(),
    {
        match self {
            ObjType::Mapping => String::from_str("map"),
            ObjType::Table => String::from_str("table"),
            ObjType::List => String::from_str("list"),
            ObjType::Text => String::from_str("text"),
        }
    }
}

/// The kind that an older document calls by the given name.
pub open spec fn map_kind(other: MapType) -> ObjType {
    match other {
        MapType::Mapping => ObjType::Mapping,
        MapType::Table => ObjType::Table,
    }
}

/// The kind that an older document calls by the given name.
pub open spec fn sequence_kind(other: SequenceType) -> ObjType {
    match other {
        SequenceType::List => ObjType::List,
        SequenceType::Text => ObjType::Text,
    }
}

/// How the elements of a container of the given kind are counted: only
/// a text counts by width.
pub open spec fn encoding_of(obj: ObjType) -> ListEncoding {
    if obj == ObjType::Text {
        ListEncoding::Text
    } else {
        ListEncoding::List
    }
}

/// How the elements of a container are counted whose kind may not be
/// known: as those of a list, unless it is known to be a text.
pub open spec fn encoding_of_known(obj: Option<ObjType>) -> ListEncoding {
    match obj {
        Some(t) => encoding_of(t),
        None => ListEncoding::List,
    }
}

impl From<MapType> for ObjType {
    fn from(other: MapType) -> (t: Self)
        ensures
            t == map_kind(other),
    {
        match other {
            MapType::Mapping => Self::Mapping,
            MapType::Table => Self::Table,
        }
    }
}

impl FromSpecImpl<MapType> for ObjType {
    open spec fn obeys_from_spec() -> bool {
        true
    }

    open spec fn from_spec(other: MapType) -> Self {
        map_kind(other)
    }
}

impl From<SequenceType> for ObjType {
    fn from(other: SequenceType) -> (t: Self)
        ensures
            t == sequence_kind(other),
    {
        match other {
            SequenceType::List => Self::List,
            SequenceType::Text => Self::Text,
        }
    }
}

impl FromSpecImpl<SequenceType> for ObjType {
    open spec fn obeys_from_spec() -> bool {
        true
    }

    open spec fn from_spec(other: SequenceType) -> Self {
        sequence_kind(other)
    }
}

/// How the elements of a sequence are counted: each as one, or each by
/// the width of its text.
#[derive(Debug, Clone, Copy, PartialEq, Eq, Structural)]
pub enum ListEncoding {
    List,
    Text,
}

impl Default for ListEncoding {
    fn default() -> (e: Self)
        ensures
            e == ListEncoding::List,
    {
        ListEncoding::List
    }
}

impl From<Option<ObjType>> for ListEncoding {
    fn from(obj: Option<ObjType>) -> (e: Self)
        ensures
            e == encoding_of_known(obj),
    {
        match obj {
            Some(ObjType::Text) => ListEncoding::Text,
            _ => ListEncoding::List,
        }
    }
}

impl FromSpecImpl<Option<ObjType>> for ListEncoding {
    open spec fn obeys_from_spec() -> bool {
        true
    }

    open spec fn from_spec(obj: Option<ObjType>) -> Self {
        encoding_of_known(obj)
    }
}

impl From<ObjType> for ListEncoding {
    fn from(obj: ObjType) -> (e: Self)
        ensures
            e == encoding_of(obj),
    {
        if obj == ObjType::Text {
            ListEncoding::Text
        } else {
            ListEncoding::List
        }
    }
}

impl FromSpecImpl<ObjType> for ListEncoding {
    open spec fn obeys_from_spec() -> bool {
        true
    }

    open spec fn from_spec(obj: ObjType) -> Self {
        encoding_of(obj)
    }
}

/// What is known of a container: its identifier, its kind and how its
/// elements are counted.
#[derive(Debug, Clone)]
pub struct ObjMeta {
    pub id: ObjId,
    pub typ: ObjType,
    pub encoding: ListEncoding,
}

impl ObjMeta {
    /// The root container: a map.
    pub fn root() -> (meta: Self)
        ensures
            meta.id == ObjId(OpId(0, 0)),
            meta.typ == ObjType::Mapping,
            meta.encoding == ListEncoding::List,
    {
        Self { id: ObjId::root(), typ: ObjType::Mapping, encoding: ListEncoding::List }
    }
}

} // verus!
