//! Where an operation applies, and how identifiers are named to the
//! outside.

use crate::binary64::{truncate_binary64, truncated};
use crate::op_id::{ElemId, ObjId, OpId};
use crate::text::{decimal, push_decimal};
use vstd::prelude::*;
use vstd::std_specs::cmp::PartialEqSpecImpl;
use vstd::std_specs::convert::FromSpecImpl;
use vstd::string::StringExecFns;

verus! {

/// The name under which the root container is shown.
pub const ROOT_STR: &'static str = "_root";

/// The name under which the position before a sequence is shown.
pub const HEAD_STR: &'static str = "_head";

/// The place an operation applies to: a property of a map, by the index
/// under which its name is interned, or an element of a sequence.
#[derive(Debug, Clone, Copy, PartialEq, Eq, PartialOrd, Ord, Hash, Structural)]
pub enum Key {
    Prop(usize),
    Elem(ElemId),
}

impl Key {
    /// The index of the property's name, for a property of a map.
    pub fn prop_index(&self) -> (idx: Option<usize>)
        ensures
            idx == (match *self {
                Key::Prop(n) => Some(n),
                Key::Elem(_) => None,
            }),
    {
        match self {
            Key::Prop(n) => Some(*n),
            Key::Elem(_) => None,
        }
    }

    /// The element, for an element of a sequence.
    pub fn elemid(&self) -> (id: Option<ElemId>)
        ensures
            id == (match *self {
                Key::Prop(_) => None,
                Key::Elem(e) => Some(e),
            }),
    {
        match self {
            Key::Prop(_) => None,
            Key::Elem(id) => Some(*id),
        }
    }
}

impl From<OpId> for Key {
    fn from(id: OpId) -> (key: Self)
        ensures
            key == Key::Elem(ElemId(id)),
    {
        Key::Elem(ElemId(id))
    }
}

impl FromSpecImpl<OpId> for Key {
    open spec fn obeys_from_spec() -> bool {
        true
    }

    open spec fn from_spec(id: OpId) -> Self {
        Key::Elem(ElemId(id))
    }
}

impl From<ElemId> for Key {
    fn from(e: ElemId) -> (key: Self)
        ensures
            key == Key::Elem(e),
    {
        Key::Elem(e)
    }
}

impl FromSpecImpl<ElemId> for Key {
    open spec fn obeys_from_spec() -> bool {
        true
    }

    open spec fn from_spec(e: ElemId) -> Self {
        Key::Elem(e)
    }
}

/// The element, or the position before the first where none is given.
pub open spec fn elem_or_head(e: Option<ElemId>) -> ElemId {
    match e {
        Some(id) => id,
        None => ElemId(OpId(0, 0)),
    }
}

impl From<Option<ElemId>> for ElemId {
    fn from(e: Option<ElemId>) -> (id: Self)
        ensures
            id == elem_or_head(e),
    {
        match e {
            Some(id) => id,
            None => ElemId::head(),
        }
    }
}

impl FromSpecImpl<Option<ElemId>> for ElemId {
    open spec fn obeys_from_spec() -> bool {
        true
    }

    open spec fn from_spec(e: Option<ElemId>) -> Self {
        elem_or_head(e)
    }
}

impl From<Option<ElemId>> for Key {
    fn from(e: Option<ElemId>) -> (key: Self)
        ensures
            key == Key::Elem(elem_or_head(e)),
    {
        Key::Elem(ElemId::from(e))
    }
}

impl FromSpecImpl<Option<ElemId>> for Key {
    open spec fn obeys_from_spec() -> bool {
        true
    }

    open spec fn from_spec(e: Option<ElemId>) -> Self {
        Key::Elem(elem_or_head(e))
    }
}

impl From<ObjId> for OpId {
    fn from(o: ObjId) -> (id: Self)
        ensures
            id == o.0,
    {
        o.0
    }
}

impl FromSpecImpl<ObjId> for OpId {
    open spec fn obeys_from_spec() -> bool {
        true
    }

    open spec fn from_spec(o: ObjId) -> Self {
        o.0
    }
}

impl From<OpId> for ObjId {
    fn from(o: OpId) -> (id: Self)
        ensures
            id == ObjId(o),
    {
        ObjId(o)
    }
}

impl FromSpecImpl<OpId> for ObjId {
    open spec fn obeys_from_spec() -> bool {
        true
    }

    open spec fn from_spec(o: OpId) -> Self {
        ObjId(o)
    }
}

impl From<OpId> for ElemId {
    fn from(o: OpId) -> (id: Self)
        ensures
            id == ElemId(o),
    {
        ElemId(o)
    }
}

impl FromSpecImpl<OpId> for ElemId {
    open spec fn obeys_from_spec() -> bool {
        true
    }

    open spec fn from_spec(o: OpId) -> Self {
        ElemId(o)
    }
}

/// A property of a container as its users give it: the name of a property
/// of a map, or an index into a sequence.
#[derive(Debug, Eq, PartialOrd, Ord)]
pub enum Prop {
    /// A property of a map.
    Name(String),
    /// An index into a sequence.
    Index(usize),
}

/// What a property is, to a specification.
pub enum PropView {
    Name(Seq<char>),
    Index(usize),
}

impl View for Prop {
    type V = PropView;

    open spec fn view(&self) -> PropView {
        match self {
            Prop::Name(s) => PropView::Name(s@),
            Prop::Index(n) => PropView::Index(*n),
        }
    }
}

impl PartialEq for Prop {
    fn eq(&self, other: &Self) -> (r: bool) {
        match (self, other) {
            (Prop::Name(a), Prop::Name(b)) => *a == *b,
            (Prop::Index(a), Prop::Index(b)) => *a == *b,
            _ => false,
        }
    }
}

impl PartialEqSpecImpl for Prop {
    open spec fn obeys_eq_spec() -> bool {
        true
    }

    open spec fn eq_spec(&self, other: &Self) -> bool {
        self@ == other@
    }
}

impl Clone for Prop {
    fn clone(&self) -> (prop: Self)
        ensures
            prop@ == self@,
    {
        match self {
            Prop::Name(s) => Prop::Name(s.clone()),
            Prop::Index(n) => Prop::Index(*n),
        }
    }
}

impl PropView {
    /// The property as text: the name, or the index in decimal.
    pub open spec fn text(self) -> Seq<char> {
        match self {
            PropView::Name(s) => s,
            PropView::Index(n) => decimal(n as nat),
        }
    }
}

impl Prop {
    /// The index, for an index into a sequence.
    pub fn to_index(&self) -> (idx: Option<usize>)
        ensures
            idx == (match self@ {
                PropView::Name(_) => None,
                PropView::Index(n) => Some(n),
            }),
    {
        match self {
            Prop::Name(_) => None,
            Prop::Index(n) => Some(*n),
        }
    }

    /// The index that a binary64 number stands for, given by its bit
    /// pattern, as a property: the fraction is cut off, not rounded.
    pub fn from_binary64(bits: u64) -> (prop: Prop)
        ensures
            prop@ == PropView::Index(truncated(bits)),
    {
        Prop::Index(truncate_binary64(bits))
    }

    /// The property as text: the name, or the index in decimal.
    pub fn to_string(&self) -> (s: String)
        ensures
            s@ == self@.text(),
    {
        match self {
            Prop::Name(name) => name.clone(),
            Prop::Index(i) => {
                let mut s = String::new();
                push_decimal(&mut s, *i as u64);
                assert(s@ =~= decimal(*i as nat));
                s
            },
        }
    }
}

impl From<String> for Prop {
    fn from(p: String) -> (prop: Self)
        ensures
            prop@ == PropView::Name(p@),
    {
        Prop::Name(p)
    }
}

impl FromSpecImpl<String> for Prop {
    open spec fn obeys_from_spec() -> bool {
        true
    }

    open spec fn from_spec(p: String) -> Self {
        Prop::Name(p)
    }
}

impl From<&String> for Prop {
    fn from(p: &String) -> (prop: Self)
        ensures
            prop@ == PropView::Name(p@),
    {
        Prop::Name(p.clone())
    }
}

impl FromSpecImpl<&String> for Prop {
    open spec fn obeys_from_spec() -> bool {
        true
    }

    open spec fn from_spec(p: &String) -> Self {
        Prop::Name(*p)
    }
}

impl From<&str> for Prop {
    fn from(p: &str) -> (prop: Self)
        ensures
            prop@ == PropView::Name(p@),
    {
        Prop::Name(String::from_str(p))
    }
}

impl FromSpecImpl<&str> for Prop {
    open spec fn obeys_from_spec() -> bool {
        false
    }

    open spec fn from_spec(p: &str) -> Self {
        arbitrary()
    }
}

impl From<usize> for Prop {
    fn from(index: usize) -> (prop: Self)
        ensures
            prop@ == PropView::Index(index),
    {
        Prop::Index(index)
    }
}

impl FromSpecImpl<usize> for Prop {
    open spec fn obeys_from_spec() -> bool {
        true
    }

    open spec fn from_spec(index: usize) -> Self {
        Prop::Index(index)
    }
}

impl From<&usize> for Prop {
    fn from(index: &usize) -> (prop: Self)
        ensures
            prop@ == PropView::Index(*index),
    {
        Prop::Index(*index)
    }
}

impl FromSpecImpl<&usize> for Prop {
    open spec fn obeys_from_spec() -> bool {
        true
    }

    open spec fn from_spec(index: &usize) -> Self {
        Prop::Index(*index)
    }
}

/// An identifier or key as it is shown to the outside.
#[derive(Debug)]
pub enum Export {
    Id(OpId),
    Special(String),
    Prop(usize),
}

/// What an exported name is, to a specification.
pub enum ExportView {
    Id(OpId),
    Special(Seq<char>),
    Prop(usize),
}

impl View for Export {
    type V = ExportView;

    open spec fn view(&self) -> ExportView {
        match self {
            Export::Id(id) => ExportView::Id(*id),
            Export::Special(s) => ExportView::Special(s@),
            Export::Prop(n) => ExportView::Prop(*n),
        }
    }
}

/// What can be shown to the outside.
pub trait Exportable {
    /// How the value is shown.
    spec fn exported(&self) -> ExportView;

    fn export(&self) -> (e: Export)
        ensures
            e@ == self.exported(),
    ;
}

impl Exportable for ObjId {
    /// The root container goes by its name, any other by its identifier.
    open spec fn exported(&self) -> ExportView {
        if self.0 == OpId(0, 0) {
            ExportView::Special(ROOT_STR@)
        } else {
            ExportView::Id(self.0)
        }
    }

    fn export(&self) -> (e: Export) {
        if self.0 == OpId(0, 0) {
            Export::Special(String::from_str(ROOT_STR))
        } else {
            Export::Id(self.0)
        }
    }
}

impl Exportable for &ObjId {
    open spec fn exported(&self) -> ExportView {
        (**self).exported()
    }

    fn export(&self) -> (e: Export) {
        (**self).export()
    }
}

impl Exportable for ElemId {
    /// The position before a sequence goes by its name, any other by its
    /// identifier.
    open spec fn exported(&self) -> ExportView {
        if self.0 == OpId(0, 0) {
            ExportView::Special(HEAD_STR@)
        } else {
            ExportView::Id(self.0)
        }
    }

    fn export(&self) -> (e: Export) {
        if self.is_head() {
            Export::Special(String::from_str(HEAD_STR))
        } else {
            Export::Id(self.0)
        }
    }
}

impl Exportable for OpId {
    open spec fn exported(&self) -> ExportView {
        ExportView::Id(*self)
    }

    fn export(&self) -> (e: Export) {
        Export::Id(*self)
    }
}

impl Exportable for Key {
    open spec fn exported(&self) -> ExportView {
        match self {
            Key::Prop(p) => ExportView::Prop(*p),
            Key::Elem(e) => e.exported(),
        }
    }

    fn export(&self) -> (e: Export) {
        match self {
            Key::Prop(p) => Export::Prop(*p),
            Key::Elem(e) => e.export(),
        }
    }
}

} // verus!
