//! The kinds of operation and their action codes on the wire.

use crate::error::InvalidOpType;
use crate::marks::{MarkData, MarkDataView};
use crate::obj_type::ObjType;
use crate::scalar::{ScalarValue, ScalarView};
use crate::smol::{smol_as_str, smol_chars};
use smol_str::SmolStr;
use vstd::pervasive::unreached;
use vstd::prelude::*;
use vstd::std_specs::cmp::PartialEqSpecImpl;
use vstd::std_specs::convert::FromSpecImpl;

verus! {

/// What an operation does.
#[derive(Debug)]
pub enum OpType {
    /// Creates a container of the given kind.
    Make(ObjType),
    Delete,
    /// Adds the delta to a counter.
    Increment(i64),
    /// Sets a scalar value.
    Put(ScalarValue),
    /// Begins a formatting span; the flag says whether the span grows with
    /// text inserted at this end.
    MarkBegin(bool, MarkData),
    /// Ends a formatting span; the flag is as for the beginning.
    MarkEnd(bool),
}

/// What the kind of an operation is, to a specification.
pub enum OpTypeView {
    Make(ObjType),
    Delete,
    Increment(i64),
    Put(ScalarView),
    MarkBegin(bool, MarkDataView),
    MarkEnd(bool),
}

impl View for OpType {
    type V = OpTypeView;

    open spec fn view(&self) -> OpTypeView {
        match self {
            OpType::Make(t) => OpTypeView::Make(*t),
            OpType::Delete => OpTypeView::Delete,
            OpType::Increment(n) => OpTypeView::Increment(*n),
            OpType::Put(v) => OpTypeView::Put(v@),
            OpType::MarkBegin(expand, data) => OpTypeView::MarkBegin(*expand, data@),
            OpType::MarkEnd(expand) => OpTypeView::MarkEnd(*expand),
        }
    }
}

impl PartialEq for OpType {
    fn eq(&self, other: &Self) -> (r: bool) {
        match (self, other) {
            (OpType::Make(a), OpType::Make(b)) => *a == *b,
            (OpType::Delete, OpType::Delete) => true,
            (OpType::Increment(a), OpType::Increment(b)) => *a == *b,
            (OpType::Put(a), OpType::Put(b)) => a == b,
            (OpType::MarkBegin(ea, a), OpType::MarkBegin(eb, b)) => *ea == *eb && a == b,
            (OpType::MarkEnd(a), OpType::MarkEnd(b)) => *a == *b,
            _ => false,
        }
    }
}

impl PartialEqSpecImpl for OpType {
    open spec fn obeys_eq_spec() -> bool {
        true
    }

    open spec fn eq_spec(&self, other: &Self) -> bool {
        self@.same_as(other@)
    }
}

impl Clone for OpType {
    fn clone(&self) -> (kind: Self)
        ensures
            kind@ == self@,
    {
        match self {
            OpType::Make(t) => OpType::Make(*t),
            OpType::Delete => OpType::Delete,
            OpType::Increment(n) => OpType::Increment(*n),
            OpType::Put(v) => OpType::Put(v.clone()),
            OpType::MarkBegin(expand, data) => OpType::MarkBegin(*expand, data.clone()),
            OpType::MarkEnd(expand) => OpType::MarkEnd(*expand),
        }
    }
}

/// The signed number with the same 64 bits as `u`.
pub open spec fn reinterpret_signed(u: u64) -> i64 {
    if u <= 0x7fff_ffff_ffff_ffff {
        u as i64
    } else {
        (u - 0x1_0000_0000_0000_0000) as i64
    }
}

/// The glyph that stands in a text for what is no string.
pub open spec fn placeholder() -> Seq<char> {
    seq!['\u{fffc}']
}

impl OpTypeView {
    /// Equality of kinds: the same kind, with equal scalars and equal data
    /// of marks where it carries them.
    pub open spec fn same_as(self, other: OpTypeView) -> bool {
        match (self, other) {
            (OpTypeView::Put(a), OpTypeView::Put(b)) => a.same_as(b),
            (OpTypeView::MarkBegin(ea, a), OpTypeView::MarkBegin(eb, b)) => ea == eb && a.same_as(
                b,
            ),
            _ => self == other,
        }
    }

    /// The action code of each kind on the wire.
    pub open spec fn action_index(self) -> u64 {
        match self {
            OpTypeView::Make(ObjType::Mapping) => 0,
            OpTypeView::Put(_) => 1,
            OpTypeView::Make(ObjType::List) => 2,
            OpTypeView::Delete => 3,
            OpTypeView::Make(ObjType::Text) => 4,
            OpTypeView::Increment(_) => 5,
            OpTypeView::Make(ObjType::Table) => 6,
            OpTypeView::MarkBegin(_, _) => 7,
            OpTypeView::MarkEnd(_) => 7,
        }
    }

    pub open spec fn is_mark(self) -> bool {
        self is MarkBegin || self is MarkEnd
    }

    /// The text an operation of this kind stands for in a sequence of
    /// characters: the string it puts, nothing for a mark, and the
    /// placeholder for anything else.
    pub open spec fn text(self) -> Seq<char> {
        match self {
            OpTypeView::Put(ScalarView::Str(s)) => s,
            OpTypeView::MarkBegin(_, _) => Seq::empty(),
            OpTypeView::MarkEnd(_) => Seq::empty(),
            _ => placeholder(),
        }
    }
}

/// Whether an action code, with the value that comes with it, makes an
/// operation kind, and if not, why not. The code of an increment asks for
/// an integer; codes above 7 are not defined.
pub open spec fn validated(action: u64, value: ScalarView) -> Result<(), InvalidOpType> {
    if action == 5 {
        if value is Int || value is Uint {
            Ok(())
        } else {
            Err(InvalidOpType::NonNumericInc)
        }
    } else if action <= 7 {
        Ok(())
    } else {
        Err(InvalidOpType::UnknownAction(action))
    }
}

/// The operation kind that an accepted action code stands for. Under code
/// 7 the name of a mark tells the beginning of a span from its end.
pub open spec fn decode_action(
    action: u64,
    value: ScalarView,
    mark_name: Option<Seq<char>>,
    expand: bool,
) -> OpTypeView {
    if action == 0 {
        OpTypeView::Make(ObjType::Mapping)
    } else if action == 1 {
        OpTypeView::Put(value)
    } else if action == 2 {
        OpTypeView::Make(ObjType::List)
    } else if action == 3 {
        OpTypeView::Delete
    } else if action == 4 {
        OpTypeView::Make(ObjType::Text)
    } else if action == 5 {
        match value {
            ScalarView::Uint(u) => OpTypeView::Increment(reinterpret_signed(u)),
            ScalarView::Int(i) => OpTypeView::Increment(i),
            _ => arbitrary(),
        }
    } else if action == 6 {
        OpTypeView::Make(ObjType::Table)
    } else {
        match mark_name {
            Some(name) => OpTypeView::MarkBegin(expand, MarkDataView { name, value }),
            None => OpTypeView::MarkEnd(expand),
        }
    }
}

/// The characters of a name, where there is one.
pub open spec fn name_chars(name: Option<SmolStr>) -> Option<Seq<char>> {
    match name {
        Some(n) => Some(smol_chars(n)),
        None => None,
    }
}

/// A kind that a code and a value decode to has that code again.
pub proof fn lemma_decoded_kind_keeps_code(
    action: u64,
    value: ScalarView,
    mark_name: Option<Seq<char>>,
    expand: bool,
)
    requires
        validated(action, value) is Ok,
    ensures
        decode_action(action, value, mark_name, expand).action_index() == action,
{
}

/// Every code that a kind has is accepted again, with the value that the
/// kind carries where it carries one.
pub proof fn lemma_code_of_kind_is_accepted(kind: OpTypeView, value: ScalarView)
    requires
        kind matches OpTypeView::Increment(_) ==> value is Int || value is Uint,
    ensures
        validated(kind.action_index(), value) is Ok,
{
}

impl OpType {
    /// The code of this kind in the action column of the wire format.
    pub fn action_index(&self) -> (code: u64)
        ensures
            code == self@.action_index(),
    {
        match self {
            Self::Make(ObjType::Mapping) => 0,
            Self::Put(_) => 1,
            Self::Make(ObjType::List) => 2,
            Self::Delete => 3,
            Self::Make(ObjType::Text) => 4,
            Self::Increment(_) => 5,
            Self::Make(ObjType::Table) => 6,
            Self::MarkBegin(_, _) | Self::MarkEnd(_) => 7,
        }
    }

    /// Whether the action code, with the value that comes with it, makes an
    /// operation kind.
    pub fn validate_action_and_value(action: u64, value: &ScalarValue) -> (r: Result<
        (),
        InvalidOpType,
    >)
        ensures
            r == validated(action, value@),
    {
        match action {
            0..=4 => Ok(()),
            5 => match value {
                ScalarValue::Int(_) | ScalarValue::Uint(_) => Ok(()),
                _ => Err(InvalidOpType::NonNumericInc),
            },
            6 => Ok(()),
            7 => Ok(()),
            _ => Err(InvalidOpType::UnknownAction(action)),
        }
    }

    /// The operation kind for an action code that
    /// `validate_action_and_value` has accepted with this value.
    pub fn from_action_and_value(
        action: u64,
        value: ScalarValue,
        mark_name: Option<SmolStr>,
        expand: bool,
    ) -> (kind: OpType)
        requires
            validated(action, value@) is Ok,
        ensures
            kind@ == decode_action(action, value@, name_chars(mark_name), expand),
            kind@.action_index() == action,
    {
        match action {
            0 => Self::Make(ObjType::Mapping),
            1 => Self::Put(value),
            2 => Self::Make(ObjType::List),
            3 => Self::Delete,
            4 => Self::Make(ObjType::Text),
            5 => match value {
                ScalarValue::Int(i) => Self::Increment(i),
                ScalarValue::Uint(u) => {
                    if u <= 0x7fff_ffff_ffff_ffff {
                        Self::Increment(u as i64)
                    } else {
                        Self::Increment((u - 0x8000_0000_0000_0000) as i64 + i64::MIN)
                    }
                },
                _ => unreached(),
            },
            6 => Self::Make(ObjType::Table),
            _ => match mark_name {
                Some(name) => Self::MarkBegin(expand, MarkData { name, value }),
                None => Self::MarkEnd(expand),
            },
        }
    }

    /// The text this kind stands for in a sequence of characters.
    pub fn to_str(&self) -> (t: &str)
        ensures
            t@ == self@.text(),
    {
        proof {
            reveal_strlit("");
            reveal_strlit("\u{fffc}");
        }
        if let OpType::Put(ScalarValue::Str(s)) = &self {
            smol_as_str(s)
        } else if self.is_mark() {
            let t = "";
            assert(t@ =~= Seq::<char>::empty());
            t
        } else {
            let t = "\u{fffc}";
            assert(t@ =~= placeholder());
            t
        }
    }

    pub fn is_mark(&self) -> (b: bool)
        ensures
            b == self@.is_mark(),
    {
        matches!(&self, OpType::MarkBegin(_, _) | OpType::MarkEnd(_))
    }
}

impl From<ObjType> for OpType {
    fn from(v: ObjType) -> (kind: Self)
        ensures
            kind@ == OpTypeView::Make(v),
    {
        OpType::Make(v)
    }
}

impl FromSpecImpl<ObjType> for OpType {
    open spec fn obeys_from_spec() -> bool {
        true
    }

    open spec fn from_spec(v: ObjType) -> Self {
        OpType::Make(v)
    }
}

impl From<ScalarValue> for OpType {
    fn from(v: ScalarValue) -> (kind: Self)
        ensures
            kind@ == OpTypeView::Put(v@),
    {
        OpType::Put(v)
    }
}

impl FromSpecImpl<ScalarValue> for OpType {
    open spec fn obeys_from_spec() -> bool {
        true
    }

    open spec fn from_spec(v: ScalarValue) -> Self {
        OpType::Put(v)
    }
}

} // verus!
