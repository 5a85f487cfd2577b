//! Scalar values, counters with their ledger of increments, and the value
//! that an operation shows.

use crate::binary64::{binary64_bits_eq, binary64_eq};
use crate::clock::Clock;
use crate::lex::same_bytes;
use crate::obj_type::ObjType;
use crate::op_id::OpId;
use crate::smol::{smol_as_str, smol_chars, smol_eq};
use crate::text::{
    byte_list, decimal, hex_digits, push_byte_list, push_decimal, push_hex_digits,
    push_signed_decimal, signed_decimal,
};
use smol_str::SmolStr;
use std::borrow::Cow;
use vstd::pervasive::unreached;
use vstd::prelude::*;
use vstd::slice::slice_to_vec;
use vstd::std_specs::cmp::PartialEqSpecImpl;
use vstd::std_specs::convert::FromSpecImpl;
use vstd::string::StringExecFns;

verus! {

/// A counter: the value it started from, its running total, and the ledger
/// of the increments folded into the total, each under the identifier of
/// the operation that made it.
#[derive(Debug)]
pub struct Counter {
    pub start: i64,
    pub current: i64,
    pub increments: Vec<(OpId, i64)>,
}

/// What a counter is, to a specification.
pub struct CounterView {
    pub start: i64,
    pub current: i64,
    pub increments: Seq<(OpId, i64)>,
}

impl View for Counter {
    type V = CounterView;

    open spec fn view(&self) -> CounterView {
        CounterView { start: self.start, current: self.current, increments: self.increments@ }
    }
}

/// The identifiers under which a ledger holds its increments, in order.
pub open spec fn ledger_ids(ledger: Seq<(OpId, i64)>) -> Seq<OpId> {
    ledger.map_values(|e: (OpId, i64)| e.0)
}

/// The sum of those increments of a ledger whose operation `clock` covers.
pub open spec fn covered_sum(ledger: Seq<(OpId, i64)>, clock: Clock) -> int
    decreases ledger.len(),
{
    if ledger.len() == 0 {
        0
    } else {
        covered_sum(ledger.drop_last(), clock) + if clock.covers_spec(ledger.last().0) {
            ledger.last().1 as int
        } else {
            0
        }
    }
}

impl CounterView {
    /// The total as of `clock`: the start and the increments that the clock
    /// covers.
    pub open spec fn total_at(self, clock: Clock) -> int {
        self.start + covered_sum(self.increments, clock)
    }
}

impl Clone for Counter {
    fn clone(&self) -> (c: Self)
        ensures
            c@ == self@,
    {
        Counter {
            start: self.start,
            current: self.current,
            increments: slice_to_vec(self.increments.as_slice()),
        }
    }
}

impl PartialEq for Counter {
    fn eq(&self, other: &Self) -> (r: bool) {
        self.current == other.current
    }
}

impl PartialEqSpecImpl for Counter {
    open spec fn obeys_eq_spec() -> bool {
        true
    }

    /// Counters are equal where they stand at the same total, whatever
    /// they started from and however they got there.
    open spec fn eq_spec(&self, other: &Self) -> bool {
        self.current == other.current
    }
}

impl From<i64> for Counter {
    fn from(n: i64) -> (c: Self)
        ensures
            c@ == (CounterView { start: n, current: n, increments: Seq::empty() }),
    {
        Counter { start: n, current: n, increments: Vec::new() }
    }
}

impl FromSpecImpl<i64> for Counter {
    open spec fn obeys_from_spec() -> bool {
        false
    }

    open spec fn from_spec(n: i64) -> Self {
        arbitrary()
    }
}

impl Counter {
    /// The total as of `clock`, where it is in the range of a counter's
    /// total.
    pub fn checked_value_at(&self, clock: &Clock) -> (total: Option<i64>)
        ensures
            total == (if i64::MIN <= self@.total_at(*clock) <= i64::MAX {
                Some(self@.total_at(*clock) as i64)
            } else {
                None
            }),
    {
        let mut sum: i128 = self.start as i128;
        let mut i: usize = 0;
        while i < self.increments.len()
            invariant
                i <= self.increments.len(),
                sum == self.start + covered_sum(self.increments@.take(i as int), *clock),
                -(i + 1) * 0x8000_0000_0000_0000 <= sum <= (i + 1) * 0x8000_0000_0000_0000,
            decreases self.increments.len() - i,
        {
            let entry = self.increments[i];
            proof {
                let next = self.increments@.take(i + 1);
                assert(next.drop_last() =~= self.increments@.take(i as int));
                assert(next.last() == entry);
            }
            if clock.covers(&entry.0) {
                sum = sum + entry.1 as i128;
            }
            i += 1;
        }
        assert(self.increments@.take(i as int) =~= self.increments@);
        if sum < i64::MIN as i128 || sum > i64::MAX as i128 {
            None
        } else {
            Some(sum as i64)
        }
    }

    /// The total as of `clock`: the start and those increments whose
    /// operation the clock covers.
    pub fn value_at(&self, clock: &Clock) -> (total: i64)
        requires
            i64::MIN <= self@.total_at(*clock) <= i64::MAX,
        ensures
            total == self@.total_at(*clock),
    {
        match self.checked_value_at(clock) {
            Some(total) => total,
            None => unreached(),
        }
    }
}

/// A value without parts.
#[derive(Debug)]
pub enum ScalarValue {
    Bytes(Vec<u8>),
    Str(SmolStr),
    Int(i64),
    Uint(u64),
    /// A binary64 number, held as its bit pattern.
    F64(u64),
    Counter(Counter),
    Timestamp(i64),
    Boolean(bool),
    /// A value of a kind this library does not know, kept as it came.
    Unknown { type_code: u8, bytes: Vec<u8> },
    Null,
}

/// What a scalar value is, to a specification.
pub enum ScalarView {
    Bytes(Seq<u8>),
    Str(Seq<char>),
    Int(i64),
    Uint(u64),
    F64(u64),
    Counter(CounterView),
    Timestamp(i64),
    Boolean(bool),
    Unknown { type_code: u8, bytes: Seq<u8> },
    Null,
}

impl View for ScalarValue {
    type V = ScalarView;

    open spec fn view(&self) -> ScalarView {
        match self {
            ScalarValue::Bytes(b) => ScalarView::Bytes(b@),
            ScalarValue::Str(s) => ScalarView::Str(smol_chars(*s)),
            ScalarValue::Int(i) => ScalarView::Int(*i),
            ScalarValue::Uint(u) => ScalarView::Uint(*u),
            ScalarValue::F64(bits) => ScalarView::F64(*bits),
            ScalarValue::Counter(c) => ScalarView::Counter(c@),
            ScalarValue::Timestamp(t) => ScalarView::Timestamp(*t),
            ScalarValue::Boolean(b) => ScalarView::Boolean(*b),
            ScalarValue::Unknown { type_code, bytes } => ScalarView::Unknown {
                type_code: *type_code,
                bytes: bytes@,
            },
            ScalarValue::Null => ScalarView::Null,
        }
    }
}

impl ScalarView {
    /// The value as text. Bytes stand as a bracketed list in quotes, a
    /// string in quotes, integers in decimal, a counter by its running
    /// total, and a binary64 number by the sixteen hexadecimal digits of
    /// its bit pattern.
    pub open spec fn text(self) -> Seq<char> {
        match self {
            ScalarView::Bytes(b) => "\"["@ + byte_list(b) + "]\""@,
            ScalarView::Str(s) => "\""@ + s + "\""@,
            ScalarView::Int(i) => signed_decimal(i as int),
            ScalarView::Uint(u) => decimal(u as nat),
            ScalarView::F64(bits) => "0x"@ + hex_digits(bits as nat, 16),
            ScalarView::Counter(c) => "Counter: "@ + signed_decimal(c.current as int),
            ScalarView::Timestamp(t) => "Timestamp: "@ + signed_decimal(t as int),
            ScalarView::Boolean(b) => if b {
                "true"@
            } else {
                "false"@
            },
            ScalarView::Unknown { type_code, bytes } => "unknown type "@ + decimal(
                type_code as nat,
            ),
            ScalarView::Null => "null"@,
        }
    }

    /// Equality of scalar values: the same kind and the same content, where
    /// two binary64 numbers compare as numbers do, and two counters by the
    /// totals they stand at.
    pub open spec fn same_as(self, other: ScalarView) -> bool {
        match (self, other) {
            (ScalarView::F64(a), ScalarView::F64(b)) => binary64_eq(a, b),
            (ScalarView::Counter(a), ScalarView::Counter(b)) => a.current == b.current,
            _ => self == other,
        }
    }
}

impl Clone for ScalarValue {
    fn clone(&self) -> (v: Self)
        ensures
            v@ == self@,
    {
        match self {
            ScalarValue::Bytes(b) => ScalarValue::Bytes(slice_to_vec(b.as_slice())),
            ScalarValue::Str(s) => ScalarValue::Str(s.clone()),
            ScalarValue::Int(i) => ScalarValue::Int(*i),
            ScalarValue::Uint(u) => ScalarValue::Uint(*u),
            ScalarValue::F64(bits) => ScalarValue::F64(*bits),
            ScalarValue::Counter(c) => ScalarValue::Counter(c.clone()),
            ScalarValue::Timestamp(t) => ScalarValue::Timestamp(*t),
            ScalarValue::Boolean(b) => ScalarValue::Boolean(*b),
            ScalarValue::Unknown { type_code, bytes } => ScalarValue::Unknown {
                type_code: *type_code,
                bytes: slice_to_vec(bytes.as_slice()),
            },
            ScalarValue::Null => ScalarValue::Null,
        }
    }
}

impl PartialEq for ScalarValue {
    fn eq(&self, other: &Self) -> (r: bool) {
        match (self, other) {
            (ScalarValue::Bytes(a), ScalarValue::Bytes(b)) => same_bytes(a.as_slice(), b.as_slice()),
            (ScalarValue::Str(a), ScalarValue::Str(b)) => smol_eq(a, b),
            (ScalarValue::Int(a), ScalarValue::Int(b)) => *a == *b,
            (ScalarValue::Uint(a), ScalarValue::Uint(b)) => *a == *b,
            (ScalarValue::F64(a), ScalarValue::F64(b)) => binary64_bits_eq(*a, *b),
            (ScalarValue::Counter(a), ScalarValue::Counter(b)) => a == b,
            (ScalarValue::Timestamp(a), ScalarValue::Timestamp(b)) => *a == *b,
            (ScalarValue::Boolean(a), ScalarValue::Boolean(b)) => *a == *b,
            (
                ScalarValue::Unknown { type_code: ta, bytes: ba },
                ScalarValue::Unknown { type_code: tb, bytes: bb },
            ) => *ta == *tb && same_bytes(ba.as_slice(), bb.as_slice()),
            (ScalarValue::Null, ScalarValue::Null) => true,
            _ => false,
        }
    }
}

impl PartialEqSpecImpl for ScalarValue {
    open spec fn obeys_eq_spec() -> bool {
        true
    }

    open spec fn eq_spec(&self, other: &Self) -> bool {
        self@.same_as(other@)
    }
}

impl ScalarValue {
    /// The value as text.
    pub fn to_string(&self) -> (s: String)
        ensures
            s@ == self@.text(),
    {
        match self {
            ScalarValue::Bytes(b) => {
                let mut s = String::from_str("\"[");
                push_byte_list(&mut s, b);
                s.append("]\"");
                s
            },
            ScalarValue::Str(t) => {
                let mut s = String::from_str("\"");
                s.append(smol_as_str(t));
                s.append("\"");
                s
            },
            ScalarValue::Int(i) => {
                let mut s = String::new();
                push_signed_decimal(&mut s, *i);
                assert(s@ =~= signed_decimal(*i as int));
                s
            },
            ScalarValue::Uint(u) => {
                let mut s = String::new();
                push_decimal(&mut s, *u);
                assert(s@ =~= decimal(*u as nat));
                s
            },
            ScalarValue::F64(bits) => {
                let mut s = String::from_str("0x");
                push_hex_digits(&mut s, *bits, 16);
                s
            },
            ScalarValue::Counter(c) => {
                let mut s = String::from_str("Counter: ");
                push_signed_decimal(&mut s, c.current);
                s
            },
            ScalarValue::Timestamp(t) => {
                let mut s = String::from_str("Timestamp: ");
                push_signed_decimal(&mut s, *t);
                s
            },
            ScalarValue::Boolean(b) => {
                if *b {
                    String::from_str("true")
                } else {
                    String::from_str("false")
                }
            },
            ScalarValue::Unknown { type_code, .. } => {
                let mut s = String::from_str("unknown type ");
                push_decimal(&mut s, *type_code as u64);
                s
            },
            ScalarValue::Null => String::from_str("null"),
        }
    }

    /// A counter that starts at `n`, with nothing in its ledger.
    pub fn counter(n: i64) -> (v: ScalarValue)
        ensures
            v@ == ScalarView::Counter(
                CounterView { start: n, current: n, increments: Seq::empty() },
            ),
    {
        ScalarValue::Counter(Counter::from(n))
    }
}

/// The value that an operation shows: a container of some kind, or a
/// scalar.
#[derive(Debug)]
pub enum Value<'a> {
    Object(ObjType),
    Scalar(Cow<'a, ScalarValue>),
}

impl<'a> Clone for Value<'a> {
    fn clone(&self) -> (v: Self)
        ensures
            v@ == self@,
    {
        match self {
            Value::Object(t) => Value::Object(*t),
            Value::Scalar(Cow::Borrowed(s)) => Value::Scalar(Cow::Borrowed(*s)),
            Value::Scalar(Cow::Owned(s)) => Value::Scalar(Cow::Owned(s.clone())),
        }
    }
}

/// What a value is, to a specification.
pub enum ValueView {
    Object(ObjType),
    Scalar(ScalarView),
}

impl ValueView {
    /// Equality of values: containers of the same kind, or scalars that
    /// are equal.
    pub open spec fn same_as(self, other: ValueView) -> bool {
        match (self, other) {
            (ValueView::Object(a), ValueView::Object(b)) => a == b,
            (ValueView::Scalar(a), ValueView::Scalar(b)) => a.same_as(b),
            _ => false,
        }
    }
}

impl<'a> Value<'a> {
    /// The scalar, for a scalar value.
    pub fn as_scalar(&self) -> (s: Option<&ScalarValue>)
        ensures
            match s {
                Some(scalar) => self@ == ValueView::Scalar(scalar@),
                None => self@ is Object,
            },
    {
        match self {
            Value::Object(_) => None,
            Value::Scalar(Cow::Borrowed(s)) => Some(*s),
            Value::Scalar(Cow::Owned(s)) => Some(s),
        }
    }
}

impl<'a> PartialEq for Value<'a> {
    fn eq(&self, other: &Self) -> (r: bool) {
        match (self, other) {
            (Value::Object(a), Value::Object(b)) => *a == *b,
            (Value::Scalar(_), Value::Scalar(_)) => {
                match (self.as_scalar(), other.as_scalar()) {
                    (Some(a), Some(b)) => a == b,
                    _ => false,
                }
            },
            _ => false,
        }
    }
}

impl<'a> PartialEqSpecImpl for Value<'a> {
    open spec fn obeys_eq_spec() -> bool {
        true
    }

    open spec fn eq_spec(&self, other: &Self) -> bool {
        self@.same_as(other@)
    }
}

impl<'a> View for Value<'a> {
    type V = ValueView;

    open spec fn view(&self) -> ValueView {
        match self {
            Value::Object(t) => ValueView::Object(*t),
            Value::Scalar(s) => ValueView::Scalar(s@),
        }
    }
}

impl<'a> Value<'a> {
    /// The value of a counter that stands at `n`.
    pub fn counter(n: i64) -> (v: Value<'a>)
        ensures
            v@ == ValueView::Scalar(
                ScalarView::Counter(CounterView { start: n, current: n, increments: Seq::empty() }),
            ),
    {
        Value::Scalar(Cow::Owned(ScalarValue::counter(n)))
    }
}

} // verus!
