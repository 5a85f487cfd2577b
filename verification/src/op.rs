//! The operation record: what an operation is, which operations it
//! supersedes and is superseded by, and whether it is visible.

use crate::clock::Clock;
use crate::key::Key;
use crate::obj_type::ListEncoding;
use crate::op_id::{ElemId, OpId};
use crate::op_ids::{can_place, insertion_point, other_than, OpIds};
use crate::op_type::{OpType, OpTypeView};
use crate::scalar::{
    ledger_ids, Counter, CounterView, ScalarValue, ScalarView, Value, ValueView,
};
use crate::smol::smol_new;
use crate::text::{push_signed_decimal, signed_decimal};
use std::borrow::Cow;
use std::cmp::Ordering;
use std::collections::HashSet;
use vstd::pervasive::unreached;
use vstd::prelude::*;
use vstd::set_lib::{lemma_len_subset, lemma_subset_equality};
use vstd::std_specs::cmp::PartialEqSpecImpl;
use vstd::string::{StrSliceExecFns, StringExecFns};

verus! {

/// One operation of a document.
#[derive(Debug)]
pub struct Op {
    /// The identifier that the operation got when it was made.
    pub id: OpId,
    /// What it does.
    pub action: OpType,
    /// Where it applies.
    pub key: Key,
    /// The operations that supersede this one.
    pub succ: OpIds,
    /// The operations that this one supersedes.
    pub pred: OpIds,
    /// Whether it inserts a new element after `key`, which then goes by
    /// the operation's own identifier, rather than changing the element
    /// at `key`.
    pub insert: bool,
}

/// What an operation is, to a specification.
pub struct OpView {
    pub id: OpId,
    pub action: OpTypeView,
    pub key: Key,
    pub succ: Seq<OpId>,
    pub pred: Seq<OpId>,
    pub insert: bool,
}

impl View for Op {
    type V = OpView;

    open spec fn view(&self) -> OpView {
        OpView {
            id: self.id,
            action: self.action@,
            key: self.key,
            succ: self.succ@,
            pred: self.pred@,
            insert: self.insert,
        }
    }
}

impl PartialEq for Op {
    fn eq(&self, other: &Self) -> (r: bool) {
        self.id == other.id && self.action == other.action && self.key == other.key && self.succ
            == other.succ && self.pred == other.pred && self.insert == other.insert
    }
}

impl PartialEqSpecImpl for Op {
    open spec fn obeys_eq_spec() -> bool {
        true
    }

    open spec fn eq_spec(&self, other: &Self) -> bool {
        self@.same_as(other@)
    }
}

impl Clone for Op {
    fn clone(&self) -> (op: Self)
        ensures
            op@ == self@,
    {
        Op {
            id: self.id,
            action: self.action.clone(),
            key: self.key,
            succ: self.succ.clone(),
            pred: self.pred.clone(),
            insert: self.insert,
        }
    }
}

/// The test that an entry of a ledger was not made by the operation `id`.
pub open spec fn not_made_by(id: OpId) -> spec_fn((OpId, i64)) -> bool {
    |e: (OpId, i64)| e.0 != id
}

/// The test that an operation has no entry in a ledger.
pub open spec fn not_entered(ledger: Seq<(OpId, i64)>) -> spec_fn(OpId) -> bool {
    |id: OpId| !ledger_ids(ledger).contains(id)
}

/// The entries of a ledger that were not made by the operation `id`.
pub open spec fn ledger_without(ledger: Seq<(OpId, i64)>, id: OpId) -> Seq<(OpId, i64)> {
    ledger.filter(not_made_by(id))
}

/// Whether `clock` covers one of the identifiers.
pub open spec fn covers_any(clock: Clock, ids: Seq<OpId>) -> bool {
    exists|i: int| 0 <= i < ids.len() && clock.covers_spec(#[trigger] ids[i])
}

/// An identifier as one number: the counter in the upper 32 bits and the
/// actor's index in the lower.
pub open spec fn packed(id: OpId) -> u64 {
    (id.0 * 0x1_0000_0000 + id.1) as u64
}

fn pack(id: &OpId) -> (k: u64)
    ensures
        k == packed(*id),
{
    (id.0 as u64) * 0x1_0000_0000 + (id.1 as u64)
}

/// The successors of an operation that count against it, one after the
/// other.
pub struct SuccIter<'a> {
    /// For a counter, the operations in its ledger, each as one number.
    folded: Option<HashSet<u64>>,
    ids: &'a [OpId],
    pos: usize,
}

impl<'a> SuccIter<'a> {
    #[verifier::type_invariant]
    spec fn inv(&self) -> bool {
        self.pos <= self.ids@.len()
    }

    /// The identifiers still to come, in the order in which they come.
    pub closed spec fn rest(&self) -> Seq<OpId> {
        match self.folded {
            Some(folded) => self.ids@.skip(self.pos as int).filter(
                |id: OpId| !folded@.contains(packed(id)),
            ),
            None => self.ids@.skip(self.pos as int),
        }
    }

    /// The next successor that counts, if one is left.
    pub fn next(&mut self) -> (id: Option<&'a OpId>)
        ensures
            match id {
                Some(id) => {
                    &&& old(self).rest().len() > 0
                    &&& *id == old(self).rest()[0]
                    &&& final(self).rest() == old(self).rest().drop_first()
                },
                None => old(self).rest().len() == 0 && final(self).rest().len() == 0,
            },
    {
        broadcast use vstd::std_specs::hash::group_hash_axioms;

        proof {
            use_type_invariant(&*self);
        }
        while self.pos < self.ids.len()
            invariant
                self.pos <= self.ids@.len(),
                self.ids == old(self).ids,
                self.folded == old(self).folded,
                self.rest() == old(self).rest(),
            decreases self.ids@.len() - self.pos,
        {
            let id = &self.ids[self.pos];
            let ghost tail = self.ids@.skip(self.pos + 1);
            proof {
                assert(self.ids@.skip(self.pos as int) =~= seq![*id] + tail);
            }
            self.pos = self.pos + 1;
            let counts = match &self.folded {
                Some(folded) => {
                    proof {
                        tail.lemma_filter_prepend(*id, |id: OpId| !folded@.contains(packed(id)));
                    }
                    !folded.contains(&pack(id))
                },
                None => true,
            };
            if counts {
                assert(old(self).rest() =~= seq![*id] + self.rest());
                assert(self.rest() =~= old(self).rest().drop_first());
                return Some(id);
            }
            assert(self.rest() =~= old(self).rest());
        }
        assert(self.ids@.skip(self.pos as int) =~= Seq::<OpId>::empty());
        None
    }
}

/// Whether `clock` covers one of the successors still to come.
fn any_covered(it: &mut SuccIter, clock: &Clock) -> (b: bool)
    ensures
        b == covers_any(*clock, old(it).rest()),
{
    loop
        invariant
            covers_any(*clock, it.rest()) == covers_any(*clock, old(it).rest()),
        decreases it.rest().len(),
    {
        let ghost before = it.rest();
        match it.next() {
            Some(id) => {
                if clock.covers(id) {
                    assert(clock.covers_spec(before[0]));
                    return true;
                }
                assert forall|i: int| 0 <= i < before.len() && clock.covers_spec(
                    #[trigger] before[i],
                ) implies covers_any(*clock, it.rest()) by {
                    assert(it.rest()[i - 1] == before[i]);
                }
                assert forall|i: int| 0 <= i < it.rest().len() && clock.covers_spec(
                    #[trigger] it.rest()[i],
                ) implies covers_any(*clock, before) by {
                    assert(before[i + 1] == it.rest()[i]);
                }
            },
            None => {
                return false;
            },
        }
    }
}

impl OpView {
    /// Equality of operations: each part equal, the kinds as kinds are.
    pub open spec fn same_as(self, other: OpView) -> bool {
        &&& self.id == other.id
        &&& self.action.same_as(other.action)
        &&& self.key == other.key
        &&& self.succ == other.succ
        &&& self.pred == other.pred
        &&& self.insert == other.insert
    }

    pub open spec fn is_delete(self) -> bool {
        self.action is Delete
    }

    pub open spec fn is_inc(self) -> bool {
        self.action is Increment
    }

    pub open spec fn is_mark(self) -> bool {
        self.action.is_mark()
    }

    /// Whether the operation puts a counter.
    pub open spec fn is_counter(self) -> bool {
        self.action matches OpTypeView::Put(ScalarView::Counter(_))
    }

    /// Whether the operation is neither a counter nor an increment nor a
    /// mark.
    pub open spec fn is_plain(self) -> bool {
        !self.is_counter() && !self.is_inc() && !self.is_mark()
    }

    /// The ledger of increments: that of the counter which the operation
    /// puts, and empty for any other operation.
    pub open spec fn ledger(self) -> Seq<(OpId, i64)> {
        match self.action {
            OpTypeView::Put(ScalarView::Counter(c)) => c.increments,
            _ => Seq::empty(),
        }
    }

    /// The number of increments in the ledger.
    pub open spec fn incs(self) -> nat {
        self.ledger().len()
    }

    /// Whether the operation shows in the document as it stands:
    /// an increment or a mark never does, a counter does while it has no
    /// more successors than increments in its ledger, and any other
    /// operation does while nothing supersedes it.
    pub open spec fn visible(self) -> bool {
        if self.is_inc() || self.is_mark() {
            false
        } else if self.is_counter() {
            self.succ.len() <= self.incs()
        } else {
            self.succ.len() == 0
        }
    }

    /// The successors that count against the operation. A counter leaves
    /// aside those that are increments in its ledger: they are part of its
    /// value and take nothing from it.
    pub open spec fn open_succ(self) -> Seq<OpId> {
        if self.is_counter() {
            self.succ.filter(not_entered(self.ledger()))
        } else {
            self.succ
        }
    }

    /// Whether `clock` covers a successor that counts against the
    /// operation.
    pub open spec fn superseded_at(self, clock: Clock) -> bool {
        covers_any(clock, self.open_succ())
    }

    /// Whether the operation shows in the document as of `clock`: the
    /// clock covers it and none of the successors that count against it.
    /// An increment or a mark never shows. Without a clock the document as
    /// it stands is meant.
    pub open spec fn visible_at(self, clock: Option<&Clock>) -> bool {
        match clock {
            Some(clock) => !self.is_inc() && !self.is_mark() && clock.covers_spec(self.id)
                && !self.superseded_at(*clock),
            None => self.visible(),
        }
    }

    /// As `visible_at`, but a mark passes as any plain operation does.
    pub open spec fn visible_or_mark(self, clock: Option<&Clock>) -> bool {
        if self.is_inc() {
            false
        } else {
            match clock {
                Some(clock) => clock.covers_spec(self.id) && !self.superseded_at(*clock),
                None => if self.is_counter() {
                    self.succ.len() <= self.incs()
                } else {
                    self.succ.len() == 0
                },
            }
        }
    }

    /// Whether the operation has a value to show: all but a deletion and
    /// an increment have.
    pub open spec fn has_value(self) -> bool {
        !(self.action is Delete) && !(self.action is Increment)
    }

    /// The value that the operation shows: the kind of container it
    /// makes, the scalar it puts, or, for a mark, a string that names the
    /// mark's end and the value it begins with.
    pub open spec fn value(self) -> ValueView {
        match self.action {
            OpTypeView::Make(t) => ValueView::Object(t),
            OpTypeView::Put(v) => ValueView::Scalar(v),
            OpTypeView::MarkBegin(_, mark) => ValueView::Scalar(
                ScalarView::Str("markBegin="@ + mark.value.text()),
            ),
            OpTypeView::MarkEnd(_) => ValueView::Scalar(ScalarView::Str("markEnd"@)),
            _ => arbitrary(),
        }
    }

    /// Whether the operation has a value to show as of `clock`, and one
    /// that is in the range of a counter's total where it is a counter.
    pub open spec fn has_value_at(self, clock: Option<&Clock>) -> bool {
        match (clock, self.action) {
            (Some(clock), OpTypeView::Put(ScalarView::Counter(c))) => i64::MIN <= c.total_at(
                *clock,
            ) <= i64::MAX,
            _ => self.has_value(),
        }
    }

    /// The value that the operation shows as of `clock`: for a counter, a
    /// counter that stands at the start and the increments that the clock
    /// covers; for any other operation, and without a clock, its value.
    pub open spec fn value_at(self, clock: Option<&Clock>) -> ValueView {
        match (clock, self.action) {
            (Some(clock), OpTypeView::Put(ScalarView::Counter(c))) => ValueView::Scalar(
                ScalarView::Counter(
                    CounterView {
                        start: c.total_at(*clock) as i64,
                        current: c.total_at(*clock) as i64,
                        increments: Seq::empty(),
                    },
                ),
            ),
            _ => self.value(),
        }
    }

    /// Whether a span may take in what is inserted next to this end of
    /// it: nothing supersedes the mark, and it begins a span that grows at
    /// its beginning or ends one that does not grow at its end.
    pub open spec fn valid_mark_anchor(self) -> bool {
        self.succ.len() == 0 && match self.action {
            OpTypeView::MarkBegin(expand, _) => expand,
            OpTypeView::MarkEnd(expand) => !expand,
            _ => false,
        }
    }

    /// Whether `other` is among the operations that this one supersedes.
    pub open spec fn overwrites(self, other: OpView) -> bool {
        self.pred.contains(other.id)
    }

    /// The element of a sequence that the operation is about: the one it
    /// inserts, or the one it changes.
    pub open spec fn elemid(self) -> Option<ElemId> {
        if self.insert {
            Some(ElemId(self.id))
        } else {
            match self.key {
                Key::Elem(e) => Some(e),
                Key::Prop(_) => None,
            }
        }
    }

    /// The width of the operation in a sequence: one in a list, and the
    /// number of characters of its text in a text.
    pub open spec fn width(self, encoding: ListEncoding) -> nat {
        match encoding {
            ListEncoding::List => 1,
            ListEncoding::Text => self.action.text().len(),
        }
    }

    /// A short description of the operation.
    pub open spec fn dump(self) -> Seq<char> {
        match self.action {
            OpTypeView::Put(value) => if self.insert {
                "i:"@ + value.text()
            } else {
                "s:"@ + value.text()
            },
            OpTypeView::Make(obj) => "make"@ + obj.name(),
            OpTypeView::Increment(val) => "inc:"@ + signed_decimal(val as int),
            OpTypeView::Delete => "del"@,
            OpTypeView::MarkBegin(_, _) => "markBegin"@,
            OpTypeView::MarkEnd(_) => "markEnd"@,
        }
    }

    /// Whether the ledger and the successors agree: no successor is filed
    /// twice, no operation has two entries in the ledger, and each
    /// operation with an entry in the ledger is a successor.
    pub open spec fn wf(self) -> bool {
        &&& self.succ.no_duplicates()
        &&& ledger_ids(self.ledger()).no_duplicates()
        &&& forall|id: OpId| #[trigger]
            ledger_ids(self.ledger()).contains(id) ==> self.succ.contains(id)
    }

    /// Whether a delta can be folded into the operation without leaving the
    /// range of a counter's total. Only a counter has a total to leave.
    pub open spec fn can_fold(self, n: int) -> bool {
        self.action matches OpTypeView::Put(ScalarView::Counter(c)) ==> i64::MIN <= c.current + n
            <= i64::MAX
    }

    /// The operation with the delta `n` of the operation `id` folded into
    /// its counter; an operation that puts no counter stays as it is.
    pub open spec fn with_increment(self, id: OpId, n: i64) -> OpView {
        match self.action {
            OpTypeView::Put(ScalarView::Counter(c)) => OpView {
                action: OpTypeView::Put(
                    ScalarView::Counter(
                        CounterView {
                            start: c.start,
                            current: (c.current + n) as i64,
                            increments: c.increments.push((id, n)),
                        },
                    ),
                ),
                ..self
            },
            _ => self,
        }
    }

    /// The operation with the delta `n` of the operation `id` taken out of
    /// its counter again, and out of the ledger whatever `id` has there.
    pub open spec fn without_increment(self, id: OpId, n: i64) -> OpView {
        match self.action {
            OpTypeView::Put(ScalarView::Counter(c)) => OpView {
                action: OpTypeView::Put(
                    ScalarView::Counter(
                        CounterView {
                            start: c.start,
                            current: (c.current - n) as i64,
                            increments: ledger_without(c.increments, id),
                        },
                    ),
                ),
                ..self
            },
            _ => self,
        }
    }

    /// Whether linking `other` as a successor stays within the range of a
    /// counter's total.
    pub open spec fn can_link(self, other: OpView) -> bool {
        other.action matches OpTypeView::Increment(n) ==> self.can_fold(n as int)
    }

    /// Whether taking the link to `other` away stays within the range of a
    /// counter's total.
    pub open spec fn can_unlink(self, other: OpView) -> bool {
        other.action matches OpTypeView::Increment(n) ==> self.can_fold(-n)
    }

    /// The operation after `other` was linked as a successor and filed
    /// at place `idx`: where `other` is an increment, its delta is folded
    /// in as well.
    pub open spec fn linked(self, other: OpView, idx: int) -> OpView {
        let filed = OpView { succ: self.succ.insert(idx, other.id), ..self };
        match other.action {
            OpTypeView::Increment(n) => filed.with_increment(other.id, n),
            _ => filed,
        }
    }

    /// The operation after the link to `other` was taken away: `other` is
    /// no successor any more, and where it is an increment, its delta is
    /// taken out as well.
    pub open spec fn unlinked(self, other: OpView) -> OpView {
        let cut = OpView { succ: self.succ.filter(other_than(other.id)), ..self };
        match other.action {
            OpTypeView::Increment(n) => cut.without_increment(other.id, n),
            _ => cut,
        }
    }
}

/// A filter that every element passes takes nothing out.
pub(crate) proof fn lemma_filter_keeps_all<A>(s: Seq<A>, p: spec_fn(A) -> bool)
    requires
        forall|i: int| 0 <= i < s.len() ==> p(#[trigger] s[i]),
    ensures
        s.filter(p) == s,
    decreases s.len(),
{
    reveal(Seq::filter);
    if s.len() > 0 {
        lemma_filter_keeps_all(s.drop_last(), p);
        assert(s.drop_last().push(s.last()) =~= s);
    }
}

/// What a filter refuses can be put in anywhere and is taken out again.
proof fn lemma_filter_drops_inserted<A>(s: Seq<A>, i: int, x: A, p: spec_fn(A) -> bool)
    requires
        0 <= i <= s.len(),
        !p(x),
    ensures
        s.insert(i, x).filter(p) == s.filter(p),
{
    let front = s.take(i);
    let back = s.skip(i);
    assert(front + back =~= s);
    assert(s.insert(i, x) =~= front + (seq![x] + back));
    Seq::filter_distributes_over_add(front, seq![x] + back, p);
    Seq::filter_distributes_over_add(front, back, p);
    back.lemma_filter_prepend(x, p);
    assert(Seq::<A>::empty() + back.filter(p) =~= back.filter(p));
}

/// Taking an identifier out of successors among which it was just filed
/// leaves none of it, and leaves the successors as they were where it was
/// not among them before.
proof fn lemma_filed_then_taken_out(succ: Seq<OpId>, id: OpId, idx: int)
    requires
        0 <= idx <= succ.len(),
    ensures
        succ.insert(idx, id).contains(id),
        !succ.insert(idx, id).filter(other_than(id)).contains(id),
        !succ.contains(id) ==> succ.insert(idx, id).filter(other_than(id)) == succ,
{
    let keep = other_than(id);
    let filed = succ.insert(idx, id);
    assert(filed[idx] == id);
    if filed.filter(keep).contains(id) {
        let i = choose|i: int| 0 <= i < filed.filter(keep).len() && filed.filter(keep)[i] == id;
        filed.lemma_filter_pred(keep, i);
    }
    if !succ.contains(id) {
        lemma_filter_drops_inserted(succ, idx, id, keep);
        lemma_filter_keeps_all(succ, keep);
    }
}

/// Taking the entries of an operation out of a ledger in which it has just
/// been entered leaves the ledger as it was, where the operation had no
/// entry before.
proof fn lemma_entered_then_taken_out(ledger: Seq<(OpId, i64)>, id: OpId, n: i64)
    requires
        !ledger_ids(ledger).contains(id),
    ensures
        ledger_without(ledger.push((id, n)), id) == ledger,
{
    let keep = not_made_by(id);
    assert forall|i: int| 0 <= i < ledger.len() implies keep(#[trigger] ledger[i]) by {
        assert(ledger_ids(ledger)[i] == ledger[i].0);
    }
    lemma_filter_keeps_all(ledger, keep);
    ledger.lemma_filter_push((id, n), keep);
}

/// Linking and unlinking are inverse. After `other` is linked to `op` it
/// is among the successors of `op`; after the link is taken away again it
/// is not, and `op` does what it did before: for a counter and an
/// increment, the running total and the ledger are what they were. Where
/// `other` was no successor of `op` before, all of `op` is as it was.
///
/// An increment that has an entry in the ledger already is left out: the
/// second link enters it once more, and unlinking takes both entries.
pub proof fn lemma_unlink_undoes_link(op: OpView, other: OpView, idx: int)
    requires
        0 <= idx <= op.succ.len(),
        op.can_link(other),
        op.is_counter() && other.is_inc() ==> !ledger_ids(op.ledger()).contains(other.id),
    ensures
        op.linked(other, idx).succ.contains(other.id),
        op.linked(other, idx).can_unlink(other),
        !op.linked(other, idx).unlinked(other).succ.contains(other.id),
        op.linked(other, idx).unlinked(other).action == op.action,
        !op.succ.contains(other.id) ==> op.linked(other, idx).unlinked(other) == op,
{
    lemma_filed_then_taken_out(op.succ, other.id, idx);
    if let OpTypeView::Increment(n) = other.action {
        if let OpTypeView::Put(ScalarView::Counter(c)) = op.action {
            lemma_entered_then_taken_out(c.increments, other.id, n);
        }
    }
}

/// What a filter lets through stays where it was put in, among what else
/// the filter lets through.
proof fn lemma_filter_keeps_inserted<A>(s: Seq<A>, i: int, x: A, p: spec_fn(A) -> bool)
    requires
        0 <= i <= s.len(),
        p(x),
    ensures
        s.take(i).filter(p).len() <= s.filter(p).len(),
        s.insert(i, x).filter(p) == s.filter(p).insert(s.take(i).filter(p).len() as int, x),
{
    let front = s.take(i);
    let back = s.skip(i);
    assert(front + back =~= s);
    assert(s.insert(i, x) =~= front + (seq![x] + back));
    Seq::filter_distributes_over_add(front, seq![x] + back, p);
    Seq::filter_distributes_over_add(front, back, p);
    back.lemma_filter_prepend(x, p);
    assert(front.filter(p) + (seq![x] + back.filter(p)) =~= (front.filter(p) + back.filter(
        p,
    )).insert(front.filter(p).len() as int, x));
}

/// Links are taken away in any order. After two operations were linked
/// to `op`, one after the other, and the links taken away again, the one
/// that came first going first, `op` is as it was; and so it is where the
/// one that came last goes first.
///
/// Both are operations that were no successors of `op` before and have no
/// entry in its ledger, and the total of a counter stays in its range at
/// each step.
pub proof fn lemma_unlink_in_either_order(op: OpView, b: OpView, i: int, c: OpView, j: int)
    requires
        0 <= i <= op.succ.len(),
        0 <= j <= op.succ.len() + 1,
        b.id != c.id,
        !op.succ.contains(b.id),
        !op.succ.contains(c.id),
        !ledger_ids(op.ledger()).contains(b.id),
        !ledger_ids(op.ledger()).contains(c.id),
        op.can_link(b),
        op.linked(b, i).can_link(c),
        op.linked(b, i).linked(c, j).can_unlink(b),
    ensures
        op.linked(b, i).linked(c, j).unlinked(b).unlinked(c) == op,
        op.linked(b, i).linked(c, j).unlinked(c).unlinked(b) == op,
{
    let one = op.linked(b, i);
    let two = one.linked(c, j);
    // the one that came last goes first: each link is undone in turn
    assert(!one.succ.contains(c.id)) by {
        if one.succ.contains(c.id) {
            let k = choose|k: int| 0 <= k < one.succ.len() && one.succ[k] == c.id;
            let k0 = if k < i { k } else { k - 1 };
            assert(op.succ[k0] == c.id);
        }
    }
    assert(!ledger_ids(one.ledger()).contains(c.id)) by {
        let ids = ledger_ids(one.ledger());
        if ids.contains(c.id) {
            let k = choose|k: int| 0 <= k < ids.len() && ids[k] == c.id;
            if k < op.ledger().len() {
                assert(ledger_ids(op.ledger())[k] == c.id);
            }
        }
    }
    lemma_unlink_undoes_link(one, c, j);
    lemma_unlink_undoes_link(op, b, i);
    // the one that came first goes first
    let keep_b = other_than(b.id);
    lemma_filter_keeps_inserted(one.succ, j, c.id, keep_b);
    lemma_filed_then_taken_out(op.succ, b.id, i);
    let at = one.succ.take(j).filter(keep_b).len() as int;
    assert(two.succ.filter(keep_b) == op.succ.insert(at, c.id));
    lemma_filed_then_taken_out(op.succ, c.id, at);
    if let OpTypeView::Put(ScalarView::Counter(counter)) = op.action {
        let ledger = counter.increments;
        if let OpTypeView::Increment(nb) = b.action {
            if let OpTypeView::Increment(nc) = c.action {
                ledger.push((b.id, nb)).lemma_filter_push((c.id, nc), not_made_by(b.id));
                lemma_entered_then_taken_out(ledger, b.id, nb);
                lemma_entered_then_taken_out(ledger, c.id, nc);
            } else {
                lemma_entered_then_taken_out(ledger, b.id, nb);
            }
        } else {
            if let OpTypeView::Increment(nc) = c.action {
                lemma_entered_then_taken_out(ledger, c.id, nc);
            }
        }
    }
}

/// An operation that nothing supersedes yet, with nothing in its ledger,
/// has its ledger and its successors in agreement.
pub proof fn lemma_fresh_op_is_wf(op: OpView)
    requires
        op.succ.len() == 0,
        op.ledger().len() == 0,
    ensures
        op.wf(),
{
}

/// Linking an operation that was no successor before keeps the ledger and
/// the successors in agreement.
pub proof fn lemma_link_keeps_wf(op: OpView, other: OpView, idx: int)
    requires
        op.wf(),
        0 <= idx <= op.succ.len(),
        !op.succ.contains(other.id),
    ensures
        op.linked(other, idx).wf(),
{
    let after = op.linked(other, idx);
    let filed = op.succ.insert(idx, other.id);
    assert(after.succ == filed);
    assert forall|i: int, j: int| 0 <= i < j < filed.len() implies filed[i] != filed[j] by {
        let i0 = if i < idx { i } else { i - 1 };
        let j0 = if j < idx { j } else { j - 1 };
        if i != idx && j != idx {
            assert(filed[i] == op.succ[i0] && filed[j] == op.succ[j0]);
        } else if i == idx {
            assert(filed[j] == op.succ[j0]);
        } else {
            assert(filed[i] == op.succ[i0]);
        }
    }
    assert forall|id: OpId| op.succ.contains(id) implies filed.contains(id) by {
        let i = choose|i: int| 0 <= i < op.succ.len() && op.succ[i] == id;
        let i1 = if i < idx { i } else { i + 1 };
        assert(filed[i1] == id);
    }
    assert(filed[idx] == other.id);
    let before = ledger_ids(op.ledger());
    let ids = ledger_ids(after.ledger());
    if op.is_counter() && other.is_inc() {
        assert(!before.contains(other.id));
        assert(ids =~= before.push(other.id));
        assert forall|id: OpId| #[trigger] ids.contains(id) implies filed.contains(id) by {
            let i = choose|i: int| 0 <= i < ids.len() && ids[i] == id;
            if i < before.len() {
                assert(before[i] == id);
                assert(before.contains(id));
            }
        }
    } else {
        assert(ids == before);
    }
}

/// Taking a link away keeps the ledger and the successors in agreement.
/// Left out is the unlinking, from a counter, of what is no increment and
/// yet has an entry in the ledger: its entry would stay behind.
pub proof fn lemma_unlink_keeps_wf(op: OpView, other: OpView)
    requires
        op.wf(),
        op.is_counter() && !other.is_inc() ==> !ledger_ids(op.ledger()).contains(other.id),
    ensures
        op.unlinked(other).wf(),
{
    broadcast use {Seq::lemma_filter_contains_rev, Seq::lemma_filter_contains};

    let after = op.unlinked(other);
    let keep = other_than(other.id);
    lemma_filter_keeps_distinct(op.succ, keep);
    let before = ledger_ids(op.ledger());
    let ids = ledger_ids(after.ledger());
    if op.is_counter() && other.is_inc() {
        lemma_ledger_ids_of_filtered(op.ledger(), other.id);
        assert(ids == before.filter(keep));
        lemma_filter_keeps_distinct(before, keep);
        assert forall|id: OpId| #[trigger] ids.contains(id) implies after.succ.contains(id) by {
            assert(before.filter(keep).contains(id));
            assert(before.contains(id));
            let i = choose|i: int| 0 <= i < ids.len() && ids[i] == id;
            before.lemma_filter_pred(keep, i);
            let j = choose|j: int| 0 <= j < op.succ.len() && op.succ[j] == id;
            op.succ.lemma_filter_contains(keep, j);
        }
    } else {
        assert(ids == before);
        assert forall|id: OpId| #[trigger] ids.contains(id) implies after.succ.contains(id) by {
            let j = choose|j: int| 0 <= j < op.succ.len() && op.succ[j] == id;
            op.succ.lemma_filter_contains(keep, j);
        }
    }
}

/// What is left of a sequence without duplicates has none.
proof fn lemma_filter_keeps_distinct<A>(s: Seq<A>, p: spec_fn(A) -> bool)
    requires
        s.no_duplicates(),
    ensures
        s.filter(p).no_duplicates(),
    decreases s.len(),
{
    broadcast use Seq::lemma_filter_contains_rev;

    reveal(Seq::filter);
    if s.len() > 0 {
        lemma_filter_keeps_distinct(s.drop_last(), p);
        let rest = s.drop_last().filter(p);
        if p(s.last()) {
            if rest.contains(s.last()) {
                assert(s.drop_last().contains(s.last()));
                let i = choose|i: int| 0 <= i < s.len() - 1 && s.drop_last()[i] == s.last();
                assert(s[i] == s[s.len() - 1]);
            }
            assert forall|i: int, j: int|
                0 <= i < j < rest.push(s.last()).len() implies rest.push(s.last())[i]
                != rest.push(s.last())[j] by {
                if j == rest.len() {
                    assert(rest.contains(rest[i]));
                }
            }
        }
    }
}

/// The operations with an entry in a ledger from which those of `id` were
/// taken out are the operations that had one before, without `id`.
proof fn lemma_ledger_ids_of_filtered(ledger: Seq<(OpId, i64)>, id: OpId)
    ensures
        ledger_ids(ledger_without(ledger, id)) == ledger_ids(ledger).filter(other_than(id)),
    decreases ledger.len(),
{
    reveal(Seq::filter);
    let keep = other_than(id);
    if ledger.len() > 0 {
        lemma_ledger_ids_of_filtered(ledger.drop_last(), id);
        assert(ledger_ids(ledger).drop_last() =~= ledger_ids(ledger.drop_last()));
        assert(ledger_ids(ledger).last() == ledger.last().0);
        assert(ledger_ids(ledger_without(ledger, id)) =~= ledger_ids(ledger).filter(keep));
    } else {
        assert(ledger_ids(ledger_without(ledger, id)) =~= ledger_ids(ledger).filter(keep));
    }
}

/// For a counter whose ledger and successors agree, to have no more
/// successors than increments is to have no successor that is not an
/// increment in the ledger.
pub proof fn lemma_counter_visible_when_all_folded(op: OpView)
    requires
        op.wf(),
        op.is_counter(),
    ensures
        op.succ.len() <= op.incs() <==> op.open_succ().len() == 0,
{
    broadcast use {vstd::seq_lib::seq_to_set_is_finite, Seq::lemma_filter_contains};

    let ids = ledger_ids(op.ledger());
    let keep = not_entered(op.ledger());
    ids.unique_seq_to_set();
    op.succ.unique_seq_to_set();
    assert(ids.to_set().subset_of(op.succ.to_set()));
    if op.succ.len() <= op.incs() {
        lemma_len_subset(ids.to_set(), op.succ.to_set());
        lemma_subset_equality(ids.to_set(), op.succ.to_set());
        assert forall|i: int| 0 <= i < op.succ.len() implies !keep(#[trigger] op.succ[i]) by {
            assert(op.succ.to_set().contains(op.succ[i]));
            assert(ids.to_set().contains(op.succ[i]));
        }
        if op.succ.filter(keep).len() > 0 {
            op.succ.lemma_filter_pred(keep, 0);
            let x = op.succ.filter(keep)[0];
            assert(op.succ.filter(keep).contains(x));
            op.succ.lemma_filter_contains_rev(keep, x);
            let i = choose|i: int| 0 <= i < op.succ.len() && op.succ[i] == x;
            assert(!keep(op.succ[i]));
        }
    }
    if op.open_succ().len() == 0 {
        assert forall|id: OpId| op.succ.to_set().contains(id) implies ids.to_set().contains(
            id,
        ) by {
            let i = choose|i: int| 0 <= i < op.succ.len() && op.succ[i] == id;
            if keep(op.succ[i]) {
                op.succ.lemma_filter_contains(keep, i);
            }
        }
        lemma_len_subset(op.succ.to_set(), ids.to_set());
    }
}

/// As of a clock that covers every operation, an operation whose ledger
/// and successors agree is visible exactly when it is visible in the
/// document as it stands.
pub proof fn lemma_visible_at_clock_that_covers_all(op: OpView, clock: Clock)
    requires
        op.wf(),
        clock.covers_all(),
    ensures
        op.visible_at(Some(&clock)) == op.visible(),
        op.visible_or_mark(Some(&clock)) == op.visible_or_mark(None),
{
    let open = op.open_succ();
    if open.len() > 0 {
        assert(clock.covers_spec(open[0]));
    }
    assert(op.superseded_at(clock) == (open.len() > 0));
    if op.is_counter() {
        lemma_counter_visible_when_all_folded(op);
    }
}

impl Op {
    /// Links `op` as a successor: files its identifier among the
    /// successors where `order` places it, and, where `op` is an increment,
    /// folds its delta into the counter.
    pub fn add_succ<F: Fn(&OpId, &OpId) -> Ordering>(&mut self, op: &Op, order: F)
        requires
            can_place(old(self)@.succ, op.id, order),
            old(self)@.can_link(op@),
        ensures
            exists|idx: int|
                insertion_point(old(self)@.succ, op.id, order, idx) && final(self)@ == old(
                    self,
                )@.linked(op@, idx),
            old(self)@.wf() && !old(self)@.succ.contains(op.id) ==> final(self)@.wf(),
    {
        self.succ.add(op.id, order);
        let ghost idx = choose|idx: int|
            insertion_point(old(self)@.succ, op.id, order, idx) && self.succ@ == old(
                self,
            )@.succ.insert(idx, op.id);
        if let OpType::Increment(n) = &op.action {
            self.increment(*n, op.id);
        }
        assert(self@ == old(self)@.linked(op@, idx));
        proof {
            if old(self)@.wf() && !old(self)@.succ.contains(op.id) {
                lemma_link_keeps_wf(old(self)@, op@, idx);
            }
        }
    }

    /// Folds the delta `n` of the operation `id` into the counter: adds it
    /// to the running total and enters it in the ledger. An operation that
    /// puts no counter stays as it is.
    pub fn increment(&mut self, n: i64, id: OpId)
        requires
            old(self)@.can_fold(n as int),
        ensures
            final(self)@ == old(self)@.with_increment(id, n),
    {
        if let OpType::Put(ScalarValue::Counter(c)) = &mut self.action {
            c.current = c.current + n;
            c.increments.push((id, n));
        }
    }

    /// Takes the link to `op` away: `op` is no successor any more, and
    /// where `op` is an increment and this a counter, the delta leaves the
    /// running total and the ledger.
    pub fn remove_succ(&mut self, op: &Op)
        requires
            old(self)@.can_unlink(op@),
        ensures
            final(self)@ == old(self)@.unlinked(op@),
            old(self)@.wf() && (op@.is_inc() || !ledger_ids(old(self)@.ledger()).contains(op.id))
                ==> final(self)@.wf(),
    {
        proof {
            if old(self)@.wf() && (op@.is_inc() || !ledger_ids(old(self)@.ledger()).contains(
                op.id,
            )) {
                lemma_unlink_keeps_wf(old(self)@, op@);
            }
        }
        self.succ.remove(&op.id);
        if let OpType::Put(ScalarValue::Counter(c)) = &mut self.action {
            if let OpType::Increment(n) = &op.action {
                c.current = c.current - *n;
                let ghost before = c.increments@;
                let mut kept: Vec<(OpId, i64)> = Vec::new();
                let mut i: usize = 0;
                while i < c.increments.len()
                    invariant
                        c.increments@ == before,
                        i <= c.increments.len(),
                        kept@ == ledger_without(c.increments@.take(i as int), op.id),
                    decreases c.increments.len() - i,
                {
                    let entry = c.increments[i];
                    proof {
                        let next = c.increments@.take(i + 1);
                        assert(next.drop_last() =~= c.increments@.take(i as int));
                        assert(next.last() == entry);
                        reveal(Seq::filter);
                    }
                    if entry.0 != op.id {
                        kept.push(entry);
                    }
                    i += 1;
                }
                assert(c.increments@.take(i as int) =~= c.increments@);
                c.increments = kept;
            }
        }
    }

    /// Whether the operation shows in the document as it stands.
    pub fn visible(&self) -> (b: bool)
        ensures
            b == self@.visible(),
            self@.is_plain() ==> b == (self@.succ.len() == 0),
            self@.is_counter() ==> b == (self@.succ.len() <= self@.incs()),
            self@.is_inc() || self@.is_mark() ==> !b,
    {
        if self.is_inc() || self.is_mark() {
            false
        } else if self.is_counter() {
            self.succ.len() <= self.incs()
        } else {
            self.succ.is_empty()
        }
    }

    /// The successors that count against the operation, one after the
    /// other.
    pub fn succ_iter(&self) -> (it: SuccIter<'_>)
        ensures
            it.rest() == self@.open_succ(),
    {
        broadcast use vstd::std_specs::hash::group_hash_axioms;

        if let OpType::Put(ScalarValue::Counter(c)) = &self.action {
            let mut folded: HashSet<u64> = HashSet::new();
            let mut i: usize = 0;
            while i < c.increments.len()
                invariant
                    i <= c.increments.len(),
                    forall|k: u64|
                        folded@.contains(k) <==> exists|j: int|
                            0 <= j < i && packed(#[trigger] c.increments@[j].0) == k,
                decreases c.increments.len() - i,
            {
                let entry = c.increments[i];
                folded.insert(pack(&entry.0));
                i += 1;
            }
            let it = SuccIter { folded: Some(folded), ids: self.succ.as_slice(), pos: 0 };
            proof {
                let ids = ledger_ids(c.increments@);
                let by_key = |id: OpId| !folded@.contains(packed(id));
                let by_id = not_entered(c.increments@);
                assert forall|id: OpId| #[trigger] by_key(id) == by_id(id) by {
                    if ids.contains(id) {
                        let j = choose|j: int| 0 <= j < ids.len() && ids[j] == id;
                        assert(packed(c.increments@[j].0) == packed(id));
                    }
                    if folded@.contains(packed(id)) {
                        let j = choose|j: int|
                            0 <= j < i && packed(#[trigger] c.increments@[j].0) == packed(id);
                        assert(ids[j] == id);
                    }
                }
                assert(by_key =~= by_id);
                assert(self.succ@.skip(0) =~= self.succ@);
            }
            it
        } else {
            proof {
                assert(self.succ@.skip(0) =~= self.succ@);
            }
            SuccIter { folded: None, ids: self.succ.as_slice(), pos: 0 }
        }
    }

    /// Whether the operation shows in the document as of `clock`, or, with
    /// no clock, as it stands.
    pub fn visible_at(&self, clock: Option<&Clock>) -> (b: bool)
        ensures
            b == self@.visible_at(clock),
    {
        if let Some(clock) = clock {
            if self.is_inc() || self.is_mark() {
                false
            } else {
                clock.covers(&self.id) && !any_covered(&mut self.succ_iter(), clock)
            }
        } else {
            self.visible()
        }
    }

    /// As `visible_at`, but a mark passes as any plain operation does:
    /// spans are worked out from what this lets through.
    pub fn visible_or_mark(&self, clock: Option<&Clock>) -> (b: bool)
        ensures
            b == self@.visible_or_mark(clock),
    {
        if self.is_inc() {
            false
        } else if let Some(clock) = clock {
            clock.covers(&self.id) && !any_covered(&mut self.succ_iter(), clock)
        } else if self.is_counter() {
            self.succ.len() <= self.incs()
        } else {
            self.succ.is_empty()
        }
    }

    /// Whether `clock` covers a successor that counts against the
    /// operation.
    pub fn was_deleted_before(&self, clock: &Clock) -> (b: bool)
        ensures
            b == self@.superseded_at(*clock),
    {
        any_covered(&mut self.succ_iter(), clock)
    }

    /// Whether `clock` covers the operation itself.
    pub fn predates(&self, clock: &Clock) -> (b: bool)
        ensures
            b == clock.covers_spec(self.id),
    {
        clock.covers(&self.id)
    }

    /// The number of increments in the ledger of the counter; none where
    /// the operation puts no counter.
    pub fn incs(&self) -> (n: usize)
        ensures
            n == self@.incs(),
    {
        if let OpType::Put(ScalarValue::Counter(Counter { increments, .. })) = &self.action {
            increments.len()
        } else {
            0
        }
    }

    pub fn is_delete(&self) -> (b: bool)
        ensures
            b == self@.is_delete(),
    {
        matches!(&self.action, OpType::Delete)
    }

    pub fn is_inc(&self) -> (b: bool)
        ensures
            b == self@.is_inc(),
    {
        matches!(&self.action, OpType::Increment(_))
    }

    pub fn is_counter(&self) -> (b: bool)
        ensures
            b == self@.is_counter(),
    {
        matches!(&self.action, OpType::Put(ScalarValue::Counter(_)))
    }

    pub fn is_mark(&self) -> (b: bool)
        ensures
            b == self@.is_mark(),
    {
        self.action.is_mark()
    }

    /// Whether a span may take in what is inserted next to this end of
    /// it.
    pub fn valid_mark_anchor(&self) -> (b: bool)
        ensures
            b == self@.valid_mark_anchor(),
    {
        self.succ.is_empty() && matches!(
            &self.action,
            OpType::MarkBegin(true, _) | OpType::MarkEnd(false)
        )
    }

    /// Whether to do `action` after this operation would change nothing:
    /// both put a scalar, and the same one.
    pub fn is_noop(&self, action: &OpType) -> (b: bool)
        ensures
            b == match (self@.action, action@) {
                (OpTypeView::Put(n), OpTypeView::Put(m)) => n.same_as(m),
                _ => false,
            },
    {
        match (&self.action, action) {
            (OpType::Put(n), OpType::Put(m)) => n == m,
            _ => false,
        }
    }

    /// Whether the operation applies to an element of a sequence.
    pub fn is_list_op(&self) -> (b: bool)
        ensures
            b == (self.key is Elem),
    {
        matches!(&self.key, Key::Elem(_))
    }

    /// Whether `other` is among the operations that this one supersedes.
    pub fn overwrites(&self, other: &Op) -> (b: bool)
        ensures
            b == self@.overwrites(other@),
    {
        self.pred.contains(&other.id)
    }

    /// The element of a sequence that the operation is about.
    pub fn elemid(&self) -> (e: Option<ElemId>)
        ensures
            e == self@.elemid(),
    {
        if self.insert {
            Some(ElemId(self.id))
        } else if let Key::Elem(e) = self.key {
            Some(e)
        } else {
            None
        }
    }

    /// The key under which the operation is found afterwards: the element
    /// it inserts, or else the key it applies to.
    pub fn elemid_or_key(&self) -> (key: Key)
        ensures
            key == (if self.insert {
                Key::Elem(ElemId(self.id))
            } else {
                self.key
            }),
    {
        if self.insert {
            Key::Elem(ElemId(self.id))
        } else {
            self.key
        }
    }

    /// The delta, for an increment.
    pub fn get_increment_value(&self) -> (n: Option<i64>)
        ensures
            n == (match self@.action {
                OpTypeView::Increment(i) => Some(i),
                _ => None,
            }),
    {
        if let OpType::Increment(i) = self.action {
            Some(i)
        } else {
            None
        }
    }

    /// The value that the operation shows as of `clock`.
    pub fn value_at(&self, clock: Option<&Clock>) -> (v: Value<'_>)
        requires
            self@.has_value_at(clock),
        ensures
            v@ == self@.value_at(clock),
    {
        if let Some(clock) = clock {
            if let OpType::Put(ScalarValue::Counter(c)) = &self.action {
                return Value::counter(c.value_at(clock));
            }
        }
        self.value()
    }

    /// The scalar, for an operation that puts one.
    pub fn scalar_value(&self) -> (v: Option<&ScalarValue>)
        ensures
            match v {
                Some(scalar) => self@.action == OpTypeView::Put(scalar@),
                None => !(self@.action is Put),
            },
    {
        match &self.action {
            OpType::Put(scalar) => Some(scalar),
            _ => None,
        }
    }

    /// The value that the operation shows. A deletion and an increment
    /// show none.
    pub fn value(&self) -> (v: Value<'_>)
        requires
            self@.has_value(),
        ensures
            v@ == self@.value(),
    {
        match &self.action {
            OpType::Make(obj_type) => Value::Object(*obj_type),
            OpType::Put(scalar) => Value::Scalar(Cow::Borrowed(scalar)),
            OpType::MarkBegin(_, mark) => {
                let mut text = String::from_str("markBegin=");
                text.append(mark.value.to_string().as_str());
                Value::Scalar(Cow::Owned(ScalarValue::Str(smol_new(text.as_str()))))
            },
            OpType::MarkEnd(_) => Value::Scalar(
                Cow::Owned(ScalarValue::Str(smol_new("markEnd"))),
            ),
            _ => unreached(),
        }
    }

    /// The text the operation stands for in a sequence of characters.
    pub fn to_str(&self) -> (t: &str)
        ensures
            t@ == self@.action.text(),
    {
        self.action.to_str()
    }

    /// The width of the operation in a sequence with the given encoding.
    pub fn width(&self, encoding: ListEncoding) -> (w: usize)
        ensures
            w == self@.width(encoding),
    {
        match encoding {
            ListEncoding::List => 1,
            ListEncoding::Text => self.to_str().unicode_len(),
        }
    }

    /// A short description of the operation.
    pub fn dump(&self) -> (s: String)
        ensures
            s@ == self@.dump(),
    {
        match &self.action {
            OpType::Put(value) => {
                let mut s = if self.insert {
                    String::from_str("i:")
                } else {
                    String::from_str("s:")
                };
                s.append(value.to_string().as_str());
                s
            },
            OpType::Make(obj) => {
                let mut s = String::from_str("make");
                s.append(obj.to_string().as_str());
                s
            },
            OpType::Increment(val) => {
                let mut s = String::from_str("inc:");
                push_signed_decimal(&mut s, *val);
                s
            },
            OpType::Delete => String::from_str("del"),
            OpType::MarkBegin(_, _) => String::from_str("markBegin"),
            OpType::MarkEnd(_) => String::from_str("markEnd"),
        }
    }
}

} // verus!
