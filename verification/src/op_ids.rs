//! Small ordered collections of operation identifiers, as an operation
//! keeps them for what it supersedes and for what supersedes it.

use crate::index::place;
use crate::op_id::OpId;
use std::cmp::Ordering;
use vstd::prelude::*;
use vstd::slice::slice_to_vec;
use vstd::std_specs::cmp::PartialEqSpecImpl;

verus! {

/// Identifiers in the order in which they were filed.
#[derive(Debug)]
pub struct OpIds(Vec<OpId>);

impl View for OpIds {
    type V = Seq<OpId>;

    closed spec fn view(&self) -> Seq<OpId> {
        self.0@
    }
}

/// The test that an identifier is another than `id`.
pub open spec fn other_than(id: OpId) -> spec_fn(OpId) -> bool {
    |x: OpId| x != id
}

/// Whether `order` can be asked how each of `ids` stands to `opid`.
pub open spec fn can_place<F: Fn(&OpId, &OpId) -> Ordering>(
    ids: Seq<OpId>,
    opid: OpId,
    order: F,
) -> bool {
    forall|i: int| 0 <= i < ids.len() ==> call_requires(order, (&#[trigger] ids[i], &opid))
}

/// Whether `idx` is where `add` files `opid` among `ids` under `order`:
/// in front of the first identifier that `order` places after `opid`, or
/// at the end where it places none after it.
pub open spec fn insertion_point<F: Fn(&OpId, &OpId) -> Ordering>(
    ids: Seq<OpId>,
    opid: OpId,
    order: F,
    idx: int,
) -> bool {
    &&& 0 <= idx <= ids.len()
    &&& forall|j: int|
        0 <= j < idx ==> call_ensures(order, (&#[trigger] ids[j], &opid), Ordering::Less)
            || call_ensures(order, (&ids[j], &opid), Ordering::Equal)
    &&& idx < ids.len() ==> call_ensures(order, (&ids[idx], &opid), Ordering::Greater)
}

/// Whether `order` answers as the relation `le` says: it places `a` after
/// `b` exactly where `a` is not at or before `b`.
pub open spec fn decides<F: Fn(&OpId, &OpId) -> Ordering>(
    order: F,
    le: spec_fn(OpId, OpId) -> bool,
) -> bool {
    forall|a: OpId, b: OpId, o: Ordering| #[trigger]
        call_ensures(order, (&a, &b), o) ==> (o == Ordering::Greater <==> !le(a, b))
}

/// Whether `le` puts any two identifiers in some order, and consistently.
pub open spec fn total_preorder(le: spec_fn(OpId, OpId) -> bool) -> bool {
    &&& forall|a: OpId, b: OpId| #[trigger] le(a, b) || #[trigger] le(b, a)
    &&& forall|a: OpId, b: OpId, c: OpId| #[trigger]
        le(a, b) && #[trigger] le(b, c) ==> le(a, c)
}

/// Whether each identifier of `ids` is at or before all that follow it.
pub open spec fn sorted_by(ids: Seq<OpId>, le: spec_fn(OpId, OpId) -> bool) -> bool {
    forall|i: int, j: int| 0 <= i < j < ids.len() ==> le(#[trigger] ids[i], #[trigger] ids[j])
}

/// Filing keeps the order: identifiers that are sorted under a total
/// preorder are sorted again after `add` has filed one more, where the
/// ordering handed to `add` answers as that preorder says.
pub proof fn lemma_add_keeps_sorted<F: Fn(&OpId, &OpId) -> Ordering>(
    ids: Seq<OpId>,
    opid: OpId,
    order: F,
    idx: int,
    le: spec_fn(OpId, OpId) -> bool,
)
    requires
        total_preorder(le),
        decides(order, le),
        sorted_by(ids, le),
        insertion_point(ids, opid, order, idx),
    ensures
        sorted_by(ids.insert(idx, opid), le),
{
    let after = ids.insert(idx, opid);
    assert forall|i: int, j: int| 0 <= i < j < after.len() implies le(
        #[trigger] after[i],
        #[trigger] after[j],
    ) by {
        if j == idx {
            assert(after[i] == ids[i]);
            assert(!le(ids[i], opid) ==> !call_ensures(order, (&ids[i], &opid), Ordering::Less));
        } else if i == idx {
            assert(after[j] == ids[j - 1]);
            assert(call_ensures(order, (&ids[idx], &opid), Ordering::Greater));
            assert(le(opid, ids[idx]) || le(ids[idx], opid));
            if j - 1 > idx {
                assert(le(ids[idx], ids[j - 1]));
            }
        } else {
            let i0 = if i < idx { i } else { i - 1 };
            let j0 = if j < idx { j } else { j - 1 };
            assert(after[i] == ids[i0]);
            assert(after[j] == ids[j0]);
        }
    }
}

/// Where an ordering gives one answer for each pair, `add` has one place
/// for each identifier.
pub proof fn lemma_insertion_point_unique<F: Fn(&OpId, &OpId) -> Ordering>(
    ids: Seq<OpId>,
    opid: OpId,
    order: F,
    i: int,
    j: int,
)
    requires
        forall|a: OpId, b: OpId, o1: Ordering, o2: Ordering| #[trigger]
            call_ensures(order, (&a, &b), o1) && #[trigger] call_ensures(order, (&a, &b), o2)
                ==> o1 == o2,
        insertion_point(ids, opid, order, i),
        insertion_point(ids, opid, order, j),
    ensures
        i == j,
{
    if i < j {
        assert(call_ensures(order, (&ids[i], &opid), Ordering::Greater));
    } else if j < i {
        assert(call_ensures(order, (&ids[j], &opid), Ordering::Greater));
    }
}

impl OpIds {
    /// No identifiers.
    pub fn empty() -> (ids: Self)
        ensures
            ids@ == Seq::<OpId>::empty(),
    {
        OpIds(Vec::new())
    }

    /// Files `opid` in front of the first identifier that `order` places
    /// after it, or at the end. Whether `opid` is there already is not
    /// looked at.
    pub fn add<F: Fn(&OpId, &OpId) -> Ordering>(&mut self, opid: OpId, order: F)
        requires
            can_place(old(self)@, opid, order),
        ensures
            exists|idx: int|
                insertion_point(old(self)@, opid, order, idx) && final(self)@ == old(self)@.insert(
                    idx,
                    opid,
                ),
    {
        let mut i: usize = 0;
        while i < self.0.len()
            invariant
                self.0@ == old(self).0@,
                i <= self.0.len(),
                can_place(self.0@, opid, order),
                forall|j: int|
                    0 <= j < i ==> call_ensures(
                        order,
                        (&#[trigger] self.0@[j], &opid),
                        Ordering::Less,
                    ) || call_ensures(order, (&self.0@[j], &opid), Ordering::Equal),
            decreases self.0.len() - i,
        {
            match order(&self.0[i], &opid) {
                Ordering::Greater => {
                    self.0.insert(i, opid);
                    assert(insertion_point(old(self)@, opid, order, place(i)));
                    return ;
                },
                _ => {},
            }
            i += 1;
        }
        self.0.push(opid);
        assert(insertion_point(old(self)@, opid, order, place(i)));
        assert(self.0@ =~= old(self)@.insert(place(i), opid));
    }

    /// Takes out every occurrence of `opid`; the others keep their order.
    pub fn remove(&mut self, opid: &OpId)
        ensures
            final(self)@ == old(self)@.filter(other_than(*opid)),
    {
        let mut kept: Vec<OpId> = Vec::new();
        let mut i: usize = 0;
        while i < self.0.len()
            invariant
                self.0@ == old(self).0@,
                i <= self.0.len(),
                kept@ == self.0@.take(i as int).filter(other_than(*opid)),
            decreases self.0.len() - i,
        {
            let id = self.0[i];
            proof {
                let next = self.0@.take(i + 1);
                assert(next.drop_last() =~= self.0@.take(i as int));
                assert(next.last() == id);
                reveal(Seq::filter);
            }
            if id != *opid {
                kept.push(id);
            }
            i += 1;
        }
        assert(self.0@.take(i as int) =~= self.0@);
        self.0 = kept;
    }

    pub fn len(&self) -> (n: usize)
        ensures
            n == self@.len(),
    {
        self.0.len()
    }

    pub fn is_empty(&self) -> (b: bool)
        ensures
            b == (self@.len() == 0),
    {
        self.0.is_empty()
    }

    /// Whether `opid` is among the identifiers.
    pub fn contains(&self, opid: &OpId) -> (b: bool)
        ensures
            b == self@.contains(*opid),
    {
        let mut i: usize = 0;
        while i < self.0.len()
            invariant
                i <= self.0.len(),
                forall|j: int| 0 <= j < i ==> self.0@[j] != *opid,
            decreases self.0.len() - i,
        {
            if self.0[i] == *opid {
                return true;
            }
            i += 1;
        }
        false
    }

    /// The identifier at place `idx`, where there is one.
    pub fn get(&self, idx: usize) -> (id: Option<&OpId>)
        ensures
            id == (if idx < self@.len() {
                Some(&self@[idx as int])
            } else {
                None
            }),
    {
        if idx < self.0.len() {
            Some(&self.0[idx])
        } else {
            None
        }
    }

    /// The identifiers, in their order.
    pub fn as_slice(&self) -> (ids: &[OpId])
        ensures
            ids@ == self@,
    {
        self.0.as_slice()
    }
}

impl PartialEq for OpIds {
    fn eq(&self, other: &Self) -> (r: bool) {
        if self.0.len() != other.0.len() {
            return false;
        }
        let mut i: usize = 0;
        while i < self.0.len()
            invariant
                self.0.len() == other.0.len(),
                i <= self.0.len(),
                forall|j: int| 0 <= j < i ==> self.0@[j] == other.0@[j],
            decreases self.0.len() - i,
        {
            if self.0[i] != other.0[i] {
                return false;
            }
            i += 1;
        }
        assert(self.0@ =~= other.0@);
        true
    }
}

impl PartialEqSpecImpl for OpIds {
    open spec fn obeys_eq_spec() -> bool {
        true
    }

    open spec fn eq_spec(&self, other: &Self) -> bool {
        self@ == other@
    }
}

impl Clone for OpIds {
    fn clone(&self) -> (ids: Self)
        ensures
            ids@ == self@,
    {
        OpIds(slice_to_vec(self.0.as_slice()))
    }
}

impl Default for OpIds {
    fn default() -> (ids: Self)
        ensures
            ids@ == Seq::<OpId>::empty(),
    {
        OpIds(Vec::new())
    }
}

} // verus!
