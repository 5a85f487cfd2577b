//! Operation identifiers and the typed identifiers built on them.

use crate::actor_id::ActorId;
use crate::lex::{compare_bytes, lex_order};
use std::cmp::Ordering;
use vstd::prelude::*;
use vstd::std_specs::cmp::PartialOrdSpecImpl;

verus! {

/// The largest counter and the largest actor index an identifier can hold.
pub const ID_LIMIT: u64 = 0xffff_ffff;

/// A Lamport pair: the counter of the operation and the index of its actor
/// in the actor table of the session.
#[derive(Debug, Clone, Copy, PartialEq, Eq, Ord, Hash, Structural)]
pub struct OpId(pub u32, pub u32);

/// The order on identifiers within one session: by counter, then by the
/// actor's index.
pub open spec fn index_order(a: OpId, b: OpId) -> Ordering {
    if a.0 < b.0 {
        Ordering::Less
    } else if a.0 > b.0 {
        Ordering::Greater
    } else if a.1 < b.1 {
        Ordering::Less
    } else if a.1 > b.1 {
        Ordering::Greater
    } else {
        Ordering::Equal
    }
}

/// The order within a session is a total order: two identifiers are equal
/// exactly where neither comes first, each way round tells the same, and
/// what comes before an identifier comes before all that follow it.
pub proof fn lemma_index_order_is_total(a: OpId, b: OpId, c: OpId)
    ensures
        index_order(a, b) == Ordering::Equal <==> a == b,
        index_order(a, b) == Ordering::Less <==> index_order(b, a) == Ordering::Greater,
        index_order(a, b) == Ordering::Less && index_order(b, c) == Ordering::Less
            ==> index_order(a, c) == Ordering::Less,
{
}

/// The bytes of the actor of `id`, looked up in the actor table of the
/// session.
pub open spec fn actor_at(actors: Seq<ActorId>, id: OpId) -> Seq<u8> {
    actors[id.1 as int]@
}

/// The order on identifiers that is the same in every session: by
/// counter, then by the bytes of the actor.
pub open spec fn lamport_order(a: OpId, b: OpId, actors: Seq<ActorId>) -> Ordering {
    if a.0 < b.0 {
        Ordering::Less
    } else if a.0 > b.0 {
        Ordering::Greater
    } else {
        lex_order(actor_at(actors, a), actor_at(actors, b))
    }
}

/// The Lamport order does not depend on how a session has numbered the
/// actors: identifiers with the same counters and the same actors stand
/// in the same order, whatever the tables and the indices in them.
pub proof fn lemma_lamport_order_across_sessions(
    a: OpId,
    b: OpId,
    actors: Seq<ActorId>,
    a2: OpId,
    b2: OpId,
    actors2: Seq<ActorId>,
)
    requires
        a.0 == a2.0,
        b.0 == b2.0,
        actor_at(actors, a) == actor_at(actors2, a2),
        actor_at(actors, b) == actor_at(actors2, b2),
    ensures
        lamport_order(a, b, actors) == lamport_order(a2, b2, actors2),
{
}

impl PartialOrd for OpId {
    fn partial_cmp(&self, other: &Self) -> (r: Option<Ordering>) {
        if self.0 < other.0 {
            Some(Ordering::Less)
        } else if self.0 > other.0 {
            Some(Ordering::Greater)
        } else if self.1 < other.1 {
            Some(Ordering::Less)
        } else if self.1 > other.1 {
            Some(Ordering::Greater)
        } else {
            Some(Ordering::Equal)
        }
    }
}

impl PartialOrdSpecImpl for OpId {
    open spec fn obeys_partial_cmp_spec() -> bool {
        true
    }

    open spec fn partial_cmp_spec(&self, other: &Self) -> Option<Ordering> {
        Some(index_order(*self, *other))
    }
}

impl Default for OpId {
    fn default() -> (id: Self)
        ensures
            id == OpId(0, 0),
    {
        OpId(0, 0)
    }
}

impl OpId {
    /// The identifier with the given counter and actor index.
    pub fn new(counter: u64, actor: usize) -> (id: Self)
        requires
            counter <= ID_LIMIT,
            actor <= ID_LIMIT,
        ensures
            id.0 == counter,
            id.1 == actor,
    {
        Self(counter as u32, actor as u32)
    }

    /// The identifier with the given counter and actor index, where both
    /// fit the 32 bits an identifier has for each.
    pub fn checked_new(counter: u64, actor: usize) -> (id: Option<Self>)
        ensures
            id == (if counter <= ID_LIMIT && actor <= ID_LIMIT {
                Some(OpId(counter as u32, actor as u32))
            } else {
                None
            }),
    {
        if counter <= ID_LIMIT && actor as u64 <= ID_LIMIT {
            Some(Self(counter as u32, actor as u32))
        } else {
            None
        }
    }

    pub open spec fn spec_counter(&self) -> u64 {
        self.0 as u64
    }

    #[verifier::when_used_as_spec(spec_counter)]
    pub fn counter(&self) -> (c: u64)
        ensures
            c == self.0,
    {
        self.0 as u64
    }

    pub open spec fn spec_actor(&self) -> usize {
        self.1 as usize
    }

    #[verifier::when_used_as_spec(spec_actor)]
    pub fn actor(&self) -> (a: usize)
        ensures
            a == self.1,
    {
        self.1 as usize
    }

    /// Compares with `other` in the Lamport order: by counter, then by the
    /// actors themselves as `actors` has them, not by their indices.
    pub fn lamport_cmp(&self, other: &OpId, actors: &[ActorId]) -> (o: Ordering)
        requires
            self.1 < actors@.len(),
            other.1 < actors@.len(),
        ensures
            o == lamport_order(*self, *other, actors@),
    {
        if self.0 < other.0 {
            Ordering::Less
        } else if self.0 > other.0 {
            Ordering::Greater
        } else {
            compare_bytes(actors[self.actor()].to_bytes(), actors[other.actor()].to_bytes())
        }
    }

    /// The identifier one counter step before this one, for the lower end
    /// of a range of identifiers.
    pub fn prev(&self) -> (id: OpId)
        requires
            self.0 > 0,
        ensures
            id == OpId((self.0 - 1) as u32, self.1),
    {
        OpId(self.0 - 1, self.1)
    }

    /// The identifier one counter step after this one, for the upper end of
    /// a range of identifiers.
    pub fn next(&self) -> (id: OpId)
        requires
            self.0 < ID_LIMIT,
        ensures
            id == OpId((self.0 + 1) as u32, self.1),
    {
        OpId(self.0 + 1, self.1)
    }
}

impl AsRef<OpId> for OpId {
    fn as_ref(&self) -> (id: &OpId)
        ensures
            *id == *self,
    {
        self
    }
}

impl AsRef<OpId> for ObjId {
    fn as_ref(&self) -> (id: &OpId)
        ensures
            *id == self.0,
    {
        &self.0
    }
}

/// The identifier of a container. Containers are ordered as the
/// operations that made them.
#[derive(Debug, Clone, Copy, PartialEq, Eq, Ord, Hash, Structural)]
pub struct ObjId(pub OpId);

impl PartialOrd for ObjId {
    fn partial_cmp(&self, other: &Self) -> (r: Option<Ordering>) {
        self.0.partial_cmp(&other.0)
    }
}

impl PartialOrdSpecImpl for ObjId {
    open spec fn obeys_partial_cmp_spec() -> bool {
        true
    }

    open spec fn partial_cmp_spec(&self, other: &Self) -> Option<Ordering> {
        Some(index_order(self.0, other.0))
    }
}

impl Default for ObjId {
    fn default() -> (id: Self)
        ensures
            id == ObjId::root(),
    {
        ObjId(OpId(0, 0))
    }
}

impl ObjId {
    pub open spec fn spec_root() -> ObjId {
        ObjId(OpId(0, 0))
    }

    /// The container every document starts with.
    #[verifier::when_used_as_spec(spec_root)]
    pub fn root() -> (id: Self)
        ensures
            id == ObjId(OpId(0, 0)),
    {
        ObjId(OpId(0, 0))
    }

    pub open spec fn spec_is_root(&self) -> bool {
        self.0.0 == 0
    }

    /// Whether this names the root container. No operation has counter 0,
    /// so the counter alone decides.
    #[verifier::when_used_as_spec(spec_is_root)]
    pub fn is_root(&self) -> (b: bool)
        ensures
            b == (self.0.0 == 0),
    {
        self.0.counter() == 0
    }

    /// The operation identifier inside.
    pub fn opid(&self) -> (id: &OpId)
        ensures
            *id == self.0,
    {
        &self.0
    }
}

/// The identifier of a position in a sequence: that of the operation which
/// inserted the element there. Positions are ordered as those operations.
#[derive(Debug, Clone, Copy, PartialEq, Eq, Ord, Hash, Structural)]
pub struct ElemId(pub OpId);

impl PartialOrd for ElemId {
    fn partial_cmp(&self, other: &Self) -> (r: Option<Ordering>) {
        self.0.partial_cmp(&other.0)
    }
}

impl PartialOrdSpecImpl for ElemId {
    open spec fn obeys_partial_cmp_spec() -> bool {
        true
    }

    open spec fn partial_cmp_spec(&self, other: &Self) -> Option<Ordering> {
        Some(index_order(self.0, other.0))
    }
}

impl Default for ElemId {
    fn default() -> (id: Self)
        ensures
            id == ElemId::head(),
    {
        ElemId(OpId(0, 0))
    }
}

impl ElemId {
    pub open spec fn spec_head() -> ElemId {
        ElemId(OpId(0, 0))
    }

    /// The position before the first element of any sequence.
    #[verifier::when_used_as_spec(spec_head)]
    pub fn head() -> (id: Self)
        ensures
            id == ElemId(OpId(0, 0)),
    {
        Self(OpId(0, 0))
    }

    pub open spec fn spec_is_head(&self) -> bool {
        *self == ElemId(OpId(0, 0))
    }

    /// Whether this is the position before the first element.
    #[verifier::when_used_as_spec(spec_is_head)]
    pub fn is_head(&self) -> (b: bool)
        ensures
            b == (*self == ElemId::head()),
    {
        *self == ElemId(OpId(0, 0))
    }
}

} // verus!
