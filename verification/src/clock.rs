//! A causal clock: for each actor, the highest counter among the operations
//! of that actor that are known.

use crate::op_id::OpId;
use std::collections::HashMap;
use vstd::prelude::*;

verus! {

/// For each actor index it knows, the highest counter it has seen of that
/// actor.
pub struct Clock {
    max_ops: HashMap<usize, u64>,
}

impl View for Clock {
    type V = Map<usize, u64>;

    closed spec fn view(&self) -> Map<usize, u64> {
        self.max_ops@
    }
}

impl Clock {
    /// Whether the clock covers the operation `id`: it knows the actor, up
    /// to at least the counter of `id`.
    pub open spec fn covers_spec(&self, id: OpId) -> bool {
        self@.contains_key(id.1 as usize) && self@[id.1 as usize] >= id.0
    }

    /// Whether the clock covers every operation there can be.
    pub open spec fn covers_all(&self) -> bool {
        forall|id: OpId| self.covers_spec(id)
    }

    /// The clock that covers nothing.
    pub fn new() -> (clock: Self)
        ensures
            clock@ == Map::<usize, u64>::empty(),
    {
        Clock { max_ops: HashMap::new() }
    }

    /// Lets the clock know the operations of `actor` up to counter
    /// `max_op`. What it knew already it keeps: the clock covers what it
    /// covered, and of `actor` everything up to `max_op` as well.
    pub fn record(&mut self, actor: usize, max_op: u64)
        ensures
            final(self)@ == old(self)@.insert(
                actor,
                if old(self)@.contains_key(actor) && old(self)@[actor] >= max_op {
                    old(self)@[actor]
                } else {
                    max_op
                },
            ),
            forall|id: OpId|
                #[trigger] final(self).covers_spec(id) <==> old(self).covers_spec(id) || (id.1
                    == actor && id.0 <= max_op),
    {
        broadcast use vstd::std_specs::hash::group_hash_axioms;

        let known = match self.max_ops.get(&actor) {
            Some(seen) => *seen >= max_op,
            None => false,
        };
        if !known {
            self.max_ops.insert(actor, max_op);
        } else {
            assert(self@ =~= old(self)@.insert(actor, old(self)@[actor]));
        }
    }

    /// Whether the clock covers the operation `id`.
    pub fn covers(&self, id: &OpId) -> (b: bool)
        ensures
            b == self.covers_spec(*id),
    {
        broadcast use vstd::std_specs::hash::group_hash_axioms;

        match self.max_ops.get(&id.actor()) {
            Some(seen) => *seen >= id.counter(),
            None => false,
        }
    }
}

} // verus!
