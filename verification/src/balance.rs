//! The running total of a counter and its ledger: the total is the start
//! and all the increments in the ledger, linking and unlinking keep it so,
//! and as of a clock that covers everything a counter shows that total.

use crate::clock::Clock;
use crate::op::{ledger_without, lemma_filter_keeps_all, not_made_by, OpView};
use crate::op_id::OpId;
use crate::op_type::OpTypeView;
use crate::scalar::{covered_sum, ledger_ids, ScalarView};
use vstd::prelude::*;

verus! {

/// The sum of all the increments of a ledger.
pub open spec fn ledger_sum(ledger: Seq<(OpId, i64)>) -> int
    decreases ledger.len(),
{
    if ledger.len() == 0 {
        0
    } else {
        ledger_sum(ledger.drop_last()) + ledger.last().1
    }
}

/// Whether the running total of the counter that an operation puts is its
/// start and the increments in its ledger. An operation that puts no
/// counter has nothing to balance.
pub open spec fn balanced(op: OpView) -> bool {
    op.action matches OpTypeView::Put(ScalarView::Counter(c)) ==> c.current == c.start
        + ledger_sum(c.increments)
}

/// A clock that covers everything leaves no increment out.
pub proof fn lemma_covered_sum_of_all(ledger: Seq<(OpId, i64)>, clock: Clock)
    requires
        clock.covers_all(),
    ensures
        covered_sum(ledger, clock) == ledger_sum(ledger),
    decreases ledger.len(),
{
    if ledger.len() > 0 {
        lemma_covered_sum_of_all(ledger.drop_last(), clock);
        assert(clock.covers_spec(ledger.last().0));
    }
}

/// Without the one entry that an operation has in a ledger, the ledger
/// sums to what it did, less the delta of that entry.
proof fn lemma_sum_without(ledger: Seq<(OpId, i64)>, id: OpId, n: i64)
    requires
        ledger_ids(ledger).no_duplicates(),
        ledger.contains((id, n)),
    ensures
        ledger_sum(ledger_without(ledger, id)) == ledger_sum(ledger) - n,
    decreases ledger.len(),
{
    let keep = not_made_by(id);
    let at = choose|i: int| 0 <= i < ledger.len() && ledger[i] == (id, n);
    let ids = ledger_ids(ledger);
    let front = ledger.drop_last();
    let last = ledger.last();
    assert(ids[at] == id);
    assert(ledger_ids(front) =~= ids.drop_last());
    ledger.drop_last().lemma_filter_push(last, keep);
    assert(front.push(last) =~= ledger);
    if last.0 == id {
        assert(ids[ledger.len() - 1] == id);
        assert(at == ledger.len() - 1);
        assert forall|i: int| 0 <= i < front.len() implies keep(#[trigger] front[i]) by {
            assert(ids[i] == front[i].0);
        }
        lemma_filter_keeps_all(front, keep);
    } else {
        assert(front[at] == (id, n));
        lemma_sum_without(front, id, n);
        assert(ledger_without(ledger, id).drop_last() =~= ledger_without(front, id));
    }
}

/// Linking keeps the total balanced.
pub proof fn lemma_link_keeps_balanced(op: OpView, other: OpView, idx: int)
    requires
        balanced(op),
        op.can_link(other),
    ensures
        balanced(op.linked(other, idx)),
{
    if let OpTypeView::Put(ScalarView::Counter(c)) = op.action {
        if let OpTypeView::Increment(n) = other.action {
            assert(c.increments.push((other.id, n)).drop_last() =~= c.increments);
        }
    }
}

/// Unlinking keeps the total balanced, where an increment that is taken
/// from a counter is in the ledger with its delta, and no operation has
/// two entries there.
pub proof fn lemma_unlink_keeps_balanced(op: OpView, other: OpView)
    requires
        balanced(op),
        op.can_unlink(other),
        ledger_ids(op.ledger()).no_duplicates(),
        op.is_counter() ==> (other.action matches OpTypeView::Increment(n)
            ==> op.ledger().contains((other.id, n))),
    ensures
        balanced(op.unlinked(other)),
{
    if let OpTypeView::Put(ScalarView::Counter(c)) = op.action {
        if let OpTypeView::Increment(n) = other.action {
            lemma_sum_without(c.increments, other.id, n);
        }
    }
}

/// As of a clock that covers every operation, an operation with a
/// balanced total shows the value that it shows in the document as it
/// stands: a counter one that stands at the same total, any other
/// operation the very same value.
pub proof fn lemma_value_at_clock_that_covers_all(op: OpView, clock: Clock)
    requires
        balanced(op),
        op.has_value(),
        clock.covers_all(),
    ensures
        op.has_value_at(Some(&clock)),
        op.is_counter() ==> op.value_at(Some(&clock)).same_as(op.value()),
        !op.is_counter() ==> op.value_at(Some(&clock)) == op.value(),
{
    if let OpTypeView::Put(ScalarView::Counter(c)) = op.action {
        lemma_covered_sum_of_all(c.increments, clock);
    }
}

} // verus!
