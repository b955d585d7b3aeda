//! Properties of the aggregator table that hold across operations.

use vstd::prelude::*;
use crate::delta::{lemma_commutative_updates, net_of, replay, DeltaOp};
use crate::error::AggregatorError;
use crate::table::AggregatorTable;

verus! {

/// The signed amounts of a sequence of updates.
pub open spec fn signed_all(ops: Seq<DeltaOp>) -> Seq<int> {
    ops.map_values(|op: DeltaOp| op.signed())
}

proof fn lemma_signed_remove(ops: Seq<DeltaOp>, i: int)
    requires
        0 <= i < ops.len(),
    ensures
        signed_all(ops.remove(i)) == signed_all(ops).remove(i),
{
    assert(signed_all(ops.remove(i)) =~= signed_all(ops).remove(i));
}

/// Reordering updates reorders their signed amounts alike.
proof fn lemma_signed_permutation(a: Seq<DeltaOp>, b: Seq<DeltaOp>)
    requires
        a.to_multiset() == b.to_multiset(),
    ensures
        signed_all(a).to_multiset() == signed_all(b).to_multiset(),
    decreases a.len(),
{
    broadcast use vstd::seq_lib::group_to_multiset_ensures;

    if a.len() == 0 {
        assert(b.to_multiset().len() == 0);
        assert(signed_all(a) =~= signed_all(b));
    } else {
        let x = a.last();
        let rest = a.drop_last();
        assert(a =~= rest.push(x));
        assert(a.to_multiset().count(x) > 0);
        assert(b.contains(x));
        let i = choose|i: int| 0 <= i < b.len() && b[i] == x;
        assert(rest.to_multiset() =~= b.remove(i).to_multiset());
        lemma_signed_permutation(rest, b.remove(i));
        lemma_signed_remove(b, i);
        assert(signed_all(a) =~= signed_all(rest).push(x.signed()));
        assert(signed_all(b)[i] == x.signed());
    }
}

/// Updates that succeed one after another on the aggregator at `index` leave
/// the value that sequential replay of their amounts gives.
pub proof fn lemma_updates_follow_replay(states: Seq<AggregatorTable>, index: u64, ops: Seq<DeltaOp>)
    requires
        states.len() == ops.len() + 1,
        states[0].has(index),
        forall|k: int|
            0 <= k < ops.len() ==> #[trigger] states[k].applied(
                states[k + 1],
                index,
                ops[k],
                Ok(()),
            ),
    ensures
        states.last().has(index),
        states.last().limit_at(index) == states[0].limit_at(index),
        replay(states[0].value_at(index), states[0].limit_at(index), signed_all(ops)) == Some(
            states.last().value_at(index),
        ),
    decreases ops.len(),
{
    if ops.len() > 0 {
        let n = ops.len() - 1;
        lemma_updates_follow_replay(states.drop_last(), index, ops.drop_last());
        assert(signed_all(ops).drop_last() =~= signed_all(ops.drop_last()));
        assert(states[n].applied(states[n + 1], index, ops[n], Ok(())));
    }
}

/// Updates commute: two runs of the same updates in different orders on the
/// same aggregator, in which every update succeeds, end at the same value: the
/// starting value plus the sum of the updates.
pub proof fn lemma_interleavings_agree(
    run1: Seq<AggregatorTable>,
    ops1: Seq<DeltaOp>,
    run2: Seq<AggregatorTable>,
    ops2: Seq<DeltaOp>,
    index: u64,
)
    requires
        run1.len() == ops1.len() + 1,
        run2.len() == ops2.len() + 1,
        run1[0] == run2[0],
        run1[0].wf(),
        run1[0].has(index),
        ops1.to_multiset() == ops2.to_multiset(),
        forall|k: int|
            0 <= k < ops1.len() ==> #[trigger] run1[k].applied(run1[k + 1], index, ops1[k], Ok(())),
        forall|k: int|
            0 <= k < ops2.len() ==> #[trigger] run2[k].applied(run2[k + 1], index, ops2[k], Ok(())),
    ensures
        run1.last().value_at(index) == run2.last().value_at(index),
        run1.last().value_at(index) == run1[0].value_at(index) + net_of(signed_all(ops1)),
{
    lemma_updates_follow_replay(run1, index, ops1);
    lemma_updates_follow_replay(run2, index, ops2);
    lemma_signed_permutation(ops1, ops2);
    lemma_bound_invariant(run1[0], index);
    lemma_commutative_updates(
        run1[0].value_at(index),
        run1[0].limit_at(index),
        signed_all(ops1),
        signed_all(ops2),
    );
}

/// Every aggregator of a well-formed table holds a value in `[0, limit]`.
/// Every operation keeps the table well-formed, and a failed one leaves it
/// unchanged, so this holds in every reachable state.
pub proof fn lemma_bound_invariant(t: AggregatorTable, index: u64)
    requires
        t.wf(),
        t.has(index),
    ensures
        0 <= t.value_at(index) <= t.limit_at(index),
{
    t.aggregators()[index].lemma_wf_bounds();
}

/// Once the aggregator at `index` is destroyed, updates and snapshots at
/// `index` fail with `MissingEntry`, and creating an aggregator at `index`
/// succeeds with the value zero.
pub proof fn lemma_lifecycle(
    pre: AggregatorTable,
    post: AggregatorTable,
    index: u64,
    op: DeltaOp,
    later: AggregatorTable,
    r: Result<(), AggregatorError>,
    limit: u128,
)
    requires
        pre.wf(),
        pre.has(index),
        post.aggregators() == pre.aggregators().remove(index),
    ensures
        !post.has(index),
        post.applied(later, index, op, r) ==> r == Err::<(), AggregatorError>(
            AggregatorError::MissingEntry,
        ),
        post.added(later, index, limit, r) ==> r is Ok && later.value_at(index) == 0,
{
}

/// Destroying an aggregator does not disturb a snapshot that was resolved at
/// capture: it reads as before. A snapshot deferred from that aggregator reads
/// `DanglingSnapshot`.
pub proof fn lemma_snapshot_independence(
    pre: AggregatorTable,
    post: AggregatorTable,
    index: u64,
    s: u64,
    max: int,
)
    requires
        pre.wf(),
        pre.has(index),
        pre.snapshots().contains_key(s),
        post.aggregators() == pre.aggregators().remove(index),
        post.snapshots() == pre.snapshots(),
    ensures
        !pre.snapshots()[s].deferred() ==> post.read_outcome(s, max) == pre.read_outcome(s, max),
        !pre.snapshots()[s].deferred() && pre.snapshots()[s].captured() <= max
            && pre.snapshots()[s].captured() <= pre.snapshots()[s].spec_width().max_value()
            ==> post.read_outcome(s, max) == Ok::<int, AggregatorError>(
            pre.snapshots()[s].captured(),
        ),
        pre.snapshots()[s].deferred() && pre.snapshots()[s].source() == index ==> post.read_outcome(
            s,
            max,
        ) == Err::<int, AggregatorError>(AggregatorError::DanglingSnapshot),
{
}

/// A snapshot deferred from a destroyed aggregator stays unreadable after a new
/// aggregator is created at the same index: the new one has another identity.
pub proof fn lemma_recreated_source_stays_dangling(
    pre: AggregatorTable,
    post: AggregatorTable,
    index: u64,
    limit: u128,
    r: Result<(), AggregatorError>,
    s: u64,
    max: int,
)
    requires
        pre.wf(),
        !pre.has(index),
        pre.snapshots().contains_key(s),
        pre.snapshots()[s].deferred(),
        pre.snapshots()[s].source() == index,
        pre.added(post, index, limit, r),
    ensures
        post.read_outcome(s, max) == Err::<int, AggregatorError>(AggregatorError::DanglingSnapshot),
{
}

} // verus!
