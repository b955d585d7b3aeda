//! Requests against the aggregator table, each run as a transaction of its own:
//! it either succeeds or fails with no effect.

use vstd::prelude::*;
use crate::delta::DeltaOp;
use crate::error::AggregatorError;
use crate::snapshot::SnapshotWidth;
use crate::table::{unit_of, AggregatorTable};

verus! {

/// One named operation with its operands.
#[derive(Clone, Copy, Debug, PartialEq, Eq, Structural)]
pub enum Operation {
    Check { index: u64, expected: u128 },
    New { index: u64, limit: u128 },
    TryAdd { index: u64, value: u128 },
    TrySub { index: u64, value: u128 },
    TrySubAdd { index: u64, a: u128, b: u128 },
    Materialize { index: u64 },
    MaterializeAndTryAdd { index: u64, value: u128 },
    MaterializeAndTrySub { index: u64, value: u128 },
    TryAddAndMaterialize { index: u64, value: u128 },
    TrySubAndMaterialize { index: u64, value: u128 },
    Destroy { index: u64 },
    Snapshot { index: u64 },
    SnapshotWithU64Limit { index: u64 },
    ReadSnapshotU128 { index: u64 },
    ReadSnapshotU64 { index: u64 },
    TryAddAndReadSnapshotU128 { index: u64, value: u128 },
}

/// What an operation returns: nothing, or the value that it read.
pub type Outcome = Result<Option<u128>, AggregatorError>;

/// Compares the value of the aggregator at `index` with `expected`.
pub fn check(index: u64, expected: u128) -> (r: Operation)
    ensures
        r == (Operation::Check { index, expected }),
{
    Operation::Check { index, expected }
}

/// Creates an aggregator at `index` with the given limit.
pub fn new(index: u64, limit: u128) -> (r: Operation)
    ensures
        r == (Operation::New { index, limit }),
{
    Operation::New { index, limit }
}

/// Adds `value` to the aggregator at `index`.
pub fn try_add(index: u64, value: u128) -> (r: Operation)
    ensures
        r == (Operation::TryAdd { index, value }),
{
    Operation::TryAdd { index, value }
}

/// Subtracts `value` from the aggregator at `index`.
pub fn try_sub(index: u64, value: u128) -> (r: Operation)
    ensures
        r == (Operation::TrySub { index, value }),
{
    Operation::TrySub { index, value }
}

/// Subtracts `a` from, then adds `b` to, the aggregator at `index`.
pub fn try_sub_add(index: u64, a: u128, b: u128) -> (r: Operation)
    ensures
        r == (Operation::TrySubAdd { index, a, b }),
{
    Operation::TrySubAdd { index, a, b }
}

/// Resolves the aggregator at `index`.
pub fn materialize(index: u64) -> (r: Operation)
    ensures
        r == (Operation::Materialize { index }),
{
    Operation::Materialize { index }
}

/// Resolves the aggregator at `index`, then adds `value`.
pub fn materialize_and_try_add(index: u64, value: u128) -> (r: Operation)
    ensures
        r == (Operation::MaterializeAndTryAdd { index, value }),
{
    Operation::MaterializeAndTryAdd { index, value }
}

/// Resolves the aggregator at `index`, then subtracts `value`.
pub fn materialize_and_try_sub(index: u64, value: u128) -> (r: Operation)
    ensures
        r == (Operation::MaterializeAndTrySub { index, value }),
{
    Operation::MaterializeAndTrySub { index, value }
}

/// Adds `value` to the aggregator at `index`, then resolves it.
pub fn try_add_and_materialize(index: u64, value: u128) -> (r: Operation)
    ensures
        r == (Operation::TryAddAndMaterialize { index, value }),
{
    Operation::TryAddAndMaterialize { index, value }
}

/// Subtracts `value` from the aggregator at `index`, then resolves it.
pub fn try_sub_and_materialize(index: u64, value: u128) -> (r: Operation)
    ensures
        r == (Operation::TrySubAndMaterialize { index, value }),
{
    Operation::TrySubAndMaterialize { index, value }
}

/// Removes the aggregator at `index`.
pub fn destroy(index: u64) -> (r: Operation)
    ensures
        r == (Operation::Destroy { index }),
{
    Operation::Destroy { index }
}

/// Captures the aggregator at `index` into the snapshot at `index`.
pub fn snapshot(index: u64) -> (r: Operation)
    ensures
        r == (Operation::Snapshot { index }),
{
    Operation::Snapshot { index }
}

/// Captures the aggregator at `index` into a snapshot readable as a `u64` only.
pub fn snapshot_with_u64_limit(index: u64) -> (r: Operation)
    ensures
        r == (Operation::SnapshotWithU64Limit { index }),
{
    Operation::SnapshotWithU64Limit { index }
}

/// Reads the snapshot at `index` as a `u128`.
pub fn read_snapshot_u128(index: u64) -> (r: Operation)
    ensures
        r == (Operation::ReadSnapshotU128 { index }),
{
    Operation::ReadSnapshotU128 { index }
}

/// Reads the snapshot at `index` as a `u64`.
pub fn read_snapshot_u64(index: u64) -> (r: Operation)
    ensures
        r == (Operation::ReadSnapshotU64 { index }),
{
    Operation::ReadSnapshotU64 { index }
}

/// Adds `value` to the aggregator at `index` and reads the new value.
pub fn try_add_and_read_snapshot_u128(index: u64, value: u128) -> (r: Operation)
    ensures
        r == (Operation::TryAddAndReadSnapshotU128 { index, value }),
{
    Operation::TryAddAndReadSnapshotU128 { index, value }
}

/// A result that carries no value where it succeeds.
pub open spec fn valueless(r: Outcome) -> bool {
    r is Ok ==> r == Ok::<Option<u128>, AggregatorError>(None)
}

/// A read's result as the table describes it.
pub open spec fn read_matches(r: Outcome, expected: Result<int, AggregatorError>) -> bool {
    match r {
        Ok(Some(v)) => expected == Ok::<int, AggregatorError>(v as int),
        Ok(None) => false,
        Err(e) => expected == Err::<int, AggregatorError>(e),
    }
}

/// The outcome of running `op` on `pre`, with `post` the table afterwards.
pub open spec fn outcome(pre: AggregatorTable, post: AggregatorTable, op: Operation, r: Outcome) -> bool {
    match op {
        Operation::Check { index, expected } => post == pre && valueless(r) && unit_of(r)
            == pre.check_outcome(index, expected),
        Operation::New { index, limit } => valueless(r) && pre.added(post, index, limit, unit_of(r)),
        Operation::TryAdd { index, value } => valueless(r) && pre.applied(
            post,
            index,
            DeltaOp::Add(value),
            unit_of(r),
        ),
        Operation::TrySub { index, value } => valueless(r) && pre.applied(
            post,
            index,
            DeltaOp::Sub(value),
            unit_of(r),
        ),
        Operation::TrySubAdd { index, a, b } => valueless(r) && pre.sub_added(
            post,
            index,
            a,
            b,
            unit_of(r),
        ),
        Operation::Materialize { index } => valueless(r) && pre.materialized(post, index, unit_of(r)),
        Operation::MaterializeAndTryAdd { index, value } => valueless(r) && pre.applied(
            post,
            index,
            DeltaOp::Add(value),
            unit_of(r),
        ),
        Operation::MaterializeAndTrySub { index, value } => valueless(r) && pre.applied(
            post,
            index,
            DeltaOp::Sub(value),
            unit_of(r),
        ),
        Operation::TryAddAndMaterialize { index, value } => valueless(r) && pre.applied(
            post,
            index,
            DeltaOp::Add(value),
            unit_of(r),
        ),
        Operation::TrySubAndMaterialize { index, value } => valueless(r) && pre.applied(
            post,
            index,
            DeltaOp::Sub(value),
            unit_of(r),
        ),
        Operation::Destroy { index } => valueless(r) && pre.destroyed(post, index, unit_of(r)),
        Operation::Snapshot { index } => valueless(r) && pre.captured(
            post,
            index,
            SnapshotWidth::U128,
            unit_of(r),
        ),
        Operation::SnapshotWithU64Limit { index } => valueless(r) && pre.captured(
            post,
            index,
            SnapshotWidth::U64,
            unit_of(r),
        ),
        Operation::ReadSnapshotU128 { index } => post == pre && read_matches(
            r,
            pre.read_outcome(index, u128::MAX as int),
        ),
        Operation::ReadSnapshotU64 { index } => post == pre && read_matches(
            r,
            pre.read_outcome(index, u64::MAX as int),
        ),
        Operation::TryAddAndReadSnapshotU128 { index, value } => {
            &&& pre.applied(post, index, DeltaOp::Add(value), unit_of(r))
            &&& r is Ok ==> r == Ok::<Option<u128>, AggregatorError>(
                Some(post.value_at(index) as u128),
            )
        },
    }
}

fn done(r: Result<(), AggregatorError>) -> (o: Outcome)
    ensures
        valueless(o),
        unit_of(o) == r,
{
    match r {
        Ok(u) => {
            assert(r == Ok::<(), AggregatorError>(()));
            Ok(None)
        },
        Err(e) => Err(e),
    }
}


impl AggregatorTable {
    /// Runs one operation as a transaction: where it fails, the table is left
    /// as it was.
    pub fn execute(&mut self, op: &Operation) -> (r: Outcome)
        requires
            old(self).wf(),
            old(self).created() < u64::MAX,
        ensures
            final(self).wf(),
            outcome(*old(self), *final(self), *op, r),
            final(self).created() <= old(self).created() + 1,
    {
        match *op {
            Operation::Check { index, expected } => done(self.check(index, expected)),
            Operation::New { index, limit } => done(self.new(index, limit)),
            Operation::TryAdd { index, value } => done(self.try_add(index, value)),
            Operation::TrySub { index, value } => done(self.try_sub(index, value)),
            Operation::TrySubAdd { index, a, b } => done(self.try_sub_add(index, a, b)),
            Operation::Materialize { index } => done(self.materialize(index)),
            Operation::MaterializeAndTryAdd { index, value } => done(
                self.materialize_and_try_add(index, value),
            ),
            Operation::MaterializeAndTrySub { index, value } => done(
                self.materialize_and_try_sub(index, value),
            ),
            Operation::TryAddAndMaterialize { index, value } => done(
                self.try_add_and_materialize(index, value),
            ),
            Operation::TrySubAndMaterialize { index, value } => done(
                self.try_sub_and_materialize(index, value),
            ),
            Operation::Destroy { index } => done(self.destroy(index)),
            Operation::Snapshot { index } => done(self.snapshot(index)),
            Operation::SnapshotWithU64Limit { index } => done(self.snapshot_with_u64_limit(index)),
            Operation::ReadSnapshotU128 { index } => match self.read_snapshot_u128(index) {
                Ok(v) => Ok(Some(v)),
                Err(e) => Err(e),
            },
            Operation::ReadSnapshotU64 { index } => match self.read_snapshot_u64(index) {
                Ok(v) => Ok(Some(v as u128)),
                Err(e) => Err(e),
            },
            Operation::TryAddAndReadSnapshotU128 { index, value } => match self.try_add_and_read_snapshot_u128(index, value) {
                Ok(v) => Ok(Some(v)),
                Err(e) => Err(e),
            },
        }
    }

    /// Runs the operations in order, each as a transaction of its own, and
    /// returns their outcomes in the same order.
    pub fn run_block(&mut self, ops: &Vec<Operation>) -> (r: Vec<Outcome>)
        requires
            old(self).wf(),
            old(self).created() + ops.len() < u64::MAX,
        ensures
            final(self).wf(),
            r.len() == ops.len(),
            exists|states: Seq<AggregatorTable>| #[trigger]
                states.len() == ops.len() + 1 && states[0] == *old(self)
                    && states.last() == *final(self) && forall|j: int|
                    0 <= j < ops.len() ==> outcome(states[j], states[j + 1], ops@[j], #[trigger] r@[j]),
    {
        let ghost start = *self;
        let ghost mut states: Seq<AggregatorTable> = seq![*self];
        let mut outs: Vec<Outcome> = Vec::new();
        let mut i: usize = 0;
        while i < ops.len()
            invariant
                self.wf(),
                0 <= i <= ops.len(),
                outs.len() == i,
                states.len() == i + 1,
                states[0] == start,
                states[i as int] == *self,
                self.created() <= start.created() + i,
                start.created() + ops.len() < u64::MAX,
                forall|j: int| 0 <= j < i ==> outcome(states[j], states[j + 1], ops@[j], #[trigger] outs@[j]),
            decreases ops.len() - i,
        {
            let o = self.execute(&ops[i]);
            proof {
                states = states.push(*self);
            }
            outs.push(o);
            i = i + 1;
        }
        assert(states.last() == *self);
        outs
    }
}

} // verus!
