//! The store of one owner's aggregators and snapshots, each addressed by an
//! index, and the operations that transactions issue against it.

use std::collections::HashMap;
use vstd::prelude::*;
use crate::aggregator::Aggregator;
use crate::delta::{step, DeltaOp};
use crate::error::{from_bound_error, AggregatorError};
use crate::snapshot::{Snapshot, SnapshotWidth};

verus! {

broadcast use vstd::std_specs::hash::group_hash_axioms;

/// The failure of an update that leaves `[0, limit]`.
pub open spec fn op_failure(op: DeltaOp) -> AggregatorError {
    match op {
        DeltaOp::Add(_) => AggregatorError::Overflow,
        DeltaOp::Sub(_) => AggregatorError::Underflow,
    }
}

/// A result with its success value dropped.
pub open spec fn unit_of<T>(r: Result<T, AggregatorError>) -> Result<(), AggregatorError> {
    match r {
        Ok(_) => Ok(()),
        Err(e) => Err(e),
    }
}

/// One owner's aggregators and snapshots. Aggregators and snapshots have
/// separate index spaces. Every aggregator gets an identity that no earlier
/// aggregator of the table had.
pub struct AggregatorTable {
    aggregators: HashMap<u64, Aggregator>,
    snapshots: HashMap<u64, Snapshot>,
    created: u64,
}

/// An empty table.
pub fn initialize() -> (r: AggregatorTable)
    ensures
        r.wf(),
        r.aggregators() == Map::<u64, Aggregator>::empty(),
        r.snapshots() == Map::<u64, Snapshot>::empty(),
        r.created() == 0,
{
    AggregatorTable { aggregators: HashMap::new(), snapshots: HashMap::new(), created: 0 }
}

impl AggregatorTable {
    /// The aggregators by index.
    pub closed spec fn aggregators(self) -> Map<u64, Aggregator> {
        self.aggregators@
    }

    /// The snapshots by index.
    pub closed spec fn snapshots(self) -> Map<u64, Snapshot> {
        self.snapshots@
    }

    /// How many aggregators the table has created; the next one's identity.
    pub closed spec fn created(self) -> u64 {
        self.created
    }

    /// Every aggregator holds a value in `[0, limit]`, every snapshot a `u128`,
    /// and every identity in use was handed out before.
    pub open spec fn wf(self) -> bool {
        &&& forall|i: u64| #[trigger]
            self.aggregators().contains_key(i) ==> self.aggregators()[i].wf()
                && self.aggregators()[i].ident() < self.created()
        &&& forall|i: u64| #[trigger]
            self.snapshots().contains_key(i) ==> self.snapshots()[i].wf() && (
            self.snapshots()[i].deferred() ==> self.snapshots()[i].source_id() < self.created())
    }

    /// An aggregator stands at index `i`.
    pub open spec fn has(self, i: u64) -> bool {
        self.aggregators().contains_key(i)
    }

    /// The value of the aggregator at `i`.
    pub open spec fn value_at(self, i: u64) -> int {
        self.aggregators()[i].current()
    }

    /// The limit of the aggregator at `i`.
    pub open spec fn limit_at(self, i: u64) -> int {
        self.aggregators()[i].ceiling()
    }

    /// `post` differs from `self` only in the aggregator at `i`, which keeps
    /// its limit and identity and now holds `v`.
    pub open spec fn updated(self, post: Self, i: u64, v: int) -> bool {
        &&& post.aggregators() == self.aggregators().insert(i, post.aggregators()[i])
        &&& post.value_at(i) == v
        &&& post.limit_at(i) == self.limit_at(i)
        &&& post.aggregators()[i].ident() == self.aggregators()[i].ident()
        &&& post.snapshots() == self.snapshots()
        &&& post.created() == self.created()
    }

    /// The outcome of creating an aggregator at `index` with the given limit:
    /// `AlreadyExists` where the index is taken, leaving `post` equal to
    /// `self`; else a resolved aggregator holding zero, with the next identity.
    pub open spec fn added(self, post: Self, index: u64, limit: u128, r: Result<(), AggregatorError>) -> bool {
        if self.has(index) {
            r == Err::<(), AggregatorError>(AggregatorError::AlreadyExists) && post == self
        } else {
            &&& r is Ok
            &&& post.aggregators() == self.aggregators().insert(index, post.aggregators()[index])
            &&& post.value_at(index) == 0
            &&& post.limit_at(index) == limit
            &&& post.aggregators()[index].resolved()
            &&& post.aggregators()[index].ident() == self.created()
            &&& post.snapshots() == self.snapshots()
            &&& post.created() == self.created() + 1
        }
    }

    /// The outcome of removing the aggregator at `index`: `MissingEntry` where
    /// there is none, leaving `post` equal to `self`; else only that aggregator
    /// is gone.
    pub open spec fn destroyed(self, post: Self, index: u64, r: Result<(), AggregatorError>) -> bool {
        if !self.has(index) {
            r == Err::<(), AggregatorError>(AggregatorError::MissingEntry) && post == self
        } else {
            &&& r is Ok
            &&& post.aggregators() == self.aggregators().remove(index)
            &&& post.snapshots() == self.snapshots()
            &&& post.created() == self.created()
        }
    }

    /// The outcome of resolving the aggregator at `index`: `MissingEntry`
    /// where there is none, leaving `post` equal to `self`; else the aggregator
    /// is resolved with its value unchanged.
    pub open spec fn materialized(self, post: Self, index: u64, r: Result<(), AggregatorError>) -> bool {
        if !self.has(index) {
            r == Err::<(), AggregatorError>(AggregatorError::MissingEntry) && post == self
        } else {
            &&& r is Ok
            &&& self.updated(post, index, self.value_at(index))
            &&& post.aggregators()[index].resolved()
        }
    }

    /// The outcome of subtracting `a` and then adding `b` at `index` as one
    /// step: `MissingEntry` where there is no aggregator; else `Underflow`
    /// where the subtraction goes below zero; else `Overflow` where the
    /// addition then exceeds the limit; else both are applied. A failure
    /// leaves `post` equal to `self`.
    pub open spec fn sub_added(self, post: Self, index: u64, a: u128, b: u128, r: Result<(), AggregatorError>) -> bool {
        if !self.has(index) {
            r == Err::<(), AggregatorError>(AggregatorError::MissingEntry) && post == self
        } else {
            match step(self.value_at(index), self.limit_at(index), -(a as int)) {
                None => r == Err::<(), AggregatorError>(AggregatorError::Underflow) && post == self,
                Some(mid) => match step(mid, self.limit_at(index), b as int) {
                    None => r == Err::<(), AggregatorError>(AggregatorError::Overflow) && post == self,
                    Some(v) => r is Ok && self.updated(post, index, v),
                },
            }
        }
    }

    /// The outcome of comparing the value at `index` with `expected`.
    pub open spec fn check_outcome(self, index: u64, expected: u128) -> Result<(), AggregatorError> {
        if !self.has(index) {
            Err(AggregatorError::MissingEntry)
        } else if self.value_at(index) == expected {
            Ok(())
        } else {
            Err(AggregatorError::ValueMismatch)
        }
    }

    /// The outcome of applying `op` to the aggregator at `index` as sequential
    /// execution defines it: `MissingEntry` where there is none; else success
    /// exactly where the value stays in `[0, limit]`, with the new value in
    /// `post`; else the bound's failure. A failure leaves `post` equal to `self`.
    pub open spec fn applied(
        self,
        post: Self,
        index: u64,
        op: DeltaOp,
        r: Result<(), AggregatorError>,
    ) -> bool {
        if !self.has(index) {
            r == Err::<(), AggregatorError>(AggregatorError::MissingEntry) && post == self
        } else {
            match step(self.value_at(index), self.limit_at(index), op.signed()) {
                Some(v) => r is Ok && self.updated(post, index, v),
                None => r == Err::<(), AggregatorError>(op_failure(op)) && post == self,
            }
        }
    }

    /// The outcome of capturing the aggregator at `index` into the snapshot at
    /// `index` with the given width: `MissingEntry` where there is no such
    /// aggregator, else `AlreadyExists` where the snapshot index is taken, else
    /// a new snapshot of the current value, deferred exactly where the
    /// aggregator has pending updates. A failure leaves `post` equal to `self`.
    pub open spec fn captured(
        self,
        post: Self,
        index: u64,
        width: SnapshotWidth,
        r: Result<(), AggregatorError>,
    ) -> bool {
        if !self.has(index) {
            r == Err::<(), AggregatorError>(AggregatorError::MissingEntry) && post == self
        } else if self.snapshots().contains_key(index) {
            r == Err::<(), AggregatorError>(AggregatorError::AlreadyExists) && post == self
        } else {
            let s = post.snapshots()[index];
            &&& r is Ok
            &&& post.snapshots() == self.snapshots().insert(index, s)
            &&& post.aggregators() == self.aggregators()
            &&& post.created() == self.created()
            &&& s.captured() == self.value_at(index)
            &&& s.spec_width() == width
            &&& s.deferred() == !self.aggregators()[index].resolved()
            &&& s.deferred() ==> s.source() == index && s.source_id()
                == self.aggregators()[index].ident()
        }
    }

    /// The source aggregator of a deferred snapshot still exists.
    pub open spec fn source_live(self, s: Snapshot) -> bool {
        self.has(s.source()) && self.aggregators()[s.source()].ident() == s.source_id()
    }

    /// The outcome of reading the snapshot at `i` as an integer whose largest
    /// value is `max`.
    pub open spec fn read_outcome(self, i: u64, max: int) -> Result<int, AggregatorError> {
        if !self.snapshots().contains_key(i) {
            Err(AggregatorError::MissingEntry)
        } else if self.snapshots()[i].deferred() && !self.source_live(self.snapshots()[i]) {
            Err(AggregatorError::DanglingSnapshot)
        } else if self.snapshots()[i].captured() > max || self.snapshots()[i].captured()
            > self.snapshots()[i].spec_width().max_value() {
            Err(AggregatorError::WidthMismatch)
        } else {
            Ok(self.snapshots()[i].captured())
        }
    }

    fn entry(&self, index: u64) -> (r: Option<Aggregator>)
        ensures
            self.has(index) ==> r == Some(self.aggregators()[index]),
            !self.has(index) ==> r is None,
    {
        match self.aggregators.get(&index) {
            Some(a) => Some(*a),
            None => None,
        }
    }

    fn store(&mut self, index: u64, agg: Aggregator)
        requires
            old(self).wf(),
            agg.wf(),
            agg.ident() < old(self).created(),
        ensures
            final(self).wf(),
            final(self).aggregators() == old(self).aggregators().insert(index, agg),
            final(self).snapshots() == old(self).snapshots(),
            final(self).created() == old(self).created(),
    {
        self.aggregators.insert(index, agg);
        assert forall|i: u64| #[trigger] self.aggregators().contains_key(i) implies self.aggregators()[i].wf()
            && self.aggregators()[i].ident() < self.created() by {
            if i != index {
                assert(old(self).aggregators().contains_key(i));
            }
        }
        assert forall|i: u64| #[trigger] self.snapshots().contains_key(i) implies self.snapshots()[i].wf() && (
        self.snapshots()[i].deferred() ==> self.snapshots()[i].source_id() < self.created()) by {
            assert(old(self).snapshots().contains_key(i));
        }
    }

    /// Whether an aggregator can still be created: identities are not exhausted.
    pub fn can_create(&self) -> (r: bool)
        ensures
            r == (self.created() < u64::MAX),
    {
        self.created < u64::MAX
    }

    /// Creates an aggregator holding zero at `index`, with the given limit.
    /// Fails with `AlreadyExists` where the index is taken.
    pub fn new(&mut self, index: u64, limit: u128) -> (r: Result<(), AggregatorError>)
        requires
            old(self).wf(),
            old(self).created() < u64::MAX,
        ensures
            final(self).wf(),
            old(self).added(*final(self), index, limit, r),
    {
        if self.aggregators.contains_key(&index) {
            return Err(AggregatorError::AlreadyExists);
        }
        let agg = Aggregator::new(limit, self.created);
        self.created = self.created + 1;
        assert(self.wf()) by {
            assert forall|i: u64| #[trigger] self.aggregators().contains_key(i) implies self.aggregators()[i].wf()
                && self.aggregators()[i].ident() < self.created() by {
                assert(old(self).aggregators().contains_key(i));
            }
            assert forall|i: u64| #[trigger] self.snapshots().contains_key(i) implies self.snapshots()[i].wf() && (
            self.snapshots()[i].deferred() ==> self.snapshots()[i].source_id() < self.created()) by {
                assert(old(self).snapshots().contains_key(i));
            }
        }
        self.store(index, agg);
        Ok(())
    }

    /// Removes the aggregator at `index`. Snapshots taken from it stay; those
    /// that were deferred can no longer be read.
    pub fn destroy(&mut self, index: u64) -> (r: Result<(), AggregatorError>)
        requires
            old(self).wf(),
        ensures
            final(self).wf(),
            old(self).destroyed(*final(self), index, r),
    {
        if !self.aggregators.contains_key(&index) {
            return Err(AggregatorError::MissingEntry);
        }
        self.aggregators.remove(&index);
        assert forall|i: u64| #[trigger] self.aggregators().contains_key(i) implies self.aggregators()[i].wf()
            && self.aggregators()[i].ident() < self.created() by {
            assert(old(self).aggregators().contains_key(i));
        }
        assert forall|i: u64| #[trigger] self.snapshots().contains_key(i) implies self.snapshots()[i].wf() && (
        self.snapshots()[i].deferred() ==> self.snapshots()[i].source_id() < self.created()) by {
            assert(old(self).snapshots().contains_key(i));
        }
        Ok(())
    }

    fn apply_pending(&mut self, index: u64, op: DeltaOp, then_materialize: bool) -> (r: Result<
        (),
        AggregatorError,
    >)
        requires
            old(self).wf(),
        ensures
            final(self).wf(),
            old(self).applied(*final(self), index, op, r),
            r is Ok ==> final(self).aggregators()[index].resolved() == then_materialize,
    {
        let mut agg = match self.entry(index) {
            Some(a) => a,
            None => {
                return Err(AggregatorError::MissingEntry);
            },
        };
        match agg.try_apply(op) {
            Ok(()) => {},
            Err(e) => {
                return Err(from_bound_error(e));
            },
        }
        if then_materialize {
            agg.materialize();
        }
        self.store(index, agg);
        Ok(())
    }

    /// Adds `value` on the pending path: the value is checked against the
    /// limit and stays unresolved.
    pub fn try_add(&mut self, index: u64, value: u128) -> (r: Result<(), AggregatorError>)
        requires
            old(self).wf(),
        ensures
            final(self).wf(),
            old(self).applied(*final(self), index, DeltaOp::Add(value), r),
            r is Ok ==> !final(self).aggregators()[index].resolved(),
    {
        self.apply_pending(index, DeltaOp::Add(value), false)
    }

    /// Subtracts `value` on the pending path: the value is checked against
    /// zero and stays unresolved.
    pub fn try_sub(&mut self, index: u64, value: u128) -> (r: Result<(), AggregatorError>)
        requires
            old(self).wf(),
        ensures
            final(self).wf(),
            old(self).applied(*final(self), index, DeltaOp::Sub(value), r),
            r is Ok ==> !final(self).aggregators()[index].resolved(),
    {
        self.apply_pending(index, DeltaOp::Sub(value), false)
    }

    /// Subtracts `a`, then adds `b`, as one step: where either leg fails,
    /// nothing is applied. The subtraction is checked first.
    pub fn try_sub_add(&mut self, index: u64, a: u128, b: u128) -> (r: Result<(), AggregatorError>)
        requires
            old(self).wf(),
        ensures
            final(self).wf(),
            old(self).sub_added(*final(self), index, a, b, r),
            r is Ok ==> !final(self).aggregators()[index].resolved(),
    {
        let mut agg = match self.entry(index) {
            Some(a) => a,
            None => {
                return Err(AggregatorError::MissingEntry);
            },
        };
        match agg.try_apply(DeltaOp::Sub(a)) {
            Ok(()) => {},
            Err(e) => {
                return Err(from_bound_error(e));
            },
        }
        match agg.try_apply(DeltaOp::Add(b)) {
            Ok(()) => {},
            Err(e) => {
                return Err(from_bound_error(e));
            },
        }
        self.store(index, agg);
        Ok(())
    }

    /// Resolves the pending updates of the aggregator at `index`; its value
    /// does not change.
    pub fn materialize(&mut self, index: u64) -> (r: Result<(), AggregatorError>)
        requires
            old(self).wf(),
        ensures
            final(self).wf(),
            old(self).materialized(*final(self), index, r),
    {
        let mut agg = match self.entry(index) {
            Some(a) => a,
            None => {
                return Err(AggregatorError::MissingEntry);
            },
        };
        agg.materialize();
        self.store(index, agg);
        Ok(())
    }

    fn materialize_and_apply(&mut self, index: u64, op: DeltaOp) -> (r: Result<
        (),
        AggregatorError,
    >)
        requires
            old(self).wf(),
        ensures
            final(self).wf(),
            old(self).applied(*final(self), index, op, r),
            r is Ok ==> final(self).aggregators()[index].resolved(),
    {
        let mut agg = match self.entry(index) {
            Some(a) => a,
            None => {
                return Err(AggregatorError::MissingEntry);
            },
        };
        match agg.materialize_and_try_apply(op) {
            Ok(()) => {},
            Err(e) => {
                return Err(from_bound_error(e));
            },
        }
        self.store(index, agg);
        Ok(())
    }

    /// Resolves the value, then adds `value` to it; the aggregator is left
    /// resolved.
    pub fn materialize_and_try_add(&mut self, index: u64, value: u128) -> (r: Result<
        (),
        AggregatorError,
    >)
        requires
            old(self).wf(),
        ensures
            final(self).wf(),
            old(self).applied(*final(self), index, DeltaOp::Add(value), r),
            r is Ok ==> final(self).aggregators()[index].resolved(),
    {
        self.materialize_and_apply(index, DeltaOp::Add(value))
    }

    /// Resolves the value, then subtracts `value` from it; the aggregator is
    /// left resolved.
    pub fn materialize_and_try_sub(&mut self, index: u64, value: u128) -> (r: Result<
        (),
        AggregatorError,
    >)
        requires
            old(self).wf(),
        ensures
            final(self).wf(),
            old(self).applied(*final(self), index, DeltaOp::Sub(value), r),
            r is Ok ==> final(self).aggregators()[index].resolved(),
    {
        self.materialize_and_apply(index, DeltaOp::Sub(value))
    }

    /// Adds `value` on the pending path, then resolves the value.
    pub fn try_add_and_materialize(&mut self, index: u64, value: u128) -> (r: Result<
        (),
        AggregatorError,
    >)
        requires
            old(self).wf(),
        ensures
            final(self).wf(),
            old(self).applied(*final(self), index, DeltaOp::Add(value), r),
            r is Ok ==> final(self).aggregators()[index].resolved(),
    {
        self.apply_pending(index, DeltaOp::Add(value), true)
    }

    /// Subtracts `value` on the pending path, then resolves the value.
    pub fn try_sub_and_materialize(&mut self, index: u64, value: u128) -> (r: Result<
        (),
        AggregatorError,
    >)
        requires
            old(self).wf(),
        ensures
            final(self).wf(),
            old(self).applied(*final(self), index, DeltaOp::Sub(value), r),
            r is Ok ==> final(self).aggregators()[index].resolved(),
    {
        self.apply_pending(index, DeltaOp::Sub(value), true)
    }

    /// Compares the value of the aggregator at `index` with `expected`.
    pub fn check(&self, index: u64, expected: u128) -> (r: Result<(), AggregatorError>)
        requires
            self.wf(),
        ensures
            r == self.check_outcome(index, expected),
    {
        let agg = match self.entry(index) {
            Some(a) => a,
            None => {
                return Err(AggregatorError::MissingEntry);
            },
        };
        if agg.value() == expected {
            Ok(())
        } else {
            Err(AggregatorError::ValueMismatch)
        }
    }

    fn take_snapshot(&mut self, index: u64, width: SnapshotWidth) -> (r: Result<
        (),
        AggregatorError,
    >)
        requires
            old(self).wf(),
        ensures
            final(self).wf(),
            old(self).captured(*final(self), index, width, r),
    {
        let agg = match self.entry(index) {
            Some(a) => a,
            None => {
                return Err(AggregatorError::MissingEntry);
            },
        };
        if self.snapshots.contains_key(&index) {
            return Err(AggregatorError::AlreadyExists);
        }
        let snap = if agg.is_resolved() {
            Snapshot::concrete(agg.value(), width)
        } else {
            let (base, net) = agg.capture();
            Snapshot::deferred_from(index, agg.id(), base, net, width)
        };
        self.snapshots.insert(index, snap);
        assert forall|i: u64| #[trigger] self.aggregators().contains_key(i) implies self.aggregators()[i].wf()
            && self.aggregators()[i].ident() < self.created() by {
            assert(old(self).aggregators().contains_key(i));
        }
        assert forall|i: u64| #[trigger] self.snapshots().contains_key(i) implies self.snapshots()[i].wf() && (
        self.snapshots()[i].deferred() ==> self.snapshots()[i].source_id() < self.created()) by {
            if i != index {
                assert(old(self).snapshots().contains_key(i));
            }
        }
        Ok(())
    }

    /// Captures the value of the aggregator at `index` into the snapshot at
    /// `index`, readable up to `u128::MAX`.
    pub fn snapshot(&mut self, index: u64) -> (r: Result<(), AggregatorError>)
        requires
            old(self).wf(),
        ensures
            final(self).wf(),
            old(self).captured(*final(self), index, SnapshotWidth::U128, r),
    {
        self.take_snapshot(index, SnapshotWidth::U128)
    }

    /// Captures the value of the aggregator at `index` into the snapshot at
    /// `index`, readable only where it fits a `u64`.
    pub fn snapshot_with_u64_limit(&mut self, index: u64) -> (r: Result<(), AggregatorError>)
        requires
            old(self).wf(),
        ensures
            final(self).wf(),
            old(self).captured(*final(self), index, SnapshotWidth::U64, r),
    {
        self.take_snapshot(index, SnapshotWidth::U64)
    }

    fn read_snapshot(&self, index: u64, max: u128) -> (r: Result<u128, AggregatorError>)
        requires
            self.wf(),
        ensures
            match r {
                Ok(v) => self.read_outcome(index, max as int) == Ok::<int, AggregatorError>(
                    v as int,
                ),
                Err(e) => self.read_outcome(index, max as int) == Err::<int, AggregatorError>(e),
            },
    {
        let snap = match self.snapshots.get(&index) {
            Some(s) => *s,
            None => {
                return Err(AggregatorError::MissingEntry);
            },
        };
        match snap.deferred_source() {
            Some((source, source_id)) => match self.entry(source) {
                Some(a) => {
                    if a.id() != source_id {
                        return Err(AggregatorError::DanglingSnapshot);
                    }
                },
                None => {
                    return Err(AggregatorError::DanglingSnapshot);
                },
            },
            None => {},
        }
        let v = snap.resolve();
        let width_max: u128 = match snap.width() {
            SnapshotWidth::U64 => u64::MAX as u128,
            SnapshotWidth::U128 => u128::MAX,
        };
        if v > max || v > width_max {
            Err(AggregatorError::WidthMismatch)
        } else {
            Ok(v)
        }
    }

    /// Reads the snapshot at `index` as a `u128`.
    pub fn read_snapshot_u128(&self, index: u64) -> (r: Result<u128, AggregatorError>)
        requires
            self.wf(),
        ensures
            match r {
                Ok(v) => self.read_outcome(index, u128::MAX as int) == Ok::<int, AggregatorError>(
                    v as int,
                ),
                Err(e) => self.read_outcome(index, u128::MAX as int) == Err::<int, AggregatorError>(
                    e,
                ),
            },
    {
        self.read_snapshot(index, u128::MAX)
    }

    /// Reads the snapshot at `index` as a `u64`.
    pub fn read_snapshot_u64(&self, index: u64) -> (r: Result<u64, AggregatorError>)
        requires
            self.wf(),
        ensures
            match r {
                Ok(v) => self.read_outcome(index, u64::MAX as int) == Ok::<int, AggregatorError>(
                    v as int,
                ),
                Err(e) => self.read_outcome(index, u64::MAX as int) == Err::<int, AggregatorError>(
                    e,
                ),
            },
    {
        match self.read_snapshot(index, u64::MAX as u128) {
            Ok(v) => Ok(v as u64),
            Err(e) => Err(e),
        }
    }

    /// Adds `value` on the pending path and returns the new value, leaving the
    /// aggregator unresolved.
    pub fn try_add_and_read_snapshot_u128(&mut self, index: u64, value: u128) -> (r: Result<
        u128,
        AggregatorError,
    >)
        requires
            old(self).wf(),
        ensures
            final(self).wf(),
            old(self).applied(*final(self), index, DeltaOp::Add(value), unit_of(r)),
            r matches Ok(v) ==> v == final(self).value_at(index)
                && !final(self).aggregators()[index].resolved(),
    {
        match self.apply_pending(index, DeltaOp::Add(value), false) {
            Ok(()) => {},
            Err(e) => {
                return Err(e);
            },
        }
        let agg = match self.entry(index) {
            Some(a) => a,
            None => {
                return Err(AggregatorError::MissingEntry);
            },
        };
        Ok(agg.value())
    }
}

} // verus!
