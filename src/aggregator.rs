//! A bounded counter whose value is either resolved or pending: a known base
//! with a history of commutative updates whose resolution is deferred.

use vstd::prelude::*;
use crate::bounded::{bounded_add, bounded_sub};
use crate::delta::{
    lemma_peak_trough_bounds, lemma_replay_by_range, net_of, peak_of, replay, step, trough_of,
    BoundError, DeltaAccumulator, DeltaOp, SignedU128,
};

verus! {

/// The representation of an aggregator's value.
#[derive(Clone, Copy)]
pub enum AggregatorState {
    /// The value is known.
    Resolved(u128),
    /// The value is `base` plus the updates recorded in `delta`.
    Pending { base: u128, delta: DeltaAccumulator },
}

/// A counter in `[0, limit]`, identified by the `id` it was created with.
#[derive(Clone, Copy)]
pub struct Aggregator {
    limit: u128,
    id: u64,
    state: AggregatorState,
}

impl Aggregator {
    /// The inclusive upper bound, fixed at creation.
    pub closed spec fn ceiling(self) -> int {
        self.limit as int
    }

    /// The identity given at creation.
    pub closed spec fn ident(self) -> u64 {
        self.id
    }

    /// The value, with any pending updates applied.
    pub closed spec fn current(self) -> int {
        match self.state {
            AggregatorState::Resolved(v) => v as int,
            AggregatorState::Pending { base, delta } => base + net_of(delta.history()),
        }
    }

    /// No update is pending.
    pub closed spec fn resolved(self) -> bool {
        self.state is Resolved
    }

    /// The representation is consistent and the value lies in `[0, limit]`.
    pub closed spec fn wf(self) -> bool {
        &&& 0 <= self.current() <= self.ceiling()
        &&& match self.state {
            AggregatorState::Resolved(v) => true,
            AggregatorState::Pending { base, delta } => {
                &&& base <= self.limit
                &&& delta.wf(self.limit as int)
                &&& replay(base as int, self.limit as int, delta.history()) is Some
            },
        }
    }

    /// A well-formed aggregator holds a value in `[0, limit]`, and its limit is a `u128`.
    pub proof fn lemma_wf_bounds(self)
        requires
            self.wf(),
        ensures
            0 <= self.current() <= self.ceiling(),
            self.ceiling() <= u128::MAX,
    {
    }

    /// A resolved aggregator holding zero.
    pub fn new(limit: u128, id: u64) -> (r: Self)
        ensures
            r.wf(),
            r.current() == 0,
            r.ceiling() == limit,
            r.ident() == id,
            r.resolved(),
    {
        Aggregator { limit, id, state: AggregatorState::Resolved(0) }
    }

    /// The inclusive upper bound.
    pub fn limit(&self) -> (r: u128)
        ensures
            r == self.ceiling(),
    {
        self.limit
    }

    /// The identity given at creation.
    pub fn id(&self) -> (r: u64)
        ensures
            r == self.ident(),
    {
        self.id
    }

    /// Whether no update is pending.
    pub fn is_resolved(&self) -> (r: bool)
        ensures
            r == self.resolved(),
    {
        match self.state {
            AggregatorState::Resolved(_) => true,
            AggregatorState::Pending { .. } => false,
        }
    }

    /// The value, resolving pending updates without changing the aggregator.
    pub fn value(&self) -> (r: u128)
        requires
            self.wf(),
        ensures
            r == self.current(),
    {
        match self.state {
            AggregatorState::Resolved(v) => v,
            AggregatorState::Pending { base, delta } => delta.resolve(base, self.limit),
        }
    }

    /// Records an update on the pending path: the update is checked against
    /// the range that the pending history reaches, and the value stays
    /// unresolved. Fails, changing nothing, exactly where sequential execution
    /// would leave `[0, limit]`: `Overflow` for an addition, `Underflow` for a
    /// subtraction.
    pub fn try_apply(&mut self, op: DeltaOp) -> (r: Result<(), BoundError>)
        requires
            old(self).wf(),
        ensures
            final(self).wf(),
            final(self).ceiling() == old(self).ceiling(),
            final(self).ident() == old(self).ident(),
            r is Ok <==> step(old(self).current(), old(self).ceiling(), op.signed()) is Some,
            r is Ok ==> final(self).current() == old(self).current() + op.signed()
                && !final(self).resolved(),
            r is Err ==> *final(self) == *old(self),
            r == Err::<(), BoundError>(BoundError::Overflow) <==> (r is Err && op is Add),
            r == Err::<(), BoundError>(BoundError::Underflow) <==> (r is Err && op is Sub),
    {
        let (base, mut delta) = match self.state {
            AggregatorState::Resolved(v) => (v, DeltaAccumulator::new()),
            AggregatorState::Pending { base, delta } => (base, delta),
        };
        let ghost h = delta.history();
        let ghost h2 = h.push(op.signed());
        proof {
            lemma_replay_by_range(base as int, self.limit as int, h);
            lemma_replay_by_range(base as int, self.limit as int, h2);
            lemma_peak_trough_bounds(h);
            assert(h2.drop_last() =~= h);
        }
        match delta.apply(op, self.limit) {
            Ok(()) => {},
            Err(e) => {
                return Err(e);
            },
        }
        match delta.try_bound_check(base, self.limit) {
            Ok(()) => {},
            Err(e) => {
                return Err(e);
            },
        }
        self.state = AggregatorState::Pending { base, delta };
        Ok(())
    }

    /// Resolves pending updates into a known value.
    pub fn materialize(&mut self)
        requires
            old(self).wf(),
        ensures
            final(self).wf(),
            final(self).resolved(),
            final(self).current() == old(self).current(),
            final(self).ceiling() == old(self).ceiling(),
            final(self).ident() == old(self).ident(),
    {
        let v = self.value();
        self.state = AggregatorState::Resolved(v);
    }

    /// Resolves the value, then applies the update to it directly. Fails
    /// exactly where sequential execution would leave `[0, limit]`; the
    /// aggregator may be left resolved on failure, with its value unchanged.
    pub fn materialize_and_try_apply(&mut self, op: DeltaOp) -> (r: Result<(), BoundError>)
        requires
            old(self).wf(),
        ensures
            final(self).wf(),
            final(self).ceiling() == old(self).ceiling(),
            final(self).ident() == old(self).ident(),
            final(self).resolved(),
            r is Ok <==> step(old(self).current(), old(self).ceiling(), op.signed()) is Some,
            r is Ok ==> final(self).current() == old(self).current() + op.signed(),
            r is Err ==> final(self).current() == old(self).current(),
            r == Err::<(), BoundError>(BoundError::Overflow) <==> (r is Err && op is Add),
            r == Err::<(), BoundError>(BoundError::Underflow) <==> (r is Err && op is Sub),
    {
        let v = self.value();
        self.state = AggregatorState::Resolved(v);
        let res = match op {
            DeltaOp::Add(x) => bounded_add(v, self.limit, x),
            DeltaOp::Sub(x) => bounded_sub(v, x),
        };
        match res {
            Ok(w) => {
                self.state = AggregatorState::Resolved(w);
                Ok(())
            },
            Err(e) => Err(e),
        }
    }

    /// The value as seen now: known where resolved, else the pending base and
    /// the net of the pending updates.
    pub fn capture(&self) -> (r: (u128, SignedU128))
        requires
            self.wf(),
        ensures
            r.0 + r.1.value() == self.current(),
            0 <= self.current() <= u128::MAX,
            self.resolved() ==> r.1 == SignedU128::Positive(0),
    {
        match self.state {
            AggregatorState::Resolved(v) => (v, SignedU128::Positive(0)),
            AggregatorState::Pending { base, delta } => (base, delta.net()),
        }
    }
}

} // verus!
