//! Pending adjustments to a base value that is not known yet, with the range of
//! values they reach, so that bounds can be checked once the base is known.

use vstd::prelude::*;

verus! {

/// Which bound a value left.
#[derive(Clone, Copy, Debug, PartialEq, Eq, Structural)]
pub enum BoundError {
    /// The value would exceed its limit.
    Overflow,
    /// The value would go below zero.
    Underflow,
}

/// One commutative update: add or subtract an amount.
#[derive(Clone, Copy, Debug, PartialEq, Eq, Structural)]
pub enum DeltaOp {
    Add(u128),
    Sub(u128),
}

impl DeltaOp {
    /// The update as a signed integer.
    pub open spec fn signed(self) -> int {
        match self {
            DeltaOp::Add(x) => x as int,
            DeltaOp::Sub(x) => -(x as int),
        }
    }
}

/// A signed amount whose magnitude is a `u128`.
#[derive(Clone, Copy, Debug, PartialEq, Eq, Structural)]
pub enum SignedU128 {
    Positive(u128),
    Negative(u128),
}

impl SignedU128 {
    pub open spec fn value(self) -> int {
        match self {
            SignedU128::Positive(x) => x as int,
            SignedU128::Negative(x) => -(x as int),
        }
    }
}

pub open spec fn max_int(a: int, b: int) -> int {
    if a >= b { a } else { b }
}

pub open spec fn min_int(a: int, b: int) -> int {
    if a <= b { a } else { b }
}

/// The sum of a history of signed updates.
pub open spec fn net_of(h: Seq<int>) -> int
    decreases h.len(),
{
    if h.len() == 0 {
        0
    } else {
        net_of(h.drop_last()) + h.last()
    }
}

/// The highest running sum along a history, the empty prefix included.
pub open spec fn peak_of(h: Seq<int>) -> int
    decreases h.len(),
{
    if h.len() == 0 {
        0
    } else {
        max_int(peak_of(h.drop_last()), net_of(h))
    }
}

/// The lowest running sum along a history, the empty prefix included.
pub open spec fn trough_of(h: Seq<int>) -> int
    decreases h.len(),
{
    if h.len() == 0 {
        0
    } else {
        min_int(trough_of(h.drop_last()), net_of(h))
    }
}

/// One step of sequential execution: the new value, or `None` where it leaves `[0, limit]`.
pub open spec fn step(v: int, limit: int, d: int) -> Option<int> {
    if 0 <= v + d && v + d <= limit {
        Some(v + d)
    } else {
        None
    }
}

/// Sequential execution of a history from `base`: the final value, or `None`
/// where some step leaves `[0, limit]`.
pub open spec fn replay(base: int, limit: int, h: Seq<int>) -> Option<int>
    decreases h.len(),
{
    if h.len() == 0 {
        Some(base)
    } else {
        match replay(base, limit, h.drop_last()) {
            Some(v) => step(v, limit, h.last()),
            None => None,
        }
    }
}

pub proof fn lemma_peak_trough_bounds(h: Seq<int>)
    ensures
        peak_of(h) >= 0,
        trough_of(h) <= 0,
        trough_of(h) <= net_of(h) <= peak_of(h),
    decreases h.len(),
{
    if h.len() > 0 {
        lemma_peak_trough_bounds(h.drop_last());
    }
}

/// Sequential execution from a valid base succeeds exactly when every running
/// sum stays in range, and then ends at the base plus the net sum.
pub proof fn lemma_replay_by_range(base: int, limit: int, h: Seq<int>)
    requires
        0 <= base <= limit,
    ensures
        replay(base, limit, h) is Some <==> (base + peak_of(h) <= limit && base + trough_of(h)
            >= 0),
        replay(base, limit, h) is Some ==> replay(base, limit, h) == Some(base + net_of(h)),
    decreases h.len(),
{
    if h.len() > 0 {
        lemma_replay_by_range(base, limit, h.drop_last());
        lemma_peak_trough_bounds(h.drop_last());
    }
}

proof fn lemma_net_remove(s: Seq<int>, i: int)
    requires
        0 <= i < s.len(),
    ensures
        net_of(s) == net_of(s.remove(i)) + s[i],
    decreases s.len(),
{
    if i == s.len() - 1 {
        assert(s.remove(i) =~= s.drop_last());
    } else {
        lemma_net_remove(s.drop_last(), i);
        assert(s.remove(i).drop_last() =~= s.drop_last().remove(i));
    }
}

/// Reordering a history does not change its net sum.
pub proof fn lemma_net_permutation(h1: Seq<int>, h2: Seq<int>)
    requires
        h1.to_multiset() == h2.to_multiset(),
    ensures
        net_of(h1) == net_of(h2),
    decreases h1.len(),
{
    broadcast use vstd::seq_lib::group_to_multiset_ensures;

    if h1.len() == 0 {
        assert(h2.to_multiset().len() == 0);
    } else {
        let x = h1.last();
        let rest = h1.drop_last();
        assert(h1 =~= rest.push(x));
        assert(h1.to_multiset().count(x) > 0);
        assert(h2.contains(x));
        let i = choose|i: int| 0 <= i < h2.len() && h2[i] == x;
        assert(rest.to_multiset() =~= h2.remove(i).to_multiset());
        lemma_net_permutation(rest, h2.remove(i));
        lemma_net_remove(h2, i);
    }
}

/// Updates commute: any two orders of the same updates that both run in
/// sequence without leaving `[0, limit]` end at the same value, the starting
/// value plus the sum of the updates.
pub proof fn lemma_commutative_updates(base: int, limit: int, h1: Seq<int>, h2: Seq<int>)
    requires
        0 <= base <= limit,
        h1.to_multiset() == h2.to_multiset(),
        replay(base, limit, h1) is Some,
        replay(base, limit, h2) is Some,
    ensures
        replay(base, limit, h1) == replay(base, limit, h2),
        replay(base, limit, h1) == Some(base + net_of(h1)),
{
    lemma_replay_by_range(base, limit, h1);
    lemma_replay_by_range(base, limit, h2);
    lemma_net_permutation(h1, h2);
}

/// The running sums of a concatenation: those of the first part, then those of
/// the second shifted by the first part's net sum.
pub proof fn lemma_concat_range(a: Seq<int>, b: Seq<int>)
    ensures
        net_of(a + b) == net_of(a) + net_of(b),
        peak_of(a + b) == max_int(peak_of(a), net_of(a) + peak_of(b)),
        trough_of(a + b) == min_int(trough_of(a), net_of(a) + trough_of(b)),
    decreases b.len(),
{
    lemma_peak_trough_bounds(a);
    if b.len() == 0 {
        assert(a + b =~= a);
    } else {
        lemma_concat_range(a, b.drop_last());
        assert((a + b).drop_last() =~= a + b.drop_last());
        assert((a + b).last() == b.last());
    }
}

/// The pending adjustments applied to an aggregator since its value was last
/// resolved, summarised by their net sum and the furthest excursions above and
/// below the starting point.
#[derive(Clone, Copy)]
pub struct DeltaAccumulator {
    net: SignedU128,
    max_up: u128,
    max_down: u128,
    history: Ghost<Seq<int>>,
}

impl DeltaAccumulator {
    /// The signed updates applied so far, oldest first.
    pub closed spec fn history(self) -> Seq<int> {
        self.history@
    }

    /// The summary fields agree with the history.
    pub closed spec fn inv(self) -> bool {
        &&& self.net.value() == net_of(self.history@)
        &&& self.max_up as int == peak_of(self.history@)
        &&& self.max_down as int == -trough_of(self.history@)
    }

    /// Some base in `[0, limit]` absorbs the whole history.
    pub open spec fn wf(self, limit: int) -> bool {
        &&& self.inv()
        &&& peak_of(self.history()) - trough_of(self.history()) <= limit
    }

    /// An empty accumulator.
    pub fn new() -> (r: Self)
        ensures
            r.inv(),
            r.history() == Seq::<int>::empty(),
    {
        DeltaAccumulator {
            net: SignedU128::Positive(0),
            max_up: 0,
            max_down: 0,
            history: Ghost(Seq::empty()),
        }
    }

    /// The net sum of the updates applied so far.
    pub fn net(&self) -> (r: SignedU128)
        requires
            self.inv(),
        ensures
            r.value() == net_of(self.history()),
    {
        self.net
    }

    /// Records one more update. Fails, and changes nothing, where no base in
    /// `[0, limit]` could absorb the extended history: with `Overflow` for an
    /// addition, with `Underflow` for a subtraction.
    pub fn apply(&mut self, op: DeltaOp, limit: u128) -> (r: Result<(), BoundError>)
        requires
            old(self).wf(limit as int),
        ensures
            ({
                let h = old(self).history().push(op.signed());
                &&& r is Ok <==> peak_of(h) - trough_of(h) <= limit
                &&& r is Ok ==> final(self).history() == h && final(self).wf(limit as int)
                &&& r is Err ==> *final(self) == *old(self)
                &&& r == Err::<(), BoundError>(BoundError::Overflow) <==> (r is Err && op is Add)
                &&& r == Err::<(), BoundError>(BoundError::Underflow) <==> (r is Err && op is Sub)
            }),
    {
        let ghost h = self.history@.push(op.signed());
        proof {
            lemma_peak_trough_bounds(self.history@);
            assert(h.drop_last() =~= self.history@);
        }
        match op {
            DeltaOp::Add(x) => {
                let new_net = match self.net {
                    SignedU128::Positive(n) => {
                        if n > limit || x > limit - n {
                            return Err(BoundError::Overflow);
                        }
                        SignedU128::Positive(n + x)
                    },
                    SignedU128::Negative(n) => {
                        if x >= n {
                            SignedU128::Positive(x - n)
                        } else {
                            SignedU128::Negative(n - x)
                        }
                    },
                };
                let new_up = match new_net {
                    SignedU128::Positive(p) => if p > self.max_up { p } else { self.max_up },
                    SignedU128::Negative(_) => self.max_up,
                };
                if new_up > limit || self.max_down > limit - new_up {
                    return Err(BoundError::Overflow);
                }
                self.net = new_net;
                self.max_up = new_up;
            },
            DeltaOp::Sub(x) => {
                let new_net = match self.net {
                    SignedU128::Negative(n) => {
                        if n > limit || x > limit - n {
                            return Err(BoundError::Underflow);
                        }
                        SignedU128::Negative(n + x)
                    },
                    SignedU128::Positive(n) => {
                        if x >= n {
                            SignedU128::Negative(x - n)
                        } else {
                            SignedU128::Positive(n - x)
                        }
                    },
                };
                let new_down = match new_net {
                    SignedU128::Negative(m) => if m > self.max_down { m } else { self.max_down },
                    SignedU128::Positive(_) => self.max_down,
                };
                if new_down > limit || self.max_up > limit - new_down {
                    return Err(BoundError::Underflow);
                }
                self.net = new_net;
                self.max_down = new_down;
            },
        }
        self.history = Ghost(h);
        Ok(())
    }

    /// Checks the history against a known base: `Overflow` where some running
    /// value exceeds `limit`, else `Underflow` where some running value goes
    /// below zero.
    pub fn try_bound_check(&self, base: u128, limit: u128) -> (r: Result<(), BoundError>)
        requires
            self.wf(limit as int),
            base <= limit,
        ensures
            r is Ok <==> replay(base as int, limit as int, self.history()) is Some,
            r == Err::<(), BoundError>(BoundError::Overflow) <==> base + peak_of(self.history())
                > limit,
            r == Err::<(), BoundError>(BoundError::Underflow) <==> (base + peak_of(self.history())
                <= limit && base + trough_of(self.history()) < 0),
    {
        proof {
            lemma_replay_by_range(base as int, limit as int, self.history@);
        }
        if self.max_up > limit - base {
            Err(BoundError::Overflow)
        } else if self.max_down > base {
            Err(BoundError::Underflow)
        } else {
            Ok(())
        }
    }

    /// The value that the history leads to from `base`.
    pub fn resolve(&self, base: u128, limit: u128) -> (r: u128)
        requires
            self.wf(limit as int),
            base <= limit,
            replay(base as int, limit as int, self.history()) is Some,
        ensures
            replay(base as int, limit as int, self.history()) == Some(r as int),
            r == base + net_of(self.history()),
    {
        proof {
            lemma_replay_by_range(base as int, limit as int, self.history@);
            lemma_peak_trough_bounds(self.history@);
        }
        match self.net {
            SignedU128::Positive(n) => base + n,
            SignedU128::Negative(n) => base - n,
        }
    }

    /// Appends the history of `later` to this one, as when the updates of a
    /// later transaction are combined with those of an earlier one. Fails, and
    /// changes nothing, where no base in `[0, limit]` could absorb the combined
    /// history: with `Overflow` where the combination raises the highest
    /// running sum, else with `Underflow`.
    pub fn merge(&mut self, later: &DeltaAccumulator, limit: u128) -> (r: Result<(), BoundError>)
        requires
            old(self).wf(limit as int),
            later.wf(limit as int),
        ensures
            ({
                let h = old(self).history() + later.history();
                &&& r is Ok <==> peak_of(h) - trough_of(h) <= limit
                &&& r is Ok ==> final(self).history() == h && final(self).wf(limit as int)
                &&& r is Err ==> *final(self) == *old(self)
                &&& r == Err::<(), BoundError>(BoundError::Overflow) <==> (r is Err && peak_of(h)
                    > peak_of(old(self).history()))
            }),
    {
        let ghost h = self.history@ + later.history@;
        proof {
            lemma_concat_range(self.history@, later.history@);
            lemma_peak_trough_bounds(self.history@);
            lemma_peak_trough_bounds(later.history@);
        }
        let new_up: Option<u128> = match self.net {
            SignedU128::Positive(n) => {
                if later.max_up > limit - n {
                    None
                } else if n + later.max_up > self.max_up {
                    Some(n + later.max_up)
                } else {
                    Some(self.max_up)
                }
            },
            SignedU128::Negative(n) => {
                if later.max_up > n && later.max_up - n > self.max_up {
                    Some(later.max_up - n)
                } else {
                    Some(self.max_up)
                }
            },
        };
        let new_down: Option<u128> = match self.net {
            SignedU128::Negative(n) => {
                if later.max_down > limit - n {
                    None
                } else if n + later.max_down > self.max_down {
                    Some(n + later.max_down)
                } else {
                    Some(self.max_down)
                }
            },
            SignedU128::Positive(n) => {
                if later.max_down > n && later.max_down - n > self.max_down {
                    Some(later.max_down - n)
                } else {
                    Some(self.max_down)
                }
            },
        };
        let raised = match new_up {
            Some(u) => u > self.max_up,
            None => true,
        };
        let (up, down) = match (new_up, new_down) {
            (Some(u), Some(d)) => {
                if u > limit - d {
                    return Err(if raised { BoundError::Overflow } else { BoundError::Underflow });
                }
                (u, d)
            },
            _ => {
                return Err(if raised { BoundError::Overflow } else { BoundError::Underflow });
            },
        };
        let net = match (self.net, later.net) {
            (SignedU128::Positive(a), SignedU128::Positive(b)) => SignedU128::Positive(a + b),
            (SignedU128::Negative(a), SignedU128::Negative(b)) => SignedU128::Negative(a + b),
            (SignedU128::Positive(a), SignedU128::Negative(b)) => {
                if a >= b {
                    SignedU128::Positive(a - b)
                } else {
                    SignedU128::Negative(b - a)
                }
            },
            (SignedU128::Negative(a), SignedU128::Positive(b)) => {
                if b >= a {
                    SignedU128::Positive(b - a)
                } else {
                    SignedU128::Negative(a - b)
                }
            },
        };
        self.net = net;
        self.max_up = up;
        self.max_down = down;
        self.history = Ghost(h);
        Ok(())
    }
}

} // verus!
