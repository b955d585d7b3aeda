//! Immutable values captured from an aggregator, read later at a chosen width.

use vstd::prelude::*;
use crate::delta::SignedU128;

verus! {

/// The widest integer type that a snapshot may be read as.
#[derive(Clone, Copy, Debug, PartialEq, Eq, Structural)]
pub enum SnapshotWidth {
    U64,
    U128,
}

impl SnapshotWidth {
    /// The largest value of the width.
    pub open spec fn max_value(self) -> int {
        match self {
            SnapshotWidth::U64 => u64::MAX as int,
            SnapshotWidth::U128 => u128::MAX as int,
        }
    }
}

/// What a snapshot captured.
#[derive(Clone, Copy, Debug, PartialEq, Eq, Structural)]
pub enum SnapshotValue {
    /// The value, known at capture.
    Concrete(u128),
    /// The value as a base and a net update of the aggregator at index
    /// `source` with identity `source_id`; readable while that aggregator lives.
    DeferredFrom { source: u64, source_id: u64, base: u128, delta: SignedU128 },
}

/// A value captured from an aggregator, never changed afterwards.
#[derive(Clone, Copy, Debug, PartialEq, Eq, Structural)]
pub struct Snapshot {
    value: SnapshotValue,
    width: SnapshotWidth,
}

impl Snapshot {
    /// The captured value.
    pub closed spec fn captured(self) -> int {
        match self.value {
            SnapshotValue::Concrete(v) => v as int,
            SnapshotValue::DeferredFrom { base, delta, .. } => base + delta.value(),
        }
    }

    /// The width that the snapshot was taken with.
    pub closed spec fn spec_width(self) -> SnapshotWidth {
        self.width
    }

    /// The value was not resolved at capture.
    pub closed spec fn deferred(self) -> bool {
        self.value is DeferredFrom
    }

    /// The index of the aggregator that a deferred snapshot was taken from.
    pub closed spec fn source(self) -> u64 {
        match self.value {
            SnapshotValue::DeferredFrom { source, .. } => source,
            SnapshotValue::Concrete(_) => 0,
        }
    }

    /// The identity of the aggregator that a deferred snapshot was taken from.
    pub closed spec fn source_id(self) -> u64 {
        match self.value {
            SnapshotValue::DeferredFrom { source_id, .. } => source_id,
            SnapshotValue::Concrete(_) => 0,
        }
    }

    /// The captured value is a `u128`.
    pub open spec fn wf(self) -> bool {
        0 <= self.captured() <= u128::MAX
    }

    /// A snapshot of a known value.
    pub fn concrete(v: u128, width: SnapshotWidth) -> (r: Self)
        ensures
            r.wf(),
            r.captured() == v,
            r.spec_width() == width,
            !r.deferred(),
    {
        Snapshot { value: SnapshotValue::Concrete(v), width }
    }

    /// A snapshot of the aggregator at `source`, whose value is `base` plus `delta`.
    pub fn deferred_from(
        source: u64,
        source_id: u64,
        base: u128,
        delta: SignedU128,
        width: SnapshotWidth,
    ) -> (r: Self)
        requires
            0 <= base + delta.value() <= u128::MAX,
        ensures
            r.wf(),
            r.captured() == base + delta.value(),
            r.spec_width() == width,
            r.deferred(),
            r.source() == source,
            r.source_id() == source_id,
    {
        Snapshot { value: SnapshotValue::DeferredFrom { source, source_id, base, delta }, width }
    }

    /// The width that the snapshot was taken with.
    pub fn width(&self) -> (r: SnapshotWidth)
        ensures
            r == self.spec_width(),
    {
        self.width
    }

    /// Whether the value was not resolved at capture, and if so the index and
    /// identity of its source aggregator.
    pub fn deferred_source(&self) -> (r: Option<(u64, u64)>)
        ensures
            r is Some <==> self.deferred(),
            r is Some ==> r == Some((self.source(), self.source_id())),
    {
        match self.value {
            SnapshotValue::Concrete(_) => None,
            SnapshotValue::DeferredFrom { source, source_id, .. } => Some((source, source_id)),
        }
    }

    /// Resolves the captured value.
    pub fn resolve(&self) -> (r: u128)
        requires
            self.wf(),
        ensures
            r == self.captured(),
    {
        match self.value {
            SnapshotValue::Concrete(v) => v,
            SnapshotValue::DeferredFrom { base, delta, .. } => match delta {
                SignedU128::Positive(n) => base + n,
                SignedU128::Negative(n) => base - n,
            },
        }
    }
}

} // verus!
