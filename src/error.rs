//! The failures that an operation on the aggregator table reports.

use vstd::prelude::*;
use crate::delta::BoundError;

verus! {

/// Abort code reported for a value that would exceed its limit.
pub const OVERFLOW_ABORT_CODE: u64 = 131073;

/// Abort code reported for a value that would go below zero.
pub const UNDERFLOW_ABORT_CODE: u64 = 131074;

/// Abort code reported for an operation on an index that holds no entry.
pub const MISSING_ENTRY_ABORT_CODE: u64 = 25863;

/// Why an operation failed. A failed operation changes nothing.
#[derive(Clone, Copy, Debug, PartialEq, Eq, Structural)]
pub enum AggregatorError {
    /// The value would exceed the aggregator's limit.
    Overflow,
    /// The value would go below zero.
    Underflow,
    /// No aggregator or snapshot stands at the index.
    MissingEntry,
    /// The index is already taken.
    AlreadyExists,
    /// A snapshot's value does not fit the width it is read at.
    WidthMismatch,
    /// A deferred snapshot's source aggregator no longer exists.
    DanglingSnapshot,
    /// A checked value differs from the one expected.
    ValueMismatch,
}

impl AggregatorError {
    /// The abort code that the failure is reported with, where it has one.
    pub fn abort_code(&self) -> (r: Option<u64>)
        ensures
            *self == AggregatorError::Overflow ==> r == Some(OVERFLOW_ABORT_CODE),
            *self == AggregatorError::Underflow ==> r == Some(UNDERFLOW_ABORT_CODE),
            *self == AggregatorError::MissingEntry ==> r == Some(MISSING_ENTRY_ABORT_CODE),
            !(*self is Overflow || *self is Underflow || *self is MissingEntry) ==> r is None,
    {
        match self {
            AggregatorError::Overflow => Some(OVERFLOW_ABORT_CODE),
            AggregatorError::Underflow => Some(UNDERFLOW_ABORT_CODE),
            AggregatorError::MissingEntry => Some(MISSING_ENTRY_ABORT_CODE),
            _ => None,
        }
    }
}

/// The table-level failure for a bound violation.
pub open spec fn bound_failure(e: BoundError) -> AggregatorError {
    match e {
        BoundError::Overflow => AggregatorError::Overflow,
        BoundError::Underflow => AggregatorError::Underflow,
    }
}

/// Converts a bound violation into the table-level failure.
pub fn from_bound_error(e: BoundError) -> (r: AggregatorError)
    ensures
        r == bound_failure(e),
{
    match e {
        BoundError::Overflow => AggregatorError::Overflow,
        BoundError::Underflow => AggregatorError::Underflow,
    }
}

} // verus!
