//! Arithmetic on a non-negative value with an inclusive upper limit.

use vstd::prelude::*;
use crate::delta::BoundError;

verus! {

/// `v + x` where it does not exceed `limit`, else `Overflow`.
pub fn bounded_add(v: u128, limit: u128, x: u128) -> (r: Result<u128, BoundError>)
    requires
        v <= limit,
    ensures
        v + x <= limit ==> r == Ok::<u128, BoundError>((v + x) as u128),
        v + x > limit ==> r == Err::<u128, BoundError>(BoundError::Overflow),
{
    if x > limit - v {
        Err(BoundError::Overflow)
    } else {
        Ok(v + x)
    }
}

/// `v - x` where `x <= v`, else `Underflow`.
pub fn bounded_sub(v: u128, x: u128) -> (r: Result<u128, BoundError>)
    ensures
        x <= v ==> r == Ok::<u128, BoundError>((v - x) as u128),
        x > v ==> r == Err::<u128, BoundError>(BoundError::Underflow),
{
    if x > v {
        Err(BoundError::Underflow)
    } else {
        Ok(v - x)
    }
}

} // verus!
