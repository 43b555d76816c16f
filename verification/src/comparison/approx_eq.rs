//! Tolerant equality on fixed-point scalars.

use vstd::prelude::*;

verus! {

use crate::comparison::epsilon::{EPSILON, LOW_EPSILON};

/// True when `a` and `b` differ by at most `eps` units.
pub open spec fn approx_eq_s(a: int, b: int, eps: int) -> bool {
    -eps <= a - b && a - b <= eps
}

/// Approximate equality at the standard tolerance.
pub fn approx_eq(a: i64, b: i64) -> (r: bool)
    ensures
        r == approx_eq_s(a as int, b as int, EPSILON as int),
{
    approx_eq_epsilon(a, b, EPSILON)
}

/// Approximate equality at the coarser tolerance.
pub fn approx_eq_low_precision(a: i64, b: i64) -> (r: bool)
    ensures
        r == approx_eq_s(a as int, b as int, LOW_EPSILON as int),
{
    approx_eq_epsilon(a, b, LOW_EPSILON)
}

/// Approximate equality at a caller-chosen tolerance in units.
pub fn approx_eq_epsilon(a: i64, b: i64, epsilon: i64) -> (r: bool)
    ensures
        r == approx_eq_s(a as int, b as int, epsilon as int),
{
    let d: i128 = (a as i128) - (b as i128);
    -(epsilon as i128) <= d && d <= epsilon as i128
}

} // verus!
