//! Tolerances, in fixed-point units, for approximate comparison.

use vstd::prelude::*;

verus! {

/// Standard tolerance: ten units, one part in 100,000 of 1.0.
pub const EPSILON: i64 = 10;

/// Coarser tolerance for chained computations such as products of
/// inverses: one part in 1,000 of 1.0.
pub const LOW_EPSILON: i64 = 1000;

} // verus!
