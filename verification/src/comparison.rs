//! Approximate scalar comparison, shared by every component-wise equality.

pub mod approx_eq;
pub mod epsilon;
