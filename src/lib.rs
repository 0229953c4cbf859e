//! Index layouts for quadrature over evenly spaced samples.
//!
//! The trapezoidal rule and composite Simpson's rule both reduce to sums of
//! sample values at index sets fixed by the number of samples alone. This
//! crate decides, for a sample count, whether a rule applies and which
//! indices each of its weighted sums runs over, with proofs that the sets
//! are exactly the right ones.

pub mod simpson;
pub mod stride;
pub mod sums;
pub mod trapezoid;
