//! Sequential random sampling without replacement by the hidden-shuffle
//! method: `n` distinct indices drawn uniformly from `[0, N)` and emitted in
//! strictly increasing order, using only constant working state beyond the
//! sampler's own scalars.
//!
//! The probabilistic work — drawing uniform variates and refining the
//! floating-point scale factor — happens outside this crate.  A driver turns
//! each draw into a plain integer event (a geometric skip, an acceptance
//! coin, a floored order-statistic position) and feeds it to the verified
//! state machines here, which make every decision, own every invariant, and
//! account for every emitted value.

pub mod errors;
pub mod laws;
pub mod sampler;
pub mod setup;
