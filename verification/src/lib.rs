//! Evaluation engine for two-venue round-trip swaps: fixed-point currency
//! conversion, the two-leg trade simulation, the choice between the two
//! directions, and the polling scheduler with its opportunity log.

pub mod money;
pub mod units;
pub mod trade;
pub mod selector;
pub mod scheduler;
