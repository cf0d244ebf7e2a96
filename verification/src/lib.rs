//! A CPU saturation benchmark engine.
//!
//! The library drives every logical core with batched arithmetic work until a
//! fixed operation budget is consumed, tracks progress through one shared
//! wait-free counter, derives display-ready telemetry time series on a fixed
//! cadence, and computes the final throughput statistics.

use vstd::prelude::*;

pub mod engine;
pub mod fmt;
pub mod history;
pub mod model;
pub mod state;
pub mod stats;

verus! {

/// Total work budget for one run, in operations.
pub const TARGET_OPERATIONS: u64 = 100_000_000_000;

/// Number of local iterations a worker accumulates before folding them into
/// the shared counter.
pub const BATCH: u64 = 1_000_000;

/// Upper bound on the number of samples a history buffer retains.
pub const HISTORY_CAPACITY: usize = 240;

/// How long one control-loop tick waits for an input event, in
/// milliseconds. The wait always returns within this bound, so the control
/// loop never blocks indefinitely.
pub const TICK_TIMEOUT_MS: u64 = 200;

} // verus!
