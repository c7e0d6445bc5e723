//! Core logic of an interactive terminal dashboard for live network-traffic
//! counters: the application state store, the per-tick sampler that maintains
//! bounded rolling series, the key-input state machine, and the event-loop
//! timing decisions.

use vstd::prelude::*;

pub mod input;
pub mod sampler;
pub mod state;
pub mod timing;

verus! {

/// Maximum number of entries kept in each rolling series.
pub const CAPACITY: usize = 100;

} // verus!
