//! One telemetry snapshot from the simulation. A sample is immutable once
//! constructed and crosses from the simulation's execution context to the
//! visualizer's exactly once, through the telemetry channel.

use vstd::prelude::*;

verus! {

/// A telemetry snapshot: where the agent stands, how much energy it has and
/// how many rocks it carries, one instance per simulation tick.
#[derive(Clone, Copy, Debug, PartialEq, Eq, Structural)]
pub struct Sample {
    /// Row of the tile the agent stands on.
    pub row: usize,
    /// Column of the tile the agent stands on.
    pub col: usize,
    /// Remaining energy reported by the simulation.
    pub energy_level: u64,
    /// Number of rocks the agent reports carrying.
    pub carried_rock_count: u64,
}

} // verus!
