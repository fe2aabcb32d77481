//! The parameters of a run.

use vstd::prelude::*;
use crate::fixed::Fixed;
use crate::util::Size2i;

verus! {

/// World parameters that an end user may change. They stay as they are for
/// the length of a run.
#[derive(Clone, Copy, Debug)]
pub struct Params {
    /// The seed of the random stream; without one, the clock picks it.
    pub seed: Option<u64>,
    /// Columns and rows of the plant grid.
    pub plant_grid_size: Size2i,
    /// The length of one simulation step, in seconds.
    pub tick_interval: Fixed,
    /// The number of agents that the world starts with and, while evolution
    /// is on, does not fall below.
    pub agent_count: u32,
    /// Whether agents die and reproduce.
    pub evolution: bool,
}

/// The default step: the raw value next to 0.04 seconds.
pub const DEFAULT_TICK_INTERVAL: i64 = 671_089;

impl Params {
    /// Creates a `Params` with the default values: a 200 by 200 grid, steps
    /// of 0.04 seconds, five agents, evolution on and no seed.
    pub fn default() -> (params: Params)
        ensures
            params.seed is None,
            params.plant_grid_size == (Size2i { w: 200, h: 200 }),
            params.tick_interval == DEFAULT_TICK_INTERVAL,
            params.agent_count == 5,
            params.evolution,
    {
        Params {
            seed: None,
            plant_grid_size: Size2i { w: 200, h: 200 },
            tick_interval: DEFAULT_TICK_INTERVAL,
            agent_count: 5,
            evolution: true,
        }
    }
}

} // verus!
