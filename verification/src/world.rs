//! The world: a plant grid, the agents on it, and the random stream that
//! both draw from. One step regrows the plants, steps every agent in turn,
//! and then lets the dead leave and the newborn arrive.

use vstd::prelude::*;
use crate::agent::Agent;
use crate::agent::REPRODUCE_INTERVAL;
use crate::agent::TickResult;
use crate::fixed::Fixed;
use crate::fixed::ONE;
use crate::params::Params;
use crate::plant_grid::PlantGrid;
use crate::plant_grid::PlantGridView;
use crate::plant_grid::REGENERATE_INTERVAL;
use crate::plant_grid::cell_index;
use crate::plant_grid::generated;
use crate::plant_grid::regenerated_times;
use crate::plant_grid::regrowths_due;
use crate::rng::pcg32_seeded;
use crate::rng::pcg32_words;
use crate::rng::seeded;
use crate::util::Size2i;
use crate::util::spec_vec2f_to_vec2i;
use crate::util::time_ns;
use crate::util::vec2f_to_vec2i;

verus! {

/// The latest time that a world can reach: by then a lineage that bred as
/// fast as agents can has filled the count of generations.
pub const MAX_TIME: i64 = 7_205_759_400_437_350_400;

/// A seed picked by the clock is below this.
pub const CLOCK_SEED_BOUND: u64 = 10_000_000;

/// A universe in which everything resides. Contains a plant grid and a
/// number of agents. Keeps track of the current (simulation) time and of
/// the longest life and the latest generation among the agents that died.
pub struct World {
    pub agents: Vec<Agent>,
    pub plant_grid: PlantGrid,
    pub time: Fixed,
    pub seed: u64,
    pub rng: rand_pcg::Lcg64Xsh32,
    pub max_time_alive: Fixed,
    pub max_generation: u32,
}

/// What a world is, mathematically.
pub struct WorldView {
    pub agents: Seq<Agent>,
    pub plant_grid: PlantGridView,
    pub time: int,
    pub seed: u64,
    /// The two words of the generator.
    pub words: (u64, u64),
    pub max_time_alive: int,
    pub max_generation: u32,
}

impl View for World {
    type V = WorldView;

    open spec fn view(&self) -> WorldView {
        WorldView {
            agents: self.agents@,
            plant_grid: self.plant_grid@,
            time: self.time as int,
            seed: self.seed,
            words: pcg32_words(self.rng),
            max_time_alive: self.max_time_alive as int,
            max_generation: self.max_generation,
        }
    }
}

/// An agent that fits a world at `time`: it is well formed, and the
/// generations before it, each of which took more than
/// `REPRODUCE_INTERVAL` to breed, and its own life fit into the time.
pub open spec fn settled(agent: Agent, time: int) -> bool {
    agent.wf() && (agent.generation - 1) * REPRODUCE_INTERVAL + agent.time_alive <= time
}

/// The first `count` of the agents that a world starts with, and the
/// generator after them.
pub open spec fn first_agents(size: Size2i, words: (u64, u64), count: nat) -> (
    Seq<Agent>,
    (u64, u64),
)
    decreases count,
{
    if count == 0 {
        (Seq::empty(), words)
    } else {
        let before = first_agents(size, words, (count - 1) as nat);
        let agent = Agent::spec_new_random(size, before.1);
        (before.0.push(agent.0), agent.1)
    }
}

/// The agents and the plants while the agents are stepped in turn.
pub struct Turns {
    /// The agents; those whose turn has been are stepped.
    pub agents: Seq<Agent>,
    /// The densities, without what the agents ate.
    pub cells: Seq<u8>,
    /// What each turn brought about.
    pub results: Seq<TickResult>,
}

/// The agents and the plants once the first `count` agents have had their
/// turn. An agent is stepped on the grid as the agents before it left it,
/// and where it eats, the cell under its mouth is cleared.
pub open spec fn turns_upto(agents: Seq<Agent>, grid: PlantGridView, d_time: int, count: int) -> Turns
    decreases count,
{
    if count <= 0 {
        Turns { agents, cells: grid.cells, results: Seq::empty() }
    } else {
        let before = turns_upto(agents, grid, d_time, count - 1);
        let turn = before.agents[count - 1].spec_tick(
            PlantGridView { cells: before.cells, ..grid },
            d_time,
        );
        let mouth = spec_vec2f_to_vec2i(turn.0.spec_mouth_pos());
        Turns {
            agents: before.agents.update(count - 1, turn.0),
            cells: if turn.1.eat {
                before.cells.update(cell_index(grid.size, mouth.x as int, mouth.y as int), 0)
            } else {
                before.cells
            },
            results: before.results.push(turn.1),
        }
    }
}

/// The population while the dead leave and the newborn arrive.
pub struct Census {
    /// The agents that stay, in their order.
    pub kept: Seq<Agent>,
    /// The agents that arrive, in the order in which they came.
    pub born: Seq<Agent>,
    /// The generator.
    pub words: (u64, u64),
    /// The longest life among the dead.
    pub max_time_alive: int,
    /// The latest generation among the dead.
    pub max_generation: u32,
}

/// The population once the first `count` of the stepped agents have been
/// dealt with, in their order. A dead agent leaves, after the records have
/// taken note of it; where that leaves fewer agents than
/// `params.agent_count`, a random agent arrives. An agent that lives stays,
/// and where it is due a child, the child arrives.
pub open spec fn census_upto(
    agents: Seq<Agent>,
    results: Seq<TickResult>,
    params: Params,
    start: Census,
    count: int,
) -> Census
    decreases count,
{
    if count <= 0 {
        start
    } else {
        let before = census_upto(agents, results, params, start, count - 1);
        let agent = agents[count - 1];
        let result = results[count - 1];
        if result.die {
            let living = before.kept.len() + before.born.len() + (agents.len() - count);
            let noted = Census {
                max_time_alive: if agent.time_alive > before.max_time_alive {
                    agent.time_alive as int
                } else {
                    before.max_time_alive
                },
                max_generation: if agent.generation > before.max_generation {
                    agent.generation
                } else {
                    before.max_generation
                },
                ..before
            };
            if living < params.agent_count {
                let fresh = Agent::spec_new_random(params.plant_grid_size, before.words);
                Census { born: before.born.push(fresh.0), words: fresh.1, ..noted }
            } else {
                noted
            }
        } else if result.reproduce {
            let child = agent.spec_reproduce(before.words);
            Census {
                kept: before.kept.push(agent),
                born: before.born.push(child.0),
                words: child.1,
                ..before
            }
        } else {
            Census { kept: before.kept.push(agent), ..before }
        }
    }
}

/// The seed that a reading of the clock gives.
pub open spec fn spec_clock_seed(nanos: u128) -> u64 {
    ((nanos % 0x1_0000_0000_0000_0000) % (CLOCK_SEED_BOUND as u128)) as u64
}

/// Picks a seed from a reading of the clock in nanoseconds: its lower 64
/// bits, taken modulo `CLOCK_SEED_BOUND`.
pub fn clock_seed(nanos: u128) -> (seed: u64)
    ensures
        seed == spec_clock_seed(nanos),
        seed < CLOCK_SEED_BOUND,
{
    ((nanos % 0x1_0000_0000_0000_0000) as u64) % CLOCK_SEED_BOUND
}

impl WorldView {
    /// What holds of every world that this library makes or steps: the grid
    /// is well formed and has cells, the time is between 0 and `MAX_TIME`,
    /// and every agent fits the world at that time.
    pub open spec fn wf(self) -> bool {
        &&& self.plant_grid.wf()
        &&& self.plant_grid.size.w > 0
        &&& self.plant_grid.size.h > 0
        &&& 0 <= self.time <= MAX_TIME
        &&& forall|i: int| 0 <= i < self.agents.len() ==> settled(#[trigger] self.agents[i], self.time)
    }

    /// The world that `params` and `seed` give: a generated grid, then
    /// `params.agent_count` random agents, all from one generator.
    pub open spec fn spec_new_seeded(params: Params, seed: u64) -> WorldView {
        let size = params.plant_grid_size;
        let grown = generated(
            Seq::new((size.w * size.h) as nat, |i: int| 0u8),
            pcg32_seeded(seed),
            size,
        );
        let agents = first_agents(size, grown.1, params.agent_count as nat);
        WorldView {
            agents: agents.0,
            plant_grid: PlantGridView { cells: grown.0, size, time_since_regenerate: 0 },
            time: 0,
            seed,
            words: agents.1,
            max_time_alive: 0,
            max_generation: 1,
        }
    }

    /// The grid after `d_time` has passed for the plants, and the
    /// generator after the regrowths that fell due.
    pub open spec fn spec_regrown(self, d_time: int) -> (PlantGridView, (u64, u64)) {
        let elapsed = self.plant_grid.time_since_regenerate + d_time;
        let due = regrowths_due(elapsed);
        let grown = regenerated_times(self.plant_grid.cells, self.words, self.plant_grid.size, due);
        (
            PlantGridView {
                cells: grown.0,
                size: self.plant_grid.size,
                time_since_regenerate: elapsed - due * REGENERATE_INTERVAL,
            },
            grown.1,
        )
    }

    /// The world one step of `d_time` later. The plants regrow; then every
    /// agent is stepped, in the order of the list, and what it eats is
    /// cleared; then, where evolution is on, the dead leave and the newborn
    /// arrive behind those that stay; then the time moves on.
    pub open spec fn spec_tick(self, params: Params, d_time: int) -> WorldView {
        let regrown = self.spec_regrown(d_time);
        let turns = turns_upto(self.agents, regrown.0, d_time, self.agents.len() as int);
        let plant_grid = PlantGridView { cells: turns.cells, ..regrown.0 };
        if params.evolution {
            let census = census_upto(
                turns.agents,
                turns.results,
                params,
                Census {
                    kept: Seq::empty(),
                    born: Seq::empty(),
                    words: regrown.1,
                    max_time_alive: self.max_time_alive,
                    max_generation: self.max_generation,
                },
                self.agents.len() as int,
            );
            WorldView {
                agents: census.kept + census.born,
                plant_grid,
                time: self.time + d_time,
                seed: self.seed,
                words: census.words,
                max_time_alive: census.max_time_alive,
                max_generation: census.max_generation,
            }
        } else {
            WorldView {
                agents: turns.agents,
                plant_grid,
                time: self.time + d_time,
                words: regrown.1,
                ..self
            }
        }
    }

    /// The world `count` steps of `d_time` later.
    pub open spec fn spec_run(self, params: Params, d_time: int, count: nat) -> WorldView
        decreases count,
    {
        if count == 0 {
            self
        } else {
            self.spec_run(params, d_time, (count - 1) as nat).spec_tick(params, d_time)
        }
    }
}

/// Stepping the agents neither adds nor removes one, and notes one result
/// per agent stepped.
pub proof fn lemma_turns_lengths(agents: Seq<Agent>, grid: PlantGridView, d_time: int, count: int)
    requires
        0 <= count <= agents.len(),
    ensures
        turns_upto(agents, grid, d_time, count).agents.len() == agents.len(),
        turns_upto(agents, grid, d_time, count).results.len() == count,
    decreases count,
{
    if count > 0 {
        lemma_turns_lengths(agents, grid, d_time, count - 1);
    }
}

/// While the dead leave and the newborn arrive, the agents that stay, those
/// that have arrived and those not yet dealt with are together never fewer
/// than at the start, or else never fewer than `params.agent_count`.
pub proof fn lemma_census_floor(
    agents: Seq<Agent>,
    results: Seq<TickResult>,
    params: Params,
    start: Census,
    count: int,
)
    requires
        0 <= count <= agents.len(),
    ensures
        ({
            let census = census_upto(agents, results, params, start, count);
            let living = census.kept.len() + census.born.len() + (agents.len() - count);
            living >= start.kept.len() + start.born.len() + agents.len() || living
                >= params.agent_count
        }),
    decreases count,
{
    if count > 0 {
        lemma_census_floor(agents, results, params, start, count - 1);
    }
}

/// With evolution on, a world that holds at least `params.agent_count`
/// agents holds at least as many after a step, whoever died in it.
pub proof fn lemma_tick_keeps_population(world: WorldView, params: Params, d_time: int)
    requires
        params.evolution,
        world.agents.len() >= params.agent_count,
    ensures
        world.spec_tick(params, d_time).agents.len() >= params.agent_count,
{
    let count = world.agents.len() as int;
    let regrown = world.spec_regrown(d_time);
    let turns = turns_upto(world.agents, regrown.0, d_time, count);
    lemma_turns_lengths(world.agents, regrown.0, d_time, count);
    let start = Census {
        kept: Seq::empty(),
        born: Seq::empty(),
        words: regrown.1,
        max_time_alive: world.max_time_alive,
        max_generation: world.max_generation,
    };
    lemma_census_floor(turns.agents, turns.results, params, start, count);
}

/// The world after steps of the given lengths, one after another.
pub open spec fn spec_after(world: WorldView, params: Params, steps: Seq<int>) -> WorldView
    decreases steps.len(),
{
    if steps.len() == 0 {
        world
    } else {
        spec_after(world, params, steps.drop_last()).spec_tick(params, steps.last())
    }
}

/// Two worlds made from the same seed and the same parameters, and stepped
/// through the same sequence of step lengths, hold the same agents, the
/// same plants and the same generator after every step.
pub proof fn lemma_same_seed_same_run(
    first: World,
    second: World,
    params: Params,
    seed: u64,
    steps: Seq<int>,
)
    requires
        first@ == WorldView::spec_new_seeded(params, seed),
        second@ == WorldView::spec_new_seeded(params, seed),
    ensures
        forall|count: int|
            0 <= count <= steps.len() ==> #[trigger] spec_after(
                first@,
                params,
                steps.take(count),
            ) == spec_after(second@, params, steps.take(count)),
        forall|count: int|
            0 <= count <= steps.len() ==> (#[trigger] spec_after(
                first@,
                params,
                steps.take(count),
            )).agents == spec_after(second@, params, steps.take(count)).agents && spec_after(
                first@,
                params,
                steps.take(count),
            ).plant_grid.cells == spec_after(second@, params, steps.take(count)).plant_grid.cells,
{
}

impl World {
    /// What holds of every world that this library makes or steps.
    pub open spec fn wf(&self) -> bool {
        self@.wf()
    }

    /// Generates a new world with the specified parameters. With a seed in
    /// `params`, the same parameters always yield the same world. Without
    /// one, the clock picks a seed below `CLOCK_SEED_BOUND`; the world's
    /// `seed` tells which.
    pub fn new(params: &Params) -> (world: World)
        requires
            params.plant_grid_size.w > 0,
            params.plant_grid_size.h > 0,
            params.plant_grid_size.w * params.plant_grid_size.h <= usize::MAX,
        ensures
            world@ == WorldView::spec_new_seeded(*params, world.seed),
            world.wf(),
            params.seed matches Some(seed) ==> world.seed == seed,
            params.seed is None ==> world.seed < CLOCK_SEED_BOUND,
    {
        let seed: u64 = match params.seed {
            Some(seed) => seed,
            None => clock_seed(time_ns()),
        };
        World::new_seeded(params, seed)
    }

    /// Generates a new world with the specified parameters, using the
    /// given seed instead of the one from `params`.
    pub fn new_seeded(params: &Params, seed: u64) -> (world: World)
        requires
            params.plant_grid_size.w > 0,
            params.plant_grid_size.h > 0,
            params.plant_grid_size.w * params.plant_grid_size.h <= usize::MAX,
        ensures
            world@ == WorldView::spec_new_seeded(*params, seed),
            world.wf(),
            world.agents.len() == params.agent_count,
    {
        let mut rng = seeded(seed);
        let mut plant_grid = PlantGrid::new(params.plant_grid_size);
        plant_grid.generate(&mut rng);
        let ghost words = pcg32_words(rng);
        let mut agents: Vec<Agent> = Vec::with_capacity(params.agent_count as usize);
        let mut count: u32 = 0;
        while count < params.agent_count
            invariant
                count <= params.agent_count,
                agents.len() == count,
                (agents@, pcg32_words(rng)) == first_agents(
                    params.plant_grid_size,
                    words,
                    count as nat,
                ),
                forall|i: int| 0 <= i < agents.len() ==> settled(#[trigger] agents[i], 0),
            decreases params.agent_count - count,
        {
            let agent = Agent::new_random(params, &mut rng);
            agents.push(agent);
            count += 1;
        }
        World { agents, plant_grid, time: 0, seed, rng, max_time_alive: 0, max_generation: 1 }
    }

    /// Steps every agent once, in the order of the list, and clears the
    /// cell under the mouth of each agent that eats, so that the agents
    /// after it find it empty. Returns what each step brought about.
    fn step_agents(&mut self, d_time: Fixed) -> (results: Vec<TickResult>)
        requires
            old(self).wf(),
            d_time >= 0,
            old(self).time + d_time <= MAX_TIME,
        ensures
            (Turns {
                agents: final(self).agents@,
                cells: final(self).plant_grid.densities@,
                results: results@,
            }) == turns_upto(
                old(self).agents@,
                old(self).plant_grid@,
                d_time as int,
                old(self).agents.len() as int,
            ),
            final(self).plant_grid.wf(),
            final(self).plant_grid.size == old(self).plant_grid.size,
            final(self).plant_grid.time_since_regenerate == old(self).plant_grid.time_since_regenerate,
            final(self).time == old(self).time,
            final(self).seed == old(self).seed,
            final(self).rng == old(self).rng,
            final(self).max_time_alive == old(self).max_time_alive,
            final(self).max_generation == old(self).max_generation,
            final(self).agents.len() == old(self).agents.len(),
            results.len() == old(self).agents.len(),
            forall|i: int|
                0 <= i < final(self).agents.len() ==> settled(
                    #[trigger] final(self).agents[i],
                    old(self).time + d_time,
                ),
            forall|i: int|
                0 <= i < results.len() && (#[trigger] results[i]).reproduce
                    ==> final(self).agents[i].time_alive > REPRODUCE_INTERVAL,
    {
        let ghost agents = self.agents@;
        let ghost grid = self.plant_grid@;
        let ghost time = self.time;
        let count: usize = self.agents.len();
        let mut results: Vec<TickResult> = Vec::with_capacity(count);
        let mut idx: usize = 0;
        assert(self@.wf());
        assert(forall|i: int|
            0 <= i < self@.agents.len() ==> settled(#[trigger] self@.agents[i], self@.time));
        while idx < count
            invariant
                idx <= count,
                count == agents.len(),
                self.agents.len() == count,
                results.len() == idx,
                d_time >= 0,
                0 <= time,
                time + d_time <= MAX_TIME,
                self.plant_grid.wf(),
                self.plant_grid.size == grid.size,
                grid.size.w > 0,
                grid.size.h > 0,
                self.plant_grid.time_since_regenerate == grid.time_since_regenerate,
                self.time == time,
                self.seed == old(self).seed,
                self.rng == old(self).rng,
                self.max_time_alive == old(self).max_time_alive,
                self.max_generation == old(self).max_generation,
                (Turns {
                    agents: self.agents@,
                    cells: self.plant_grid.densities@,
                    results: results@,
                }) == turns_upto(agents, grid, d_time as int, idx as int),
                forall|i: int| idx <= i < count ==> settled(#[trigger] self.agents[i], time as int),
                forall|i: int|
                    0 <= i < idx ==> settled(#[trigger] self.agents[i], time + d_time),
                forall|i: int|
                    0 <= i < idx && (#[trigger] results[i]).reproduce ==> self.agents[i].time_alive
                        > REPRODUCE_INTERVAL,
            decreases count - idx,
        {
            let mut agent: Agent = self.agents[idx];
            assert(settled(agent, time as int));
            let ghost cells = self.plant_grid.densities@;
            assert(self.plant_grid@ == (PlantGridView { cells, ..grid }));
            let result: TickResult = agent.tick(&self.plant_grid, d_time);
            if result.eat {
                self.plant_grid.set_density(vec2f_to_vec2i(agent.get_mouth_pos()), 0);
            }
            self.agents[idx] = agent;
            results.push(result);
            idx += 1;
        }
        results
    }

    /// Lets the dead leave and the newborn arrive, going through the
    /// stepped agents in their order. A dead agent is noted in the records
    /// and leaves; where that leaves fewer agents than `params.agent_count`,
    /// a random agent arrives. An agent that is due a child gets one. The
    /// agents that arrive stand behind those that stay.
    fn settle_population(&mut self, params: &Params, results: &Vec<TickResult>)
        requires
            old(self).wf(),
            results.len() == old(self).agents.len(),
            forall|i: int|
                0 <= i < results.len() && (#[trigger] results[i]).reproduce
                    ==> old(self).agents[i].time_alive > REPRODUCE_INTERVAL,
        ensures
            ({
                let census = census_upto(
                    old(self).agents@,
                    results@,
                    *params,
                    Census {
                        kept: Seq::empty(),
                        born: Seq::empty(),
                        words: pcg32_words(old(self).rng),
                        max_time_alive: old(self).max_time_alive as int,
                        max_generation: old(self).max_generation,
                    },
                    results.len() as int,
                );
                final(self)@ == (WorldView {
                    agents: census.kept + census.born,
                    words: census.words,
                    max_time_alive: census.max_time_alive,
                    max_generation: census.max_generation,
                    ..old(self)@
                })
            }),
            final(self).wf(),
            old(self).agents.len() >= params.agent_count ==> final(self).agents.len()
                >= params.agent_count,
            final(self).agents.len() >= old(self).agents.len() || final(self).agents.len()
                >= params.agent_count,
    {
        let ghost agents = self.agents@;
        let ghost start = Census {
            kept: Seq::empty(),
            born: Seq::empty(),
            words: pcg32_words(self.rng),
            max_time_alive: self.max_time_alive as int,
            max_generation: self.max_generation,
        };
        let ghost time = self.time;
        let count: usize = self.agents.len();
        let mut kept: Vec<Agent> = Vec::with_capacity(count);
        let mut born: Vec<Agent> = Vec::new();
        let mut idx: usize = 0;
        assert(self@.wf());
        assert(forall|i: int|
            0 <= i < self@.agents.len() ==> settled(#[trigger] self@.agents[i], self@.time));
        while idx < count
            invariant
                idx <= count,
                count == agents.len(),
                results.len() == count,
                self.agents@ == agents,
                self.plant_grid == old(self).plant_grid,
                self.time == time,
                0 <= time <= MAX_TIME,
                self.seed == old(self).seed,
                (Census {
                    kept: kept@,
                    born: born@,
                    words: pcg32_words(self.rng),
                    max_time_alive: self.max_time_alive as int,
                    max_generation: self.max_generation,
                }) == census_upto(agents, results@, *params, start, idx as int),
                kept.len() <= idx,
                kept.len() + born.len() + (count - idx) >= count || kept.len() + born.len() + (count
                    - idx) >= params.agent_count,
                forall|i: int| 0 <= i < count ==> settled(#[trigger] agents[i], time as int),
                forall|i: int| 0 <= i < kept.len() ==> settled(#[trigger] kept[i], time as int),
                forall|i: int| 0 <= i < born.len() ==> settled(#[trigger] born[i], time as int),
                forall|i: int|
                    0 <= i < count && (#[trigger] results[i]).reproduce ==> agents[i].time_alive
                        > REPRODUCE_INTERVAL,
            decreases count - idx,
        {
            let agent: Agent = self.agents[idx];
            let result: TickResult = results[idx];
            assert(settled(agents[idx as int], time as int));
            if result.die {
                if agent.time_alive > self.max_time_alive {
                    self.max_time_alive = agent.time_alive;
                }
                if agent.generation > self.max_generation {
                    self.max_generation = agent.generation;
                }
                let living: u128 = kept.len() as u128 + born.len() as u128 + (count - idx - 1) as u128;
                if living < params.agent_count as u128 {
                    let fresh: Agent = Agent::new_random(params, &mut self.rng);
                    born.push(fresh);
                }
            } else {
                kept.push(agent);
                if result.reproduce {
                    let child: Agent = agent.reproduce(&mut self.rng);
                    born.push(child);
                }
            }
            idx += 1;
        }
        kept.append(&mut born);
        self.agents = kept;
    }

    /// Runs the world for the specified amount of time, as one step. The
    /// plants regrow; then every agent is stepped, in the order of the
    /// list, and what it eats is cleared; then, where evolution is on, the
    /// dead leave and the newborn arrive; then the time moves on. Agents
    /// that arrive are first stepped in the next step.
    pub fn tick(&mut self, params: &Params, d_time: Fixed)
        requires
            old(self).wf(),
            d_time >= 0,
            old(self).time + d_time <= MAX_TIME,
        ensures
            final(self)@ == old(self)@.spec_tick(*params, d_time as int),
            final(self).wf(),
            final(self).time == old(self).time + d_time,
            final(self).seed == old(self).seed,
            !params.evolution ==> final(self).agents.len() == old(self).agents.len(),
            params.evolution && old(self).agents.len() >= params.agent_count
                ==> final(self).agents.len() >= params.agent_count,
            params.evolution ==> final(self).agents.len() >= old(self).agents.len()
                || final(self).agents.len() >= params.agent_count,
    {
        assert(self@.wf());
        assert(forall|i: int|
            0 <= i < self@.agents.len() ==> settled(#[trigger] self@.agents[i], self@.time));
        self.plant_grid.tick(d_time, &mut self.rng);
        assert(forall|i: int|
            0 <= i < self@.agents.len() ==> settled(#[trigger] self@.agents[i], self@.time));
        let results: Vec<TickResult> = self.step_agents(d_time);
        self.time = self.time + d_time;
        if params.evolution {
            self.settle_population(params, &results);
        }
    }
}

} // verus!
