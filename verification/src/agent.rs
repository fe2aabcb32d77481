//! An agent: genes, a brain, and a body that moves, eats, ages and breeds.

use vstd::prelude::*;
use vstd::arithmetic::div_mod::lemma_div_is_ordered;
use crate::brain::Brain;
use crate::brain::Commands;
use crate::brain::Percepts;
use crate::fixed::Fixed;
use crate::fixed::HALF;
use crate::fixed::ONE;
use crate::fixed::clamp_wide;
use crate::fixed::floor_div;
use crate::fixed::floor_mod;
use crate::fixed::lemma_div_shrinks;
use crate::fixed::lemma_mul_fraction;
use crate::fixed::lemma_mul_signed_fraction;
use crate::fixed::lemma_product_fits;
use crate::fixed::lerp;
use crate::fixed::mul_wide;
use crate::fixed::spec_clamp;
use crate::fixed::spec_div;
use crate::fixed::spec_lerp;
use crate::fixed::spec_mul;
use crate::genes::Genes;
use crate::genes::MAX_SIZE;
use crate::genes::MIN_SIZE;
use crate::params::Params;
use crate::plant_grid::PlantGrid;
use crate::plant_grid::PlantGridView;
use crate::rng::advanced;
use crate::rng::draw_unit;
use crate::rng::pcg32_words;
use crate::rng::unit_of;
use crate::trig::PI;
use crate::trig::TAU;
use crate::trig::sin_wide;
use crate::trig::spec_sin;
use crate::trig::spec_wrap;
use crate::trig::wrap_angle;
use crate::util::Rect2f;
use crate::util::Size2i;
use crate::util::Vec2f;
use crate::util::calculate_vec2f;
use crate::util::spec_calculate_vec2f;
use crate::util::spec_vec2f_to_vec2i;
use crate::util::vec2f_to_vec2i;

verus! {

/// How far ahead of its centre an agent eats: 2.
pub const MOUTH_DISTANCE: i64 = 33_554_432;

/// The energy that an agent loses per second: the raw value next to 0.02.
pub const ENERGY_LOSE_SPEED: i64 = 335_544;

/// The energy that eating a full cell gives: the raw value next to 0.1.
pub const ENERGY_EAT_GAIN: i64 = 1_677_722;

/// The time between two children: 100 seconds.
pub const REPRODUCE_INTERVAL: i64 = 1_677_721_600;

/// The energy that a child costs: 0.5.
pub const REPRODUCE_ENERGY_COST: i64 = 8_388_608;

/// The part of its full size that a newborn has: the raw value next to 0.2.
pub const INITIAL_SIZE_FACTOR: i64 = 3_355_443;

/// The time that an agent takes to grow to its full size: 5 seconds.
pub const TIME_UNTIL_GROWN: i64 = 83_886_080;

/// The largest coordinate that a position on any grid can have.
pub const MAX_COORDINATE: i64 = 72_057_594_037_927_936;

/// A living creature with genes and a brain.
#[derive(Copy, Clone, PartialEq, Eq, Structural, Debug)]
pub struct Agent {
    pub genes: Genes,
    pub pos: Vec2f,
    /// The heading, in radians from 0 up to a full turn.
    pub angle: Fixed,
    pub energy: Fixed,
    pub generation: u32,
    pub time_alive: Fixed,
    pub time_since_reproduce: Fixed,
    pub brain: Brain,
}

/// What a step brought about: whether the agent ate at its mouth, whether
/// it is out of energy, and whether it is due a child.
#[derive(Copy, Clone, PartialEq, Eq, Structural, Debug)]
pub struct TickResult {
    pub eat: bool,
    pub die: bool,
    pub reproduce: bool,
}

/// A density as a part of the full density 255.
pub open spec fn spec_normalized(density: u8) -> int {
    (density * ONE) / 255
}

/// A coordinate after a move by `shift`, wrapped onto a grid of `cells`
/// cells along that axis.
pub open spec fn spec_wrapped(coordinate: int, shift: int, cells: int) -> int {
    (coordinate + shift) % (cells * ONE)
}

/// The energy after `d_time` of living and, where the agent ate, the gain
/// from the density eaten, held between 0 and 1.
pub open spec fn spec_metabolized(energy: int, d_time: int, eaten: Option<u8>) -> int {
    let gain = match eaten {
        Some(density) => spec_mul(ENERGY_EAT_GAIN as int, spec_normalized(density)),
        None => 0,
    };
    spec_clamp(energy - spec_mul(ENERGY_LOSE_SPEED as int, d_time) + gain, 0, ONE as int)
}

fn normalized(density: u8) -> (r: Fixed)
    ensures
        r == spec_normalized(density),
        0 <= r <= ONE,
{
    proof {
        lemma_div_is_ordered(0, density * ONE, 255);
        lemma_div_is_ordered(density * ONE, 255 * ONE, 255);
    }
    (density as i64 * ONE) / 255
}

fn wrapped(coordinate: Fixed, shift: i128, cells: u32) -> (r: Fixed)
    requires
        cells > 0,
        -0x4000_0000_0000_0000_0000_0000_0000_0000 <= shift
            <= 0x4000_0000_0000_0000_0000_0000_0000_0000,
    ensures
        r == spec_wrapped(coordinate as int, shift as int, cells as int),
        0 <= r < cells * ONE,
        r < MAX_COORDINATE,
{
    proof {
        assert(0 < cells * ONE <= 0xFFFF_FFFF * ONE) by (nonlinear_arith)
            requires
                0 < cells <= 0xFFFF_FFFF,
        ;
    }
    floor_mod(coordinate as i128 + shift, cells as i128 * ONE as i128) as i64
}

impl Agent {
    /// What holds of every agent that this library makes or steps: its
    /// genes and its brain are in range, it stands at a place that some grid
    /// can have, its heading is less than a full turn, its energy lies
    /// between the cost of a child below 0 and 1, it is of the first
    /// generation or a later one, and it has lived at least as long as it
    /// has been without a child.
    pub open spec fn wf(self) -> bool {
        &&& self.genes.wf()
        &&& self.brain.wf()
        &&& 0 <= self.pos.x <= MAX_COORDINATE
        &&& 0 <= self.pos.y <= MAX_COORDINATE
        &&& 0 <= self.angle < TAU
        &&& -REPRODUCE_ENERGY_COST <= self.energy <= ONE
        &&& self.generation >= 1
        &&& 0 <= self.time_since_reproduce <= self.time_alive
    }

    /// A random agent on a grid of the given size, and the generator after
    /// the twenty draws that it takes: the two coordinates, the heading, the
    /// genes and the brain, in this order.
    pub open spec fn spec_new_random(size: Size2i, words: (u64, u64)) -> (Agent, (u64, u64)) {
        let w1 = advanced(words);
        let w2 = advanced(w1);
        let genes = Genes::spec_new_random(advanced(w2));
        let brain = Brain::spec_new_random(genes.1);
        (
            Agent {
                genes: genes.0,
                pos: Vec2f { x: (unit_of(words) * size.w) as i64, y: (unit_of(w1) * size.h) as i64 },
                angle: spec_mul(unit_of(w2), TAU as int) as i64,
                energy: ONE,
                generation: 1,
                time_alive: 0,
                time_since_reproduce: 0,
                brain: brain.0,
            },
            brain.1,
        )
    }

    /// The child of an agent, and the generator after the seventeen draws
    /// that it takes: it stands where its parent stands and heads the
    /// other way, its genes and its brain are the parent's, mutated by the
    /// parent's mutation factor, and it is one generation on.
    pub open spec fn spec_reproduce(self, words: (u64, u64)) -> (Agent, (u64, u64)) {
        let genes = self.genes.spec_reproduce(words);
        let brain = self.brain.spec_reproduce(self.genes.spec_mutation_factor(), genes.1);
        (
            Agent {
                genes: genes.0,
                pos: self.pos,
                angle: spec_wrap(PI + self.angle) as i64,
                energy: ONE,
                generation: (self.generation + 1) as u32,
                time_alive: 0,
                time_since_reproduce: 0,
                brain: brain.0,
            },
            brain.1,
        )
    }

    /// The size of the body now: from `INITIAL_SIZE_FACTOR` of the full
    /// size at birth up to the full size at `TIME_UNTIL_GROWN`.
    pub open spec fn spec_size(self) -> int {
        let full = self.genes.spec_size();
        spec_lerp(
            spec_mul(INITIAL_SIZE_FACTOR as int, full),
            full,
            spec_div(self.time_alive as int, TIME_UNTIL_GROWN as int),
        )
    }

    /// The place `distance` away from the agent in the direction `angle`.
    pub open spec fn spec_ahead(self, distance: int, angle: int) -> Vec2f {
        let offset = spec_calculate_vec2f(distance, angle);
        Vec2f { x: (self.pos.x + offset.0) as i64, y: (self.pos.y + offset.1) as i64 }
    }

    /// Where the left eye looks.
    pub open spec fn spec_left_measure_pos(self) -> Vec2f {
        self.spec_ahead(self.genes.spec_eye_distance(), self.angle - self.genes.spec_eye_angle())
    }

    /// Where the right eye looks.
    pub open spec fn spec_right_measure_pos(self) -> Vec2f {
        self.spec_ahead(self.genes.spec_eye_distance(), self.angle + self.genes.spec_eye_angle())
    }

    /// Where the mouth is.
    pub open spec fn spec_mouth_pos(self) -> Vec2f {
        self.spec_ahead(MOUTH_DISTANCE as int, self.angle as int)
    }

    /// What the agent perceives: the constant 1, the densities under its
    /// two eyes as parts of the full density, and the sine of its age
    /// counted in turns of its timer.
    pub open spec fn spec_measure_sensors(self, grid: PlantGridView) -> Percepts {
        Percepts {
            constant_one: ONE,
            left_eye: spec_normalized(
                grid.density(spec_vec2f_to_vec2i(self.spec_left_measure_pos())),
            ) as i64,
            right_eye: spec_normalized(
                grid.density(spec_vec2f_to_vec2i(self.spec_right_measure_pos())),
            ) as i64,
            time_wave: spec_sin(
                spec_mul(
                    spec_div(self.time_alive as int, self.genes.spec_timer_interval()),
                    TAU as int,
                ),
            ) as i64,
        }
    }

    /// The speed of one track for its command: from half the top speed
    /// backwards to half the top speed forwards.
    pub open spec fn spec_track_speed(self, command: int) -> int {
        spec_mul(command - HALF, self.genes.spec_speed())
    }

    /// The agent after `d_time` of moving as the commands say, and whether
    /// it moved forwards. The heading turns by the difference of the track
    /// speeds over half the body's size; then the agent moves along the new
    /// heading by the sum of the track speeds; each coordinate wraps at the
    /// far edge of the grid.
    pub open spec fn spec_apply_actuators(self, commands: Commands, size: Size2i, d_time: int) -> (
        Agent,
        bool,
    ) {
        let left = self.spec_track_speed(commands.left_track as int);
        let right = self.spec_track_speed(commands.right_track as int);
        let speed = left + right;
        let radial = spec_div(left - right, self.spec_size() / 2);
        let angle = spec_wrap(self.angle + spec_mul(radial, d_time));
        let step = spec_calculate_vec2f(speed, angle);
        (
            Agent {
                angle: angle as i64,
                pos: Vec2f {
                    x: spec_wrapped(self.pos.x as int, spec_mul(step.0, d_time), size.w as int)
                        as i64,
                    y: spec_wrapped(self.pos.y as int, spec_mul(step.1, d_time), size.h as int)
                        as i64,
                },
                ..self
            },
            speed > 0,
        )
    }

    /// The agent after one step of `d_time`, and what the step brought
    /// about. The agent senses, lets its brain decide and moves. It eats if
    /// it moved forwards and plants grow at its mouth. It loses energy for
    /// the time lived and gains for what it ate, within 0 and 1. It ages.
    /// When it has been without a child for more than
    /// `REPRODUCE_INTERVAL`, it is due one, which costs
    /// `REPRODUCE_ENERGY_COST`. It is dead when no energy is left.
    pub open spec fn spec_tick(self, grid: PlantGridView, d_time: int) -> (Agent, TickResult) {
        let percepts = self.spec_measure_sensors(grid);
        let commands = self.brain.spec_run(percepts);
        let moved = self.spec_apply_actuators(commands, grid.size, d_time);
        let density = grid.density(spec_vec2f_to_vec2i(moved.0.spec_mouth_pos()));
        let eat = moved.1 && density > 0;
        let fed = spec_metabolized(
            self.energy as int,
            d_time,
            if eat {
                Some(density)
            } else {
                None
            },
        );
        let reproduce = self.time_since_reproduce + d_time > REPRODUCE_INTERVAL;
        let energy = if reproduce {
            fed - REPRODUCE_ENERGY_COST
        } else {
            fed
        };
        (
            Agent {
                energy: energy as i64,
                time_alive: (self.time_alive + d_time) as i64,
                time_since_reproduce: if reproduce {
                    0
                } else {
                    (self.time_since_reproduce + d_time) as i64
                },
                ..moved.0
            },
            TickResult { eat, die: energy <= 0, reproduce },
        )
    }

    /// After a step the energy lies between 0 and 1, but for a step that
    /// made a child due: its cost leaves the energy that much lower. The
    /// agent is dead exactly when no energy is left.
    pub proof fn lemma_tick_energy(self, grid: PlantGridView, d_time: int)
        ensures
            self.spec_tick(grid, d_time).1.reproduce ==> -REPRODUCE_ENERGY_COST <= self.spec_tick(
                grid,
                d_time,
            ).0.energy <= ONE - REPRODUCE_ENERGY_COST,
            !self.spec_tick(grid, d_time).1.reproduce ==> 0 <= self.spec_tick(
                grid,
                d_time,
            ).0.energy <= ONE,
            self.spec_tick(grid, d_time).1.die <==> self.spec_tick(grid, d_time).0.energy <= 0,
    {
    }

    /// The body is never smaller than a fixed part of the least full size,
    /// nor larger than the largest.
    pub proof fn lemma_size_range(self)
        ensures
            8_388_606 <= self.spec_size() <= MAX_SIZE,
    {
        let full = self.genes.spec_size();
        lemma_mul_fraction(
            MAX_SIZE - MIN_SIZE,
            spec_clamp(self.genes.size as int, 0, ONE as int),
        );
        let small = spec_mul(INITIAL_SIZE_FACTOR as int, full);
        assert(INITIAL_SIZE_FACTOR * MIN_SIZE <= INITIAL_SIZE_FACTOR * full <= INITIAL_SIZE_FACTOR
            * MAX_SIZE) by (nonlinear_arith)
            requires
                MIN_SIZE <= full <= MAX_SIZE,
        ;
        lemma_div_is_ordered(
            INITIAL_SIZE_FACTOR * MIN_SIZE,
            INITIAL_SIZE_FACTOR * full,
            ONE as int,
        );
        lemma_div_is_ordered(
            INITIAL_SIZE_FACTOR * full,
            INITIAL_SIZE_FACTOR * MAX_SIZE,
            ONE as int,
        );
        assert(INITIAL_SIZE_FACTOR * MIN_SIZE == 140_737_479_966_720) by (nonlinear_arith);
        assert(INITIAL_SIZE_FACTOR * MAX_SIZE == 281_474_959_933_440) by (nonlinear_arith);
        assert(8_388_606 <= small <= full);
        lemma_mul_fraction(
            full - small,
            spec_clamp(spec_div(self.time_alive as int, TIME_UNTIL_GROWN as int), 0, ONE as int),
        );
    }

    /// Generates a random agent: a place on the grid, a heading, genes and
    /// a brain, drawn in this order; full of energy and of the first
    /// generation.
    pub fn new_random(params: &Params, rng: &mut rand_pcg::Lcg64Xsh32) -> (agent: Agent)
        ensures
            (agent, pcg32_words(*final(rng))) == Agent::spec_new_random(
                params.plant_grid_size,
                pcg32_words(*old(rng)),
            ),
            agent.wf(),
            agent.pos.x < ONE * params.plant_grid_size.w || params.plant_grid_size.w == 0,
            agent.pos.y < ONE * params.plant_grid_size.h || params.plant_grid_size.h == 0,
    {
        let unit_x: i64 = draw_unit(rng);
        let unit_y: i64 = draw_unit(rng);
        let unit_angle: i64 = draw_unit(rng);
        let width: i64 = params.plant_grid_size.w as i64;
        let height: i64 = params.plant_grid_size.h as i64;
        proof {
            assert(0 <= unit_x * width <= ONE * width - width && 0 <= unit_y * height <= ONE
                * height - height) by (nonlinear_arith)
                requires
                    0 <= unit_x < ONE,
                    0 <= unit_y < ONE,
                    0 <= width,
                    0 <= height,
            ;
            lemma_mul_fraction(TAU as int, unit_angle as int);
            assert(unit_angle * TAU == TAU * unit_angle) by (nonlinear_arith);
            assert(unit_angle * TAU <= (ONE - 1) * TAU) by (nonlinear_arith)
                requires
                    unit_angle <= ONE - 1,
            ;
            lemma_div_is_ordered(unit_angle * TAU, (ONE - 1) * TAU, ONE as int);
        }
        let pos = Vec2f { x: unit_x * width, y: unit_y * height };
        let angle: i64 = mul_wide(unit_angle, TAU) as i64;
        Agent {
            genes: Genes::new_random(rng),
            pos,
            angle,
            energy: ONE,
            generation: 1,
            time_alive: 0,
            time_since_reproduce: 0,
            brain: Brain::new_random(rng),
        }
    }

    /// Reproduces the agent asexually. The child stands where its parent
    /// stands and heads the other way; its genes and its brain are the
    /// parent's, mutated by the parent's mutation factor; it is one
    /// generation on, full of energy and newly born.
    pub fn reproduce(&self, rng: &mut rand_pcg::Lcg64Xsh32) -> (child: Agent)
        requires
            self.wf(),
            self.generation < u32::MAX,
        ensures
            (child, pcg32_words(*final(rng))) == self.spec_reproduce(pcg32_words(*old(rng))),
            child.wf(),
            child.genes.near(self.genes, self.genes.spec_mutation_factor()),
            child.brain.near(self.brain, self.genes.spec_mutation_factor()),
    {
        let mutation_factor: i64 = self.genes.get_mutation_factor();
        Agent {
            genes: self.genes.reproduce(rng),
            pos: self.pos,
            angle: wrap_angle(PI as i128 + self.angle as i128),
            energy: ONE,
            generation: self.generation + 1,
            time_alive: 0,
            time_since_reproduce: 0,
            brain: self.brain.reproduce(mutation_factor, rng),
        }
    }

    /// The size of the body now.
    pub fn get_size(&self) -> (size: Fixed)
        ensures
            size == self.spec_size(),
            8_388_606 <= size <= MAX_SIZE,
    {
        proof {
            self.lemma_size_range();
            lemma_product_fits(INITIAL_SIZE_FACTOR, self.genes.spec_size() as i64);
            lemma_mul_fraction(
                MAX_SIZE - MIN_SIZE,
                spec_clamp(self.genes.size as int, 0, ONE as int),
            );
            assert(self.time_alive * ONE == ONE * self.time_alive) by (nonlinear_arith);
            lemma_div_is_ordered(
                -0x8000_0000_0000_0000 * ONE,
                self.time_alive * ONE,
                TIME_UNTIL_GROWN as int,
            );
            lemma_div_is_ordered(
                self.time_alive * ONE,
                0x8000_0000_0000_0000 * ONE,
                TIME_UNTIL_GROWN as int,
            );
        }
        let full: i64 = self.genes.get_size();
        let small: i64 = mul_wide(INITIAL_SIZE_FACTOR, full) as i64;
        let grown: i128 = floor_div(self.time_alive as i128 * ONE as i128, TIME_UNTIL_GROWN as i128);
        lerp(small, full, clamp_wide(grown, 0, ONE))
    }

    /// The square that the body covers, centred on the agent's place.
    pub fn get_bounding_rect(&self) -> (rect: Rect2f)
        requires
            self.wf(),
        ensures
            rect.x == self.pos.x - self.spec_size() / 2,
            rect.y == self.pos.y - self.spec_size() / 2,
            rect.w == self.spec_size(),
            rect.h == self.spec_size(),
    {
        let size: i64 = self.get_size();
        Rect2f { x: self.pos.x - size / 2, y: self.pos.y - size / 2, w: size, h: size }
    }

    fn ahead(&self, distance: Fixed, angle: Fixed) -> (pos: Vec2f)
        requires
            self.wf(),
            0 <= distance <= MAX_COORDINATE,
        ensures
            pos == self.spec_ahead(distance as int, angle as int),
    {
        let offset: Vec2f = calculate_vec2f(distance, angle);
        Vec2f { x: self.pos.x + offset.x, y: self.pos.y + offset.y }
    }

    /// Where the left eye looks: as far ahead as the eyes look, to the left
    /// of the heading by the angle of the eyes.
    pub fn get_left_measure_pos(&self) -> (pos: Vec2f)
        requires
            self.wf(),
        ensures
            pos == self.spec_left_measure_pos(),
    {
        self.ahead(self.genes.get_eye_distance(), self.angle - self.genes.get_eye_angle())
    }

    /// Where the right eye looks: as far ahead as the eyes look, to the
    /// right of the heading by the angle of the eyes.
    pub fn get_right_measure_pos(&self) -> (pos: Vec2f)
        requires
            self.wf(),
        ensures
            pos == self.spec_right_measure_pos(),
    {
        self.ahead(self.genes.get_eye_distance(), self.angle + self.genes.get_eye_angle())
    }

    /// Where the mouth is: `MOUTH_DISTANCE` ahead along the heading.
    pub fn get_mouth_pos(&self) -> (pos: Vec2f)
        requires
            self.wf(),
        ensures
            pos == self.spec_mouth_pos(),
    {
        self.ahead(MOUTH_DISTANCE, self.angle)
    }

    /// Applies the commands to the actuators: turns and moves the agent as
    /// the two track commands say. Returns whether the agent moved forwards.
    fn apply_actuators(&mut self, commands: &Commands, plant_grid: &PlantGrid, d_time: Fixed) -> (moved:
        bool)
        requires
            old(self).wf(),
            0 <= commands.left_track <= ONE,
            0 <= commands.right_track <= ONE,
            plant_grid.size.w > 0,
            plant_grid.size.h > 0,
        ensures
            (*final(self), moved) == old(self).spec_apply_actuators(
                *commands,
                plant_grid.size,
                d_time as int,
            ),
            final(self).wf(),
            final(self).pos.x < ONE * plant_grid.size.w,
            final(self).pos.y < ONE * plant_grid.size.h,
    {
        let max_speed: i64 = self.genes.get_speed();
        proof {
            let l = commands.left_track - HALF;
            let r = commands.right_track - HALF;
            lemma_mul_signed_fraction(max_speed as int, l);
            lemma_mul_signed_fraction(max_speed as int, r);
            assert(l * max_speed == max_speed * l && r * max_speed == max_speed * r)
                by (nonlinear_arith);
        }
        let left_speed: i64 = mul_wide(commands.left_track - HALF, max_speed) as i64;
        let right_speed: i64 = mul_wide(commands.right_track - HALF, max_speed) as i64;
        let radius: i64 = self.get_size() / 2;
        let speed: i64 = left_speed + right_speed;
        proof {
            let apart = left_speed - right_speed;
            assert(-0x4000_0000 * ONE <= apart * ONE <= 0x4000_0000 * ONE) by (nonlinear_arith)
                requires
                    -0x4000_0000 <= apart <= 0x4000_0000,
            ;
            lemma_div_shrinks(apart * ONE, radius as int);
        }
        let radial_speed: i64 = floor_div(
            (left_speed - right_speed) as i128 * ONE as i128,
            radius as i128,
        ) as i64;
        self.angle = wrap_angle(self.angle as i128 + mul_wide(radial_speed, d_time));
        let step: Vec2f = calculate_vec2f(speed, self.angle);
        self.pos.x = wrapped(self.pos.x, mul_wide(step.x, d_time), plant_grid.size.w);
        self.pos.y = wrapped(self.pos.y, mul_wide(step.y, d_time), plant_grid.size.h);
        proof {
            assert(plant_grid.size.w * ONE == ONE * plant_grid.size.w) by (nonlinear_arith);
            assert(plant_grid.size.h * ONE == ONE * plant_grid.size.h) by (nonlinear_arith);
        }
        speed > 0
    }

    /// Updates the agent for the specified amount of time. Returns whether
    /// the agent should eat, die and/or reproduce. The agent reads the grid
    /// and does not change it: where it eats, its mouth is over a cell of
    /// the grid with plants, which the caller is to clear.
    pub fn tick(&mut self, plant_grid: &PlantGrid, d_time: Fixed) -> (result: TickResult)
        requires
            old(self).wf(),
            plant_grid.wf(),
            plant_grid.size.w > 0,
            plant_grid.size.h > 0,
            d_time >= 0,
            old(self).time_alive + d_time <= i64::MAX,
        ensures
            (*final(self), result) == old(self).spec_tick(plant_grid@, d_time as int),
            final(self).wf(),
            final(self).pos.x < ONE * plant_grid.size.w,
            final(self).pos.y < ONE * plant_grid.size.h,
            final(self).genes == old(self).genes,
            final(self).brain == old(self).brain,
            final(self).generation == old(self).generation,
            final(self).time_alive == old(self).time_alive + d_time,
            result.reproduce ==> -REPRODUCE_ENERGY_COST <= final(self).energy <= ONE
                - REPRODUCE_ENERGY_COST,
            !result.reproduce ==> 0 <= final(self).energy <= ONE,
            result.reproduce <==> old(self).time_since_reproduce + d_time > REPRODUCE_INTERVAL,
            result.reproduce ==> final(self).time_since_reproduce == 0 && final(self).time_alive
                > REPRODUCE_INTERVAL,
            !result.reproduce ==> final(self).time_since_reproduce
                == old(self).time_since_reproduce + d_time,
            result.die <==> final(self).energy <= 0,
            result.eat ==> crate::plant_grid::in_bounds(
                plant_grid.size,
                spec_vec2f_to_vec2i(final(self).spec_mouth_pos()),
            ) && plant_grid@.density(spec_vec2f_to_vec2i(final(self).spec_mouth_pos())) > 0,
    {
        let percepts: Percepts = self.measure_sensors(plant_grid);
        let commands: Commands = self.brain.run(&percepts);
        let moved_forward: bool = self.apply_actuators(&commands, plant_grid, d_time);

        let density_at_mouth: u8 = plant_grid.get_density(vec2f_to_vec2i(self.get_mouth_pos()));
        let eat: bool = moved_forward && density_at_mouth > 0;

        let mut gain: i128 = 0;
        if eat {
            gain = mul_wide(ENERGY_EAT_GAIN, normalized(density_at_mouth));
        }
        self.energy = clamp_wide(
            self.energy as i128 - mul_wide(ENERGY_LOSE_SPEED, d_time) + gain,
            0,
            ONE,
        );

        self.time_alive = self.time_alive + d_time;
        self.time_since_reproduce = self.time_since_reproduce + d_time;

        let reproduce: bool = self.time_since_reproduce > REPRODUCE_INTERVAL;
        if reproduce {
            self.time_since_reproduce = 0;
            self.energy = self.energy - REPRODUCE_ENERGY_COST;
        }
        TickResult { eat, die: self.energy <= 0, reproduce }
    }

    /// Measures the surrounding world using the sensors.
    pub fn measure_sensors(&self, plant_grid: &PlantGrid) -> (percepts: Percepts)
        requires
            self.wf(),
            plant_grid.wf(),
        ensures
            percepts == self.spec_measure_sensors(plant_grid@),
    {
        let left_density: u8 = plant_grid.get_density(vec2f_to_vec2i(self.get_left_measure_pos()));
        let right_density: u8 = plant_grid.get_density(
            vec2f_to_vec2i(self.get_right_measure_pos()),
        );
        let interval: i64 = self.genes.get_timer_interval();
        proof {
            assert(0 <= self.time_alive * ONE <= 0x8000_0000_0000_0000 * ONE) by (nonlinear_arith)
                requires
                    0 <= self.time_alive <= 0x8000_0000_0000_0000,
            ;
            lemma_div_is_ordered(0, self.time_alive * ONE, interval as int);
            lemma_div_is_ordered(self.time_alive * ONE, 0x8000_0000_0000_0000 * ONE, interval as int);
            vstd::arithmetic::div_mod::lemma_div_is_ordered_by_denominator(
                0x8000_0000_0000_0000 * ONE,
                ONE as int,
                interval as int,
            );
        }
        let turns: i128 = floor_div(self.time_alive as i128 * ONE as i128, interval as i128);
        proof {
            assert((0x8000_0000_0000_0000 * ONE) / (ONE as int) == 0x8000_0000_0000_0000int);
            assert(0 <= turns * TAU <= 0x8000_0000_0000_0000 * TAU) by (nonlinear_arith)
                requires
                    0 <= turns <= 0x8000_0000_0000_0000,
            ;
        }
        let phase: i128 = floor_div(turns * TAU as i128, ONE as i128);
        Percepts {
            constant_one: ONE,
            left_eye: normalized(left_density),
            right_eye: normalized(right_density),
            time_wave: sin_wide(phase),
        }
    }
}

} // verus!
