//! The brain of an agent: one layer of weights from percepts to commands.

use vstd::prelude::*;
use crate::fixed::Fixed;
use crate::fixed::ONE;
use crate::fixed::clamp_wide;
use crate::fixed::lemma_mul_signed_fraction;
use crate::fixed::mul_wide;
use crate::fixed::spec_clamp;
use crate::fixed::spec_mul;
use crate::rng::advanced;
use crate::rng::draw_signed;
use crate::rng::draw_unit;
use crate::rng::pcg32_words;
use crate::rng::signed_of;
use crate::rng::unit_of;

verus! {

/// What an agent senses.
#[derive(Copy, Clone, PartialEq, Eq, Structural, Debug)]
pub enum Percept {
    ConstantOne,
    LeftEye,
    RightEye,
    TimeWave,
}

/// What an agent can do.
#[derive(Copy, Clone, PartialEq, Eq, Structural, Debug)]
pub enum Command {
    LeftTrack,
    RightTrack,
}

/// The number of percepts.
pub const PERCEPT_COUNT: usize = 4;

/// The number of commands.
pub const COMMAND_COUNT: usize = 2;

/// One value per percept.
#[derive(Copy, Clone, PartialEq, Eq, Structural, Debug)]
pub struct Percepts {
    pub constant_one: Fixed,
    pub left_eye: Fixed,
    pub right_eye: Fixed,
    pub time_wave: Fixed,
}

/// One value per command.
#[derive(Copy, Clone, PartialEq, Eq, Structural, Debug)]
pub struct Commands {
    pub left_track: Fixed,
    pub right_track: Fixed,
}

/// A brain calculates what commands to send to the actuators from what the
/// sensors perceive: each command is the sum of the percepts, each times its
/// weight for that command, held between 0 and 1. Each field holds the
/// weights of one percept.
#[derive(Copy, Clone, PartialEq, Eq, Structural, Debug)]
pub struct Brain {
    pub constant_one: Commands,
    pub left_eye: Commands,
    pub right_eye: Commands,
    pub time_wave: Commands,
}

/// The least weight that a percept may have: 0 for the constant, -1 for the
/// others.
pub open spec fn spec_weight_floor(percept: Percept) -> int {
    if percept == Percept::ConstantOne {
        0
    } else {
        -ONE
    }
}

/// A weight after one mutation: moved by a draw from `[-1, 1)` times the
/// mutation factor, and held between `floor` and 1.
pub open spec fn mutated_weight(weight: int, floor: int, factor: int, words: (u64, u64)) -> int {
    spec_clamp(weight + spec_mul(signed_of(words), factor), floor, ONE as int)
}

/// A mutation moves a weight that lies in its range by no more than the
/// mutation factor.
pub proof fn lemma_mutated_weight_near(weight: int, floor: int, factor: int, words: (u64, u64))
    requires
        floor <= weight <= ONE,
        0 <= factor,
    ensures
        floor <= mutated_weight(weight, floor, factor, words) <= ONE,
        weight - factor <= mutated_weight(weight, floor, factor, words) <= weight + factor,
{
    let s = signed_of(words);
    lemma_mul_signed_fraction(factor, s);
    assert(s * factor == factor * s) by (nonlinear_arith);
}

/// One command: the weighted sum of the percepts, held between 0 and 1.
pub open spec fn spec_command(percepts: Percepts, w0: int, w1: int, w2: int, w3: int) -> int {
    spec_clamp(
        spec_mul(percepts.constant_one as int, w0) + spec_mul(percepts.left_eye as int, w1)
            + spec_mul(percepts.right_eye as int, w2) + spec_mul(percepts.time_wave as int, w3),
        0,
        ONE as int,
    )
}

fn command(percepts: &Percepts, w0: Fixed, w1: Fixed, w2: Fixed, w3: Fixed) -> (r: Fixed)
    ensures
        r == spec_command(*percepts, w0 as int, w1 as int, w2 as int, w3 as int),
        0 <= r <= ONE,
{
    let t0: i128 = mul_wide(percepts.constant_one, w0);
    let t1: i128 = mul_wide(percepts.left_eye, w1);
    let t2: i128 = mul_wide(percepts.right_eye, w2);
    let t3: i128 = mul_wide(percepts.time_wave, w3);
    clamp_wide(t0 + t1 + t2 + t3, 0, ONE)
}

fn mutate_weight(weight: Fixed, floor: Fixed, factor: Fixed, rng: &mut rand_pcg::Lcg64Xsh32) -> (r:
    Fixed)
    requires
        floor <= ONE,
    ensures
        r == mutated_weight(weight as int, floor as int, factor as int, pcg32_words(*old(rng))),
        pcg32_words(*final(rng)) == advanced(pcg32_words(*old(rng))),
{
    let draw: i64 = draw_signed(rng);
    proof {
        lemma_mul_signed_fraction(factor as int, draw as int);
        assert(draw * factor == factor * draw) by (nonlinear_arith);
    }
    clamp_wide(weight as i128 + mul_wide(draw, factor), floor, ONE)
}

impl Percept {
    /// The place of a percept among the percepts.
    pub open spec fn spec_index(self) -> int {
        match self {
            Percept::ConstantOne => 0,
            Percept::LeftEye => 1,
            Percept::RightEye => 2,
            Percept::TimeWave => 3,
        }
    }

    /// The place of a percept among the percepts.
    pub fn index(self) -> (i: usize)
        ensures
            i == self.spec_index(),
            i < PERCEPT_COUNT,
    {
        match self {
            Percept::ConstantOne => 0,
            Percept::LeftEye => 1,
            Percept::RightEye => 2,
            Percept::TimeWave => 3,
        }
    }
}

impl Command {
    /// The place of a command among the commands.
    pub open spec fn spec_index(self) -> int {
        match self {
            Command::LeftTrack => 0,
            Command::RightTrack => 1,
        }
    }

    /// The place of a command among the commands.
    pub fn index(self) -> (i: usize)
        ensures
            i == self.spec_index(),
            i < COMMAND_COUNT,
    {
        match self {
            Command::LeftTrack => 0,
            Command::RightTrack => 1,
        }
    }
}

impl Commands {
    /// The value for one command.
    pub open spec fn spec_get(self, command: Command) -> Fixed {
        match command {
            Command::LeftTrack => self.left_track,
            Command::RightTrack => self.right_track,
        }
    }

    /// The value for one command.
    pub fn get(&self, command: Command) -> (r: Fixed)
        ensures
            r == self.spec_get(command),
    {
        match command {
            Command::LeftTrack => self.left_track,
            Command::RightTrack => self.right_track,
        }
    }
}

impl Percepts {
    /// The value of one percept.
    pub open spec fn spec_get(self, percept: Percept) -> Fixed {
        match percept {
            Percept::ConstantOne => self.constant_one,
            Percept::LeftEye => self.left_eye,
            Percept::RightEye => self.right_eye,
            Percept::TimeWave => self.time_wave,
        }
    }

    /// The value of one percept.
    pub fn get(&self, percept: Percept) -> (r: Fixed)
        ensures
            r == self.spec_get(percept),
    {
        match percept {
            Percept::ConstantOne => self.constant_one,
            Percept::LeftEye => self.left_eye,
            Percept::RightEye => self.right_eye,
            Percept::TimeWave => self.time_wave,
        }
    }
}

impl Brain {
    /// The weight of a percept for a command.
    pub open spec fn spec_weight(self, percept: Percept, command: Command) -> Fixed {
        match percept {
            Percept::ConstantOne => self.constant_one.spec_get(command),
            Percept::LeftEye => self.left_eye.spec_get(command),
            Percept::RightEye => self.right_eye.spec_get(command),
            Percept::TimeWave => self.time_wave.spec_get(command),
        }
    }

    /// Every weight lies in its range: between 0 and 1 for the constant
    /// percept, between -1 and 1 for the others.
    pub open spec fn wf(self) -> bool {
        forall|percept: Percept, command: Command|
            spec_weight_floor(percept) <= #[trigger] self.spec_weight(percept, command) <= ONE
    }

    /// No weight of `self` is further than `bound` from that of `other`.
    pub open spec fn near(self, other: Brain, bound: int) -> bool {
        forall|percept: Percept, command: Command|
            other.spec_weight(percept, command) - bound <= #[trigger] self.spec_weight(
                percept,
                command,
            ) <= other.spec_weight(percept, command) + bound
    }

    /// The brain that eight draws give, percept by percept and for each the
    /// left track first, and the generator after them. The weights of the
    /// constant percept come from `[0, 1)`, the others from `[-1, 1)`.
    pub open spec fn spec_new_random(words: (u64, u64)) -> (Brain, (u64, u64)) {
        let w1 = advanced(words);
        let w2 = advanced(w1);
        let w3 = advanced(w2);
        let w4 = advanced(w3);
        let w5 = advanced(w4);
        let w6 = advanced(w5);
        let w7 = advanced(w6);
        (
            Brain {
                constant_one: Commands {
                    left_track: unit_of(words) as i64,
                    right_track: unit_of(w1) as i64,
                },
                left_eye: Commands {
                    left_track: signed_of(w2) as i64,
                    right_track: signed_of(w3) as i64,
                },
                right_eye: Commands {
                    left_track: signed_of(w4) as i64,
                    right_track: signed_of(w5) as i64,
                },
                time_wave: Commands {
                    left_track: signed_of(w6) as i64,
                    right_track: signed_of(w7) as i64,
                },
            },
            advanced(w7),
        )
    }

    /// The brain of a child, and the generator after the eight draws that
    /// it takes: every weight mutated by `factor` and held in its range.
    pub open spec fn spec_reproduce(self, factor: int, words: (u64, u64)) -> (Brain, (u64, u64)) {
        let w1 = advanced(words);
        let w2 = advanced(w1);
        let w3 = advanced(w2);
        let w4 = advanced(w3);
        let w5 = advanced(w4);
        let w6 = advanced(w5);
        let w7 = advanced(w6);
        (
            Brain {
                constant_one: Commands {
                    left_track: mutated_weight(self.constant_one.left_track as int, 0, factor, words)
                        as i64,
                    right_track: mutated_weight(self.constant_one.right_track as int, 0, factor, w1)
                        as i64,
                },
                left_eye: Commands {
                    left_track: mutated_weight(self.left_eye.left_track as int, -ONE, factor, w2)
                        as i64,
                    right_track: mutated_weight(self.left_eye.right_track as int, -ONE, factor, w3)
                        as i64,
                },
                right_eye: Commands {
                    left_track: mutated_weight(self.right_eye.left_track as int, -ONE, factor, w4)
                        as i64,
                    right_track: mutated_weight(self.right_eye.right_track as int, -ONE, factor, w5)
                        as i64,
                },
                time_wave: Commands {
                    left_track: mutated_weight(self.time_wave.left_track as int, -ONE, factor, w6)
                        as i64,
                    right_track: mutated_weight(self.time_wave.right_track as int, -ONE, factor, w7)
                        as i64,
                },
            },
            advanced(w7),
        )
    }

    /// The commands that the brain gives for some percepts.
    pub open spec fn spec_run(self, percepts: Percepts) -> Commands {
        Commands {
            left_track: spec_command(
                percepts,
                self.constant_one.left_track as int,
                self.left_eye.left_track as int,
                self.right_eye.left_track as int,
                self.time_wave.left_track as int,
            ) as i64,
            right_track: spec_command(
                percepts,
                self.constant_one.right_track as int,
                self.left_eye.right_track as int,
                self.right_eye.right_track as int,
                self.time_wave.right_track as int,
            ) as i64,
        }
    }

    /// Whatever the percepts and the weights are, every command lies
    /// between 0 and 1.
    pub proof fn lemma_run_range(self, percepts: Percepts)
        ensures
            forall|command: Command|
                0 <= #[trigger] self.spec_run(percepts).spec_get(command) <= ONE,
    {
    }

    /// Every weight of a child lies in its range, and where the parent's do
    /// too and the mutation factor is not negative, none is further from
    /// the parent's than the mutation factor.
    pub proof fn lemma_reproduce_near(self, factor: int, words: (u64, u64))
        ensures
            self.spec_reproduce(factor, words).0.wf(),
            self.wf() && factor >= 0 ==> self.spec_reproduce(factor, words).0.near(self, factor),
    {
        let child = self.spec_reproduce(factor, words).0;
        assert(child.wf());
        if self.wf() && factor >= 0 {
            let w1 = advanced(words);
            let w2 = advanced(w1);
            let w3 = advanced(w2);
            let w4 = advanced(w3);
            let w5 = advanced(w4);
            let w6 = advanced(w5);
            let w7 = advanced(w6);
            assert(0 <= self.spec_weight(Percept::ConstantOne, Command::LeftTrack) <= ONE);
            assert(0 <= self.spec_weight(Percept::ConstantOne, Command::RightTrack) <= ONE);
            assert(-ONE <= self.spec_weight(Percept::LeftEye, Command::LeftTrack) <= ONE);
            assert(-ONE <= self.spec_weight(Percept::LeftEye, Command::RightTrack) <= ONE);
            assert(-ONE <= self.spec_weight(Percept::RightEye, Command::LeftTrack) <= ONE);
            assert(-ONE <= self.spec_weight(Percept::RightEye, Command::RightTrack) <= ONE);
            assert(-ONE <= self.spec_weight(Percept::TimeWave, Command::LeftTrack) <= ONE);
            assert(-ONE <= self.spec_weight(Percept::TimeWave, Command::RightTrack) <= ONE);
            lemma_mutated_weight_near(self.constant_one.left_track as int, 0, factor, words);
            lemma_mutated_weight_near(self.constant_one.right_track as int, 0, factor, w1);
            lemma_mutated_weight_near(self.left_eye.left_track as int, -ONE, factor, w2);
            lemma_mutated_weight_near(self.left_eye.right_track as int, -ONE, factor, w3);
            lemma_mutated_weight_near(self.right_eye.left_track as int, -ONE, factor, w4);
            lemma_mutated_weight_near(self.right_eye.right_track as int, -ONE, factor, w5);
            lemma_mutated_weight_near(self.time_wave.left_track as int, -ONE, factor, w6);
            lemma_mutated_weight_near(self.time_wave.right_track as int, -ONE, factor, w7);
            assert(child.near(self, factor));
        }
    }

    /// Generates a random brain: eight draws, percept by percept and for
    /// each the left track first; the weights of the constant percept come
    /// from `[0, 1)`, the others from `[-1, 1)`.
    pub fn new_random(rng: &mut rand_pcg::Lcg64Xsh32) -> (brain: Brain)
        ensures
            (brain, pcg32_words(*final(rng))) == Brain::spec_new_random(pcg32_words(*old(rng))),
            brain.wf(),
    {
        let constant_left: i64 = draw_unit(rng);
        let constant_right: i64 = draw_unit(rng);
        let left_eye_left: i64 = draw_signed(rng);
        let left_eye_right: i64 = draw_signed(rng);
        let right_eye_left: i64 = draw_signed(rng);
        let right_eye_right: i64 = draw_signed(rng);
        let time_wave_left: i64 = draw_signed(rng);
        let time_wave_right: i64 = draw_signed(rng);
        Brain {
            constant_one: Commands { left_track: constant_left, right_track: constant_right },
            left_eye: Commands { left_track: left_eye_left, right_track: left_eye_right },
            right_eye: Commands { left_track: right_eye_left, right_track: right_eye_right },
            time_wave: Commands { left_track: time_wave_left, right_track: time_wave_right },
        }
    }

    /// Reproduces the brain asexually: each weight of the child is the
    /// parent's, moved by a draw from `[-1, 1)` times `mutation_factor` and
    /// held in its range.
    pub fn reproduce(&self, mutation_factor: Fixed, rng: &mut rand_pcg::Lcg64Xsh32) -> (child:
        Brain)
        ensures
            (child, pcg32_words(*final(rng))) == self.spec_reproduce(
                mutation_factor as int,
                pcg32_words(*old(rng)),
            ),
            child.wf(),
            self.wf() && mutation_factor >= 0 ==> child.near(*self, mutation_factor as int),
    {
        proof {
            self.lemma_reproduce_near(mutation_factor as int, pcg32_words(*rng));
        }
        let constant_left: i64 = mutate_weight(self.constant_one.left_track, 0, mutation_factor, rng);
        let constant_right: i64 = mutate_weight(
            self.constant_one.right_track,
            0,
            mutation_factor,
            rng,
        );
        let left_eye_left: i64 = mutate_weight(self.left_eye.left_track, -ONE, mutation_factor, rng);
        let left_eye_right: i64 = mutate_weight(
            self.left_eye.right_track,
            -ONE,
            mutation_factor,
            rng,
        );
        let right_eye_left: i64 = mutate_weight(
            self.right_eye.left_track,
            -ONE,
            mutation_factor,
            rng,
        );
        let right_eye_right: i64 = mutate_weight(
            self.right_eye.right_track,
            -ONE,
            mutation_factor,
            rng,
        );
        let time_wave_left: i64 = mutate_weight(
            self.time_wave.left_track,
            -ONE,
            mutation_factor,
            rng,
        );
        let time_wave_right: i64 = mutate_weight(
            self.time_wave.right_track,
            -ONE,
            mutation_factor,
            rng,
        );
        Brain {
            constant_one: Commands { left_track: constant_left, right_track: constant_right },
            left_eye: Commands { left_track: left_eye_left, right_track: left_eye_right },
            right_eye: Commands { left_track: right_eye_left, right_track: right_eye_right },
            time_wave: Commands { left_track: time_wave_left, right_track: time_wave_right },
        }
    }

    /// Uses the brain to calculate what commands to send to the actuators
    /// for the given percepts. Every command lies between 0 and 1.
    pub fn run(&self, percepts: &Percepts) -> (commands: Commands)
        ensures
            commands == self.spec_run(*percepts),
            0 <= commands.left_track <= ONE,
            0 <= commands.right_track <= ONE,
    {
        Commands {
            left_track: command(
                percepts,
                self.constant_one.left_track,
                self.left_eye.left_track,
                self.right_eye.left_track,
                self.time_wave.left_track,
            ),
            right_track: command(
                percepts,
                self.constant_one.right_track,
                self.left_eye.right_track,
                self.right_eye.right_track,
                self.time_wave.right_track,
            ),
        }
    }

    /// The weight of a percept for a command.
    pub fn weight(&self, percept: Percept, command: Command) -> (r: Fixed)
        ensures
            r == self.spec_weight(percept, command),
    {
        match percept {
            Percept::ConstantOne => self.constant_one.get(command),
            Percept::LeftEye => self.left_eye.get(command),
            Percept::RightEye => self.right_eye.get(command),
            Percept::TimeWave => self.time_wave.get(command),
        }
    }
}

} // verus!
