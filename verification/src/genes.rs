//! The genes of an agent: one raw value per trait, and the traits read off
//! them.
//!
//! A raw value lies between 0 and 1. Reproduction holds each mutated value
//! in that range as it writes it, and every accessor interpolates between
//! the ends of its trait's range, so no trait leaves its range.

use vstd::prelude::*;
use crate::fixed::Fixed;
use crate::fixed::ONE;
use crate::fixed::clamp_wide;
use crate::fixed::lemma_mul_signed_fraction;
use crate::fixed::lerp;
use crate::fixed::mul_wide;
use crate::fixed::spec_clamp;
use crate::fixed::spec_lerp;
use crate::fixed::spec_mul;
use crate::rng::advanced;
use crate::rng::draw_signed;
use crate::rng::draw_unit;
use crate::rng::pcg32_words;
use crate::rng::signed_of;
use crate::rng::unit_of;
use crate::util::Vec3f;

verus! {

/// The traits that an agent inherits, in the order in which they are drawn.
#[derive(Copy, Clone, PartialEq, Eq, Structural, Debug)]
pub enum Gene {
    MutationFactor,
    ColorR,
    ColorG,
    ColorB,
    Size,
    Speed,
    EyeDistance,
    EyeAngle,
    TimerInterval,
}

/// The number of traits.
pub const GENE_COUNT: usize = 9;

/// The largest mutation factor: the raw value next to 0.1.
pub const MAX_MUTATION_FACTOR: i64 = 1_677_722;

/// The smallest and the largest size of a grown agent: 2.5 and 5.
pub const MIN_SIZE: i64 = 41_943_040;

pub const MAX_SIZE: i64 = 83_886_080;

/// The smallest and the largest top speed: 5 and 10.
pub const MIN_SPEED: i64 = 83_886_080;

pub const MAX_SPEED: i64 = 167_772_160;

/// The nearest and the farthest that an eye looks: 4 and 10.
pub const MIN_EYE_DISTANCE: i64 = 67_108_864;

pub const MAX_EYE_DISTANCE: i64 = 167_772_160;

/// The least and the greatest angle between an eye and the heading: the raw
/// value next to 0.1, and 0.5.
pub const MIN_EYE_ANGLE: i64 = 1_677_722;

pub const MAX_EYE_ANGLE: i64 = 8_388_608;

/// The shortest and the longest period of the inner timer: 1 and 50 seconds.
pub const MIN_TIMER_INTERVAL: i64 = 16_777_216;

pub const MAX_TIMER_INTERVAL: i64 = 838_860_800;

/// Keeps track of an agent's genes, and tells the agent's traits.
#[derive(Copy, Clone, PartialEq, Eq, Structural, Debug)]
pub struct Genes {
    pub mutation_factor: Fixed,
    pub color_r: Fixed,
    pub color_g: Fixed,
    pub color_b: Fixed,
    pub size: Fixed,
    pub speed: Fixed,
    pub eye_distance: Fixed,
    pub eye_angle: Fixed,
    pub timer_interval: Fixed,
}

/// A raw value after one mutation: moved by a draw from `[-1, 1)` times
/// the mutation factor, and held between 0 and 1.
pub open spec fn mutated(raw: int, factor: int, words: (u64, u64)) -> int {
    spec_clamp(raw + spec_mul(signed_of(words), factor), 0, ONE as int)
}

/// A mutation moves a raw value that lies between 0 and 1 by no more than
/// the mutation factor.
pub proof fn lemma_mutated_near(raw: int, factor: int, words: (u64, u64))
    requires
        0 <= raw <= ONE,
        0 <= factor,
    ensures
        0 <= mutated(raw, factor, words) <= ONE,
        raw - factor <= mutated(raw, factor, words) <= raw + factor,
{
    let s = signed_of(words);
    lemma_mul_signed_fraction(factor, s);
    assert(s * factor == factor * s) by (nonlinear_arith);
}

fn mutate(raw: Fixed, factor: Fixed, rng: &mut rand_pcg::Lcg64Xsh32) -> (r: Fixed)
    ensures
        r == mutated(raw as int, factor as int, pcg32_words(*old(rng))),
        pcg32_words(*final(rng)) == advanced(pcg32_words(*old(rng))),
{
    let draw: i64 = draw_signed(rng);
    proof {
        lemma_mul_signed_fraction(factor as int, draw as int);
        assert(draw * factor == factor * draw) by (nonlinear_arith);
    }
    clamp_wide(raw as i128 + mul_wide(draw, factor), 0, ONE)
}

impl Gene {
    /// The place of a trait among the traits.
    pub open spec fn spec_index(self) -> int {
        match self {
            Gene::MutationFactor => 0,
            Gene::ColorR => 1,
            Gene::ColorG => 2,
            Gene::ColorB => 3,
            Gene::Size => 4,
            Gene::Speed => 5,
            Gene::EyeDistance => 6,
            Gene::EyeAngle => 7,
            Gene::TimerInterval => 8,
        }
    }

    /// The place of a trait among the traits.
    pub fn index(self) -> (i: usize)
        ensures
            i == self.spec_index(),
            i < GENE_COUNT,
    {
        match self {
            Gene::MutationFactor => 0,
            Gene::ColorR => 1,
            Gene::ColorG => 2,
            Gene::ColorB => 3,
            Gene::Size => 4,
            Gene::Speed => 5,
            Gene::EyeDistance => 6,
            Gene::EyeAngle => 7,
            Gene::TimerInterval => 8,
        }
    }
}

impl Genes {
    /// The raw value of a trait.
    pub open spec fn spec_raw(self, gene: Gene) -> Fixed {
        match gene {
            Gene::MutationFactor => self.mutation_factor,
            Gene::ColorR => self.color_r,
            Gene::ColorG => self.color_g,
            Gene::ColorB => self.color_b,
            Gene::Size => self.size,
            Gene::Speed => self.speed,
            Gene::EyeDistance => self.eye_distance,
            Gene::EyeAngle => self.eye_angle,
            Gene::TimerInterval => self.timer_interval,
        }
    }

    /// Every raw value lies between 0 and 1.
    pub open spec fn wf(self) -> bool {
        forall|gene: Gene| 0 <= #[trigger] self.spec_raw(gene) <= ONE
    }

    /// No raw value of `self` is further than `bound` from that of `other`.
    pub open spec fn near(self, other: Genes, bound: int) -> bool {
        forall|gene: Gene|
            other.spec_raw(gene) - bound <= #[trigger] self.spec_raw(gene) <= other.spec_raw(gene)
                + bound
    }

    /// The genes that nine draws give, and the generator after them.
    pub open spec fn spec_new_random(words: (u64, u64)) -> (Genes, (u64, u64)) {
        let w1 = advanced(words);
        let w2 = advanced(w1);
        let w3 = advanced(w2);
        let w4 = advanced(w3);
        let w5 = advanced(w4);
        let w6 = advanced(w5);
        let w7 = advanced(w6);
        let w8 = advanced(w7);
        (
            Genes {
                mutation_factor: unit_of(words) as i64,
                color_r: unit_of(w1) as i64,
                color_g: unit_of(w2) as i64,
                color_b: unit_of(w3) as i64,
                size: unit_of(w4) as i64,
                speed: unit_of(w5) as i64,
                eye_distance: unit_of(w6) as i64,
                eye_angle: unit_of(w7) as i64,
                timer_interval: unit_of(w8) as i64,
            },
            advanced(w8),
        )
    }

    /// The mutation factor read off the genes.
    pub open spec fn spec_mutation_factor(self) -> int {
        spec_lerp(0, MAX_MUTATION_FACTOR as int, self.mutation_factor as int)
    }

    /// The size of the grown agent.
    pub open spec fn spec_size(self) -> int {
        spec_lerp(MIN_SIZE as int, MAX_SIZE as int, self.size as int)
    }

    /// The top speed.
    pub open spec fn spec_speed(self) -> int {
        spec_lerp(MIN_SPEED as int, MAX_SPEED as int, self.speed as int)
    }

    /// How far ahead the eyes look.
    pub open spec fn spec_eye_distance(self) -> int {
        spec_lerp(MIN_EYE_DISTANCE as int, MAX_EYE_DISTANCE as int, self.eye_distance as int)
    }

    /// The angle between each eye and the heading.
    pub open spec fn spec_eye_angle(self) -> int {
        spec_lerp(MIN_EYE_ANGLE as int, MAX_EYE_ANGLE as int, self.eye_angle as int)
    }

    /// The period of the inner timer.
    pub open spec fn spec_timer_interval(self) -> int {
        spec_lerp(MIN_TIMER_INTERVAL as int, MAX_TIMER_INTERVAL as int, self.timer_interval as int)
    }

    /// The genes of a child, and the generator after the nine draws that
    /// they take: every raw value mutated by the parent's mutation factor.
    pub open spec fn spec_reproduce(self, words: (u64, u64)) -> (Genes, (u64, u64)) {
        let factor = self.spec_mutation_factor();
        let w1 = advanced(words);
        let w2 = advanced(w1);
        let w3 = advanced(w2);
        let w4 = advanced(w3);
        let w5 = advanced(w4);
        let w6 = advanced(w5);
        let w7 = advanced(w6);
        let w8 = advanced(w7);
        (
            Genes {
                mutation_factor: mutated(self.mutation_factor as int, factor, words) as i64,
                color_r: mutated(self.color_r as int, factor, w1) as i64,
                color_g: mutated(self.color_g as int, factor, w2) as i64,
                color_b: mutated(self.color_b as int, factor, w3) as i64,
                size: mutated(self.size as int, factor, w4) as i64,
                speed: mutated(self.speed as int, factor, w5) as i64,
                eye_distance: mutated(self.eye_distance as int, factor, w6) as i64,
                eye_angle: mutated(self.eye_angle as int, factor, w7) as i64,
                timer_interval: mutated(self.timer_interval as int, factor, w8) as i64,
            },
            advanced(w8),
        )
    }

    /// A child's raw values lie between 0 and 1, and where the parent's do
    /// too, none is further from the parent's than the parent's mutation
    /// factor.
    pub proof fn lemma_reproduce_near(self, words: (u64, u64))
        ensures
            self.spec_reproduce(words).0.wf(),
            0 <= self.spec_mutation_factor() <= MAX_MUTATION_FACTOR,
            self.wf() ==> self.spec_reproduce(words).0.near(self, self.spec_mutation_factor()),
    {
        let factor = self.spec_mutation_factor();
        crate::fixed::lemma_mul_fraction(
            MAX_MUTATION_FACTOR as int,
            spec_clamp(self.mutation_factor as int, 0, ONE as int),
        );
        if self.wf() {
            let child = self.spec_reproduce(words).0;
            let w1 = advanced(words);
            let w2 = advanced(w1);
            let w3 = advanced(w2);
            let w4 = advanced(w3);
            let w5 = advanced(w4);
            let w6 = advanced(w5);
            let w7 = advanced(w6);
            let w8 = advanced(w7);
            assert(0 <= self.spec_raw(Gene::MutationFactor) <= ONE);
            assert(0 <= self.spec_raw(Gene::ColorR) <= ONE);
            assert(0 <= self.spec_raw(Gene::ColorG) <= ONE);
            assert(0 <= self.spec_raw(Gene::ColorB) <= ONE);
            assert(0 <= self.spec_raw(Gene::Size) <= ONE);
            assert(0 <= self.spec_raw(Gene::Speed) <= ONE);
            assert(0 <= self.spec_raw(Gene::EyeDistance) <= ONE);
            assert(0 <= self.spec_raw(Gene::EyeAngle) <= ONE);
            assert(0 <= self.spec_raw(Gene::TimerInterval) <= ONE);
            lemma_mutated_near(self.mutation_factor as int, factor, words);
            lemma_mutated_near(self.color_r as int, factor, w1);
            lemma_mutated_near(self.color_g as int, factor, w2);
            lemma_mutated_near(self.color_b as int, factor, w3);
            lemma_mutated_near(self.size as int, factor, w4);
            lemma_mutated_near(self.speed as int, factor, w5);
            lemma_mutated_near(self.eye_distance as int, factor, w6);
            lemma_mutated_near(self.eye_angle as int, factor, w7);
            lemma_mutated_near(self.timer_interval as int, factor, w8);
            assert(child.near(self, factor));
        }
    }

    /// Generates random genes: every raw value is one draw from `[0, 1)`.
    pub fn new_random(rng: &mut rand_pcg::Lcg64Xsh32) -> (genes: Genes)
        ensures
            (genes, pcg32_words(*final(rng))) == Genes::spec_new_random(pcg32_words(*old(rng))),
            genes.wf(),
    {
        let mutation_factor: i64 = draw_unit(rng);
        let color_r: i64 = draw_unit(rng);
        let color_g: i64 = draw_unit(rng);
        let color_b: i64 = draw_unit(rng);
        let size: i64 = draw_unit(rng);
        let speed: i64 = draw_unit(rng);
        let eye_distance: i64 = draw_unit(rng);
        let eye_angle: i64 = draw_unit(rng);
        let timer_interval: i64 = draw_unit(rng);
        Genes {
            mutation_factor,
            color_r,
            color_g,
            color_b,
            size,
            speed,
            eye_distance,
            eye_angle,
            timer_interval,
        }
    }

    /// Reproduces the genes asexually: each raw value of the child is the
    /// parent's, moved by a draw from `[-1, 1)` times the parent's mutation
    /// factor and held between 0 and 1.
    pub fn reproduce(&self, rng: &mut rand_pcg::Lcg64Xsh32) -> (child: Genes)
        ensures
            (child, pcg32_words(*final(rng))) == self.spec_reproduce(pcg32_words(*old(rng))),
            child.wf(),
            self.wf() ==> child.near(*self, self.spec_mutation_factor()),
    {
        proof {
            self.lemma_reproduce_near(pcg32_words(*rng));
        }
        let factor: i64 = self.get_mutation_factor();
        let mutation_factor: i64 = mutate(self.mutation_factor, factor, rng);
        let color_r: i64 = mutate(self.color_r, factor, rng);
        let color_g: i64 = mutate(self.color_g, factor, rng);
        let color_b: i64 = mutate(self.color_b, factor, rng);
        let size: i64 = mutate(self.size, factor, rng);
        let speed: i64 = mutate(self.speed, factor, rng);
        let eye_distance: i64 = mutate(self.eye_distance, factor, rng);
        let eye_angle: i64 = mutate(self.eye_angle, factor, rng);
        let timer_interval: i64 = mutate(self.timer_interval, factor, rng);
        Genes {
            mutation_factor,
            color_r,
            color_g,
            color_b,
            size,
            speed,
            eye_distance,
            eye_angle,
            timer_interval,
        }
    }

    /// The raw value of a trait.
    pub fn raw(&self, gene: Gene) -> (r: Fixed)
        ensures
            r == self.spec_raw(gene),
    {
        match gene {
            Gene::MutationFactor => self.mutation_factor,
            Gene::ColorR => self.color_r,
            Gene::ColorG => self.color_g,
            Gene::ColorB => self.color_b,
            Gene::Size => self.size,
            Gene::Speed => self.speed,
            Gene::EyeDistance => self.eye_distance,
            Gene::EyeAngle => self.eye_angle,
            Gene::TimerInterval => self.timer_interval,
        }
    }

    /// The size of the mutations of this lineage, between 0 and
    /// `MAX_MUTATION_FACTOR`.
    pub fn get_mutation_factor(&self) -> (r: Fixed)
        ensures
            r == self.spec_mutation_factor(),
            0 <= r <= MAX_MUTATION_FACTOR,
    {
        lerp(0, MAX_MUTATION_FACTOR, self.mutation_factor)
    }

    /// The colour: the raw values of its three genes.
    pub fn get_color(&self) -> (color: Vec3f)
        ensures
            color == (Vec3f { x: self.color_r, y: self.color_g, z: self.color_b }),
    {
        Vec3f { x: self.color_r, y: self.color_g, z: self.color_b }
    }

    /// The size of the grown agent, between `MIN_SIZE` and `MAX_SIZE`.
    pub fn get_size(&self) -> (r: Fixed)
        ensures
            r == self.spec_size(),
            MIN_SIZE <= r <= MAX_SIZE,
    {
        lerp(MIN_SIZE, MAX_SIZE, self.size)
    }

    /// The top speed, between `MIN_SPEED` and `MAX_SPEED`.
    pub fn get_speed(&self) -> (r: Fixed)
        ensures
            r == self.spec_speed(),
            MIN_SPEED <= r <= MAX_SPEED,
    {
        lerp(MIN_SPEED, MAX_SPEED, self.speed)
    }

    /// How far ahead the eyes look, between `MIN_EYE_DISTANCE` and
    /// `MAX_EYE_DISTANCE`.
    pub fn get_eye_distance(&self) -> (r: Fixed)
        ensures
            r == self.spec_eye_distance(),
            MIN_EYE_DISTANCE <= r <= MAX_EYE_DISTANCE,
    {
        lerp(MIN_EYE_DISTANCE, MAX_EYE_DISTANCE, self.eye_distance)
    }

    /// The angle between each eye and the heading, between `MIN_EYE_ANGLE`
    /// and `MAX_EYE_ANGLE`.
    pub fn get_eye_angle(&self) -> (r: Fixed)
        ensures
            r == self.spec_eye_angle(),
            MIN_EYE_ANGLE <= r <= MAX_EYE_ANGLE,
    {
        lerp(MIN_EYE_ANGLE, MAX_EYE_ANGLE, self.eye_angle)
    }

    /// The period of the inner timer, between `MIN_TIMER_INTERVAL` and
    /// `MAX_TIMER_INTERVAL`.
    pub fn get_timer_interval(&self) -> (r: Fixed)
        ensures
            r == self.spec_timer_interval(),
            MIN_TIMER_INTERVAL <= r <= MAX_TIMER_INTERVAL,
    {
        lerp(MIN_TIMER_INTERVAL, MAX_TIMER_INTERVAL, self.timer_interval)
    }
}

} // verus!
