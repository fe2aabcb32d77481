use mini_universe::agent::Agent;
use mini_universe::agent::TickResult;
use mini_universe::agent::REPRODUCE_ENERGY_COST;
use mini_universe::agent::REPRODUCE_INTERVAL;
use mini_universe::brain::Brain;
use mini_universe::brain::Commands;
use mini_universe::brain::Percepts;
use mini_universe::fixed::HALF;
use mini_universe::fixed::ONE;
use mini_universe::genes::Genes;
use mini_universe::params::Params;
use mini_universe::plant_grid::PlantGrid;
use mini_universe::rng::draw_unit;
use mini_universe::trig::HALF_PI;
use mini_universe::trig::PI;
use mini_universe::trig::TAU;
use mini_universe::util::Rect2f;
use mini_universe::util::Size2i;
use mini_universe::util::Vec2f;
use rand::SeedableRng;
use rand_pcg::Pcg32;

fn flat_genes(raw: i64) -> Genes {
    Genes {
        mutation_factor: raw,
        color_r: raw,
        color_g: raw,
        color_b: raw,
        size: raw,
        speed: raw,
        eye_distance: raw,
        eye_angle: raw,
        timer_interval: raw,
    }
}

fn constant_brain(left: i64, right: i64) -> Brain {
    let none = Commands { left_track: 0, right_track: 0 };
    Brain {
        constant_one: Commands { left_track: left, right_track: right },
        left_eye: none,
        right_eye: none,
        time_wave: none,
    }
}

fn agent_at(x: i64, y: i64, angle: i64, brain: Brain) -> Agent {
    Agent {
        genes: flat_genes(HALF),
        pos: Vec2f { x, y },
        angle,
        energy: ONE,
        generation: 1,
        time_alive: 0,
        time_since_reproduce: 0,
        brain,
    }
}

fn full_grid(w: u32, h: u32, density: u8) -> PlantGrid {
    let mut grid = PlantGrid::new(Size2i { w, h });
    grid.densities = vec![density; (w * h) as usize];
    grid
}

fn params(w: u32, h: u32) -> Params {
    Params {
        seed: Some(7),
        plant_grid_size: Size2i { w, h },
        tick_interval: 671_089,
        agent_count: 5,
        evolution: true,
    }
}

#[test]
fn new_random_draws_place_heading_genes_and_brain() {
    let mut rng = Pcg32::seed_from_u64(42);
    let agent = Agent::new_random(&params(10, 10), &mut rng);
    assert_eq!(agent.pos, Vec2f { x: 132_813_940, y: 130_850_210 });
    assert_eq!(agent.angle, 12_644_080);
    assert_eq!(agent.genes.mutation_factor, 16_502_765);
    assert_eq!(agent.energy, ONE);
    assert_eq!(agent.generation, 1);
    assert_eq!(agent.time_alive, 0);
    assert_eq!(agent.time_since_reproduce, 0);
    let mut other = Pcg32::seed_from_u64(42);
    for _ in 0..20 {
        draw_unit(&mut other);
    }
    assert_eq!(draw_unit(&mut rng), draw_unit(&mut other));
}

#[test]
fn new_random_stands_on_the_grid() {
    let mut rng = Pcg32::seed_from_u64(11);
    for _ in 0..500 {
        let agent = Agent::new_random(&params(30, 20), &mut rng);
        assert!(0 <= agent.pos.x && agent.pos.x < 30 * ONE);
        assert!(0 <= agent.pos.y && agent.pos.y < 20 * ONE);
        assert!(0 <= agent.angle && agent.angle < TAU);
    }
}

#[test]
fn reproduce_gives_a_child_facing_the_other_way() {
    let mut rng = Pcg32::seed_from_u64(1);
    let mut parent = agent_at(3 * ONE, 4 * ONE, HALF_PI, constant_brain(HALF, HALF));
    parent.generation = 6;
    parent.energy = HALF;
    parent.time_alive = 200 * ONE;
    parent.time_since_reproduce = 3 * ONE;
    let child = parent.reproduce(&mut rng);
    assert_eq!(child.pos, parent.pos);
    assert_eq!(child.angle, HALF_PI + PI);
    assert_eq!(child.energy, ONE);
    assert_eq!(child.generation, 7);
    assert_eq!(child.time_alive, 0);
    assert_eq!(child.time_since_reproduce, 0);
    let factor = parent.genes.get_mutation_factor();
    assert_eq!(factor, 838_861);
    assert!((child.genes.size - parent.genes.size).abs() <= factor);
    assert!((child.brain.left_eye.left_track - parent.brain.left_eye.left_track).abs() <= factor);
    let mut other = Pcg32::seed_from_u64(1);
    for _ in 0..17 {
        draw_unit(&mut other);
    }
    assert_eq!(draw_unit(&mut rng), draw_unit(&mut other));
}

#[test]
fn reproduce_wraps_the_heading() {
    let mut rng = Pcg32::seed_from_u64(1);
    let parent = agent_at(0, 0, PI + 5, constant_brain(0, 0));
    assert_eq!(parent.reproduce(&mut rng).angle, 5);
}

#[test]
fn reproduce_draws_genes_before_brain() {
    let mut rng = Pcg32::seed_from_u64(1);
    let mut parent = agent_at(0, 0, 0, constant_brain(HALF, HALF));
    parent.genes = Genes::new_random(&mut rng);
    let mut rng = Pcg32::seed_from_u64(1);
    let genes = Genes::new_random(&mut rng);
    let child_genes = genes.reproduce(&mut rng);
    let child_brain = parent.brain.reproduce(genes.get_mutation_factor(), &mut rng);
    let mut rng = Pcg32::seed_from_u64(1);
    Genes::new_random(&mut rng);
    let child = parent.reproduce(&mut rng);
    assert_eq!(child.genes, child_genes);
    assert_eq!(child.brain, child_brain);
}

#[test]
fn body_grows_to_its_full_size() {
    let mut agent = agent_at(5 * ONE, 5 * ONE, 0, constant_brain(HALF, HALF));
    assert_eq!(agent.genes.get_size(), 62_914_560);
    assert_eq!(agent.get_size(), 12_582_911);
    agent.time_alive = ONE;
    assert_eq!(agent.get_size(), 22_649_240);
    agent.time_alive = 5 * ONE;
    assert_eq!(agent.get_size(), 62_914_560);
    agent.time_alive = 500 * ONE;
    assert_eq!(agent.get_size(), 62_914_560);
}

#[test]
fn bounding_rect_is_centred_on_the_agent() {
    let mut agent = agent_at(5 * ONE, 6 * ONE, 0, constant_brain(HALF, HALF));
    agent.time_alive = 5 * ONE;
    let rect = agent.get_bounding_rect();
    assert_eq!(
        rect,
        Rect2f {
            x: 5 * ONE - 31_457_280,
            y: 6 * ONE - 31_457_280,
            w: 62_914_560,
            h: 62_914_560
        }
    );
}

#[test]
fn eyes_and_mouth_lie_ahead() {
    let agent = agent_at(5 * ONE, 5 * ONE, HALF_PI, constant_brain(HALF, HALF));
    assert_eq!(agent.get_left_measure_pos(), Vec2f { x: 118_755_747, y: 196_020_333 });
    assert_eq!(agent.get_right_measure_pos(), Vec2f { x: 49_016_413, y: 196_020_333 });
    assert_eq!(agent.get_mouth_pos(), Vec2f { x: 5 * ONE, y: 7 * ONE });
    let agent = agent_at(5 * ONE, 5 * ONE, 0, constant_brain(HALF, HALF));
    assert_eq!(agent.get_mouth_pos(), Vec2f { x: 7 * ONE, y: 5 * ONE });
}

#[test]
fn sensors_read_the_grid_under_the_eyes() {
    let agent = agent_at(5 * ONE, 5 * ONE, HALF_PI, constant_brain(HALF, HALF));
    let mut grid = full_grid(20, 20, 0);
    grid.densities[11 * 20 + 7] = 255;
    grid.densities[11 * 20 + 2] = 128;
    let percepts = agent.measure_sensors(&grid);
    assert_eq!(
        percepts,
        Percepts { constant_one: ONE, left_eye: ONE, right_eye: 8_421_504, time_wave: 0 }
    );
}

#[test]
fn sensors_read_nothing_outside_the_grid() {
    let agent = agent_at(5 * ONE, 5 * ONE, HALF_PI, constant_brain(HALF, HALF));
    let grid = full_grid(10, 10, 255);
    let percepts = agent.measure_sensors(&grid);
    assert_eq!(percepts.left_eye, 0);
    assert_eq!(percepts.right_eye, 0);
}

#[test]
fn time_wave_follows_the_timer() {
    let mut agent = agent_at(5 * ONE, 5 * ONE, 0, constant_brain(HALF, HALF));
    let grid = full_grid(10, 10, 0);
    let interval = agent.genes.get_timer_interval();
    assert_eq!(interval, 427_819_008);
    agent.time_alive = interval / 4;
    assert_eq!(agent.measure_sensors(&grid).time_wave, ONE);
    agent.time_alive = interval / 2;
    assert_eq!(agent.measure_sensors(&grid).time_wave, 0);
    agent.time_alive = interval / 4 * 3;
    assert_eq!(agent.measure_sensors(&grid).time_wave, -ONE);
}

#[test]
fn tick_moves_eats_and_ages() {
    let mut agent = agent_at(5 * ONE, 5 * ONE, 0, constant_brain(ONE, ONE));
    agent.energy = HALF;
    let grid = full_grid(10, 10, 255);
    let result = agent.tick(&grid, ONE);
    assert_eq!(result, TickResult { eat: true, die: false, reproduce: false });
    assert_eq!(agent.pos, Vec2f { x: 41_943_040, y: 5 * ONE });
    assert_eq!(agent.angle, 0);
    assert_eq!(agent.energy, 9_730_786);
    assert_eq!(agent.time_alive, ONE);
    assert_eq!(agent.time_since_reproduce, ONE);
    assert_eq!(agent.generation, 1);
    assert_eq!(grid.densities, vec![255u8; 100]);
}

#[test]
fn tick_without_energy_left_is_death() {
    let mut agent = agent_at(5 * ONE, 5 * ONE, HALF_PI, constant_brain(0, 0));
    agent.energy = 167_772;
    let grid = full_grid(10, 10, 255);
    let result = agent.tick(&grid, ONE);
    assert_eq!(result, TickResult { eat: false, die: true, reproduce: false });
    assert_eq!(agent.energy, 0);
    assert_eq!(agent.pos, Vec2f { x: 5 * ONE, y: 125_829_120 });
}

#[test]
fn tick_backwards_does_not_eat() {
    let mut agent = agent_at(5 * ONE, 5 * ONE, HALF_PI, constant_brain(0, 0));
    let grid = full_grid(10, 10, 255);
    let result = agent.tick(&grid, 671_089);
    assert!(!result.eat);
    assert!(agent.pos.y < 5 * ONE);
    assert_eq!(agent.energy, ONE - 13_421);
}

#[test]
fn tick_reproduces_once_per_interval() {
    let mut agent = agent_at(5 * ONE, 5 * ONE, HALF_PI, constant_brain(HALF, HALF));
    let grid = full_grid(10, 10, 255);
    let step = REPRODUCE_INTERVAL / 2 + 1;
    let first = agent.tick(&grid, step);
    assert_eq!(first, TickResult { eat: false, die: false, reproduce: false });
    assert_eq!(agent.energy, 16);
    assert_eq!(agent.time_since_reproduce, step);
    let second = agent.tick(&grid, step);
    assert_eq!(second, TickResult { eat: false, die: true, reproduce: true });
    assert_eq!(agent.energy, -REPRODUCE_ENERGY_COST);
    assert_eq!(agent.time_since_reproduce, 0);
    let third = agent.tick(&grid, step);
    assert_eq!(third, TickResult { eat: false, die: true, reproduce: false });
    assert_eq!(agent.energy, 0);
    assert_eq!(agent.time_since_reproduce, step);
    assert!(agent.time_since_reproduce < REPRODUCE_INTERVAL);
    assert_eq!(agent.time_alive, 3 * step);
}

#[test]
fn tick_at_the_interval_does_not_reproduce_yet() {
    let mut agent = agent_at(5 * ONE, 5 * ONE, HALF_PI, constant_brain(HALF, HALF));
    let grid = full_grid(10, 10, 0);
    assert!(!agent.tick(&grid, REPRODUCE_INTERVAL).reproduce);
    assert_eq!(agent.time_since_reproduce, REPRODUCE_INTERVAL);
    assert!(agent.tick(&grid, 1).reproduce);
    assert_eq!(agent.time_since_reproduce, 0);
}

#[test]
fn tick_wraps_on_both_axes() {
    let brain = constant_brain(ONE, ONE);
    let grid = full_grid(10, 10, 0);
    let mut agent = agent_at(9 * ONE, 9 * ONE, HALF_PI / 2, brain);
    agent.tick(&grid, ONE);
    assert!(0 <= agent.pos.x && agent.pos.x < 10 * ONE);
    assert!(0 <= agent.pos.y && agent.pos.y < 10 * ONE);
    assert!(agent.pos.x < 9 * ONE && agent.pos.y < 9 * ONE);
    let mut agent = agent_at(ONE, ONE, PI + HALF_PI / 2, brain);
    agent.tick(&grid, ONE);
    assert!(agent.pos.x > ONE && agent.pos.x < 10 * ONE);
    assert!(agent.pos.y > ONE && agent.pos.y < 10 * ONE);
}

#[test]
fn tick_keeps_the_energy_in_range() {
    let mut rng = Pcg32::seed_from_u64(19);
    let mut grid = PlantGrid::new(Size2i { w: 30, h: 20 });
    grid.generate(&mut rng);
    let mut agent = Agent::new_random(&params(30, 20), &mut rng);
    for _ in 0..6000 {
        let result = agent.tick(&grid, 671_089);
        if result.reproduce {
            assert!(-REPRODUCE_ENERGY_COST <= agent.energy);
            assert!(agent.energy <= ONE - REPRODUCE_ENERGY_COST);
        } else {
            assert!(0 <= agent.energy && agent.energy <= ONE);
        }
        assert_eq!(result.die, agent.energy <= 0);
    }
}

#[test]
fn tick_turns_by_the_difference_of_the_tracks() {
    let grid = full_grid(10, 10, 0);
    let mut left = agent_at(5 * ONE, 5 * ONE, 0, constant_brain(ONE, 0));
    left.tick(&grid, 671_089);
    assert_eq!(left.angle, 13_421_782);
    assert_eq!(left.pos, Vec2f { x: 5 * ONE, y: 5 * ONE });
    let mut right = agent_at(5 * ONE, 5 * ONE, 0, constant_brain(0, ONE));
    right.tick(&grid, 671_089);
    assert_eq!(right.angle, 91_992_573);
    assert_eq!(right.pos, Vec2f { x: 5 * ONE, y: 5 * ONE });
}
