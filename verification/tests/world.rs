use mini_universe::agent::Agent;
use mini_universe::agent::REPRODUCE_INTERVAL;
use mini_universe::fixed::ONE;
use mini_universe::params::Params;
use mini_universe::params::DEFAULT_TICK_INTERVAL;
use mini_universe::rng::draw_unit;
use mini_universe::util::Size2i;
use mini_universe::util::Vec2f;
use mini_universe::world::clock_seed;
use mini_universe::world::World;
use mini_universe::world::CLOCK_SEED_BOUND;
use mini_universe::world::MAX_TIME;
use rand::SeedableRng;
use rand_pcg::Pcg32;

fn params(w: u32, h: u32, agent_count: u32, seed: u64, evolution: bool) -> Params {
    Params {
        seed: Some(seed),
        plant_grid_size: Size2i { w, h },
        tick_interval: DEFAULT_TICK_INTERVAL,
        agent_count,
        evolution,
    }
}

fn plants(world: &World) -> u64 {
    world.plant_grid.densities.iter().map(|d| *d as u64).sum()
}

fn drawn(world: &World, count: usize) -> bool {
    let mut rng = world.rng.clone();
    let mut other = Pcg32::seed_from_u64(world.seed);
    for _ in 0..count {
        draw_unit(&mut other);
    }
    (0..4).all(|_| draw_unit(&mut rng) == draw_unit(&mut other))
}

fn same(first: &World, second: &World) -> bool {
    first.agents == second.agents
        && first.plant_grid.densities == second.plant_grid.densities
        && first.plant_grid.size == second.plant_grid.size
        && first.plant_grid.time_since_regenerate == second.plant_grid.time_since_regenerate
        && first.time == second.time
        && first.seed == second.seed
        && first.rng == second.rng
        && first.max_time_alive == second.max_time_alive
        && first.max_generation == second.max_generation
}

#[test]
fn default_params() {
    let params = Params::default();
    assert_eq!(params.seed, None);
    assert_eq!(params.plant_grid_size, Size2i { w: 200, h: 200 });
    assert_eq!(params.tick_interval, 671_089);
    assert_eq!(params.agent_count, 5);
    assert!(params.evolution);
    let seconds = params.tick_interval as f64 / ONE as f64;
    assert!((seconds - 0.04).abs() < 1e-7);
}

#[test]
fn max_time_is_the_reproduce_interval_times_the_generations() {
    assert_eq!(MAX_TIME as i128, (u32::MAX as i128 - 1) * REPRODUCE_INTERVAL as i128);
}

#[test]
fn clock_seed_is_below_its_bound() {
    assert_eq!(clock_seed(0), 0);
    assert_eq!(clock_seed(9_999_999), 9_999_999);
    assert_eq!(clock_seed(10_000_000), 0);
    assert_eq!(clock_seed(1_700_000_000_123_456_789), 123_456_789 % 10_000_000);
    assert_eq!(clock_seed((1u128 << 64) + 5), 5);
    assert_eq!(clock_seed(u128::MAX), (u64::MAX % 10_000_000));
    assert!(clock_seed(u128::MAX) < CLOCK_SEED_BOUND);
}

#[test]
fn new_takes_the_seed_of_the_params() {
    let params = params(10, 10, 2, 99, true);
    let world = World::new(&params);
    assert_eq!(world.seed, 99);
    assert!(same(&world, &World::new_seeded(&params, 99)));
}

#[test]
fn new_without_a_seed_asks_the_clock() {
    let mut params = params(10, 10, 2, 0, true);
    params.seed = None;
    let world = World::new(&params);
    assert!(world.seed < CLOCK_SEED_BOUND);
    assert!(same(&world, &World::new_seeded(&params, world.seed)));
}

#[test]
fn new_seeded_makes_the_grid_and_then_the_agents() {
    let params = params(10, 10, 1, 42, false);
    let world = World::new_seeded(&params, 42);
    assert_eq!(world.agents.len(), 1);
    assert_eq!(world.time, 0);
    assert_eq!(world.seed, 42);
    assert_eq!(world.max_time_alive, 0);
    assert_eq!(world.max_generation, 1);
    assert_eq!(world.plant_grid.size, Size2i { w: 10, h: 10 });
    assert_eq!(plants(&world), 0);
    let agent = world.agents[0];
    assert_eq!(agent.pos, Vec2f { x: 102_511_770, y: 29_006_080 });
    assert_eq!(agent.angle, 92_642_305);
    assert_eq!(agent.genes.mutation_factor, 11_992_749);
    assert_eq!(agent.genes.timer_interval, 14_015_456);
    assert_eq!(agent.brain.constant_one.left_track, 2_156_833);
    assert_eq!(agent.brain.time_wave.right_track, -6_171_666);
    assert!(drawn(&world, 84));
}

#[test]
fn new_seeded_ignores_the_seed_of_the_params() {
    let params = params(10, 10, 3, 1, false);
    let world = World::new_seeded(&params, 42);
    assert_eq!(world.seed, 42);
    assert_eq!(world.agents[0].pos, Vec2f { x: 102_511_770, y: 29_006_080 });
}

#[test]
fn new_seeded_without_agents() {
    let world = World::new_seeded(&params(10, 10, 0, 42, true), 42);
    assert_eq!(world.agents.len(), 0);
    assert!(drawn(&world, 64));
}

#[test]
fn one_agent_one_tick() {
    let params = params(10, 10, 1, 42, false);
    let mut world = World::new(&params);
    world.tick(&params, params.tick_interval);
    assert_eq!(world.agents.len(), 1);
    let agent = world.agents[0];
    assert_eq!(agent.time_alive, params.tick_interval);
    assert_eq!(agent.time_alive, 671_089);
    assert!((agent.time_alive as f64 / ONE as f64 - 0.04).abs() < 1e-7);
    assert_eq!(agent.generation, 1);
    assert_eq!(agent.time_since_reproduce, 671_089);
    assert_eq!(agent.pos, Vec2f { x: 102_251_543, y: 29_599_836 });
    assert_eq!(agent.angle, 85_973_375);
    assert_eq!(agent.energy, 16_763_795);
    assert_eq!(world.time, 671_089);
    assert_eq!(world.plant_grid.time_since_regenerate, 671_089);
    assert!(drawn(&world, 84));
}

#[test]
fn one_agent_a_hundred_ticks() {
    let params = params(10, 10, 1, 42, false);
    let mut world = World::new(&params);
    for _ in 0..100 {
        world.tick(&params, params.tick_interval);
    }
    let agent = world.agents[0];
    assert_eq!(agent.pos, Vec2f { x: 93_001_835, y: 46_577_790 });
    assert_eq!(agent.angle, 36_687_875);
    assert_eq!(agent.energy, 15_435_116);
    assert_eq!(agent.time_alive, 67_108_900);
    assert_eq!(world.time, 67_108_900);
}

#[test]
fn same_seed_same_worlds() {
    let params = params(30, 20, 5, 7, true);
    let mut first = World::new(&params);
    let mut second = World::new(&params);
    assert!(same(&first, &second));
    let steps = [671_089i64, 1, 0, 5 * ONE, 671_089, 12 * ONE, 300_000, 60 * ONE, 671_089];
    for _ in 0..20 {
        for step in steps.iter() {
            first.tick(&params, *step);
            second.tick(&params, *step);
            assert!(same(&first, &second));
        }
    }
}

#[test]
fn other_seed_other_world() {
    let params = params(30, 20, 5, 7, true);
    let first = World::new_seeded(&params, 7);
    let second = World::new_seeded(&params, 8);
    assert!(first.agents != second.agents);
    assert!(first.plant_grid.densities != second.plant_grid.densities);
}

#[test]
fn agents_eat_the_plants_under_their_mouths() {
    let params = params(30, 20, 5, 7, true);
    let mut world = World::new(&params);
    assert_eq!(plants(&world), 3051);
    assert_eq!(world.agents[0].pos, Vec2f { x: 320_326_860, y: 290_536_640 });
    assert!(drawn(&world, 3412));
    world.tick(&params, params.tick_interval);
    world.tick(&params, params.tick_interval);
    assert_eq!(world.agents[0].pos, Vec2f { x: 318_978_191, y: 295_458_917 });
    assert_eq!(world.agents[0].angle, 33_000_071);
    assert_eq!(world.agents[1].pos, Vec2f { x: 12_710_297, y: 99_999_078 });
    assert_eq!(world.agents[1].energy, 16_750_374);
    for _ in 2..50 {
        world.tick(&params, params.tick_interval);
    }
    assert_eq!(world.agents.len(), 5);
    assert_eq!(plants(&world), 3011);
    assert_eq!(world.agents[0].pos, Vec2f { x: 363_773_218, y: 265_896_781 });
    assert_eq!(world.agents[0].energy, 16_369_338);
    assert_eq!(world.agents[4].pos, Vec2f { x: 45_557_759, y: 299_368_076 });
    assert_eq!(world.agents[4].angle, 68_908_765);
    assert_eq!(world.time, 33_554_450);
    assert_eq!(world.plant_grid.time_since_regenerate, 33_554_450);
    assert!(drawn(&world, 3412));
}

#[test]
fn plants_regrow_every_ten_seconds() {
    let params = params(30, 20, 5, 7, true);
    let mut world = World::new(&params);
    for _ in 0..249 {
        world.tick(&params, params.tick_interval);
    }
    assert!(drawn(&world, 3412));
    assert!(plants(&world) < 3000);
    world.tick(&params, params.tick_interval);
    assert_eq!(world.time, 167_772_250);
    assert_eq!(world.plant_grid.time_since_regenerate, 90);
    assert_eq!(plants(&world), 3028);
    assert!(drawn(&world, 4012));
    assert_eq!(world.agents[0].pos, Vec2f { x: 336_618_854, y: 208_884_825 });
    assert_eq!(world.agents[1].energy, 13_421_966);
}

#[test]
fn the_dead_are_replaced_up_to_the_target() {
    let params = params(30, 20, 5, 7, true);
    let mut world = World::new(&params);
    world.tick(&params, 60 * ONE);
    assert_eq!(world.agents.len(), 5);
    assert_eq!(world.max_time_alive, 60 * ONE);
    assert_eq!(world.max_generation, 1);
    assert_eq!(world.time, 60 * ONE);
    assert_eq!(world.plant_grid.time_since_regenerate, 10 * ONE);
    for agent in world.agents.iter() {
        assert_eq!(agent.energy, ONE);
        assert_eq!(agent.time_alive, 0);
        assert_eq!(agent.generation, 1);
    }
    assert_eq!(world.agents[0].pos, Vec2f { x: 336_567_030, y: 227_875_260 });
    assert_eq!(world.agents[4].pos, Vec2f { x: 283_749_870, y: 238_738_760 });
    assert!(drawn(&world, 3512));
}

#[test]
fn the_population_does_not_fall_below_the_target() {
    let params = params(30, 20, 5, 7, true);
    let mut world = World::new(&params);
    let steps = [671_089i64, 49 * ONE, 60 * ONE, 671_089, 30 * ONE, 55 * ONE];
    for _ in 0..30 {
        for step in steps.iter() {
            world.tick(&params, *step);
            assert!(world.agents.len() >= 5);
        }
    }
}

#[test]
fn a_crowd_shrinks_to_the_target_and_no_further() {
    let mut params = params(30, 20, 8, 7, true);
    let mut world = World::new(&params);
    assert_eq!(world.agents.len(), 8);
    params.agent_count = 5;
    world.tick(&params, 60 * ONE);
    assert_eq!(world.agents.len(), 5);
    assert!(drawn(&world, 3572));
}

#[test]
fn a_world_below_the_target_keeps_its_number() {
    let mut params = params(30, 20, 3, 7, true);
    let mut world = World::new(&params);
    params.agent_count = 5;
    world.tick(&params, 60 * ONE);
    assert_eq!(world.agents.len(), 3);
    assert!(drawn(&world, 3432));
}

#[test]
fn without_evolution_nobody_leaves_or_arrives() {
    let params = params(30, 20, 8, 7, false);
    let mut world = World::new(&params);
    world.tick(&params, 60 * ONE);
    assert_eq!(world.agents.len(), 8);
    assert_eq!(world.max_time_alive, 0);
    for agent in world.agents.iter() {
        assert_eq!(agent.energy, 0);
        assert_eq!(agent.time_alive, 60 * ONE);
    }
    assert!(drawn(&world, 3472));
    world.tick(&params, 60 * ONE);
    assert_eq!(world.agents.len(), 8);
}

#[test]
fn an_agent_that_is_due_a_child_gets_one() {
    let params = params(30, 20, 5, 7, true);
    let mut world = World::new(&params);
    world.time = 200 * ONE;
    world.agents[0].time_alive = 150 * ONE;
    world.agents[0].time_since_reproduce = REPRODUCE_INTERVAL - 10;
    world.tick(&params, params.tick_interval);
    assert_eq!(world.agents.len(), 6);
    let parent: Agent = world.agents[0];
    let child: Agent = world.agents[5];
    assert_eq!(parent.energy, 8_375_187);
    assert_eq!(parent.time_since_reproduce, 0);
    assert_eq!(parent.time_alive, 2_517_253_489);
    assert_eq!(parent.generation, 1);
    assert_eq!(child.generation, 2);
    assert_eq!(child.pos, parent.pos);
    assert_eq!(child.pos, Vec2f { x: 320_321_460, y: 293_169_185 });
    assert_eq!(parent.angle, 26_387_377);
    assert_eq!(child.angle, 79_094_555);
    assert_eq!(child.energy, ONE);
    assert_eq!(child.time_alive, 0);
    assert_eq!(child.genes.mutation_factor, 8_712_214);
    assert_eq!(child.genes.timer_interval, 195_889);
    assert_eq!(child.brain.constant_one.left_track, 12_455_984);
    assert_eq!(child.brain.time_wave.right_track, -6_596_436);
    assert_eq!(world.max_generation, 1);
    assert!(drawn(&world, 3429));
    world.tick(&params, params.tick_interval);
    assert_eq!(world.agents.len(), 6);
    assert_eq!(world.agents[5].time_alive, params.tick_interval);
}

#[test]
fn the_records_note_the_dead() {
    let params = params(30, 20, 5, 7, true);
    let mut world = World::new(&params);
    world.time = 400 * ONE;
    world.agents[2].generation = 3;
    world.agents[2].time_alive = 150 * ONE;
    world.agents[2].time_since_reproduce = ONE;
    world.agents[2].energy = 1;
    world.tick(&params, params.tick_interval);
    assert_eq!(world.agents.len(), 5);
    assert_eq!(world.max_generation, 3);
    assert_eq!(world.max_time_alive, 150 * ONE + params.tick_interval);
    assert_eq!(world.agents[4].generation, 1);
    assert_eq!(world.agents[4].time_alive, 0);
    assert!(drawn(&world, 3432));
}
