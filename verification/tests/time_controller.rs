use mini_universe::fixed::ONE;
use mini_universe::params::Params;
use mini_universe::time_controller::TimeController;
use mini_universe::util::Size2i;
use mini_universe::util::Vec2f;
use mini_universe::world::World;

fn params() -> Params {
    Params {
        seed: Some(7),
        plant_grid_size: Size2i { w: 30, h: 20 },
        tick_interval: 671_089,
        agent_count: 5,
        evolution: true,
    }
}

fn same(first: &World, second: &World) -> bool {
    first.agents == second.agents
        && first.plant_grid.densities == second.plant_grid.densities
        && first.plant_grid.time_since_regenerate == second.plant_grid.time_since_regenerate
        && first.time == second.time
        && first.rng == second.rng
        && first.max_time_alive == second.max_time_alive
        && first.max_generation == second.max_generation
}

fn stepped(count: usize) -> World {
    let params = params();
    let mut world = World::new(&params);
    for _ in 0..count {
        world.tick(&params, params.tick_interval);
    }
    world
}

#[test]
fn new_controller_has_no_time_left() {
    assert_eq!(TimeController::new().time_left, 0);
}

#[test]
fn tick_runs_whole_intervals_and_keeps_the_rest() {
    let params = params();
    let mut world = World::new(&params);
    let mut controller = TimeController::new();
    controller.tick(&params, &mut world, 1_677_722);
    assert_eq!(world.time, 2 * 671_089);
    assert_eq!(controller.time_left, 335_544);
    assert!(same(&world, &stepped(2)));
    assert_eq!(world.agents[0].pos, Vec2f { x: 318_978_191, y: 295_458_917 });
}

#[test]
fn tick_builds_up_time_over_calls() {
    let params = params();
    let mut world = World::new(&params);
    let mut controller = TimeController::new();
    controller.tick(&params, &mut world, 400_000);
    assert_eq!(world.time, 0);
    assert_eq!(controller.time_left, 400_000);
    controller.tick(&params, &mut world, 271_089);
    assert_eq!(world.time, 0);
    assert_eq!(controller.time_left, 671_089);
    controller.tick(&params, &mut world, 1);
    assert_eq!(world.time, 671_089);
    assert_eq!(controller.time_left, 1);
    controller.tick(&params, &mut world, 0);
    assert_eq!(world.time, 671_089);
    assert!(same(&world, &stepped(1)));
}

#[test]
fn goto_a_later_time_steps_until_it_is_reached() {
    let params = params();
    let mut world = World::new(&params);
    let mut controller = TimeController::new();
    controller.goto(&params, &mut world, 5 * ONE);
    assert_eq!(world.time, 125 * 671_089);
    assert!(same(&world, &stepped(125)));
    assert_eq!(world.agents[0].pos, Vec2f { x: 465_060_683, y: 18_452_679 });
    controller.goto(&params, &mut world, 10 * ONE);
    assert_eq!(world.time, 250 * 671_089);
    assert!(same(&world, &stepped(250)));
    assert_eq!(world.agents[0].pos, Vec2f { x: 336_618_854, y: 208_884_825 });
    assert_eq!(controller.time_left, 0);
}

#[test]
fn goto_the_present_changes_nothing() {
    let params = params();
    let mut world = stepped(3);
    let before = stepped(3);
    let now = world.time;
    TimeController::new().goto(&params, &mut world, now);
    assert!(same(&world, &before));
}

#[test]
fn goto_the_past_replays_from_the_seed() {
    let params = params();
    let mut world = stepped(250);
    let mut controller = TimeController::new();
    controller.goto(&params, &mut world, 5 * ONE);
    assert_eq!(world.time, 125 * 671_089);
    assert_eq!(world.seed, 7);
    assert!(same(&world, &stepped(125)));
}

#[test]
fn goto_the_past_uses_the_seed_of_the_world() {
    let mut params = params();
    let mut world = World::new_seeded(&params, 42);
    world.tick(&params, params.tick_interval);
    params.seed = None;
    TimeController::new().goto(&params, &mut world, 0);
    assert_eq!(world.time, 0);
    assert_eq!(world.seed, 42);
    assert!(same(&world, &World::new_seeded(&params, 42)));
}

#[test]
fn goto_a_time_before_the_beginning_starts_anew() {
    let params = params();
    let mut world = stepped(3);
    TimeController::new().goto(&params, &mut world, -5 * ONE);
    assert_eq!(world.time, 0);
    assert!(same(&world, &stepped(0)));
}
