//! The time controller: steps a world at a fixed interval, whatever the
//! time that the caller lets pass, and travels to a given time.

use vstd::prelude::*;
use vstd::arithmetic::div_mod::lemma_fundamental_div_mod_converse;
use crate::fixed::Fixed;
use crate::params::Params;
use crate::world::MAX_TIME;
use crate::world::World;
use crate::world::WorldView;

verus! {

/// Handles calling `World::tick` the right number of times. Also provides
/// time travel.
#[derive(Clone, Copy, Debug)]
pub struct TimeController {
    /// The time that has passed and has not been run yet.
    pub time_left: Fixed,
}

/// The number of steps of `interval` that fall due when `debt` has built
/// up: a step is due as long as more than one interval is left.
pub open spec fn steps_due(debt: int, interval: int) -> nat {
    if debt <= 0 {
        0
    } else {
        ((debt - 1) / interval) as nat
    }
}

/// The number of steps of `interval` that it takes from `from` to reach or
/// pass `to`.
pub open spec fn steps_to(from: int, to: int, interval: int) -> nat {
    if to <= from {
        0
    } else {
        ((to - from - 1) / interval + 1) as nat
    }
}

/// The world from which a journey to `new_time` sets out: the world as it
/// is, or, where that time is in its past, the world as it began.
pub open spec fn departure(world: World, params: Params, new_time: int) -> WorldView {
    if new_time < world.time {
        WorldView::spec_new_seeded(params, world.seed)
    } else {
        world@
    }
}

/// `count` whole intervals taken off `debt`, the last of which left more
/// than nothing, are the steps due.
pub proof fn lemma_steps_due(debt: int, interval: int, count: nat, left: int)
    requires
        interval > 0,
        left == debt - count * interval,
        left <= interval,
        left > 0 || count == 0,
    ensures
        count == steps_due(debt, interval),
{
    if debt > 0 {
        if count == 0 {
            lemma_fundamental_div_mod_converse(debt - 1, interval, 0, debt - 1);
        } else {
            lemma_fundamental_div_mod_converse(debt - 1, interval, count as int, left - 1);
        }
    } else if count >= 1 {
        assert(count * interval >= interval) by (nonlinear_arith)
            requires
                count >= 1,
                interval > 0,
        ;
    }
}

/// `count` steps, the last of which set out before `to` and the whole of
/// which reach it, are the steps that it takes.
pub proof fn lemma_steps_to(from: int, to: int, interval: int, count: nat)
    requires
        interval > 0,
        from + count * interval >= to,
        count == 0 || from + (count - 1) * interval < to,
    ensures
        count == steps_to(from, to, interval),
{
    if count == 0 {
        assert(count * interval == 0) by (nonlinear_arith)
            requires
                count == 0,
        ;
    } else {
        let gap = to - from;
        assert(count * interval == (count - 1) * interval + interval) by (nonlinear_arith);
        assert((count - 1) * interval >= 0) by (nonlinear_arith)
            requires
                count >= 1,
                interval > 0,
        ;
        lemma_fundamental_div_mod_converse(
            gap - 1,
            interval,
            count - 1,
            gap - 1 - (count - 1) * interval,
        );
    }
}

impl TimeController {
    /// A controller with no time left to run.
    pub fn new() -> (controller: TimeController)
        ensures
            controller.time_left == 0,
    {
        TimeController { time_left: 0 }
    }

    /// Runs the world for the specified amount of time: adds it to the
    /// time left, and steps the world by `params.tick_interval` as long as
    /// more than one interval is left.
    pub fn tick(&mut self, params: &Params, world: &mut World, d_time: Fixed)
        requires
            params.tick_interval > 0,
            d_time >= 0,
            old(world).wf(),
            old(world).time + old(self).time_left + d_time <= MAX_TIME,
        ensures
            final(world)@ == old(world)@.spec_run(
                *params,
                params.tick_interval as int,
                steps_due(old(self).time_left + d_time, params.tick_interval as int),
            ),
            final(world).wf(),
            final(self).time_left == old(self).time_left + d_time - steps_due(
                old(self).time_left + d_time,
                params.tick_interval as int,
            ) * params.tick_interval,
            final(self).time_left <= params.tick_interval,
    {
        let ghost start = world@;
        let interval: i64 = params.tick_interval;
        let debt: i128 = self.time_left as i128 + d_time as i128;
        let mut left: i128 = debt;
        let ghost mut count: nat = 0;
        proof {
            assert(count * interval == 0) by (nonlinear_arith)
                requires
                    count == 0,
            ;
        }
        while left > interval as i128
            invariant
                interval == params.tick_interval,
                interval > 0,
                world.wf(),
                start.time + debt <= MAX_TIME,
                left == debt - count * interval,
                left > 0 || count == 0,
                i64::MIN <= left,
                world@ == start.spec_run(*params, interval as int, count),
                world.time == start.time + count * interval,
            decreases left,
        {
            proof {
                assert((count + 1) * interval == count * interval + interval) by (nonlinear_arith);
            }
            world.tick(params, interval);
            left = left - interval as i128;
            proof {
                count = count + 1;
            }
        }
        proof {
            lemma_steps_due(debt as int, interval as int, count, left as int);
        }
        self.time_left = left as i64;
    }

    /// Steps the world by `params.tick_interval` until it has reached
    /// `new_time`.
    fn run_until(params: &Params, world: &mut World, new_time: Fixed)
        requires
            params.tick_interval > 0,
            old(world).wf(),
            new_time + params.tick_interval <= MAX_TIME,
        ensures
            final(world)@ == old(world)@.spec_run(
                *params,
                params.tick_interval as int,
                steps_to(old(world).time as int, new_time as int, params.tick_interval as int),
            ),
            final(world).wf(),
            new_time <= final(world).time,
            final(world).time < new_time + params.tick_interval
                || final(world).time == old(world).time,
    {
        let ghost start = world@;
        let interval: i64 = params.tick_interval;
        let ghost mut count: nat = 0;
        proof {
            assert(count * interval == 0) by (nonlinear_arith)
                requires
                    count == 0,
            ;
        }
        while world.time < new_time
            invariant
                interval == params.tick_interval,
                interval > 0,
                world.wf(),
                new_time + interval <= MAX_TIME,
                world@ == start.spec_run(*params, interval as int, count),
                world.time == start.time + count * interval,
                count == 0 || world.time - interval < new_time,
            decreases new_time + interval - world.time,
        {
            proof {
                assert((count + 1) * interval == count * interval + interval) by (nonlinear_arith);
            }
            world.tick(params, interval);
            proof {
                count = count + 1;
            }
        }
        proof {
            if count > 0 {
                assert(count * interval == (count - 1) * interval + interval) by (nonlinear_arith);
            }
            lemma_steps_to(start.time, new_time as int, interval as int, count);
        }
    }

    /// Travels to the specified time. Where the time is in the past of the
    /// world, the world is made anew from its seed. Then the world is
    /// stepped by `params.tick_interval` until it has reached the time.
    pub fn goto(&mut self, params: &Params, world: &mut World, new_time: Fixed)
        requires
            params.tick_interval > 0,
            params.plant_grid_size.w > 0,
            params.plant_grid_size.h > 0,
            params.plant_grid_size.w * params.plant_grid_size.h <= usize::MAX,
            old(world).wf(),
            new_time + params.tick_interval <= MAX_TIME,
        ensures
            final(world)@ == departure(*old(world), *params, new_time as int).spec_run(
                *params,
                params.tick_interval as int,
                steps_to(
                    departure(*old(world), *params, new_time as int).time,
                    new_time as int,
                    params.tick_interval as int,
                ),
            ),
            final(world).wf(),
            new_time <= final(world).time,
            final(world).time < new_time + params.tick_interval || final(world).time == departure(
                *old(world),
                *params,
                new_time as int,
            ).time,
            final(self).time_left == old(self).time_left,
    {
        if new_time < world.time {
            *world = World::new_seeded(params, world.seed);
        }
        TimeController::run_until(params, world, new_time);
    }
}

} // verus!
