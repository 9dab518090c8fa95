//! Game state and the bookkeeping of the fixed-rate physics loop.

use vstd::prelude::*;

verus! {

/// The phase the program is in.
#[derive(PartialEq, Eq, Structural, Clone, Copy)]
pub enum ProgramState {
    Init,
    Menu,
    Loading,
    InGame,
}

/// Counts physics updates to report how many ran in the last second.
pub struct PhysicsUpdateRate {
    pub updates_per_second: u32,
    pub updates: u32,
}

impl PhysicsUpdateRate {
    /// No update counted yet.
    pub fn new() -> (r: PhysicsUpdateRate)
        ensures
            r.updates_per_second == 0,
            r.updates == 0,
    {
        PhysicsUpdateRate { updates_per_second: 0, updates: 0 }
    }

    /// Records one physics update, `elapsed_ms` after the current second began.
    /// Once more than a second has passed, the count of the second becomes the
    /// rate and counting starts over; the result tells the caller to start a new
    /// second.
    pub fn count_update(&mut self, elapsed_ms: u128) -> (new_second: bool)
        requires
            elapsed_ms > 1000 || old(self).updates < u32::MAX,
        ensures
            new_second == (elapsed_ms > 1000),
            new_second ==> final(self).updates_per_second == old(self).updates && final(self).updates == 0,
            !new_second ==> final(self).updates_per_second == old(self).updates_per_second
                && final(self).updates == old(self).updates + 1,
    {
        if elapsed_ms > 1000 {
            self.updates_per_second = self.updates;
            self.updates = 0;
            true
        } else {
            self.updates = self.updates + 1;
            false
        }
    }
}

/// The fixed-rate physics schedule. With `elapsed` time since the last physics step
/// and steps of length `step`: the number of steps to run now and the time left
/// over after them. Steps run only in game, one for each step length while more
/// than one step length is left.
pub open spec fn physics_schedule(in_game: bool, elapsed: int, step: int) -> (int, int)
    decreases elapsed,
{
    if !in_game || step <= 0 || elapsed <= step {
        (0, elapsed)
    } else {
        let rest = physics_schedule(in_game, elapsed - step, step);
        (rest.0 + 1, rest.1)
    }
}

/// Law: the physics schedule accounts for all the elapsed time: the steps run and
/// the time left over add up to it, and what is left over is at most one step
/// long, and not nothing when time has passed; out of game nothing runs.
pub proof fn law_physics_schedule(in_game: bool, elapsed: int, step: int)
    requires
        step > 0,
        elapsed >= 0,
    ensures
        ({
            let r = physics_schedule(in_game, elapsed, step);
            &&& r.0 >= 0
            &&& r.0 * step + r.1 == elapsed
            &&& !in_game ==> r == (0int, elapsed)
            &&& in_game ==> 0 <= r.1 <= step
            &&& in_game && elapsed > 0 ==> r.1 > 0
        }),
    decreases elapsed,
{
    if in_game && elapsed > step {
        law_physics_schedule(in_game, elapsed - step, step);
        let rest = physics_schedule(in_game, elapsed - step, step);
        assert((rest.0 + 1) * step == rest.0 * step + step) by (nonlinear_arith);
    }
}

/// How many physics steps of `step_ns` nanoseconds to run, `elapsed_ns` after the
/// last one, and the time left over after them: physics runs at a fixed rate, and
/// only in game.
pub fn physics_steps(in_game: bool, elapsed_ns: u128, step_ns: u128) -> (r: (u128, u128))
    requires
        step_ns > 0,
    ensures
        (r.0 as int, r.1 as int) == physics_schedule(in_game, elapsed_ns as int, step_ns as int),
        r.0 * step_ns + r.1 == elapsed_ns,
        !in_game ==> r == (0u128, elapsed_ns),
        in_game ==> r.1 <= step_ns,
        in_game && elapsed_ns > 0 ==> r.1 > 0,
{
    let mut steps: u128 = 0;
    let mut rest: u128 = elapsed_ns;
    if in_game {
        while rest > step_ns
            invariant
                step_ns > 0,
                steps + rest <= elapsed_ns,
                physics_schedule(true, elapsed_ns as int, step_ns as int) == (
                    steps + physics_schedule(true, rest as int, step_ns as int).0,
                    physics_schedule(true, rest as int, step_ns as int).1,
                ),
            decreases rest,
        {
            rest = rest - step_ns;
            steps = steps + 1;
        }
    }
    proof {
        law_physics_schedule(in_game, elapsed_ns as int, step_ns as int);
    }
    (steps, rest)
}

} // verus!
