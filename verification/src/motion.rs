//! The motion controller: how a camera's velocity and position change in one
//! tick, and what holds of every tick.

use vstd::prelude::*;
use crate::fixed::{
    lemma_travel_bounded,
    magnitude,
    saturate,
    saturating,
    sign,
    spec_travel,
    travel,
};

verus! {

/// Half the width of the band round the target inside which the camera rests: 0.2.
pub const DEAD_ZONE: i64 = 200_000;

/// The speed at which the camera chases a target outside the dead zone: 50 a second.
pub const TOP_SPEED: i64 = 50_000_000;

/// By how much the velocity may change in a second: 10 a second.
pub const ACCELERATION: i64 = 10_000_000;

/// The velocity the camera should have when the target is `to_move` away:
/// top speed toward it, or rest inside the dead zone.
pub open spec fn spec_target_velocity(to_move: int) -> int {
    if magnitude(to_move) > DEAD_ZONE {
        sign(to_move) * TOP_SPEED
    } else {
        0
    }
}

/// The largest change of velocity in a tick of `dt`.
pub open spec fn spec_acceleration_step(dt: int) -> int {
    spec_travel(ACCELERATION as int, dt)
}

/// `velocity` pushed by `step` toward `target_velocity`, and set to
/// `target_velocity` where the push leaves it faster than that.
pub open spec fn spec_step_velocity(target_velocity: int, velocity: int, step: int) -> int {
    let pushed = if target_velocity > velocity {
        velocity + step
    } else if target_velocity < velocity {
        velocity - step
    } else {
        velocity
    };
    if magnitude(target_velocity) < magnitude(pushed) {
        target_velocity
    } else {
        pushed
    }
}

/// The velocity after a tick of `dt`, for a camera at `position` with `velocity`
/// that steers toward `target`.
pub open spec fn next_velocity(target: int, position: int, velocity: int, dt: int) -> int {
    spec_step_velocity(
        spec_target_velocity(target - position),
        velocity,
        spec_acceleration_step(dt),
    )
}

/// The position after that tick, on an unbounded axis: the camera travels for
/// `dt` at its new velocity.
pub open spec fn next_position(target: int, position: int, velocity: int, dt: int) -> int {
    position + spec_travel(next_velocity(target, position, velocity, dt), dt)
}

/// Position and velocity after `ticks` ticks of `dt` each toward an unchanged
/// `target`, the position kept within `i64` after every tick.
pub open spec fn spec_run(target: int, position: int, velocity: int, dt: int, ticks: nat) -> (
    int,
    int,
)
    decreases ticks,
{
    if ticks == 0 {
        (position, velocity)
    } else {
        let (p, v) = spec_run(target, position, velocity, dt, (ticks - 1) as nat);
        (saturate(next_position(target, p, v, dt)), next_velocity(target, p, v, dt))
    }
}

/// At rest nothing travels, however long the tick.
pub proof fn lemma_rest_travels_nowhere(dt: int)
    ensures
        spec_travel(0, dt) == 0,
{
    assert(0 * dt == 0) by (nonlinear_arith);
}

/// A mirrored velocity travels the mirrored way.
pub proof fn lemma_travel_mirrored(velocity: int, dt: int)
    ensures
        spec_travel(-velocity, dt) == -spec_travel(velocity, dt),
{
    if velocity == 0 {
        lemma_rest_travels_nowhere(dt);
    }
}

/// After a tick the camera is never faster than the velocity it aimed for, so
/// never faster than top speed, whatever its velocity was before. Where the
/// tick did not set the velocity to the one aimed for, it changed it by the
/// tick's acceleration step at most.
pub proof fn lemma_speed_bounded(target: int, position: int, velocity: int, dt: int)
    requires
        dt >= 0,
    ensures
        magnitude(next_velocity(target, position, velocity, dt)) <= magnitude(
            spec_target_velocity(target - position),
        ),
        magnitude(next_velocity(target, position, velocity, dt)) <= TOP_SPEED,
        magnitude(next_velocity(target, position, velocity, dt)) <= vstd::math::max(
            magnitude(velocity),
            TOP_SPEED as int,
        ),
        next_velocity(target, position, velocity, dt) == spec_target_velocity(target - position)
            || magnitude(next_velocity(target, position, velocity, dt) - velocity)
            <= spec_acceleration_step(dt),
{
}

/// A tick of no duration moves nothing, and leaves the velocity as it was
/// unless the camera was faster than the velocity it aims for.
pub proof fn lemma_no_time_no_travel(target: int, position: int, velocity: int)
    ensures
        next_position(target, position, velocity, 0) == position,
        magnitude(velocity) <= magnitude(spec_target_velocity(target - position)) ==> next_velocity(
            target,
            position,
            velocity,
            0,
        ) == velocity,
{
    assert(next_velocity(target, position, velocity, 0) * 0 == 0) by (nonlinear_arith);
    assert((-next_velocity(target, position, velocity, 0)) * 0 == 0) by (nonlinear_arith);
}

/// Inside the dead zone one tick brings the camera to rest where it is,
/// whatever its velocity was.
pub proof fn lemma_dead_zone_rest(target: int, position: int, velocity: int, dt: int)
    requires
        magnitude(target - position) <= DEAD_ZONE,
    ensures
        next_velocity(target, position, velocity, dt) == 0,
        next_position(target, position, velocity, dt) == position,
{
    lemma_rest_travels_nowhere(dt);
}

/// Inside the dead zone the camera is at rest where it was after the first
/// tick and after every later one.
pub proof fn lemma_dead_zone_stays(target: i64, position: i64, velocity: i64, dt: u64, ticks: nat)
    requires
        magnitude(target - position) <= DEAD_ZONE,
        ticks >= 1,
    ensures
        spec_run(target as int, position as int, velocity as int, dt as int, ticks) == (
            position as int,
            0int,
        ),
    decreases ticks,
{
    if ticks == 1 {
        assert(spec_run(target as int, position as int, velocity as int, dt as int, 0) == (
            position as int,
            velocity as int,
        ));
        lemma_dead_zone_rest(target as int, position as int, velocity as int, dt as int);
    } else {
        lemma_dead_zone_stays(target, position, velocity, dt, (ticks - 1) as nat);
        lemma_dead_zone_rest(target as int, position as int, 0, dt as int);
    }
}

/// Mirroring target, position and velocity about the origin mirrors the tick:
/// the new velocity and the new position are the mirrored ones, and so is the
/// position kept within `i64` unless the unbounded one lies beyond `i64::MAX`
/// steps from the origin.
pub proof fn lemma_mirror(target: int, position: int, velocity: int, dt: int)
    ensures
        next_velocity(-target, -position, -velocity, dt) == -next_velocity(
            target,
            position,
            velocity,
            dt,
        ),
        next_position(-target, -position, -velocity, dt) == -next_position(
            target,
            position,
            velocity,
            dt,
        ),
        magnitude(next_position(target, position, velocity, dt)) <= i64::MAX ==> saturate(
            next_position(-target, -position, -velocity, dt),
        ) == -saturate(next_position(target, position, velocity, dt)),
{
    let wanted = spec_target_velocity(target - position);
    assert(spec_target_velocity((-target) - (-position)) == -wanted);
    let step = spec_acceleration_step(dt);
    assert(spec_step_velocity(-wanted, -velocity, step) == -spec_step_velocity(
        wanted,
        velocity,
        step,
    ));
    lemma_travel_mirrored(next_velocity(target, position, velocity, dt), dt);
}

/// The velocity to aim for from `position` toward `target`.
pub fn target_velocity(target: i64, position: i64) -> (wanted: i64)
    ensures
        wanted == spec_target_velocity(target - position),
{
    let to_move: i128 = target as i128 - position as i128;
    if to_move > DEAD_ZONE as i128 {
        TOP_SPEED
    } else if to_move < -(DEAD_ZONE as i128) {
        -TOP_SPEED
    } else {
        0
    }
}

/// The largest change of velocity in a tick of `dt`.
pub fn acceleration_step(dt: u64) -> (step: i128)
    ensures
        step == spec_acceleration_step(dt as int),
        step == 10 * dt,
{
    travel(ACCELERATION, dt)
}

/// One tick's change of velocity toward `target_velocity`.
pub fn step_velocity(target_velocity: i64, velocity: i64, dt: u64) -> (stepped: i64)
    ensures
        stepped == spec_step_velocity(
            target_velocity as int,
            velocity as int,
            spec_acceleration_step(dt as int),
        ),
{
    let step: i128 = acceleration_step(dt);
    let pushed: i128 = if target_velocity > velocity {
        velocity as i128 + step
    } else if target_velocity < velocity {
        velocity as i128 - step
    } else {
        velocity as i128
    };
    let limit: i128 = if target_velocity < 0 {
        -(target_velocity as i128)
    } else {
        target_velocity as i128
    };
    if pushed > limit || pushed < -limit {
        target_velocity
    } else {
        pushed as i64
    }
}

/// What a camera remembers between ticks.
#[derive(Clone, Copy, Debug, PartialEq, Eq, Structural)]
pub struct CameraBehavior {
    /// Where the camera is steering to.
    pub target: i64,
    /// How fast it is moving, a second; negative to the left.
    pub velocity: i64,
}

impl CameraBehavior {
    /// A camera at rest that steers toward the origin.
    pub fn new() -> (fresh: CameraBehavior)
        ensures
            fresh == (CameraBehavior { target: 0, velocity: 0 }),
    {
        CameraBehavior { target: 0, velocity: 0 }
    }

    /// Advances the camera at `position` by one tick of `dt` and returns its new
    /// position. A position beyond the range of `i64` stops at the range's end.
    pub fn advance(&mut self, position: i64, dt: u64) -> (moved: i64)
        ensures
            final(self).target == old(self).target,
            final(self).velocity == next_velocity(
                old(self).target as int,
                position as int,
                old(self).velocity as int,
                dt as int,
            ),
            moved == saturate(
                next_position(
                    old(self).target as int,
                    position as int,
                    old(self).velocity as int,
                    dt as int,
                ),
            ),
    {
        let wanted: i64 = target_velocity(self.target, position);
        let velocity: i64 = step_velocity(wanted, self.velocity, dt);
        self.velocity = velocity;
        let way: i128 = travel(velocity, dt);
        proof {
            lemma_travel_bounded(velocity as int, dt as int);
            assert(magnitude(velocity as int) * dt <= TOP_SPEED * 0xffff_ffff_ffff_ffff)
                by (nonlinear_arith)
                requires
                    0 <= magnitude(velocity as int) <= TOP_SPEED,
                    0 <= dt <= 0xffff_ffff_ffff_ffff,
            ;
        }
        saturating(position as i128 + way)
    }
}

} // verus!
