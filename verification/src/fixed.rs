//! Fixed-point quantities: the unit, signs and magnitudes, and the two roundings
//! that the controller relies on.

use vstd::prelude::*;

verus! {

/// How many steps make one: one world unit, one second, a scale of one.
pub const UNIT: i64 = 1_000_000;

/// -1, 0 or 1, as `x` is negative, zero or positive.
pub open spec fn sign(x: int) -> int {
    if x > 0 {
        1
    } else if x < 0 {
        -1
    } else {
        0
    }
}

/// The distance of `x` from zero.
pub open spec fn magnitude(x: int) -> int {
    if x < 0 {
        -x
    } else {
        x
    }
}

/// The value of `i64` nearest to `x`.
pub open spec fn saturate(x: int) -> int {
    if x < i64::MIN {
        i64::MIN as int
    } else if x > i64::MAX {
        i64::MAX as int
    } else {
        x
    }
}

/// The way covered in `dt` at `velocity`: their product in whole steps, the
/// fraction of a step dropped, so that the result is never farther from zero
/// than the exact product.
pub open spec fn spec_travel(velocity: int, dt: int) -> int {
    if velocity >= 0 {
        (velocity * dt) / (UNIT as int)
    } else {
        -(((-velocity) * dt) / (UNIT as int))
    }
}

/// In `dt` at `velocity` nothing travels farther than `dt` times the speed.
pub proof fn lemma_travel_bounded(velocity: int, dt: int)
    requires
        dt >= 0,
    ensures
        magnitude(spec_travel(velocity, dt)) <= magnitude(velocity) * dt,
{
    let speed = magnitude(velocity);
    let exact = speed * dt;
    assert(0 <= exact) by (nonlinear_arith)
        requires
            exact == speed * dt,
            speed >= 0,
            dt >= 0,
    ;
    assert(0 <= exact / (UNIT as int) <= exact);
    if velocity < 0 {
        assert(spec_travel(velocity, dt) == -(exact / (UNIT as int)));
    } else {
        assert(spec_travel(velocity, dt) == exact / (UNIT as int));
    }
}

/// Narrows `x` to `i64`, stopping at the ends of the range.
pub fn saturating(x: i128) -> (r: i64)
    ensures
        r == saturate(x as int),
{
    if x < i64::MIN as i128 {
        i64::MIN
    } else if x > i64::MAX as i128 {
        i64::MAX
    } else {
        x as i64
    }
}

/// The way covered in `dt` at `velocity`, rounded toward zero.
pub fn travel(velocity: i64, dt: u64) -> (way: i128)
    ensures
        way == spec_travel(velocity as int, dt as int),
{
    let speed: u128 = if velocity < 0 {
        (-(velocity as i128)) as u128
    } else {
        velocity as u128
    };
    assert(speed * dt <= 0x8000_0000_0000_0000 * 0xffff_ffff_ffff_ffff) by (nonlinear_arith)
        requires
            0 <= speed <= 0x8000_0000_0000_0000,
            0 <= dt <= 0xffff_ffff_ffff_ffff,
    ;
    let steps: u128 = speed * (dt as u128) / (UNIT as u128);
    if velocity < 0 {
        -(steps as i128)
    } else {
        steps as i128
    }
}

} // verus!
