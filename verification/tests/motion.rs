use pogo_hurdling::fixed::{saturating, travel, UNIT};
use pogo_hurdling::motion::{
    acceleration_step, step_velocity, target_velocity, CameraBehavior, ACCELERATION, DEAD_ZONE,
    TOP_SPEED,
};

fn fixed(x: f64) -> i64 {
    (x * 1e6).round() as i64
}

#[test]
fn constants_are_the_documented_quantities() {
    assert_eq!(UNIT, fixed(1.0));
    assert_eq!(DEAD_ZONE, fixed(0.2));
    assert_eq!(TOP_SPEED, fixed(50.0));
    assert_eq!(ACCELERATION, fixed(10.0));
}

#[test]
fn new_behavior_rests_at_the_origin() {
    let fresh = CameraBehavior::new();
    assert_eq!(fresh, CameraBehavior { target: 0, velocity: 0 });
}

#[test]
fn first_tick_toward_a_distant_target() {
    let dt: u64 = 100_000;
    assert_eq!(target_velocity(fixed(100.0), 0), fixed(50.0));
    assert_eq!(acceleration_step(dt), 1_000_000);
    let mut behavior = CameraBehavior { target: fixed(100.0), velocity: 0 };
    let position: i64 = behavior.advance(0, dt);
    assert_eq!(behavior.velocity, fixed(1.0));
    assert_eq!(position, fixed(0.1));
    assert_eq!(behavior.target, fixed(100.0));
}

#[test]
fn ten_ticks_add_up_to_an_arithmetic_progression() {
    let mut behavior = CameraBehavior { target: fixed(100.0), velocity: 0 };
    let mut position: i64 = 0;
    for _ in 0..10 {
        position = behavior.advance(position, 100_000);
    }
    assert_eq!(behavior.velocity, fixed(10.0));
    assert_eq!(position, fixed(5.5));
}

#[test]
fn top_speed_is_reached_and_then_held() {
    let mut behavior = CameraBehavior { target: fixed(1000.0), velocity: 0 };
    let mut position: i64 = 0;
    for tick in 1..=50i64 {
        position = behavior.advance(position, 100_000);
        assert_eq!(behavior.velocity, tick * fixed(1.0));
    }
    assert_eq!(behavior.velocity, fixed(50.0));
    assert_eq!(position, fixed(127.5));
    for tick in 1..=20i64 {
        let moved: i64 = behavior.advance(position, 100_000);
        assert_eq!(behavior.velocity, fixed(50.0));
        assert_eq!(moved - position, fixed(5.0));
        assert_eq!(moved, fixed(127.5) + tick * fixed(5.0));
        position = moved;
    }
}

#[test]
fn the_camera_stops_at_once_when_it_enters_the_dead_zone() {
    let mut behavior = CameraBehavior { target: fixed(10.0), velocity: fixed(50.0) };
    let position: i64 = behavior.advance(fixed(9.5), 10_000);
    assert_eq!(behavior.velocity, fixed(50.0));
    assert_eq!(position, fixed(10.0));
    let position: i64 = behavior.advance(position, 10_000);
    assert_eq!(behavior.velocity, 0);
    assert_eq!(position, fixed(10.0));
}

#[test]
fn inside_the_dead_zone_a_small_velocity_snaps_to_zero() {
    for dt in [0u64, 1, 16_667, 100_000, 1_000_000, u64::MAX] {
        for velocity in [fixed(0.5), fixed(-0.5), 1, -1, fixed(3.0)] {
            let mut behavior = CameraBehavior { target: 0, velocity };
            let position: i64 = behavior.advance(fixed(0.1), dt);
            assert_eq!(target_velocity(0, fixed(0.1)), 0);
            assert_eq!(behavior.velocity, 0);
            assert_eq!(position, fixed(0.1));
        }
        let mut resting = CameraBehavior { target: 0, velocity: 0 };
        let position: i64 = resting.advance(fixed(0.1), dt);
        assert_eq!(resting.velocity, 0);
        assert_eq!(position, fixed(0.1));
    }
}

#[test]
fn repeated_ticks_inside_the_dead_zone_change_nothing_more() {
    let mut behavior = CameraBehavior { target: fixed(7.0), velocity: fixed(-42.0) };
    let mut position: i64 = fixed(7.2);
    for _ in 0..100 {
        position = behavior.advance(position, 16_667);
        assert_eq!(behavior.velocity, 0);
        assert_eq!(position, fixed(7.2));
        assert_eq!(behavior.target, fixed(7.0));
    }
}

#[test]
fn the_dead_zone_ends_just_past_a_fifth_of_a_unit() {
    assert_eq!(target_velocity(fixed(0.2), 0), 0);
    assert_eq!(target_velocity(fixed(-0.2), 0), 0);
    assert_eq!(target_velocity(fixed(0.2) + 1, 0), fixed(50.0));
    assert_eq!(target_velocity(fixed(-0.2) - 1, 0), fixed(-50.0));
    assert_eq!(target_velocity(0, 0), 0);
    assert_eq!(target_velocity(5, fixed(0.2) + 6), fixed(-50.0));
}

#[test]
fn target_velocity_takes_the_whole_range() {
    assert_eq!(target_velocity(i64::MAX, i64::MIN), TOP_SPEED);
    assert_eq!(target_velocity(i64::MIN, i64::MAX), -TOP_SPEED);
    assert_eq!(target_velocity(i64::MIN, i64::MIN), 0);
}

#[test]
fn the_acceleration_step_is_ten_a_second() {
    assert_eq!(acceleration_step(0), 0);
    assert_eq!(acceleration_step(1), 10);
    assert_eq!(acceleration_step(16_667), 166_670);
    assert_eq!(acceleration_step(1_000_000), 10_000_000);
    assert_eq!(acceleration_step(u64::MAX), 10 * (u64::MAX as i128));
}

#[test]
fn velocity_steps_toward_the_target_velocity() {
    let dt: u64 = 100_000;
    assert_eq!(step_velocity(fixed(50.0), 0, dt), fixed(1.0));
    assert_eq!(step_velocity(fixed(-50.0), 0, dt), fixed(-1.0));
    assert_eq!(step_velocity(fixed(50.0), fixed(-30.0), dt), fixed(-29.0));
    assert_eq!(step_velocity(fixed(-50.0), fixed(30.0), dt), fixed(29.0));
    assert_eq!(step_velocity(fixed(50.0), fixed(50.0), dt), fixed(50.0));
    assert_eq!(step_velocity(0, 0, dt), 0);
}

#[test]
fn a_step_past_the_target_velocity_lands_on_it() {
    let dt: u64 = 100_000;
    assert_eq!(step_velocity(fixed(50.0), fixed(49.5), dt), fixed(50.0));
    assert_eq!(step_velocity(fixed(50.0), fixed(49.0), dt), fixed(50.0));
    assert_eq!(step_velocity(fixed(50.0), fixed(60.0), dt), fixed(50.0));
    assert_eq!(step_velocity(fixed(50.0), fixed(-80.0), dt), fixed(50.0));
    assert_eq!(step_velocity(fixed(-50.0), fixed(80.0), dt), fixed(-50.0));
    assert_eq!(step_velocity(0, fixed(0.5), dt), 0);
    assert_eq!(step_velocity(0, fixed(-20.0), dt), 0);
    assert_eq!(step_velocity(fixed(50.0), 0, u64::MAX), fixed(50.0));
    assert_eq!(step_velocity(fixed(-50.0), i64::MAX, u64::MAX), fixed(-50.0));
    assert_eq!(step_velocity(fixed(50.0), i64::MIN, 0), fixed(50.0));
}

#[test]
fn speed_never_exceeds_top_speed_after_a_tick() {
    let velocities = [0i64, 1, -1, fixed(49.9), fixed(-49.9), fixed(80.0), fixed(-80.0), i64::MAX, i64::MIN];
    let offsets = [0i64, fixed(0.2), fixed(-0.2), fixed(0.3), fixed(-0.3), fixed(500.0), fixed(-500.0)];
    let ticks = [0u64, 1, 16_667, 100_000, 10_000_000, u64::MAX];
    for velocity in velocities {
        for offset in offsets {
            for dt in ticks {
                let mut behavior = CameraBehavior { target: offset, velocity };
                let _ = behavior.advance(0, dt);
                assert!(behavior.velocity.unsigned_abs() <= TOP_SPEED as u64);
                assert!(behavior.velocity.unsigned_abs() <= velocity.unsigned_abs().max(TOP_SPEED as u64));
                assert_eq!(behavior.target, offset);
            }
        }
    }
}

#[test]
fn mirrored_starts_give_mirrored_ticks() {
    for velocity in [0i64, fixed(3.0), fixed(-3.0), fixed(70.0), 1_234_567] {
        for dt in [0u64, 1, 16_667, 100_000, 333_333] {
            let mut right = CameraBehavior { target: fixed(5.0), velocity };
            let mut left = CameraBehavior { target: fixed(-5.0), velocity: -velocity };
            let moved_right: i64 = right.advance(0, dt);
            let moved_left: i64 = left.advance(0, dt);
            assert_eq!(left.velocity, -right.velocity);
            assert_eq!(moved_left, -moved_right);
        }
    }
    let mut right = CameraBehavior { target: fixed(12.0), velocity: fixed(2.0) };
    let mut left = CameraBehavior { target: fixed(-12.0), velocity: fixed(-2.0) };
    let mut at_right: i64 = fixed(7.0);
    let mut at_left: i64 = fixed(-7.0);
    for _ in 0..200 {
        at_right = right.advance(at_right, 16_667);
        at_left = left.advance(at_left, 16_667);
        assert_eq!(at_left, -at_right);
        assert_eq!(left.velocity, -right.velocity);
    }
}

#[test]
fn a_tick_of_no_duration_moves_nothing() {
    let mut behavior = CameraBehavior { target: fixed(100.0), velocity: fixed(20.0) };
    let position: i64 = behavior.advance(fixed(3.0), 0);
    assert_eq!(position, fixed(3.0));
    assert_eq!(behavior, CameraBehavior { target: fixed(100.0), velocity: fixed(20.0) });
}

#[test]
fn travel_drops_the_fraction_of_a_step() {
    assert_eq!(travel(fixed(1.0), 100_000), 100_000);
    assert_eq!(travel(fixed(50.0), 16_667), 833_350);
    assert_eq!(travel(166_670, 16_667), 2_777);
    assert_eq!(travel(-166_670, 16_667), -2_777);
    assert_eq!(travel(3, 500_000), 1);
    assert_eq!(travel(-3, 500_000), -1);
    assert_eq!(travel(1, 999_999), 0);
    assert_eq!(travel(-1, 999_999), 0);
    assert_eq!(travel(0, u64::MAX), 0);
    assert_eq!(travel(12345, 0), 0);
}

#[test]
fn travel_takes_the_whole_range() {
    let farthest: i128 = (1i128 << 63) * (u64::MAX as i128) / 1_000_000;
    assert_eq!(travel(i64::MIN, u64::MAX), -farthest);
    assert_eq!(travel(i64::MAX, u64::MAX), (i64::MAX as i128) * (u64::MAX as i128) / 1_000_000);
}

#[test]
fn saturating_stops_at_the_ends_of_the_range() {
    assert_eq!(saturating(0), 0);
    assert_eq!(saturating(-17), -17);
    assert_eq!(saturating(i64::MAX as i128), i64::MAX);
    assert_eq!(saturating(i64::MAX as i128 + 1), i64::MAX);
    assert_eq!(saturating(i64::MIN as i128), i64::MIN);
    assert_eq!(saturating(i64::MIN as i128 - 1), i64::MIN);
    assert_eq!(saturating(i128::MAX), i64::MAX);
    assert_eq!(saturating(i128::MIN), i64::MIN);
}

#[test]
fn a_position_past_the_range_stops_at_its_end() {
    let mut behavior = CameraBehavior { target: i64::MAX, velocity: fixed(50.0) };
    let position: i64 = behavior.advance(i64::MAX - fixed(1.0), 1_000_000);
    assert_eq!(behavior.velocity, fixed(50.0));
    assert_eq!(position, i64::MAX);

    let mut behavior = CameraBehavior { target: i64::MIN, velocity: fixed(-50.0) };
    let position: i64 = behavior.advance(i64::MIN + fixed(1.0), 1_000_000);
    assert_eq!(behavior.velocity, fixed(-50.0));
    assert_eq!(position, i64::MIN);

    let mut behavior = CameraBehavior { target: i64::MAX, velocity: 0 };
    let position: i64 = behavior.advance(i64::MIN, u64::MAX);
    assert_eq!(behavior.velocity, fixed(50.0));
    assert_eq!(position, saturating(i64::MIN as i128 + 50 * (u64::MAX as i128)));
}
