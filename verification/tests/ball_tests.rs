//! Ball kinematics, the death gauge, and the per-tick controller:
//! thrust, decay, integration, and batched wall-contact resolution.

use gembounce::ball::{Ball, BallController, BALL_CAPACITY, BALL_DEFAULT_SIZE};
use gembounce::vec2::Vec2;

fn v(x: i64, y: i64) -> Vec2 {
    Vec2 { x, y }
}

fn controller_at(pos: Vec2, size: i64) -> BallController {
    BallController::new(Ball::new(pos, size)).unwrap()
}

#[test]
fn constants_match_the_design() {
    assert_eq!(BALL_CAPACITY, 34_000);
    assert_eq!(BALL_DEFAULT_SIZE, 28_000);
    assert_eq!(Ball::default_size(), 28_000);
    let b = Ball::with_default_size(v(1, 2));
    assert_eq!(b.size, 28_000);
    assert_eq!(b.vel, v(0, 0));
    assert_eq!(b.capacity(), 34_000);
}

#[test]
fn dead_exactly_below_four_units() {
    // Alive on [4, 36] units, dead below 4 and above 36.
    assert!(!Ball::new(v(0, 0), 4_000).is_dead());
    assert!(Ball::new(v(0, 0), 3_999).is_dead());
}

#[test]
fn dead_exactly_above_capacity_plus_buffer() {
    assert!(!Ball::new(v(0, 0), 36_000).is_dead());
    assert!(Ball::new(v(0, 0), 36_001).is_dead());
}

#[test]
fn add_size_saturates_at_zero() {
    let mut b = Ball::new(v(0, 0), 5_000);
    b.add_size(-7_000);
    assert_eq!(b.size, 0);
    b.add_size(2_500);
    assert_eq!(b.size, 2_500);
}

#[test]
fn maximize_size_restores_capacity() {
    let mut b = Ball::new(v(0, 0), 5_000);
    b.maximize_size();
    assert_eq!(b.size, 34_000);
}

#[test]
fn decay_velocity_removes_the_scaled_share() {
    let mut b = Ball::new(v(0, 0), 28_000);
    b.set_velocity(v(10_000, -10_000));
    b.decay_velocity(6);
    // 6 thousandths of 10000 is 60; the negative share floors to -60.
    assert_eq!(b.velocity(), v(9_940, -9_940));
}

#[test]
fn flips_negate_one_component() {
    let mut b = Ball::new(v(0, 0), 28_000);
    b.set_velocity(v(3, -2));
    b.flip_vx();
    assert_eq!(b.velocity(), v(-3, -2));
    b.flip_vy();
    assert_eq!(b.velocity(), v(-3, 2));
}

#[test]
fn update_position_advances_by_scaled_velocity() {
    let mut b = Ball::new(v(1_000, 2_000), 28_000);
    b.set_velocity(v(500, -500));
    b.update_position(2_000);
    // Two baseline ticks of 500 thousandths per tick on each axis.
    assert_eq!(b.position(), v(2_000, 1_000));
}

#[test]
fn thrust_tick_accelerates_integrates_and_spends_size() {
    let mut c = controller_at(v(10_000, 10_000), 28_000);
    c.set_thrust_right(true);
    c.update(1_000);
    // One baseline tick: impulse 60 thousandths, position follows,
    // and one held direction costs 12 thousandths of size.
    assert_eq!(c.velocity(), v(60, 0));
    assert_eq!(c.position(), v(10_060, 10_000));
    assert_eq!(c.size(), 27_988);
}

#[test]
fn opposite_thrusts_cancel_but_both_cost_size() {
    let mut c = controller_at(v(10_000, 10_000), 28_000);
    c.set_thrust_left(true);
    c.set_thrust_right(true);
    c.update(1_000);
    assert_eq!(c.velocity(), v(0, 0));
    assert_eq!(c.size(), 27_976);
}

#[test]
fn dead_ball_ignores_the_tick() {
    let mut c = controller_at(v(10_000, 10_000), 3_000);
    c.set_thrust_right(true);
    c.update(1_000);
    assert_eq!(c.velocity(), v(0, 0));
    assert_eq!(c.position(), v(10_000, 10_000));
    assert_eq!(c.size(), 3_000);
}

#[test]
fn issue_bounce_accumulates_for_the_next_tick() {
    let mut c = controller_at(v(10_000, 10_000), 28_000);
    c.issue_bounce(v(0, 5));
    c.issue_bounce(v(0, 7));
    assert_eq!(c.acc_overlaps, v(0, 12));
    assert_eq!(c.num_overlaps, 2);
}

#[test]
fn tick_resolves_accumulated_overlaps_with_an_averaged_bounce() {
    // A vertical overlap flips the vertical velocity; the averaged
    // overlap (0, 5) also corrects the position, and the post-bounce
    // damping of 6 thousandths floors to nothing on small speeds.
    let mut c = controller_at(v(10_000, 10_000), 28_000);
    c.set_velocity(v(3, -2));
    c.issue_bounce(v(0, 4));
    c.issue_bounce(v(0, 6));
    c.update(0);
    assert_eq!(c.velocity(), v(3, 2));
    assert_eq!(c.position(), v(10_000, 10_005));
    assert_eq!(c.num_overlaps, 0);
    assert_eq!(c.acc_overlaps, v(0, 0));
}

#[test]
fn speed_cap_damps_past_the_threshold() {
    // Squared speed 25,000,000 exceeds the cap of 22,000,000: damping of
    // 5 thousandths removes 25 of each 5000.
    let mut c = controller_at(v(100_000, 100_000), 28_000);
    c.set_velocity(v(3_000, 4_000));
    c.update(0);
    assert_eq!(c.velocity(), v(2_985, 3_980));
}

#[test]
fn damage_heal_and_pickup_reach_the_ball() {
    let mut c = controller_at(v(0, 0), 28_000);
    c.damage(2_500);
    assert_eq!(c.size(), 25_500);
    c.heal(1_000);
    assert_eq!(c.size(), 26_500);
    assert_eq!(c.items(), 0);
    c.pick_up(());
    assert_eq!(c.items(), 1);
}

#[test]
fn correct_and_flip_adjusts_one_axis() {
    let mut c = controller_at(v(10, 50), 28_000);
    c.set_velocity(v(-3, 2));
    c.correct_and_flip_x(4);
    assert_eq!(c.position(), v(14, 50));
    assert_eq!(c.velocity(), v(3, 2));
    c.correct_and_flip_y(-6);
    assert_eq!(c.position(), v(14, 44));
    assert_eq!(c.velocity(), v(3, -2));
}
