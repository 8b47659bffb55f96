//! Simple collidables: pump cooldown healing, repeated mine damage,
//! one-shot gems, and the finish flag's gem requirement.

use gembounce::ball::{Ball, BallController};
use gembounce::entities::{Finish, Gem, Mine, Pump, TWO_PI_URAD};
use gembounce::level::{FinishInfo, GemInfo, MineInfo, PumpInfo};
use gembounce::physics::SimpleCollidable;
use gembounce::vec2::Vec2;

fn v(x: i64, y: i64) -> Vec2 {
    Vec2 { x, y }
}

fn ball_at_origin() -> BallController {
    BallController::new(Ball::new(v(0, 0), 28_000)).unwrap()
}

#[test]
fn pump_heals_once_then_cools_down() {
    let mut pump = Pump::new(PumpInfo { pos: v(0, 0) });
    let mut ball = ball_at_origin();
    assert!(pump.test_circle_collision_simple(ball.position(), 14_000));
    pump.on_collision_simple(&mut ball);
    assert_eq!(ball.size(), 29_000);
    assert_eq!(pump.time_to_pump, 22_000);
    // While the cooldown runs, further contact has no effect.
    pump.on_collision_simple(&mut ball);
    assert_eq!(ball.size(), 29_000);
    assert_eq!(pump.time_to_pump, 22_000);
}

#[test]
fn pump_update_runs_cooldown_and_wraps_rotation() {
    let mut pump = Pump::new(PumpInfo { pos: v(0, 0) });
    pump.time_to_pump = 22_000;
    pump.update(1_000);
    assert_eq!(pump.time_to_pump, 21_000);
    assert_eq!(pump.rot, 25_000);
    pump.rot = TWO_PI_URAD - 10_000;
    pump.update(1_000);
    assert_eq!(pump.rot, 15_000);
}

#[test]
fn pump_rearm_resets_a_lapsed_cooldown_to_22_ticks() {
    // A cooldown that has run below zero still rearms to exactly 22
    // ticks, not less.
    let mut pump = Pump::new(PumpInfo { pos: v(0, 0) });
    pump.time_to_pump = -5_000;
    let mut ball = ball_at_origin();
    pump.on_collision_simple(&mut ball);
    assert_eq!(pump.time_to_pump, 22_000);
    assert_eq!(ball.size(), 29_000);
}

#[test]
fn pump_contact_radius_is_tightened_by_two_units() {
    let pump = Pump::new(PumpInfo { pos: v(0, 0) });
    // Effective distance is 17 + 14 - 2 = 29 units.
    assert!(pump.test_circle_collision_simple(v(29_000, 0), 14_000));
    assert!(!pump.test_circle_collision_simple(v(29_001, 0), 14_000));
}

#[test]
fn mine_damages_on_every_contact() {
    let mut mine = Mine::new(MineInfo { pos: v(0, 0) });
    let mut ball = ball_at_origin();
    mine.on_collision_simple(&mut ball);
    assert_eq!(ball.size(), 25_500);
    // No cooldown and no consumption: prolonged overlap keeps draining.
    mine.on_collision_simple(&mut ball);
    assert_eq!(ball.size(), 23_000);
    assert!(mine.test_circle_collision_simple(ball.position(), 14_000));
}

#[test]
fn mine_contact_radius_is_widened_by_one_unit() {
    let mine = Mine::new(MineInfo { pos: v(0, 0) });
    // Effective distance is 3 + 14 + 1 = 18 units.
    assert!(mine.test_circle_collision_simple(v(18_000, 0), 14_000));
    assert!(!mine.test_circle_collision_simple(v(18_001, 0), 14_000));
}

#[test]
fn gem_is_a_one_shot_pickup() {
    let mut gem = Gem::new(GemInfo { pos: v(0, 0) });
    let mut ball = ball_at_origin();
    assert!(gem.test_circle_collision_simple(ball.position(), 14_000));
    gem.on_collision_simple(&mut ball);
    assert!(gem.picked_up);
    assert_eq!(ball.items(), 1);
    // A picked-up gem reports no contact and a second effect changes
    // nothing: neither the counter nor the ball moves again.
    assert!(!gem.test_circle_collision_simple(ball.position(), 14_000));
    let before = ball;
    gem.on_collision_simple(&mut ball);
    assert!(gem.picked_up);
    assert_eq!(ball.items(), 1);
    assert_eq!(ball, before);
}

#[test]
fn finish_requires_the_exact_gem_count() {
    let mut finish = Finish::new(FinishInfo { pos: v(0, 0), gems_required: 2 });
    let mut ball = ball_at_origin();
    ball.pick_up(());
    // One gem of two: contact leaves the flag untouched.
    finish.on_collision_simple(&mut ball);
    assert!(!finish.is_picked_up());
    // With the second gem collected, the next contact completes it.
    ball.pick_up(());
    finish.on_collision_simple(&mut ball);
    assert!(finish.is_picked_up());
    // And a completed flag never re-runs its effect.
    let before = ball;
    finish.on_collision_simple(&mut ball);
    assert!(finish.is_picked_up());
    assert_eq!(ball, before);
    assert!(!finish.test_circle_collision_simple(ball.position(), 14_000));
}

#[test]
fn finish_ignores_an_overshoot_of_gems() {
    let mut finish = Finish::new(FinishInfo { pos: v(0, 0), gems_required: 1 });
    let mut ball = ball_at_origin();
    ball.pick_up(());
    ball.pick_up(());
    finish.on_collision_simple(&mut ball);
    assert!(!finish.is_picked_up());
}
