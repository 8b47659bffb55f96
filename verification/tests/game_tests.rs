//! The game controller: construction from level data and whole
//! simulation ticks, including a wall bounce resolved over two ticks.

use gembounce::ball::BALL_DEFAULT_SIZE;
use gembounce::game::GameController;
use gembounce::level::{GameLevel, GemInfo, MineInfo, WallInfo};
use gembounce::vec2::Vec2;

fn v(x: i64, y: i64) -> Vec2 {
    Vec2 { x, y }
}

#[test]
fn controller_builds_entities_from_descriptors() {
    let mut lvl = GameLevel::default();
    lvl.walls.push(WallInfo { pos: v(100, 100), dim: v(20, 20), texture_id: 0 });
    lvl.mines.push(MineInfo { pos: v(200, 50) });
    lvl.gems.push(GemInfo { pos: v(50, 120) });
    let game = GameController::new(lvl).unwrap();
    assert_eq!(game.ball.ball.pos, v(36_000, 36_000));
    assert_eq!(game.ball.ball.size, BALL_DEFAULT_SIZE);
    assert_eq!(game.walls.len(), 1);
    assert_eq!(game.walls.get(0).pos, v(100_000, 100_000));
    assert_eq!(game.mines.len(), 1);
    assert_eq!(game.gems.len(), 1);
    assert!(game.finish.is_none());
    assert_eq!(game.camera.position(), v(0, 0));
}

#[test]
fn idle_tick_leaves_a_resting_ball_in_place() {
    let game = GameController::new(GameLevel::default()).unwrap();
    let mut game = game;
    game.update(1_000);
    assert_eq!(game.ball.ball.pos, v(36_000, 36_000));
    assert_eq!(game.ball.ball.vel, v(0, 0));
    assert_eq!(game.ball.ball.size, BALL_DEFAULT_SIZE);
    assert_eq!(game.camera.position(), v(0, 0));
}

#[test]
fn wall_contact_is_batched_and_resolved_within_the_tick() {
    // A ball overlapping a wall's right face: the wall pass registers the
    // overlap with the accumulator, and the ball's own update at the end
    // of the same tick resolves it — position corrected by the averaged
    // overlap, velocity reflected off the horizontal normal and damped by
    // six thousandths.
    let mut lvl = GameLevel::default();
    lvl.walls.push(WallInfo { pos: v(10, 10), dim: v(20, 20), texture_id: 0 });
    // Ball center 10 units right of the wall's right face (at 30 units):
    // with radius 14 the penetration depth is 4.
    lvl.ball_pos = v(40, 20);
    let mut game = GameController::new(lvl).unwrap();
    game.ball.ball.vel = v(-2_000, 0);

    game.update(0);
    assert_eq!(game.ball.ball.pos, v(44_000, 20_000));
    assert_eq!(game.ball.ball.vel, v(1_988, 0));
    assert_eq!(game.ball.num_overlaps, 0);
    assert_eq!(game.ball.acc_overlaps, v(0, 0));
}

#[test]
fn border_contact_bounces_at_once() {
    let mut lvl = GameLevel::default();
    lvl.ball_pos = v(10, 50);
    let mut game = GameController::new(lvl).unwrap();
    game.ball.ball.vel = v(-1_000, 0);
    game.update(0);
    // Depth 4 units against the left border: corrected and flipped in the
    // same tick, without touching the accumulator.
    assert_eq!(game.ball.ball.pos, v(14_000, 50_000));
    assert_eq!(game.ball.ball.vel, v(1_000, 0));
    assert_eq!(game.ball.num_overlaps, 0);
}

#[test]
fn well_formed_levels_pass_the_runtime_checks() {
    let game = GameController::new(GameLevel::default()).unwrap();
    assert!(game.level.is_wf());
    assert!(game.within_tick_req());
}

#[test]
fn malformed_levels_fail_the_runtime_check() {
    let mut lvl = GameLevel::default();
    lvl.map.width = 0;
    assert!(!lvl.is_wf());
    let mut lvl = GameLevel::default();
    lvl.ball_pos = v(2_000_000, 0);
    assert!(!lvl.is_wf());
    let mut lvl = GameLevel::default();
    lvl.walls.push(WallInfo { pos: v(40_000, 0), dim: v(10, 10), texture_id: 0 });
    assert!(!lvl.is_wf());
}

#[test]
fn gem_pickup_through_a_whole_tick() {
    let mut lvl = GameLevel::default();
    lvl.gems.push(GemInfo { pos: v(40, 36) });
    let mut game = GameController::new(lvl).unwrap();
    game.update(0);
    assert!(game.gems.get(0).picked_up);
    assert_eq!(game.ball.items(), 1);
    // The next tick leaves the picked-up gem alone.
    game.update(0);
    assert_eq!(game.ball.items(), 1);
}
