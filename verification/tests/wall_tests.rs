//! Circle-versus-rectangle wall collision, including the degenerate
//! center-on-rectangle case and the point probe.

use gembounce::level::WallInfo;
use gembounce::physics::{Collidable, CollisionInfo};
use gembounce::vec2::Vec2;
use gembounce::wall::Wall;

fn v(x: i64, y: i64) -> Vec2 {
    Vec2 { x, y }
}

fn sample_wall() -> Wall {
    // A 20-by-20-unit wall with its top-left corner at (10, 10).
    Wall::new(WallInfo { pos: v(10, 10), dim: v(20, 20), texture_id: 0 })
}

#[test]
fn wall_new_scales_units_to_thousandths() {
    let w = sample_wall();
    assert_eq!(w.pos, v(10_000, 10_000));
    assert_eq!(w.dim, v(20_000, 20_000));
}

#[test]
fn position_strictly_inside_collides() {
    // Strictly inside the rectangle itself the test always reports a hit.
    let w = sample_wall();
    let r = w.test_circle_collision(v(15_000, 25_000), 5_000);
    assert!(r.is_yes());
}

#[test]
fn position_in_side_slab_of_expansion_collides() {
    // Level with the rectangle on one axis and within the radius on the
    // other: a hit.
    let w = sample_wall();
    let r = w.test_circle_collision(v(6_000, 20_000), 5_000);
    assert!(r.is_yes());
}

#[test]
fn position_farther_than_radius_misses() {
    // Distance from the nearest point beyond the radius: a miss.
    let w = sample_wall();
    let r = w.test_circle_collision(v(50_000, 15_000), 5_000);
    assert_eq!(r, CollisionInfo::No);
}

#[test]
fn corner_lobe_of_expanded_rectangle_misses() {
    // Diagonally radius - 1 away from the corner on each axis: inside the
    // expanded rectangle, but the true corner distance exceeds the radius.
    let w = sample_wall();
    let r = w.test_circle_collision(v(10_000 - 4_999, 10_000 - 4_999), 5_000);
    assert_eq!(r, CollisionInfo::No);
}

#[test]
fn overlap_scales_delta_to_penetration_depth() {
    // Center 5 left of the wall's left face, radius 6: depth 1, pushing
    // the ball further left.
    let w = sample_wall();
    let r = w.test_circle_collision(v(5_000, 15_000), 6_000);
    assert_eq!(r, CollisionInfo::Yes(v(-1_000, 0)));
}

#[test]
fn degenerate_center_on_rectangle_pushes_through_nearest_side() {
    // The center coincides with its own nearest point, so the delta gives
    // no direction; the push-out leaves through the nearest side (here
    // the left one) by that distance plus the radius.
    let w = sample_wall();
    let r = w.test_circle_collision(v(15_000, 15_000), 5_000);
    assert_eq!(r, CollisionInfo::Yes(v(-10_000, 0)));
}

#[test]
fn degenerate_center_nearest_to_top_pushes_up() {
    let w = sample_wall();
    let r = w.test_circle_collision(v(25_000, 12_000), 5_000);
    assert_eq!(r, CollisionInfo::Yes(v(0, -7_000)));
}

#[test]
fn point_probe_is_rectangle_containment() {
    let w = sample_wall();
    assert!(w.test_point_collision_simple(v(10_000, 10_000)));
    assert!(w.test_point_collision_simple(v(30_000, 30_000)));
    assert!(!w.test_point_collision_simple(v(30_001, 30_000)));
    assert!(!w.test_point_collision_simple(v(9_999, 10_000)));
}
