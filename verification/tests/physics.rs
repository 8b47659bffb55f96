//! Collision primitives: border tests, the reflection law, and exact
//! bounce outcomes.

use gembounce::physics::{
    Collidable, CollisionInfo, DownBorder, LeftBorder, RightBorder, UpBorder, rigid_bounce,
};
use gembounce::vec2::Vec2;

fn v(x: i64, y: i64) -> Vec2 {
    Vec2 { x, y }
}

#[test]
fn left_border_reports_depth_overlap() {
    // A ball at x = 10 with radius 14 against a left border at 0 is 4 deep.
    let r = LeftBorder(0).test_circle_collision(v(10, 50), 14);
    assert_eq!(r, CollisionInfo::Yes(v(4, 0)));
}

#[test]
fn left_border_exact_boundary_is_no_collision() {
    // Exactly touching (depth zero) does not count as a collision.
    let r = LeftBorder(0).test_circle_collision(v(14, 50), 14);
    assert_eq!(r, CollisionInfo::No);
}

#[test]
fn right_border_mirrors_with_negated_depth() {
    let r = RightBorder(100).test_circle_collision(v(96, 50), 14);
    assert_eq!(r, CollisionInfo::Yes(v(-10, 0)));
    assert_eq!(
        RightBorder(100).test_circle_collision(v(80, 50), 14),
        CollisionInfo::No
    );
    // Exact tangency (x + r == B) is no collision, mirroring the left
    // border's convention.
    assert_eq!(
        RightBorder(100).test_circle_collision(v(86, 50), 14),
        CollisionInfo::No
    );
}

#[test]
fn up_and_down_borders_use_the_vertical_axis() {
    assert_eq!(
        UpBorder(0).test_circle_collision(v(50, 10), 14),
        CollisionInfo::Yes(v(0, 4))
    );
    assert_eq!(
        DownBorder(200).test_circle_collision(v(50, 190), 14),
        CollisionInfo::Yes(v(0, -4))
    );
    assert_eq!(
        UpBorder(0).test_circle_collision(v(50, 140), 14),
        CollisionInfo::No
    );
    assert_eq!(
        DownBorder(200).test_circle_collision(v(50, 100), 14),
        CollisionInfo::No
    );
    // Exact tangency against the bottom border is no collision either.
    assert_eq!(
        DownBorder(200).test_circle_collision(v(50, 186), 14),
        CollisionInfo::No
    );
}

#[test]
fn is_yes_distinguishes_outcomes() {
    assert!(CollisionInfo::Yes(v(1, 0)).is_yes());
    assert!(!CollisionInfo::No.is_yes());
}

#[test]
fn bounce_on_vertical_face_flips_only_y() {
    // A wall overlap of (0, 5) is a vertical contact: (3, -2) becomes (3, 2).
    let r = rigid_bounce(v(3, -2), v(0, 5));
    assert_eq!(r, v(3, 2));
}

#[test]
fn bounce_on_horizontal_face_flips_only_x() {
    let r = rigid_bounce(v(3, -2), v(7, 0));
    assert_eq!(r, v(-3, -2));
}

#[test]
fn bounce_on_zero_overlap_is_a_no_op() {
    let r = rigid_bounce(v(3, -2), v(0, 0));
    assert_eq!(r, v(3, -2));
}

#[test]
fn diagonal_bounce_reflects_and_preserves_speed() {
    // v = (3, 4), n = (1, 1): the reflection coefficient 2(v.n)/|n|^2 = 7
    // is whole, so the reflection is exact and the speed is preserved.
    let r = rigid_bounce(v(3, 4), v(1, 1));
    assert_eq!(r, v(-4, -3));
    assert_eq!(r.x * r.x + r.y * r.y, 3 * 3 + 4 * 4);
}

#[test]
fn steep_diagonal_bounce_tracks_the_true_reflection() {
    // v = (3000, 1000) against n = (2000, 1000): the coefficient
    // 2(v.n)/|n|^2 = 2.8 is carried in thousandths as 2800, giving the
    // exact reflection (-2600, -1800) with the speed preserved.
    let r = rigid_bounce(v(3_000, 1_000), v(2_000, 1_000));
    assert_eq!(r, v(-2_600, -1_800));
    assert_eq!(r.x * r.x + r.y * r.y, 3_000 * 3_000 + 1_000 * 1_000);
}

#[test]
fn axis_aligned_bounce_preserves_speed() {
    let before = v(3, -2);
    let after = rigid_bounce(before, v(0, 5));
    assert_eq!(
        before.x * before.x + before.y * before.y,
        after.x * after.x + after.y * after.y
    );
}
