//! Collision primitives: the outcome type for collision tests, the
//! reflection law used for wall bounces, and the four map-border
//! collidables.

use vstd::prelude::*;
use crate::ball::BallController;
use crate::vec2::{Vec2, dot_spec, norm_sqr_spec};

verus! {

/// Things that the ball may collide with and which answer with overlap
/// geometry. Each implementor describes its own test and contact effect
/// through the spec methods, so that callers working through the trait
/// still get exact outcomes.
pub trait Collidable: Sized {
    /// Inputs on which the collision test is free of overflow.
    spec fn collide_req(&self, position: Vec2, radius: i64) -> bool;

    /// The outcome of testing a circle at `position` with `radius`
    /// against this object.
    spec fn collide_spec(&self, position: Vec2, radius: i64) -> CollisionInfo;

    /// Inputs on which the contact effect is free of overflow.
    spec fn on_collision_req(&self, ball: BallController, overlap: Vec2) -> bool;

    /// The pair (object, ball) after the contact effect runs with the
    /// given overlap.
    spec fn on_collision_spec(&self, ball: BallController, overlap: Vec2) -> (Self, BallController);

    /// Tests for a collision of this object with a circle.
    fn test_circle_collision(&self, position: Vec2, radius: i64) -> (r: CollisionInfo)
        requires
            self.collide_req(position, radius),
        ensures
            r == self.collide_spec(position, radius),
    ;

    /// Runs the contact effect on `ball` for a collision with the given
    /// overlap.
    fn on_collision(&mut self, ball: &mut BallController, overlap: Vec2)
        requires
            old(self).on_collision_req(*old(ball), overlap),
        ensures
            (*final(self), *final(ball)) == old(self).on_collision_spec(*old(ball), overlap),
    ;
}

/// Things that the ball may collide with but which need no overlap
/// geometry: only a boolean contact test and a direct effect on the ball.
pub trait SimpleCollidable: Sized {
    /// Inputs on which the contact test is free of overflow.
    spec fn simple_collide_req(&self, position: Vec2, radius: i64) -> bool;

    /// Whether a circle at `position` with `radius` touches this object.
    spec fn simple_collide_spec(&self, position: Vec2, radius: i64) -> bool;

    /// Inputs on which the contact effect is free of overflow.
    spec fn on_simple_req(&self, ball: BallController) -> bool;

    /// The pair (object, ball) after the contact effect runs.
    spec fn on_simple_spec(&self, ball: BallController) -> (Self, BallController);

    /// Tests for a contact of this object with a circle.
    fn test_circle_collision_simple(&self, position: Vec2, radius: i64) -> (r: bool)
        requires
            self.simple_collide_req(position, radius),
        ensures
            r == self.simple_collide_spec(position, radius),
    ;

    /// Runs the contact effect on `ball`.
    fn on_collision_simple(&mut self, ball: &mut BallController)
        requires
            old(self).on_simple_req(*old(ball)),
        ensures
            (*final(self), *final(ball)) == old(self).on_simple_spec(*old(ball)),
    ;
}

/// Outcome of a collision test. On a hit it carries the minimal-translation
/// vector separating the circle from the collided shape; that vector also
/// works as an (unnormalized) contact normal, its magnitude being the
/// penetration depth.
#[derive(Debug, Clone, Copy, PartialEq, Eq, Structural)]
pub enum CollisionInfo {
    /// No collision.
    No,
    /// A collision, with the given overlap vector. Adding it to the moving
    /// object's position separates the two shapes again.
    Yes(Vec2),
}

impl CollisionInfo {
    /// Whether this outcome reports a collision.
    pub fn is_yes(&self) -> (r: bool)
        ensures
            r == (self matches CollisionInfo::Yes(_)),
    {
        match *self {
            CollisionInfo::No => false,
            CollisionInfo::Yes(_) => true,
        }
    }
}

/// The new velocity for an object of velocity `vel` that bounces off a
/// surface with overlap vector `n`: a zero overlap leaves the velocity
/// unchanged, an axis-aligned overlap flips the other component, and any
/// other overlap reflects the velocity about the plane with normal `n`.
/// The reflection coefficient `2·(vel·n)/|n|²` is carried in thousandths
/// (the crate's fixed-point resolution), each rounding flooring towards
/// negative infinity.
pub open spec fn rigid_bounce_spec(vel: Vec2, n: Vec2) -> Vec2 {
    if n.x == 0 && n.y == 0 {
        vel
    } else if n.x == 0 {
        Vec2 { x: vel.x, y: (-vel.y) as i64 }
    } else if n.y == 0 {
        Vec2 { x: (-vel.x) as i64, y: vel.y }
    } else {
        let k = (2000 * dot_spec(vel, n)) / norm_sqr_spec(n);
        Vec2 {
            x: (vel.x - (k * n.x) / 1000) as i64,
            y: (vel.y - (k * n.y) / 1000) as i64,
        }
    }
}

/// Groundwork for the non-axis-aligned reflection. Lifting the velocity
/// to `V = 1000·vel` and writing `2·(V·n)` as `q·k + e` with
/// `0 <= e < q`, the residual `w = V - k·n` satisfies
/// `|w|² = 10⁶·|vel|² - k·e` exactly; this bounds the residual, the
/// coefficient-times-normal products and the final components, keeping
/// every intermediate of the fixed-point reflection representable.
pub proof fn lemma_rigid_bounce_general(vel: Vec2, n: Vec2)
    requires
        -40_000_000 <= vel.x <= 40_000_000,
        -40_000_000 <= vel.y <= 40_000_000,
        -40_000_000 <= n.x <= 40_000_000,
        -40_000_000 <= n.y <= 40_000_000,
        n.x != 0,
        n.y != 0,
    ensures
        ({
            let d2 = 2000 * dot_spec(vel, n);
            let ad2 = if d2 >= 0 {
                d2
            } else {
                -d2
            };
            let q = norm_sqr_spec(n);
            let k = d2 / q;
            let e = d2 - q * k;
            let wx = 1000 * vel.x - k * n.x;
            let wy = 1000 * vel.y - k * n.y;
            &&& 2 <= q <= 3_200_000_000_000_000
            &&& -3_200_000_000_000_000 <= dot_spec(vel, n) <= 3_200_000_000_000_000
            &&& 0 <= e < q
            &&& wx * wx + wy * wy == 1_000_000 * norm_sqr_spec(vel) - k * e
            &&& 0 <= wx * wx + wy * wy <= 2 * (1_000_000 * norm_sqr_spec(vel) + q)
            &&& k * e <= ad2
            &&& -(k * e) <= ad2 + q
            &&& ad2 <= 1_000_000 * norm_sqr_spec(vel) + q
            &&& -90_000_000_000 <= wx <= 90_000_000_000
            &&& -90_000_000_000 <= wy <= 90_000_000_000
            &&& -130_000_000_000 <= k * n.x <= 130_000_000_000
            &&& -130_000_000_000 <= k * n.y <= 130_000_000_000
            &&& -130_000_000 <= (k * n.x) / 1000 <= 130_000_000
            &&& -130_000_000 <= (k * n.y) / 1000 <= 130_000_000
            &&& -180_000_000 <= vel.x - (k * n.x) / 1000 <= 180_000_000
            &&& -180_000_000 <= vel.y - (k * n.y) / 1000 <= 180_000_000
        }),
{
    let d2 = 2000 * dot_spec(vel, n);
    let ad2 = if d2 >= 0 {
        d2
    } else {
        -d2
    };
    let q = norm_sqr_spec(n);
    let k = d2 / q;
    let e = d2 - q * k;
    let vv6 = 1_000_000 * norm_sqr_spec(vel);
    let wx = 1000 * vel.x - k * n.x;
    let wy = 1000 * vel.y - k * n.y;

    assert(q >= 2) by (nonlinear_arith)
        requires
            q == n.x * n.x + n.y * n.y,
            n.x != 0,
            n.y != 0,
    ;
    assert(q <= 3_200_000_000_000_000 && -3_200_000_000_000_000 <= dot_spec(vel, n)
        <= 3_200_000_000_000_000) by (nonlinear_arith)
        requires
            q == n.x * n.x + n.y * n.y,
            dot_spec(vel, n) == vel.x * n.x + vel.y * n.y,
            -40_000_000 <= vel.x <= 40_000_000,
            -40_000_000 <= vel.y <= 40_000_000,
            -40_000_000 <= n.x <= 40_000_000,
            -40_000_000 <= n.y <= 40_000_000,
    ;
    vstd::arithmetic::div_mod::lemma_fundamental_div_mod(d2, q);
    vstd::arithmetic::div_mod::lemma_mod_division_less_than_divisor(d2, q);
    assert(0 <= e < q);

    assert(2 * ((1000 * vel.x) * n.x + (1000 * vel.y) * n.y) == (n.x * n.x + n.y * n.y) * k + e)
        by (nonlinear_arith)
        requires
            d2 == 2000 * (vel.x * n.x + vel.y * n.y),
            q == n.x * n.x + n.y * n.y,
            d2 == q * k + e,
    ;
    lemma_reflect_identity(1000 * vel.x, 1000 * vel.y, n.x as int, n.y as int, k, e);
    assert(vv6 == (1000 * vel.x) * (1000 * vel.x) + (1000 * vel.y) * (1000 * vel.y)) by (
    nonlinear_arith)
        requires
            vv6 == 1_000_000 * (vel.x * vel.x + vel.y * vel.y),
    ;
    assert(wx * wx + wy * wy == vv6 - k * e);

    assert(k * e <= ad2 && -(k * e) <= ad2 + q) by (nonlinear_arith)
        requires
            0 <= e < q,
            d2 == q * k + e,
            q >= 2,
            ad2 == if d2 >= 0 {
                d2
            } else {
                -d2
            },
    ;
    assert(d2 <= vv6 + q && -d2 <= vv6 + q) by (nonlinear_arith)
        requires
            d2 == 2000 * (vel.x * n.x + vel.y * n.y),
            q == n.x * n.x + n.y * n.y,
            vv6 == 1_000_000 * (vel.x * vel.x + vel.y * vel.y),
    ;
    assert(0 <= wx * wx + wy * wy) by (nonlinear_arith)
        requires
            wx * wx + wy * wy == wx * wx + wy * wy,
    ;
    assert(wx * wx + wy * wy <= 2 * (vv6 + q));
    assert(vv6 <= 3_200_000_000_000_000_000_000) by (nonlinear_arith)
        requires
            vv6 == 1_000_000 * (vel.x * vel.x + vel.y * vel.y),
            -40_000_000 <= vel.x <= 40_000_000,
            -40_000_000 <= vel.y <= 40_000_000,
    ;
    assert(-90_000_000_000 <= wx <= 90_000_000_000 && -90_000_000_000 <= wy
        <= 90_000_000_000) by (nonlinear_arith)
        requires
            0 <= wx * wx + wy * wy <= 6_500_000_000_000_000_000_000,
    ;
    assert(-130_000_000_000 <= k * n.x <= 130_000_000_000 && -130_000_000_000 <= k * n.y
        <= 130_000_000_000);

    vstd::arithmetic::div_mod::lemma_div_is_ordered(-130_000_000_000, k * n.x, 1000);
    vstd::arithmetic::div_mod::lemma_div_is_ordered(k * n.x, 130_000_000_000, 1000);
    vstd::arithmetic::div_mod::lemma_div_is_ordered(-130_000_000_000, k * n.y, 1000);
    vstd::arithmetic::div_mod::lemma_div_is_ordered(k * n.y, 130_000_000_000, 1000);
    vstd::arithmetic::div_mod::lemma_div_multiples_vanish(130_000_000, 1000);
    vstd::arithmetic::div_mod::lemma_div_multiples_vanish(-130_000_000, 1000);
    assert((130_000_000_000int) == 1000 * 130_000_000 && (-130_000_000_000int) == 1000
        * -130_000_000);
}

/// Returns the new velocity for a ball which collides with an object,
/// reflecting `vel` about the overlap vector `overlap`.
pub fn rigid_bounce(vel: Vec2, overlap: Vec2) -> (r: Vec2)
    requires
        -40_000_000 <= vel.x <= 40_000_000,
        -40_000_000 <= vel.y <= 40_000_000,
        -40_000_000 <= overlap.x <= 40_000_000,
        -40_000_000 <= overlap.y <= 40_000_000,
    ensures
        r == rigid_bounce_spec(vel, overlap),
        -180_000_000 <= r.x <= 180_000_000,
        -180_000_000 <= r.y <= 180_000_000,
{
    let n = overlap;
    if n.x == 0 && n.y == 0 {
        vel
    } else if n.x == 0 {
        Vec2 { x: vel.x, y: -vel.y }
    } else if n.y == 0 {
        Vec2 { x: -vel.x, y: vel.y }
    } else {
        proof {
            lemma_rigid_bounce_general(vel, n);
        }
        let d = vel.dot(n);
        let q = n.norm_sqr();
        let k = crate::util::div_floor(2000 * d, q);
        let mx = crate::util::div_floor(k * n.x, 1000);
        let my = crate::util::div_floor(k * n.y, 1000);
        Vec2 { x: vel.x - mx, y: vel.y - my }
    }
}

/// Ring identity behind the reflection law: if `2·(v·n)` splits into
/// `|n|²·k + e`, then reflecting `v` with coefficient `k` changes the
/// squared norm by exactly `-k·e`.
proof fn lemma_reflect_identity(vx: int, vy: int, nx: int, ny: int, k: int, e: int)
    requires
        2 * (vx * nx + vy * ny) == (nx * nx + ny * ny) * k + e,
    ensures
        (vx - k * nx) * (vx - k * nx) + (vy - k * ny) * (vy - k * ny) == vx * vx + vy * vy - k * e,
{
    let ux = k * nx;
    let uy = k * ny;
    assert((vx - ux) * (vx - ux) == vx * vx - 2 * ux * vx + ux * ux) by (nonlinear_arith);
    assert((vy - uy) * (vy - uy) == vy * vy - 2 * uy * vy + uy * uy) by (nonlinear_arith);
    assert(ux * ux + uy * uy == (nx * nx + ny * ny) * (k * k)) by (nonlinear_arith)
        requires
            ux == k * nx,
            uy == k * ny,
    ;
    assert(2 * ux * vx + 2 * uy * vy == (2 * (vx * nx + vy * ny)) * k) by (nonlinear_arith)
        requires
            ux == k * nx,
            uy == k * ny,
    ;
    assert(k * e == (2 * (vx * nx + vy * ny)) * k - ((nx * nx + ny * ny) * k) * k) by (
    nonlinear_arith)
        requires
            2 * (vx * nx + vy * ny) == (nx * nx + ny * ny) * k + e,
    ;
    assert(((nx * nx + ny * ny) * k) * k == (nx * nx + ny * ny) * (k * k)) by (nonlinear_arith);
}

/// Overflow window shared by the four border tests: the border offset,
/// the query position and the radius all within the representable
/// coordinate window, the radius nonnegative.
pub open spec fn border_test_req(border: int, position: Vec2, radius: i64) -> bool {
    &&& -1_000_000_000 <= border <= 1_000_000_000
    &&& position.in_bounds()
    &&& 0 <= radius <= 1_000_000_000
}

/// A vertical wall at the left edge of the map: everything at `x` below
/// the stored offset (plus the radius) is pushed back to the right.
#[derive(Debug, Default, Clone, Copy, PartialEq, Eq, Structural)]
pub struct LeftBorder(pub i64);

impl Collidable for LeftBorder {
    open spec fn collide_req(&self, position: Vec2, radius: i64) -> bool {
        border_test_req(self.0 as int, position, radius)
    }

    /// Penetration depth along the one relevant axis: `B + r - x`,
    /// a hit only when strictly positive.
    open spec fn collide_spec(&self, position: Vec2, radius: i64) -> CollisionInfo {
        let dx = self.0 + radius - position.x;
        if dx <= 0 {
            CollisionInfo::No
        } else {
            CollisionInfo::Yes(Vec2 { x: dx as i64, y: 0 })
        }
    }

    open spec fn on_collision_req(&self, ball: BallController, overlap: Vec2) -> bool {
        &&& i64::MIN <= ball.ball.pos.x + overlap.x <= i64::MAX
        &&& ball.ball.vel.x > i64::MIN
    }

    /// A border bounces the ball directly: correct on its axis and flip
    /// that velocity component.
    open spec fn on_collision_spec(&self, ball: BallController, overlap: Vec2) -> (
        Self,
        BallController,
    ) {
        (*self, flip_x_effect(ball, overlap.x as int))
    }

    fn test_circle_collision(&self, position: Vec2, radius: i64) -> (r: CollisionInfo) {
        let dx = self.0 + radius - position.x;
        if dx <= 0 {
            CollisionInfo::No
        } else {
            CollisionInfo::Yes(Vec2 { x: dx, y: 0 })
        }
    }

    fn on_collision(&mut self, ball: &mut BallController, overlap: Vec2) {
        ball.correct_and_flip_x(overlap.x);
    }
}

/// A vertical wall at the right edge of the map.
#[derive(Debug, Clone, Copy, PartialEq, Eq, Structural)]
pub struct RightBorder(pub i64);

impl Collidable for RightBorder {
    open spec fn collide_req(&self, position: Vec2, radius: i64) -> bool {
        border_test_req(self.0 as int, position, radius)
    }

    /// No collision exactly when `x + r <= B`; past that, the overlap's
    /// negative depth pushes the circle back to the left.
    open spec fn collide_spec(&self, position: Vec2, radius: i64) -> CollisionInfo {
        let dx = self.0 - position.x - radius;
        if dx >= 0 {
            CollisionInfo::No
        } else {
            CollisionInfo::Yes(Vec2 { x: dx as i64, y: 0 })
        }
    }

    open spec fn on_collision_req(&self, ball: BallController, overlap: Vec2) -> bool {
        &&& i64::MIN <= ball.ball.pos.x + overlap.x <= i64::MAX
        &&& ball.ball.vel.x > i64::MIN
    }

    open spec fn on_collision_spec(&self, ball: BallController, overlap: Vec2) -> (
        Self,
        BallController,
    ) {
        (*self, flip_x_effect(ball, overlap.x as int))
    }

    fn test_circle_collision(&self, position: Vec2, radius: i64) -> (r: CollisionInfo) {
        let dx = self.0 - position.x - radius;
        if dx >= 0 {
            CollisionInfo::No
        } else {
            CollisionInfo::Yes(Vec2 { x: dx, y: 0 })
        }
    }

    fn on_collision(&mut self, ball: &mut BallController, overlap: Vec2) {
        ball.correct_and_flip_x(overlap.x);
    }
}

/// A horizontal wall at the top edge of the map.
#[derive(Debug, Default, Clone, Copy, PartialEq, Eq, Structural)]
pub struct UpBorder(pub i64);

impl Collidable for UpBorder {
    open spec fn collide_req(&self, position: Vec2, radius: i64) -> bool {
        border_test_req(self.0 as int, position, radius)
    }

    open spec fn collide_spec(&self, position: Vec2, radius: i64) -> CollisionInfo {
        let dy = self.0 + radius - position.y;
        if dy <= 0 {
            CollisionInfo::No
        } else {
            CollisionInfo::Yes(Vec2 { x: 0, y: dy as i64 })
        }
    }

    open spec fn on_collision_req(&self, ball: BallController, overlap: Vec2) -> bool {
        &&& i64::MIN <= ball.ball.pos.y + overlap.y <= i64::MAX
        &&& ball.ball.vel.y > i64::MIN
    }

    open spec fn on_collision_spec(&self, ball: BallController, overlap: Vec2) -> (
        Self,
        BallController,
    ) {
        (*self, flip_y_effect(ball, overlap.y as int))
    }

    fn test_circle_collision(&self, position: Vec2, radius: i64) -> (r: CollisionInfo) {
        let dy = self.0 + radius - position.y;
        if dy <= 0 {
            CollisionInfo::No
        } else {
            CollisionInfo::Yes(Vec2 { x: 0, y: dy })
        }
    }

    fn on_collision(&mut self, ball: &mut BallController, overlap: Vec2) {
        ball.correct_and_flip_y(overlap.y);
    }
}

/// A horizontal wall at the bottom edge of the map.
#[derive(Debug, Clone, Copy, PartialEq, Eq, Structural)]
pub struct DownBorder(pub i64);

impl Collidable for DownBorder {
    open spec fn collide_req(&self, position: Vec2, radius: i64) -> bool {
        border_test_req(self.0 as int, position, radius)
    }

    /// No collision exactly when `y + r <= B`; past that, the overlap's
    /// negative depth pushes the circle back up.
    open spec fn collide_spec(&self, position: Vec2, radius: i64) -> CollisionInfo {
        let dy = self.0 - position.y - radius;
        if dy >= 0 {
            CollisionInfo::No
        } else {
            CollisionInfo::Yes(Vec2 { x: 0, y: dy as i64 })
        }
    }

    open spec fn on_collision_req(&self, ball: BallController, overlap: Vec2) -> bool {
        &&& i64::MIN <= ball.ball.pos.y + overlap.y <= i64::MAX
        &&& ball.ball.vel.y > i64::MIN
    }

    open spec fn on_collision_spec(&self, ball: BallController, overlap: Vec2) -> (
        Self,
        BallController,
    ) {
        (*self, flip_y_effect(ball, overlap.y as int))
    }

    fn test_circle_collision(&self, position: Vec2, radius: i64) -> (r: CollisionInfo) {
        let dy = self.0 - position.y - radius;
        if dy >= 0 {
            CollisionInfo::No
        } else {
            CollisionInfo::Yes(Vec2 { x: 0, y: dy })
        }
    }

    fn on_collision(&mut self, ball: &mut BallController, overlap: Vec2) {
        ball.correct_and_flip_y(overlap.y);
    }
}

/// The ball controller after a horizontal correction by `dx` and a flip
/// of the horizontal velocity.
pub open spec fn flip_x_effect(c: BallController, dx: int) -> BallController {
    crate::ball::ctrl_with_ball(
        c,
        crate::ball::Ball {
            pos: Vec2 { x: (c.ball.pos.x + dx) as i64, y: c.ball.pos.y },
            vel: Vec2 { x: (-c.ball.vel.x) as i64, y: c.ball.vel.y },
            size: c.ball.size,
        },
    )
}

/// The ball controller after a vertical correction by `dy` and a flip of
/// the vertical velocity.
pub open spec fn flip_y_effect(c: BallController, dy: int) -> BallController {
    crate::ball::ctrl_with_ball(
        c,
        crate::ball::Ball {
            pos: Vec2 { x: c.ball.pos.x, y: (c.ball.pos.y + dy) as i64 },
            vel: Vec2 { x: c.ball.vel.x, y: (-c.ball.vel.y) as i64 },
            size: c.ball.size,
        },
    )
}

/// The rigid bounce preserves the squared speed exactly whenever the
/// overlap is axis-aligned: the flipped component keeps its magnitude.
pub proof fn lemma_rigid_bounce_preserves_norm(vel: Vec2, n: Vec2)
    requires
        vel.x > i64::MIN,
        vel.y > i64::MIN,
        !(n.x == 0 && n.y == 0),
        n.x == 0 || n.y == 0,
    ensures
        norm_sqr_spec(rigid_bounce_spec(vel, n)) == norm_sqr_spec(vel),
{
    if n.x == 0 {
        assert((-vel.y) * (-vel.y) == vel.y * vel.y) by (nonlinear_arith);
    } else {
        assert((-vel.x) * (-vel.x) == vel.x * vel.x) by (nonlinear_arith);
    }
}

/// Speed tolerance of the non-axis-aligned rigid bounce over play-scale
/// inputs (components within a hundred units): at a million times the
/// squared-speed scale, the bounce changes the squared speed by at most
/// `1001` times the combined squared magnitudes plus a constant of one
/// squared unit — about a thousandth in relative terms. The loss comes
/// from carrying the reflection coefficient in thousandths; an exact
/// reflection would preserve the speed exactly.
pub proof fn lemma_rigid_bounce_norm_tolerance(vel: Vec2, n: Vec2)
    requires
        -100_000 <= vel.x <= 100_000,
        -100_000 <= vel.y <= 100_000,
        -100_000 <= n.x <= 100_000,
        -100_000 <= n.y <= 100_000,
        n.x != 0,
        n.y != 0,
    ensures
        ({
            let r = rigid_bounce_spec(vel, n);
            let s = norm_sqr_spec(vel) + norm_sqr_spec(n);
            &&& 1_000_000 * norm_sqr_spec(r) - 1_000_000 * norm_sqr_spec(vel) <= 1001 * s
                + 1_000_000_000_000
            &&& 1_000_000 * norm_sqr_spec(vel) - 1_000_000 * norm_sqr_spec(r) <= 1001 * s
                + 1_000_000_000_000
        }),
{
    let d2 = 2000 * dot_spec(vel, n);
    let ad2 = if d2 >= 0 {
        d2
    } else {
        -d2
    };
    let q = norm_sqr_spec(n);
    let nv = norm_sqr_spec(vel);
    let k = d2 / q;
    let e = d2 - q * k;
    let wx = 1000 * vel.x - k * n.x;
    let wy = 1000 * vel.y - k * n.y;
    let mx = (k * n.x) / 1000;
    let my = (k * n.y) / 1000;
    let rx = k * n.x - 1000 * mx;
    let ry = k * n.y - 1000 * my;
    let res = rigid_bounce_spec(vel, n);

    lemma_rigid_bounce_general(vel, n);

    // The remainders of the final thousandths division.
    vstd::arithmetic::div_mod::lemma_fundamental_div_mod(k * n.x, 1000);
    vstd::arithmetic::div_mod::lemma_mod_division_less_than_divisor(k * n.x, 1000);
    vstd::arithmetic::div_mod::lemma_fundamental_div_mod(k * n.y, 1000);
    vstd::arithmetic::div_mod::lemma_mod_division_less_than_divisor(k * n.y, 1000);
    assert(0 <= rx < 1000 && 0 <= ry < 1000);

    // The result components fit, so the specification's casts are exact.
    assert(res.x == vel.x - mx && res.y == vel.y - my);
    assert(1000 * res.x == wx + rx && 1000 * res.y == wy + ry);

    // A million times the result's squared norm, expanded.
    assert(1_000_000 * norm_sqr_spec(res) == (wx + rx) * (wx + rx) + (wy + ry) * (wy + ry)) by (
    nonlinear_arith)
        requires
            norm_sqr_spec(res) == res.x * res.x + res.y * res.y,
            1000 * res.x == wx + rx,
            1000 * res.y == wy + ry,
    ;
    assert((wx + rx) * (wx + rx) + (wy + ry) * (wy + ry) == (wx * wx + wy * wy) + 2 * (wx * rx + wy
        * ry) + (rx * rx + ry * ry)) by (nonlinear_arith);
    assert(1_000_000 * norm_sqr_spec(res) - 1_000_000 * nv == -(k * e) + 2 * (wx * rx + wy * ry) + (
    rx * rx + ry * ry));

    // Pairing bound: the scaled double dot product is at most the
    // combined squared magnitudes at the same scale.
    assert(d2 <= 1000 * (nv + q) && -d2 <= 1000 * (nv + q)) by (nonlinear_arith)
        requires
            d2 == 2000 * (vel.x * n.x + vel.y * n.y),
            nv == vel.x * vel.x + vel.y * vel.y,
            q == n.x * n.x + n.y * n.y,
    ;
    assert(nv >= 0) by (nonlinear_arith)
        requires
            nv == vel.x * vel.x + vel.y * vel.y,
    ;
    assert(ad2 <= 1000 * (nv + q));
    assert(q <= nv + q);
    assert(k * e <= 1001 * (nv + q) && -(k * e) <= 1001 * (nv + q));

    // The residual stays small at play scale.
    assert(1_000_000 * nv <= 20_000_000_000_000_000) by (nonlinear_arith)
        requires
            nv == vel.x * vel.x + vel.y * vel.y,
            -100_000 <= vel.x <= 100_000,
            -100_000 <= vel.y <= 100_000,
    ;
    assert(q <= 20_000_000_000) by (nonlinear_arith)
        requires
            q == n.x * n.x + n.y * n.y,
            -100_000 <= n.x <= 100_000,
            -100_000 <= n.y <= 100_000,
    ;
    assert(-210_000_000 <= wx <= 210_000_000 && -210_000_000 <= wy <= 210_000_000) by (
    nonlinear_arith)
        requires
            0 <= wx * wx + wy * wy <= 40_040_000_000_000_000,
    ;
    assert(-210_000_000_000 <= wx * rx <= 210_000_000_000 && -210_000_000_000 <= wy * ry
        <= 210_000_000_000) by (nonlinear_arith)
        requires
            -210_000_000 <= wx <= 210_000_000,
            -210_000_000 <= wy <= 210_000_000,
            0 <= rx < 1000,
            0 <= ry < 1000,
    ;
    assert(0 <= rx * rx + ry * ry <= 2_000_000) by (nonlinear_arith)
        requires
            0 <= rx < 1000,
            0 <= ry < 1000,
    ;
}

} // verus!
