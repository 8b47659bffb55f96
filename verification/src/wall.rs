//! Static wall entities: axis-aligned rectangles that the ball bounces
//! off. The circle-versus-rectangle test clamps the circle's center to the
//! rectangle to find the nearest point, and a hit scales the delta vector
//! to the penetration depth. Walls do not bounce the ball at once: a hit
//! registers with the ball controller's accumulator for batched
//! resolution.

use vstd::prelude::*;
use crate::ball::BallController;
use crate::level::WallInfo;
use crate::physics::{Collidable, CollisionInfo};
use crate::scene::Positioned;
use crate::util::{clamp, clamp_spec, div_floor, isqrt, isqrt_spec};
use crate::vec2::Vec2;

verus! {

/// An axis-aligned wall: top-left corner and dimensions, in thousandths
/// of a unit.
#[derive(Debug, Clone, Copy, PartialEq, Eq, Structural)]
pub struct Wall {
    pub pos: Vec2,
    pub dim: Vec2,
}

/// The wall that a descriptor in whole units denotes.
pub open spec fn wall_from_info_spec(info: WallInfo) -> Wall {
    Wall {
        pos: Vec2 { x: (1000 * info.pos.x) as i64, y: (1000 * info.pos.y) as i64 },
        dim: Vec2 { x: (1000 * info.dim.x) as i64, y: (1000 * info.dim.y) as i64 },
    }
}

impl Wall {
    /// A wall sits in the play window when both its corners lie within
    /// thirty thousand units; its overlap vectors then stay small enough
    /// to accumulate and to average into the fixed-point reflection.
    pub open spec fn in_play_window(self) -> bool {
        &&& -30_000_000 <= self.pos.x <= 30_000_000
        &&& -30_000_000 <= self.pos.y <= 30_000_000
        &&& 0 <= self.dim.x
        &&& 0 <= self.dim.y
        &&& self.pos.x + self.dim.x <= 30_000_000
        &&& self.pos.y + self.dim.y <= 30_000_000
    }

    /// A well-formed wall has nonnegative dimensions and both corners
    /// within the representable coordinate window.
    pub open spec fn wf(self) -> bool {
        &&& self.pos.in_bounds()
        &&& self.dim.x >= 0
        &&& self.dim.y >= 0
        &&& -1_000_000_000 <= self.pos.x + self.dim.x <= 1_000_000_000
        &&& -1_000_000_000 <= self.pos.y + self.dim.y <= 1_000_000_000
    }

    /// Builds the wall described by `info`, whose position and dimensions
    /// are counted in whole units.
    pub fn new(info: WallInfo) -> (r: Wall)
        requires
            -1_000_000 <= info.pos.x <= 1_000_000,
            -1_000_000 <= info.pos.y <= 1_000_000,
            0 <= info.dim.x <= 1_000_000,
            0 <= info.dim.y <= 1_000_000,
            -1_000_000 <= info.pos.x + info.dim.x <= 1_000_000,
            -1_000_000 <= info.pos.y + info.dim.y <= 1_000_000,
        ensures
            r == wall_from_info_spec(info),
            r.wf(),
    {
        Wall {
            pos: Vec2 { x: 1000 * info.pos.x, y: 1000 * info.pos.y },
            dim: Vec2 { x: 1000 * info.dim.x, y: 1000 * info.dim.y },
        }
    }

    /// The point of the rectangle nearest to `p`: the center clamped to
    /// the rectangle's extent.
    pub open spec fn nearest_spec(self, p: Vec2) -> Vec2 {
        Vec2 {
            x: clamp_spec(p.x as int, self.pos.x as int, self.pos.x + self.dim.x) as i64,
            y: clamp_spec(p.y as int, self.pos.y as int, self.pos.y + self.dim.y) as i64,
        }
    }

    /// Squared distance from `p` to the rectangle's nearest point.
    pub open spec fn dist_sqr_spec(self, p: Vec2) -> int {
        let n = self.nearest_spec(p);
        (p.x - n.x) * (p.x - n.x) + (p.y - n.y) * (p.y - n.y)
    }

    /// The push-out chosen when the circle's center lies exactly on the
    /// nearest point (so no direction can be read off the delta vector):
    /// an axis-aligned push through the nearest side, preferring in order
    /// the left, right, top and bottom sides.
    pub open spec fn degenerate_overlap_spec(self, p: Vec2, radius: i64) -> Vec2 {
        let dl = p.x - self.pos.x;
        let dr = self.pos.x + self.dim.x - p.x;
        let du = p.y - self.pos.y;
        let dd = self.pos.y + self.dim.y - p.y;
        if dl <= dr && dl <= du && dl <= dd {
            Vec2 { x: (-(dl + radius)) as i64, y: 0 }
        } else if dr <= du && dr <= dd {
            Vec2 { x: (dr + radius) as i64, y: 0 }
        } else if du <= dd {
            Vec2 { x: 0, y: (-(du + radius)) as i64 }
        } else {
            Vec2 { x: 0, y: (dd + radius) as i64 }
        }
    }
}

impl Collidable for Wall {
    open spec fn collide_req(&self, position: Vec2, radius: i64) -> bool {
        &&& self.wf()
        &&& position.in_bounds()
        &&& 0 <= radius <= 1_000_000_000
    }

    /// A hit exactly when the squared distance from the center to the
    /// rectangle's nearest point is within the squared radius; the overlap
    /// is the delta vector scaled to the penetration depth
    /// `radius - distance`, or the axis-aligned push-out when the center
    /// sits exactly on the nearest point.
    open spec fn collide_spec(&self, position: Vec2, radius: i64) -> CollisionInfo {
        let n = self.nearest_spec(position);
        let dx = position.x - n.x;
        let dy = position.y - n.y;
        let d2 = dx * dx + dy * dy;
        if d2 > radius * radius {
            CollisionInfo::No
        } else if d2 == 0 {
            CollisionInfo::Yes(self.degenerate_overlap_spec(position, radius))
        } else {
            let dist = isqrt_spec(d2);
            CollisionInfo::Yes(
                Vec2 {
                    x: ((dx * (radius - dist)) / dist) as i64,
                    y: ((dy * (radius - dist)) / dist) as i64,
                },
            )
        }
    }

    open spec fn on_collision_req(&self, ball: BallController, overlap: Vec2) -> bool {
        &&& i64::MIN <= ball.acc_overlaps.x + overlap.x <= i64::MAX
        &&& i64::MIN <= ball.acc_overlaps.y + overlap.y <= i64::MAX
        &&& ball.num_overlaps < usize::MAX
    }

    /// A wall does not bounce the ball at once: the overlap joins the
    /// controller's accumulator for batched resolution.
    open spec fn on_collision_spec(&self, ball: BallController, overlap: Vec2) -> (
        Self,
        BallController,
    ) {
        (
            *self,
            BallController {
                acc_overlaps: Vec2 {
                    x: (ball.acc_overlaps.x + overlap.x) as i64,
                    y: (ball.acc_overlaps.y + overlap.y) as i64,
                },
                num_overlaps: (ball.num_overlaps + 1) as usize,
                ..ball
            },
        )
    }

    fn test_circle_collision(&self, position: Vec2, radius: i64) -> (r: CollisionInfo) {
        let nearest_x = clamp(position.x, self.pos.x, self.pos.x + self.dim.x);
        let nearest_y = clamp(position.y, self.pos.y, self.pos.y + self.dim.y);
        let dx = position.x - nearest_x;
        let dy = position.y - nearest_y;
        proof {
            lemma_delta_products(dx as int, dy as int, radius as int);
        }
        let dist_sqr = dx * dx + dy * dy;
        if dist_sqr > radius * radius {
            CollisionInfo::No
        } else if dist_sqr == 0 {
            let dl = position.x - self.pos.x;
            let dr = self.pos.x + self.dim.x - position.x;
            let du = position.y - self.pos.y;
            let dd = self.pos.y + self.dim.y - position.y;
            if dl <= dr && dl <= du && dl <= dd {
                CollisionInfo::Yes(Vec2 { x: -(dl + radius), y: 0 })
            } else if dr <= du && dr <= dd {
                CollisionInfo::Yes(Vec2 { x: dr + radius, y: 0 })
            } else if du <= dd {
                CollisionInfo::Yes(Vec2 { x: 0, y: -(du + radius) })
            } else {
                CollisionInfo::Yes(Vec2 { x: 0, y: dd + radius })
            }
        } else {
            let dist = isqrt(dist_sqr);
            proof {
                lemma_dist_within_radius(
                    dist_sqr as int,
                    dist as int,
                    radius as int,
                    dx as int,
                    dy as int,
                );
            }
            let ox = div_floor(dx * (radius - dist), dist);
            let oy = div_floor(dy * (radius - dist), dist);
            CollisionInfo::Yes(Vec2 { x: ox, y: oy })
        }
    }

    fn on_collision(&mut self, ball: &mut BallController, overlap: Vec2) {
        ball.issue_bounce(overlap);
    }
}

impl Wall {
    /// Whether `position` lies inside the wall's rectangle (borders
    /// included).
    pub fn test_point_collision_simple(&self, position: Vec2) -> (r: bool)
        requires
            self.wf(),
            position.in_bounds(),
        ensures
            r == (self.pos.x <= position.x <= self.pos.x + self.dim.x && self.pos.y <= position.y
                <= self.pos.y + self.dim.y),
    {
        position.x >= self.pos.x && position.x <= self.pos.x + self.dim.x && position.y
            >= self.pos.y && position.y <= self.pos.y + self.dim.y
    }
}

impl Positioned for Wall {
    open spec fn pos_spec(&self) -> Vec2 {
        self.pos
    }

    fn position(&self) -> (r: Vec2) {
        self.pos
    }
}

/// For every position on an axis slab of the wall's expanded rectangle --
/// strictly inside the rectangle grown by the radius, and level with the
/// rectangle on at least one axis -- the collision test reports a hit.
/// (In the four corner lobes of the expanded rectangle the nearest-point
/// distance can exceed the radius, so a corner position such as one
/// diagonally `radius - 1` away from a corner is rightly a miss.)
pub proof fn lemma_wall_inside_collides(w: Wall, p: Vec2, radius: i64)
    requires
        w.collide_req(p, radius),
        w.pos.x - radius < p.x < w.pos.x + w.dim.x + radius,
        w.pos.y - radius < p.y < w.pos.y + w.dim.y + radius,
        (w.pos.x <= p.x <= w.pos.x + w.dim.x) || (w.pos.y <= p.y <= w.pos.y + w.dim.y),
    ensures
        w.collide_spec(p, radius) matches CollisionInfo::Yes(_),
{
    let n = w.nearest_spec(p);
    let dx = p.x - n.x;
    let dy = p.y - n.y;
    assert(dx == 0 || -radius < dx < radius);
    assert(dy == 0 || -radius < dy < radius);
    assert(dx == 0 || dy == 0);
    assert(dx * dx + dy * dy <= radius * radius) by (nonlinear_arith)
        requires
            dx == 0 || -radius < dx < radius,
            dy == 0 || -radius < dy < radius,
            dx == 0 || dy == 0,
            radius >= 0,
    ;
}

/// For every position whose nearest-point distance from the rectangle
/// exceeds the radius, the collision test reports a miss.
pub proof fn lemma_wall_far_misses(w: Wall, p: Vec2, radius: i64)
    requires
        w.collide_req(p, radius),
        w.dist_sqr_spec(p) > radius * radius,
    ensures
        w.collide_spec(p, radius) is No,
{
}

/// For a wall in the play window and a modest radius, every overlap the
/// collision test can report stays within forty thousand units: the
/// scaled delta is bounded by the penetration depth, and the degenerate
/// push-out by half the wall plus the radius.
pub proof fn lemma_wall_overlap_bounded(w: Wall, p: Vec2, radius: i64)
    requires
        w.collide_req(p, radius),
        0 <= radius <= 5_000_000,
        w.in_play_window(),
    ensures
        w.collide_spec(p, radius) matches CollisionInfo::Yes(o) ==> -40_000_000 <= o.x
            <= 40_000_000 && -40_000_000 <= o.y <= 40_000_000,
{
    let n = w.nearest_spec(p);
    let dx = p.x - n.x;
    let dy = p.y - n.y;
    let d2 = dx * dx + dy * dy;
    if d2 > radius * radius {
    } else if d2 == 0 {
        let dl = p.x - w.pos.x;
        let dr = w.pos.x + w.dim.x - p.x;
        let du = p.y - w.pos.y;
        let dd = w.pos.y + w.dim.y - p.y;
        assert(dx == 0 && dy == 0) by (nonlinear_arith)
            requires
                dx * dx + dy * dy == 0,
        ;
        assert(0 <= dl && 0 <= dr && 0 <= du && 0 <= dd);
        assert(dl + dr == w.dim.x && du + dd == w.dim.y);
    } else {
        let dist = isqrt_spec(d2);
        assert(d2 >= 0) by (nonlinear_arith)
            requires
                d2 == dx * dx + dy * dy,
        ;
        crate::util::lemma_isqrt_bounds(d2);
        if dist > radius {
            assert(radius * radius < dist * dist) by (nonlinear_arith)
                requires
                    0 <= radius,
                    radius < dist,
            ;
        }
        if dist == 0 {
            assert((dist + 1) * (dist + 1) == 1) by (nonlinear_arith)
                requires
                    dist == 0,
            ;
        }
        assert(1 <= dist <= radius);
        assert(dx * dx <= d2 && dy * dy <= d2) by (nonlinear_arith)
            requires
                d2 == dx * dx + dy * dy,
        ;
        assert(-dist <= dx <= dist && -dist <= dy <= dist) by (nonlinear_arith)
            requires
                dx * dx <= d2,
                dy * dy <= d2,
                d2 < (dist + 1) * (dist + 1),
                dist >= 0,
        ;
        let s = radius - dist;
        assert(-(dist * s) <= dx * s <= dist * s && -(dist * s) <= dy * s <= dist * s) by (
        nonlinear_arith)
            requires
                -dist <= dx <= dist,
                -dist <= dy <= dist,
                s >= 0,
        ;
        lemma_scaled_delta_window(dx * s, dist, s);
        lemma_scaled_delta_window(dy * s, dist, s);
    }
}

/// A numerator within `dist·s` floor-divides by `dist` into `[-s, s]`.
proof fn lemma_scaled_delta_window(num: int, dist: int, s: int)
    requires
        dist >= 1,
        s >= 0,
        -(dist * s) <= num <= dist * s,
    ensures
        -s <= num / dist <= s,
{
    vstd::arithmetic::div_mod::lemma_div_is_ordered(-(dist * s), num, dist);
    vstd::arithmetic::div_mod::lemma_div_is_ordered(num, dist * s, dist);
    vstd::arithmetic::div_mod::lemma_div_multiples_vanish(s, dist);
    vstd::arithmetic::div_mod::lemma_div_multiples_vanish(-s, dist);
    assert(dist * s == s * dist && -(dist * s) == dist * -s && dist * -s == -s * dist) by (
    nonlinear_arith);
}

/// Products formed by the wall test stay representable when deltas and
/// the radius lie within twice the coordinate window.
proof fn lemma_delta_products(dx: int, dy: int, radius: int)
    requires
        -2_000_000_000 <= dx <= 2_000_000_000,
        -2_000_000_000 <= dy <= 2_000_000_000,
        0 <= radius <= 1_000_000_000,
    ensures
        0 <= dx * dx <= 4_000_000_000_000_000_000,
        0 <= dy * dy <= 4_000_000_000_000_000_000,
        0 <= radius * radius <= 1_000_000_000_000_000_000,
        -4_000_000_000_000_000_000 <= dx * radius <= 4_000_000_000_000_000_000,
        -4_000_000_000_000_000_000 <= dy * radius <= 4_000_000_000_000_000_000,
{
    assert(0 <= dx * dx <= 4_000_000_000_000_000_000 && 0 <= dy * dy
        <= 4_000_000_000_000_000_000 && 0 <= radius * radius <= 1_000_000_000_000_000_000
        && -4_000_000_000_000_000_000 <= dx * radius <= 4_000_000_000_000_000_000
        && -4_000_000_000_000_000_000 <= dy * radius <= 4_000_000_000_000_000_000) by (
    nonlinear_arith)
        requires
            -2_000_000_000 <= dx <= 2_000_000_000,
            -2_000_000_000 <= dy <= 2_000_000_000,
            0 <= radius <= 1_000_000_000,
    ;
}

/// Inside the hit branch the distance is positive and at most the radius,
/// and the scaled numerators stay representable.
proof fn lemma_dist_within_radius(d2: int, dist: int, radius: int, dx: int, dy: int)
    requires
        0 < d2,
        0 <= radius <= 1_000_000_000,
        d2 <= radius * radius,
        dist >= 0,
        dist * dist <= d2 < (dist + 1) * (dist + 1),
        -2_000_000_000 <= dx <= 2_000_000_000,
        -2_000_000_000 <= dy <= 2_000_000_000,
    ensures
        1 <= dist <= radius,
        0 <= radius - dist <= radius,
        -4_000_000_000_000_000_000 <= dx * (radius - dist) <= 4_000_000_000_000_000_000,
        -4_000_000_000_000_000_000 <= dy * (radius - dist) <= 4_000_000_000_000_000_000,
{
    if dist == 0 {
        assert((dist + 1) * (dist + 1) == 1) by (nonlinear_arith)
            requires
                dist == 0,
        ;
    }
    if dist > radius {
        assert(radius * radius < dist * dist) by (nonlinear_arith)
            requires
                0 <= radius,
                radius < dist,
        ;
    }
    assert(-4_000_000_000_000_000_000 <= dx * (radius - dist) <= 4_000_000_000_000_000_000
        && -4_000_000_000_000_000_000 <= dy * (radius - dist) <= 4_000_000_000_000_000_000) by (
    nonlinear_arith)
        requires
            0 <= radius - dist <= 1_000_000_000,
            -2_000_000_000 <= dx <= 2_000_000_000,
            -2_000_000_000 <= dy <= 2_000_000_000,
    ;
}

} // verus!
