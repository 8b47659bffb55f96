//! The dynamic side of the physics: ball kinematics (position, velocity,
//! size doubling as a health gauge) and the per-tick controller that
//! resolves accumulated wall contacts, applies thrust and decay, and
//! integrates the position.
//!
//! Scalars follow the crate-wide fixed-point convention: positions,
//! velocities and sizes are counted in thousandths of a world unit, and
//! tick-rate factors are counted in thousandths of a baseline tick.

use vstd::prelude::*;
use crate::physics::{rigid_bounce, rigid_bounce_spec, Collidable, CollisionInfo, SimpleCollidable};
use crate::resource::ResourceError;
use crate::vec2::{Vec2, default_vector2, norm_sqr_spec};
use crate::util::div_floor;

verus! {

/// Upper size bound acting as the ball's capacity gauge (34 units).
pub const BALL_CAPACITY: i64 = 34_000;

/// Size given to a freshly spawned ball (28 units).
pub const BALL_DEFAULT_SIZE: i64 = 28_000;

/// Squared-speed threshold beyond which extra damping applies
/// (22 square units per squared tick).
pub const TOO_MUCH_SPEED_SQR: i64 = 22_000_000;

/// A dynamic ball: position, velocity, and size. The size doubles as the
/// health/capacity gauge and as the literal collision diameter.
#[derive(Debug, Clone, Copy, PartialEq, Eq, Structural)]
pub struct Ball {
    pub pos: Vec2,
    pub vel: Vec2,
    pub size: i64,
}

/// `b` with its position replaced.
pub open spec fn ball_with_pos(b: Ball, p: Vec2) -> Ball {
    Ball { pos: p, vel: b.vel, size: b.size }
}

/// `b` with its velocity replaced.
pub open spec fn ball_with_vel(b: Ball, v: Vec2) -> Ball {
    Ball { pos: b.pos, vel: v, size: b.size }
}

/// `b` with its size replaced.
pub open spec fn ball_with_size(b: Ball, s: i64) -> Ball {
    Ball { pos: b.pos, vel: b.vel, size: s }
}

/// One velocity component after decay by `f` thousandths: the scaled-down
/// share is removed, rounding the share towards negative infinity.
pub open spec fn decay_comp_spec(x: int, f: int) -> int {
    x - (x * f) / 1000
}

/// A velocity after decay by `f` thousandths on both components.
pub open spec fn decay_spec(v: Vec2, f: int) -> Vec2 {
    Vec2 { x: decay_comp_spec(v.x as int, f) as i64, y: decay_comp_spec(v.y as int, f) as i64 }
}

/// One position component advanced by a velocity component over `f`
/// thousandths of a tick.
pub open spec fn advance_comp_spec(p: int, v: int, f: int) -> int {
    p + (v * f) / 1000
}

/// Decay moves a component towards zero and never past it, and the scaled
/// share stays representable.
proof fn lemma_decay_comp_bounds(x: int, f: int)
    requires
        0 <= f <= 1000,
        -0x2000_0000_0000_0 <= x <= 0x2000_0000_0000_0,
    ensures
        x >= 0 ==> 0 <= decay_comp_spec(x, f) <= x,
        x < 0 ==> x <= decay_comp_spec(x, f) <= 0,
        -0x8000_0000_0000_0000 <= x * f <= 0x7fff_ffff_ffff_ffff,
{
    assert(-0x8000_0000_0000_0000 <= x * f <= 0x7fff_ffff_ffff_ffff) by (nonlinear_arith)
        requires
            0 <= f <= 1000,
            -0x2000_0000_0000_0 <= x <= 0x2000_0000_0000_0,
    ;
    let s = (x * f) / 1000;
    if x >= 0 {
        assert(0 <= x * f <= x * 1000) by (nonlinear_arith)
            requires
                x >= 0,
                0 <= f <= 1000,
        ;
        vstd::arithmetic::div_mod::lemma_div_pos_is_pos(x * f, 1000);
        vstd::arithmetic::div_mod::lemma_div_is_ordered(x * f, x * 1000, 1000);
        vstd::arithmetic::div_mod::lemma_div_multiples_vanish(x, 1000);
        assert(x * 1000 == 1000 * x) by (nonlinear_arith);
    } else {
        assert(x * 1000 <= x * f <= 0) by (nonlinear_arith)
            requires
                x < 0,
                0 <= f <= 1000,
        ;
        vstd::arithmetic::div_mod::lemma_div_is_ordered(x * 1000, x * f, 1000);
        vstd::arithmetic::div_mod::lemma_div_is_ordered(x * f, 0, 1000);
        vstd::arithmetic::div_mod::lemma_div_multiples_vanish(x, 1000);
        assert(x * 1000 == 1000 * x) by (nonlinear_arith);
    }
}

impl Ball {
    /// The default spawn size.
    pub fn default_size() -> (r: i64)
        ensures
            r == BALL_DEFAULT_SIZE,
    {
        BALL_DEFAULT_SIZE
    }

    /// A ball at `position` with the given size and no velocity.
    pub fn new(position: Vec2, size: i64) -> (r: Ball)
        ensures
            r == (Ball { pos: position, vel: Vec2 { x: 0, y: 0 }, size: size }),
    {
        Ball { pos: position, vel: default_vector2(), size }
    }

    /// A ball at `pos` with the default spawn size.
    pub fn with_default_size(pos: Vec2) -> (r: Ball)
        ensures
            r == (Ball { pos: pos, vel: Vec2 { x: 0, y: 0 }, size: BALL_DEFAULT_SIZE }),
    {
        Ball::new(pos, BALL_DEFAULT_SIZE)
    }

    /// Current position.
    pub fn position(&self) -> (r: Vec2)
        ensures
            r == self.pos,
    {
        self.pos
    }

    /// Current velocity.
    pub fn velocity(&self) -> (r: Vec2)
        ensures
            r == self.vel,
    {
        self.vel
    }

    /// Moves the ball to `pos`.
    pub fn set_position(&mut self, pos: Vec2)
        ensures
            *final(self) == ball_with_pos(*old(self), pos),
    {
        self.pos = pos;
    }

    /// Translates the ball by `pos`.
    pub fn add_position(&mut self, pos: Vec2)
        requires
            i64::MIN <= old(self).pos.x + pos.x <= i64::MAX,
            i64::MIN <= old(self).pos.y + pos.y <= i64::MAX,
        ensures
            *final(self) == ball_with_pos(
                *old(self),
                Vec2 { x: (old(self).pos.x + pos.x) as i64, y: (old(self).pos.y + pos.y) as i64 },
            ),
    {
        self.pos = self.pos.add(pos);
    }

    /// Squared speed of the ball.
    pub fn speed_sqr(&self) -> (r: i64)
        requires
            self.vel.in_bounds(),
        ensures
            r == norm_sqr_spec(self.vel),
    {
        self.vel.norm_sqr()
    }

    /// Current size (diameter) of the ball.
    pub fn size(&self) -> (r: i64)
        ensures
            r == self.size,
    {
        self.size
    }

    /// The capacity gauge bound.
    pub fn capacity(&self) -> (r: i64)
        ensures
            r == BALL_CAPACITY,
    {
        BALL_CAPACITY
    }

    /// Adds an impulse to the velocity.
    pub fn thrust(&mut self, thrust: Vec2)
        requires
            i64::MIN <= old(self).vel.x + thrust.x <= i64::MAX,
            i64::MIN <= old(self).vel.y + thrust.y <= i64::MAX,
        ensures
            *final(self) == ball_with_vel(
                *old(self),
                Vec2 { x: (old(self).vel.x + thrust.x) as i64, y: (old(self).vel.y + thrust.y) as i64 },
            ),
    {
        self.vel = self.vel.add(thrust);
    }

    /// Removes `factor` thousandths of the velocity.
    pub fn decay_velocity(&mut self, factor: i64)
        requires
            0 <= factor <= 1000,
            -0x2000_0000_0000_0 <= old(self).vel.x <= 0x2000_0000_0000_0,
            -0x2000_0000_0000_0 <= old(self).vel.y <= 0x2000_0000_0000_0,
        ensures
            *final(self) == ball_with_vel(*old(self), decay_spec(old(self).vel, factor as int)),
            old(self).vel.x >= 0 ==> 0 <= final(self).vel.x <= old(self).vel.x,
            old(self).vel.x < 0 ==> old(self).vel.x <= final(self).vel.x <= 0,
            old(self).vel.y >= 0 ==> 0 <= final(self).vel.y <= old(self).vel.y,
            old(self).vel.y < 0 ==> old(self).vel.y <= final(self).vel.y <= 0,
    {
        proof {
            lemma_decay_comp_bounds(self.vel.x as int, factor as int);
            lemma_decay_comp_bounds(self.vel.y as int, factor as int);
        }
        let dx = div_floor(self.vel.x * factor, 1000);
        let dy = div_floor(self.vel.y * factor, 1000);
        self.vel = Vec2 { x: self.vel.x - dx, y: self.vel.y - dy };
    }

    /// Replaces the velocity.
    pub fn set_velocity(&mut self, velocity: Vec2)
        ensures
            *final(self) == ball_with_vel(*old(self), velocity),
    {
        self.vel = velocity;
    }

    /// Adds to the velocity.
    pub fn add_velocity(&mut self, velocity: Vec2)
        requires
            i64::MIN <= old(self).vel.x + velocity.x <= i64::MAX,
            i64::MIN <= old(self).vel.y + velocity.y <= i64::MAX,
        ensures
            *final(self) == ball_with_vel(
                *old(self),
                Vec2 {
                    x: (old(self).vel.x + velocity.x) as i64,
                    y: (old(self).vel.y + velocity.y) as i64,
                },
            ),
    {
        self.vel = self.vel.add(velocity);
    }

    /// Flips the horizontal velocity component.
    pub fn flip_vx(&mut self)
        requires
            old(self).vel.x > i64::MIN,
        ensures
            *final(self) == ball_with_vel(
                *old(self),
                Vec2 { x: (-old(self).vel.x) as i64, y: old(self).vel.y },
            ),
    {
        self.vel = Vec2 { x: -self.vel.x, y: self.vel.y };
    }

    /// Flips the vertical velocity component.
    pub fn flip_vy(&mut self)
        requires
            old(self).vel.y > i64::MIN,
        ensures
            *final(self) == ball_with_vel(
                *old(self),
                Vec2 { x: old(self).vel.x, y: (-old(self).vel.y) as i64 },
            ),
    {
        self.vel = Vec2 { x: self.vel.x, y: -self.vel.y };
    }

    /// Adds `size_delta` to the size, which never drops below zero.
    pub fn add_size(&mut self, size_delta: i64)
        requires
            i64::MIN <= old(self).size + size_delta <= i64::MAX,
        ensures
            *final(self) == ball_with_size(
                *old(self),
                if old(self).size + size_delta >= 0 {
                    (old(self).size + size_delta) as i64
                } else {
                    0
                },
            ),
    {
        let s = self.size + size_delta;
        self.size = if s >= 0 {
            s
        } else {
            0
        };
    }

    /// Whether the ball has died: its size has shrunk below 4 units or has
    /// been inflated past its capacity plus a 2-unit buffer.
    pub fn is_dead(&self) -> (r: bool)
        ensures
            r == (self.size < 4_000 || self.size > BALL_CAPACITY + 2_000),
    {
        self.size < 4_000 || self.size > BALL_CAPACITY + 2_000
    }

    /// Advances the position by the velocity over `factor` thousandths of
    /// a tick.
    pub fn update_position(&mut self, factor: i64)
        requires
            0 <= factor <= 100_000,
            -0x2000_0000_0000 <= old(self).vel.x <= 0x2000_0000_0000,
            -0x2000_0000_0000 <= old(self).vel.y <= 0x2000_0000_0000,
            -0x1000_0000_0000_0000 <= old(self).pos.x <= 0x1000_0000_0000_0000,
            -0x1000_0000_0000_0000 <= old(self).pos.y <= 0x1000_0000_0000_0000,
        ensures
            *final(self) == ball_with_pos(
                *old(self),
                Vec2 {
                    x: advance_comp_spec(old(self).pos.x as int, old(self).vel.x as int, factor as int) as i64,
                    y: advance_comp_spec(old(self).pos.y as int, old(self).vel.y as int, factor as int) as i64,
                },
            ),
            old(self).vel.x >= 0 ==> old(self).pos.x <= final(self).pos.x <= old(self).pos.x + 100
                * old(self).vel.x,
            old(self).vel.x < 0 ==> old(self).pos.x + 100 * old(self).vel.x <= final(self).pos.x
                <= old(self).pos.x,
            old(self).vel.y >= 0 ==> old(self).pos.y <= final(self).pos.y <= old(self).pos.y + 100
                * old(self).vel.y,
            old(self).vel.y < 0 ==> old(self).pos.y + 100 * old(self).vel.y <= final(self).pos.y
                <= old(self).pos.y,
    {
        proof {
            lemma_scaled_comp_bounds(self.vel.x as int, factor as int);
            lemma_scaled_comp_bounds(self.vel.y as int, factor as int);
        }
        let dx = div_floor(self.vel.x * factor, 1000);
        let dy = div_floor(self.vel.y * factor, 1000);
        self.pos = Vec2 { x: self.pos.x + dx, y: self.pos.y + dy };
    }

    /// Inflates the size to the full capacity.
    pub fn maximize_size(&mut self)
        ensures
            *final(self) == ball_with_size(*old(self), BALL_CAPACITY),
    {
        self.size = BALL_CAPACITY;
    }
}

/// The per-tick driver of a [`Ball`]: input-thrust flags, the accumulator
/// for wall contacts registered this tick, and the picked-up gem counter.
#[derive(Debug, Clone, Copy, PartialEq, Eq, Structural)]
pub struct BallController {
    pub ball: Ball,
    pub thrust_right: bool,
    pub thrust_left: bool,
    pub thrust_up: bool,
    pub thrust_down: bool,
    pub acc_overlaps: Vec2,
    pub num_overlaps: usize,
    pub num_gems: u32,
}

/// `c` with its ball replaced.
pub open spec fn ctrl_with_ball(c: BallController, b: Ball) -> BallController {
    BallController {
        ball: b,
        thrust_right: c.thrust_right,
        thrust_left: c.thrust_left,
        thrust_up: c.thrust_up,
        thrust_down: c.thrust_down,
        acc_overlaps: c.acc_overlaps,
        num_overlaps: c.num_overlaps,
        num_gems: c.num_gems,
    }
}

impl BallController {
    /// How many thrust directions are held at once.
    pub open spec fn effort_spec(self) -> int {
        (if self.thrust_right {
            1int
        } else {
            0int
        }) + (if self.thrust_left {
            1int
        } else {
            0int
        }) + (if self.thrust_up {
            1int
        } else {
            0int
        }) + (if self.thrust_down {
            1int
        } else {
            0int
        })
    }

    /// The average of the overlap vectors accumulated this tick
    /// (meaningful only while `num_overlaps > 0`).
    pub open spec fn avg_overlap_spec(self) -> Vec2 {
        Vec2 {
            x: (self.acc_overlaps.x as int / self.num_overlaps as int) as i64,
            y: (self.acc_overlaps.y as int / self.num_overlaps as int) as i64,
        }
    }

    /// The controller after pending wall contacts are resolved: the ball is
    /// pushed out by the averaged overlap, its velocity is reflected about
    /// that overlap and damped by six thousandths, and the accumulator is
    /// cleared. Without pending contacts nothing changes.
    pub open spec fn resolve_overlaps_spec(self) -> BallController {
        if self.num_overlaps == 0 {
            self
        } else {
            let avg = self.avg_overlap_spec();
            let moved = ball_with_pos(
                self.ball,
                Vec2 {
                    x: (self.ball.pos.x + avg.x) as i64,
                    y: (self.ball.pos.y + avg.y) as i64,
                },
            );
            let bounced = ball_with_vel(moved, rigid_bounce_spec(moved.vel, avg));
            let damped = ball_with_vel(bounced, decay_spec(bounced.vel, 6));
            BallController {
                ball: damped,
                thrust_right: self.thrust_right,
                thrust_left: self.thrust_left,
                thrust_up: self.thrust_up,
                thrust_down: self.thrust_down,
                acc_overlaps: Vec2 { x: 0, y: 0 },
                num_overlaps: 0,
                num_gems: self.num_gems,
            }
        }
    }

    /// The per-tick impulse added along each held direction over `f`
    /// thousandths of a tick (six hundredths of a unit per full tick).
    pub open spec fn thrust_force_spec(f: int) -> int {
        (60 * f) / 1000
    }

    /// The velocity after the held thrust directions are applied.
    pub open spec fn thrusted_vel_spec(self, f: int) -> Vec2 {
        let tf = Self::thrust_force_spec(f);
        Vec2 {
            x: (self.ball.vel.x + (if self.thrust_right {
                tf
            } else {
                0int
            }) - (if self.thrust_left {
                tf
            } else {
                0int
            })) as i64,
            y: (self.ball.vel.y - (if self.thrust_up {
                tf
            } else {
                0int
            }) + (if self.thrust_down {
                tf
            } else {
                0int
            })) as i64,
        }
    }

    /// The soft speed limiter: past the squared-speed threshold the
    /// velocity is damped by five thousandths.
    pub open spec fn capped_vel_spec(v: Vec2) -> Vec2 {
        if norm_sqr_spec(v) > TOO_MUCH_SPEED_SQR {
            decay_spec(v, 5)
        } else {
            v
        }
    }

    /// The whole tick: a dead ball is left alone; otherwise pending wall
    /// contacts are resolved, thrust is applied, excessive speed is damped,
    /// the position is integrated, and the size decays in proportion to the
    /// held directions.
    pub open spec fn update_spec(self, f: int) -> BallController {
        if self.ball.size < 4_000 || self.ball.size > BALL_CAPACITY + 2_000 {
            self
        } else {
            let c1 = self.resolve_overlaps_spec();
            let v1 = c1.thrusted_vel_spec(f);
            let v2 = Self::capped_vel_spec(v1);
            let p = Vec2 {
                x: advance_comp_spec(c1.ball.pos.x as int, v2.x as int, f) as i64,
                y: advance_comp_spec(c1.ball.pos.y as int, v2.y as int, f) as i64,
            };
            let shrink = (12 * self.effort_spec() * f) / 1000;
            let sz = if c1.ball.size - shrink >= 0 {
                (c1.ball.size - shrink) as i64
            } else {
                0
            };
            ctrl_with_ball(c1, Ball { pos: p, vel: v2, size: sz })
        }
    }

    /// The state windows within which one tick is free of overflow: the
    /// position within the representable window, the velocity and the
    /// per-contact average overlap within three hundred thousand units,
    /// and at most a million pending contacts.
    pub open spec fn tick_bounds(self) -> bool {
        &&& self.ball.pos.in_bounds()
        &&& -40_000_000 <= self.ball.vel.x <= 40_000_000
        &&& -40_000_000 <= self.ball.vel.y <= 40_000_000
        &&& 0 <= self.ball.size <= 1_000_000_000
        &&& self.num_overlaps <= 1_000_000
        &&& self.num_overlaps > 0 ==> {
            &&& -40_000_000 * (self.num_overlaps as int) <= self.acc_overlaps.x <= 40_000_000 * (
            self.num_overlaps as int)
            &&& -40_000_000 * (self.num_overlaps as int) <= self.acc_overlaps.y <= 40_000_000 * (
            self.num_overlaps as int)
        }
    }

    /// Runtime check for [`Self::tick_bounds`], for callers that must test
    /// the window before driving a tick.
    pub fn within_tick_bounds(&self) -> (r: bool)
        ensures
            r == self.tick_bounds(),
    {
        self.ball.pos.x >= -crate::vec2::MAX_COORD && self.ball.pos.x <= crate::vec2::MAX_COORD
            && self.ball.pos.y >= -crate::vec2::MAX_COORD && self.ball.pos.y
            <= crate::vec2::MAX_COORD && self.ball.vel.x >= -40_000_000 && self.ball.vel.x
            <= 40_000_000 && self.ball.vel.y >= -40_000_000 && self.ball.vel.y <= 40_000_000
            && self.ball.size >= 0 && self.ball.size <= 1_000_000_000 && self.num_overlaps
            <= 1_000_000 && (self.num_overlaps == 0 || (self.acc_overlaps.x >= -40_000_000 * (
        self.num_overlaps as i64) && self.acc_overlaps.x <= 40_000_000 * (self.num_overlaps as i64)
            && self.acc_overlaps.y >= -40_000_000 * (self.num_overlaps as i64)
            && self.acc_overlaps.y <= 40_000_000 * (self.num_overlaps as i64)))
    }

    /// Creates a new ball controller around `ball`, with no thrust held,
    /// an empty contact accumulator and no gems; it has nothing to acquire,
    /// so this always succeeds.
    pub fn new(ball: Ball) -> (r: Result<BallController, ResourceError>)
        ensures
            r matches Ok(c) && c == (BallController {
                ball: ball,
                thrust_right: false,
                thrust_left: false,
                thrust_up: false,
                thrust_down: false,
                acc_overlaps: Vec2 { x: 0, y: 0 },
                num_overlaps: 0,
                num_gems: 0,
            }),
    {
        Ok(
            BallController {
                ball,
                thrust_right: false,
                thrust_left: false,
                thrust_up: false,
                thrust_down: false,
                acc_overlaps: default_vector2(),
                num_overlaps: 0,
                num_gems: 0,
            },
        )
    }

    /// Sets whether rightward thrust is held.
    pub fn set_thrust_right(&mut self, on: bool)
        ensures
            *final(self) == (BallController { thrust_right: on, ..*old(self) }),
    {
        self.thrust_right = on;
    }

    /// Sets whether leftward thrust is held.
    pub fn set_thrust_left(&mut self, on: bool)
        ensures
            *final(self) == (BallController { thrust_left: on, ..*old(self) }),
    {
        self.thrust_left = on;
    }

    /// Sets whether upward thrust is held.
    pub fn set_thrust_up(&mut self, on: bool)
        ensures
            *final(self) == (BallController { thrust_up: on, ..*old(self) }),
    {
        self.thrust_up = on;
    }

    /// Sets whether downward thrust is held.
    pub fn set_thrust_down(&mut self, on: bool)
        ensures
            *final(self) == (BallController { thrust_down: on, ..*old(self) }),
    {
        self.thrust_down = on;
    }

    /// Drives one tick over `factor` thousandths of the baseline tick.
    #[verifier::rlimit(100)]
    pub fn update(&mut self, factor: i64)
        requires
            0 <= factor <= 100_000,
            old(self).tick_bounds(),
        ensures
            *final(self) == old(self).update_spec(factor as int),
            -200_000_000_000 <= final(self).ball.pos.x <= 200_000_000_000,
            -200_000_000_000 <= final(self).ball.pos.y <= 200_000_000_000,
    {
        if self.ball.is_dead() {
            return ;
        }
        if self.num_overlaps > 0 {
            let n = self.num_overlaps as i64;
            let ax = div_floor(self.acc_overlaps.x, n);
            let ay = div_floor(self.acc_overlaps.y, n);
            proof {
                lemma_avg_in_window(self.acc_overlaps.x as int, self.num_overlaps as int);
                lemma_avg_in_window(self.acc_overlaps.y as int, self.num_overlaps as int);
            }
            let avg = Vec2 { x: ax, y: ay };
            self.correct_and_rigid_bounce(avg);
            self.ball.decay_velocity(6);
            self.acc_overlaps = default_vector2();
            self.num_overlaps = 0;
        }
        let thrust_force: i64 = div_floor(60 * factor, 1000);
        let mut total_effort: i64 = 0;
        if self.thrust_right {
            self.ball.thrust(Vec2 { x: thrust_force, y: 0 });
            total_effort = total_effort + 1;
        }
        if self.thrust_left {
            self.ball.thrust(Vec2 { x: -thrust_force, y: 0 });
            total_effort = total_effort + 1;
        }
        if self.thrust_up {
            self.ball.thrust(Vec2 { x: 0, y: -thrust_force });
            total_effort = total_effort + 1;
        }
        if self.thrust_down {
            self.ball.thrust(Vec2 { x: 0, y: thrust_force });
            total_effort = total_effort + 1;
        }
        if self.ball.speed_sqr() > TOO_MUCH_SPEED_SQR {
            self.ball.decay_velocity(5);
        }
        self.ball.update_position(factor);
        proof {
            assert(0 <= 12 * total_effort * factor <= 4_800_000) by (nonlinear_arith)
                requires
                    0 <= total_effort <= 4,
                    0 <= factor <= 100_000,
            ;
        }
        let shrink = div_floor(12 * total_effort * factor, 1000);
        self.ball.add_size(-shrink);
    }

    /// Corrects the position by `overlap` and reflects the velocity
    /// about it.
    fn correct_and_rigid_bounce(&mut self, overlap: Vec2)
        requires
            -40_000_000 <= overlap.x <= 40_000_000,
            -40_000_000 <= overlap.y <= 40_000_000,
            -40_000_000 <= old(self).ball.vel.x <= 40_000_000,
            -40_000_000 <= old(self).ball.vel.y <= 40_000_000,
            i64::MIN <= old(self).ball.pos.x + overlap.x <= i64::MAX,
            i64::MIN <= old(self).ball.pos.y + overlap.y <= i64::MAX,
        ensures
            *final(self) == ctrl_with_ball(
                *old(self),
                Ball {
                    pos: Vec2 {
                        x: (old(self).ball.pos.x + overlap.x) as i64,
                        y: (old(self).ball.pos.y + overlap.y) as i64,
                    },
                    vel: rigid_bounce_spec(old(self).ball.vel, overlap),
                    size: old(self).ball.size,
                },
            ),
            -180_000_000 <= final(self).ball.vel.x <= 180_000_000,
            -180_000_000 <= final(self).ball.vel.y <= 180_000_000,
    {
        self.ball.add_position(overlap);
        let vel = self.ball.velocity();
        let nv = rigid_bounce(vel, overlap);
        self.ball.set_velocity(nv);
    }
}

impl BallController {
    /// Current ball position.
    pub fn position(&self) -> (r: Vec2)
        ensures
            r == self.ball.pos,
    {
        self.ball.position()
    }

    /// Current ball size.
    pub fn size(&self) -> (r: i64)
        ensures
            r == self.ball.size,
    {
        self.ball.size()
    }

    /// Moves the ball to `pos`.
    pub fn set_position(&mut self, pos: Vec2)
        ensures
            *final(self) == ctrl_with_ball(*old(self), ball_with_pos(old(self).ball, pos)),
    {
        self.ball.set_position(pos)
    }

    /// Translates the ball by `pos`.
    pub fn add_position(&mut self, pos: Vec2)
        requires
            i64::MIN <= old(self).ball.pos.x + pos.x <= i64::MAX,
            i64::MIN <= old(self).ball.pos.y + pos.y <= i64::MAX,
        ensures
            *final(self) == ctrl_with_ball(
                *old(self),
                ball_with_pos(
                    old(self).ball,
                    Vec2 {
                        x: (old(self).ball.pos.x + pos.x) as i64,
                        y: (old(self).ball.pos.y + pos.y) as i64,
                    },
                ),
            ),
    {
        self.ball.add_position(pos)
    }

    /// Current ball velocity.
    pub fn velocity(&self) -> (r: Vec2)
        ensures
            r == self.ball.vel,
    {
        self.ball.velocity()
    }

    /// Replaces the ball's velocity.
    pub fn set_velocity(&mut self, velocity: Vec2)
        ensures
            *final(self) == ctrl_with_ball(*old(self), ball_with_vel(old(self).ball, velocity)),
    {
        self.ball.set_velocity(velocity)
    }

    /// Adds to the ball's velocity.
    pub fn add_velocity(&mut self, extra_velocity: Vec2)
        requires
            i64::MIN <= old(self).ball.vel.x + extra_velocity.x <= i64::MAX,
            i64::MIN <= old(self).ball.vel.y + extra_velocity.y <= i64::MAX,
        ensures
            *final(self) == ctrl_with_ball(
                *old(self),
                ball_with_vel(
                    old(self).ball,
                    Vec2 {
                        x: (old(self).ball.vel.x + extra_velocity.x) as i64,
                        y: (old(self).ball.vel.y + extra_velocity.y) as i64,
                    },
                ),
            ),
    {
        self.ball.add_velocity(extra_velocity)
    }

    /// Adds `extra_size` to the ball's size, which never drops below zero.
    pub fn add_size(&mut self, extra_size: i64)
        requires
            i64::MIN <= old(self).ball.size + extra_size <= i64::MAX,
        ensures
            *final(self) == ctrl_with_ball(
                *old(self),
                ball_with_size(
                    old(self).ball,
                    if old(self).ball.size + extra_size >= 0 {
                        (old(self).ball.size + extra_size) as i64
                    } else {
                        0
                    },
                ),
            ),
    {
        self.ball.add_size(extra_size)
    }

    /// Whether the ball has died.
    pub fn is_dead(&self) -> (r: bool)
        ensures
            r == (self.ball.size < 4_000 || self.ball.size > BALL_CAPACITY + 2_000),
    {
        self.ball.is_dead()
    }

    /// Registers a wall contact for batched resolution on the next tick:
    /// the overlap joins the accumulator instead of bouncing at once.
    pub fn issue_bounce(&mut self, overlap: Vec2)
        requires
            i64::MIN <= old(self).acc_overlaps.x + overlap.x <= i64::MAX,
            i64::MIN <= old(self).acc_overlaps.y + overlap.y <= i64::MAX,
            old(self).num_overlaps < usize::MAX,
        ensures
            *final(self) == (BallController {
                acc_overlaps: Vec2 {
                    x: (old(self).acc_overlaps.x + overlap.x) as i64,
                    y: (old(self).acc_overlaps.y + overlap.y) as i64,
                },
                num_overlaps: (old(self).num_overlaps + 1) as usize,
                ..*old(self)
            }),
    {
        self.acc_overlaps = self.acc_overlaps.add(overlap);
        self.num_overlaps = self.num_overlaps + 1;
    }

    /// Corrects the position on the horizontal axis and bounces off a
    /// vertical surface by flipping the horizontal velocity.
    pub fn correct_and_flip_x(&mut self, overlap: i64)
        requires
            i64::MIN <= old(self).ball.pos.x + overlap <= i64::MAX,
            old(self).ball.vel.x > i64::MIN,
        ensures
            *final(self) == ctrl_with_ball(
                *old(self),
                Ball {
                    pos: Vec2 {
                        x: (old(self).ball.pos.x + overlap) as i64,
                        y: old(self).ball.pos.y,
                    },
                    vel: Vec2 { x: (-old(self).ball.vel.x) as i64, y: old(self).ball.vel.y },
                    size: old(self).ball.size,
                },
            ),
    {
        self.ball.add_position(Vec2 { x: overlap, y: 0 });
        self.ball.flip_vx();
    }

    /// Corrects the position on the vertical axis and bounces off a
    /// horizontal surface by flipping the vertical velocity.
    pub fn correct_and_flip_y(&mut self, overlap: i64)
        requires
            i64::MIN <= old(self).ball.pos.y + overlap <= i64::MAX,
            old(self).ball.vel.y > i64::MIN,
        ensures
            *final(self) == ctrl_with_ball(
                *old(self),
                Ball {
                    pos: Vec2 {
                        x: old(self).ball.pos.x,
                        y: (old(self).ball.pos.y + overlap) as i64,
                    },
                    vel: Vec2 { x: old(self).ball.vel.x, y: (-old(self).ball.vel.y) as i64 },
                    size: old(self).ball.size,
                },
            ),
    {
        self.ball.add_position(Vec2 { x: 0, y: overlap });
        self.ball.flip_vy();
    }

    /// Shrinks the ball by `dmg`.
    pub fn damage(&mut self, dmg: i64)
        requires
            dmg > i64::MIN,
            i64::MIN <= old(self).ball.size - dmg <= i64::MAX,
        ensures
            *final(self) == ctrl_with_ball(
                *old(self),
                ball_with_size(
                    old(self).ball,
                    if old(self).ball.size - dmg >= 0 {
                        (old(self).ball.size - dmg) as i64
                    } else {
                        0
                    },
                ),
            ),
    {
        self.ball.add_size(-dmg)
    }

    /// Grows the ball by `health`.
    pub fn heal(&mut self, health: i64)
        requires
            i64::MIN <= old(self).ball.size + health <= i64::MAX,
            health >= 0,
        ensures
            *final(self) == ctrl_with_ball(
                *old(self),
                ball_with_size(
                    old(self).ball,
                    if old(self).ball.size + health >= 0 {
                        (old(self).ball.size + health) as i64
                    } else {
                        0
                    },
                ),
            ),
    {
        self.ball.add_size(health)
    }

    /// Records a picked-up item.
    pub fn pick_up(&mut self, item: ())
        requires
            old(self).num_gems < u32::MAX,
        ensures
            *final(self) == (BallController { num_gems: (old(self).num_gems + 1) as u32, ..*old(self) }),
    {
        let _ = item;
        self.num_gems = self.num_gems + 1;
    }

    /// How many items the ball has picked up.
    pub fn items(&self) -> (r: u32)
        ensures
            r == self.num_gems,
    {
        self.num_gems
    }
}

/// The collision-test radius of the controller's ball: half its size.
pub open spec fn ball_radius_spec(c: BallController) -> i64 {
    (c.ball.size as int / 2) as i64
}

impl BallController {
    /// Tests the ball against a collidable object and, on a hit, runs the
    /// object's contact effect with the reported overlap.
    pub fn handle_collision_with<T: Collidable>(&mut self, object: &mut T)
        requires
            old(self).ball.size >= 0,
            old(object).collide_req(old(self).ball.pos, ball_radius_spec(*old(self))),
            old(object).collide_spec(old(self).ball.pos, ball_radius_spec(*old(self))) matches
                CollisionInfo::Yes(o) ==> old(object).on_collision_req(*old(self), o),
        ensures
            match old(object).collide_spec(old(self).ball.pos, ball_radius_spec(*old(self))) {
                CollisionInfo::Yes(o) => (*final(object), *final(self)) == old(
                    object,
                ).on_collision_spec(*old(self), o),
                CollisionInfo::No => *final(object) == *old(object) && *final(self) == *old(self),
            },
    {
        let radius = self.ball.size() / 2;
        let collision = object.test_circle_collision(self.ball.position(), radius);
        if let CollisionInfo::Yes(overlap) = collision {
            object.on_collision(self, overlap);
        }
    }

    /// Tests the ball against a simple collidable object and, on contact,
    /// runs the object's direct effect.
    pub fn handle_simple_collision_with<T: SimpleCollidable>(&mut self, object: &mut T)
        requires
            old(self).ball.size >= 0,
            old(object).simple_collide_req(old(self).ball.pos, ball_radius_spec(*old(self))),
            old(object).simple_collide_spec(old(self).ball.pos, ball_radius_spec(*old(self)))
                ==> old(object).on_simple_req(*old(self)),
        ensures
            if old(object).simple_collide_spec(old(self).ball.pos, ball_radius_spec(*old(self))) {
                (*final(object), *final(self)) == old(object).on_simple_spec(*old(self))
            } else {
                *final(object) == *old(object) && *final(self) == *old(self)
            },
    {
        let radius = self.ball.size() / 2;
        if object.test_circle_collision_simple(self.ball.position(), radius) {
            object.on_collision_simple(self);
        }
    }
}

/// An average of values from a symmetric window stays in the window.
proof fn lemma_avg_in_window(acc: int, n: int)
    requires
        0 < n,
        -40_000_000 * n <= acc <= 40_000_000 * n,
    ensures
        -40_000_000 <= acc / n <= 40_000_000,
{
    vstd::arithmetic::div_mod::lemma_div_is_ordered(-40_000_000 * n, acc, n);
    vstd::arithmetic::div_mod::lemma_div_is_ordered(acc, 40_000_000 * n, n);
    vstd::arithmetic::div_mod::lemma_div_multiples_vanish(40_000_000, n);
    vstd::arithmetic::div_mod::lemma_div_multiples_vanish(-40_000_000, n);
    assert(40_000_000 * n == n * 40_000_000) by (nonlinear_arith);
    assert(-40_000_000 * n == n * -40_000_000) by (nonlinear_arith);
}

/// A velocity share scaled by up to a hundred ticks stays within a window
/// proportional to the component itself.
proof fn lemma_scaled_comp_bounds(v: int, f: int)
    requires
        0 <= f <= 100_000,
        -0x2000_0000_0000 <= v <= 0x2000_0000_0000,
    ensures
        -0x8000_0000_0000_0000 <= v * f <= 0x7fff_ffff_ffff_ffff,
        v >= 0 ==> 0 <= (v * f) / 1000 <= v * 100,
        v < 0 ==> v * 100 <= (v * f) / 1000 <= 0,
{
    assert(-0x8000_0000_0000_0000 <= v * f <= 0x7fff_ffff_ffff_ffff) by (nonlinear_arith)
        requires
            0 <= f <= 100_000,
            -0x2000_0000_0000 <= v <= 0x2000_0000_0000,
    ;
    if v >= 0 {
        assert(0 <= v * f <= v * 100_000) by (nonlinear_arith)
            requires
                v >= 0,
                0 <= f <= 100_000,
        ;
        vstd::arithmetic::div_mod::lemma_div_pos_is_pos(v * f, 1000);
        vstd::arithmetic::div_mod::lemma_div_is_ordered(v * f, v * 100_000, 1000);
        assert(v * 100_000 == 1000 * (v * 100)) by (nonlinear_arith);
        vstd::arithmetic::div_mod::lemma_div_multiples_vanish(v * 100, 1000);
    } else {
        assert(v * 100_000 <= v * f <= 0) by (nonlinear_arith)
            requires
                v < 0,
                0 <= f <= 100_000,
        ;
        vstd::arithmetic::div_mod::lemma_div_is_ordered(v * 100_000, v * f, 1000);
        vstd::arithmetic::div_mod::lemma_div_is_ordered(v * f, 0, 1000);
        assert(v * 100_000 == 1000 * (v * 100)) by (nonlinear_arith);
        vstd::arithmetic::div_mod::lemma_div_multiples_vanish(v * 100, 1000);
    }
}

} // verus!
