//! The 2-component integer vector used for positions, velocities, dimensions
//! and overlap deltas. Components are fixed-point values counted in
//! thousandths of a world unit.

use vstd::prelude::*;

verus! {

/// Largest magnitude a coordinate may take while every product formed by the
/// physics (dot products, squared norms, reflection terms) still fits in
/// an `i64`.
pub const MAX_COORD: i64 = 1_000_000_000;

/// A 2D vector of fixed-point coordinates.
#[derive(Clone, Copy, Debug, PartialEq, Eq, Structural)]
pub struct Vec2 {
    pub x: i64,
    pub y: i64,
}

/// The zero vector, the default for positions and velocities.
pub fn default_vector2() -> (r: Vec2)
    ensures
        r == (Vec2 { x: 0, y: 0 }),
{
    Vec2 { x: 0, y: 0 }
}

/// Mathematical dot product of two vectors.
pub open spec fn dot_spec(a: Vec2, b: Vec2) -> int {
    a.x * b.x + a.y * b.y
}

/// Mathematical squared norm of a vector.
pub open spec fn norm_sqr_spec(a: Vec2) -> int {
    dot_spec(a, a)
}

impl Vec2 {
    /// Both coordinates lie within the representable window.
    pub open spec fn in_bounds(self) -> bool {
        -MAX_COORD <= self.x <= MAX_COORD && -MAX_COORD <= self.y <= MAX_COORD
    }

    /// Builds a vector from its two coordinates.
    pub fn new(x: i64, y: i64) -> (r: Vec2)
        ensures
            r == (Vec2 { x: x, y: y }),
    {
        Vec2 { x, y }
    }

    /// Componentwise sum.
    pub fn add(self, o: Vec2) -> (r: Vec2)
        requires
            i64::MIN <= self.x + o.x <= i64::MAX,
            i64::MIN <= self.y + o.y <= i64::MAX,
        ensures
            r.x == self.x + o.x,
            r.y == self.y + o.y,
    {
        Vec2 { x: self.x + o.x, y: self.y + o.y }
    }

    /// Componentwise difference.
    pub fn sub(self, o: Vec2) -> (r: Vec2)
        requires
            i64::MIN <= self.x - o.x <= i64::MAX,
            i64::MIN <= self.y - o.y <= i64::MAX,
        ensures
            r.x == self.x - o.x,
            r.y == self.y - o.y,
    {
        Vec2 { x: self.x - o.x, y: self.y - o.y }
    }

    /// Componentwise negation.
    pub fn neg(self) -> (r: Vec2)
        requires
            self.x > i64::MIN,
            self.y > i64::MIN,
        ensures
            r.x == -self.x,
            r.y == -self.y,
    {
        Vec2 { x: -self.x, y: -self.y }
    }

    /// Dot product with another vector.
    pub fn dot(self, o: Vec2) -> (r: i64)
        requires
            self.in_bounds(),
            o.in_bounds(),
        ensures
            r == dot_spec(self, o),
    {
        proof {
            lemma_products_bounded(self, o);
        }
        self.x * o.x + self.y * o.y
    }

    /// Squared norm (squared length) of the vector.
    pub fn norm_sqr(self) -> (r: i64)
        requires
            self.in_bounds(),
        ensures
            r == norm_sqr_spec(self),
            r >= 0,
    {
        proof {
            lemma_products_bounded(self, self);
            lemma_norm_sqr_nonneg(self);
        }
        self.x * self.x + self.y * self.y
    }
}

/// For vectors within the coordinate window, each product of coordinates
/// stays within one quintillion, so dot products cannot overflow.
proof fn lemma_products_bounded(a: Vec2, b: Vec2)
    requires
        a.in_bounds(),
        b.in_bounds(),
    ensures
        -0x0DE0_B6B3_A764_0000 <= a.x * b.x <= 0x0DE0_B6B3_A764_0000,
        -0x0DE0_B6B3_A764_0000 <= a.y * b.y <= 0x0DE0_B6B3_A764_0000,
{
    assert(-0x0DE0_B6B3_A764_0000 <= a.x * b.x <= 0x0DE0_B6B3_A764_0000) by (nonlinear_arith)
        requires
            -1_000_000_000 <= a.x <= 1_000_000_000,
            -1_000_000_000 <= b.x <= 1_000_000_000,
    ;
    assert(-0x0DE0_B6B3_A764_0000 <= a.y * b.y <= 0x0DE0_B6B3_A764_0000) by (nonlinear_arith)
        requires
            -1_000_000_000 <= a.y <= 1_000_000_000,
            -1_000_000_000 <= b.y <= 1_000_000_000,
    ;
}

/// A squared norm is a sum of squares and therefore nonnegative.
pub proof fn lemma_norm_sqr_nonneg(a: Vec2)
    ensures
        norm_sqr_spec(a) >= 0,
{
    assert(a.x * a.x >= 0) by (nonlinear_arith);
    assert(a.y * a.y >= 0) by (nonlinear_arith);
}

} // verus!
