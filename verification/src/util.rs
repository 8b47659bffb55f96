//! Small arithmetic helpers shared by the physics, camera and editor code.

use vstd::prelude::*;

verus! {

/// Clamps `v` into the closed interval `[min, max]`.
pub fn clamp(v: i64, min: i64, max: i64) -> (r: i64)
    requires
        min <= max,
    ensures
        r == if v < min {
            min as int
        } else if v > max {
            max as int
        } else {
            v as int
        },
{
    if v < min {
        min
    } else if v > max {
        max
    } else {
        v
    }
}

/// Euclidean (floor) division by a positive divisor, also for negative
/// dividends; in contracts it is written with the `/` of specifications.
pub fn div_floor(a: i64, b: i64) -> (r: i64)
    requires
        0 < b,
        i64::MIN < a,
        a < 0 ==> -(a as int) + b - 1 <= i64::MAX,
    ensures
        r == a as int / b as int,
{
    if a >= 0 {
        a / b
    } else {
        let n = -a;
        let t = n + (b - 1);
        let q = t / b;
        proof {
            let s = t as int % b as int;
            vstd::arithmetic::div_mod::lemma_fundamental_div_mod(t as int, b as int);
            vstd::arithmetic::div_mod::lemma_mod_division_less_than_divisor(t as int, b as int);
            assert(a as int == (-(q as int)) * (b as int) + (b - 1 - s)) by (nonlinear_arith)
                requires
                    t as int == (b as int) * (q as int) + s,
                    a as int == -(n as int),
                    t as int == n as int + b as int - 1,
            ;
            vstd::arithmetic::div_mod::lemma_fundamental_div_mod_converse(
                a as int,
                b as int,
                -(q as int),
                b - 1 - s,
            );
        }
        -q
    }
}

/// Multiplying a floor quotient of a nonnegative number back by the divisor
/// stays below the number itself.
pub proof fn lemma_div_mul_le(t: int, m: int)
    requires
        t >= 0,
        m > 0,
    ensures
        0 <= (t / m) * m <= t,
{
    vstd::arithmetic::div_mod::lemma_fundamental_div_mod(t, m);
    vstd::arithmetic::div_mod::lemma_mod_division_less_than_divisor(t, m);
    vstd::arithmetic::div_mod::lemma_div_pos_is_pos(t, m);
    assert((t / m) * m == m * (t / m)) by (nonlinear_arith);
    assert(0 <= (t / m) * m) by (nonlinear_arith)
        requires
            t / m >= 0,
            m > 0,
    ;
}

/// Rounds `x` to the nearest multiple of `m`, halves away from zero,
/// as a specification value.
pub open spec fn round_mult_spec(x: int, m: int) -> int {
    if x >= 0 {
        ((x + m / 2) / m) * m
    } else {
        -(((-x + m / 2) / m) * m)
    }
}

/// Rounds `x` to the nearest multiple of the positive even step `m`,
/// halves away from zero.
pub fn round_mult(x: i64, m: i64) -> (r: i64)
    requires
        0 < m <= 0x1000_0000,
        m % 2 == 0,
        -0x1000_0000_0000_0000 <= x <= 0x1000_0000_0000_0000,
    ensures
        r == round_mult_spec(x as int, m as int),
{
    if x >= 0 {
        let t = x + m / 2;
        let q = t / m;
        proof {
            lemma_div_mul_le(t as int, m as int);
        }
        q * m
    } else {
        let n = -x;
        let t = n + m / 2;
        let q = t / m;
        proof {
            lemma_div_mul_le(t as int, m as int);
        }
        -(q * m)
    }
}

/// The lower bound wins over the upper one: `max(lo, min(hi, v))`, total
/// also when `lo > hi`.
pub open spec fn clamp_fold_spec(v: int, lo: int, hi: int) -> int {
    if (if v > hi {
        hi
    } else {
        v
    }) < lo {
        lo
    } else {
        if v > hi {
            hi
        } else {
            v
        }
    }
}

/// Clamps `v` to at most `hi`, then to at least `lo`; with `lo > hi` the
/// result is `lo`.
pub fn clamp_fold(v: i64, lo: i64, hi: i64) -> (r: i64)
    ensures
        r == clamp_fold_spec(v as int, lo as int, hi as int),
{
    let a = if v > hi {
        hi
    } else {
        v
    };
    if a < lo {
        lo
    } else {
        a
    }
}

/// Clamps `v` into `[lo, hi]` as a specification value.
pub open spec fn clamp_spec(v: int, lo: int, hi: int) -> int {
    if v < lo {
        lo
    } else if v > hi {
        hi
    } else {
        v
    }
}

/// Floor of the square root of a nonnegative number, as a specification
/// value.
pub open spec fn isqrt_spec(n: int) -> int
    decreases n,
{
    if n <= 0 {
        0
    } else {
        let r = isqrt_spec(n - 1);
        if (r + 1) * (r + 1) <= n {
            r + 1
        } else {
            r
        }
    }
}

/// The specification square root is squeezed between the neighbouring
/// squares.
pub proof fn lemma_isqrt_bounds(n: int)
    requires
        n >= 0,
    ensures
        isqrt_spec(n) >= 0,
        isqrt_spec(n) * isqrt_spec(n) <= n,
        n < (isqrt_spec(n) + 1) * (isqrt_spec(n) + 1),
    decreases n,
{
    if n == 0 {
    } else {
        lemma_isqrt_bounds(n - 1);
        let r = isqrt_spec(n - 1);
        if (r + 1) * (r + 1) <= n {
            assert(n - 1 < (r + 1) * (r + 1));
            assert(n == (r + 1) * (r + 1));
            assert((r + 1 + 1) * (r + 1 + 1) > (r + 1) * (r + 1)) by (nonlinear_arith)
                requires
                    r >= 0,
            ;
        } else {
        }
    }
}

/// Any value squeezed between the neighbouring squares is the
/// specification square root.
pub proof fn lemma_isqrt_unique(n: int, a: int)
    requires
        n >= 0,
        a >= 0,
        a * a <= n,
        n < (a + 1) * (a + 1),
    ensures
        a == isqrt_spec(n),
{
    lemma_isqrt_bounds(n);
    let s = isqrt_spec(n);
    if a < s {
        assert((a + 1) * (a + 1) <= s * s) by (nonlinear_arith)
            requires
                0 <= a,
                a < s,
        ;
    }
    if s < a {
        assert((s + 1) * (s + 1) <= a * a) by (nonlinear_arith)
            requires
                0 <= s,
                s < a,
        ;
    }
}

/// Floor of the square root of a nonnegative number.
pub fn isqrt(n: i64) -> (r: i64)
    requires
        0 <= n,
    ensures
        0 <= r,
        r * r <= n < (r + 1) * (r + 1),
        r == isqrt_spec(n as int),
{
    let mut lo: i64 = 0;
    let mut hi: i64 = 3_037_000_500;
    proof {
        assert((3_037_000_500 as int) * (3_037_000_500 as int) > i64::MAX as int)
            by (nonlinear_arith);
    }
    while hi - lo > 1
        invariant
            0 <= lo < hi <= 3_037_000_500,
            lo * lo <= n,
            n < hi * hi,
        decreases hi - lo,
    {
        let mid = lo + (hi - lo) / 2;
        assert(lo < mid < hi);
        assert(mid * mid < i64::MAX as int) by (nonlinear_arith)
            requires 0 < mid <= 3_037_000_499;
        if mid * mid <= n {
            lo = mid;
        } else {
            hi = mid;
        }
    }
    proof {
        lemma_isqrt_unique(n as int, lo as int);
    }
    lo
}

} // verus!
