//! Fixed-point scale, shared constants, and small verified arithmetic
//! helpers used throughout the crate.

use vstd::prelude::*;

verus! {

/// One whole unit of any physical quantity: values count millionths.
pub const MICRO: i64 = 1_000_000;

/// The circle constant scaled by `MICRO`, rounded to nearest.
pub const PI_MICRO: i64 = 3_141_593;

/// Extruder screw displacement, millionths of cm^3 per revolution (0.5).
pub const SCREW_DISPLACEMENT_MICRO: i64 = 500_000;

/// Filament density, millionths of g/cm^3 (1.25); reserved for a future
/// mass-flow extension and not used by the current control loop.
pub const FILAMENT_DENSITY_MICRO: i64 = 1_250_000;

/// Largest admitted filament diameter, micro-millimetres (100 mm);
/// keeps the flow formulas inside `i64`.
pub const DIAMETER_MAX: i64 = 100_000_000;

/// Quotient of `a / b` for positive `b`, truncated toward zero as Rust's
/// integer division truncates.  For non-negative `a` this coincides with
/// the Euclidean quotient.
pub open spec fn qdiv(a: int, b: int) -> int {
    if a >= 0 {
        a / b
    } else {
        -((-a) / b)
    }
}

/// `x` forced into `[lo, hi]`.
pub open spec fn clamp_spec(x: int, lo: int, hi: int) -> int {
    if x < lo {
        lo
    } else if x > hi {
        hi
    } else {
        x
    }
}

/// Magnitude of `x`.
pub open spec fn abs_spec(x: int) -> int {
    if x >= 0 {
        x
    } else {
        -x
    }
}

/// Truncating division of a signed value by a positive divisor.
pub fn div_tz(a: i64, b: i64) -> (q: i64)
    requires
        0 < b,
        i64::MIN < a,
    ensures
        q == qdiv(a as int, b as int),
        abs_spec(q as int) <= abs_spec(a as int),
{
    if a >= 0 {
        let q: u64 = (a as u64) / (b as u64);
        q as i64
    } else {
        let n: u64 = (-a) as u64;
        let q: u64 = n / (b as u64);
        -(q as i64)
    }
}

/// `x` forced into `[lo, hi]`.
pub fn clamp_i64(x: i64, lo: i64, hi: i64) -> (r: i64)
    requires
        lo <= hi,
    ensures
        r == clamp_spec(x as int, lo as int, hi as int),
        lo <= r <= hi,
{
    if x < lo {
        lo
    } else if x > hi {
        hi
    } else {
        x
    }
}

/// Magnitude of a signed value.
pub fn abs_i64(x: i64) -> (r: i64)
    requires
        i64::MIN < x,
    ensures
        r == abs_spec(x as int),
{
    if x >= 0 {
        x
    } else {
        -x
    }
}

/// Floor of the square root of a non-negative `x`; zero on negatives.
pub open spec fn sqrt_floor(x: int) -> int
    decreases x,
{
    if x < 1 {
        0
    } else {
        let p = sqrt_floor(x - 1);
        if (p + 1) * (p + 1) <= x {
            p + 1
        } else {
            p
        }
    }
}

/// `sqrt_floor(x)` is the integer whose square brackets `x`.
pub proof fn lemma_sqrt_floor_bounds(x: int)
    requires
        0 <= x,
    ensures
        0 <= sqrt_floor(x),
        sqrt_floor(x) * sqrt_floor(x) <= x,
        x < (sqrt_floor(x) + 1) * (sqrt_floor(x) + 1),
    decreases x,
{
    if x >= 1 {
        lemma_sqrt_floor_bounds(x - 1);
        let p = sqrt_floor(x - 1);
        if (p + 1) * (p + 1) <= x {
            assert((p + 1) * (p + 1) < (p + 2) * (p + 2)) by (nonlinear_arith)
                requires
                    0 <= p,
            ;
            assert(x - 1 < (p + 1) * (p + 1));
        }
    }
}

/// Only one integer's square brackets `x`.
pub proof fn lemma_sqrt_floor_unique(x: int, r: int)
    requires
        0 <= x,
        0 <= r,
        r * r <= x,
        x < (r + 1) * (r + 1),
    ensures
        r == sqrt_floor(x),
{
    lemma_sqrt_floor_bounds(x);
    let q = sqrt_floor(x);
    if r < q {
        assert((r + 1) * (r + 1) <= q * q) by (nonlinear_arith)
            requires
                0 <= r,
                r < q,
        ;
        assert(false);
    } else if q < r {
        assert((q + 1) * (q + 1) <= r * r) by (nonlinear_arith)
            requires
                0 <= q,
                q < r,
        ;
        assert(false);
    }
}

/// Floor of the square root of `x`, by bisection.
pub fn isqrt_u64(x: u64) -> (r: u64)
    requires
        x <= 4_000_000_000_000_000_000,
    ensures
        r * r <= x,
        x < (r + 1) * (r + 1),
        r <= 2_000_000_000,
        r == sqrt_floor(x as int),
{
    let mut lo: u64 = 0;
    let mut hi: u64 = 2_000_000_001;
    proof {
        assert((2_000_000_001u64 * 2_000_000_001u64) as int > x as int) by (nonlinear_arith)
            requires
                x <= 4_000_000_000_000_000_000,
        ;
    }
    while lo + 1 < hi
        invariant
            lo < hi,
            hi <= 2_000_000_001,
            lo * lo <= x,
            x < hi * hi,
        decreases hi - lo,
    {
        let mid: u64 = lo + (hi - lo) / 2;
        proof {
            assert(mid * mid <= 2_000_000_001u64 * 2_000_000_001u64) by (nonlinear_arith)
                requires
                    mid <= 2_000_000_001u64,
            ;
        }
        if mid * mid <= x {
            lo = mid;
        } else {
            hi = mid;
        }
    }
    proof {
        lemma_sqrt_floor_unique(x as int, lo as int);
    }
    lo
}

} // verus!
