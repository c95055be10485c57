//! Bidirectional map between linear and angular velocity for a drum of
//! known effective radius.

use vstd::prelude::*;
use crate::units::{MICRO, qdiv, abs_spec, div_tz};
use vstd::arithmetic::div_mod::{
    lemma_fundamental_div_mod,
    lemma_mod_division_less_than_divisor,
    lemma_div_is_ordered,
    lemma_div_plus_one,
    lemma_div_multiples_vanish,
    lemma_div_pos_is_pos,
};
use vstd::arithmetic::mul::lemma_mul_nonnegative;

verus! {

/// Largest admitted effective radius, micrometres (one metre).
pub const RADIUS_UM_MAX: i64 = 1_000_000;

/// Largest velocity magnitude a conversion admits.
pub const CONVERT_INPUT_MAX: i64 = 1_000_000_000_000;

/// Pure geometry converter: linear velocity in micro-(m/s) against
/// angular velocity in micro-(rad/s), over an effective drum radius in
/// micrometres.
#[derive(Debug, Clone, Copy)]
pub struct LinearRotaryConverter {
    radius_um: i64,
}

impl LinearRotaryConverter {
    /// Effective radius in micrometres.
    pub closed spec fn radius(&self) -> int {
        self.radius_um as int
    }

    /// A positive radius no larger than one metre.
    pub closed spec fn wf(&self) -> bool {
        0 < self.radius_um <= RADIUS_UM_MAX
    }

    pub fn new(radius_um: i64) -> (r: Self)
        requires
            0 < radius_um <= RADIUS_UM_MAX,
        ensures
            r.wf(),
            r.radius() == radius_um,
    {
        Self { radius_um }
    }

    /// Angular velocity of the drum for linear velocity `v`:
    /// `v / radius`, in micro-(rad/s).
    pub fn linear_to_angular(&self, v: i64) -> (w: i64)
        requires
            self.wf(),
            -CONVERT_INPUT_MAX <= v <= CONVERT_INPUT_MAX,
        ensures
            w == qdiv(v * MICRO, self.radius()),
    {
        proof {
            assert(v * MICRO <= 1_000_000_000_000_000_000 && v * MICRO
                >= -1_000_000_000_000_000_000) by (nonlinear_arith)
                requires
                    -CONVERT_INPUT_MAX <= v <= CONVERT_INPUT_MAX,
            ;
        }
        div_tz(v * MICRO, self.radius_um)
    }

    /// Linear velocity at the drum surface for angular velocity `w`:
    /// `w * radius`, in micro-(m/s).
    pub fn angular_to_linear(&self, w: i64) -> (v: i64)
        requires
            self.wf(),
            -CONVERT_INPUT_MAX <= w <= CONVERT_INPUT_MAX,
        ensures
            v == qdiv(w * self.radius(), MICRO as int),
    {
        proof {
            assert(w * self.radius_um <= 1_000_000_000_000_000_000 && w * self.radius_um
                >= -1_000_000_000_000_000_000) by (nonlinear_arith)
                requires
                    -CONVERT_INPUT_MAX <= w <= CONVERT_INPUT_MAX,
                    0 < self.radius_um <= RADIUS_UM_MAX,
            ;
        }
        div_tz(w * self.radius_um, MICRO)
    }
}

proof fn lemma_round_trip_nonneg(v: int, r: int)
    requires
        0 <= v,
        0 < r,
    ensures
        ({
            let w = (v * (MICRO as int)) / r;
            let v2 = (w * r) / (MICRO as int);
            0 <= v - v2 <= r / (MICRO as int) + 1
        }),
{
    let m = MICRO as int;
    let a = v * m;
    lemma_mul_nonnegative(v, m);
    let w = a / r;
    lemma_div_pos_is_pos(a, r);
    lemma_fundamental_div_mod(a, r);
    lemma_mod_division_less_than_divisor(a, r);
    assert(w * r == a - a % r) by (nonlinear_arith)
        requires
            a == r * w + a % r,
    ;
    let b = w * r;
    lemma_mul_nonnegative(w, r);
    let v2 = b / m;
    lemma_fundamental_div_mod(b, m);
    lemma_mod_division_less_than_divisor(b, m);
    assert(m * (v - v2) == a % r + b % m) by (nonlinear_arith)
        requires
            b == m * v2 + b % m,
            b == a - a % r,
            a == v * m,
    ;
    assert(0 <= v - v2) by (nonlinear_arith)
        requires
            m * (v - v2) == a % r + b % m,
            0 <= a % r,
            0 <= b % m,
            m > 0,
    ;
    assert(m * (v - v2) <= r + m - 2);
    lemma_div_multiples_vanish(v - v2, m);
    lemma_div_is_ordered(m * (v - v2), r + m - 2, m);
    lemma_div_is_ordered(r + m - 2, r + m, m);
    lemma_div_plus_one(r, m);
}

/// Round trip: converting a linear velocity to angular and back
/// returns it, short only of the fixed-point round-off of the two
/// truncating divisions — at most `radius / MICRO + 1` millionths of a
/// metre per second, in either direction of travel.
pub proof fn lemma_round_trip(c: LinearRotaryConverter, v: int)
    requires
        c.wf(),
        -CONVERT_INPUT_MAX <= v <= CONVERT_INPUT_MAX,
    ensures
        ({
            let w = qdiv(v * MICRO, c.radius());
            let v2 = qdiv(w * c.radius(), MICRO as int);
            abs_spec(v - v2) <= c.radius() / (MICRO as int) + 1
        }),
{
    let m = MICRO as int;
    let r = c.radius();
    if v >= 0 {
        lemma_round_trip_nonneg(v, r);
        lemma_mul_nonnegative(v, m);
        lemma_div_pos_is_pos(v * m, r);
        lemma_mul_nonnegative((v * m) / r, r);
    } else {
        let n = -v;
        lemma_round_trip_nonneg(n, r);
        lemma_mul_nonnegative(n, m);
        lemma_div_pos_is_pos(n * m, r);
        lemma_mul_nonnegative((n * m) / r, r);
        assert(v * m == -(n * m)) by (nonlinear_arith)
            requires
                n == -v,
        ;
        let w = qdiv(v * m, r);
        assert(w == -((n * m) / r));
        assert(w * r == -(((n * m) / r) * r)) by (nonlinear_arith)
            requires
                w == -((n * m) / r),
        ;
    }
}

} // verus!
