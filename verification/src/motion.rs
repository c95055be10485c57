//! Jerk-limited speed follower: an s-curve profile that chases a target
//! velocity while bounding velocity, acceleration, and jerk.

use vstd::prelude::*;
use crate::units::{MICRO, qdiv, clamp_spec, abs_spec, sqrt_floor, div_tz, clamp_i64, abs_i64, isqrt_u64};

verus! {

/// Largest admitted profile parameter (1000 whole units in micro).
pub const PROFILE_PARAM_MAX: i64 = 1_000_000_000;

/// Largest time step the profile integrates at once, microseconds;
/// a longer gap between ticks saturates to this.
pub const PROFILE_DT_MAX: i64 = 1_000_000_000;

/// The time step used for a tick at `t` after a tick at `last_t`:
/// zero on the first tick, never negative, capped at `PROFILE_DT_MAX`.
pub open spec fn profile_dt(last_t: Option<u64>, t: u64) -> int {
    match last_t {
        Option::None => 0,
        Option::Some(lt) => clamp_spec(t - lt, 0, PROFILE_DT_MAX as int),
    }
}

/// Largest change of acceleration allowed in a step of `dt`
/// microseconds under jerk limit `max_j`.
pub open spec fn accel_step(max_j: int, dt: int) -> int {
    qdiv(max_j * dt, MICRO as int)
}

/// `current` moved toward `target` by at most `step`.
pub open spec fn step_toward(current: int, target: int, step: int) -> int {
    current + clamp_spec(target - current, -step, step)
}

/// Jerk-limited velocity follower.  All quantities are micro
/// fixed-point: velocity in millionths of a unit per second,
/// acceleration per second squared, jerk per second cubed; time in
/// microseconds.
#[derive(Debug)]
pub struct MotionProfile {
    max_v: i64,
    max_a: i64,
    max_j: i64,
    current_v: i64,
    current_a: i64,
    last_t: Option<u64>,
}

impl MotionProfile {
    pub closed spec fn vmax(&self) -> int {
        self.max_v as int
    }

    pub closed spec fn amax(&self) -> int {
        self.max_a as int
    }

    pub closed spec fn jmax(&self) -> int {
        self.max_j as int
    }

    pub closed spec fn velocity(&self) -> int {
        self.current_v as int
    }

    pub closed spec fn accel(&self) -> int {
        self.current_a as int
    }

    pub closed spec fn last_tick(&self) -> Option<u64> {
        self.last_t
    }

    /// Positive bounded limits; velocity and acceleration within them.
    pub closed spec fn wf(&self) -> bool {
        &&& 0 < self.max_v <= PROFILE_PARAM_MAX
        &&& 0 < self.max_a <= PROFILE_PARAM_MAX
        &&& 0 < self.max_j <= PROFILE_PARAM_MAX
        &&& -self.max_v <= self.current_v <= self.max_v
        &&& -self.max_a <= self.current_a <= self.max_a
    }

    /// A profile at rest with the given limits.
    pub fn new(max_v: i64, max_a: i64, max_j: i64) -> (r: Self)
        requires
            0 < max_v <= PROFILE_PARAM_MAX,
            0 < max_a <= PROFILE_PARAM_MAX,
            0 < max_j <= PROFILE_PARAM_MAX,
        ensures
            r.wf(),
            r.vmax() == max_v,
            r.amax() == max_a,
            r.jmax() == max_j,
            r.velocity() == 0,
            r.accel() == 0,
            r.last_tick() is None,
    {
        Self { max_v, max_a, max_j, current_v: 0, current_a: 0, last_t: None }
    }

    /// One step of the pre- and post-state relation of `update`: the
    /// target acceleration closes the velocity gap at the rate an
    /// s-curve can still wind down from (the square root of twice the
    /// jerk limit times the gap), acceleration moves toward it by at
    /// most the jerk limit times the step, and velocity integrates the
    /// new acceleration, clamped to the speed limit.
    pub open spec fn step_matches(
        pre: MotionProfile,
        post: MotionProfile,
        target: int,
        t: u64,
    ) -> bool {
        let dt = profile_dt(pre.last_tick(), t);
        let tgt = clamp_spec(target, -pre.vmax(), pre.vmax());
        let dv = tgt - pre.velocity();
        let s = sqrt_floor(2 * pre.jmax() * abs_spec(dv));
        let a_goal = if dv >= 0 {
            if s <= pre.amax() {
                s
            } else {
                pre.amax()
            }
        } else {
            if s <= pre.amax() {
                -s
            } else {
                -pre.amax()
            }
        };
        &&& post.accel() == step_toward(pre.accel(), a_goal, accel_step(pre.jmax(), dt))
        &&& post.velocity() == clamp_spec(
            pre.velocity() + qdiv(post.accel() * dt, MICRO as int),
            -pre.vmax(),
            pre.vmax(),
        )
        &&& post.vmax() == pre.vmax()
        &&& post.amax() == pre.amax()
        &&& post.jmax() == pre.jmax()
        &&& post.last_tick() == Some(t)
    }

    /// Advance to time `t` chasing terminal velocity `target`.
    /// A target beyond the speed limit is chased only to the limit.
    /// The returned velocity stays within the speed limit, the
    /// acceleration within its limit, and the acceleration change
    /// within the jerk limit times the elapsed step.
    pub fn update(&mut self, target: i64, t: u64) -> (v: i64)
        requires
            old(self).wf(),
            i64::MIN < target,
        ensures
            final(self).wf(),
            v == final(self).velocity(),
            Self::step_matches(*old(self), *final(self), target as int, t),
            abs_spec(final(self).velocity()) <= old(self).vmax(),
            abs_spec(final(self).accel()) <= old(self).amax(),
            abs_spec(final(self).accel() - old(self).accel()) <= accel_step(
                old(self).jmax(),
                profile_dt(old(self).last_tick(), t),
            ),
    {
        let dt: i64 = match self.last_t {
            None => 0,
            Some(lt) => {
                if t <= lt {
                    0
                } else if t - lt > 1_000_000_000 {
                    1_000_000_000
                } else {
                    (t - lt) as i64
                }
            },
        };
        let tgt = clamp_i64(target, -self.max_v, self.max_v);
        let dv = tgt - self.current_v;
        let dv_abs = abs_i64(dv);
        proof {
            assert(2 * self.max_j * dv_abs <= 4_000_000_000_000_000_000) by (nonlinear_arith)
                requires
                    0 < self.max_j <= PROFILE_PARAM_MAX,
                    0 <= dv_abs <= 2 * PROFILE_PARAM_MAX,
            ;
            assert(2 * self.max_j * dv_abs >= 0) by (nonlinear_arith)
                requires
                    0 < self.max_j,
                    0 <= dv_abs,
            ;
        }
        let s_root = isqrt_u64((2 * self.max_j * dv_abs) as u64);
        let s = s_root as i64;
        let a_goal: i64 = if dv >= 0 {
            if s <= self.max_a {
                s
            } else {
                self.max_a
            }
        } else {
            if s <= self.max_a {
                -s
            } else {
                -self.max_a
            }
        };
        proof {
            assert(self.max_j * dt <= 1_000_000_000_000_000_000 && self.max_j * dt >= 0)
                by (nonlinear_arith)
                requires
                    0 < self.max_j <= PROFILE_PARAM_MAX,
                    0 <= dt <= PROFILE_DT_MAX,
            ;
        }
        let astep = div_tz(self.max_j * dt, MICRO);
        let a_new = self.current_a + clamp_i64(a_goal - self.current_a, -astep, astep);
        proof {
            assert(a_new * dt <= 2_000_000_000_000_000_000 && a_new * dt
                >= -2_000_000_000_000_000_000) by (nonlinear_arith)
                requires
                    -2 * PROFILE_PARAM_MAX <= a_new <= 2 * PROFILE_PARAM_MAX,
                    0 <= dt <= PROFILE_DT_MAX,
            ;
        }
        let v_new = clamp_i64(
            self.current_v + div_tz(a_new * dt, MICRO),
            -self.max_v,
            self.max_v,
        );
        self.current_a = a_new;
        self.current_v = v_new;
        self.last_t = Some(t);
        proof {
            assert(s_root as int == sqrt_floor(2 * old(self).jmax() * abs_spec(
                clamp_spec(target as int, -old(self).vmax(), old(self).vmax())
                    - old(self).velocity(),
            )));
            assert(Self::step_matches(*old(self), *self, target as int, t));
        }
        v_new
    }
}

} // verus!
