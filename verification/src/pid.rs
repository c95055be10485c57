//! Fixed-point PID controller with saturating clamps for anti-windup.

use vstd::prelude::*;
use crate::units::{MICRO, qdiv, clamp_spec, div_tz, clamp_i64};

verus! {

/// Largest magnitude of an error fed to the PID; larger inputs saturate.
pub const PID_ERROR_MAX: i64 = 1_000_000_000;

/// Largest magnitude of the integral accumulator (anti-windup clamp).
pub const PID_INTEGRAL_MAX: i64 = 100_000_000_000;

/// Largest magnitude of the derivative term.
pub const PID_DERIVATIVE_MAX: i64 = 100_000_000_000;

/// Largest magnitude of the controller output.
pub const PID_OUTPUT_MAX: i64 = 100_000_000_000;

/// Largest admitted gain (4.0 in micro fixed point).
pub const PID_GAIN_MAX: i64 = 4_000_000;

/// Largest time step fed into one update, microseconds; longer steps
/// saturate, shorter than one microsecond are taken as one.
pub const PID_DT_MAX: i64 = 1_000_000_000;

/// The time step actually used for a requested step of `dt`.
pub open spec fn pid_dt(dt: int) -> int {
    clamp_spec(dt, 1, PID_DT_MAX as int)
}

/// The error value actually fed to the terms.
pub open spec fn pid_input(error: int) -> int {
    clamp_spec(error, -PID_ERROR_MAX as int, PID_ERROR_MAX as int)
}

/// Integral accumulator after one step.
pub open spec fn pid_integral_next(integral: int, e: int, dt: int) -> int {
    clamp_spec(
        integral + qdiv(e * dt, MICRO as int),
        -PID_INTEGRAL_MAX as int,
        PID_INTEGRAL_MAX as int,
    )
}

/// Derivative term for one step.
pub open spec fn pid_derivative(e: int, last_error: int, dt: int) -> int {
    clamp_spec(
        qdiv((e - last_error) * MICRO as int, dt),
        -PID_DERIVATIVE_MAX as int,
        PID_DERIVATIVE_MAX as int,
    )
}

/// Controller output from the three terms.
pub open spec fn pid_output(kp: int, ki: int, kd: int, e: int, integral: int, deriv: int) -> int {
    clamp_spec(
        qdiv(kp * e + ki * integral + kd * deriv, MICRO as int),
        -PID_OUTPUT_MAX as int,
        PID_OUTPUT_MAX as int,
    )
}

/// Proportional-integral-derivative controller over micro fixed-point
/// values.  Gains are millionths; the integral and the output saturate.
#[derive(Debug)]
pub struct PidController {
    kp: i64,
    ki: i64,
    kd: i64,
    integral: i64,
    last_error: i64,
}

impl PidController {
    /// Gains within range, accumulator and memory within their clamps.
    pub closed spec fn wf(&self) -> bool {
        &&& 0 <= self.kp <= PID_GAIN_MAX
        &&& 0 <= self.ki <= PID_GAIN_MAX
        &&& 0 <= self.kd <= PID_GAIN_MAX
        &&& -PID_INTEGRAL_MAX <= self.integral <= PID_INTEGRAL_MAX
        &&& -PID_ERROR_MAX <= self.last_error <= PID_ERROR_MAX
    }

    /// No accumulated integral and no remembered error.
    pub open spec fn is_reset(&self) -> bool {
        self.integral_state() == 0 && self.last_error_state() == 0
    }

    pub closed spec fn gains(&self) -> (int, int, int) {
        (self.kp as int, self.ki as int, self.kd as int)
    }

    pub closed spec fn integral_state(&self) -> int {
        self.integral as int
    }

    pub closed spec fn last_error_state(&self) -> int {
        self.last_error as int
    }

    /// The output one call of `update` with error `e` over `dt` yields.
    pub open spec fn step_output(self, e: int, dt: int) -> int {
        pid_output(
            self.gains().0,
            self.gains().1,
            self.gains().2,
            pid_input(e),
            pid_integral_next(self.integral_state(), pid_input(e), pid_dt(dt)),
            pid_derivative(pid_input(e), self.last_error_state(), pid_dt(dt)),
        )
    }

    /// A reset controller with the given micro fixed-point gains.
    pub fn new(kp: i64, ki: i64, kd: i64) -> (r: Self)
        requires
            0 <= kp <= PID_GAIN_MAX,
            0 <= ki <= PID_GAIN_MAX,
            0 <= kd <= PID_GAIN_MAX,
        ensures
            r.wf(),
            r.is_reset(),
            r.gains() == (kp as int, ki as int, kd as int),
    {
        Self { kp, ki, kd, integral: 0, last_error: 0 }
    }

    /// Clear the integral accumulator and the remembered error.
    pub fn reset(&mut self)
        requires
            old(self).wf(),
        ensures
            final(self).wf(),
            final(self).is_reset(),
            final(self).gains() == old(self).gains(),
    {
        self.integral = 0;
        self.last_error = 0;
    }

    /// One control step on error `error` over `dt` microseconds.
    /// A zero error on a reset controller yields zero output and leaves
    /// the controller reset, whatever the step length.
    pub fn update(&mut self, error: i64, dt: u64) -> (u: i64)
        requires
            old(self).wf(),
        ensures
            final(self).wf(),
            final(self).gains() == old(self).gains(),
            ({
                let e = pid_input(error as int);
                let step = pid_dt(dt as int);
                let integral = pid_integral_next(old(self).integral_state(), e, step);
                let deriv = pid_derivative(e, old(self).last_error_state(), step);
                &&& final(self).integral_state() == integral
                &&& final(self).last_error_state() == e
                &&& u == pid_output(
                    old(self).gains().0,
                    old(self).gains().1,
                    old(self).gains().2,
                    e,
                    integral,
                    deriv,
                )
            }),
            u == old(self).step_output(error as int, dt as int),
            old(self).is_reset() && error == 0 ==> u == 0 && final(self).is_reset(),
    {
        let step: i64 = if dt > 1_000_000_000 {
            1_000_000_000
        } else if dt < 1 {
            1
        } else {
            dt as i64
        };
        let e = clamp_i64(error, -PID_ERROR_MAX, PID_ERROR_MAX);
        proof {
            assert(e * step <= 1_000_000_000_000_000_000 && e * step
                >= -1_000_000_000_000_000_000) by (nonlinear_arith)
                requires
                    -PID_ERROR_MAX <= e <= PID_ERROR_MAX,
                    1 <= step <= PID_DT_MAX,
            ;
        }
        let area = div_tz(e * step, MICRO);
        let integral = clamp_i64(
            self.integral + area,
            -PID_INTEGRAL_MAX,
            PID_INTEGRAL_MAX,
        );
        let diff = e - self.last_error;
        proof {
            assert(diff * MICRO <= 2_000_000_000_000_000 && diff * MICRO
                >= -2_000_000_000_000_000) by (nonlinear_arith)
                requires
                    -2_000_000_000 <= diff <= 2_000_000_000,
            ;
        }
        let deriv = clamp_i64(
            div_tz(diff * MICRO, step),
            -PID_DERIVATIVE_MAX,
            PID_DERIVATIVE_MAX,
        );
        proof {
            assert(self.kp * e <= 4_000_000_000_000_000 && self.kp * e
                >= -4_000_000_000_000_000) by (nonlinear_arith)
                requires
                    0 <= self.kp <= PID_GAIN_MAX,
                    -PID_ERROR_MAX <= e <= PID_ERROR_MAX,
            ;
            assert(self.ki * integral <= 400_000_000_000_000_000 && self.ki * integral
                >= -400_000_000_000_000_000) by (nonlinear_arith)
                requires
                    0 <= self.ki <= PID_GAIN_MAX,
                    -PID_INTEGRAL_MAX <= integral <= PID_INTEGRAL_MAX,
            ;
            assert(self.kd * deriv <= 400_000_000_000_000_000 && self.kd * deriv
                >= -400_000_000_000_000_000) by (nonlinear_arith)
                requires
                    0 <= self.kd <= PID_GAIN_MAX,
                    -PID_DERIVATIVE_MAX <= deriv <= PID_DERIVATIVE_MAX,
            ;
        }
        let total = self.kp * e + self.ki * integral + self.kd * deriv;
        let u = clamp_i64(div_tz(total, MICRO), -PID_OUTPUT_MAX, PID_OUTPUT_MAX);
        proof {
            if old(self).is_reset() && error == 0 {
                assert(0int / (step as int) == 0) by (nonlinear_arith)
                    requires
                        step >= 1,
                ;
                assert(e as int * step as int == 0) by (nonlinear_arith)
                    requires
                        e == 0,
                ;
                assert(integral == 0);
                assert(deriv == 0);
                assert(self.kp as int * e as int + self.ki as int * integral as int + self.kd
                    as int * deriv as int == 0) by (nonlinear_arith)
                    requires
                        e == 0,
                        integral == 0,
                        deriv == 0,
                ;
                assert(total == 0);
            }
        }
        self.integral = integral;
        self.last_error = e;
        u
    }
}

} // verus!
