//! Puller speed controller: turns a speed or diameter setpoint into a
//! jerk-limited angular-velocity command for the puller drum.

use vstd::prelude::*;
use crate::units::{MICRO, PI_MICRO, DIAMETER_MAX, qdiv, div_tz};
use crate::motion::MotionProfile;
use crate::converter::{LinearRotaryConverter, CONVERT_INPUT_MAX};

verus! {

/// What the puller regulates to: a direct line-speed target, or a
/// coarse open-loop speed derived from a diameter target.
#[derive(Debug, Clone, Copy, PartialEq, Eq, Structural)]
pub enum PullerRegulationMode {
    Speed,
    Diameter,
}

/// Speed limit of the puller profile: 50 m/min in micro-(m/s).
pub const PULLER_MAX_SPEED: i64 = 833_333;

/// Acceleration limit: 5 m/min per second in micro-(m/s^2).
pub const PULLER_MAX_ACCEL: i64 = 83_333;

/// Jerk limit: 10 m/min per second squared in micro-(m/s^3).
pub const PULLER_MAX_JERK: i64 = 166_667;

/// Numerator of the diameter-mode speed: the nominal volumetric flow
/// of 0.5 cm^3/s expressed against micro-millimetre cross-sections,
/// yielding micro-(m/s).
pub const NOMINAL_FLOW_NUMER: i64 = 2_000_000_000_000;

/// Open-loop line speed for a diameter target `d` in micro-millimetres:
/// the nominal flow divided by the cross-section `pi * (d/2)^2`.
/// Zero when the target is under one micrometre.
pub open spec fn diameter_mode_speed(d: int) -> int {
    let dk = qdiv(d, 1000);
    if dk <= 0 {
        0
    } else {
        let t1 = qdiv(PI_MICRO * dk, MICRO as int);
        let denom = t1 * dk;
        if denom <= 0 {
            0
        } else {
            qdiv(NOMINAL_FLOW_NUMER as int, denom)
        }
    }
}

/// Motion-profiled driver for the puller: selects the desired line
/// speed from its mode, smooths it through a jerk-limited profile, and
/// converts it to drum angular velocity.
#[derive(Debug)]
pub struct PullerSpeedController {
    pub enabled: bool,
    /// Line-speed target, micro-(m/s).
    pub target_speed: i64,
    /// Diameter target, micro-millimetres.
    pub target_diameter: i64,
    pub regulation_mode: PullerRegulationMode,
    /// Forward rotation direction; `false` negates the commanded speed.
    pub forward: bool,
    /// Jerk-limited profile that dampens speed changes.
    pub acceleration_controller: MotionProfile,
    /// Geometry converter between line speed and drum angular velocity.
    pub converter: LinearRotaryConverter,
    /// The last smoothed speed that was commanded, micro-(m/s).
    pub last_speed: i64,
}

impl PullerSpeedController {
    pub open spec fn wf(&self) -> bool {
        &&& self.acceleration_controller.wf()
        &&& self.converter.wf()
        &&& -CONVERT_INPUT_MAX <= self.target_speed <= CONVERT_INPUT_MAX
        &&& 0 <= self.target_diameter <= DIAMETER_MAX
        &&& self.acceleration_controller.vmax() == PULLER_MAX_SPEED
        &&& self.acceleration_controller.amax() == PULLER_MAX_ACCEL
        &&& self.acceleration_controller.jmax() == PULLER_MAX_JERK
    }

    pub open spec fn is_enabled(&self) -> bool {
        self.enabled
    }

    /// The profile state (exposed for contracts only).
    pub open spec fn profile(&self) -> MotionProfile {
        self.acceleration_controller
    }

    /// The line speed the profile is asked to follow this tick:
    /// zero when disabled, the speed target in speed mode, the
    /// open-loop estimate in diameter mode; negated when not forward.
    pub open spec fn desired_speed(&self) -> int {
        let base = if !self.enabled {
            0
        } else {
            match self.regulation_mode {
                PullerRegulationMode::Speed => self.target_speed as int,
                PullerRegulationMode::Diameter => diameter_mode_speed(
                    self.target_diameter as int,
                ),
            }
        };
        if self.forward {
            base
        } else {
            -base
        }
    }

    /// A disabled forward controller in speed mode, its profile at
    /// rest under the puller limits.
    pub fn new(target_speed: i64, target_diameter: i64, converter: LinearRotaryConverter) -> (r:
        Self)
        requires
            -CONVERT_INPUT_MAX <= target_speed <= CONVERT_INPUT_MAX,
            0 <= target_diameter <= DIAMETER_MAX,
            converter.wf(),
        ensures
            r.wf(),
            !r.is_enabled(),
            r.target_speed == target_speed,
            r.target_diameter == target_diameter,
            r.regulation_mode == PullerRegulationMode::Speed,
            r.forward,
            r.last_speed == 0,
            r.converter == converter,
            r.profile().velocity() == 0,
            r.profile().accel() == 0,
            r.profile().last_tick() is None,
            r.profile().vmax() == PULLER_MAX_SPEED,
            r.profile().amax() == PULLER_MAX_ACCEL,
            r.profile().jmax() == PULLER_MAX_JERK,
    {
        Self {
            enabled: false,
            target_speed,
            target_diameter,
            regulation_mode: PullerRegulationMode::Speed,
            forward: true,
            acceleration_controller: MotionProfile::new(
                PULLER_MAX_SPEED,
                PULLER_MAX_ACCEL,
                PULLER_MAX_JERK,
            ),
            converter,
            last_speed: 0,
        }
    }

    pub fn set_enabled(&mut self, enabled: bool)
        requires
            old(self).wf(),
        ensures
            final(self).wf(),
            final(self).is_enabled() == enabled,
            *final(self) == (PullerSpeedController { enabled, ..*old(self) }),
    {
        self.enabled = enabled;
    }

    pub fn set_target_speed(&mut self, target: i64)
        requires
            old(self).wf(),
            -CONVERT_INPUT_MAX <= target <= CONVERT_INPUT_MAX,
        ensures
            final(self).wf(),
            *final(self) == (PullerSpeedController { target_speed: target, ..*old(self) }),
    {
        self.target_speed = target;
    }

    pub fn set_target_diameter(&mut self, target: i64)
        requires
            old(self).wf(),
            0 <= target <= DIAMETER_MAX,
        ensures
            final(self).wf(),
            *final(self) == (PullerSpeedController { target_diameter: target, ..*old(self) }),
    {
        self.target_diameter = target;
    }

    pub fn set_regulation_mode(&mut self, regulation: PullerRegulationMode)
        requires
            old(self).wf(),
        ensures
            final(self).wf(),
            *final(self) == (PullerSpeedController { regulation_mode: regulation, ..*old(self) }),
    {
        self.regulation_mode = regulation;
    }

    pub fn set_forward(&mut self, forward: bool)
        requires
            old(self).wf(),
        ensures
            final(self).wf(),
            *final(self) == (PullerSpeedController { forward, ..*old(self) }),
    {
        self.forward = forward;
    }

    pub fn get_regulation_mode(&self) -> (r: &PullerRegulationMode)
        ensures
            *r == self.regulation_mode,
    {
        &self.regulation_mode
    }

    /// Coarse open-loop line speed for the current diameter target,
    /// assuming the nominal volumetric flow; closed-loop behaviour
    /// comes from the diameter regulator feeding speed mode instead.
    pub fn calculate_speed_for_diameter(&self) -> (v: i64)
        requires
            self.wf(),
        ensures
            v == diameter_mode_speed(self.target_diameter as int),
            0 <= v <= NOMINAL_FLOW_NUMER,
    {
        let dk = div_tz(self.target_diameter, 1000);
        if dk <= 0 {
            return 0;
        }
        proof {
            assert(PI_MICRO * dk <= 400_000_000_000 && PI_MICRO * dk >= PI_MICRO)
                by (nonlinear_arith)
                requires
                    1 <= dk <= 100_000,
            ;
        }
        let t1 = div_tz(PI_MICRO * dk, MICRO);
        proof {
            assert(t1 * dk <= 40_000_000_000_000_000) by (nonlinear_arith)
                requires
                    0 <= t1 <= 400_000_000_000,
                    1 <= dk <= 100_000,
            ;
            assert(t1 * dk >= 0) by (nonlinear_arith)
                requires
                    t1 >= 0,
                    dk >= 1,
            ;
        }
        let denom = t1 * dk;
        if denom <= 0 {
            return 0;
        }
        div_tz(NOMINAL_FLOW_NUMER, denom)
    }

    /// Pick the desired speed for this tick, smooth it through the
    /// jerk-limited profile, and remember the result.
    fn update_speed(&mut self, t: u64) -> (v: i64)
        requires
            old(self).wf(),
        ensures
            final(self).wf(),
            v == final(self).profile().velocity(),
            final(self).last_speed == v,
            -PULLER_MAX_SPEED <= v <= PULLER_MAX_SPEED,
            MotionProfile::step_matches(
                old(self).profile(),
                final(self).profile(),
                old(self).desired_speed(),
                t,
            ),
            final(self).enabled == old(self).enabled,
            final(self).target_speed == old(self).target_speed,
            final(self).target_diameter == old(self).target_diameter,
            final(self).regulation_mode == old(self).regulation_mode,
            final(self).forward == old(self).forward,
            final(self).converter == old(self).converter,
    {
        let base_speed: i64 = match self.enabled {
            true => match self.regulation_mode {
                PullerRegulationMode::Speed => self.target_speed,
                PullerRegulationMode::Diameter => self.calculate_speed_for_diameter(),
            },
            false => 0,
        };
        let signed_speed: i64 = if self.forward {
            base_speed
        } else {
            -base_speed
        };
        let smoothed = self.acceleration_controller.update(signed_speed, t);
        self.last_speed = smoothed;
        proof {
            assert(signed_speed as int == old(self).desired_speed());
        }
        smoothed
    }

    /// Drum angular velocity for line speed `speed`.
    pub fn speed_to_angular_velocity(&self, speed: i64) -> (w: i64)
        requires
            self.wf(),
            -CONVERT_INPUT_MAX <= speed <= CONVERT_INPUT_MAX,
        ensures
            w == qdiv(speed * MICRO, self.converter.radius()),
    {
        self.converter.linear_to_angular(speed)
    }

    /// Line speed at the drum surface for angular velocity `angular_speed`.
    pub fn angular_velocity_to_speed(&self, angular_speed: i64) -> (v: i64)
        requires
            self.wf(),
            -CONVERT_INPUT_MAX <= angular_speed <= CONVERT_INPUT_MAX,
        ensures
            v == qdiv(angular_speed * self.converter.radius(), MICRO as int),
    {
        self.converter.angular_to_linear(angular_speed)
    }

    /// One tick: advance the profile toward the mode's desired speed
    /// and return the angular-velocity command for the drum.
    pub fn calc_angular_velocity(&mut self, t: u64) -> (w: i64)
        requires
            old(self).wf(),
        ensures
            final(self).wf(),
            w == qdiv(
                final(self).profile().velocity() * MICRO,
                final(self).converter.radius(),
            ),
            final(self).last_speed == final(self).profile().velocity(),
            -PULLER_MAX_SPEED <= final(self).last_speed <= PULLER_MAX_SPEED,
            MotionProfile::step_matches(
                old(self).profile(),
                final(self).profile(),
                old(self).desired_speed(),
                t,
            ),
    {
        let speed = self.update_speed(t);
        self.speed_to_angular_velocity(speed)
    }

    pub fn get_target_speed(&self) -> (r: i64)
        ensures
            r == self.target_speed,
    {
        self.target_speed
    }
}

} // verus!
