//! Diameter regulation controller: a dual-PID, strategy-parameterised
//! closed loop that converts diameter and flow errors into coordinated
//! puller-speed and extruder-speed adjustments.

use vstd::prelude::*;
use crate::units::{
    MICRO,
    PI_MICRO,
    SCREW_DISPLACEMENT_MICRO,
    DIAMETER_MAX,
    qdiv,
    clamp_spec,
    abs_spec,
    sqrt_floor,
    div_tz,
    clamp_i64,
    abs_i64,
    isqrt_u64,
};
use crate::pid::PidController;
use crate::sliding_window::TIMESTAMP_MAX;

verus! {

/// Largest extruder speed an update admits, micro-rpm.
pub const RPM_INPUT_MAX: i64 = 1_000_000_000_000;

/// Largest line speed an update admits, micro-(m/s) (10 m/s).
pub const SPEED_INPUT_MAX: i64 = 10_000_000;

/// Largest volumetric flow the conversion helpers admit, micro-(cm^3/s).
pub const FLOW_INPUT_MAX: i64 = 10_000_000_000;

/// Largest line speed the flow formulas admit, micro-(m/s) (100 m/s).
pub const FLOW_SPEED_MAX: i64 = 100_000_000;

/// Largest magnitude an output low-pass state can reach.
pub const FILTER_STATE_MAX: i64 = 20_000_000_000_000;

/// Largest magnitude of a stored flow value, micro-(cm^3/s).
pub const FLOW_STATE_MAX: i64 = 2_000_000_000_000;

/// Largest admitted low-pass coefficient (0.2 in micro).
pub const FILTER_ALPHA_MAX: i64 = 200_000;

/// Smallest admitted speed scale (0.5 in micro).
pub const MIN_SPEED_FACTOR: i64 = 500_000;

/// Largest admitted speed scale (2.0 in micro).
pub const MAX_SPEED_FACTOR: i64 = 2_000_000;

/// Default tight tolerance, micro-millimetres (0.02 mm).
pub const DEFAULT_TIGHT_TOLERANCE: i64 = 20_000;

/// Default loose tolerance, micro-millimetres (0.05 mm).
pub const DEFAULT_LOOSE_TOLERANCE: i64 = 50_000;

/// Time step assumed on the first enabled tick, microseconds (16 ms).
pub const DEFAULT_DT_MICROS: u64 = 16_000;

/// Divisor of the diameter-correction-to-speed map: the 0.1 gain
/// against micro fixed point.
pub const WINDER_ADJUST_DIV: i64 = 10_000_000;

/// Controller strategies for maintaining filament diameter.
#[derive(Debug, Clone, Copy, PartialEq, Eq, Structural)]
pub enum DiameterControlStrategy {
    /// Adjust winder speed only, keep the extrusion rate constant.
    WinderOnly,
    /// Adjust extrusion rate only, keep the winder speed constant.
    ExtruderOnly,
    /// Adjust both, weighted toward the winder.
    Balanced,
    /// Prioritise line speed: mainly adjust the extruder.
    SpeedPrioritized,
}

/// Share of the diameter correction routed to the puller, millionths.
pub open spec fn winder_coefficient(s: DiameterControlStrategy) -> int {
    match s {
        DiameterControlStrategy::WinderOnly => 1_000_000,
        DiameterControlStrategy::ExtruderOnly => 0,
        DiameterControlStrategy::Balanced => 600_000,
        DiameterControlStrategy::SpeedPrioritized => 200_000,
    }
}

/// Share of the flow correction routed to the extruder, millionths.
pub open spec fn extruder_coefficient(s: DiameterControlStrategy) -> int {
    match s {
        DiameterControlStrategy::WinderOnly => 0,
        DiameterControlStrategy::ExtruderOnly => 1_000_000,
        DiameterControlStrategy::Balanced => 400_000,
        DiameterControlStrategy::SpeedPrioritized => 800_000,
    }
}

/// Volumetric flow of the screw at `rpm` micro-rpm, micro-(cm^3/s):
/// `rpm * displacement / 60`.
pub open spec fn flow_from_rpm_spec(rpm: int) -> int {
    qdiv(rpm * SCREW_DISPLACEMENT_MICRO, 60 * MICRO)
}

/// Flow required to extrude diameter `d` (micro-millimetres) at line
/// speed `v_mps` (micro-(m/s)): `pi * (d/2)^2 * v`, carried out over
/// micro-centimetre radii and micro-(cm/s) speeds.
pub open spec fn required_flow_spec(d: int, v_mps: int) -> int {
    let vc = v_mps * 100;
    let r = qdiv(d, 20);
    let t1 = qdiv(PI_MICRO * r, MICRO as int);
    let area = qdiv(t1 * r, MICRO as int);
    qdiv(area * vc, MICRO as int)
}

/// Diameter expected from flow `q` at line speed `v_mps`:
/// `2 * sqrt(q / (pi * v))`, zero when the speed is not positive.
pub open spec fn expected_diameter_spec(q: int, v_mps: int) -> int {
    if v_mps <= 0 {
        0
    } else {
        let vc = v_mps * 100;
        let denom = qdiv(PI_MICRO * vc, MICRO as int);
        if denom <= 0 {
            0
        } else {
            2000 * sqrt_floor(qdiv(q * 100_000_000, denom))
        }
    }
}

/// Screw speed required for flow `q`: `q * 60 / displacement`,
/// micro-rpm.
pub open spec fn required_rpm_spec(q: int) -> int {
    qdiv(q * (60 * MICRO), SCREW_DISPLACEMENT_MICRO as int)
}

/// Puller-speed adjustment for diameter correction `u` at line speed
/// `v_mps`: `-u * 0.1 * v`.  A positive correction (diameter too
/// small) slows the puller.
pub open spec fn winder_adjustment_spec(u: int, v_mps: int) -> int {
    -qdiv(u * v_mps, WINDER_ADJUST_DIV as int)
}

/// Extruder-speed adjustment for flow correction `u`:
/// `u * 60 / displacement` micro-rpm per micro-(cm^3/s).
pub open spec fn extruder_adjustment_spec(u: int) -> int {
    u * qdiv(60 * MICRO, SCREW_DISPLACEMENT_MICRO as int)
}

/// First-order low-pass: the state moves toward the input by the
/// fraction `alpha`, `y + alpha * (x - y)`.
pub open spec fn ema_spec(prev: int, x: int, alpha: int) -> int {
    prev + qdiv(alpha * (x - prev), MICRO as int)
}

/// The time step used by an update at `t`: the default on the first
/// enabled tick, else the elapsed time, floored at zero.
pub open spec fn regulator_dt(last_update: Option<u64>, t: u64) -> int {
    match last_update {
        Option::None => DEFAULT_DT_MICROS as int,
        Option::Some(lt) => if t >= lt {
            t - lt
        } else {
            0
        },
    }
}

/// Output of one regulator update.
#[derive(Debug, Clone, Copy, PartialEq, Eq, Structural)]
pub struct DiameterControlOutput {
    /// Adjustment to the puller line speed, micro-(m/s).
    pub winder_speed_adjustment: i64,
    /// Adjustment to the extruder speed, micro-rpm.
    pub extruder_rpm_adjustment: i64,
    /// Diameter error, micro-millimetres.
    pub diameter_error: i64,
    /// Flow error, micro-(cm^3/s).
    pub volume_error: i64,
    pub is_in_tolerance: bool,
    pub is_in_tight_tolerance: bool,
    /// Flow computed from the extruder speed, micro-(cm^3/s).
    pub current_volume_rate: i64,
    /// Flow required for the target, micro-(cm^3/s).
    pub target_volume_rate: i64,
    /// The speed scale in force, millionths.
    pub process_speed_factor: i64,
}

impl Default for DiameterControlOutput {
    /// The all-zero record that a disabled regulator emits.
    fn default() -> (r: Self)
        ensures
            r == (DiameterControlOutput {
                winder_speed_adjustment: 0,
                extruder_rpm_adjustment: 0,
                diameter_error: 0,
                volume_error: 0,
                is_in_tolerance: false,
                is_in_tight_tolerance: false,
                current_volume_rate: 0,
                target_volume_rate: 0,
                process_speed_factor: 0,
            }),
    {
        DiameterControlOutput {
            winder_speed_adjustment: 0,
            extruder_rpm_adjustment: 0,
            diameter_error: 0,
            volume_error: 0,
            is_in_tolerance: false,
            is_in_tight_tolerance: false,
            current_volume_rate: 0,
            target_volume_rate: 0,
            process_speed_factor: 0,
        }
    }
}

/// Diagnostic snapshot of the regulator.
#[derive(Debug, Clone, Copy, PartialEq, Eq, Structural)]
pub struct DiameterControlDiagnostics {
    pub target_diameter: i64,
    pub current_diameter: i64,
    pub target_volume_rate: i64,
    pub current_volume_rate: i64,
    pub diameter_error: i64,
    pub strategy: DiameterControlStrategy,
    pub enabled: bool,
    pub speed_scale_factor: i64,
    pub is_in_tolerance: bool,
    pub is_in_tight_tolerance: bool,
}

/// Dual-PID diameter regulator.
#[derive(Debug)]
pub struct DiameterController {
    /// PID on the diameter error.
    pub diameter_pid: PidController,
    /// PID on the volumetric flow error.
    pub volume_pid: PidController,
    /// Target diameter, micro-millimetres.
    pub target_diameter: i64,
    /// Last measured diameter, micro-millimetres.
    pub current_diameter: i64,
    /// Flow required for the target, micro-(cm^3/s).
    pub target_volume_rate: i64,
    /// Flow computed from the extruder speed, micro-(cm^3/s).
    pub current_volume_rate: i64,
    pub strategy: DiameterControlStrategy,
    pub enabled: bool,
    /// Deliberate process acceleration, millionths, clamped on
    /// assignment to the factor range below.
    pub speed_scale_factor: i64,
    /// Tight tolerance, micro-millimetres.
    pub min_diameter_tolerance: i64,
    /// Loose tolerance, micro-millimetres.
    pub max_diameter_tolerance: i64,
    /// Time of the last enabled update, microseconds.
    pub last_update: Option<u64>,
    /// Low-pass coefficient of the puller output, millionths.
    pub speed_filter_alpha: i64,
    /// Low-pass coefficient of the extruder output, millionths.
    pub volume_filter_alpha: i64,
    /// Low-pass state of the puller output.
    pub winder_filter_state: i64,
    /// Low-pass state of the extruder output.
    pub extruder_filter_state: i64,
    /// Smallest admitted speed scale, millionths.
    pub min_process_speed_factor: i64,
    /// Largest admitted speed scale, millionths.
    pub max_process_speed_factor: i64,
}

impl DiameterController {
    pub open spec fn wf(&self) -> bool {
        &&& self.diameter_pid.wf()
        &&& self.volume_pid.wf()
        &&& 0 <= self.target_diameter <= DIAMETER_MAX
        &&& -DIAMETER_MAX <= self.current_diameter <= DIAMETER_MAX
        &&& -FLOW_STATE_MAX <= self.target_volume_rate <= FLOW_STATE_MAX
        &&& -FLOW_STATE_MAX <= self.current_volume_rate <= FLOW_STATE_MAX
        &&& 0 < self.min_process_speed_factor <= self.max_process_speed_factor
            <= MAX_SPEED_FACTOR
        &&& self.min_process_speed_factor <= self.speed_scale_factor
            <= self.max_process_speed_factor
        &&& 0 <= self.min_diameter_tolerance <= self.max_diameter_tolerance <= DIAMETER_MAX
        &&& 0 <= self.speed_filter_alpha <= FILTER_ALPHA_MAX
        &&& 0 <= self.volume_filter_alpha <= FILTER_ALPHA_MAX
        &&& -FILTER_STATE_MAX <= self.winder_filter_state <= FILTER_STATE_MAX
        &&& -FILTER_STATE_MAX <= self.extruder_filter_state <= FILTER_STATE_MAX
    }

    /// A disabled balanced regulator on `target_diameter` with the
    /// documented default gains, tolerances, and filters.
    pub fn new(target_diameter: i64) -> (r: Self)
        requires
            0 <= target_diameter <= DIAMETER_MAX,
        ensures
            r.wf(),
            !r.enabled,
            r.target_diameter == target_diameter,
            r.current_diameter == 0,
            r.strategy == DiameterControlStrategy::Balanced,
            r.speed_scale_factor == MICRO,
            r.min_diameter_tolerance == DEFAULT_TIGHT_TOLERANCE,
            r.max_diameter_tolerance == DEFAULT_LOOSE_TOLERANCE,
            r.last_update is None,
            r.diameter_pid.is_reset(),
            r.volume_pid.is_reset(),
            r.winder_filter_state == 0,
            r.extruder_filter_state == 0,
            r.min_process_speed_factor == MIN_SPEED_FACTOR,
            r.max_process_speed_factor == MAX_SPEED_FACTOR,
            r.speed_filter_alpha == 100_000,
            r.volume_filter_alpha == 150_000,
    {
        Self {
            diameter_pid: PidController::new(2_000_000, 100_000, 50_000),
            volume_pid: PidController::new(1_500_000, 80_000, 20_000),
            target_diameter,
            current_diameter: 0,
            target_volume_rate: 0,
            current_volume_rate: 0,
            strategy: DiameterControlStrategy::Balanced,
            enabled: false,
            speed_scale_factor: MICRO,
            min_diameter_tolerance: DEFAULT_TIGHT_TOLERANCE,
            max_diameter_tolerance: DEFAULT_LOOSE_TOLERANCE,
            last_update: None,
            speed_filter_alpha: 100_000,
            volume_filter_alpha: 150_000,
            winder_filter_state: 0,
            extruder_filter_state: 0,
            min_process_speed_factor: MIN_SPEED_FACTOR,
            max_process_speed_factor: MAX_SPEED_FACTOR,
        }
    }

    /// Set the target diameter; the diameter PID resets to avoid a
    /// derivative spike.
    pub fn set_target_diameter(&mut self, diameter: i64)
        requires
            old(self).wf(),
            0 <= diameter <= DIAMETER_MAX,
        ensures
            final(self).wf(),
            final(self).target_diameter == diameter,
            final(self).diameter_pid.is_reset(),
            final(self).diameter_pid.gains() == old(self).diameter_pid.gains(),
            final(self).volume_pid == old(self).volume_pid,
            final(self).enabled == old(self).enabled,
            final(self).current_diameter == old(self).current_diameter,
            final(self).strategy == old(self).strategy,
            final(self).speed_scale_factor == old(self).speed_scale_factor,
            final(self).target_volume_rate == old(self).target_volume_rate,
            final(self).current_volume_rate == old(self).current_volume_rate,
            final(self).min_diameter_tolerance == old(self).min_diameter_tolerance,
            final(self).max_diameter_tolerance == old(self).max_diameter_tolerance,
            final(self).last_update == old(self).last_update,
            final(self).speed_filter_alpha == old(self).speed_filter_alpha,
            final(self).volume_filter_alpha == old(self).volume_filter_alpha,
            final(self).winder_filter_state == old(self).winder_filter_state,
            final(self).extruder_filter_state == old(self).extruder_filter_state,
            final(self).min_process_speed_factor == old(self).min_process_speed_factor,
            final(self).max_process_speed_factor == old(self).max_process_speed_factor,
    {
        self.target_diameter = diameter;
        self.diameter_pid.reset();
    }

    pub fn get_target_diameter(&self) -> (r: i64)
        ensures
            r == self.target_diameter,
    {
        self.target_diameter
    }

    pub fn set_current_diameter(&mut self, diameter: i64)
        requires
            old(self).wf(),
            -DIAMETER_MAX <= diameter <= DIAMETER_MAX,
        ensures
            final(self).wf(),
            *final(self) == (DiameterController { current_diameter: diameter, ..*old(self) }),
    {
        self.current_diameter = diameter;
    }

    pub fn get_current_diameter(&self) -> (r: i64)
        ensures
            r == self.current_diameter,
    {
        self.current_diameter
    }

    pub fn set_strategy(&mut self, strategy: DiameterControlStrategy)
        requires
            old(self).wf(),
        ensures
            final(self).wf(),
            *final(self) == (DiameterController { strategy, ..*old(self) }),
    {
        self.strategy = strategy;
    }

    /// Enable or disable the regulator.  Disabling resets both PIDs
    /// and both output low-passes, so that a later enable with zero
    /// error produces zero output.
    pub fn set_enabled(&mut self, enabled: bool)
        requires
            old(self).wf(),
        ensures
            final(self).wf(),
            final(self).enabled == enabled,
            !enabled ==> final(self).diameter_pid.is_reset()
                && final(self).volume_pid.is_reset()
                && final(self).winder_filter_state == 0
                && final(self).extruder_filter_state == 0,
            final(self).target_diameter == old(self).target_diameter,
            final(self).current_diameter == old(self).current_diameter,
            final(self).strategy == old(self).strategy,
            final(self).speed_scale_factor == old(self).speed_scale_factor,
            final(self).last_update == old(self).last_update,
            final(self).target_volume_rate == old(self).target_volume_rate,
            final(self).current_volume_rate == old(self).current_volume_rate,
            final(self).min_diameter_tolerance == old(self).min_diameter_tolerance,
            final(self).max_diameter_tolerance == old(self).max_diameter_tolerance,
            final(self).speed_filter_alpha == old(self).speed_filter_alpha,
            final(self).volume_filter_alpha == old(self).volume_filter_alpha,
            final(self).min_process_speed_factor == old(self).min_process_speed_factor,
            final(self).max_process_speed_factor == old(self).max_process_speed_factor,
            final(self).diameter_pid.gains() == old(self).diameter_pid.gains(),
            final(self).volume_pid.gains() == old(self).volume_pid.gains(),
            enabled ==> *final(self) == (DiameterController { enabled, ..*old(self) }),
    {
        self.enabled = enabled;
        if !enabled {
            self.diameter_pid.reset();
            self.volume_pid.reset();
            self.winder_filter_state = 0;
            self.extruder_filter_state = 0;
        }
    }

    pub fn is_enabled(&self) -> (r: bool)
        ensures
            r == self.enabled,
    {
        self.enabled
    }

    /// Set the speed scale; the value is clamped into the admitted
    /// factor range, so the stored scale always lies within it.
    pub fn set_speed_scale_factor(&mut self, factor: i64)
        requires
            old(self).wf(),
        ensures
            final(self).wf(),
            final(self).speed_scale_factor == clamp_spec(
                factor as int,
                old(self).min_process_speed_factor as int,
                old(self).max_process_speed_factor as int,
            ),
            old(self).min_process_speed_factor <= final(self).speed_scale_factor <= old(
                self,
            ).max_process_speed_factor,
            *final(self) == (DiameterController {
                speed_scale_factor: final(self).speed_scale_factor,
                ..*old(self)
            }),
    {
        self.speed_scale_factor = clamp_i64(
            factor,
            self.min_process_speed_factor,
            self.max_process_speed_factor,
        );
    }

    pub fn get_speed_scale_factor(&self) -> (r: i64)
        ensures
            r == self.speed_scale_factor,
    {
        self.speed_scale_factor
    }

    pub fn get_strategy(&self) -> (r: DiameterControlStrategy)
        ensures
            r == self.strategy,
    {
        self.strategy
    }

    /// Flow delivered by the screw at `screw_rpm`.
    pub fn calculate_volume_rate_from_rpm(&self, screw_rpm: i64) -> (q: i64)
        requires
            -RPM_INPUT_MAX <= screw_rpm <= RPM_INPUT_MAX,
        ensures
            q == flow_from_rpm_spec(screw_rpm as int),
            abs_spec(q as int) <= abs_spec(screw_rpm as int),
    {
        proof {
            assert(screw_rpm * SCREW_DISPLACEMENT_MICRO <= 500_000_000_000_000_000
                && screw_rpm * SCREW_DISPLACEMENT_MICRO >= -500_000_000_000_000_000)
                by (nonlinear_arith)
                requires
                    -RPM_INPUT_MAX <= screw_rpm <= RPM_INPUT_MAX,
            ;
            assert(abs_spec(qdiv(screw_rpm * SCREW_DISPLACEMENT_MICRO, 60 * MICRO))
                <= abs_spec(screw_rpm as int)) by (nonlinear_arith)
                requires
                    -RPM_INPUT_MAX <= screw_rpm <= RPM_INPUT_MAX,
            ;
        }
        div_tz(screw_rpm * SCREW_DISPLACEMENT_MICRO, 60 * MICRO)
    }

    /// Diameter expected from flow `volume_rate` at line speed
    /// `filament_speed`; zero when the speed is not positive.
    pub fn calculate_expected_diameter(&self, volume_rate: i64, filament_speed: i64) -> (d: i64)
        requires
            0 <= volume_rate <= FLOW_INPUT_MAX,
            -FLOW_SPEED_MAX <= filament_speed <= FLOW_SPEED_MAX,
        ensures
            d == expected_diameter_spec(volume_rate as int, filament_speed as int),
            0 <= d,
    {
        if filament_speed <= 0 {
            return 0;
        }
        let vc = filament_speed * 100;
        proof {
            assert(PI_MICRO * vc <= 700_000_000_000_000_000 && PI_MICRO * vc > 0)
                by (nonlinear_arith)
                requires
                    0 < vc <= 10_000_000_000,
            ;
        }
        let denom = div_tz(PI_MICRO * vc, MICRO);
        if denom <= 0 {
            return 0;
        }
        proof {
            assert(volume_rate * 100_000_000 <= 1_000_000_000_000_000_000
                && volume_rate * 100_000_000 >= 0) by (nonlinear_arith)
                requires
                    0 <= volume_rate <= FLOW_INPUT_MAX,
            ;
        }
        let x = div_tz(volume_rate * 100_000_000, denom);
        let root = isqrt_u64(x as u64);
        2000 * (root as i64)
    }

    /// Flow required to hold `target_diameter` at line speed
    /// `filament_speed`.
    pub fn calculate_required_volume_rate(&self, target_diameter: i64, filament_speed: i64) -> (q:
        i64)
        requires
            0 <= target_diameter <= DIAMETER_MAX,
            0 <= filament_speed <= FLOW_SPEED_MAX,
        ensures
            q == required_flow_spec(target_diameter as int, filament_speed as int),
            0 <= q <= 2_000_000_000_000,
    {
        let vc = filament_speed * 100;
        let r = div_tz(target_diameter, 20);
        proof {
            assert(PI_MICRO * r <= 20_000_000_000_000 && PI_MICRO * r >= 0) by (nonlinear_arith)
                requires
                    0 <= r <= 5_000_000,
            ;
        }
        let t1 = div_tz(PI_MICRO * r, MICRO);
        proof {
            assert(t1 * r <= 100_000_000_000_000 && t1 * r >= 0) by (nonlinear_arith)
                requires
                    0 <= t1 <= 20_000_000,
                    0 <= r <= 5_000_000,
            ;
        }
        let area = div_tz(t1 * r, MICRO);
        proof {
            assert(area * vc <= 1_000_000_000_000_000_000 && area * vc >= 0)
                by (nonlinear_arith)
                requires
                    0 <= area <= 100_000_000,
                    0 <= vc <= 10_000_000_000,
            ;
            assert(qdiv(area * vc, MICRO as int) <= 2_000_000_000_000) by (nonlinear_arith)
                requires
                    0 <= area * vc <= 1_000_000_000_000_000_000,
            ;
        }
        div_tz(area * vc, MICRO)
    }

    /// Screw speed required for flow `target_volume_rate`.
    pub fn calculate_required_rpm(&self, target_volume_rate: i64) -> (rpm: i64)
        requires
            -FLOW_INPUT_MAX <= target_volume_rate <= FLOW_INPUT_MAX,
        ensures
            rpm == required_rpm_spec(target_volume_rate as int),
    {
        proof {
            assert(target_volume_rate * (60 * MICRO) <= 600_000_000_000_000_000
                && target_volume_rate * (60 * MICRO) >= -600_000_000_000_000_000)
                by (nonlinear_arith)
                requires
                    -FLOW_INPUT_MAX <= target_volume_rate <= FLOW_INPUT_MAX,
            ;
        }
        div_tz(target_volume_rate * (60 * MICRO), SCREW_DISPLACEMENT_MICRO)
    }

    /// Whether the measured diameter lies within the loose tolerance.
    pub fn is_diameter_in_tolerance(&self) -> (r: bool)
        requires
            self.wf(),
        ensures
            r == (abs_spec(self.current_diameter - self.target_diameter)
                <= self.max_diameter_tolerance),
    {
        let error = abs_i64(self.current_diameter - self.target_diameter);
        error <= self.max_diameter_tolerance
    }

    /// Whether the measured diameter lies within the tight tolerance.
    pub fn is_diameter_in_tight_tolerance(&self) -> (r: bool)
        requires
            self.wf(),
        ensures
            r == (abs_spec(self.current_diameter - self.target_diameter)
                <= self.min_diameter_tolerance),
    {
        let error = abs_i64(self.current_diameter - self.target_diameter);
        error <= self.min_diameter_tolerance
    }

    /// Puller-speed adjustment for a diameter correction: a positive
    /// correction (diameter too small) slows the puller so more
    /// material accumulates per unit length.
    pub fn calculate_winder_adjustment(&self, diameter_correction: i64, current_speed: i64) -> (r:
        i64)
        requires
            -crate::pid::PID_OUTPUT_MAX <= diameter_correction <= crate::pid::PID_OUTPUT_MAX,
            -SPEED_INPUT_MAX <= current_speed <= SPEED_INPUT_MAX,
        ensures
            r == winder_adjustment_spec(diameter_correction as int, current_speed as int),
            -FILTER_STATE_MAX <= r <= FILTER_STATE_MAX,
    {
        proof {
            assert(diameter_correction * current_speed <= 1_000_000_000_000_000_000
                && diameter_correction * current_speed >= -1_000_000_000_000_000_000)
                by (nonlinear_arith)
                requires
                    -crate::pid::PID_OUTPUT_MAX <= diameter_correction
                        <= crate::pid::PID_OUTPUT_MAX,
                    -SPEED_INPUT_MAX <= current_speed <= SPEED_INPUT_MAX,
            ;
        }
        -div_tz(diameter_correction * current_speed, WINDER_ADJUST_DIV)
    }

    /// Extruder-speed adjustment for a flow correction: rpm per unit
    /// flow is `60 / displacement`.
    pub fn calculate_extruder_adjustment(&self, volume_correction: i64) -> (r: i64)
        requires
            -crate::pid::PID_OUTPUT_MAX <= volume_correction <= crate::pid::PID_OUTPUT_MAX,
        ensures
            r == extruder_adjustment_spec(volume_correction as int),
            -FILTER_STATE_MAX <= r <= FILTER_STATE_MAX,
    {
        let rpm_per_volume = (60 * MICRO) / SCREW_DISPLACEMENT_MICRO;
        proof {
            assert(volume_correction * 120 <= FILTER_STATE_MAX && volume_correction * 120
                >= -FILTER_STATE_MAX) by (nonlinear_arith)
                requires
                    -crate::pid::PID_OUTPUT_MAX <= volume_correction
                        <= crate::pid::PID_OUTPUT_MAX,
            ;
        }
        volume_correction * rpm_per_volume
    }

    /// First-order low-pass for smooth adjustments: moves `prev`
    /// toward `new_value` by the fraction `alpha`, so the result lies
    /// between the two.
    pub fn apply_filter(&self, prev: i64, new_value: i64, alpha: i64) -> (r: i64)
        requires
            -FILTER_STATE_MAX <= prev <= FILTER_STATE_MAX,
            -FILTER_STATE_MAX <= new_value <= FILTER_STATE_MAX,
            0 <= alpha <= FILTER_ALPHA_MAX,
        ensures
            r == ema_spec(prev as int, new_value as int, alpha as int),
            -FILTER_STATE_MAX <= r <= FILTER_STATE_MAX,
    {
        let diff = new_value - prev;
        proof {
            assert(alpha * diff <= 8_000_000_000_000_000_000 && alpha * diff
                >= -8_000_000_000_000_000_000) by (nonlinear_arith)
                requires
                    0 <= alpha <= FILTER_ALPHA_MAX,
                    -2 * FILTER_STATE_MAX <= diff <= 2 * FILTER_STATE_MAX,
            ;
            assert(diff >= 0 ==> 0 <= qdiv(alpha * diff, MICRO as int) <= diff)
                by (nonlinear_arith)
                requires
                    0 <= alpha <= MICRO,
            ;
            assert(diff <= 0 ==> diff <= qdiv(alpha * diff, MICRO as int) <= 0)
                by (nonlinear_arith)
                requires
                    0 <= alpha <= MICRO,
            ;
        }
        prev + div_tz(alpha * diff, MICRO)
    }

    /// One enabled control tick at `t` given the extruder speed and
    /// the line speed: recompute both flows, run both PIDs on the two
    /// errors, mix the corrections per the strategy, low-pass each
    /// output, and report.  A disabled regulator emits the all-zero
    /// record and does not advance any state.
    pub fn update(&mut self, current_time: u64, current_extruder_rpm: i64,
        current_filament_speed: i64) -> (out: DiameterControlOutput)
        requires
            old(self).wf(),
            current_time <= TIMESTAMP_MAX,
            0 <= current_extruder_rpm <= RPM_INPUT_MAX,
            0 <= current_filament_speed <= SPEED_INPUT_MAX,
        ensures
            final(self).wf(),
            !old(self).enabled ==> out == (DiameterControlOutput {
                winder_speed_adjustment: 0,
                extruder_rpm_adjustment: 0,
                diameter_error: 0,
                volume_error: 0,
                is_in_tolerance: false,
                is_in_tight_tolerance: false,
                current_volume_rate: 0,
                target_volume_rate: 0,
                process_speed_factor: 0,
            }) && *final(self) == *old(self),
            old(self).enabled ==> ({
                let dt = regulator_dt(old(self).last_update, current_time);
                let c_q = flow_from_rpm_spec(current_extruder_rpm as int);
                let s_v = qdiv(
                    current_filament_speed * old(self).speed_scale_factor,
                    MICRO as int,
                );
                let t_q = required_flow_spec(old(self).target_diameter as int, s_v);
                let e_d = old(self).target_diameter - old(self).current_diameter;
                let e_q = t_q - c_q;
                let u_d = old(self).diameter_pid.step_output(e_d, dt);
                let u_q = old(self).volume_pid.step_output(e_q, dt);
                let w_raw = winder_adjustment_spec(
                    qdiv(u_d * winder_coefficient(old(self).strategy), MICRO as int),
                    current_filament_speed as int,
                );
                let e_raw = extruder_adjustment_spec(
                    qdiv(u_q * extruder_coefficient(old(self).strategy), MICRO as int),
                );
                let w_f = ema_spec(
                    old(self).winder_filter_state as int,
                    w_raw,
                    old(self).speed_filter_alpha as int,
                );
                let e_f = ema_spec(
                    old(self).extruder_filter_state as int,
                    e_raw,
                    old(self).volume_filter_alpha as int,
                );
                &&& out.winder_speed_adjustment == w_f
                &&& out.extruder_rpm_adjustment == e_f
                &&& out.diameter_error == e_d
                &&& out.volume_error == e_q
                &&& out.is_in_tolerance == (abs_spec(e_d) <= old(self).max_diameter_tolerance)
                &&& out.is_in_tight_tolerance == (abs_spec(e_d)
                    <= old(self).min_diameter_tolerance)
                &&& out.current_volume_rate == c_q
                &&& out.target_volume_rate == t_q
                &&& out.process_speed_factor == old(self).speed_scale_factor
                &&& final(self).current_volume_rate == c_q
                &&& final(self).target_volume_rate == t_q
                &&& final(self).last_update == Some(current_time)
                &&& final(self).winder_filter_state == w_f
                &&& final(self).extruder_filter_state == e_f
                &&& final(self).diameter_pid.gains() == old(self).diameter_pid.gains()
                &&& final(self).volume_pid.gains() == old(self).volume_pid.gains()
                &&& final(self).diameter_pid.integral_state() == crate::pid::pid_integral_next(
                    old(self).diameter_pid.integral_state(),
                    crate::pid::pid_input(e_d),
                    crate::pid::pid_dt(dt),
                )
                &&& final(self).diameter_pid.last_error_state() == crate::pid::pid_input(e_d)
                &&& final(self).volume_pid.integral_state() == crate::pid::pid_integral_next(
                    old(self).volume_pid.integral_state(),
                    crate::pid::pid_input(e_q),
                    crate::pid::pid_dt(dt),
                )
                &&& final(self).volume_pid.last_error_state() == crate::pid::pid_input(e_q)
                &&& final(self).target_diameter == old(self).target_diameter
                &&& final(self).current_diameter == old(self).current_diameter
                &&& final(self).strategy == old(self).strategy
                &&& final(self).enabled
                &&& final(self).speed_scale_factor == old(self).speed_scale_factor
                &&& final(self).min_diameter_tolerance == old(self).min_diameter_tolerance
                &&& final(self).max_diameter_tolerance == old(self).max_diameter_tolerance
                &&& final(self).speed_filter_alpha == old(self).speed_filter_alpha
                &&& final(self).volume_filter_alpha == old(self).volume_filter_alpha
                &&& final(self).min_process_speed_factor == old(self).min_process_speed_factor
                &&& final(self).max_process_speed_factor == old(self).max_process_speed_factor
                &&& (old(self).strategy == DiameterControlStrategy::WinderOnly && old(
                    self,
                ).extruder_filter_state == 0 ==> out.extruder_rpm_adjustment == 0)
                &&& (old(self).strategy == DiameterControlStrategy::ExtruderOnly && old(
                    self,
                ).winder_filter_state == 0 ==> out.winder_speed_adjustment == 0)
            }),
    {
        if !self.enabled {
            return Default::default();
        }
        let dt: u64 = match self.last_update {
            Some(last) => {
                if current_time >= last {
                    current_time - last
                } else {
                    0
                }
            },
            None => DEFAULT_DT_MICROS,
        };
        self.last_update = Some(current_time);
        let c_q = self.calculate_volume_rate_from_rpm(current_extruder_rpm);
        self.current_volume_rate = c_q;
        proof {
            assert(current_filament_speed * self.speed_scale_factor <= 20_000_000_000_000
                && current_filament_speed * self.speed_scale_factor >= 0) by (nonlinear_arith)
                requires
                    0 <= current_filament_speed <= SPEED_INPUT_MAX,
                    0 < self.speed_scale_factor <= MAX_SPEED_FACTOR,
            ;
            assert(0 <= qdiv(current_filament_speed * self.speed_scale_factor, MICRO as int)
                <= 20_000_000) by (nonlinear_arith)
                requires
                    0 <= current_filament_speed * self.speed_scale_factor
                        <= 20_000_000_000_000,
            ;
        }
        let scaled_speed = div_tz(current_filament_speed * self.speed_scale_factor, MICRO);
        let t_q = self.calculate_required_volume_rate(self.target_diameter, scaled_speed);
        self.target_volume_rate = t_q;
        let diameter_error = self.target_diameter - self.current_diameter;
        let volume_error = t_q - c_q;
        let diameter_correction = self.diameter_pid.update(diameter_error, dt);
        let volume_correction = self.volume_pid.update(volume_error, dt);
        let (winder_share, extruder_share): (i64, i64) = match self.strategy {
            DiameterControlStrategy::WinderOnly => (1_000_000, 0),
            DiameterControlStrategy::ExtruderOnly => (0, 1_000_000),
            DiameterControlStrategy::Balanced => (600_000, 400_000),
            DiameterControlStrategy::SpeedPrioritized => (200_000, 800_000),
        };
        proof {
            assert(diameter_correction * winder_share <= 100_000_000_000_000_000
                && diameter_correction * winder_share >= -100_000_000_000_000_000
                && volume_correction * extruder_share <= 100_000_000_000_000_000
                && volume_correction * extruder_share >= -100_000_000_000_000_000)
                by (nonlinear_arith)
                requires
                    -crate::pid::PID_OUTPUT_MAX <= diameter_correction
                        <= crate::pid::PID_OUTPUT_MAX,
                    -crate::pid::PID_OUTPUT_MAX <= volume_correction
                        <= crate::pid::PID_OUTPUT_MAX,
                    0 <= winder_share <= MICRO,
                    0 <= extruder_share <= MICRO,
            ;
            assert(abs_spec(qdiv(diameter_correction * winder_share, MICRO as int))
                <= abs_spec(diameter_correction as int)
                && abs_spec(qdiv(volume_correction * extruder_share, MICRO as int))
                <= abs_spec(volume_correction as int)) by (nonlinear_arith)
                requires
                    -crate::pid::PID_OUTPUT_MAX <= diameter_correction
                        <= crate::pid::PID_OUTPUT_MAX,
                    -crate::pid::PID_OUTPUT_MAX <= volume_correction
                        <= crate::pid::PID_OUTPUT_MAX,
                    0 <= winder_share <= MICRO,
                    0 <= extruder_share <= MICRO,
            ;
        }
        let winder_input = div_tz(diameter_correction * winder_share, MICRO);
        let extruder_input = div_tz(volume_correction * extruder_share, MICRO);
        let winder_adjustment = self.calculate_winder_adjustment(
            winder_input,
            current_filament_speed,
        );
        let extruder_adjustment = self.calculate_extruder_adjustment(extruder_input);
        let filtered_winder_adj = self.apply_filter(
            self.winder_filter_state,
            winder_adjustment,
            self.speed_filter_alpha,
        );
        let filtered_extruder_adj = self.apply_filter(
            self.extruder_filter_state,
            extruder_adjustment,
            self.volume_filter_alpha,
        );
        proof {
            if old(self).strategy == DiameterControlStrategy::WinderOnly
                && old(self).extruder_filter_state == 0 {
                assert(volume_correction as int * extruder_share as int == 0)
                    by (nonlinear_arith)
                    requires
                        extruder_share == 0,
                ;
                assert(extruder_input == 0);
                assert(0int * qdiv(60 * MICRO, SCREW_DISPLACEMENT_MICRO as int) == 0)
                    by (nonlinear_arith);
                assert(extruder_adjustment == 0);
                assert(self.volume_filter_alpha as int * 0 == 0) by (nonlinear_arith);
                assert(filtered_extruder_adj == 0);
            }
            if old(self).strategy == DiameterControlStrategy::ExtruderOnly
                && old(self).winder_filter_state == 0 {
                assert(diameter_correction as int * winder_share as int == 0)
                    by (nonlinear_arith)
                    requires
                        winder_share == 0,
                ;
                assert(winder_input == 0);
                assert(0int * current_filament_speed as int == 0) by (nonlinear_arith);
                assert(winder_adjustment == 0);
                assert(self.speed_filter_alpha as int * 0 == 0) by (nonlinear_arith);
                assert(filtered_winder_adj == 0);
            }
        }
        self.winder_filter_state = filtered_winder_adj;
        self.extruder_filter_state = filtered_extruder_adj;
        DiameterControlOutput {
            winder_speed_adjustment: filtered_winder_adj,
            extruder_rpm_adjustment: filtered_extruder_adj,
            diameter_error,
            volume_error,
            is_in_tolerance: self.is_diameter_in_tolerance(),
            is_in_tight_tolerance: self.is_diameter_in_tight_tolerance(),
            current_volume_rate: c_q,
            target_volume_rate: t_q,
            process_speed_factor: self.speed_scale_factor,
        }
    }

    /// Diagnostic snapshot of the regulator's state.
    pub fn get_diagnostics(&self) -> (r: DiameterControlDiagnostics)
        requires
            self.wf(),
        ensures
            r.target_diameter == self.target_diameter,
            r.current_diameter == self.current_diameter,
            r.target_volume_rate == self.target_volume_rate,
            r.current_volume_rate == self.current_volume_rate,
            r.diameter_error == self.target_diameter - self.current_diameter,
            r.strategy == self.strategy,
            r.enabled == self.enabled,
            r.speed_scale_factor == self.speed_scale_factor,
            r.is_in_tolerance == (abs_spec(self.current_diameter - self.target_diameter)
                <= self.max_diameter_tolerance),
            r.is_in_tight_tolerance == (abs_spec(self.current_diameter - self.target_diameter)
                <= self.min_diameter_tolerance),
    {
        DiameterControlDiagnostics {
            target_diameter: self.target_diameter,
            current_diameter: self.current_diameter,
            target_volume_rate: self.target_volume_rate,
            current_volume_rate: self.current_volume_rate,
            diameter_error: self.target_diameter - self.current_diameter,
            strategy: self.strategy,
            enabled: self.enabled,
            speed_scale_factor: self.speed_scale_factor,
            is_in_tolerance: self.is_diameter_in_tolerance(),
            is_in_tight_tolerance: self.is_diameter_in_tight_tolerance(),
        }
    }
}

/// When the measured diameter equals the target and the screw's flow
/// equals the required flow, one update of a regulator whose PIDs and
/// low-passes are at rest (as they are after construction or after a
/// disable) yields zero speed and zero extruder adjustment, whatever
/// the strategy and whatever the tick time.
pub proof fn lemma_zero_error_zero_output(c: DiameterController, t: u64, rpm: int, v: int)
    requires
        c.wf(),
        c.diameter_pid.is_reset(),
        c.volume_pid.is_reset(),
        c.winder_filter_state == 0,
        c.extruder_filter_state == 0,
        c.current_diameter == c.target_diameter,
        flow_from_rpm_spec(rpm) == required_flow_spec(
            c.target_diameter as int,
            qdiv(v * c.speed_scale_factor, MICRO as int),
        ),
    ensures
        ({
            let dt = regulator_dt(c.last_update, t);
            let c_q = flow_from_rpm_spec(rpm);
            let s_v = qdiv(v * c.speed_scale_factor, MICRO as int);
            let t_q = required_flow_spec(c.target_diameter as int, s_v);
            let u_d = c.diameter_pid.step_output(c.target_diameter - c.current_diameter, dt);
            let u_q = c.volume_pid.step_output(t_q - c_q, dt);
            let w_f = ema_spec(
                c.winder_filter_state as int,
                winder_adjustment_spec(
                    qdiv(u_d * winder_coefficient(c.strategy), MICRO as int),
                    v,
                ),
                c.speed_filter_alpha as int,
            );
            let e_f = ema_spec(
                c.extruder_filter_state as int,
                extruder_adjustment_spec(
                    qdiv(u_q * extruder_coefficient(c.strategy), MICRO as int),
                ),
                c.volume_filter_alpha as int,
            );
            u_d == 0 && u_q == 0 && w_f == 0 && e_f == 0
        }),
{
    let dt = regulator_dt(c.last_update, t);
    let step = crate::pid::pid_dt(dt);
    assert(step >= 1);
    assert(0int * step == 0) by (nonlinear_arith);
    assert(0int / (MICRO as int) == 0) by (nonlinear_arith);
    assert(0int / step == 0) by (nonlinear_arith)
        requires
            step >= 1,
    ;
    let (dkp, dki, dkd) = c.diameter_pid.gains();
    assert(dkp * 0 + dki * 0 + dkd * 0 == 0) by (nonlinear_arith);
    let (vkp, vki, vkd) = c.volume_pid.gains();
    assert(vkp * 0 + vki * 0 + vkd * 0 == 0) by (nonlinear_arith);
    assert(c.diameter_pid.step_output(0, dt) == 0);
    assert(c.volume_pid.step_output(0, dt) == 0);
    assert(0int * winder_coefficient(c.strategy) == 0) by (nonlinear_arith);
    assert(0int * extruder_coefficient(c.strategy) == 0) by (nonlinear_arith);
    assert(0int * v == 0) by (nonlinear_arith);
    assert(winder_adjustment_spec(0, v) == 0);
    assert(0int * qdiv(60 * MICRO, SCREW_DISPLACEMENT_MICRO as int) == 0) by (nonlinear_arith);
    assert(extruder_adjustment_spec(0) == 0);
    assert(c.speed_filter_alpha as int * 0 == 0) by (nonlinear_arith);
    assert(c.volume_filter_alpha as int * 0 == 0) by (nonlinear_arith);
}

/// Strategy mixing signs, for unit positive corrections: a diameter
/// correction of one (diameter too small) and a flow correction of one
/// (flow too low) give, under the balanced strategy and low-passes at
/// rest, a strictly negative puller adjustment (slow the puller) and a
/// strictly positive extruder adjustment (push the extruder); the
/// winder-only strategy moves the extruder not at all, and the
/// extruder-only strategy moves the puller not at all.
pub proof fn lemma_strategy_mixing(u_d: int, u_q: int, v: int)
    requires
        u_d == MICRO,
        u_q == MICRO,
        200 <= v <= SPEED_INPUT_MAX,
    ensures
        ema_spec(
            0,
            winder_adjustment_spec(
                qdiv(u_d * winder_coefficient(DiameterControlStrategy::Balanced), MICRO as int),
                v,
            ),
            100_000,
        ) < 0,
        ema_spec(
            0,
            extruder_adjustment_spec(
                qdiv(
                    u_q * extruder_coefficient(DiameterControlStrategy::Balanced),
                    MICRO as int,
                ),
            ),
            150_000,
        ) > 0,
        extruder_adjustment_spec(
            qdiv(u_q * extruder_coefficient(DiameterControlStrategy::WinderOnly), MICRO as int),
        ) == 0,
        winder_adjustment_spec(
            qdiv(u_d * winder_coefficient(DiameterControlStrategy::ExtruderOnly), MICRO as int),
            v,
        ) == 0,
{
    assert(qdiv(u_d * 600_000, MICRO as int) == 600_000) by (nonlinear_arith)
        requires
            u_d == MICRO,
    ;
    assert(qdiv(u_q * 400_000, MICRO as int) == 400_000) by (nonlinear_arith)
        requires
            u_q == MICRO,
    ;
    assert(qdiv(600_000 * v, WINDER_ADJUST_DIV as int) >= 10) by (nonlinear_arith)
        requires
            v >= 200,
    ;
    let w_raw = winder_adjustment_spec(600_000, v);
    assert(w_raw <= -10);
    assert(qdiv(100_000 * w_raw, MICRO as int) <= -1) by (nonlinear_arith)
        requires
            w_raw <= -10,
    ;
    assert(extruder_adjustment_spec(400_000) == 48_000_000);
    assert(qdiv((150_000 * 48_000_000) as int, MICRO as int) == 7_200_000) by (nonlinear_arith);
    assert(qdiv(u_q * 0, MICRO as int) == 0) by (nonlinear_arith);
    assert(qdiv(u_d * 0, MICRO as int) == 0) by (nonlinear_arith);
    assert(0int * qdiv(60 * MICRO, SCREW_DISPLACEMENT_MICRO as int) == 0) by (nonlinear_arith);
    assert(0int * v == 0) by (nonlinear_arith);
}

/// Sign convention of the correction pipeline, for corrections of any
/// magnitude and any strategy, with the low-passes at rest: a
/// non-negative diameter correction (diameter too small or on target)
/// never speeds the puller up, and a non-negative flow correction
/// (flow too low or on target) never slows the extruder.  Strict
/// movement for concrete corrections is `lemma_strategy_mixing`;
/// corrections small enough to truncate to zero move neither actuator.
pub proof fn lemma_mixing_signs(
    u_d: int,
    u_q: int,
    v: int,
    strategy: DiameterControlStrategy,
    alpha_v: int,
    alpha_q: int,
)
    requires
        0 <= u_d,
        0 <= u_q,
        0 <= v,
        0 <= alpha_v <= MICRO,
        0 <= alpha_q <= MICRO,
    ensures
        ema_spec(
            0,
            winder_adjustment_spec(qdiv(u_d * winder_coefficient(strategy), MICRO as int), v),
            alpha_v,
        ) <= 0,
        ema_spec(
            0,
            extruder_adjustment_spec(qdiv(u_q * extruder_coefficient(strategy), MICRO as int)),
            alpha_q,
        ) >= 0,
{
    let c_w = winder_coefficient(strategy);
    let c_e = extruder_coefficient(strategy);
    assert(0 <= c_w <= MICRO && 0 <= c_e <= MICRO);
    assert(u_d * c_w >= 0) by (nonlinear_arith)
        requires
            0 <= u_d,
            0 <= c_w,
    ;
    vstd::arithmetic::div_mod::lemma_div_pos_is_pos(u_d * c_w, MICRO as int);
    let s_w = qdiv(u_d * c_w, MICRO as int);
    assert(s_w * v >= 0) by (nonlinear_arith)
        requires
            0 <= s_w,
            0 <= v,
    ;
    vstd::arithmetic::div_mod::lemma_div_pos_is_pos(s_w * v, WINDER_ADJUST_DIV as int);
    let w_raw = winder_adjustment_spec(s_w, v);
    assert(w_raw <= 0);
    assert(alpha_v * (w_raw - 0) <= 0) by (nonlinear_arith)
        requires
            0 <= alpha_v,
            w_raw <= 0,
    ;
    let n_w = alpha_v * (w_raw - 0);
    if n_w < 0 {
        vstd::arithmetic::div_mod::lemma_div_pos_is_pos(-n_w, MICRO as int);
    } else {
        assert(n_w == 0);
    }
    assert(qdiv(n_w, MICRO as int) <= 0);
    assert(u_q * c_e >= 0) by (nonlinear_arith)
        requires
            0 <= u_q,
            0 <= c_e,
    ;
    vstd::arithmetic::div_mod::lemma_div_pos_is_pos(u_q * c_e, MICRO as int);
    let s_e = qdiv(u_q * c_e, MICRO as int);
    assert(qdiv(60 * MICRO, SCREW_DISPLACEMENT_MICRO as int) == 120);
    assert(s_e * 120 >= 0) by (nonlinear_arith)
        requires
            0 <= s_e,
    ;
    let e_raw = extruder_adjustment_spec(s_e);
    assert(e_raw >= 0);
    assert(alpha_q * (e_raw - 0) >= 0) by (nonlinear_arith)
        requires
            0 <= alpha_q,
            e_raw >= 0,
    ;
    vstd::arithmetic::div_mod::lemma_div_pos_is_pos(alpha_q * (e_raw - 0), MICRO as int);
}

} // verus!
