//! Laser diameter aggregator: merges per-tick laser readings, keeps the
//! sliding min/max window, computes roundness, and builds the events
//! that the caller publishes.

use vstd::prelude::*;
use crate::units::{MICRO, DIAMETER_MAX, qdiv};
use crate::sliding_window::{
    DiameterMeasurement,
    DiameterTracker,
    TIMESTAMP_MAX,
    TIMEFRAME_MINUTES_MAX,
    MINUTE_MICROS,
    evict_front,
};
use vstd::arithmetic::div_mod::{
    lemma_div_is_ordered,
    lemma_div_multiples_vanish,
    lemma_div_pos_is_pos,
};
use vstd::arithmetic::mul::lemma_mul_inequality;

verus! {

/// Default regulation target: 1.75 mm in micro-millimetres.
pub const DEFAULT_TARGET_DIAMETER: i64 = 1_750_000;

/// Default tolerance on either side of the target: 0.05 mm.
pub const DEFAULT_TOLERANCE: i64 = 50_000;

/// Default min/max window: 30 minutes.
pub const DEFAULT_TIMEFRAME_MINUTES: u64 = 30;

/// A rejected configuration value.
#[derive(Clone, Copy, Debug, PartialEq, Eq, Structural)]
pub enum ConfigError {
    /// The value is negative or beyond the machine's admitted range.
    OutOfRange,
}

/// One laser reading: main diameter and, when the device reports them,
/// the two orthogonal axis diameters, all micro-millimetres.
#[derive(Clone, Copy, Debug, PartialEq, Eq, Structural)]
pub struct LaserSample {
    pub diameter: i64,
    pub x_diameter: Option<i64>,
    pub y_diameter: Option<i64>,
}

/// Regulator setpoint for the laser machine.
#[derive(Debug, Clone, Copy, PartialEq, Eq, Structural)]
pub struct LaserTarget {
    /// Target diameter, micro-millimetres.
    pub diameter: i64,
    /// Allowed shortfall below the target, micro-millimetres.
    pub lower_tolerance: i64,
    /// Allowed excess above the target, micro-millimetres.
    pub higher_tolerance: i64,
    /// Min/max window width, minutes.
    pub min_max_timeframe_minutes: u64,
}

/// Live snapshot published each tick.
#[derive(Debug, Clone, Copy, PartialEq, Eq, Structural)]
pub struct LiveValuesEvent {
    pub diameter: i64,
    pub x_diameter: Option<i64>,
    pub y_diameter: Option<i64>,
    /// Ratio of minor to major axis, millionths; `MICRO` is circular.
    pub roundness: Option<i64>,
}

/// Rolling min/max over the configured window.
#[derive(Debug, Clone, Copy, PartialEq, Eq, Structural)]
pub struct MinMaxDiameterEvent {
    pub min_diameter: Option<i64>,
    pub max_diameter: Option<i64>,
    pub timeframe_minutes: u64,
}

/// The laser target as published to clients.
#[derive(Debug, Clone, Copy, PartialEq, Eq, Structural)]
pub struct LaserState {
    pub higher_tolerance: i64,
    pub lower_tolerance: i64,
    pub target_diameter: i64,
    pub min_max_timeframe_minutes: u64,
}

/// Published machine state.
#[derive(Debug, Clone, Copy, PartialEq, Eq, Structural)]
pub struct StateEvent {
    /// True exactly on the first state emission after construction.
    pub is_default_state: bool,
    pub laser_state: LaserState,
}

/// Roundness of a reading: `min(x, y) / max(x, y)` in millionths when
/// both axes are positive, zero when both are exactly zero, absent
/// otherwise.
pub open spec fn roundness_of(x: Option<i64>, y: Option<i64>) -> Option<i64> {
    match (x, y) {
        (Some(xv), Some(yv)) => if xv > 0 && yv > 0 {
            if xv <= yv {
                Some(qdiv(xv * MICRO, yv as int) as i64)
            } else {
                Some(qdiv(yv * MICRO, xv as int) as i64)
            }
        } else if xv == 0 && yv == 0 {
            Some(0i64)
        } else {
            None
        },
        _ => None,
    }
}

/// Roundness lies in `[0, MICRO]` whenever it is present; it is
/// present exactly when both axes are present, for every reading in
/// which the two axes are either both zero or both positive; and it
/// is absent when either axis is missing, and also when exactly one
/// axis is zero while the other is positive.
pub proof fn lemma_roundness_range(x: Option<i64>, y: Option<i64>)
    requires
        x is Some ==> 0 <= x->0 <= DIAMETER_MAX,
        y is Some ==> 0 <= y->0 <= DIAMETER_MAX,
    ensures
        roundness_of(x, y) is Some ==> 0 <= roundness_of(x, y)->0 <= MICRO,
        (x is Some && y is Some && (x->0 > 0 && y->0 > 0 || x->0 == 0 && y->0 == 0))
            ==> roundness_of(x, y) is Some,
        (x is None || y is None) ==> roundness_of(x, y) is None,
        (x is Some && y is Some && (x->0 == 0 && y->0 > 0 || x->0 > 0 && y->0 == 0))
            ==> roundness_of(x, y) is None,
{
    if x is Some && y is Some {
        let xv = x->0 as int;
        let yv = y->0 as int;
        if xv > 0 && yv > 0 {
            let (lo, hi) = if xv <= yv {
                (xv, yv)
            } else {
                (yv, xv)
            };
            lemma_mul_inequality(lo, hi, MICRO as int);
            lemma_div_is_ordered(lo * MICRO, hi * MICRO, hi);
            lemma_div_multiples_vanish(MICRO as int, hi);
            lemma_div_pos_is_pos(lo * MICRO, hi);
            assert(hi * MICRO == MICRO * hi) by (nonlinear_arith);
            assert(lo * MICRO >= 0) by (nonlinear_arith)
                requires
                    lo > 0,
            ;
        }
    }
}

/// The laser machine's verified core: cached live values, the sliding
/// min/max window, the target configuration, and the default-state
/// flag for the first state emission.
#[derive(Debug)]
pub struct LaserMachine {
    /// Last known main diameter, micro-millimetres; kept across
    /// dropouts, zero until a reading arrives.
    pub diameter: i64,
    pub x_diameter: Option<i64>,
    pub y_diameter: Option<i64>,
    /// Roundness of the latest reading, millionths.
    pub roundness: Option<i64>,
    pub diameter_tracker: DiameterTracker,
    pub laser_target: LaserTarget,
    /// False until the first state emission.
    pub emitted_default_state: bool,
}

impl LaserMachine {
    pub open spec fn wf(&self) -> bool {
        &&& self.diameter_tracker.wf()
        &&& 0 <= self.laser_target.diameter <= DIAMETER_MAX
        &&& 0 <= self.laser_target.lower_tolerance <= DIAMETER_MAX
        &&& 0 <= self.laser_target.higher_tolerance <= DIAMETER_MAX
        &&& self.laser_target.min_max_timeframe_minutes <= TIMEFRAME_MINUTES_MAX
        &&& self.diameter_tracker.window() == self.laser_target.min_max_timeframe_minutes
            * MINUTE_MICROS
        &&& -DIAMETER_MAX <= self.diameter <= DIAMETER_MAX
        &&& (self.x_diameter is Some ==> -DIAMETER_MAX <= self.x_diameter->0 <= DIAMETER_MAX)
        &&& (self.y_diameter is Some ==> -DIAMETER_MAX <= self.y_diameter->0 <= DIAMETER_MAX)
    }

    /// A machine with the default target, an empty window, and the
    /// default-state emission still pending.
    pub fn new() -> (r: Self)
        ensures
            r.wf(),
            !r.emitted_default_state,
            r.laser_target == (LaserTarget {
                diameter: DEFAULT_TARGET_DIAMETER,
                lower_tolerance: DEFAULT_TOLERANCE,
                higher_tolerance: DEFAULT_TOLERANCE,
                min_max_timeframe_minutes: DEFAULT_TIMEFRAME_MINUTES,
            }),
            r.diameter_tracker.samples().len() == 0,
            r.diameter == 0,
            r.x_diameter is None,
            r.y_diameter is None,
            r.roundness is None,
    {
        Self {
            diameter: 0,
            x_diameter: None,
            y_diameter: None,
            roundness: None,
            diameter_tracker: DiameterTracker::new(DEFAULT_TIMEFRAME_MINUTES),
            laser_target: LaserTarget {
                diameter: DEFAULT_TARGET_DIAMETER,
                lower_tolerance: DEFAULT_TOLERANCE,
                higher_tolerance: DEFAULT_TOLERANCE,
                min_max_timeframe_minutes: DEFAULT_TIMEFRAME_MINUTES,
            },
            emitted_default_state: false,
        }
    }

    /// Merge one tick's laser reading at `timestamp`.  An absent
    /// reading is a sensor dropout: the window and every cached live
    /// value stay as they were, so regulation continues on the last
    /// known diameter.  A present reading is cached (a present zero
    /// diameter included: the caching rules govern it, and the
    /// roundness-of-zero rule presupposes it), roundness is
    /// recomputed, and the main diameter enters the window when it is
    /// positive (zero is dropout noise and is not tracked; an
    /// out-of-order sample is discarded).
    pub fn update(&mut self, data: Option<LaserSample>, timestamp: u64)
        requires
            old(self).wf(),
            timestamp <= TIMESTAMP_MAX,
            data is Some ==> {
                let s = data->0;
                &&& -DIAMETER_MAX <= s.diameter <= DIAMETER_MAX
                &&& (s.x_diameter is Some ==> -DIAMETER_MAX <= s.x_diameter->0 <= DIAMETER_MAX)
                &&& (s.y_diameter is Some ==> -DIAMETER_MAX <= s.y_diameter->0 <= DIAMETER_MAX)
            },
        ensures
            final(self).wf(),
            final(self).laser_target == old(self).laser_target,
            final(self).emitted_default_state == old(self).emitted_default_state,
            final(self).diameter_tracker.window() == old(self).diameter_tracker.window(),
            data is None ==> *final(self) == *old(self),
            data is Some ==> ({
                let s = data->0;
                let st = old(self).diameter_tracker.samples();
                &&& final(self).diameter == s.diameter
                &&& final(self).x_diameter == s.x_diameter
                &&& final(self).y_diameter == s.y_diameter
                &&& final(self).roundness == roundness_of(s.x_diameter, s.y_diameter)
                &&& final(self).diameter_tracker.samples() == if s.diameter > 0 {
                    if st.len() > 0 && timestamp < st.last().timestamp {
                        st
                    } else {
                        evict_front(
                            st.push(DiameterMeasurement { diameter: s.diameter, timestamp }),
                            timestamp as int,
                            old(self).diameter_tracker.window(),
                        )
                    }
                } else {
                    st
                }
            }),
    {
        let (d, x, y): (i64, Option<i64>, Option<i64>) = match data {
            Some(s) => (s.diameter, s.x_diameter, s.y_diameter),
            None => {
                return ;
            },
        };
        self.diameter = d;
        if d > 0 {
            let _discarded_if_out_of_order = self.diameter_tracker.add_measurement(d, timestamp);
        }
        self.x_diameter = x;
        self.y_diameter = y;
        self.roundness = Self::calculate_roundness(x, y);
    }

    /// Roundness of a pair of axis readings, as `roundness_of` states.
    fn calculate_roundness(x: Option<i64>, y: Option<i64>) -> (r: Option<i64>)
        requires
            x is Some ==> -DIAMETER_MAX <= x->0 <= DIAMETER_MAX,
            y is Some ==> -DIAMETER_MAX <= y->0 <= DIAMETER_MAX,
        ensures
            r == roundness_of(x, y),
    {
        match (x, y) {
            (Some(xv), Some(yv)) => {
                if xv > 0 && yv > 0 {
                    proof {
                        assert(xv * MICRO <= 100_000_000_000_000 && yv * MICRO
                            <= 100_000_000_000_000) by (nonlinear_arith)
                            requires
                                0 < xv <= DIAMETER_MAX,
                                0 < yv <= DIAMETER_MAX,
                        ;
                    }
                    if xv <= yv {
                        Some(crate::units::div_tz(xv * MICRO, yv))
                    } else {
                        Some(crate::units::div_tz(yv * MICRO, xv))
                    }
                } else if xv == 0 && yv == 0 {
                    Some(0)
                } else {
                    None
                }
            },
            _ => None,
        }
    }

    /// The live-values event for the current caches.
    pub fn emit_live_values(&self) -> (ev: LiveValuesEvent)
        ensures
            ev.diameter == self.diameter,
            ev.x_diameter == self.x_diameter,
            ev.y_diameter == self.y_diameter,
            ev.roundness == self.roundness,
    {
        LiveValuesEvent {
            diameter: self.diameter,
            x_diameter: self.x_diameter,
            y_diameter: self.y_diameter,
            roundness: self.roundness,
        }
    }

    /// The min/max event over the current window: both bounds absent
    /// exactly when the window is empty, both drawn from retained
    /// samples and bracketing all of them otherwise.
    pub fn emit_min_max_diameter(&self) -> (ev: MinMaxDiameterEvent)
        ensures
            ev.timeframe_minutes == self.laser_target.min_max_timeframe_minutes,
            self.diameter_tracker.samples().len() == 0 ==> ev.min_diameter is None
                && ev.max_diameter is None,
            self.diameter_tracker.samples().len() > 0 ==> {
                let s = self.diameter_tracker.samples();
                &&& ev.min_diameter is Some
                &&& ev.max_diameter is Some
                &&& exists|i: int| 0 <= i < s.len() && s[i].diameter == ev.min_diameter->0
                &&& exists|i: int| 0 <= i < s.len() && s[i].diameter == ev.max_diameter->0
                &&& forall|i: int|
                    0 <= i < s.len() ==> ev.min_diameter->0 <= (#[trigger] s[i].diameter)
                        <= ev.max_diameter->0
            },
    {
        let (min_diameter, max_diameter) = self.diameter_tracker.get_min_max();
        MinMaxDiameterEvent {
            min_diameter,
            max_diameter,
            timeframe_minutes: self.laser_target.min_max_timeframe_minutes,
        }
    }

    /// The current min and max over the window: absent exactly when
    /// the window is empty, both drawn from retained samples and
    /// bracketing all of them otherwise.
    pub fn get_min_max_diameter(&self) -> (r: (Option<i64>, Option<i64>))
        ensures
            self.diameter_tracker.samples().len() == 0 ==> r == (
                None::<i64>,
                None::<i64>,
            ),
            self.diameter_tracker.samples().len() > 0 ==> {
                let s = self.diameter_tracker.samples();
                &&& r.0 is Some
                &&& r.1 is Some
                &&& exists|i: int| 0 <= i < s.len() && s[i].diameter == r.0->0
                &&& exists|i: int| 0 <= i < s.len() && s[i].diameter == r.1->0
                &&& forall|i: int|
                    0 <= i < s.len() ==> r.0->0 <= (#[trigger] s[i].diameter) <= r.1->0
            },
    {
        self.diameter_tracker.get_min_max()
    }

    /// The state event as a plain snapshot, never marked default.
    pub fn build_state_event(&self) -> (ev: StateEvent)
        ensures
            !ev.is_default_state,
            ev.laser_state == (LaserState {
                higher_tolerance: self.laser_target.higher_tolerance,
                lower_tolerance: self.laser_target.lower_tolerance,
                target_diameter: self.laser_target.diameter,
                min_max_timeframe_minutes: self.laser_target.min_max_timeframe_minutes,
            }),
    {
        StateEvent {
            is_default_state: false,
            laser_state: LaserState {
                higher_tolerance: self.laser_target.higher_tolerance,
                lower_tolerance: self.laser_target.lower_tolerance,
                target_diameter: self.laser_target.diameter,
                min_max_timeframe_minutes: self.laser_target.min_max_timeframe_minutes,
            },
        }
    }

    /// The state event to publish now.  `is_default_state` is true on
    /// exactly the first emission after construction and false on
    /// every later one: the flag starts false, the event carries its
    /// negation, and every emission sets it.
    pub fn emit_state(&mut self) -> (ev: StateEvent)
        requires
            old(self).wf(),
        ensures
            final(self).wf(),
            ev.is_default_state == !old(self).emitted_default_state,
            final(self).emitted_default_state,
            final(self).laser_target == old(self).laser_target,
            final(self).diameter_tracker == old(self).diameter_tracker,
            final(self).diameter == old(self).diameter,
            final(self).x_diameter == old(self).x_diameter,
            final(self).y_diameter == old(self).y_diameter,
            final(self).roundness == old(self).roundness,
            ev.laser_state == (LaserState {
                higher_tolerance: old(self).laser_target.higher_tolerance,
                lower_tolerance: old(self).laser_target.lower_tolerance,
                target_diameter: old(self).laser_target.diameter,
                min_max_timeframe_minutes: old(self).laser_target.min_max_timeframe_minutes,
            }),
    {
        let was_emitted = self.emitted_default_state;
        self.emitted_default_state = true;
        StateEvent {
            is_default_state: !was_emitted,
            laser_state: LaserState {
                higher_tolerance: self.laser_target.higher_tolerance,
                lower_tolerance: self.laser_target.lower_tolerance,
                target_diameter: self.laser_target.diameter,
                min_max_timeframe_minutes: self.laser_target.min_max_timeframe_minutes,
            },
        }
    }

    /// Set the allowed excess above the target and emit state.
    /// A negative value, or one beyond the admitted diameter range, is
    /// rejected without touching the state or emitting.
    pub fn set_higher_tolerance(&mut self, higher_tolerance: i64) -> (r: Result<
        StateEvent,
        ConfigError,
    >)
        requires
            old(self).wf(),
        ensures
            final(self).wf(),
            !(0 <= higher_tolerance <= DIAMETER_MAX) ==> r == Err::<StateEvent, ConfigError>(
                ConfigError::OutOfRange,
            ) && *final(self) == *old(self),
            0 <= higher_tolerance <= DIAMETER_MAX ==> {
                &&& r is Ok
                &&& final(self).laser_target == (LaserTarget {
                    higher_tolerance,
                    ..old(self).laser_target
                })
                &&& final(self).emitted_default_state
                &&& r->Ok_0.is_default_state == !old(self).emitted_default_state
                &&& r->Ok_0.laser_state.higher_tolerance == higher_tolerance
            },
    {
        if higher_tolerance < 0 || higher_tolerance > DIAMETER_MAX {
            return Err(ConfigError::OutOfRange);
        }
        self.laser_target.higher_tolerance = higher_tolerance;
        Ok(self.emit_state())
    }

    /// Set the allowed shortfall below the target and emit state.
    /// Out-of-range values are rejected without a state emission.
    pub fn set_lower_tolerance(&mut self, lower_tolerance: i64) -> (r: Result<
        StateEvent,
        ConfigError,
    >)
        requires
            old(self).wf(),
        ensures
            final(self).wf(),
            !(0 <= lower_tolerance <= DIAMETER_MAX) ==> r == Err::<StateEvent, ConfigError>(
                ConfigError::OutOfRange,
            ) && *final(self) == *old(self),
            0 <= lower_tolerance <= DIAMETER_MAX ==> {
                &&& r is Ok
                &&& final(self).laser_target == (LaserTarget {
                    lower_tolerance,
                    ..old(self).laser_target
                })
                &&& final(self).emitted_default_state
                &&& r->Ok_0.is_default_state == !old(self).emitted_default_state
                &&& r->Ok_0.laser_state.lower_tolerance == lower_tolerance
            },
    {
        if lower_tolerance < 0 || lower_tolerance > DIAMETER_MAX {
            return Err(ConfigError::OutOfRange);
        }
        self.laser_target.lower_tolerance = lower_tolerance;
        Ok(self.emit_state())
    }

    /// Set the target diameter and emit state.  Out-of-range values
    /// are rejected without a state emission.
    pub fn set_target_diameter(&mut self, target_diameter: i64) -> (r: Result<
        StateEvent,
        ConfigError,
    >)
        requires
            old(self).wf(),
        ensures
            final(self).wf(),
            !(0 <= target_diameter <= DIAMETER_MAX) ==> r == Err::<StateEvent, ConfigError>(
                ConfigError::OutOfRange,
            ) && *final(self) == *old(self),
            0 <= target_diameter <= DIAMETER_MAX ==> {
                &&& r is Ok
                &&& final(self).laser_target == (LaserTarget {
                    diameter: target_diameter,
                    ..old(self).laser_target
                })
                &&& final(self).emitted_default_state
                &&& r->Ok_0.is_default_state == !old(self).emitted_default_state
                &&& r->Ok_0.laser_state.target_diameter == target_diameter
            },
    {
        if target_diameter < 0 || target_diameter > DIAMETER_MAX {
            return Err(ConfigError::OutOfRange);
        }
        self.laser_target.diameter = target_diameter;
        Ok(self.emit_state())
    }

    /// Set the min/max window width, reconfigure the tracker from the
    /// newest retained sample, and emit state.  A width beyond the
    /// admitted range is rejected without a state emission.
    pub fn set_min_max_timeframe(&mut self, timeframe_minutes: u64) -> (r: Result<
        StateEvent,
        ConfigError,
    >)
        requires
            old(self).wf(),
        ensures
            final(self).wf(),
            timeframe_minutes > TIMEFRAME_MINUTES_MAX ==> r == Err::<StateEvent, ConfigError>(
                ConfigError::OutOfRange,
            ) && *final(self) == *old(self),
            timeframe_minutes <= TIMEFRAME_MINUTES_MAX ==> {
                let st = old(self).diameter_tracker.samples();
                &&& r is Ok
                &&& final(self).laser_target == (LaserTarget {
                    min_max_timeframe_minutes: timeframe_minutes,
                    ..old(self).laser_target
                })
                &&& final(self).diameter_tracker.window() == timeframe_minutes * MINUTE_MICROS
                &&& (st.len() == 0 ==> final(self).diameter_tracker.samples() == st)
                &&& (st.len() > 0 ==> final(self).diameter_tracker.samples() == evict_front(
                    st,
                    st.last().timestamp as int,
                    timeframe_minutes * MINUTE_MICROS,
                ) && final(self).diameter_tracker.samples().len() > 0)
                &&& final(self).diameter == old(self).diameter
                &&& final(self).x_diameter == old(self).x_diameter
                &&& final(self).y_diameter == old(self).y_diameter
                &&& final(self).roundness == old(self).roundness
                &&& final(self).emitted_default_state
                &&& r->Ok_0.is_default_state == !old(self).emitted_default_state
                &&& r->Ok_0.laser_state.min_max_timeframe_minutes == timeframe_minutes
            },
    {
        if timeframe_minutes > TIMEFRAME_MINUTES_MAX {
            return Err(ConfigError::OutOfRange);
        }
        self.laser_target.min_max_timeframe_minutes = timeframe_minutes;
        self.diameter_tracker.set_timeframe(timeframe_minutes);
        Ok(self.emit_state())
    }
}

} // verus!
