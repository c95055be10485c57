//! Tests of the sliding window and the laser aggregator: eviction,
//! min/max, roundness, the default-state flag, and setter errors.

use extrusion_core::laser::ConfigError;
use extrusion_core::laser::LaserMachine;
use extrusion_core::laser::LaserSample;
use extrusion_core::sliding_window::DiameterTracker;
use extrusion_core::sliding_window::TrackerError;

#[test]
fn test_window_eviction_sequence() {
    // One-minute window; samples at 0, 10, 30 and 61 seconds.
    let mut tracker = DiameterTracker::new(1);
    assert_eq!(tracker.add_measurement(1_700_000, 0), Ok(()));
    assert_eq!(tracker.add_measurement(1_750_000, 10_000_000), Ok(()));
    assert_eq!(tracker.add_measurement(1_800_000, 30_000_000), Ok(()));
    assert_eq!(tracker.add_measurement(1_780_000, 61_000_000), Ok(()));
    // The sample at t = 0 has fallen out; three remain.
    assert_eq!(tracker.len(), 3);
    let (min, max) = tracker.get_min_max();
    assert_eq!(min, Some(1_750_000));
    assert_eq!(max, Some(1_800_000));
}

#[test]
fn test_empty_window_min_max_absent() {
    let tracker = DiameterTracker::new(30);
    assert_eq!(tracker.get_min_max(), (None, None));
}

#[test]
fn test_out_of_order_sample_discarded() {
    let mut tracker = DiameterTracker::new(30);
    assert_eq!(tracker.add_measurement(1_750_000, 10_000_000), Ok(()));
    assert_eq!(
        tracker.add_measurement(1_900_000, 5_000_000),
        Err(TrackerError::OutOfOrder)
    );
    assert_eq!(tracker.len(), 1);
    assert_eq!(tracker.get_min_max(), (Some(1_750_000), Some(1_750_000)));
}

#[test]
fn test_set_timeframe_evicts_from_newest() {
    // Thirty-minute window: samples 100 seconds apart both stay.
    let mut tracker = DiameterTracker::new(30);
    assert_eq!(tracker.add_measurement(1_700_000, 0), Ok(()));
    assert_eq!(tracker.add_measurement(1_800_000, 100_000_000), Ok(()));
    assert_eq!(tracker.len(), 2);
    // Shrinking to one minute evicts relative to the newest sample,
    // not the wall clock.
    tracker.set_timeframe(1);
    assert_eq!(tracker.len(), 1);
    assert_eq!(tracker.get_min_max(), (Some(1_800_000), Some(1_800_000)));
}

#[test]
fn test_default_state_flag_only_first_emission() {
    let mut machine = LaserMachine::new();
    let first = machine.emit_state();
    assert!(first.is_default_state);
    let second = machine.emit_state();
    assert!(!second.is_default_state);
    let third = machine.emit_state();
    assert!(!third.is_default_state);
}

#[test]
fn test_setters_emit_state_and_validate() {
    let mut machine = LaserMachine::new();
    let ev = machine.set_target_diameter(2_850_000).unwrap();
    assert_eq!(ev.laser_state.target_diameter, 2_850_000);
    // The first emission happened through the setter.
    assert!(ev.is_default_state);
    let ev = machine.set_higher_tolerance(100_000).unwrap();
    assert_eq!(ev.laser_state.higher_tolerance, 100_000);
    assert!(!ev.is_default_state);
    let ev = machine.set_lower_tolerance(30_000).unwrap();
    assert_eq!(ev.laser_state.lower_tolerance, 30_000);
    let ev = machine.set_min_max_timeframe(5).unwrap();
    assert_eq!(ev.laser_state.min_max_timeframe_minutes, 5);

    // Rejected values leave the state untouched and emit nothing.
    assert_eq!(
        machine.set_target_diameter(-1),
        Err(ConfigError::OutOfRange)
    );
    assert_eq!(
        machine.set_higher_tolerance(-50_000),
        Err(ConfigError::OutOfRange)
    );
    assert_eq!(
        machine.set_min_max_timeframe(2_000_000),
        Err(ConfigError::OutOfRange)
    );
    let snapshot = machine.build_state_event();
    assert_eq!(snapshot.laser_state.target_diameter, 2_850_000);
    assert_eq!(snapshot.laser_state.higher_tolerance, 100_000);
    assert_eq!(snapshot.laser_state.lower_tolerance, 30_000);
    assert_eq!(snapshot.laser_state.min_max_timeframe_minutes, 5);
    assert!(!snapshot.is_default_state);
}

#[test]
fn test_roundness_present_and_in_range() {
    let mut machine = LaserMachine::new();
    machine.update(
        Some(LaserSample {
            diameter: 1_720_000,
            x_diameter: Some(1_700_000),
            y_diameter: Some(1_750_000),
        }),
        1_000_000,
    );
    // min/max = 1.70/1.75 = 0.971428 in millionths.
    let live = machine.emit_live_values();
    assert_eq!(live.roundness, Some(971_428));
    assert_eq!(live.diameter, 1_720_000);
    assert_eq!(live.x_diameter, Some(1_700_000));
    assert_eq!(live.y_diameter, Some(1_750_000));
}

#[test]
fn test_roundness_perfectly_round() {
    let mut machine = LaserMachine::new();
    machine.update(
        Some(LaserSample {
            diameter: 1_750_000,
            x_diameter: Some(1_750_000),
            y_diameter: Some(1_750_000),
        }),
        1_000_000,
    );
    assert_eq!(machine.emit_live_values().roundness, Some(1_000_000));
}

#[test]
fn test_roundness_both_zero_and_mixed() {
    let mut machine = LaserMachine::new();
    machine.update(
        Some(LaserSample {
            diameter: 0,
            x_diameter: Some(0),
            y_diameter: Some(0),
        }),
        1_000_000,
    );
    assert_eq!(machine.emit_live_values().roundness, Some(0));

    // One axis zero, the other positive: no roundness.
    machine.update(
        Some(LaserSample {
            diameter: 1_750_000,
            x_diameter: Some(1_750_000),
            y_diameter: Some(0),
        }),
        2_000_000,
    );
    assert_eq!(machine.emit_live_values().roundness, None);

    // A missing axis: no roundness.
    machine.update(
        Some(LaserSample {
            diameter: 1_750_000,
            x_diameter: Some(1_750_000),
            y_diameter: None,
        }),
        3_000_000,
    );
    assert_eq!(machine.emit_live_values().roundness, None);
}

#[test]
fn test_dropout_keeps_cached_values() {
    let mut machine = LaserMachine::new();
    machine.update(
        Some(LaserSample {
            diameter: 1_740_000,
            x_diameter: Some(1_730_000),
            y_diameter: Some(1_750_000),
        }),
        1_000_000,
    );
    // A missed read changes nothing: the live values and the window
    // stay, and regulation continues on the last known diameter.
    machine.update(None, 2_000_000);
    let live = machine.emit_live_values();
    assert_eq!(live.diameter, 1_740_000);
    assert_eq!(live.x_diameter, Some(1_730_000));
    assert_eq!(live.y_diameter, Some(1_750_000));
    assert!(live.roundness.is_some());
    assert_eq!(
        machine.get_min_max_diameter(),
        (Some(1_740_000), Some(1_740_000))
    );
}

#[test]
fn test_dropout_not_tracked() {
    let mut machine = LaserMachine::new();
    // An absent reading and a zero reading both skip the window.
    machine.update(None, 1_000_000);
    machine.update(
        Some(LaserSample { diameter: 0, x_diameter: None, y_diameter: None }),
        2_000_000,
    );
    let ev = machine.emit_min_max_diameter();
    assert_eq!(ev.min_diameter, None);
    assert_eq!(ev.max_diameter, None);
    assert_eq!(ev.timeframe_minutes, 30);

    // A positive reading is tracked.
    machine.update(
        Some(LaserSample { diameter: 1_740_000, x_diameter: None, y_diameter: None }),
        3_000_000,
    );
    machine.update(
        Some(LaserSample { diameter: 1_760_000, x_diameter: None, y_diameter: None }),
        4_000_000,
    );
    assert_eq!(
        machine.get_min_max_diameter(),
        (Some(1_740_000), Some(1_760_000))
    );
}
