//! Tests of the diameter regulator: the physical-model formulas, the
//! tolerance bands, the strategy mixing, and the enable/disable and
//! zero-error behaviour.

use extrusion_core::regulator::DiameterControlStrategy;
use extrusion_core::regulator::DiameterController;

#[test]
fn test_volume_calculation() {
    let controller = DiameterController::new(1_750_000);

    // 100 rpm in micro-rpm.
    let test_rpm: i64 = 100_000_000;
    let volume_rate = controller.calculate_volume_rate_from_rpm(test_rpm);

    // Expected: 100 rpm * 0.5 cm^3/rev / 60 s/min = 0.833333 cm^3/s,
    // within 0.001 cm^3/s.
    let expected: i64 = 833_333;
    assert!((volume_rate - expected).abs() < 1_000);
}

#[test]
fn test_diameter_calculation() {
    let controller = DiameterController::new(1_750_000);

    // 1.0 cm^3/s at 0.1 m/s (10 cm/s).
    let volume_rate: i64 = 1_000_000;
    let filament_speed: i64 = 100_000;

    let diameter = controller.calculate_expected_diameter(volume_rate, filament_speed);

    // Expected: 2 * sqrt(1.0 / (pi * 10)) cm = 3.56825 mm, within
    // 0.01 mm.
    let expected: i64 = 3_568_248;
    assert!((diameter - expected).abs() < 10_000);
}

#[test]
fn test_required_volume_calculation() {
    let controller = DiameterController::new(1_750_000);

    // 1.75 mm target at 0.1 m/s (10 cm/s).
    let target_diameter: i64 = 1_750_000;
    let filament_speed: i64 = 100_000;

    let volume_rate = controller.calculate_required_volume_rate(target_diameter, filament_speed);

    // Expected: pi * (0.0875 cm)^2 * 10 cm/s = 0.240528 cm^3/s,
    // within 0.001 cm^3/s.
    let expected: i64 = 240_528;
    assert!((volume_rate - expected).abs() < 1_000);
}

#[test]
fn test_tolerance_checking() {
    let mut controller = DiameterController::new(1_750_000);

    // Within tight tolerance (0.001 mm off).
    controller.set_current_diameter(1_751_000);
    assert!(controller.is_diameter_in_tight_tolerance());
    assert!(controller.is_diameter_in_tolerance());

    // Within loose tolerance only (0.03 mm off).
    controller.set_current_diameter(1_780_000);
    assert!(!controller.is_diameter_in_tight_tolerance());
    assert!(controller.is_diameter_in_tolerance());

    // Outside both (0.1 mm off).
    controller.set_current_diameter(1_850_000);
    assert!(!controller.is_diameter_in_tight_tolerance());
    assert!(!controller.is_diameter_in_tolerance());
}

#[test]
fn test_rpm_calculation() {
    let controller = DiameterController::new(1_750_000);

    // 2.0 cm^3/s.
    let target_volume: i64 = 2_000_000;
    let required_rpm = controller.calculate_required_rpm(target_volume);

    // Expected: 2.0 * 60 / 0.5 = 240 rpm, within 0.1 rpm.
    let expected: i64 = 240_000_000;
    assert!((required_rpm - expected).abs() < 100_000);
}

#[test]
fn test_speed_scale_clamped() {
    let mut controller = DiameterController::new(1_750_000);
    controller.set_speed_scale_factor(5_000_000);
    assert_eq!(controller.get_speed_scale_factor(), 2_000_000);
    controller.set_speed_scale_factor(0);
    assert_eq!(controller.get_speed_scale_factor(), 500_000);
    controller.set_speed_scale_factor(-3_000_000);
    assert_eq!(controller.get_speed_scale_factor(), 500_000);
    controller.set_speed_scale_factor(1_200_000);
    assert_eq!(controller.get_speed_scale_factor(), 1_200_000);
}

#[test]
fn test_disabled_update_is_all_zero() {
    let mut controller = DiameterController::new(1_750_000);
    controller.set_current_diameter(1_600_000);
    let out = controller.update(1_000_000, 100_000_000, 100_000);
    assert_eq!(out.winder_speed_adjustment, 0);
    assert_eq!(out.extruder_rpm_adjustment, 0);
    assert_eq!(out.diameter_error, 0);
    assert_eq!(out.volume_error, 0);
    assert_eq!(out.current_volume_rate, 0);
    assert_eq!(out.target_volume_rate, 0);
    assert_eq!(out.process_speed_factor, 0);
    assert!(!out.is_in_tolerance);
    assert!(!out.is_in_tight_tolerance);
}

#[test]
fn test_disable_resets_then_zero_error_gives_zero_output() {
    let mut controller = DiameterController::new(1_750_000);
    controller.set_enabled(true);
    controller.set_current_diameter(1_500_000);

    // Accumulate PID and filter state on a large error.
    let out = controller.update(1_000_000, 0, 100_000);
    assert!(out.winder_speed_adjustment != 0 || out.extruder_rpm_adjustment != 0);

    // Disabling resets the PIDs and the low-passes.
    controller.set_enabled(false);
    let quiet = controller.update(2_000_000, 0, 100_000);
    assert_eq!(quiet.winder_speed_adjustment, 0);
    assert_eq!(quiet.extruder_rpm_adjustment, 0);

    // Re-enabled with zero error: zero output.
    controller.set_enabled(true);
    controller.set_current_diameter(1_750_000);
    // The flow that matches the required flow at 0.1 m/s and scale 1.
    let matching_rpm: i64 = 28_862_400;
    let out = controller.update(3_000_000, matching_rpm, 100_000);
    assert_eq!(out.diameter_error, 0);
    assert_eq!(out.volume_error, 0);
    assert_eq!(out.winder_speed_adjustment, 0);
    assert_eq!(out.extruder_rpm_adjustment, 0);
}

#[test]
fn test_zero_error_zero_output_all_strategies() {
    let strategies = [
        DiameterControlStrategy::WinderOnly,
        DiameterControlStrategy::ExtruderOnly,
        DiameterControlStrategy::Balanced,
        DiameterControlStrategy::SpeedPrioritized,
    ];
    for strategy in strategies {
        let mut controller = DiameterController::new(1_750_000);
        controller.set_strategy(strategy);
        controller.set_enabled(true);
        controller.set_current_diameter(1_750_000);
        let matching_rpm: i64 = 28_862_400;
        let out = controller.update(1_000_000, matching_rpm, 100_000);
        assert_eq!(out.diameter_error, 0);
        assert_eq!(out.volume_error, 0);
        assert_eq!(out.winder_speed_adjustment, 0);
        assert_eq!(out.extruder_rpm_adjustment, 0);
    }
}

#[test]
fn test_strategy_mixing_signs() {
    // Diameter too small and flow too low: under Balanced the puller
    // must slow (negative) and the extruder push (positive).
    let mut balanced = DiameterController::new(1_750_000);
    balanced.set_strategy(DiameterControlStrategy::Balanced);
    balanced.set_enabled(true);
    balanced.set_current_diameter(1_600_000);
    let out = balanced.update(1_000_000, 0, 100_000);
    assert!(out.diameter_error > 0);
    assert!(out.volume_error > 0);
    assert!(out.winder_speed_adjustment < 0);
    assert!(out.extruder_rpm_adjustment > 0);

    // Winder-only: the extruder is never moved.
    let mut winder_only = DiameterController::new(1_750_000);
    winder_only.set_strategy(DiameterControlStrategy::WinderOnly);
    winder_only.set_enabled(true);
    winder_only.set_current_diameter(1_600_000);
    let out = winder_only.update(1_000_000, 0, 100_000);
    assert_eq!(out.extruder_rpm_adjustment, 0);
    assert!(out.winder_speed_adjustment < 0);

    // Extruder-only: the puller is never moved.
    let mut extruder_only = DiameterController::new(1_750_000);
    extruder_only.set_strategy(DiameterControlStrategy::ExtruderOnly);
    extruder_only.set_enabled(true);
    extruder_only.set_current_diameter(1_600_000);
    let out = extruder_only.update(1_000_000, 0, 100_000);
    assert_eq!(out.winder_speed_adjustment, 0);
    assert!(out.extruder_rpm_adjustment > 0);
}

#[test]
fn test_set_target_resets_diameter_pid() {
    let mut controller = DiameterController::new(1_750_000);
    controller.set_enabled(true);
    controller.set_current_diameter(1_500_000);
    let _ = controller.update(1_000_000, 0, 100_000);
    // A target change resets the diameter PID: with the error made
    // zero, the diameter leg contributes nothing on the next tick.
    controller.set_target_diameter(1_500_000);
    let mut winder_only = controller;
    winder_only.set_strategy(DiameterControlStrategy::WinderOnly);
    // With the target moved onto the measured diameter, the error the
    // freshly reset diameter PID sees on the next tick is zero.
    let out = winder_only.update(2_000_000, 0, 100_000);
    assert_eq!(out.diameter_error, 0);
}

#[test]
fn test_diagnostics_reflect_state() {
    let mut controller = DiameterController::new(1_750_000);
    controller.set_current_diameter(1_700_000);
    controller.set_strategy(DiameterControlStrategy::SpeedPrioritized);
    let d = controller.get_diagnostics();
    assert_eq!(d.target_diameter, 1_750_000);
    assert_eq!(d.current_diameter, 1_700_000);
    assert_eq!(d.diameter_error, 50_000);
    assert_eq!(d.strategy, DiameterControlStrategy::SpeedPrioritized);
    assert!(!d.enabled);
    assert_eq!(d.speed_scale_factor, 1_000_000);
    assert!(d.is_in_tolerance);
    assert!(!d.is_in_tight_tolerance);
}

#[test]
fn test_getters_round_trip() {
    let mut controller = DiameterController::new(1_750_000);
    assert_eq!(controller.get_target_diameter(), 1_750_000);
    controller.set_target_diameter(2_850_000);
    assert_eq!(controller.get_target_diameter(), 2_850_000);
    controller.set_current_diameter(2_840_000);
    assert_eq!(controller.get_current_diameter(), 2_840_000);
    assert!(!controller.is_enabled());
    controller.set_enabled(true);
    assert!(controller.is_enabled());
    assert_eq!(controller.get_strategy(), DiameterControlStrategy::Balanced);
}
