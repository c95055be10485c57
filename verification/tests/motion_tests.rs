//! Tests of the motion profile, the geometry converter, and the puller
//! speed controller.

use extrusion_core::converter::LinearRotaryConverter;
use extrusion_core::motion::MotionProfile;
use extrusion_core::puller::PullerRegulationMode;
use extrusion_core::puller::PullerSpeedController;

#[test]
fn test_profile_first_tick_passes_through() {
    let mut profile = MotionProfile::new(833_333, 83_333, 166_667);
    // The first tick has no previous timestamp: dt = 0, speed stays.
    assert_eq!(profile.update(800_000, 0), 0);
}

#[test]
fn test_profile_ramps_at_acceleration_limit() {
    let mut profile = MotionProfile::new(833_333, 83_333, 166_667);
    let _ = profile.update(800_000, 0);
    // After one second the acceleration has reached its 83_333 limit
    // (the jerk limit allows 166_667 per second), so the speed grew by
    // exactly one second of limit acceleration.
    assert_eq!(profile.update(800_000, 1_000_000), 83_333);
    assert_eq!(profile.update(800_000, 2_000_000), 166_666);
}

#[test]
fn test_profile_speed_never_exceeds_limit() {
    let mut profile = MotionProfile::new(500_000, 900_000_000, 900_000_000);
    let _ = profile.update(2_000_000_000, 0);
    let mut t: u64 = 0;
    for _ in 0..20 {
        t += 1_000_000;
        let v = profile.update(2_000_000_000, t);
        assert!(v <= 500_000);
        assert!(v >= -500_000);
    }
    // With huge acceleration and jerk limits the speed saturates.
    assert_eq!(profile.update(2_000_000_000, t + 1_000_000), 500_000);
}

#[test]
fn test_profile_ramps_down_toward_zero() {
    let mut profile = MotionProfile::new(833_333, 83_333, 166_667);
    let _ = profile.update(800_000, 0);
    let mut t: u64 = 0;
    for _ in 0..30 {
        t += 1_000_000;
        let _ = profile.update(800_000, t);
    }
    let up = profile.update(800_000, t + 1_000_000);
    assert!(up > 700_000);
    // Chasing zero brings the speed down monotonically to zero.
    let mut last = up;
    let mut t2 = t + 1_000_000;
    for _ in 0..40 {
        t2 += 1_000_000;
        let v = profile.update(0, t2);
        assert!(v <= last);
        last = v;
    }
    assert_eq!(last, 0);
}

#[test]
fn test_converter_round_trip_exact_values() {
    // 25 mm effective radius.
    let converter = LinearRotaryConverter::new(25_000);
    let v: i64 = 500_000;
    let w = converter.linear_to_angular(v);
    // 0.5 m/s over 0.025 m is 20 rad/s.
    assert_eq!(w, 20_000_000);
    let back = converter.angular_to_linear(w);
    // The round trip loses at most radius/MICRO + 1 millionths.
    assert!((v - back).abs() <= 25_000 / 1_000_000 + 1);
    assert_eq!(back, 500_000);
}

#[test]
fn test_converter_round_trip_with_remainder() {
    let converter = LinearRotaryConverter::new(33_333);
    for v in [-777_777i64, -1, 0, 1, 12_345, 999_999] {
        let back = converter.angular_to_linear(converter.linear_to_angular(v));
        assert!((v - back).abs() <= 33_333 / 1_000_000 + 1);
    }
}

#[test]
fn test_puller_disabled_commands_zero() {
    let converter = LinearRotaryConverter::new(25_000);
    let mut puller = PullerSpeedController::new(500_000, 1_750_000, converter);
    assert_eq!(puller.calc_angular_velocity(0), 0);
    assert_eq!(puller.calc_angular_velocity(1_000_000), 0);
    assert_eq!(puller.last_speed, 0);
}

#[test]
fn test_puller_speed_mode_ramps_to_target() {
    let converter = LinearRotaryConverter::new(25_000);
    let mut puller = PullerSpeedController::new(500_000, 1_750_000, converter);
    puller.set_enabled(true);
    assert_eq!(
        *puller.get_regulation_mode(),
        PullerRegulationMode::Speed
    );
    let _ = puller.calc_angular_velocity(0);
    // One second in: the jerk-limited profile has reached one second
    // of limit acceleration, 0.083333 m/s, which over the 25 mm drum
    // is 3.33332 rad/s.
    let w = puller.calc_angular_velocity(1_000_000);
    assert_eq!(puller.last_speed, 83_333);
    assert_eq!(w, 3_333_320);
    // At a 16 ms tick the speed settles at the 0.5 m/s target, up to
    // the profile's small discretisation ripple, and the angular
    // command is exactly the converter's map of the smoothed speed.
    let mut t: u64 = 1_000_000;
    let mut w: i64 = 0;
    for _ in 0..1_500 {
        t += 16_000;
        w = puller.calc_angular_velocity(t);
    }
    assert!((puller.last_speed - 500_000).abs() <= 1_000);
    assert_eq!(w, puller.last_speed * 1_000_000 / 25_000);
}

#[test]
fn test_puller_reverse_direction() {
    let converter = LinearRotaryConverter::new(25_000);
    let mut puller = PullerSpeedController::new(500_000, 1_750_000, converter);
    puller.set_enabled(true);
    puller.set_forward(false);
    let _ = puller.calc_angular_velocity(0);
    let mut t: u64 = 0;
    let mut w: i64 = 0;
    for _ in 0..1_500 {
        t += 16_000;
        w = puller.calc_angular_velocity(t);
    }
    assert!((puller.last_speed + 500_000).abs() <= 1_000);
    assert!(w < -19_000_000);
}

#[test]
fn test_puller_diameter_mode_speed() {
    let converter = LinearRotaryConverter::new(25_000);
    let mut puller = PullerSpeedController::new(500_000, 1_750_000, converter);
    // The open-loop estimate for a 1.75 mm target at the nominal
    // 0.5 cm^3/s flow is 0.207905 m/s.
    assert_eq!(puller.calculate_speed_for_diameter(), 207_905);
    puller.set_enabled(true);
    puller.set_regulation_mode(PullerRegulationMode::Diameter);
    let _ = puller.calc_angular_velocity(0);
    let mut t: u64 = 0;
    for _ in 0..1_500 {
        t += 16_000;
        let _ = puller.calc_angular_velocity(t);
    }
    assert!((puller.last_speed - 207_905).abs() <= 1_000);
}

#[test]
fn test_puller_speed_conversions() {
    let converter = LinearRotaryConverter::new(50_000);
    let puller = PullerSpeedController::new(0, 1_750_000, converter);
    assert_eq!(puller.speed_to_angular_velocity(1_000_000), 20_000_000);
    assert_eq!(puller.angular_velocity_to_speed(20_000_000), 1_000_000);
    assert_eq!(puller.get_target_speed(), 0);
}
