use hsrn::{HermesError, TimeAcceleration, WallDuration};

const NANOS_PER_SEC: i128 = 1_000_000_000;

#[test]
fn multipliers_of_the_presets() {
    assert_eq!(TimeAcceleration::Realtime.multiplier(), 1);
    assert_eq!(TimeAcceleration::Fast.multiplier(), 100);
    assert_eq!(TimeAcceleration::Ludicrous.multiplier(), 10_000);
    assert_eq!(TimeAcceleration::Custom(42).multiplier(), 42);
}

#[test]
fn realtime_sixty_seconds() {
    let wall = WallDuration::from_nanos(60 * NANOS_PER_SEC);
    assert_eq!(
        TimeAcceleration::Realtime.simulated_nanos(&wall),
        Some(60_000_000_000)
    );
}

#[test]
fn fast_one_second_is_one_hundred_seconds() {
    let wall = WallDuration::from_nanos(NANOS_PER_SEC);
    assert_eq!(
        TimeAcceleration::Fast.simulated_nanos(&wall),
        Some(100_000_000_000)
    );
}

#[test]
fn ludicrous_one_second_is_ten_thousand_seconds() {
    let wall = WallDuration::from_nanos(NANOS_PER_SEC);
    assert_eq!(
        TimeAcceleration::Ludicrous.simulated_nanos(&wall),
        Some(10_000_000_000_000)
    );
}

#[test]
fn twenty_seven_minute_delay_at_ludicrous() {
    let twenty_seven_minutes_sim = 27.0 * 60.0;
    let wall_seconds_needed = twenty_seven_minutes_sim / 10_000.0;
    let wall_millis = (wall_seconds_needed * 1000.0) as i128;
    let wall = WallDuration::from_nanos(wall_millis * 1_000_000);
    let sim = TimeAcceleration::Ludicrous.simulated_nanos(&wall).unwrap();
    let sim_seconds = sim as f64 / 1e9;
    assert!((sim_seconds - twenty_seven_minutes_sim).abs() <= 1.0);
}

#[test]
fn num_nanoseconds_within_and_beyond_i64() {
    assert_eq!(WallDuration::from_nanos(-5).num_nanoseconds(), Some(-5));
    assert_eq!(
        WallDuration::from_nanos(i64::MAX as i128).num_nanoseconds(),
        Some(i64::MAX)
    );
    assert_eq!(
        WallDuration::from_nanos(i64::MIN as i128).num_nanoseconds(),
        Some(i64::MIN)
    );
    assert_eq!(WallDuration::from_nanos(i64::MAX as i128 + 1).num_nanoseconds(), None);
    assert_eq!(WallDuration::from_nanos(i64::MIN as i128 - 1).num_nanoseconds(), None);
    assert_eq!(WallDuration::from_nanos(77).total_nanos(), 77);
}

#[test]
fn scaled_span_overflow_is_none() {
    let wall = WallDuration::from_nanos(i64::MAX as i128 / 100 + 1);
    assert_eq!(TimeAcceleration::Fast.simulated_nanos(&wall), None);
    let beyond = WallDuration::from_nanos(i64::MAX as i128 + 1);
    assert_eq!(TimeAcceleration::Realtime.simulated_nanos(&beyond), None);
}

#[test]
fn validate_accepts_a_day_at_ludicrous() {
    let day = WallDuration::from_nanos(86_400 * NANOS_PER_SEC);
    assert!(TimeAcceleration::Ludicrous.validate_for_duration(day).is_ok());
}

#[test]
fn validate_rejects_unrepresentable_duration() {
    let huge = WallDuration::from_nanos(i64::MAX as i128 + 1);
    match TimeAcceleration::Realtime.validate_for_duration(huge) {
        Err(HermesError::Configuration(msg)) => {
            assert_eq!(msg, "Duration exceeds representable range")
        }
        other => panic!("unexpected result: {:?}", other),
    }
}

#[test]
fn validate_rejects_overflowing_acceleration() {
    let wall = WallDuration::from_nanos(i64::MAX as i128 / 10_000 + 1);
    match TimeAcceleration::Ludicrous.validate_for_duration(wall) {
        Err(HermesError::Configuration(msg)) => {
            assert!(msg.starts_with("Time acceleration 10000x will overflow with duration"));
            assert!(msg.contains("Maximum safe duration"));
        }
        other => panic!("unexpected result: {:?}", other),
    }
}

#[test]
fn validated_duration_covers_shorter_spans() {
    let max = WallDuration::from_nanos(i64::MAX as i128 / 10_000);
    let accel = TimeAcceleration::Ludicrous;
    assert!(accel.validate_for_duration(max).is_ok());
    for n in [0i128, 1, 1_000, i64::MAX as i128 / 20_000, i64::MAX as i128 / 10_000] {
        assert!(accel.simulated_nanos(&WallDuration::from_nanos(n)).is_some());
    }
}

#[test]
fn zero_custom_multiplier_never_overflows() {
    let wall = WallDuration::from_nanos(i64::MAX as i128);
    assert_eq!(TimeAcceleration::Custom(0).simulated_nanos(&wall), Some(0));
    assert!(TimeAcceleration::Custom(0).validate_for_duration(wall).is_ok());
}
