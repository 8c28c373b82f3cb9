use bme280_monitor::{build_sampling_configuration, sample_from_readings, OversamplingLevel, SensorMode};

#[test]
fn skipped_quantity_is_absent_not_zero() {
    let c = build_sampling_configuration(OversamplingLevel::X1, true, false, true, SensorMode::Normal);
    let s = sample_from_readings(&c, 21.5f32, 0.0f32, 40.0f32);
    assert_eq!(s.temperature, Some(21.5));
    assert_eq!(s.pressure, None);
    assert_eq!(s.humidity, Some(40.0));
}

#[test]
fn measured_zero_is_present() {
    let c = build_sampling_configuration(OversamplingLevel::X2, true, true, true, SensorMode::Forced);
    let s = sample_from_readings(&c, 0.0f32, 0.0f32, 0.0f32);
    assert_eq!(s.temperature, Some(0.0));
    assert_eq!(s.pressure, Some(0.0));
    assert_eq!(s.humidity, Some(0.0));
}

#[test]
fn global_skip_leaves_sample_empty() {
    let c = build_sampling_configuration(OversamplingLevel::Skip, true, true, true, SensorMode::Normal);
    let s = sample_from_readings(&c, 1i32, 2i32, 3i32);
    assert_eq!(s.temperature, None);
    assert_eq!(s.pressure, None);
    assert_eq!(s.humidity, None);
}

#[test]
fn end_to_end_humidity_disabled() {
    let c = build_sampling_configuration(OversamplingLevel::X2, true, true, false, SensorMode::Normal);
    assert_eq!(c.temperature, OversamplingLevel::X2);
    assert_eq!(c.pressure, OversamplingLevel::X2);
    assert_eq!(c.humidity, OversamplingLevel::Skip);
    assert_eq!(c.mode, SensorMode::Normal);
    for (t, p, h) in [(20.0f32, 1013.25f32, 45.0f32), (20.5, 1013.0, 0.0), (-3.0, 990.1, 99.9)] {
        let s = sample_from_readings(&c, t, p, h);
        assert_eq!(s.temperature, Some(t));
        assert_eq!(s.pressure, Some(p));
        assert_eq!(s.humidity, None);
    }
}
