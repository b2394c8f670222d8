use chiaro::irsdk::frame::F32Bits;
use chiaro::irsdk::sample::{is_finite_f32, OptionalTelemetryValues, TelemetrySample};

fn bits(value: f32) -> F32Bits {
    F32Bits(value.to_bits())
}

#[test]
fn optional_values_preserve_partial_availability() {
    let values = OptionalTelemetryValues::from_options(&[Some(bits(1.5)), None, Some(bits(-2.0))]);

    assert_eq!(values.get(0), Some(bits(1.5)));
    assert_eq!(values.get(1), None);
    assert_eq!(values.get(2), Some(bits(-2.0)));
    assert_eq!(values.get(3), None);
    assert_eq!(values.to_options(), [Some(bits(1.5)), None, Some(bits(-2.0))]);
    assert!(values.is_finite());
}

#[test]
fn only_available_values_participate_in_finite_validation() {
    assert!(OptionalTelemetryValues::unavailable(4).is_finite());
    assert!(!OptionalTelemetryValues::from_options(&[Some(bits(f32::NAN)), None]).is_finite());
    assert!(!OptionalTelemetryValues::from_options(&[None, Some(bits(f32::INFINITY))]).is_finite());

    let sample = TelemetrySample {
        steering_wheel_torque_nm: OptionalTelemetryValues::from_options(&[Some(bits(f32::NAN))]),
        ..TelemetrySample::default()
    };
    assert!(!sample.is_finite());
}

#[test]
fn a_default_sample_is_finite_and_every_float_counts() {
    assert!(TelemetrySample::default().is_finite());
    assert_eq!(OptionalTelemetryValues::unavailable(4).len(), 4);
    assert_eq!(OptionalTelemetryValues::unavailable(4).get(0), None);
    let sample = TelemetrySample { wheel_slip: [bits(0.0), bits(0.1), bits(f32::INFINITY), bits(0.0)], ..TelemetrySample::default() };
    assert!(!sample.is_finite());
    let sample = TelemetrySample { session_time_left_s: bits(f32::NAN), ..TelemetrySample::default() };
    assert!(!sample.is_finite());
    let sample = TelemetrySample {
        tyre_pressure_kpa: OptionalTelemetryValues::from_options(&[None, Some(bits(172.0)), None, None]),
        ..TelemetrySample::default()
    };
    assert!(sample.is_finite());
}

#[test]
fn finite_values_are_told_from_infinities_and_nan() {
    assert!(is_finite_f32(bits(0.0)));
    assert!(is_finite_f32(bits(-3.25e38)));
    assert!(is_finite_f32(bits(f32::MIN_POSITIVE / 2.0)));
    assert!(!is_finite_f32(bits(f32::NEG_INFINITY)));
    assert!(!is_finite_f32(bits(f32::NAN)));
}
