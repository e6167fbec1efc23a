use sagansearch::entropy::{is_anomalous, EntropySample, DEFAULT_THRESHOLD_BITS, ONE_BITS};

fn sample(value: f32) -> EntropySample {
    EntropySample::from_bits(value.to_bits()).unwrap()
}

#[test]
fn bit_patterns_of_the_named_samples() {
    assert_eq!(EntropySample::zero().bits(), 0.0f32.to_bits());
    assert_eq!(EntropySample::one().bits(), 1.0f32.to_bits());
    assert_eq!(EntropySample::default_threshold().bits(), 0.9f32.to_bits());
    assert_eq!(ONE_BITS, 1.0f32.to_bits());
    assert_eq!(DEFAULT_THRESHOLD_BITS, 0.9f32.to_bits());
}

#[test]
fn samples_lie_between_zero_and_one() {
    assert_eq!(EntropySample::from_bits(0).map(|s| s.bits()), Some(0));
    assert_eq!(
        EntropySample::from_bits(0.5f32.to_bits()).map(|s| s.bits()),
        Some(0x3F00_0000)
    );
    assert!(EntropySample::from_bits(1.0f32.to_bits()).is_some());
    assert!(EntropySample::from_bits(1.0f32.to_bits() + 1).is_none());
    assert!(EntropySample::from_bits(2.0f32.to_bits()).is_none());
    assert!(EntropySample::from_bits((-0.5f32).to_bits()).is_none());
    assert!(EntropySample::from_bits((-0.0f32).to_bits()).is_none());
    assert!(EntropySample::from_bits(f32::NAN.to_bits()).is_none());
    assert!(EntropySample::from_bits(f32::INFINITY.to_bits()).is_none());
}

#[test]
fn the_order_of_bit_patterns_is_the_order_of_values() {
    let values = [0.0f32, 1.0e-30, 0.001, 0.3, 0.5, 0.899, 0.9, 0.901, 1.0];
    for pair in values.windows(2) {
        assert!(sample(pair[0]).bits() < sample(pair[1]).bits());
    }
}

#[test]
fn zero_entropy_is_no_anomaly() {
    let threshold = EntropySample::default_threshold();
    assert!(!is_anomalous(sample(0.0), threshold));
}

#[test]
fn low_entropy_is_an_anomaly() {
    let threshold = EntropySample::default_threshold();
    assert!(is_anomalous(sample(0.3), threshold));
    assert!(is_anomalous(sample(1.0e-30), threshold));
    assert!(is_anomalous(sample(0.8999), threshold));
}

#[test]
fn entropy_at_or_above_the_threshold_is_no_anomaly() {
    let threshold = EntropySample::default_threshold();
    assert!(!is_anomalous(sample(0.9), threshold));
    assert!(!is_anomalous(sample(0.95), threshold));
    assert!(!is_anomalous(sample(1.0), threshold));
}

#[test]
fn a_threshold_of_zero_finds_nothing() {
    assert!(!is_anomalous(sample(0.0), sample(0.0)));
    assert!(!is_anomalous(sample(0.5), sample(0.0)));
}

#[test]
fn identical_bytes_measure_zero_and_are_no_anomaly() {
    let buffer = vec![0x5Au8; 416];
    let measured = entropy::shannon_entropy(&buffer) / 8.0;
    assert_eq!(measured, 0.0);
    let taken = sample(measured);
    assert_eq!(taken, EntropySample::zero());
    assert!(!is_anomalous(taken, EntropySample::default_threshold()));
}

#[test]
fn an_empty_buffer_measures_zero() {
    let buffer: Vec<u8> = Vec::new();
    let measured = entropy::shannon_entropy(&buffer) / 8.0;
    assert_eq!(sample(measured), EntropySample::zero());
}

#[test]
fn each_byte_value_once_measures_one() {
    let buffer: Vec<u8> = (0..=255u8).collect();
    let measured = entropy::shannon_entropy(&buffer) / 8.0;
    assert!((measured - 1.0).abs() < 1.0e-6);
    let taken = sample(measured.clamp(0.0, 1.0));
    assert!(!is_anomalous(taken, EntropySample::default_threshold()));
}
