use greeks::ieee::{is_positive, EXPONENT_MASK, FRACTION_MASK, SIGN_MASK};

#[test]
fn ordinary_positive_values_are_positive() {
    assert!(is_positive(64.68f64.to_bits()));
    assert!(is_positive((23.0f64 / 365.0).to_bits()));
    assert!(is_positive(0.5051f64.to_bits()));
    assert!(is_positive(f64::MAX.to_bits()));
}

#[test]
fn smallest_subnormal_is_positive() {
    assert!(is_positive(f64::from_bits(1).to_bits()));
    assert!(f64::from_bits(1) > 0.0);
}

#[test]
fn positive_infinity_is_positive() {
    assert!(is_positive(f64::INFINITY.to_bits()));
}

#[test]
fn zeros_are_not_positive() {
    assert!(!is_positive(0.0f64.to_bits()));
    assert!(!is_positive((-0.0f64).to_bits()));
}

#[test]
fn negative_values_are_not_positive() {
    assert!(!is_positive((-1.0f64).to_bits()));
    assert!(!is_positive((-f64::from_bits(1)).to_bits()));
    assert!(!is_positive(f64::NEG_INFINITY.to_bits()));
    assert!(!is_positive(f64::MIN.to_bits()));
}

#[test]
fn nans_are_not_positive() {
    assert!(!is_positive(f64::NAN.to_bits()));
    assert!(!is_positive((-f64::NAN).to_bits()));
    assert!(!is_positive(EXPONENT_MASK | 1));
    assert!(!is_positive(EXPONENT_MASK | FRACTION_MASK));
}

#[test]
fn classification_agrees_with_float_comparison() {
    let samples = [
        0.0f64, -0.0, 1.0, -1.0, 1e-300, -1e-300, 365.0, f64::MIN_POSITIVE,
        f64::EPSILON, f64::INFINITY, f64::NEG_INFINITY, f64::NAN, f64::MAX, f64::MIN,
    ];
    for v in samples.iter() {
        assert_eq!(is_positive(v.to_bits()), *v > 0.0, "value {}", v);
    }
}

#[test]
fn masks_partition_the_word() {
    assert_eq!(SIGN_MASK | EXPONENT_MASK | FRACTION_MASK, u64::MAX);
    assert_eq!(SIGN_MASK & EXPONENT_MASK, 0);
    assert_eq!(EXPONENT_MASK & FRACTION_MASK, 0);
    assert_eq!(f64::INFINITY.to_bits(), EXPONENT_MASK);
    assert_eq!((-0.0f64).to_bits(), SIGN_MASK);
}
