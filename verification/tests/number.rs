use temperature_filter::number::{Double, INFINITY_MAGNITUDE, SIGN_BIT};

fn sample_numbers() -> Vec<f64> {
    vec![
        f64::NEG_INFINITY,
        f64::MIN,
        -1.0e300,
        -150.0,
        -10.0,
        -1.5,
        -1.0,
        -f64::MIN_POSITIVE,
        -5e-324,
        -0.0,
        0.0,
        5e-324,
        f64::MIN_POSITIVE,
        0.1,
        1.0,
        25.3,
        149.99999999999997,
        150.0,
        150.00000000000003,
        3422.0,
        1.0e300,
        f64::MAX,
        f64::INFINITY,
        f64::NAN,
        -f64::NAN,
    ]
}

#[test]
fn lt_agrees_with_the_machine_on_every_pair() {
    let numbers = sample_numbers();
    for a in &numbers {
        for b in &numbers {
            let left = Double::from_bits(a.to_bits());
            let right = Double::from_bits(b.to_bits());
            assert_eq!(left.lt(&right), a < b, "{a:?} < {b:?}");
        }
    }
}

#[test]
fn nan_is_told_by_its_bits() {
    for x in sample_numbers() {
        assert_eq!(Double::from_bits(x.to_bits()).nan(), x.is_nan(), "{x:?}");
    }
}

#[test]
fn bits_go_in_and_come_out_unchanged() {
    for bits in [0u64, 1, SIGN_BIT, INFINITY_MAGNITUDE, u64::MAX, 25.3f64.to_bits()] {
        assert_eq!(Double::from_bits(bits).to_bits(), bits);
    }
}

#[test]
fn zero_is_positive_zero() {
    assert_eq!(Double::zero().to_bits(), 0.0f64.to_bits());
    assert_eq!(Double::zero(), Double::from_bits(0));
}

#[test]
fn the_two_zeros_are_not_ordered() {
    let plus = Double::from_bits(0.0f64.to_bits());
    let minus = Double::from_bits((-0.0f64).to_bits());
    assert!(!plus.lt(&minus));
    assert!(!minus.lt(&plus));
    assert_ne!(plus, minus);
}

#[test]
fn nothing_is_less_than_itself() {
    for x in sample_numbers() {
        let d = Double::from_bits(x.to_bits());
        assert!(!d.lt(&d));
    }
}

#[test]
fn constants_are_the_ieee_ones() {
    assert_eq!(SIGN_BIT, (-0.0f64).to_bits());
    assert_eq!(INFINITY_MAGNITUDE, f64::INFINITY.to_bits());
}
