use criterion::scalar::{Scalar, INFINITY_BITS, ONE_BITS, SIGN_BIT};

fn s(x: f64) -> Scalar {
    Scalar::from_bits(x.to_bits())
}

fn grid() -> Vec<f64> {
    vec![
        f64::NEG_INFINITY,
        f64::MIN,
        -1.0e300,
        -1024.5,
        -1.0,
        -0.5,
        -f64::MIN_POSITIVE,
        -5.0e-324,
        -0.0,
        0.0,
        5.0e-324,
        f64::MIN_POSITIVE,
        0.01,
        0.05,
        0.5,
        0.95,
        1.0,
        1.0000000000000002,
        10.0,
        100.0,
        1.0e300,
        f64::MAX,
        f64::INFINITY,
        f64::NAN,
        -f64::NAN,
    ]
}

#[test]
fn lt_agrees_with_doubles() {
    for &a in grid().iter() {
        for &b in grid().iter() {
            assert_eq!(s(a).lt(s(b)), a < b, "{} < {}", a, b);
        }
    }
}

#[test]
fn le_agrees_with_doubles() {
    for &a in grid().iter() {
        for &b in grid().iter() {
            assert_eq!(s(a).le(s(b)), a <= b, "{} <= {}", a, b);
        }
    }
}

#[test]
fn gt_and_ge_agree_with_doubles() {
    for &a in grid().iter() {
        for &b in grid().iter() {
            assert_eq!(s(a).gt(s(b)), a > b, "{} > {}", a, b);
            assert_eq!(s(a).ge(s(b)), a >= b, "{} >= {}", a, b);
        }
    }
}

#[test]
fn neg_agrees_with_doubles() {
    for &a in grid().iter() {
        assert_eq!(s(a).neg().to_bits(), (-a).to_bits(), "-({})", a);
    }
}

#[test]
fn neg_reverses_the_order() {
    for &a in grid().iter() {
        for &b in grid().iter() {
            assert_eq!(s(a).lt(s(b)), s(b).neg().lt(s(a).neg()));
        }
    }
}

#[test]
fn nan_and_finite_agree_with_doubles() {
    for &a in grid().iter() {
        assert_eq!(s(a).is_nan(), a.is_nan(), "{}", a);
        assert_eq!(s(a).is_finite(), a.is_finite(), "{}", a);
    }
}

#[test]
fn both_zeros_compare_equal_but_are_told_apart() {
    assert!(s(0.0).le(s(-0.0)));
    assert!(s(-0.0).le(s(0.0)));
    assert!(!s(-0.0).lt(s(0.0)));
    assert_ne!(s(0.0), s(-0.0));
}

#[test]
fn constants_are_the_encodings_they_name() {
    assert_eq!(Scalar::zero().to_bits(), 0.0f64.to_bits());
    assert_eq!(Scalar::one().to_bits(), 1.0f64.to_bits());
    assert_eq!(ONE_BITS, 1.0f64.to_bits());
    assert_eq!(INFINITY_BITS, f64::INFINITY.to_bits());
    assert_eq!(SIGN_BIT, (-0.0f64).to_bits());
}

#[test]
fn bits_round_trip() {
    for &a in grid().iter() {
        assert_eq!(Scalar::from_bits(a.to_bits()).to_bits(), a.to_bits());
    }
    assert_eq!(f64::from_bits(s(12.25).to_bits()), 12.25);
}
