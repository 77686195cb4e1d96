use criterion::config::{
    ConfigError, Criterion, Plotting, DEFAULT_CONFIDENCE_LEVEL_BITS,
    DEFAULT_NOISE_THRESHOLD_BITS, DEFAULT_NRESAMPLES, DEFAULT_SIGNIFICANCE_LEVEL_BITS,
};
use criterion::scalar::Scalar;

fn s(x: f64) -> Scalar {
    Scalar::from_bits(x.to_bits())
}

#[test]
fn defaults_are_the_documented_ones() {
    let c = Criterion::new();
    assert_eq!(f64::from_bits(c.confidence_level.to_bits()), 0.95);
    assert_eq!(c.nresamples, 100_000);
    assert_eq!(f64::from_bits(c.noise_threshold.to_bits()), 0.01);
    assert_eq!(f64::from_bits(c.significance_level.to_bits()), 0.05);
    assert_eq!(c.plotting, Plotting::Enabled);
    assert!(c.plotting.is_enabled());
    assert_eq!(DEFAULT_CONFIDENCE_LEVEL_BITS, 0.95f64.to_bits());
    assert_eq!(DEFAULT_NOISE_THRESHOLD_BITS, 0.01f64.to_bits());
    assert_eq!(DEFAULT_SIGNIFICANCE_LEVEL_BITS, 0.05f64.to_bits());
    assert_eq!(DEFAULT_NRESAMPLES, 100_000);
}

#[test]
fn defaults_are_valid() {
    assert_eq!(Criterion::new().validate(), Ok(()));
}

#[test]
fn confidence_level_must_be_a_proper_fraction() {
    for &cl in [0.0, -0.0, 1.0, 1.5, -0.3, f64::NAN, f64::INFINITY].iter() {
        let c = Criterion::new().confidence_level(s(cl));
        assert_eq!(c.validate(), Err(ConfigError::ConfidenceLevel), "{}", cl);
    }
    for &cl in [0.5, 0.99, 1.0e-9, 0.9999999999].iter() {
        let c = Criterion::new().confidence_level(s(cl));
        assert_eq!(c.validate(), Ok(()), "{}", cl);
    }
}

#[test]
fn zero_resamples_are_rejected() {
    assert_eq!(Criterion::new().nresamples(0).validate(), Err(ConfigError::Resamples));
    assert_eq!(Criterion::new().nresamples(1).validate(), Ok(()));
}

#[test]
fn noise_threshold_must_not_be_negative() {
    for &t in [-0.01, -1.0, f64::NAN, f64::NEG_INFINITY].iter() {
        let c = Criterion::new().noise_threshold(s(t));
        assert_eq!(c.validate(), Err(ConfigError::NoiseThreshold), "{}", t);
    }
    for &t in [0.0, -0.0, 0.02, 3.0, f64::INFINITY].iter() {
        let c = Criterion::new().noise_threshold(s(t));
        assert_eq!(c.validate(), Ok(()), "{}", t);
    }
}

#[test]
fn significance_level_must_be_a_proper_fraction() {
    for &sl in [0.0, 1.0, 2.0, -0.05, f64::NAN].iter() {
        let c = Criterion::new().significance_level(s(sl));
        assert_eq!(c.validate(), Err(ConfigError::SignificanceLevel), "{}", sl);
    }
    assert_eq!(Criterion::new().significance_level(s(0.01)).validate(), Ok(()));
}

#[test]
fn the_first_defect_is_named() {
    let c = Criterion::new()
        .confidence_level(s(2.0))
        .nresamples(0)
        .noise_threshold(s(-1.0))
        .significance_level(s(7.0));
    assert_eq!(c.validate(), Err(ConfigError::ConfidenceLevel));
    let c = c.confidence_level(s(0.9));
    assert_eq!(c.validate(), Err(ConfigError::Resamples));
    let c = c.nresamples(10);
    assert_eq!(c.validate(), Err(ConfigError::NoiseThreshold));
    let c = c.noise_threshold(s(0.0));
    assert_eq!(c.validate(), Err(ConfigError::SignificanceLevel));
    let c = c.significance_level(s(0.1));
    assert_eq!(c.validate(), Ok(()));
}

#[test]
fn builders_change_one_option_only() {
    let c = Criterion::new().without_plots();
    assert_eq!(c.plotting, Plotting::Disabled);
    assert!(!c.plotting.is_enabled());
    assert_eq!(c.nresamples, 100_000);
    assert_eq!(c.with_plots(), Criterion::new());
    let d = Criterion::new().nresamples(5000);
    assert_eq!(d.nresamples, 5000);
    assert_eq!(d.confidence_level, Criterion::new().confidence_level);
    assert_eq!(d.noise_threshold, Criterion::new().noise_threshold);
    assert_eq!(d.significance_level, Criterion::new().significance_level);
}
