use criterion::scalar::Scalar;
use criterion::tukey::{Fences, Label, LabeledSample};
use criterion_stats::univariate::outliers::tukey;
use criterion_stats::univariate::Sample;

fn s(x: f64) -> Scalar {
    Scalar::from_bits(x.to_bits())
}

fn scalars(xs: &[f64]) -> Vec<Scalar> {
    xs.iter().map(|&x| s(x)).collect()
}

fn fences_of(xs: &[f64]) -> Fences {
    let (ls, lm, hm, hs) = tukey::classify(Sample::new(xs)).fences();
    Fences::new(s(ls), s(lm), s(hm), s(hs)).unwrap()
}

fn labeled(xs: &[f64]) -> LabeledSample {
    LabeledSample::classify(scalars(xs), fences_of(xs))
}

#[test]
fn fences_must_be_in_order() {
    assert!(Fences::new(s(1.0), s(2.0), s(3.0), s(4.0)).is_some());
    assert!(Fences::new(s(10.0), s(10.0), s(10.0), s(10.0)).is_some());
    assert!(Fences::new(s(-0.0), s(0.0), s(-0.0), s(0.0)).is_some());
    assert!(Fences::new(s(2.0), s(1.0), s(3.0), s(4.0)).is_none());
    assert!(Fences::new(s(1.0), s(3.0), s(2.0), s(4.0)).is_none());
    assert!(Fences::new(s(1.0), s(2.0), s(4.0), s(3.0)).is_none());
    assert!(Fences::new(s(f64::NAN), s(2.0), s(3.0), s(4.0)).is_none());
    assert!(Fences::new(s(1.0), s(2.0), s(3.0), s(f64::NAN)).is_none());
}

#[test]
fn fences_hand_back_their_values() {
    let f = Fences::new(s(-7.0), s(-2.5), s(9.5), s(14.0)).unwrap();
    assert_eq!(f.values(), (s(-7.0), s(-2.5), s(9.5), s(14.0)));
}

#[test]
fn each_band_has_its_label() {
    let f = Fences::new(s(-7.0), s(-2.5), s(9.5), s(14.0)).unwrap();
    assert_eq!(f.label(s(-7.5)), Label::LowSevere);
    assert_eq!(f.label(s(-7.0)), Label::LowMild);
    assert_eq!(f.label(s(-3.0)), Label::LowMild);
    assert_eq!(f.label(s(-2.5)), Label::NotAnOutlier);
    assert_eq!(f.label(s(0.0)), Label::NotAnOutlier);
    assert_eq!(f.label(s(9.5)), Label::NotAnOutlier);
    assert_eq!(f.label(s(10.0)), Label::HighMild);
    assert_eq!(f.label(s(14.0)), Label::HighMild);
    assert_eq!(f.label(s(14.5)), Label::HighSevere);
    assert_eq!(f.label(s(f64::INFINITY)), Label::HighSevere);
    assert_eq!(f.label(s(f64::NEG_INFINITY)), Label::LowSevere);
    assert_eq!(f.label(s(f64::NAN)), Label::NotAnOutlier);
}

#[test]
fn only_one_label_is_no_outlier() {
    assert!(!Label::NotAnOutlier.is_outlier());
    assert!(Label::LowSevere.is_outlier());
    assert!(Label::LowMild.is_outlier());
    assert!(Label::HighMild.is_outlier());
    assert!(Label::HighSevere.is_outlier());
}

#[test]
fn one_to_five_has_no_outliers() {
    let sample = labeled(&[1.0, 2.0, 3.0, 4.0, 5.0]);
    assert_eq!(sample.count(), (0, 0, 5, 0, 0));
}

#[test]
fn a_hundred_among_one_to_five_is_high_severe() {
    let sample = labeled(&[1.0, 2.0, 3.0, 4.0, 5.0, 100.0]);
    assert_eq!(sample.count(), (0, 0, 5, 0, 1));
    assert_eq!(sample.label(5), Some(Label::HighSevere));
    for i in 0..5 {
        assert_eq!(sample.label(i), Some(Label::NotAnOutlier));
    }
    assert_eq!(sample.label(6), None);
}

#[test]
fn a_thousand_among_tens_is_high_severe() {
    let xs = [10.0, 10.0, 10.0, 10.0, 10.0, 10.0, 10.0, 10.0, 10.0, 1000.0];
    let sample = labeled(&xs);
    let (ls, lm, hm, hs) = sample.fences().values();
    assert_eq!(f64::from_bits(ls.to_bits()), 10.0);
    assert_eq!(f64::from_bits(lm.to_bits()), 10.0);
    assert_eq!(f64::from_bits(hm.to_bits()), 10.0);
    assert_eq!(f64::from_bits(hs.to_bits()), 10.0);
    assert_eq!(sample.count(), (0, 0, 9, 0, 1));
    assert_eq!(sample.label(9), Some(Label::HighSevere));
}

#[test]
fn the_sample_keeps_every_observation() {
    let xs = [3.0, -40.0, 2.0, 2.5, 90.0, 2.2, 2.1, 2.7];
    let sample = labeled(&xs);
    assert_eq!(sample.len(), xs.len());
    for (i, &x) in xs.iter().enumerate() {
        assert_eq!(sample.observation(i), Some(s(x)));
    }
    assert_eq!(sample.observation(xs.len()), None);
    let (a, b, c, d, e) = sample.count();
    assert_eq!(a + b + c + d + e, xs.len());
}

#[test]
fn counts_agree_with_the_statistics_crate() {
    let samples: Vec<Vec<f64>> = vec![
        vec![1.0, 2.0, 3.0, 4.0, 5.0],
        vec![1.0, 2.0, 3.0, 4.0, 5.0, 100.0],
        vec![-100.0, 1.0, 2.0, 3.0, 4.0, 5.0, 100.0],
        vec![10.0, 10.0, 10.0, 10.0, 9.0, 11.0, 12.5, 7.0, 14.0, 5.5, 16.0, 3.9, 40.0],
        vec![0.0, -0.0, 0.0, 1.0e-9, -1.0e-9, 5.0, -5.0],
        vec![2.0, 2.0],
        (0..200).map(|i| ((i * 7919 % 1000) as f64).powf(1.7) - 3000.0).collect(),
        (0..57).map(|i| if i % 11 == 0 { 1.0e6 / (i as f64 + 1.0) } else { i as f64 }).collect(),
    ];
    for xs in samples.iter() {
        let theirs = tukey::classify(Sample::new(xs));
        let ours = labeled(xs);
        assert_eq!(ours.count(), theirs.count(), "{:?}", xs);
        for (i, (_, label)) in theirs.iter().enumerate() {
            let expected = match label {
                tukey::Label::LowSevere => Label::LowSevere,
                tukey::Label::LowMild => Label::LowMild,
                tukey::Label::NotAnOutlier => Label::NotAnOutlier,
                tukey::Label::HighMild => Label::HighMild,
                tukey::Label::HighSevere => Label::HighSevere,
            };
            assert_eq!(ours.label(i), Some(expected), "{:?} at {}", xs, i);
        }
    }
}
