use criterion::estimate::{ConfidenceInterval, Estimate, Estimates, Spread, Statistic};
use criterion::scalar::Scalar;

fn s(x: f64) -> Scalar {
    Scalar::from_bits(x.to_bits())
}

fn estimate(point: f64, lb: f64, ub: f64, se: f64) -> Estimate {
    Estimate::new(
        s(point),
        Spread { lower_bound: s(lb), upper_bound: s(ub), standard_error: s(se) },
        s(0.95),
    )
}

#[test]
fn an_estimate_keeps_what_it_is_given() {
    let e = estimate(10.0, 9.0, 11.5, 0.25);
    assert_eq!(e.point_estimate, s(10.0));
    assert_eq!(e.standard_error, s(0.25));
    assert_eq!(
        e.confidence_interval,
        ConfidenceInterval { confidence_level: s(0.95), lower_bound: s(9.0), upper_bound: s(11.5) }
    );
}

#[test]
fn the_point_is_not_moved_into_the_interval() {
    let e = estimate(20.0, 9.0, 11.5, 0.25);
    assert_eq!(e.point_estimate, s(20.0));
    assert!(!e.brackets_point());
    assert!(estimate(10.0, 9.0, 11.5, 0.25).brackets_point());
    assert!(estimate(9.0, 9.0, 11.5, 0.25).brackets_point());
    assert!(estimate(11.5, 9.0, 11.5, 0.25).brackets_point());
    assert!(!estimate(f64::NAN, 9.0, 11.5, 0.25).brackets_point());
}

#[test]
fn an_interval_contains_its_ends() {
    let ci =
        ConfidenceInterval { confidence_level: s(0.95), lower_bound: s(-1.0), upper_bound: s(2.0) };
    assert!(ci.contains(s(-1.0)));
    assert!(ci.contains(s(0.0)));
    assert!(ci.contains(s(-0.0)));
    assert!(ci.contains(s(2.0)));
    assert!(!ci.contains(s(2.0000001)));
    assert!(!ci.contains(s(-1.0000001)));
    assert!(!ci.contains(s(f64::NAN)));
}

#[test]
fn labels_and_keys_of_the_statistics() {
    assert_eq!(Statistic::Mean.label(), "mean");
    assert_eq!(Statistic::Median.label(), "median");
    assert_eq!(Statistic::MedianAbsDev.label(), "MAD");
    assert_eq!(Statistic::StdDev.label(), "SD");
    assert_eq!(Statistic::Slope.label(), "slope");
    assert_eq!(Statistic::Mean.key(), "mean");
    assert_eq!(Statistic::Median.key(), "median");
    assert_eq!(Statistic::MedianAbsDev.key(), "median_abs_dev");
    assert_eq!(Statistic::StdDev.key(), "std_dev");
    assert_eq!(Statistic::Slope.key(), "slope");
}

#[test]
fn a_new_table_is_empty() {
    let t = Estimates::new();
    assert!(t.entries().is_empty());
    assert!(!t.is_complete());
    assert_eq!(t.get(Statistic::Mean), None);
    assert!(!t.contains_key(Statistic::Slope));
}

#[test]
fn insert_sets_one_key_and_returns_the_old_estimate() {
    let mut t = Estimates::new();
    let a = estimate(1.0, 0.5, 1.5, 0.1);
    let b = estimate(2.0, 1.5, 2.5, 0.2);
    assert_eq!(t.insert(Statistic::Median, a), None);
    assert_eq!(t.get(Statistic::Median), Some(a));
    assert_eq!(t.get(Statistic::Mean), None);
    assert_eq!(t.insert(Statistic::Median, b), Some(a));
    assert_eq!(t.get(Statistic::Median), Some(b));
    assert_eq!(t.entries(), vec![(Statistic::Median, b)]);
}

#[test]
fn entries_come_in_the_order_of_the_statistics() {
    let mut t = Estimates::new();
    let e = |x: f64| estimate(x, x - 1.0, x + 1.0, 0.5);
    t.insert(Statistic::Slope, e(5.0));
    t.insert(Statistic::StdDev, e(4.0));
    t.insert(Statistic::Mean, e(1.0));
    assert!(!t.is_complete());
    assert_eq!(
        t.entries(),
        vec![(Statistic::Mean, e(1.0)), (Statistic::StdDev, e(4.0)), (Statistic::Slope, e(5.0))]
    );
    t.insert(Statistic::MedianAbsDev, e(3.0));
    t.insert(Statistic::Median, e(2.0));
    assert!(t.is_complete());
    assert_eq!(
        t.entries(),
        vec![
            (Statistic::Mean, e(1.0)),
            (Statistic::Median, e(2.0)),
            (Statistic::MedianAbsDev, e(3.0)),
            (Statistic::StdDev, e(4.0)),
            (Statistic::Slope, e(5.0)),
        ]
    );
}
