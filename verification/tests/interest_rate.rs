use autara_lib::constant::{SECONDS_PER_DAY, SECONDS_PER_YEAR};
use autara_lib::error::LendingError;
use autara_lib::interest_rate::adaptive_curve::{
    AdaptiveInterestRateCurve, ADJUSTMENT_SPEED_BITS, INITIAL_RATE_AT_TARGET_BITS,
    TARGET_UTILISATION_RATE_BITS,
};
use autara_lib::interest_rate::interest_rate::InterestRate;
use autara_lib::interest_rate::interest_rate_kind::InterestRateCurveKind;
use autara_lib::interest_rate::interest_rate_per_second::InterestRatePerSecond;
use autara_lib::interest_rate::lending_interest_rate::MarketBorrowRateParameters;
use autara_lib::interest_rate::pod_interest_rate::{PodInterestRateCurve, PodInterestRateCurveKind};
use autara_lib::interest_rate::polyline::{
    Line, PolylineInterestRateCurve, PolylineInterestRateCurveError, PolylineInterestRatePoint,
    POLYLINE_MAX_POINTS,
};
use autara_lib::math::ifixed_point::IFixedPoint;
use autara_lib::math::safe_math::SafeMath;
use fixed::types::I80F48;

fn ilit(s: &str) -> IFixedPoint {
    IFixedPoint::from_bits(I80F48::lit(s).to_bits())
}

fn to_float(x: IFixedPoint) -> f64 {
    I80F48::from_bits(x.bits).to_num::<f64>()
}

fn assert_eq_float(left: f64, right: f64, max_relative_error: f64) {
    let abs_relative_error = (left - right).abs() / right;
    assert!(
        abs_relative_error <= max_relative_error,
        "left {} right {} relative error {}",
        left,
        right,
        abs_relative_error
    );
}

const EPS: f64 = 1e-6;

/// The per-second rate of a yearly compounded yield, as the floating-point
/// helper of the protocol computes it.
fn approximate_from_apy(apy: f64) -> InterestRatePerSecond {
    let ln = IFixedPoint::from_bits(I80F48::from_num((apy + 1.).ln()).to_bits());
    InterestRatePerSecond(ln.safe_div(SECONDS_PER_YEAR).unwrap())
}

fn days_to_seconds(days: u64) -> u64 {
    days * SECONDS_PER_DAY
}

fn point(u: u32, b: u32) -> PolylineInterestRatePoint {
    PolylineInterestRatePoint { utilization_rate_bps: u, borrow_rate_bps: b }
}

fn params(utilisation_rate: IFixedPoint, elapsed: u64) -> MarketBorrowRateParameters {
    MarketBorrowRateParameters { utilisation_rate, elapsed_seconds_since_last_update: elapsed }
}

fn initial_rate() -> f64 {
    to_float(IFixedPoint::from_bits(INITIAL_RATE_AT_TARGET_BITS))
}

fn target() -> IFixedPoint {
    IFixedPoint::from_bits(TARGET_UTILISATION_RATE_BITS)
}

#[test]
fn check_default() {
    PolylineInterestRateCurve::default().validate().expect("Default curve should be valid");
}

#[test]
fn test_line_value_at() {
    let start = point(1000, 200);
    let end = point(5000, 1000);
    let line = Line { start: &start, end: &end };
    assert_eq!(line.value_at(1000), 200);
    assert_eq!(line.value_at(3000), 600);
    assert_eq!(line.value_at(5000), 1000);
    assert_eq!(line.value_at(6000), 1200);
}

#[test]
fn test_polyline_interest_rate_point_maybe_uninit() {
    assert!(point(1000, 500).maybe_uninit().is_some());
    assert!(point(1000, 0).maybe_uninit().is_none());
}

#[test]
fn test_polyline_try_new_valid_single_point() {
    let points = vec![point(0, 100)];
    assert!(PolylineInterestRateCurve::try_new(&points).is_ok());
}

#[test]
fn test_polyline_try_new_valid_multiple_points() {
    let points = vec![point(0, 100), point(5000, 500), point(8000, 1000)];
    assert!(PolylineInterestRateCurve::try_new(&points).is_ok());
}

#[test]
fn test_polyline_try_new_fails_too_many_points() {
    let points = vec![point(0, 100); POLYLINE_MAX_POINTS + 1];
    let curve = PolylineInterestRateCurve::try_new(&points);
    assert_eq!(curve, Err(PolylineInterestRateCurveError::TooManyPoints));
}

#[test]
fn test_polyline_try_new_fails_first_point_not_zero_utilization() {
    let points = vec![point(1000, 100)];
    let curve = PolylineInterestRateCurve::try_new(&points);
    assert_eq!(curve, Err(PolylineInterestRateCurveError::FirstPointInvalid));
}

#[test]
fn test_polyline_try_new_fails_first_point_zero_borrow_rate() {
    let points = vec![point(0, 0)];
    let curve = PolylineInterestRateCurve::try_new(&points);
    assert_eq!(curve, Err(PolylineInterestRateCurveError::FirstPointInvalid));
}

#[test]
fn test_polyline_try_new_fails_empty_points() {
    let points: Vec<PolylineInterestRatePoint> = vec![];
    let curve = PolylineInterestRateCurve::try_new(&points);
    assert_eq!(curve, Err(PolylineInterestRateCurveError::FirstPointInvalid));
}

#[test]
fn test_polyline_try_new_fails_descending_utilization() {
    let points = vec![point(0, 100), point(5000, 500), point(3000, 1000)];
    let curve = PolylineInterestRateCurve::try_new(&points);
    assert_eq!(curve, Err(PolylineInterestRateCurveError::PointsNotInOrder));
}

#[test]
fn test_polyline_try_new_fails_decreasing_borrow_rate() {
    let points = vec![point(0, 100), point(5000, 500), point(8000, 300)];
    let curve = PolylineInterestRateCurve::try_new(&points);
    assert_eq!(curve, Err(PolylineInterestRateCurveError::PointsNotInOrder));
}

#[test]
fn test_polyline_points_iterator() {
    let points = vec![point(0, 100), point(5000, 500)];
    let curve = PolylineInterestRateCurve::try_new(&points).unwrap();
    let collected_points = curve.points();
    assert_eq!(collected_points.len(), 2);
    assert_eq!(collected_points[0].utilization_rate_bps, 0);
    assert_eq!(collected_points[0].borrow_rate_bps, 100);
    assert_eq!(collected_points[1].utilization_rate_bps, 5000);
    assert_eq!(collected_points[1].borrow_rate_bps, 500);
}

#[test]
fn test_polyline_borrow_rate_bps_single_point() {
    let curve = PolylineInterestRateCurve::try_new(&vec![point(0, 100)]).unwrap();
    assert_eq!(curve.apr_borrow_rate_bps(0), 100);
    assert_eq!(curve.apr_borrow_rate_bps(5000), 100);
    assert_eq!(curve.apr_borrow_rate_bps(10000), 100);
}

#[test]
fn test_polyline_borrow_rate_bps_interpolation() {
    let curve = PolylineInterestRateCurve::try_new(&vec![point(0, 200), point(5000, 1000)]).unwrap();
    assert_eq!(curve.apr_borrow_rate_bps(0), 200);
    assert_eq!(curve.apr_borrow_rate_bps(5000), 1000);
    assert_eq!(curve.apr_borrow_rate_bps(2500), 600);
    assert_eq!(curve.apr_borrow_rate_bps(1250), 400);
    assert_eq!(curve.apr_borrow_rate_bps(10000), 1800);
}

#[test]
fn test_polyline_borrow_rate_bps_multiple_segments() {
    let curve =
        PolylineInterestRateCurve::try_new(&vec![point(0, 100), point(2000, 300), point(8000, 1500)]).unwrap();
    assert_eq!(curve.apr_borrow_rate_bps(0), 100);
    assert_eq!(curve.apr_borrow_rate_bps(1000), 200);
    assert_eq!(curve.apr_borrow_rate_bps(2000), 300);
    assert_eq!(curve.apr_borrow_rate_bps(5000), 900);
    assert_eq!(curve.apr_borrow_rate_bps(8000), 1500);
    assert_eq!(curve.apr_borrow_rate_bps(10000), 1900);
}

#[test]
fn polyline_rate_per_second_spreads_the_yearly_rate() {
    let curve = PolylineInterestRateCurve::try_new(&vec![point(0, 100)]).unwrap();
    let per_second = curve.interest_rate_per_second(0);
    let expected = IFixedPoint::from_u64(100)
        .safe_div(IFixedPoint::from_u64(10_000))
        .unwrap()
        .safe_div(SECONDS_PER_YEAR)
        .unwrap();
    assert_eq!(per_second.0, expected);
}

#[test]
fn test_interest_rate() {
    let rate = InterestRate::new(IFixedPoint::from_ratio(1, 2).unwrap());
    let value = IFixedPoint::from_u64(1000);
    assert_eq!(rate.interest(value).unwrap(), IFixedPoint::from_u64(500));
}

#[test]
fn test_adjust_for_utilisation_rate() {
    let rate = InterestRate::new(IFixedPoint::from_ratio(1, 2).unwrap());
    let utilisation_rate = IFixedPoint::from_ratio(8, 10).unwrap();
    let adjusted_rate = rate.adjust_for_utilisation_rate(utilisation_rate).unwrap();
    assert_eq!(adjusted_rate.rate(), IFixedPoint::from_ratio(4, 10).unwrap());
}

#[test]
fn fixed_negative_rate_is_invalid() {
    let curve = InterestRateCurveKind::Fixed(InterestRatePerSecond::new(ilit("-0.1")));
    assert!(!curve.is_valid());
}

#[test]
fn fixed_rate_exceeding_max_exp_arg_is_invalid() {
    let curve = InterestRateCurveKind::Fixed(InterestRatePerSecond::new(IFixedPoint::from_i64(56)));
    assert!(!curve.is_valid());
}

#[test]
fn fixed_zero_rate_is_valid() {
    let curve = InterestRateCurveKind::Fixed(InterestRatePerSecond::new(IFixedPoint::zero()));
    assert!(curve.is_valid());
}

#[test]
fn fixed_reasonable_rate_is_valid() {
    let curve = InterestRateCurveKind::Fixed(approximate_from_apy(0.10));
    assert!(curve.is_valid());
    assert_eq!(curve, InterestRateCurveKind::default());
}

#[test]
fn check_coumpounding() {
    let apy = 0.05;
    let rate = approximate_from_apy(apy);
    let elapsed_seconds = 100000;
    let once = rate.coumpounding_interest_rate_during_elapsed_seconds(elapsed_seconds).unwrap();
    let twice = rate.coumpounding_interest_rate_during_elapsed_seconds(2 * elapsed_seconds).unwrap();
    assert!(twice > InterestRate::new(once.rate().safe_mul(2u64).unwrap()));
    let one_year = rate.coumpounding_interest_rate_during_elapsed_seconds(SECONDS_PER_YEAR).unwrap();
    assert_eq_float(to_float(one_year.rate()), apy, EPS);
}

#[test]
fn utilisation_rate_scales_interest() {
    let rate = approximate_from_apy(0.10);
    let half_util = IFixedPoint::from_ratio(1, 2).unwrap();
    let adjusted = rate.adjust_for_utilisation_rate(half_util).unwrap();
    assert!(adjusted.0 < rate.0);
    let adjusted_full = rate.adjust_for_utilisation_rate(IFixedPoint::one()).unwrap();
    assert_eq!(adjusted_full.0, rate.0);
}

#[test]
fn zero_elapsed_returns_zero_interest() {
    let rate = approximate_from_apy(0.10);
    let interest = rate.coumpounding_interest_rate_during_elapsed_seconds(0).unwrap();
    assert!(interest.rate().is_zero());
}

#[test]
fn check_utilisation_rate_bps() {
    let p = params(ilit("0.5"), 3600);
    assert_eq!(p.utilisation_rate_bps().unwrap(), 5000);
    let p = params(ilit("1000000000000000"), 3600);
    assert_eq!(p.utilisation_rate_bps().unwrap_err(), LendingError::CastOverflow);
}

#[test]
fn negative_utilisation_has_no_bps() {
    let p = params(ilit("-0.5"), 1);
    assert_eq!(p.utilisation_rate_bps().unwrap_err(), LendingError::CastOverflow);
}

#[test]
fn test_first_borrow_utilisation_zero() {
    let mut curve = AdaptiveInterestRateCurve::new();
    let rate = curve.borrow_rate(params(IFixedPoint::from_i64_u64_ratio(0, 1), days_to_seconds(90))).unwrap();
    assert_eq_float(to_float(rate.0), initial_rate() / 4., EPS);
    assert_eq_float(to_float(curve.rate_at_target.0), initial_rate(), EPS);
}

#[test]
fn test_first_borrow_utilisation_one() {
    let mut curve = AdaptiveInterestRateCurve::new();
    let rate = curve.borrow_rate(params(IFixedPoint::from_i64_u64_ratio(1, 1), days_to_seconds(90))).unwrap();
    assert_eq_float(to_float(rate.0), initial_rate() * 4., EPS);
    assert_eq_float(to_float(curve.rate_at_target.0), initial_rate(), EPS);
}

#[test]
fn test_rate_after_utilisation_one() {
    let mut curve = AdaptiveInterestRateCurve::new();
    let rate = curve
        .borrow_rate(params(IFixedPoint::from_i64_u64_ratio(0, 1), days_to_seconds(90 + 2 * 365)))
        .unwrap();
    assert_eq_float(to_float(rate.0), initial_rate() / 4., EPS);
    let rate = to_float(
        curve.compute_next_rates(params(IFixedPoint::from_i64_u64_ratio(1, 1), days_to_seconds(5))).unwrap().0 .0,
    );
    let speed = to_float(IFixedPoint::from_bits(ADJUSTMENT_SPEED_BITS));
    assert_eq_float(
        rate,
        (initial_rate() * 4.) * ((1.9836 - 1.) / (speed * days_to_seconds(5) as f64)),
        0.05,
    );
    assert_eq_float(rate, (initial_rate() * 4.) * 1.4361, 0.05);
    assert_eq_float(rate, 0.22976 / days_to_seconds(365) as f64, 0.05);
}

#[test]
fn test_rate_after_utilisation_zero() {
    let mut curve = AdaptiveInterestRateCurve::new();
    let rate = curve.borrow_rate(params(IFixedPoint::from_i64_u64_ratio(0, 1), days_to_seconds(2 * 365))).unwrap();
    assert_eq_float(to_float(rate.0), initial_rate() / 4., EPS);
    let rate = to_float(
        curve.compute_next_rates(params(IFixedPoint::from_i64_u64_ratio(0, 1), days_to_seconds(5))).unwrap().0 .0,
    );
    assert_eq_float(rate, (initial_rate() / 4.) * 0.724, 0.1);
    assert_eq_float(rate, 0.00724 / days_to_seconds(365) as f64, 0.1);
}

#[test]
fn test_rate_after_45_days_utilisation_above_target_no_ping() {
    let mut curve = AdaptiveInterestRateCurve::new();
    let rate = curve.borrow_rate(params(target(), days_to_seconds(1))).unwrap();
    assert_eq_float(to_float(rate.0), initial_rate(), EPS);
    assert_eq_float(to_float(curve.rate_at_target.0), initial_rate(), EPS);
    curve.borrow_rate(params(IFixedPoint::from_i64_u64_ratio(95, 100), days_to_seconds(45))).unwrap();
    assert_eq_float(to_float(curve.rate_at_target.0), 0.8722 / days_to_seconds(365) as f64, 0.005);
}

#[test]
fn test_rate_after_45_days_utilisation_above_target_ping_every_minute() {
    let mut curve = AdaptiveInterestRateCurve::new();
    let rate = curve.borrow_rate(params(target(), days_to_seconds(1))).unwrap();
    assert_eq_float(to_float(rate.0), initial_rate(), EPS);
    let mut total_supply_assets = IFixedPoint::one();
    let mut total_borrow_assets = IFixedPoint::from_i64_u64_ratio(95, 100);
    let minutes_in_45_days = 45 * 24 * 60;
    for _ in 0..minutes_in_45_days {
        let utilisation_rate = total_borrow_assets.safe_div(total_supply_assets).unwrap();
        let avg_borrow_rate = curve.borrow_rate(params(utilisation_rate, 60)).unwrap();
        let interest_factor = avg_borrow_rate.0.safe_mul(IFixedPoint::from_i64_u64_ratio(60, 1)).unwrap();
        let interest = total_borrow_assets.safe_mul(interest_factor).unwrap();
        total_supply_assets = total_supply_assets.safe_add(interest).unwrap();
        total_borrow_assets = total_borrow_assets.safe_add(interest).unwrap();
    }
    let final_utilization = total_borrow_assets.safe_div(total_supply_assets).unwrap();
    assert_eq_float(to_float(final_utilization), 0.95, 0.01);
    let expected_rate_at_target = 0.8722 / days_to_seconds(365) as f64;
    assert!(to_float(curve.rate_at_target.0) >= expected_rate_at_target);
    assert_eq_float(to_float(curve.rate_at_target.0), expected_rate_at_target, 0.08);
    let initial_borrow_assets = IFixedPoint::from_i64_u64_ratio(95, 100);
    let expected_final = initial_borrow_assets.safe_mul(IFixedPoint::from_i64_u64_ratio(1457, 1000)).unwrap();
    assert_eq_float(to_float(total_borrow_assets), to_float(expected_final), 0.3);
}

#[test]
fn test_rate_after_utilisation_target_no_ping() {
    let test_cases =
        [0, days_to_seconds(1), days_to_seconds(30), days_to_seconds(365), days_to_seconds(1000)];
    for elapsed in test_cases {
        let mut curve = AdaptiveInterestRateCurve::new();
        let rate = curve.borrow_rate(params(target(), days_to_seconds(1))).unwrap();
        assert_eq_float(to_float(rate.0), initial_rate(), EPS);
        assert_eq_float(to_float(curve.rate_at_target.0), initial_rate(), EPS);
        curve.borrow_rate(params(target(), elapsed)).unwrap();
        assert_eq_float(to_float(curve.rate_at_target.0), initial_rate(), EPS);
    }
}

#[test]
fn test_rate_after_3_weeks_utilisation_target_ping_every_minute() {
    let mut curve = AdaptiveInterestRateCurve::new();
    let rate = curve.borrow_rate(params(target(), days_to_seconds(1))).unwrap();
    assert_eq_float(to_float(rate.0), initial_rate(), EPS);
    assert_eq_float(to_float(curve.rate_at_target.0), initial_rate(), EPS);
    let mut total_supply_assets = IFixedPoint::one();
    let mut total_borrow_assets = target();
    let minutes_in_3_weeks = 3 * 7 * 24 * 60;
    for _ in 0..minutes_in_3_weeks {
        let utilisation_rate = total_borrow_assets.safe_div(total_supply_assets).unwrap();
        let avg_borrow_rate = curve.borrow_rate(params(utilisation_rate, 60)).unwrap();
        let interest_factor = avg_borrow_rate.0.safe_mul(IFixedPoint::from_i64_u64_ratio(60, 1)).unwrap();
        let interest = total_borrow_assets.safe_mul(interest_factor).unwrap();
        total_supply_assets = total_supply_assets.safe_add(interest).unwrap();
        total_borrow_assets = total_borrow_assets.safe_add(interest).unwrap();
    }
    let final_utilization = total_borrow_assets.safe_div(total_supply_assets).unwrap();
    assert_eq_float(to_float(final_utilization), to_float(target()), 0.01);
    assert!(to_float(curve.rate_at_target.0) >= initial_rate());
    assert_eq_float(to_float(curve.rate_at_target.0), initial_rate(), 0.1);
}

#[test]
fn polyline_points_convert_from_pairs() {
    let curve =
        PolylineInterestRateCurve::try_new(&[(0, 100).into(), (10_000, 200).into()]).unwrap();
    let first: PolylineInterestRatePoint = (0, 100).into();
    assert_eq!(first.utilization_rate_bps, 0);
    assert_eq!(first.borrow_rate_bps, 100);
    assert_eq!(curve.points[1].utilization_rate_bps, 10_000);
    assert_eq!(curve.points[1].borrow_rate_bps, 200);
}

#[test]
fn pod_interest_rate_curve_round_trips() {
    let fixed = InterestRateCurveKind::Fixed(InterestRatePerSecond(IFixedPoint::from_bits(100 << 48)));
    let pod_fixed = PodInterestRateCurve::from_interest_rate_kind(fixed);
    assert_eq!(pod_fixed.kind, PodInterestRateCurveKind::Fixed);
    assert_eq!(pod_fixed.interest_rate_kind(), fixed);
    assert_eq!(&pod_fixed.union[..16], &(100i128 << 48).to_le_bytes()[..]);
    assert!(pod_fixed.union[16..].iter().all(|b| *b == 0));

    let polyline = PolylineInterestRateCurve::try_new(&[(0, 100).into(), (100, 200).into()]).unwrap();
    let pod_polyline =
        PodInterestRateCurve::from_interest_rate_kind(InterestRateCurveKind::Polyline(polyline));
    assert_eq!(pod_polyline.interest_rate_kind(), InterestRateCurveKind::Polyline(polyline));
    assert_eq!(&pod_polyline.union[8..16], &[100, 0, 0, 0, 200, 0, 0, 0]);

    let adaptive = InterestRateCurveKind::Adaptive(AdaptiveInterestRateCurve::new());
    let pod_adaptive = PodInterestRateCurve::from_interest_rate_kind(adaptive);
    assert_eq!(pod_adaptive.interest_rate_kind(), adaptive);

    let bytes = pod_polyline.to_bytes();
    assert_eq!(bytes.len(), 72);
    assert_eq!(&bytes[..8], &[1, 0, 0, 0, 0, 0, 0, 0]);
    assert!(PodInterestRateCurve::from_bytes(&bytes) == Some(pod_polyline));
    let mut bad = bytes.clone();
    bad[0] = 3;
    assert!(PodInterestRateCurve::from_bytes(&bad).is_none());
    assert!(PodInterestRateCurve::from_bytes(&bytes[..71]).is_none());
    assert_eq!(PodInterestRateCurveKind::Polyline.size(), 64);
    assert_eq!(PodInterestRateCurveKind::Fixed.size(), 16);
}

#[test]
fn polyline_rate_passes_through_points_and_rises() {
    let curve = PolylineInterestRateCurve::try_new(&[
        (0, 100).into(),
        (5000, 500).into(),
        (8000, 2000).into(),
    ])
    .unwrap();
    assert_eq!(curve.points().len(), 3);
    assert_eq!(curve.apr_borrow_rate_bps(0), 100);
    assert_eq!(curve.apr_borrow_rate_bps(5000), 500);
    assert_eq!(curve.apr_borrow_rate_bps(8000), 2000);
    let mut last = 0;
    for u in (0..=10_000).step_by(250) {
        let r = curve.apr_borrow_rate_bps(u);
        assert!(r >= last);
        last = r;
    }
}
