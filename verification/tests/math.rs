use autara_lib::error::LendingError;
use autara_lib::interest_rate::interest_rate::InterestRate;
use autara_lib::math::bps::{bps_from_fixed_point, bps_to_fixed_point, bps_to_percent, percent_to_bps};
use autara_lib::math::const_max::const_max_usizes;
use autara_lib::math::ifixed_point::IFixedPoint;
use autara_lib::math::rounding::RoundingMode;
use autara_lib::math::safe_math::SafeMath;
use autara_lib::math::shares_tracker::SharesTracker;
use autara_lib::math::ufixed_point::UFixedPoint;
use fixed::types::{I80F48, U64F64};

fn ilit(s: &str) -> IFixedPoint {
    IFixedPoint::from_bits(I80F48::lit(s).to_bits())
}

fn ulit(s: &str) -> UFixedPoint {
    UFixedPoint::from_bits(U64F64::lit(s).to_bits())
}

fn to_float(x: IFixedPoint) -> f64 {
    I80F48::from_bits(x.bits).to_num::<f64>()
}

fn assert_eq_float(left: f64, right: f64, max_relative_error: f64) {
    let abs_relative_error = (left - right).abs() / right;
    assert!(
        abs_relative_error <= max_relative_error,
        "left {} right {} relative error {}",
        left,
        right,
        abs_relative_error
    );
}

#[test]
fn test_percent_to_bps() {
    assert_eq!(percent_to_bps(1), 100);
    assert_eq!(percent_to_bps(10), 1000);
    assert_eq!(percent_to_bps(50), 5000);
}

#[test]
fn test_bps_to_percent() {
    assert_eq!(bps_to_percent(100), 1);
    assert_eq!(bps_to_percent(1000), 10);
    assert_eq!(bps_to_percent(5000), 50);
}

#[test]
fn test_bps_to_fixed_point() {
    assert_eq!(bps_to_fixed_point(100), UFixedPoint::from_u64_u64_ratio(100, 10_000));
    assert_eq!(bps_to_fixed_point(1000), UFixedPoint::from_u64_u64_ratio(1000, 10_000));
    assert_eq!(bps_to_fixed_point(5000), UFixedPoint::from_u64_u64_ratio(5000, 10_000));
}

#[test]
fn test_bps_from_fixed_point() {
    let result = bps_from_fixed_point(1, UFixedPoint::from_u64(2));
    assert_eq!(result, Ok(UFixedPoint::from_u64_u64_ratio(2, 10_000)));
}

#[test]
fn test_const_max_usizes() {
    let items = [1, 3, 2, 5, 4];
    assert_eq!(const_max_usizes(&items), 5);
}

#[test]
fn const_max_keeps_the_first_of_equal_maxima() {
    let items = [7usize, 1, 7, 2];
    assert_eq!(const_max_usizes(&items), 7);
    assert_eq!(const_max_usizes(&[0usize]), 0);
}

#[test]
fn fixed_exp() {
    let xs = ["0", "-0.001", "0.001", "-0.5", "-0.5", "1", "-1", "2", "-2", "-20", "20", "50"];
    for x in xs {
        let exp_fixed = to_float(ilit(x).checked_exp().unwrap());
        let exp_float = x.parse::<f64>().unwrap().exp();
        assert_eq_float(exp_fixed, exp_float, 0.0001);
    }
}

#[test]
fn exp_below_the_smallest_argument_is_zero_and_above_the_largest_fails() {
    assert_eq!(ilit("-40").checked_exp().unwrap(), IFixedPoint::zero());
    assert_eq!(ilit("60").checked_exp().unwrap_err(), LendingError::InvalidExpArg);
    assert_eq!(IFixedPoint::zero().checked_exp().unwrap(), IFixedPoint::one());
}

#[test]
fn ifixed_point_check_rounding() {
    let x = IFixedPoint::from_i64(1);
    assert_eq!(x.as_u64_rounded_down().unwrap(), 1);
    assert_eq!(x.as_u64_rounded_up().unwrap(), 1);

    let x = ilit("0.99");
    assert_eq!(x.as_u64_rounded_down().unwrap(), 0);
    assert_eq!(x.as_u64_rounded_up().unwrap(), 1);

    let x = ilit("0.000000001");
    assert_eq!(x.as_u64_rounded_down().unwrap(), 0);
    assert_eq!(x.as_u64_rounded_up().unwrap(), 1);

    let x = ilit("-1");
    assert_eq!(x.as_u64_rounded_down().unwrap_err(), LendingError::CastOverflow);
    assert_eq!(x.as_u64_rounded_up().unwrap_err(), LendingError::CastOverflow);
}

#[test]
fn test_from_i64_u64_ratio() {
    assert_eq!(IFixedPoint::from_i64_u64_ratio(1, 2), ilit("0.5"));
    assert_eq!(IFixedPoint::from_i64_u64_ratio(-1, 2), ilit("-0.5"));
}

#[test]
fn test_from_ufixed() {
    let ufixed = UFixedPoint::from_bits(U64F64::from_num(1.5).to_bits());
    let ifixed = IFixedPoint::try_from_ufixed(ufixed).unwrap();
    assert_eq!(ifixed, ilit("1.5"));
    assert!(IFixedPoint::try_from_ufixed(UFixedPoint::max_value()).is_ok());
    assert!(IFixedPoint::try_from_ufixed(UFixedPoint::from_bits(1)).is_ok());
}

#[test]
fn ifixed_point_test_from_fixed() {
    let ifixed = IFixedPoint::from_bits(I80F48::from_num(1.5).to_bits());
    assert_eq!(ifixed, ilit("1.5"));
    let ifixed = IFixedPoint::from_bits(I80F48::from_num(-2.75).to_bits());
    assert_eq!(ifixed, ilit("-2.75"));
}

#[test]
fn ifixed_point_check_math() {
    let a = ilit("1.5");
    let b = ilit("2.0");
    assert_eq!(a.safe_add(b).unwrap(), ilit("3.5"));
    assert_eq!(a.safe_sub(b).unwrap(), ilit("-0.5"));
    assert_eq!(a.safe_mul(b).unwrap(), ilit("3.0"));
    assert_eq!(a.safe_div(b).unwrap(), ilit("0.75"));
    assert_eq!(
        IFixedPoint::max_value().safe_add(IFixedPoint::max_value()).unwrap_err(),
        LendingError::AdditionOverflow
    );
    assert_eq!(
        IFixedPoint::min_value().safe_sub(IFixedPoint::max_value()).unwrap_err(),
        LendingError::SubtractionOverflow
    );
    assert_eq!(
        IFixedPoint::max_value().safe_mul(IFixedPoint::max_value()).unwrap_err(),
        LendingError::MultiplicationOverflow
    );
    assert_eq!(
        IFixedPoint::max_value().safe_div(IFixedPoint::from_bits(1)).unwrap_err(),
        LendingError::DivisionOverflow
    );
    assert_eq!(ilit("1.0").safe_div(IFixedPoint::zero()).unwrap_err(), LendingError::DivisionOverflow);
}

#[test]
fn signed_products_round_down_and_quotients_toward_zero() {
    let tiny = IFixedPoint::from_bits(1);
    assert_eq!(tiny.safe_mul(ilit("0.5")).unwrap(), IFixedPoint::zero());
    assert_eq!(tiny.neg().safe_mul(ilit("0.5")).unwrap(), IFixedPoint::from_bits(-1));
    assert_eq!(IFixedPoint::from_bits(-1).safe_div(IFixedPoint::from_u64(2)).unwrap(), IFixedPoint::zero());
}

#[test]
fn ufixed_point_check_rounding() {
    let x = UFixedPoint::from_u64(1);
    assert_eq!(x.as_u64_rounded_down().unwrap(), 1);
    assert_eq!(x.as_u64_rounded_up().unwrap(), 1);

    let x = ulit("0.99");
    assert_eq!(x.as_u64_rounded_down().unwrap(), 0);
    assert_eq!(x.as_u64_rounded_up().unwrap(), 1);

    let x = ulit("0.000000001");
    assert_eq!(x.as_u64_rounded_down().unwrap(), 0);
    assert_eq!(x.as_u64_rounded_up().unwrap(), 1);
}

#[test]
fn ufixed_point_test_from_fixed() {
    let ufixed = UFixedPoint::from_bits(U64F64::from_num(1.5).to_bits());
    assert_eq!(ufixed, ulit("1.5"));
}

#[test]
fn test_from_ifixed() {
    let fixed = IFixedPoint::from_bits(I80F48::from_num(1.5).to_bits());
    let ufixed = UFixedPoint::try_from_ifixed(fixed).unwrap();
    assert_eq!(ufixed, ulit("1.5"));
    let negative_fixed = IFixedPoint::from_bits(I80F48::from_num(-1.5).to_bits());
    assert_eq!(UFixedPoint::try_from_ifixed(negative_fixed).unwrap_err(), LendingError::CastOverflow);
}

#[test]
fn ufixed_point_check_math() {
    let a = ulit("1.5");
    let b = ulit("2.0");
    assert_eq!(a.safe_add(b).unwrap(), ulit("3.5"));
    assert_eq!(b.safe_sub(a).unwrap(), ulit("0.5"));
    assert_eq!(a.safe_mul(b).unwrap(), ulit("3.0"));
    assert_eq!(a.safe_div(b).unwrap(), ulit("0.75"));
    assert_eq!(
        UFixedPoint::max_value().safe_add(UFixedPoint::max_value()).unwrap_err(),
        LendingError::AdditionOverflow
    );
    assert_eq!(
        UFixedPoint::min_value().safe_sub(UFixedPoint::max_value()).unwrap_err(),
        LendingError::SubtractionOverflow
    );
    assert_eq!(
        UFixedPoint::max_value().safe_mul(UFixedPoint::max_value()).unwrap_err(),
        LendingError::MultiplicationOverflow
    );
    assert_eq!(
        UFixedPoint::max_value().safe_div(UFixedPoint::from_bits(1)).unwrap_err(),
        LendingError::DivisionOverflow
    );
    assert_eq!(ulit("1.0").safe_div(UFixedPoint::zero()).unwrap_err(), LendingError::DivisionOverflow);
}

#[test]
fn unsigned_rounding_up_never_below_rounding_down() {
    for bits in [1u128, 17, 1 << 63, (1 << 64) - 1, 1 << 64, (5 << 64) + 3] {
        let x = UFixedPoint::from_bits(bits);
        let d = x.as_u64_rounded_down().unwrap();
        let u = x.as_u64_rounded_up().unwrap();
        assert!(u >= d && u - d <= 1);
    }
}

#[test]
fn test_u64_safe_add() {
    assert_eq!(5u64.safe_add(3u64), Ok(8));
    assert_eq!(u64::MAX.safe_add(1u64).unwrap_err(), LendingError::AdditionOverflow);
}

#[test]
fn test_u64_safe_sub() {
    assert_eq!(5u64.safe_sub(3u64), Ok(2));
    assert_eq!(3u64.safe_sub(5u64).unwrap_err(), LendingError::SubtractionOverflow);
}

#[test]
fn test_u64_safe_mul() {
    assert_eq!(5u64.safe_mul(3u64), Ok(15));
    assert_eq!(u64::MAX.safe_mul(2u64).unwrap_err(), LendingError::MultiplicationOverflow);
}

#[test]
fn test_u64_safe_div() {
    assert_eq!(6u64.safe_div(3u64), Ok(2));
    assert_eq!(5u64.safe_div(0u64).unwrap_err(), LendingError::DivisionByZero);
}

#[test]
fn test_u64_safe_add_ifixed() {
    let ifixed = IFixedPoint::from_u64(3);
    assert_eq!(5u64.safe_add(ifixed), Ok(IFixedPoint::from_u64(8)));
    assert_eq!(u64::MAX.safe_add(IFixedPoint::max_value()).unwrap_err(), LendingError::AdditionOverflow);
}

#[test]
fn test_u64_safe_sub_ifixed() {
    let ifixed = IFixedPoint::from_u64(3);
    assert_eq!(5u64.safe_sub(ifixed), Ok(IFixedPoint::from_u64(2)));
    assert_eq!(5u64.safe_sub(IFixedPoint::min_value()).unwrap_err(), LendingError::SubtractionOverflow);
}

#[test]
fn test_u64_safe_mul_ifixed() {
    let ifixed = IFixedPoint::from_u64(3);
    assert_eq!(5u64.safe_mul(ifixed), Ok(IFixedPoint::from_u64(15)));
    assert_eq!(
        u64::MAX.safe_mul(IFixedPoint::max_value()).unwrap_err(),
        LendingError::MultiplicationOverflow
    );
}

#[test]
fn test_u64_safe_div_ifixed() {
    let ifixed = IFixedPoint::from_u64(3);
    assert_eq!(6u64.safe_div(ifixed), Ok(IFixedPoint::from_u64(2)));
    assert_eq!(5u64.safe_div(IFixedPoint::zero()).unwrap_err(), LendingError::DivisionOverflow);
    assert_eq!(u64::MAX.safe_div(IFixedPoint::from_bits(1)).unwrap_err(), LendingError::DivisionOverflow);
}

#[test]
fn deposit_withdraw() {
    let mut tracker = SharesTracker::new();
    let atoms = 100000;
    let shares = tracker.deposit_atoms(atoms).unwrap();
    assert_eq!(shares, UFixedPoint::from_u64(atoms));
    assert_eq!(tracker.total_atoms(RoundingMode::RoundDown).unwrap(), atoms);
    let withdrawn_atoms = tracker.withdraw_shares(shares, RoundingMode::RoundDown).unwrap();
    assert_eq!(withdrawn_atoms, atoms);
    assert_eq!(tracker.total_atoms(RoundingMode::RoundDown).unwrap(), 0);
}

#[test]
fn apply_negative_interest_rate() {
    let mut tracker = SharesTracker::new();
    let initial_atoms = 1000000;
    let shares = tracker.deposit_atoms(initial_atoms).unwrap();
    let interest_rate = InterestRate::new(ilit("-0.1"));
    tracker.apply_interest_rate(interest_rate).unwrap();
    let total_supply = tracker.total_atoms(RoundingMode::RoundDown).unwrap();
    assert_eq!(total_supply, 899999);
    let withdrawn = tracker.withdraw_shares(shares, RoundingMode::RoundDown).unwrap();
    assert_eq!(withdrawn, 899999);
}

#[test]
fn apply_fee_on_interest_rate() {
    let mut tracker = SharesTracker::new();
    let initial_atoms = 1000000000;
    tracker.deposit_atoms(initial_atoms).unwrap();
    let interest_rate = InterestRate::new(ilit("0.5"));
    let shares_minted = tracker.apply_interest_rate_with_fee(interest_rate, bps_to_fixed_point(1_000)).unwrap();
    let total_supply = tracker.total_atoms(RoundingMode::RoundDown).unwrap();
    assert_eq!(total_supply, 1499999999);
    let withdraw_fees = tracker.withdraw_shares(shares_minted, RoundingMode::RoundDown).unwrap();
    assert_eq!(withdraw_fees, (total_supply - initial_atoms) / 10);
}

#[test]
fn deposit_withdraw_zero_atoms() {
    let mut tracker = SharesTracker::new();
    let shares = tracker.deposit_atoms(0).unwrap();
    assert_eq!(shares, UFixedPoint::from_u64(0));
    assert_eq!(tracker.total_atoms(RoundingMode::RoundDown).unwrap(), 0);
    let withdrawn_atoms = tracker.withdraw_shares(shares, RoundingMode::RoundDown).unwrap();
    assert_eq!(withdrawn_atoms, 0);
    assert_eq!(tracker.total_atoms(RoundingMode::RoundDown).unwrap(), 0);
}

#[test]
fn withdraw_more_than_available() {
    let mut tracker = SharesTracker::new();
    let atoms = 1000;
    let shares = tracker.deposit_atoms(atoms).unwrap();
    let result = tracker.withdraw_shares(shares.safe_add(UFixedPoint::from_u64(1)).unwrap(), RoundingMode::RoundDown);
    assert_eq!(result.unwrap_err(), LendingError::SharesOverflow);
    let result = tracker.withdraw_atoms(atoms + 1);
    assert_eq!(result.unwrap_err(), LendingError::SharesOverflow);
}

#[test]
fn apply_interest_with_zero_supply() {
    let mut tracker = SharesTracker::new();
    let interest_rate = InterestRate::new(IFixedPoint::from_u64(1));
    assert!(tracker.apply_interest_rate(interest_rate).is_ok());
    assert_eq!(tracker.total_atoms(RoundingMode::RoundDown).unwrap(), 0);
}

#[test]
fn apply_interest_with_fee_greater_than_interest() {
    let mut tracker = SharesTracker::new();
    tracker.deposit_atoms(1000).unwrap();
    let interest_rate = InterestRate::new(IFixedPoint::from_u64(1));
    let result = tracker.apply_interest_rate_with_fee(interest_rate, UFixedPoint::from_u64(2));
    assert!(result.is_err());
}

#[test]
fn test_donate_and_socialize_loss() {
    let mut tracker = SharesTracker::new();
    tracker.deposit_atoms(1000).unwrap();
    tracker.donate_atoms(500).unwrap();
    assert_eq!(tracker.total_atoms(RoundingMode::RoundDown).unwrap(), 1500);
    tracker.socialize_loss_atoms(300).unwrap();
    assert_eq!(tracker.total_atoms(RoundingMode::RoundDown).unwrap(), 1200);
}

#[test]
fn donating_to_an_empty_tracker_is_refused() {
    let mut tracker = SharesTracker::default();
    assert_eq!(tracker.donate_atoms(5).unwrap_err(), LendingError::CantModifySharePriceIfZeroShares);
    assert_eq!(tracker.socialize_loss_atoms(5).unwrap_err(), LendingError::CantModifySharePriceIfZeroShares);
    assert_eq!(tracker, SharesTracker::new());
}

#[test]
fn test_deposit_withdraw_consitency_with_magnitude() {
    let small_deposit = 10;
    let big_deposit = 1_000_000_000_000;
    for [small_deposit_first, small_withdraw_first] in [[true, false], [false, true], [true, true], [false, false]] {
        let mut tracker = SharesTracker::new();
        let (small_shares, big_shares) = if small_deposit_first {
            let s = tracker.deposit_atoms(small_deposit).unwrap();
            let b = tracker.deposit_atoms(big_deposit).unwrap();
            (s, b)
        } else {
            let b = tracker.deposit_atoms(big_deposit).unwrap();
            let s = tracker.deposit_atoms(small_deposit).unwrap();
            (s, b)
        };
        let (small_withdrawn, big_withdrawn) = if small_withdraw_first {
            let s = tracker.withdraw_shares(small_shares, RoundingMode::RoundDown).unwrap();
            let b = tracker.withdraw_shares(big_shares, RoundingMode::RoundDown).unwrap();
            (s, b)
        } else {
            let b = tracker.withdraw_shares(big_shares, RoundingMode::RoundDown).unwrap();
            let s = tracker.withdraw_shares(small_shares, RoundingMode::RoundDown).unwrap();
            (s, b)
        };
        assert_eq!(small_withdrawn, small_deposit);
        assert_eq!(big_withdrawn, big_deposit);
    }
}
