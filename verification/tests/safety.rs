#![allow(dead_code, unused_imports, unused_variables, unused_mut, non_snake_case)]

use autara_lib::constant::{SECONDS_PER_DAY, SECONDS_PER_YEAR};
use autara_lib::error::LendingError;
use autara_lib::interest_rate::interest_rate::InterestRate;
use autara_lib::interest_rate::interest_rate_kind::InterestRateCurveKind;
use autara_lib::interest_rate::interest_rate_per_second::InterestRatePerSecond;
use autara_lib::math::bps::{bps_to_fixed_point, percent_to_bps};
use autara_lib::math::ifixed_point::IFixedPoint;
use autara_lib::math::rounding::RoundingMode;
use autara_lib::math::safe_math::SafeMath;
use autara_lib::math::shares_tracker::SharesTracker;
use autara_lib::math::ufixed_point::UFixedPoint;
use autara_lib::oracle::oracle_config::{
    OracleConfig, OracleProvider, OracleValidationConfig, PythProvider,
};
use autara_lib::oracle::oracle_price::OracleRate;
use autara_lib::pubkey::Pubkey;
use autara_lib::state::borrow_position::BorrowPosition;
use autara_lib::state::collateral_vault::CollateralVault;
use autara_lib::state::global_config::GlobalConfig;
use autara_lib::state::market::Market;
use autara_lib::state::market_config::{LtvConfig, MarketConfig};
use autara_lib::state::supply_position::SupplyPosition;
use autara_lib::state::supply_vault::SupplyVault;
use fixed::types::{I80F48, U64F64};
use std::hash::{BuildHasher, Hasher};
use autara_lib::operation::liquidation::{compute_liquidation, compute_liquidation_with_fee, LiquidationResult, LiquidationResultWithBonus};

const EPS: f64 = 1e-6;

fn assert_eq_float(left: f64, right: f64, max_relative_error: f64) {
    let abs_relative_error = (left - right).abs() / right;
    if abs_relative_error > max_relative_error {
        panic!(
            "assertion failed: left {:?} right {:?} max_relative_error {} abs_relative_error {:?}",
            left, right, max_relative_error, abs_relative_error
        );
    }
}

trait FixedExt: Sized {
    const MAX: Self;
    const MIN: Self;
    fn lit(s: &str) -> Self;
    fn from_num<N: fixed::traits::ToFixed>(n: N) -> Self;
    fn to_float(&self) -> f64;
}

impl FixedExt for IFixedPoint {
    const MAX: Self = IFixedPoint { bits: i128::MAX };
    const MIN: Self = IFixedPoint { bits: i128::MIN };
    fn lit(s: &str) -> Self {
        IFixedPoint::from_bits(I80F48::lit(s).to_bits())
    }
    fn from_num<N: fixed::traits::ToFixed>(n: N) -> Self {
        IFixedPoint::from_bits(I80F48::from_num(n).to_bits())
    }
    fn to_float(&self) -> f64 {
        I80F48::from_bits(self.bits).to_num::<f64>()
    }
}

impl FixedExt for UFixedPoint {
    const MAX: Self = UFixedPoint { bits: u128::MAX };
    const MIN: Self = UFixedPoint { bits: 0 };
    fn lit(s: &str) -> Self {
        UFixedPoint::from_bits(U64F64::lit(s).to_bits())
    }
    fn from_num<N: fixed::traits::ToFixed>(n: N) -> Self {
        UFixedPoint::from_bits(U64F64::from_num(n).to_bits())
    }
    fn to_float(&self) -> f64 {
        U64F64::from_bits(self.bits).to_num::<f64>()
    }
}

trait NewUnique {
    fn new_unique() -> Self;
}

impl NewUnique for Pubkey {
    fn new_unique() -> Self {
        let mut bytes = [0u8; 32];
        for chunk in bytes.chunks_mut(8) {
            let mut h = std::collections::hash_map::RandomState::new().build_hasher();
            h.write_u8(0);
            chunk.copy_from_slice(&h.finish().to_le_bytes());
        }
        Pubkey(bytes)
    }
}

trait Zeroed {
    fn zeroed() -> Self;
}

impl Zeroed for BorrowPosition {
    fn zeroed() -> Self {
        BorrowPosition::default()
    }
}

impl Zeroed for SupplyPosition {
    fn zeroed() -> Self {
        SupplyPosition::default()
    }
}

trait ApproxRate {
    fn approximate_from_apy(apy: f64) -> Self;
}

impl ApproxRate for InterestRatePerSecond {
    fn approximate_from_apy(apy: f64) -> Self {
        let ln = IFixedPoint::from_num((apy + 1.).ln());
        InterestRatePerSecond(ln.safe_div(SECONDS_PER_YEAR).unwrap())
    }
}

trait ApproxCurve {
    fn new_approximate_fixed_apy(apy: f64) -> Self;
}

impl ApproxCurve for InterestRateCurveKind {
    fn new_approximate_fixed_apy(apy: f64) -> Self {
        InterestRateCurveKind::Fixed(InterestRatePerSecond::approximate_from_apy(apy))
    }
}

fn USDC(amount: f64) -> u64 {
    (amount * 1_000_000.0) as u64
}

fn BTC(amount: f64) -> u64 {
    (amount * 100_000_000.0) as u64
}

const USDC_DECIMALS: u64 = 6;
const BTC_DECIMALS: u64 = 8;
const BTC_FEED_ID: [u8; 32] = [1; 32];
const USD_FEED_ID: [u8; 32] = [2; 32];

fn default_btc_oracle_rate() -> OracleRate {
    OracleRate::new(IFixedPoint::from_num(100_000.0), IFixedPoint::from_num(100.0))
}

fn default_usd_oracle_rate() -> OracleRate {
    OracleRate::new(IFixedPoint::from_num(1.0), IFixedPoint::from_num(0.001))
}

fn btc_oracle_config() -> OracleConfig {
    OracleConfig::new(
        OracleProvider::Pyth(PythProvider { feed_id: BTC_FEED_ID, program_id: Pubkey(BTC_FEED_ID) }),
        OracleValidationConfig::default(),
    )
}

fn usd_oracle_config() -> OracleConfig {
    OracleConfig::new(
        OracleProvider::Pyth(PythProvider { feed_id: USD_FEED_ID, program_id: Pubkey(USD_FEED_ID) }),
        OracleValidationConfig::default(),
    )
}

fn create_btc_collateral_vault() -> CollateralVault {
    CollateralVault {
        mint: Pubkey::new_unique(),
        mint_decimals: BTC_DECIMALS,
        vault: Pubkey::new_unique(),
        total_collateral_atoms: 0,
        oracle_config: btc_oracle_config(),
    }
}

fn create_usdc_supply_vault() -> SupplyVault {
    SupplyVault {
        mint: Pubkey::new_unique(),
        mint_decimals: USDC_DECIMALS,
        vault: Pubkey::new_unique(),
        oracle_config: usd_oracle_config(),
        supply_shares_tracker: SharesTracker::default(),
        borrow_shares_tracker: SharesTracker::default(),
        last_borrow_interest_rate: InterestRatePerSecond::approximate_from_apy(10.),
        interest_rate_curve: InterestRateCurveKind::new_approximate_fixed_apy(0.1),
        last_update_unix_timestamp: 0,
        pending_protocol_fee_shares: UFixedPoint::zero(),
        pending_curator_fee_shares: UFixedPoint::zero(),
    }
}

fn test_global_config() -> GlobalConfig {
    GlobalConfig::new(Pubkey::new_unique(), Pubkey::new_unique(), 1000)
}

fn test_config() -> MarketConfig {
    MarketConfig {
        bump: [0; 1],
        index: [0; 1],
        curator: Pubkey::new_unique(),
        ltv_config: LtvConfig {
            max_ltv: IFixedPoint::from_num(0.8),
            unhealthy_ltv: IFixedPoint::from_num(0.9),
            liquidation_bonus: IFixedPoint::from_num(0.05),
        },
        max_utilisation_rate: IFixedPoint::from_num(0.95),
        lending_market_fee_in_bps: percent_to_bps(10) as u16,
        protocol_fee_share_in_bps: percent_to_bps(50) as u16,
        max_supply_atoms: u64::MAX,
    }
}

fn create_empty_btc_usdc_market() -> Market {
    Market {
        collateral_vault: create_btc_collateral_vault(),
        supply_vault: create_usdc_supply_vault(),
        config: test_config(),
    }
}

fn create_btc_usdc_market() -> Market {
    let mut market = create_empty_btc_usdc_market();
    let mut supply_position = SupplyPosition::default();
    market.lend(&mut supply_position, USDC(10_000_000.)).unwrap();
    market
}



#[test]
    fn no_overflow_6_decimal_token_max_amount() {
        let oracle = OracleRate::new(
            IFixedPoint::from_num(1.0),
            IFixedPoint::from_num(0.001),
        );
        let amount = u64::MAX;
        let decimals: u8 = 6;

        let result = oracle.borrow_value(amount, decimals);
        assert!(result.is_ok(), "6-decimal token should not overflow even at u64::MAX");

        let value = result.unwrap().to_float();
        let expected = (u64::MAX as f64) * 1.001 / 1_000_000.0;
        assert!(
            (value - expected).abs() / expected < 0.0001,
            "Value mismatch: got {}, expected {}",
            value,
            expected
        );
    }

#[test]
    fn no_overflow_btc_at_million_dollar_price() {
        let oracle = OracleRate::new(
            IFixedPoint::from_num(1_000_000.0),
            IFixedPoint::from_num(1_000.0),
        );
        let amount: u64 = 100_000 * 10u64.pow(8);
        let decimals: u8 = 8;

        let result = oracle.borrow_value(amount, decimals);
        assert!(result.is_ok());

        let value = result.unwrap().to_float();
        let expected = 100_000.0 * 1_001_000.0;
        assert!(
            (value - expected).abs() / expected < 0.0001,
            "Expected ~${}, got ${}",
            expected,
            value
        );
    }

#[test]
    fn safe_mul_catches_overflow() {
        let large = IFixedPoint::from_num(1e15_f64);
        let also_large = IFixedPoint::from_num(1e15_f64);
        let result = large.safe_mul(also_large);
        assert_eq!(
            result.unwrap_err(),
            LendingError::MultiplicationOverflow,
            "safe_mul must catch overflow"
        );
    }

#[test]
    fn first_depositor_inflation_attack_mitigated_by_fractional_shares() {
        let mut tracker = SharesTracker::new();

        // Step 1: Attacker deposits 1 atom
        let attacker_shares = tracker.deposit_atoms(1).unwrap();
        assert_eq!(attacker_shares, UFixedPoint::from_u64(1));

        // Step 2: Attacker donates 1_000_000 atoms to inflate atoms_per_share
        tracker.donate_atoms(1_000_000).unwrap();
        assert_eq!(
            tracker.atoms_per_share(),
            UFixedPoint::from_u64(1_000_001)
        );

        // Step 3: Victim deposits 999_999 atoms (just under atoms_per_share)
        let victim_shares = tracker.deposit_atoms(999_999).unwrap();
        // Unlike ERC-4626, victim gets FRACTIONAL shares: 999_999/1_000_001 ≈ 0.999998
        assert!(
            !victim_shares.is_zero(),
            "U64F64 fractional shares protect against inflation attack: victim got {:?} shares",
            victim_shares
        );

        // Victim can withdraw and gets back almost all their deposit
        let victim_withdrawn = tracker
            .withdraw_shares(victim_shares, RoundingMode::RoundDown)
            .unwrap();
        // Loss should be minimal (at most 1 atom from rounding)
        let loss = 999_999u64.saturating_sub(victim_withdrawn);
        assert!(
            loss <= 1,
            "Victim lost {} atoms from inflation attack (mitigated by fractional shares)",
            loss
        );
    }

#[test]
    fn modest_inflation_mitigated_by_fractional_shares() {
        let mut tracker = SharesTracker::new();

        let _attacker_shares = tracker.deposit_atoms(1).unwrap();
        tracker.donate_atoms(100).unwrap();

        // Victim deposits 100 atoms → gets fractional shares (100/101 ≈ 0.9901)
        let victim_shares = tracker.deposit_atoms(100).unwrap();
        assert!(
            !victim_shares.is_zero(),
            "Fractional shares protect victim: got {:?} shares (not zero)",
            victim_shares
        );

        let victim_withdrawn = tracker
            .withdraw_shares(victim_shares, RoundingMode::RoundDown)
            .unwrap();
        let loss = 100u64.saturating_sub(victim_withdrawn);
        assert!(
            loss <= 1,
            "Victim loss bounded to {} atom(s) thanks to fractional shares",
            loss
        );
    }

#[test]
    fn large_initial_deposit_mitigates_inflation() {
        let mut tracker = SharesTracker::new();

        // Protocol seeds the vault with 1000 atoms
        let _seed_shares = tracker.deposit_atoms(1000).unwrap();

        // Attacker tries to donate 1_000_000 atoms
        tracker.donate_atoms(1_000_000).unwrap();
        // atoms_per_share = (1000 + 1_000_000) / 1000 = 1001

        // Victim deposits 1_000_000 atoms
        let victim_shares = tracker.deposit_atoms(1_000_000).unwrap();
        assert!(
            !victim_shares.is_zero(),
            "With 1000 initial shares, the inflation attack is mitigated"
        );

        // Victim can withdraw reasonable amount
        let victim_withdrawn = tracker
            .withdraw_shares(victim_shares, RoundingMode::RoundDown)
            .unwrap();
        let loss = 1_000_000u64.saturating_sub(victim_withdrawn);
        assert!(
            loss <= 1001, // Loss bounded by atoms_per_share
            "Victim loss should be bounded by atoms_per_share. Lost {} atoms",
            loss
        );
    }

#[test]
    fn supply_side_inflation_mitigated() {
        let mut supply_tracker = SharesTracker::new();

        let attacker_shares = supply_tracker.deposit_atoms(1).unwrap();
        supply_tracker.donate_atoms(1_000_000).unwrap();

        let victim_shares = supply_tracker.deposit_atoms(999_999).unwrap();
        // Victim gets fractional shares — NOT zero
        assert!(
            !victim_shares.is_zero(),
            "Supply-side: fractional shares protect victim. Got {:?} shares",
            victim_shares
        );

        let victim_withdrawn = supply_tracker
            .withdraw_shares(victim_shares, RoundingMode::RoundDown)
            .unwrap();
        let loss = 999_999u64.saturating_sub(victim_withdrawn);
        assert!(
            loss <= 1,
            "Victim loss is minimal ({} atoms) thanks to U64F64 fractional shares",
            loss
        );

        // Attacker's profit from the attack is negligible
        let attacker_withdrawn = supply_tracker
            .withdraw_shares(attacker_shares, RoundingMode::RoundDown)
            .unwrap();
        // Attacker should only get back their deposit + donation (1 + 1M = 1_000_001)
        // NOT the victim's funds
        assert!(
            attacker_withdrawn <= 1_000_002,
            "Attacker should not profit significantly. Got {}",
            attacker_withdrawn
        );
    }

#[test]
    fn inflation_attack_at_u64f64_precision_boundary() {
        let mut tracker = SharesTracker::new();

        tracker.deposit_atoms(1).unwrap();

        let huge_donation: u64 = 1u64 << 62; // 2^62 = ~4.6×10^18
        tracker.donate_atoms(huge_donation).unwrap();

        // Victim deposits 1 atom at very high atoms_per_share
        let victim_shares = tracker.deposit_atoms(1).unwrap();
        assert!(
            !victim_shares.is_zero(),
            "Inflation attack succeeded: victim got zero shares at atoms_per_share=2^62. \
             Fractional precision exhausted — attacker can steal victim deposits."
        );

        let victim_withdrawn = tracker
            .withdraw_shares(victim_shares, RoundingMode::RoundDown)
            .unwrap();
        assert!(
            victim_withdrawn <= 1,
            "Victim should get at most their 1 atom back"
        );
    }

#[test]
    fn confidence_equals_rate_rejected() {
        let result = OracleRate::try_new(
            IFixedPoint::from_num(100.0),
            IFixedPoint::from_num(100.0),
        );
        assert_eq!(
            result.unwrap_err(),
            LendingError::OracleConfidenceExceedsRate,
        );
    }

#[test]
    fn confidence_exceeds_rate_rejected() {
        let result = OracleRate::try_new(
            IFixedPoint::from_num(100.0),
            IFixedPoint::from_num(150.0),
        );
        assert_eq!(
            result.unwrap_err(),
            LendingError::OracleConfidenceExceedsRate,
        );
    }

#[test]
    fn wide_confidence_extreme_ltv_impact() {
        let oracle = OracleRate::new(
            IFixedPoint::from_num(100_000.0),
            IFixedPoint::from_num(10_000.0),
        );

        let amount: u64 = 100_000_000; // 1 BTC (8 decimals)
        let decimals: u8 = 8;

        let collateral = oracle.collateral_value(amount, decimals).unwrap();
        let borrow = oracle.borrow_value(amount, decimals).unwrap();

        let spread = borrow.safe_sub(collateral).unwrap().to_float() / collateral.to_float();
        assert!(
            (spread - 0.2222).abs() < 0.01,
            "With 10% confidence, there's a ~22% gap between borrow and collateral value. \
             Spread: {:.4}",
            spread
        );
    }

#[test]
    fn extreme_price_upper_bound_returns_error_not_panic() {
        let extreme_price = IFixedPoint::from_num(5e23_f64);
        let small_conf = IFixedPoint::from_num(1.0);
        let oracle = OracleRate::new(extreme_price, small_conf);

        // Must not panic — overflow must be caught by safe_add and returned as Err
        let result = oracle.upper_bound_rate();
        assert!(
            result.is_ok(),
            "upper_bound at 5e23 + 1 should not overflow: {:?}",
            result.err()
        );
    }

#[test]
    fn zero_rate_rejected() {
        let result = OracleRate::try_new(
            IFixedPoint::from_num(0.0),
            IFixedPoint::from_num(0.0),
        );
        assert_eq!(result.unwrap_err(), LendingError::OracleRateIsNull);
    }

#[test]
    fn negative_rate_rejected() {
        let result = OracleRate::try_new(
            IFixedPoint::from_num(-100.0),
            IFixedPoint::from_num(1.0),
        );
        assert_eq!(result.unwrap_err(), LendingError::OracleRateIsNull);
    }

#[test]
    fn extreme_apy_1000_percent_one_year() {
        let rate = InterestRatePerSecond::approximate_from_apy(10.0);
        let result = rate.coumpounding_interest_rate_during_elapsed_seconds(SECONDS_PER_YEAR);
        assert!(
            result.is_ok(),
            "1000% APY over 1 year should not overflow. Error: {:?}",
            result.err()
        );
        let interest = result.unwrap();
        let apy = interest.rate().to_float();
        assert!(
            (apy - 10.0).abs() < 0.01,
            "1000% APY should yield ~10x interest, got {}",
            apy
        );
    }

#[test]
    fn exp_overflow_at_extreme_duration() {
        let rate = InterestRatePerSecond::approximate_from_apy(10.0);
        let twenty_four_years = 24 * SECONDS_PER_YEAR;
        let result = rate.coumpounding_interest_rate_during_elapsed_seconds(twenty_four_years);
        assert!(
            result.is_err(),
            "1000%% APY over 24 years should overflow exp(). \
             If it doesn't, the market could brick with extreme accumulated interest."
        );
        assert_eq!(result.unwrap_err(), LendingError::InvalidExpArg);
    }

#[test]
    fn moderate_rate_extremely_long_unsync() {
        let rate = InterestRatePerSecond::approximate_from_apy(1.0);
        let eighty_years = 80 * SECONDS_PER_YEAR;
        let result = rate.coumpounding_interest_rate_during_elapsed_seconds(eighty_years);
        assert!(
            result.is_err(),
            "100% APY compounded over 80 years without sync should overflow exp(). \
             The market would be permanently bricked if left unsynced this long."
        );
    }

#[test]
    fn low_rate_safe_for_centuries() {
        let rate = InterestRatePerSecond::approximate_from_apy(0.05);
        let hundred_years = 100 * SECONDS_PER_YEAR;
        let result = rate.coumpounding_interest_rate_during_elapsed_seconds(hundred_years);
        assert!(result.is_ok(), "5% APY over 100 years should be safe");
    }

#[test]
    fn negative_rate_compounding() {
        let neg_rate = InterestRatePerSecond::new(IFixedPoint::from_num(-0.0000001_f64));
        let one_year = SECONDS_PER_YEAR;
        let result = neg_rate.coumpounding_interest_rate_during_elapsed_seconds(one_year);
        assert!(result.is_ok(), "Negative rate compounding should not overflow");
        let rate = result.unwrap().rate();
        assert!(
            rate.is_negative(),
            "Negative rate should produce negative interest"
        );
    }

#[test]
    fn tiny_borrow_rounding_hurts_borrower() {
        let mut borrow_tracker = SharesTracker::new();

        borrow_tracker.deposit_atoms(1_000_000).unwrap();
        let rate = InterestRate::new(IFixedPoint::lit("0.5"));
        borrow_tracker.apply_interest_rate(rate).unwrap();

        let aps = borrow_tracker.atoms_per_share();
        assert!(aps > UFixedPoint::from_u64(1));

        for _ in 0..100 {
            let shares = borrow_tracker.deposit_atoms(1).unwrap();

            let debt_atoms = borrow_tracker
                .shares_to_atoms(shares, RoundingMode::RoundUp)
                .unwrap();
            assert!(
                debt_atoms >= 1,
                "Protocol should never round debt DOWN. Debt atoms: {}",
                debt_atoms
            );
        }
    }

#[test]
    fn tiny_deposit_withdraw_rounding_never_profits() {
        let mut tracker = SharesTracker::new();

        tracker.deposit_atoms(1_000_000).unwrap();
        let rate = InterestRate::new(IFixedPoint::lit("0.3333"));
        tracker.apply_interest_rate(rate).unwrap();

        let initial_total = tracker.total_atoms(RoundingMode::RoundDown).unwrap();

        for _ in 0..100 {
            let shares = tracker.deposit_atoms(1).unwrap();
            if !shares.is_zero() {
                let withdrawn = tracker
                    .withdraw_shares(shares, RoundingMode::RoundDown)
                    .unwrap();
                assert!(withdrawn <= 1, "Withdrew {} atoms for 1 atom deposit!", withdrawn);
            }
        }

        let final_total = tracker.total_atoms(RoundingMode::RoundDown).unwrap();
        assert!(
            final_total >= initial_total,
            "Protocol lost atoms from rounding: before={}, after={}",
            initial_total,
            final_total
        );
    }

#[test]
    fn repay_rounding_favors_protocol() {
        let mut borrow_tracker = SharesTracker::new();

        borrow_tracker.deposit_atoms(3).unwrap();
        let rate = InterestRate::new(IFixedPoint::lit("0.5"));
        borrow_tracker.apply_interest_rate(rate).unwrap();

        let one_share = UFixedPoint::from_u64(1);
        let atoms_round_up = borrow_tracker
            .shares_to_atoms(one_share, RoundingMode::RoundUp)
            .unwrap();
        let atoms_round_down = borrow_tracker
            .shares_to_atoms(one_share, RoundingMode::RoundDown)
            .unwrap();

        assert!(atoms_round_up >= atoms_round_down);
        assert_eq!(atoms_round_up, 2);
        assert_eq!(atoms_round_down, 1);
    }

#[test]
    fn liquidation_zero_confidence() {
        let supply_oracle = OracleRate::new(
            IFixedPoint::from_num(1.0),
            IFixedPoint::from_num(0.0),
        );
        let collateral_oracle = OracleRate::new(
            IFixedPoint::from_num(100_000.0),
            IFixedPoint::from_num(0.0),
        );

        let borrow_value = supply_oracle.borrow_value(USDC(1000.), USDC_DECIMALS as u8).unwrap();
        let collateral_value = supply_oracle.collateral_value(USDC(1000.), USDC_DECIMALS as u8).unwrap();
        assert_eq!(
            borrow_value, collateral_value,
            "With zero confidence, borrow and collateral values should match"
        );

        let result = compute_liquidation_with_fee(
            USDC(80_000.),
            USDC_DECIMALS as u8,
            &supply_oracle,
            BTC(1.),
            BTC_DECIMALS as u8,
            &collateral_oracle,
            IFixedPoint::lit("0.5"),
            IFixedPoint::lit("0.05"),
            u64::MAX,
        );
        assert!(
            result.is_ok(),
            "Liquidation should work with zero confidence oracles"
        );
    }

#[test]
    fn liquidation_dust_position() {
        let supply_oracle = OracleRate::new(
            IFixedPoint::from_num(1.0),
            IFixedPoint::from_num(0.001),
        );
        let collateral_oracle = OracleRate::new(
            IFixedPoint::from_num(100_000.0),
            IFixedPoint::from_num(100.0),
        );

        let result = compute_liquidation_with_fee(
            1,
            USDC_DECIMALS as u8,
            &supply_oracle,
            1,
            BTC_DECIMALS as u8,
            &collateral_oracle,
            IFixedPoint::lit("0.5"),
            IFixedPoint::lit("0.05"),
            u64::MAX,
        );

        assert!(
            result.is_ok(),
            "Liquidation of dust position should not fail: {:?}",
            result.err()
        );
        let liq = result.unwrap();
        assert!(
            liq.borrowed_atoms_to_repay <= 1,
            "Cannot repay more than borrowed"
        );
    }

#[test]
    fn liquidation_exactly_at_ltv_one() {
        let supply_oracle = OracleRate::new(
            IFixedPoint::from_num(1.0),
            IFixedPoint::from_num(0.0),
        );
        let collateral_oracle = OracleRate::new(
            IFixedPoint::from_num(100_000.0),
            IFixedPoint::from_num(0.0),
        );

        // Borrow exactly equals collateral value: LTV = 1.0
        // collateral: 1 BTC = $100,000
        // borrow: $100,000 USDC
        let result = compute_liquidation_with_fee(
            USDC(100_000.),
            USDC_DECIMALS as u8,
            &supply_oracle,
            BTC(1.),
            BTC_DECIMALS as u8,
            &collateral_oracle,
            IFixedPoint::lit("0.5"),
            IFixedPoint::lit("0.05"),
            u64::MAX,
        );

        // This should trigger the value_to_liquidate computation
        // At LTV=1.0 with target 0.5: should liquidate significant portion
        assert!(result.is_ok(), "Liquidation at LTV=1 should work");
        let liq = result.unwrap();
        assert!(liq.borrowed_atoms_to_repay > 0);
        assert!(liq.total_collateral_atoms_to_liquidate().unwrap() <= BTC(1.));
    }

#[test]
    fn liquidation_max_fee_high_ltv() {
        let supply_oracle = OracleRate::new(
            IFixedPoint::from_num(1.0),
            IFixedPoint::from_num(0.0),
        );
        let collateral_oracle = OracleRate::new(
            IFixedPoint::from_num(100_000.0),
            IFixedPoint::from_num(0.0),
        );

        // LTV ≈ 95%: borrow $95K against $100K collateral
        let result = compute_liquidation_with_fee(
            USDC(95_000.),
            USDC_DECIMALS as u8,
            &supply_oracle,
            BTC(1.),
            BTC_DECIMALS as u8,
            &collateral_oracle,
            IFixedPoint::lit("0.81"), // target LTV after liquidation
            IFixedPoint::lit("0.1"),  // 10% bonus
            u64::MAX,
        );

        assert!(result.is_ok());
        let liq = result.unwrap();
        // Total collateral taken should not exceed available
        assert!(liq.total_collateral_atoms_to_liquidate().unwrap() <= BTC(1.));
        assert!(liq.borrowed_atoms_to_repay <= USDC(95_000.));
    }

#[test]
    fn fairness_after_interest_accrual() {
        let mut tracker = SharesTracker::new();

        let alice_shares = tracker.deposit_atoms(1_000_000).unwrap();

        let rate = InterestRate::new(IFixedPoint::lit("0.5"));
        tracker.apply_interest_rate(rate).unwrap();

        let bob_shares = tracker.deposit_atoms(1_000_000).unwrap();

        assert!(alice_shares > bob_shares, "Alice entered earlier, should have more shares");

        tracker.apply_interest_rate(rate).unwrap();

        let alice_atoms = tracker
            .shares_to_atoms(alice_shares, RoundingMode::RoundDown)
            .unwrap();
        let bob_atoms = tracker
            .shares_to_atoms(bob_shares, RoundingMode::RoundDown)
            .unwrap();

        // Alice: 1M → 1.5M → 2.25M
        // Bob: 1M → 1.5M
        assert!(
            (alice_atoms as f64 - 2_250_000.0).abs() < 2.0,
            "Alice should have ~2.25M, got {}",
            alice_atoms
        );
        assert!(
            (bob_atoms as f64 - 1_500_000.0).abs() < 2.0,
            "Bob should have ~1.5M, got {}",
            bob_atoms
        );
    }

#[test]
    fn loss_socialization_is_fair() {
        let mut tracker = SharesTracker::new();

        let alice_shares = tracker.deposit_atoms(3_000_000).unwrap();
        let bob_shares = tracker.deposit_atoms(1_000_000).unwrap();

        tracker.socialize_loss_atoms(400_000).unwrap();

        let alice_atoms = tracker
            .shares_to_atoms(alice_shares, RoundingMode::RoundDown)
            .unwrap();
        let bob_atoms = tracker
            .shares_to_atoms(bob_shares, RoundingMode::RoundDown)
            .unwrap();

        assert!(
            (alice_atoms as f64 - 2_700_000.0).abs() < 2.0,
            "Alice should have ~2.7M, got {}",
            alice_atoms
        );
        assert!(
            (bob_atoms as f64 - 900_000.0).abs() < 2.0,
            "Bob should have ~900K, got {}",
            bob_atoms
        );
    }

#[test]
    fn atoms_per_share_overflow_from_compounding() {
        let mut tracker = SharesTracker::new();
        tracker.deposit_atoms(1_000_000).unwrap();

        // Apply 100% interest 50 times: atoms_per_share ≈ 2^50 ≈ 10^15
        let rate = InterestRate::new(IFixedPoint::lit("1.0"));
        let mut overflow_at = None;
        for i in 0..70 {
            let result = tracker.apply_interest_rate(rate);
            if result.is_err() {
                overflow_at = Some(i);
                break;
            }
        }

        // UFixedPoint max integer = 2^64 ≈ 1.8×10^19
        // After ~63 doublings, atoms_per_share ≈ 2^63 → overflows
        assert!(
            overflow_at.is_some(),
            "Expected atoms_per_share overflow after repeated 100% interest, \
             but it survived all 70 rounds. Current aps: {:?}",
            tracker.atoms_per_share()
        );
    }

#[test]
    fn multi_depositor_withdrawal_ordering() {
        let mut tracker = SharesTracker::new();

        // 10 depositors, each with different amounts
        let deposits: Vec<u64> = vec![100, 1_000, 10_000, 50_000, 100_000, 500, 7_777, 33_333, 1, 999_999];
        let mut shares_list = Vec::new();
        for &d in &deposits {
            shares_list.push(tracker.deposit_atoms(d).unwrap());
        }

        // Apply some interest
        let rate = InterestRate::new(IFixedPoint::lit("0.25"));
        tracker.apply_interest_rate(rate).unwrap();

        // Withdraw in reverse order
        for shares in shares_list.into_iter().rev() {
            let result = tracker.withdraw_shares(shares, RoundingMode::RoundDown);
            assert!(result.is_ok(), "Withdrawal should succeed");
        }

        // Remaining atoms should be >= 0 (guaranteed by u64) and very small (rounding dust)
        let remaining = tracker.total_atoms(RoundingMode::RoundDown).unwrap();
        assert!(
            remaining <= deposits.len() as u64,
            "Remaining dust should be minimal: {}",
            remaining
        );
    }

