#![allow(dead_code, unused_imports, unused_variables, unused_mut, non_snake_case)]

use autara_lib::constant::{SECONDS_PER_DAY, SECONDS_PER_YEAR};
use autara_lib::error::LendingError;
use autara_lib::interest_rate::interest_rate::InterestRate;
use autara_lib::interest_rate::interest_rate_kind::InterestRateCurveKind;
use autara_lib::interest_rate::interest_rate_per_second::InterestRatePerSecond;
use autara_lib::math::bps::{bps_to_fixed_point, percent_to_bps};
use autara_lib::math::ifixed_point::IFixedPoint;
use autara_lib::math::rounding::RoundingMode;
use autara_lib::math::safe_math::SafeMath;
use autara_lib::math::shares_tracker::SharesTracker;
use autara_lib::math::ufixed_point::UFixedPoint;
use autara_lib::oracle::oracle_config::{
    OracleConfig, OracleProvider, OracleValidationConfig, PythProvider,
};
use autara_lib::oracle::oracle_price::OracleRate;
use autara_lib::pubkey::Pubkey;
use autara_lib::state::borrow_position::BorrowPosition;
use autara_lib::state::collateral_vault::CollateralVault;
use autara_lib::state::global_config::GlobalConfig;
use autara_lib::state::market::Market;
use autara_lib::state::market_config::{LtvConfig, MarketConfig};
use autara_lib::state::supply_position::SupplyPosition;
use autara_lib::state::supply_vault::SupplyVault;
use fixed::types::{I80F48, U64F64};
use std::hash::{BuildHasher, Hasher};
use autara_lib::state::global_config::MAX_PROTOCOL_FEE_SHARE_IN_BPS;
use autara_lib::state::market_config::{MAX_LENDING_MARKET_FEE_IN_BPS, MAX_UTILISATION_RATE_BITS};
use autara_lib::state::validate_all_different_sizes;

const EPS: f64 = 1e-6;

fn assert_eq_float(left: f64, right: f64, max_relative_error: f64) {
    let abs_relative_error = (left - right).abs() / right;
    if abs_relative_error > max_relative_error {
        panic!(
            "assertion failed: left {:?} right {:?} max_relative_error {} abs_relative_error {:?}",
            left, right, max_relative_error, abs_relative_error
        );
    }
}

trait FixedExt: Sized {
    const MAX: Self;
    const MIN: Self;
    fn lit(s: &str) -> Self;
    fn from_num<N: fixed::traits::ToFixed>(n: N) -> Self;
    fn to_float(&self) -> f64;
}

impl FixedExt for IFixedPoint {
    const MAX: Self = IFixedPoint { bits: i128::MAX };
    const MIN: Self = IFixedPoint { bits: i128::MIN };
    fn lit(s: &str) -> Self {
        IFixedPoint::from_bits(I80F48::lit(s).to_bits())
    }
    fn from_num<N: fixed::traits::ToFixed>(n: N) -> Self {
        IFixedPoint::from_bits(I80F48::from_num(n).to_bits())
    }
    fn to_float(&self) -> f64 {
        I80F48::from_bits(self.bits).to_num::<f64>()
    }
}

impl FixedExt for UFixedPoint {
    const MAX: Self = UFixedPoint { bits: u128::MAX };
    const MIN: Self = UFixedPoint { bits: 0 };
    fn lit(s: &str) -> Self {
        UFixedPoint::from_bits(U64F64::lit(s).to_bits())
    }
    fn from_num<N: fixed::traits::ToFixed>(n: N) -> Self {
        UFixedPoint::from_bits(U64F64::from_num(n).to_bits())
    }
    fn to_float(&self) -> f64 {
        U64F64::from_bits(self.bits).to_num::<f64>()
    }
}

trait NewUnique {
    fn new_unique() -> Self;
}

impl NewUnique for Pubkey {
    fn new_unique() -> Self {
        let mut bytes = [0u8; 32];
        for chunk in bytes.chunks_mut(8) {
            let mut h = std::collections::hash_map::RandomState::new().build_hasher();
            h.write_u8(0);
            chunk.copy_from_slice(&h.finish().to_le_bytes());
        }
        Pubkey(bytes)
    }
}

trait Zeroed {
    fn zeroed() -> Self;
}

impl Zeroed for BorrowPosition {
    fn zeroed() -> Self {
        BorrowPosition::default()
    }
}

impl Zeroed for SupplyPosition {
    fn zeroed() -> Self {
        SupplyPosition::default()
    }
}

trait ApproxRate {
    fn approximate_from_apy(apy: f64) -> Self;
}

impl ApproxRate for InterestRatePerSecond {
    fn approximate_from_apy(apy: f64) -> Self {
        let ln = IFixedPoint::from_num((apy + 1.).ln());
        InterestRatePerSecond(ln.safe_div(SECONDS_PER_YEAR).unwrap())
    }
}

trait ApproxCurve {
    fn new_approximate_fixed_apy(apy: f64) -> Self;
}

impl ApproxCurve for InterestRateCurveKind {
    fn new_approximate_fixed_apy(apy: f64) -> Self {
        InterestRateCurveKind::Fixed(InterestRatePerSecond::approximate_from_apy(apy))
    }
}

fn USDC(amount: f64) -> u64 {
    (amount * 1_000_000.0) as u64
}

fn BTC(amount: f64) -> u64 {
    (amount * 100_000_000.0) as u64
}

const USDC_DECIMALS: u64 = 6;
const BTC_DECIMALS: u64 = 8;
const BTC_FEED_ID: [u8; 32] = [1; 32];
const USD_FEED_ID: [u8; 32] = [2; 32];

fn default_btc_oracle_rate() -> OracleRate {
    OracleRate::new(IFixedPoint::from_num(100_000.0), IFixedPoint::from_num(100.0))
}

fn default_usd_oracle_rate() -> OracleRate {
    OracleRate::new(IFixedPoint::from_num(1.0), IFixedPoint::from_num(0.001))
}

fn btc_oracle_config() -> OracleConfig {
    OracleConfig::new(
        OracleProvider::Pyth(PythProvider { feed_id: BTC_FEED_ID, program_id: Pubkey(BTC_FEED_ID) }),
        OracleValidationConfig::default(),
    )
}

fn usd_oracle_config() -> OracleConfig {
    OracleConfig::new(
        OracleProvider::Pyth(PythProvider { feed_id: USD_FEED_ID, program_id: Pubkey(USD_FEED_ID) }),
        OracleValidationConfig::default(),
    )
}

fn create_btc_collateral_vault() -> CollateralVault {
    CollateralVault {
        mint: Pubkey::new_unique(),
        mint_decimals: BTC_DECIMALS,
        vault: Pubkey::new_unique(),
        total_collateral_atoms: 0,
        oracle_config: btc_oracle_config(),
    }
}

fn create_usdc_supply_vault() -> SupplyVault {
    SupplyVault {
        mint: Pubkey::new_unique(),
        mint_decimals: USDC_DECIMALS,
        vault: Pubkey::new_unique(),
        oracle_config: usd_oracle_config(),
        supply_shares_tracker: SharesTracker::default(),
        borrow_shares_tracker: SharesTracker::default(),
        last_borrow_interest_rate: InterestRatePerSecond::approximate_from_apy(10.),
        interest_rate_curve: InterestRateCurveKind::new_approximate_fixed_apy(0.1),
        last_update_unix_timestamp: 0,
        pending_protocol_fee_shares: UFixedPoint::zero(),
        pending_curator_fee_shares: UFixedPoint::zero(),
    }
}

fn test_global_config() -> GlobalConfig {
    GlobalConfig::new(Pubkey::new_unique(), Pubkey::new_unique(), 1000)
}

fn test_config() -> MarketConfig {
    MarketConfig {
        bump: [0; 1],
        index: [0; 1],
        curator: Pubkey::new_unique(),
        ltv_config: LtvConfig {
            max_ltv: IFixedPoint::from_num(0.8),
            unhealthy_ltv: IFixedPoint::from_num(0.9),
            liquidation_bonus: IFixedPoint::from_num(0.05),
        },
        max_utilisation_rate: IFixedPoint::from_num(0.95),
        lending_market_fee_in_bps: percent_to_bps(10) as u16,
        protocol_fee_share_in_bps: percent_to_bps(50) as u16,
        max_supply_atoms: u64::MAX,
    }
}

fn create_empty_btc_usdc_market() -> Market {
    Market {
        collateral_vault: create_btc_collateral_vault(),
        supply_vault: create_usdc_supply_vault(),
        config: test_config(),
    }
}

fn create_btc_usdc_market() -> Market {
    let mut market = create_empty_btc_usdc_market();
    let mut supply_position = SupplyPosition::default();
    market.lend(&mut supply_position, USDC(10_000_000.)).unwrap();
    market
}

const MAX_UTILISATION_RATE: IFixedPoint = IFixedPoint { bits: MAX_UTILISATION_RATE_BITS };

fn create_position() -> BorrowPosition {
    let mut pos = BorrowPosition::default();
    pos.initialize(Pubkey::new_unique(), Pubkey::new_unique());
    pos
}

fn create_supply_position() -> SupplyPosition {
    SupplyPosition::new(Pubkey::new_unique(), Pubkey::new_unique())
}


#[test]
    fn collateral_deposit_withdraw_roundtrip() {
        let mut pos = create_position();
        pos.deposit_collateral(1_000_000).unwrap();
        pos.withdraw_collateral(1_000_000).unwrap();
        assert_eq!(pos.collateral_deposited_atoms(), 0);
    }

#[test]
    fn collateral_never_negative() {
        let mut pos = create_position();
        pos.deposit_collateral(1000).unwrap();
        let result = pos.withdraw_collateral(1001);
        assert!(result.is_err());
        assert_eq!(pos.collateral_deposited_atoms(), 1000);
    }

#[test]
    fn borrow_increases_shares_and_atoms() {
        let mut pos = create_position();
        let shares = UFixedPoint::from_u64(1000);
        pos.borrow(1000, shares).unwrap();
        assert_eq!(pos.initial_borrowed_atoms(), 1000);
        assert_eq!(pos.borrowed_shares(), shares);
    }

#[test]
    fn repay_all_clears_position() {
        let mut pos = create_position();
        pos.borrow(1000, UFixedPoint::from_u64(1000)).unwrap();
        pos.repay_all();
        assert_eq!(pos.initial_borrowed_atoms(), 0);
        assert!(pos.borrowed_shares().is_zero());
    }

#[test]
    fn cant_repay_more_than_borrowed() {
        let mut pos = create_position();
        pos.borrow(1000, UFixedPoint::from_u64(1000)).unwrap();
        let result = pos.repay(UFixedPoint::from_u64(1001));
        assert!(result.is_err());
    }

#[test]
    fn partial_repay_reduces_proportionally() {
        let mut pos = create_position();
        let initial_atoms = 1000;
        let initial_shares = UFixedPoint::from_u64(1000);
        pos.borrow(initial_atoms, initial_shares).unwrap();
        let half_shares = UFixedPoint::from_u64(500);
        pos.repay(half_shares).unwrap();
        assert!(pos.initial_borrowed_atoms() < initial_atoms);
        assert!(pos.borrowed_shares() < initial_shares);
    }

#[test]
    fn liquidate_reduces_both_debt_and_collateral() {
        let mut pos = create_position();
        pos.deposit_collateral(10000).unwrap();
        pos.borrow(5000, UFixedPoint::from_u64(5000)).unwrap();
        let collateral_before = pos.collateral_deposited_atoms();
        let shares_before = pos.borrowed_shares();
        pos.liquidate(UFixedPoint::from_u64(1000), 2000).unwrap();
        assert!(pos.collateral_deposited_atoms() < collateral_before);
        assert!(pos.borrowed_shares() < shares_before);
    }

#[test]
    fn multiple_deposits_accumulate() {
        let mut pos = create_position();
        pos.deposit_collateral(1000).unwrap();
        pos.deposit_collateral(2000).unwrap();
        pos.deposit_collateral(3000).unwrap();
        assert_eq!(pos.collateral_deposited_atoms(), 6000);
    }

#[test]
    fn multiple_borrows_accumulate() {
        let mut pos = create_position();
        pos.borrow(1000, UFixedPoint::from_u64(1000)).unwrap();
        pos.borrow(2000, UFixedPoint::from_u64(2000)).unwrap();
        assert_eq!(pos.initial_borrowed_atoms(), 3000);
        assert_eq!(pos.borrowed_shares(), UFixedPoint::from_u64(3000));
    }

#[test]
    fn initialize_resets_all_fields() {
        let mut pos = create_position();
        pos.deposit_collateral(1000).unwrap();
        pos.borrow(500, UFixedPoint::from_u64(500)).unwrap();
        let new_auth = Pubkey::new_unique();
        let new_market = Pubkey::new_unique();
        pos.initialize(new_auth, new_market);
        assert_eq!(pos.collateral_deposited_atoms(), 0);
        assert_eq!(pos.initial_borrowed_atoms(), 0);
        assert!(pos.borrowed_shares().is_zero());
        assert_eq!(pos.authority(), &new_auth);
        assert_eq!(pos.market(), &new_market);
    }


#[test]
    fn lend_withdraw_roundtrip() {
        let mut pos = create_supply_position();
        let atoms = 1_000_000u64;
        let shares = UFixedPoint::from_u64(1_000_000);
        pos.lend(atoms, shares).unwrap();
        assert_eq!(pos.deposited_atoms(), atoms);
        assert_eq!(pos.shares(), shares);
        pos.withdraw(shares).unwrap();
        assert_eq!(pos.deposited_atoms(), 0);
        assert!(pos.shares().is_zero());
    }

#[test]
    fn cannot_withdraw_more_than_shares() {
        let mut pos = create_supply_position();
        pos.lend(1000, UFixedPoint::from_u64(1000)).unwrap();
        let result = pos.withdraw(UFixedPoint::from_u64(1001));
        assert!(result.is_err());
    }

#[test]
    fn partial_withdraw_reduces_proportionally() {
        let mut pos = create_supply_position();
        pos.lend(1000, UFixedPoint::from_u64(1000)).unwrap();
        // Withdraw half the shares
        pos.withdraw(UFixedPoint::from_u64(500)).unwrap();
        assert_eq!(pos.deposited_atoms(), 500);
        assert_eq!(pos.shares(), UFixedPoint::from_u64(500));
    }

#[test]
    fn withdraw_all_clears_position() {
        let mut pos = create_supply_position();
        pos.lend(1000, UFixedPoint::from_u64(1000)).unwrap();
        pos.withdraw_all();
        assert_eq!(pos.deposited_atoms(), 0);
        assert!(pos.shares().is_zero());
    }

#[test]
    fn multiple_lends_accumulate() {
        let mut pos = create_supply_position();
        pos.lend(100, UFixedPoint::from_u64(100)).unwrap();
        pos.lend(200, UFixedPoint::from_u64(200)).unwrap();
        pos.lend(300, UFixedPoint::from_u64(300)).unwrap();
        assert_eq!(pos.deposited_atoms(), 600);
        assert_eq!(pos.shares(), UFixedPoint::from_u64(600));
    }

#[test]
    fn initialize_resets_position() {
        let mut pos = create_supply_position();
        pos.lend(1000, UFixedPoint::from_u64(1000)).unwrap();
        let new_auth = Pubkey::new_unique();
        let new_market = Pubkey::new_unique();
        pos.initialize(new_auth, new_market);
        assert_eq!(pos.deposited_atoms(), 0);
        assert!(pos.shares().is_zero());
        assert_eq!(pos.authority(), &new_auth);
        assert_eq!(pos.market(), &new_market);
    }


#[test]
    fn check_global_config() {
        let admin = Pubkey::new_unique();
        let fee_receiver = Pubkey::new_unique();
        let mut config = GlobalConfig::new(admin, fee_receiver, 1000);

        assert_eq!(config.admin(), &admin);
        assert_eq!(config.fee_receiver(), &fee_receiver);
        assert!(config.can_redeem_fees(&admin));
        assert!(config.can_redeem_fees(&fee_receiver));
        assert!(config.can_update_config(&admin));
        assert!(!config.can_update_config(&fee_receiver));

        config.set_fee_receiver(Pubkey::new_unique());
        config.update_protocol_fee_share_in_bps(1500).unwrap();

        assert_ne!(config.fee_receiver(), &fee_receiver);
        assert_eq!(config.protocol_fee_share_in_bps(), 1500);

        // Fee above 100% (10_000 bps) should fail
        assert!(config.update_protocol_fee_share_in_bps(10_001).is_err());
        assert_eq!(config.protocol_fee_share_in_bps(), 1500); // unchanged

        let nominated_admin = Pubkey::new_unique();
        config.set_nominated_admin(nominated_admin);
        // Nominated admin should NOT have config privileges before accepting
        assert!(!config.can_update_config(&nominated_admin));
        assert!(!config.can_update_config(&Pubkey::new_unique()));
        // But can upgrade nomination
        assert!(config.can_upgrade_nomination(&nominated_admin));
        assert!(!config.can_upgrade_nomination(&admin));

        config.upgrade_nomination().unwrap();
        assert_eq!(config.admin(), &nominated_admin);
        assert!(!config.can_upgrade_nomination(&nominated_admin));
        assert!(config.can_update_config(&nominated_admin));
        assert!(!config.can_update_config(&admin));
    }

#[test]
    fn initialize_rejects_protocol_fee_share_above_one_hundred_percent() {
        let mut config = GlobalConfig::default();
        assert_eq!(
            config
                .initialize(
                    Pubkey::new_unique(),
                    Pubkey::new_unique(),
                    MAX_PROTOCOL_FEE_SHARE_IN_BPS + 1,
                )
                .unwrap_err(),
            LendingError::FeeTooHigh
        );
        assert_eq!(config.protocol_fee_share_in_bps(), 0);
    }

#[test]
    fn initialize_accepts_the_full_share() {
        let mut config = GlobalConfig::default();
        config
            .initialize(
                Pubkey::new_unique(),
                Pubkey::new_unique(),
                MAX_PROTOCOL_FEE_SHARE_IN_BPS,
            )
            .unwrap();
        assert_eq!(
            config.protocol_fee_share_in_bps(),
            MAX_PROTOCOL_FEE_SHARE_IN_BPS
        );
    }

#[test]
    fn initialize_and_update_share_the_same_bound() {
        let too_high = MAX_PROTOCOL_FEE_SHARE_IN_BPS + 1;
        let mut initialized = GlobalConfig::default();
        assert!(initialized
            .initialize(Pubkey::new_unique(), Pubkey::new_unique(), too_high)
            .is_err());
        let mut updated = test_global_config();
        assert!(updated.update_protocol_fee_share_in_bps(too_high).is_err());
    }


#[test]
    fn test_initialization() {
        let mut market_config = MarketConfig::default();
        let curator = Pubkey::new_unique();
        let ltv_config = LtvConfig {
            max_ltv: IFixedPoint::from_num(0.8),
            unhealthy_ltv: IFixedPoint::from_num(0.9),
            liquidation_bonus: IFixedPoint::from_num(0.05),
        };
        let max_utilisation_rate = IFixedPoint::from_num(0.95);
        let max_supply_atoms = 1_000_000;
        let lending_market_fee_in_bps = percent_to_bps(10) as u16;
        let global_config = test_global_config();

        let result = market_config.initialize(
            1,
            0,
            &curator,
            &ltv_config,
            max_utilisation_rate,
            max_supply_atoms,
            lending_market_fee_in_bps,
            &global_config,
        );

        assert!(result.is_ok());
        assert_eq!(market_config.bump(), &[1]);
        assert_eq!(market_config.curator(), &curator);
        assert_eq!(market_config.ltv_config(), &ltv_config);
        assert_eq!(market_config.max_utilisation_rate(), max_utilisation_rate);
        assert_eq!(market_config.max_supply_atoms(), max_supply_atoms);
        assert_eq!(
            market_config.lending_market_fee_in_bps(),
            lending_market_fee_in_bps
        );
        assert_eq!(
            market_config.protocol_fee_in_bps(),
            global_config.protocol_fee_share_in_bps()
        );
    }

#[test]
    fn test_set_lending_market_fee() {
        let mut market_config = test_config();

        // Valid fee
        let valid_fee = percent_to_bps(15) as u16;
        let result = market_config.set_lending_market_fee(valid_fee);
        assert!(result.is_ok());
        assert_eq!(market_config.lending_market_fee_in_bps(), valid_fee);

        // Fee too high
        let invalid_fee = MAX_LENDING_MARKET_FEE_IN_BPS + 1;
        let result = market_config.set_lending_market_fee(invalid_fee);
        assert!(matches!(
            result.unwrap_err(),
            LendingError::FeeTooHigh
        ));
    }

#[test]
    fn test_update_max_utilisation_rate() {
        let mut market_config = test_config();

        // Valid utilization rate
        let valid_rate = IFixedPoint::from_num(0.9);
        let result = market_config.update_max_utilisation_rate(valid_rate);
        assert!(result.is_ok());
        assert_eq!(market_config.max_utilisation_rate(), valid_rate);

        // Rate too high
        let invalid_rate = MAX_UTILISATION_RATE
            .safe_add(IFixedPoint::from_num(0.01))
            .unwrap();
        let result = market_config.update_max_utilisation_rate(invalid_rate);
        assert!(matches!(
            result.unwrap_err(),
            LendingError::InvalidMaxUtilisationRate
        ));
    }

#[test]
    fn test_update_ltv() {
        let mut market_config = test_config();

        // Valid LTV config
        let valid_ltv_config = LtvConfig {
            max_ltv: IFixedPoint::from_num(0.7),
            unhealthy_ltv: IFixedPoint::from_num(0.9), // Same as before
            liquidation_bonus: IFixedPoint::from_num(0.08),
        };
        let result = market_config.update_ltv(&valid_ltv_config);
        assert!(result.is_ok());
        assert_eq!(market_config.ltv_config(), &valid_ltv_config);

        // Invalid - reducing unhealthy LTV
        let invalid_ltv_config = LtvConfig {
            max_ltv: IFixedPoint::from_num(0.7),
            unhealthy_ltv: IFixedPoint::from_num(0.8), // Lower than original
            liquidation_bonus: IFixedPoint::from_num(0.05),
        };
        let result = market_config.update_ltv(&invalid_ltv_config);
        assert!(matches!(
            result.unwrap_err(),
            LendingError::InvalidLtvConfig
        ));

        // Invalid - max LTV > unhealthy LTV
        let invalid_ltv_config = LtvConfig {
            max_ltv: IFixedPoint::from_num(0.95),
            unhealthy_ltv: IFixedPoint::from_num(0.9),
            liquidation_bonus: IFixedPoint::from_num(0.05),
        };
        let result = market_config.update_ltv(&invalid_ltv_config);
        assert!(matches!(
            result.unwrap_err(),
            LendingError::InvalidLtvConfig
        ));

        // Invalid - liquidation bonus too high
        let invalid_ltv_config = LtvConfig {
            max_ltv: IFixedPoint::from_num(0.7),
            unhealthy_ltv: IFixedPoint::from_num(0.9),
            liquidation_bonus: IFixedPoint::from_num(0.15), // > MAX_LIQUIDATION_BONUS
        };
        let result = market_config.update_ltv(&invalid_ltv_config);
        assert!(matches!(
            result.unwrap_err(),
            LendingError::InvalidLtvConfig
        ));

        // Invalid - not enough margin for liquidation bonus
        let invalid_ltv_config = LtvConfig {
            max_ltv: IFixedPoint::from_num(0.85),
            unhealthy_ltv: IFixedPoint::from_num(0.95),
            liquidation_bonus: IFixedPoint::from_num(0.09),
        };
        let result = market_config.update_ltv(&invalid_ltv_config);
        assert!(matches!(
            result.unwrap_err(),
            LendingError::InvalidLtvConfig
        ));
    }

#[test]
fn liquidation_bonus_below_half_a_percent_is_refused() {
    let mut market_config = test_config();
    let too_small = LtvConfig {
        max_ltv: IFixedPoint::from_num(0.7),
        unhealthy_ltv: IFixedPoint::from_num(0.9),
        liquidation_bonus: IFixedPoint::from_num(0.002),
    };
    let before = *market_config.ltv_config();
    assert!(matches!(
        market_config.update_ltv(&too_small).unwrap_err(),
        LendingError::InvalidLtvConfig
    ));
    assert_eq!(market_config.ltv_config(), &before);

    let smallest = LtvConfig {
        max_ltv: IFixedPoint::from_num(0.7),
        unhealthy_ltv: IFixedPoint::from_num(0.9),
        liquidation_bonus: IFixedPoint::from_bits(1407374883553),
    };
    assert!(market_config.update_ltv(&smallest).is_ok());
    assert_eq!(market_config.ltv_config(), &smallest);
}

#[test]
    fn test_sync_global_config() {
        let mut market_config = test_config();
        let mut global_config = test_global_config();

        // Change the protocol fee share in global config
        let new_fee = percent_to_bps(15) as u16;
        global_config.update_protocol_fee_share_in_bps(new_fee);

        market_config.sync_global_config(&global_config);
        assert_eq!(market_config.protocol_fee_in_bps(), new_fee);
    }

#[test]
    fn test_update_max_supply_atoms() {
        let mut market_config = test_config();
        let new_max_supply = 5_000_000;

        market_config.update_max_supply_atoms(new_max_supply);
        assert_eq!(market_config.max_supply_atoms(), new_max_supply);
    }

#[test]
    fn test_accessors() {
        let config = test_config();

        assert_eq!(
            config.lending_market_fee_fixed(),
            bps_to_fixed_point(config.lending_market_fee_in_bps() as u64)
        );
    }


#[test]
    fn check_lend_withdraw() {
        let mut vault = create_usdc_supply_vault();
        let deposit = 100000000;
        let shares = vault.lend(deposit).unwrap();
        let total_supply = vault.total_supply().unwrap();
        assert_eq!(total_supply, deposit);
        let withdraw = vault.withdraw_shares(shares).unwrap();
        assert_eq!(withdraw, deposit);
    }

#[test]
    fn check_borrow_repay() {
        let mut vault = create_usdc_supply_vault();
        let borrow = 1000000;
        let shares = vault.borrow(borrow).unwrap();
        let total_borrow = vault.total_borrow().unwrap();
        assert_eq!(total_borrow, borrow);
        let repay = vault.repay_shares(shares).unwrap();
        assert_eq!(repay, borrow);
    }

#[test]
    fn check_utilisation_rate() {
        let mut vault = create_usdc_supply_vault();
        vault.lend(100000000).unwrap();
        vault.borrow(1000000).unwrap();
        let utilisation_rate = vault.utilisation_rate().unwrap();
        assert_eq!(utilisation_rate, IFixedPoint::lit("0.009999999999998"));
    }

#[test]
    fn check_update_without_fee() {
        let mut vault = create_usdc_supply_vault();
        let deposit = 100000000;
        let borrow = 1000000;
        vault.lend(deposit).unwrap();
        vault.borrow(borrow).unwrap();
        let total_borrow_before_update = vault.total_borrow().unwrap();
        let total_supply_before_update = vault.total_supply().unwrap();
        let now = SECONDS_PER_YEAR as i64;
        vault.sync_clock(now, UFixedPoint::zero(), 0).unwrap();
        assert_eq!(vault.last_update_unix_timestamp, now);
        let total_borrow_after_update = vault.total_borrow().unwrap();
        let total_supply_after_update = vault.total_supply().unwrap();
        let total_borrow_interest = total_borrow_after_update - total_borrow_before_update;
        let total_supply_interest = total_supply_after_update - total_supply_before_update;
        assert_eq!(total_borrow_interest, total_supply_interest + 1); // rounding
        assert_eq!(total_borrow_interest, (borrow as f64 * 0.1) as u64);
    }

#[test]
    fn check_update_with_fee() {
        let mut vault = create_usdc_supply_vault();
        let deposit = 100000000;
        let borrow = 1000000;
        vault.lend(deposit).unwrap();
        vault.borrow(borrow).unwrap();
        let total_borrow_before_update = vault.total_borrow().unwrap();
        let total_supply_before_update = vault.total_supply().unwrap();
        let now = SECONDS_PER_YEAR as i64;
        vault
            .sync_clock(
                now,
                bps_to_fixed_point(percent_to_bps(10)),
                percent_to_bps(50) as u16,
            )
            .unwrap();
        assert_eq!(vault.last_update_unix_timestamp, now);
        let total_borrow_after_update = vault.total_borrow().unwrap();
        let total_supply_after_update = vault.total_supply().unwrap();
        let total_borrow_interest = total_borrow_after_update - total_borrow_before_update;
        let total_supply_interest = total_supply_after_update - total_supply_before_update;
        assert_eq!(total_borrow_interest, total_supply_interest + 1); // rounding
        assert_eq!(total_borrow_interest, (borrow as f64 * 0.1) as u64);
        let protocol_fee_earned = vault
            .supply_shares_tracker
            .shares_to_atoms(vault.pending_protocol_fee_shares, RoundingMode::RoundDown)
            .unwrap();
        let curator_fee_earned = vault
            .supply_shares_tracker
            .shares_to_atoms(vault.pending_curator_fee_shares, RoundingMode::RoundDown)
            .unwrap();
        assert_eq!(protocol_fee_earned, curator_fee_earned);
        assert_eq!(
            protocol_fee_earned + curator_fee_earned,
            total_supply_interest / 10 - 1
        );
    }

#[test]
    fn check_donate_and_socialize() {
        let mut vault = create_usdc_supply_vault();
        let deposit = 100000000;
        let borrow = 1000000;
        vault.lend(deposit).unwrap();
        vault.borrow(borrow).unwrap();
        let total_borrow_before_donate = vault.total_borrow().unwrap();
        let total_supply_before_donate = vault.total_supply().unwrap();
        vault.donate_supply(10000000).unwrap();
        let total_borrow_after_donate = vault.total_borrow().unwrap();
        let total_supply_after_donate = vault.total_supply().unwrap();
        assert_eq!(total_borrow_before_donate, total_borrow_after_donate);
        assert_eq!(
            total_supply_after_donate,
            total_supply_before_donate + 10000000 - 1 // -1 because of rounding
        );
        let debt_shares = vault.borrow_shares_tracker().total_shares();
        vault.socialize_loss(debt_shares).unwrap();
        let total_borrow_after_socialize = vault.total_borrow().unwrap();
        let total_supply_after_socialize = vault.total_supply().unwrap();
        assert_eq!(total_borrow_after_socialize, 0);
        assert_eq!(
            total_supply_after_socialize,
            total_supply_after_donate - total_borrow_after_donate
        );
    }


#[test]
    fn test_validate_all_different_sizes() {
        validate_all_different_sizes([1, 2, 3, 4]);
    }

#[test]
    fn adaptive_curve_survives_long_idle_at_high_utilisation() {
        // Setup a market using the adaptive curve and allow 100% utilisation for the test.
        let mut market = create_empty_btc_usdc_market();
        market
            .config_mut()
            .update_max_utilisation_rate(autara_lib::math::ifixed_point::IFixedPoint::lit("0.99"))
            .unwrap();

        // Re-initialize the supply vault to use the adaptive curve (test helpers default to fixed).
        let supply_mint = *market.supply_vault().mint();
        let supply_decimals = market.supply_vault().mint_decimals() as u64;
        let supply_vault = *market.supply_vault().vault();
        let supply_oracle_config = *market.supply_vault().oracle_config();
        market
            .initlize_supply_vault(
                supply_mint,
                supply_decimals,
                supply_vault,
                supply_oracle_config,
                InterestRateCurveKind::new_adaptive(),
                0, // last_update_unix_timestamp
            )
            .unwrap();

        // First sync initializes the adaptive curve state (`rate_at_target` becomes non-zero).
        market.sync_clock(1).unwrap();

        // Make utilisation > target (90%): lend then borrow all supplied atoms.
        let lend_atoms = USDC(1_000.0);
        let mut supply_position = SupplyPosition::default();
        market.lend(&mut supply_position, lend_atoms).unwrap();

        let mut borrow_position = BorrowPosition::default();
        market
            .deposit_collateral(&mut borrow_position, BTC(1.0))
            .unwrap();
        let supply_oracle = default_usd_oracle_rate();
        let collateral_oracle = default_btc_oracle_rate();
        let borrow_atoms = (lend_atoms as f64 * 0.99) as u64; // 99% utilisation (at cap)
        market
            .borrow(
                &mut borrow_position,
                borrow_atoms,
                &supply_oracle,
                &collateral_oracle,
            )
            .unwrap();

        let last_update_before = market
            .supply_vault()
            .get_summary()
            .unwrap()
            .last_update_unix_timestamp;
        assert_eq!(last_update_before, 1);

        // Regression test for issue #47: with `linear_adaptation` clamped to the
        // checked_exp domain (MAX_EXP_ARG ≈ 54.75), sync_clock must succeed even
        // after ~2y idle at 99% utilisation. Previously this returned
        // Err(InvalidExpArg) and permanently bricked the market because
        // last_update_unix_timestamp only advances on success.
        let brick_timestamp = last_update_before + (2 * SECONDS_PER_YEAR) as i64;
        market.sync_clock(brick_timestamp).unwrap();

        // `last_update_unix_timestamp` advances → market is NOT permanently bricked.
        let last_update_after = market
            .supply_vault()
            .get_summary()
            .unwrap()
            .last_update_unix_timestamp;
        assert_eq!(last_update_after, brick_timestamp);

        // Subsequent syncs also succeed.
        market
            .sync_clock(brick_timestamp + SECONDS_PER_YEAR as i64)
            .unwrap();
    }

