use autara_lib::oracle::chaos::{ChaosPriceState, PriceData as ChaosPriceData};
use autara_lib::oracle::pyth::{Metadata, PriceData as PythPriceData, PythPrice, PythPriceAccount};
use autara_lib::error::LendingError;
use autara_lib::math::ifixed_point::IFixedPoint;
use autara_lib::math::safe_math::SafeMath;
use autara_lib::oracle::oracle_config::{
    ChaosProvider, OracleConfig, OracleProvider, OracleValidationConfig, PythProvider,
    UncheckedOracleRate,
};
use autara_lib::oracle::oracle_price::OracleRate;
use autara_lib::oracle::oracle_provider::AccountView;
use autara_lib::pubkey::Pubkey;
use fixed::types::I80F48;

fn ilit(s: &str) -> IFixedPoint {
    IFixedPoint::from_bits(I80F48::lit(s).to_bits())
}

const MAX_EXPONENT_ABS: i64 = 18;

fn create_test_pubkey() -> Pubkey {
    Pubkey([1u8; 32])
}

fn create_test_feed_id() -> [u8; 32] {
    [2u8; 32]
}

fn create_pyth_provider() -> PythProvider {
    PythProvider { feed_id: create_test_feed_id(), program_id: create_test_pubkey() }
}

fn push_u64(out: &mut Vec<u8>, v: u64) {
    out.extend_from_slice(&v.to_le_bytes());
}

fn push_i64(out: &mut Vec<u8>, v: i64) {
    out.extend_from_slice(&v.to_le_bytes());
}

/// The bytes of a Pyth price account: feed id, price, moving average and
/// metadata, each word little-endian.
fn pyth_account_bytes(feed_id: [u8; 32], price: u64, conf: u64, expo: i64, publish_time: i64) -> Vec<u8> {
    let mut out = feed_id.to_vec();
    push_u64(&mut out, price);
    push_u64(&mut out, conf);
    push_i64(&mut out, expo);
    push_i64(&mut out, publish_time);
    push_u64(&mut out, 0);
    push_u64(&mut out, 0);
    push_i64(&mut out, 0);
    push_i64(&mut out, 0);
    push_u64(&mut out, 100);
    push_i64(&mut out, 1234567890);
    push_i64(&mut out, 1234567889);
    out
}

fn create_pyth_price_account(feed_id: [u8; 32], price: u64, conf: u64, expo: i64) -> Vec<u8> {
    pyth_account_bytes(feed_id, price, conf, expo, 1234567890)
}

const CHAOS_DISCRIMINATOR: [u8; 8] = [168, 184, 18, 246, 179, 16, 141, 51];

/// The bytes of a Chaos Labs price account: discriminator, then the price
/// state in its little-endian layout.
fn chaos_account_bytes(price_id: [u8; 32], price: u64, observed_ts: u64, expo: i8, num_signatures: u8) -> Vec<u8> {
    let mut out = CHAOS_DISCRIMINATOR.to_vec();
    out.extend_from_slice(&1u16.to_le_bytes());
    out.extend_from_slice(&price_id);
    push_u64(&mut out, price);
    push_u64(&mut out, observed_ts);
    out.push(expo as u8);
    push_u64(&mut out, price);
    push_u64(&mut out, observed_ts);
    out.push(expo as u8);
    out.push(num_signatures);
    push_u64(&mut out, 42);
    push_u64(&mut out, observed_ts);
    out.push(255);
    out
}

#[test]
fn lending_error_messages_are_user_readable() {
    let cases = [
        (LendingError::MaxLtvReached, "Borrow would exceed the market max loan-to-value (LTV)"),
        (LendingError::PositionIsHealthy, "Position is healthy and cannot be liquidated"),
        (LendingError::OracleRateTooOld, "Oracle price is too old"),
        (LendingError::CapitalSweepPending, "A capital sweep is already pending for this market"),
    ];
    for (err, expected) in cases {
        assert_eq!(err.message().to_string(), expected);
        assert!(!err.message().to_string().is_empty());
    }
}

#[test]
fn check_borrow_value() {
    let oracle = OracleRate::new(ilit("125"), ilit("1"));
    let borrow_value = oracle.borrow_value(10 * 10u64.pow(9), 9).unwrap();
    assert_eq!(borrow_value, ilit("1260"));
    let atoms = oracle.borrow_atoms(borrow_value, 9).unwrap();
    assert_eq!(atoms, IFixedPoint::from_u64(10 * 10u64.pow(9)));
}

#[test]
fn check_collateral_value() {
    let oracle = OracleRate::new(ilit("125"), ilit("1"));
    let value = oracle.collateral_value(10 * 10u64.pow(9), 9).unwrap();
    assert_eq!(value, ilit("1240"));
    let atoms = oracle.collateral_atoms(value, 9).unwrap();
    assert_eq!(atoms, IFixedPoint::from_u64(10 * 10u64.pow(9)));
}

#[test]
fn lower_bound_less_than_upper_bound() {
    let oracle = OracleRate::new(ilit("100"), ilit("5"));
    let lower = oracle.lower_bound_rate().unwrap();
    let upper = oracle.upper_bound_rate().unwrap();
    assert!(lower < upper);
    assert_eq!(lower, ilit("95"));
    assert_eq!(upper, ilit("105"));
}

#[test]
fn collateral_value_uses_lower_bound() {
    let oracle = OracleRate::new(ilit("100"), ilit("10"));
    let amount = 1_000_000_000u64;
    let value = oracle.collateral_value(amount, 9).unwrap();
    let expected = oracle
        .lower_bound_rate()
        .unwrap()
        .safe_mul(amount)
        .unwrap()
        .safe_div(IFixedPoint::from_u64(1_000_000_000u64))
        .unwrap();
    assert_eq!(value, expected);
}

#[test]
fn borrow_value_uses_upper_bound() {
    let oracle = OracleRate::new(ilit("100"), ilit("10"));
    let amount = 1_000_000_000u64;
    let value = oracle.borrow_value(amount, 9).unwrap();
    let expected = oracle
        .upper_bound_rate()
        .unwrap()
        .safe_mul(amount)
        .unwrap()
        .safe_div(IFixedPoint::from_u64(1_000_000_000u64))
        .unwrap();
    assert_eq!(value, expected);
}

#[test]
fn borrow_value_greater_than_collateral_value() {
    let oracle = OracleRate::new(ilit("100"), ilit("5"));
    let amount = 1_000_000_000u64;
    let borrow = oracle.borrow_value(amount, 9).unwrap();
    let collateral = oracle.collateral_value(amount, 9).unwrap();
    assert!(borrow > collateral);
}

#[test]
fn value_atoms_roundtrip_borrow() {
    let oracle = OracleRate::new(ilit("100"), ilit("1"));
    let atoms = 1_000_000_000u64;
    let value = oracle.borrow_value(atoms, 9).unwrap();
    let recovered_atoms = oracle.borrow_atoms(value, 9).unwrap();
    assert_eq!(recovered_atoms.as_u64_rounded_down().unwrap(), atoms);
}

#[test]
fn value_atoms_roundtrip_collateral() {
    let oracle = OracleRate::new(ilit("100"), ilit("1"));
    let atoms = 1_000_000_000u64;
    let value = oracle.collateral_value(atoms, 9).unwrap();
    let recovered_atoms = oracle.collateral_atoms(value, 9).unwrap();
    assert_eq!(recovered_atoms.as_u64_rounded_down().unwrap(), atoms);
}

#[test]
fn relative_confidence_percentage() {
    let oracle = OracleRate::new(ilit("100"), ilit("5"));
    let rel_conf = oracle.relative_confidence().unwrap();
    let expected = ilit("0.05");
    let diff = if rel_conf > expected {
        rel_conf.safe_sub(expected).unwrap()
    } else {
        expected.safe_sub(rel_conf).unwrap()
    };
    assert!(diff < ilit("0.0001"));
}

#[test]
fn zero_confidence_bounds_equal() {
    let oracle = OracleRate::new(ilit("100"), ilit("0"));
    let lower = oracle.lower_bound_rate().unwrap();
    let upper = oracle.upper_bound_rate().unwrap();
    assert_eq!(lower, upper);
    assert_eq!(lower, oracle.rate());
}

#[test]
fn try_from_price_expo_positive() {
    let oracle = OracleRate::try_from_price_expo_conf(100, 5, 2).unwrap();
    assert_eq!(oracle.rate(), IFixedPoint::from_u64(10000u64));
    assert_eq!(oracle.confidence(), IFixedPoint::from_u64(500u64));
}

#[test]
fn try_from_price_expo_negative() {
    let oracle = OracleRate::try_from_price_expo_conf(100_000_000, 1_000_000, -6).unwrap();
    assert_eq!(oracle.rate(), ilit("100"));
    assert_eq!(oracle.confidence(), ilit("1"));
}

#[test]
fn smallest_exponent_is_refused() {
    assert!(OracleRate::try_from_price_expo_conf(1, 0, i8::MIN).is_err());
}

#[test]
fn test_validate_valid_rate() {
    let rate = OracleRate::new(ilit("1.5"), ilit("0.01"));
    let oracle_rate = UncheckedOracleRate::new(rate, 100);
    let config = OracleValidationConfig::new(60, ilit("0.05"));
    let result = oracle_rate.validate(&config, 120);
    assert_eq!(result.unwrap(), rate);
}

#[test]
fn test_validate_rate_too_old() {
    let rate = OracleRate::new(ilit("1.5"), ilit("0.01"));
    let oracle_rate = UncheckedOracleRate::new(rate, 100);
    let config = OracleValidationConfig::new(10, ilit("0.05"));
    let result = oracle_rate.validate(&config, 120);
    assert_eq!(result.unwrap_err(), LendingError::OracleRateTooOld);
}

#[test]
fn test_validate_confidence_too_low() {
    let rate = OracleRate::new(ilit("1.5"), ilit("0.1"));
    let oracle_rate = UncheckedOracleRate::new(rate, 100);
    let config = OracleValidationConfig::new(60, ilit("0.05"));
    let result = oracle_rate.validate(&config, 120);
    assert_eq!(result.unwrap_err(), LendingError::OracleRateRelativeConfidenceTooLow);
}

#[test]
fn prices_from_the_future_are_not_too_old() {
    let rate = OracleRate::new(ilit("1.5"), ilit("0.01"));
    let oracle_rate = UncheckedOracleRate::new(rate, 200);
    let config = OracleValidationConfig::new(10, ilit("0.05"));
    assert_eq!(oracle_rate.validate(&config, 120).unwrap(), rate);
    let zero = UncheckedOracleRate::new(OracleRate::new(IFixedPoint::zero(), IFixedPoint::zero()), 120);
    assert_eq!(zero.validate(&config, 120).unwrap_err(), LendingError::OracleRateIsNull);
}

#[test]
fn test_reject_negative_rate_at_construction() {
    let result = OracleRate::try_new(ilit("-1.5"), ilit("0.01"));
    assert_eq!(result.unwrap_err(), LendingError::OracleRateIsNull);
}

#[test]
fn test_reject_negative_confidence_at_construction() {
    let result = OracleRate::try_new(ilit("1.5"), ilit("-0.01"));
    assert_eq!(result.unwrap_err(), LendingError::NegativeOracleRate);
}

#[test]
fn test_load_oracle_price_success() {
    let provider = create_pyth_provider();
    let key = create_test_pubkey();
    let owner = create_test_pubkey();
    let price_data = create_pyth_price_account(create_test_feed_id(), 10000000000u64, 5000000u64, -8);
    let result = provider.load_oracle_price(&AccountView::from(&key, &price_data, &owner));
    let oracle_rate = result.unwrap().unsafe_rate();
    assert_eq!(oracle_rate.rate(), IFixedPoint::from_u64(100));
    assert_eq!(oracle_rate.confidence(), IFixedPoint::from_i64_u64_ratio(5, 100));
}

#[test]
fn test_load_oracle_price_invalid_owner() {
    let provider = create_pyth_provider();
    let key = create_test_pubkey();
    let wrong_owner = Pubkey([99u8; 32]);
    let price_data = create_pyth_price_account(create_test_feed_id(), 10000000000u64, 5000000u64, -8);
    let result = provider.load_oracle_price(&AccountView::from(&key, &price_data, &wrong_owner));
    assert_eq!(result.unwrap_err(), LendingError::InvalidPythOracleAccount);
}

#[test]
fn test_load_oracle_price_invalid_feed_id() {
    let provider = create_pyth_provider();
    let key = create_test_pubkey();
    let owner = create_test_pubkey();
    let price_data = create_pyth_price_account([99u8; 32], 10000000000u64, 5000000u64, -8);
    let result = provider.load_oracle_price(&AccountView::from(&key, &price_data, &owner));
    assert_eq!(result.unwrap_err(), LendingError::InvalidOracleFeedId);
}

#[test]
fn test_load_oracle_price_expo_too_negative() {
    let provider = create_pyth_provider();
    let key = create_test_pubkey();
    let owner = create_test_pubkey();
    let price_data =
        create_pyth_price_account(create_test_feed_id(), 10000000000u64, 5000000u64, -(MAX_EXPONENT_ABS + 1));
    let result = provider.load_oracle_price(&AccountView::from(&key, &price_data, &owner));
    assert_eq!(result.unwrap_err(), LendingError::InvalidPythOracleAccount);
}

#[test]
fn test_load_oracle_price_max_valid_expo() {
    let provider = create_pyth_provider();
    let key = create_test_pubkey();
    let owner = create_test_pubkey();
    let price_data = create_pyth_price_account(
        create_test_feed_id(),
        1000000000000000000u64,
        50000000000000000u64,
        -MAX_EXPONENT_ABS,
    );
    let result = provider.load_oracle_price(&AccountView::from(&key, &price_data, &owner));
    assert!(result.is_ok());
}

#[test]
fn test_load_oracle_price_zero_expo() {
    let provider = create_pyth_provider();
    let key = create_test_pubkey();
    let owner = create_test_pubkey();
    let price_data = create_pyth_price_account(create_test_feed_id(), 100u64, 5u64, 0);
    let result = provider.load_oracle_price(&AccountView::from(&key, &price_data, &owner));
    let oracle_rate = result.unwrap().unsafe_rate();
    assert_eq!(oracle_rate.rate(), IFixedPoint::from_u64(100));
    assert_eq!(oracle_rate.confidence(), IFixedPoint::from_u64(5));
}

#[test]
fn test_load_oracle_price_invalid_data_format() {
    let provider = create_pyth_provider();
    let key = create_test_pubkey();
    let owner = create_test_pubkey();
    let invalid_data = vec![1u8; 10];
    let result = provider.load_oracle_price(&AccountView::from(&key, &invalid_data, &owner));
    assert_eq!(result.unwrap_err(), LendingError::InvalidPythOracleAccount);
}

#[test]
fn test_load_oracle_price_different_decimal_places() {
    let provider = create_pyth_provider();
    let key = create_test_pubkey();
    let owner = create_test_pubkey();
    let test_cases = vec![
        (-1, 1000u64, 10u64, IFixedPoint::from_u64(100), IFixedPoint::from_u64(1)),
        (-2, 10000u64, 100u64, IFixedPoint::from_u64(100), IFixedPoint::from_u64(1)),
        (-6, 100000000u64, 1000000u64, IFixedPoint::from_u64(100), IFixedPoint::from_u64(1)),
    ];
    for (expo, price, conf, expected_rate, expected_conf) in test_cases {
        let price_data = create_pyth_price_account(create_test_feed_id(), price, conf, expo);
        let result = provider.load_oracle_price(&AccountView::from(&key, &price_data, &owner));
        let oracle_rate = result.unwrap().unsafe_rate();
        assert_eq!(oracle_rate.rate(), expected_rate, "Rate mismatch for expo {}", expo);
        assert_eq!(oracle_rate.confidence(), expected_conf, "Confidence mismatch for expo {}", expo);
    }
}

#[test]
fn pyth_publish_time_is_read() {
    let provider = create_pyth_provider();
    let key = create_test_pubkey();
    let owner = create_test_pubkey();
    let data = pyth_account_bytes(create_test_feed_id(), 5, 0, 0, -7);
    let unchecked = provider.load_oracle_price(&AccountView::from(&key, &data, &owner)).unwrap();
    assert_eq!(unchecked.publish_time, -7);
}

#[test]
fn check_discriminator() {
    let provider = ChaosProvider { feed_id: [3u8; 32], program_id: Pubkey([4u8; 32]), required_signatures: 2 };
    let key = Pubkey([5u8; 32]);
    let owner = Pubkey([4u8; 32]);
    let good = chaos_account_bytes([3u8; 32], 12345, 99, -2, 2);
    let unchecked = provider.load_oracle_price(&AccountView::from(&key, &good, &owner)).unwrap();
    assert_eq!(unchecked.publish_time, 99);
    assert_eq!(unchecked.unsafe_rate().rate(), ilit("123.45"));
    assert_eq!(unchecked.unsafe_rate().confidence(), IFixedPoint::zero());
    let mut bad = good.clone();
    bad[0] ^= 1;
    assert_eq!(
        provider.load_oracle_price(&AccountView::from(&key, &bad, &owner)).unwrap_err(),
        LendingError::InvalidChaosOracleAccount
    );
}

#[test]
fn chaos_account_checks() {
    let provider = ChaosProvider { feed_id: [3u8; 32], program_id: Pubkey([4u8; 32]), required_signatures: 2 };
    let key = Pubkey([5u8; 32]);
    let owner = Pubkey([4u8; 32]);
    let load = |data: &Vec<u8>, owner: &Pubkey| provider.load_oracle_price(&AccountView::from(&key, data, owner));
    let good = chaos_account_bytes([3u8; 32], 12345, 99, -2, 2);
    assert_eq!(load(&good, &Pubkey([9u8; 32])).unwrap_err(), LendingError::InvalidChaosOracleAccount);
    let mut long = good.clone();
    long.push(0);
    assert_eq!(load(&long, &owner).unwrap_err(), LendingError::InvalidChaosOracleAccount);
    assert_eq!(load(&good[..5].to_vec(), &owner).unwrap_err(), LendingError::InvalidChaosOracleAccount);
    let other_feed = chaos_account_bytes([8u8; 32], 12345, 99, -2, 2);
    assert_eq!(load(&other_feed, &owner).unwrap_err(), LendingError::InvalidOracleFeedId);
    let unsigned = chaos_account_bytes([3u8; 32], 12345, 99, -2, 1);
    assert_eq!(load(&unsigned, &owner).unwrap_err(), LendingError::InvalidChaosOracleAccount);
    let wild_expo = chaos_account_bytes([3u8; 32], 12345, 99, -19, 2);
    assert_eq!(load(&wild_expo, &owner).unwrap_err(), LendingError::InvalidChaosOracleAccount);
}

fn canonical_pyth_key(feed_id: [u8; 32], program: Pubkey) -> Pubkey {
    let (key, _) = arch_program::pubkey::Pubkey::find_program_address(
        &[&feed_id],
        &arch_program::pubkey::Pubkey(program.0),
    );
    Pubkey(key.0)
}

#[test]
fn load_oracle_price_rejects_account_at_wrong_address() {
    let victim_feed_id = [7u8; 32];
    let program_id = Pubkey([11u8; 32]);
    let provider = OracleProvider::Pyth(PythProvider { feed_id: victim_feed_id, program_id });
    let mut bytes = pyth_account_bytes(victim_feed_id, 1, 0, 0, 1_000);
    bytes.extend_from_slice(&[12u8; 32]);
    let attacker_owned_key = Pubkey([13u8; 32]);
    assert_ne!(attacker_owned_key, canonical_pyth_key(victim_feed_id, program_id));
    let result = provider.load_oracle_price(&AccountView::from(&attacker_owned_key, &bytes, &program_id));
    assert_eq!(result.unwrap_err(), LendingError::InvalidOracleFeedAccount);
}

#[test]
fn load_oracle_price_accepts_the_canonical_account() {
    let feed_id = [7u8; 32];
    let program_id = Pubkey([11u8; 32]);
    let provider = OracleProvider::Pyth(PythProvider { feed_id, program_id });
    let key = canonical_pyth_key(feed_id, program_id);
    assert_eq!(provider.oracle_feed_pubkey(), Some(key));
    let bytes = pyth_account_bytes(feed_id, 3, 0, 0, 1_000);
    let unchecked = provider.load_oracle_price(&AccountView::from(&key, &bytes, &program_id)).unwrap();
    assert_eq!(unchecked.unsafe_rate().rate(), IFixedPoint::from_u64(3));
    let config = OracleConfig::new(provider, OracleValidationConfig::new(60, ilit("0.05")));
    let view = AccountView::from(&key, &bytes, &program_id);
    assert_eq!(config.load_and_validate_oracle_rate(&view, 1_030).unwrap().rate(), IFixedPoint::from_u64(3));
    assert_eq!(config.load_and_validate_oracle_rate(&view, 1_100).unwrap_err(), LendingError::OracleRateTooOld);
}

#[test]
fn chaos_feed_lives_under_its_config_seed() {
    let feed_id = [7u8; 32];
    let program_id = Pubkey([11u8; 32]);
    let provider = OracleProvider::Chaos(ChaosProvider { feed_id, program_id, required_signatures: 1 });
    let (expected, _) = arch_program::pubkey::Pubkey::find_program_address(
        &[b"chaos_price_config", &feed_id],
        &arch_program::pubkey::Pubkey(program_id.0),
    );
    assert_eq!(provider.oracle_feed_pubkey(), Some(Pubkey(expected.0)));
}

#[test]
fn pyth_account_layout_round_trips() {
    let account = PythPriceAccount {
        pyth_price: PythPrice {
            id: [2u8; 32],
            price: PythPriceData { price: 12345, conf: 12, expo: -2, publish_time: 1234567890 },
            ema_price: PythPriceData { price: 12000, conf: 10, expo: -2, publish_time: 1234567880 },
            metadata: Metadata { slot: 77, proof_available_time: 1234567891, prev_publish_time: 1234567880 },
        },
    };
    let bytes = account.to_bytes();
    assert_eq!(bytes.len(), 120);
    assert_eq!(&bytes[..32], &[2u8; 32]);
    assert_eq!(&bytes[32..40], &12345u64.to_le_bytes());
    assert_eq!(PythPriceAccount::from_bytes(&bytes), Some(account));
    assert_eq!(PythPriceAccount::from_bytes(&bytes[..119]), None);
    let provider = create_pyth_provider();
    let rate = provider.load_oracle_price(&AccountView::from(&create_test_pubkey(), &bytes, &create_test_pubkey())).unwrap();
    assert_eq!(rate.publish_time, 1234567890);
}

#[test]
fn chaos_state_layout_round_trips() {
    let state = ChaosPriceState {
        version: 1,
        price_id: [3u8; 32],
        price: ChaosPriceData { price: 12345, observed_ts: 99, expo: -2 },
        ema_price: ChaosPriceData { price: 12345, observed_ts: 99, expo: -2 },
        num_signatures: 2,
        slot: 42,
        publish_time: 99,
        bump: 255,
    };
    let bytes = state.to_bytes();
    assert_eq!(bytes.len(), 86);
    assert_eq!(bytes, chaos_account_bytes([3u8; 32], 12345, 99, -2, 2)[8..].to_vec());
    assert_eq!(ChaosPriceState::try_from_slice(&bytes), Some(state));
    assert_eq!(ChaosPriceState::try_from_slice(&bytes[1..]), None);
}
