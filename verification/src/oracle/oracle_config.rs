//! Where a vault reads its price and how the price is checked.
use crate::error::{LendingError, LendingResult};
use crate::math::ifixed_point::{spec_i_div, IFixedPoint};
use crate::oracle::oracle_price::OracleRate;
use crate::ixs::wire::{fixed_bytes, put_bytes, put_fixed, put_key, put_u64, put_u8, put_zeros, u64_bytes, zeros};
use crate::pubkey::Pubkey;
use vstd::prelude::*;

verus! {

/// A Pyth price feed.
#[derive(Debug, PartialEq, Eq, Copy, Clone)]
pub struct PythProvider {
    pub feed_id: [u8; 32],
    pub program_id: Pubkey,
}

/// A Chaos Labs price feed, with the number of signatures a price needs.
#[derive(Debug, PartialEq, Eq, Copy, Clone)]
pub struct ChaosProvider {
    pub feed_id: [u8; 32],
    pub program_id: Pubkey,
    pub required_signatures: u8,
}

/// The source of a price.
#[derive(Clone, Copy, Debug, PartialEq, Eq)]
pub enum OracleProvider {
    Pyth(PythProvider),
    Chaos(ChaosProvider),
}

/// Limits on the age and relative confidence of a price; `None` is no limit.
#[derive(Debug, Clone, Copy, PartialEq, Eq)]
pub struct OracleValidationConfig {
    /// Max age in seconds from which a price is stale
    pub max_age: Option<u64>,
    /// Level the relative confidence must stay under
    pub min_relative_confidence: Option<IFixedPoint>,
    /// Minimum number of signatures required for a price
    pub min_signature_threshold: Option<u64>,
}

/// The price source of a vault and how its prices are checked.
#[derive(Debug, Clone, Copy, PartialEq, Eq)]
pub struct OracleConfig {
    pub oracle_provider: OracleProvider,
    pub validation_config: OracleValidationConfig,
}

/// A price read from a feed, not checked yet.
#[derive(Clone, Copy, Debug, PartialEq, Eq, Structural)]
pub struct UncheckedOracleRate {
    pub rate: OracleRate,
    pub publish_time: i64,
}

/// The outcome of checking a price published at `publish_time` at time
/// `unix_timestamp`.
pub open spec fn spec_validate_rate(
    rate: OracleRate,
    publish_time: i64,
    config: OracleValidationConfig,
    unix_timestamp: i64,
) -> LendingResult<OracleRate> {
    let age = unix_timestamp - publish_time;
    if rate.rate.bits < 0 {
        Err(LendingError::NegativeOracleRate)
    } else if rate.confidence.bits < 0 {
        Err(LendingError::NegativeOracleRate)
    } else if rate.rate.bits == 0 {
        Err(LendingError::OracleRateIsNull)
    } else if !(i64::MIN <= age <= i64::MAX) {
        Err(LendingError::SubtractionOverflow)
    } else if config.max_age is Some && (if age < 0 {
        0
    } else {
        age
    }) > config.max_age->Some_0 {
        Err(LendingError::OracleRateTooOld)
    } else {
        match spec_i_div(rate.confidence, rate.rate) {
            Err(e) => Err(e),
            Ok(rel) => if config.min_relative_confidence is Some && rel.bits
                > config.min_relative_confidence->Some_0.bits {
                Err(LendingError::OracleRateRelativeConfidenceTooLow)
            } else {
                Ok(rate)
            },
        }
    }
}

impl OracleValidationConfig {
    /// At most `max_age` seconds old and `min_relative_confidence` relative
    /// confidence; a zero value means no limit.
    pub fn new(max_age: u64, min_relative_confidence: IFixedPoint) -> (r: Self)
        ensures
            r.max_age == (if max_age == 0 {
                None
            } else {
                Some(max_age)
            }),
            r.min_relative_confidence == (if min_relative_confidence.bits == 0 {
                None
            } else {
                Some(min_relative_confidence)
            }),
            r.min_signature_threshold is None,
    {
        OracleValidationConfig {
            max_age: if max_age == 0 {
                None
            } else {
                Some(max_age)
            },
            min_relative_confidence: if min_relative_confidence.bits == 0 {
                None
            } else {
                Some(min_relative_confidence)
            },
            min_signature_threshold: None,
        }
    }

    pub fn max_age(&self) -> (r: Option<u64>)
        ensures
            r == self.max_age,
    {
        self.max_age
    }

    pub fn min_relative_confidence(&self) -> (r: Option<IFixedPoint>)
        ensures
            r == self.min_relative_confidence,
    {
        self.min_relative_confidence
    }
}

impl Default for OracleValidationConfig {
    /// One hour and 5% relative confidence.
    fn default() -> (r: Self)
        ensures
            r.max_age == Some(3600u64),
            r.min_relative_confidence == Some(IFixedPoint { bits: 14073748835533 }),
            r.min_signature_threshold is None,
    {
        OracleValidationConfig {
            max_age: Some(3600),
            min_relative_confidence: Some(IFixedPoint::from_bits(14073748835533)),
            min_signature_threshold: None,
        }
    }
}

impl OracleConfig {
    pub fn new(oracle_provider: OracleProvider, validation_config: OracleValidationConfig) -> (r: Self)
        ensures
            r.oracle_provider == oracle_provider,
            r.validation_config == validation_config,
    {
        OracleConfig { oracle_provider, validation_config }
    }

    /// A Pyth feed with the default checks.
    pub fn new_pyth(feed_id: [u8; 32], program_id: Pubkey) -> (r: Self)
        ensures
            r.oracle_provider == OracleProvider::Pyth(PythProvider { feed_id, program_id }),
            r.validation_config.max_age == Some(3600u64),
    {
        OracleConfig {
            oracle_provider: OracleProvider::Pyth(PythProvider { feed_id, program_id }),
            validation_config: OracleValidationConfig::default(),
        }
    }

    /// A Chaos Labs feed with the default checks.
    pub fn new_chaos(feed_id: [u8; 32], program_id: Pubkey, required_signatures: u8) -> (r: Self)
        ensures
            r.oracle_provider == OracleProvider::Chaos(
                ChaosProvider { feed_id, program_id, required_signatures },
            ),
            r.validation_config.max_age == Some(3600u64),
    {
        OracleConfig {
            oracle_provider: OracleProvider::Chaos(
                ChaosProvider { feed_id, program_id, required_signatures },
            ),
            validation_config: OracleValidationConfig::default(),
        }
    }

    pub fn oracle_provider(&self) -> (r: &OracleProvider)
        ensures
            *r == self.oracle_provider,
    {
        &self.oracle_provider
    }

    pub fn validation_config(&self) -> (r: &OracleValidationConfig)
        ensures
            *r == self.validation_config,
    {
        &self.validation_config
    }

    /// Whether a vault may use this source: a Chaos Labs feed must require
    /// at least one signature.
    pub open spec fn spec_is_valid(&self) -> bool {
        match self.oracle_provider {
            OracleProvider::Chaos(c) => c.required_signatures != 0,
            OracleProvider::Pyth(_) => true,
        }
    }

    /// Refuses a Chaos Labs feed that accepts unsigned prices with
    /// `InvalidOracleConfig`.
    pub fn validate(&self) -> (r: LendingResult<()>)
        ensures
            r == (if self.spec_is_valid() {
                Ok::<(), LendingError>(())
            } else {
                Err(LendingError::InvalidOracleConfig)
            }),
    {
        match &self.oracle_provider {
            OracleProvider::Chaos(c) => if c.required_signatures == 0 {
                Err(LendingError::InvalidOracleConfig)
            } else {
                Ok(())
            },
            OracleProvider::Pyth(_) => Ok(()),
        }
    }
}

impl UncheckedOracleRate {
    pub fn new(rate: OracleRate, publish_time: i64) -> (r: Self)
        ensures
            r.rate == rate,
            r.publish_time == publish_time,
    {
        UncheckedOracleRate { rate, publish_time }
    }

    /// The rate, unchecked.
    pub fn unsafe_rate(&self) -> (r: OracleRate)
        ensures
            r == self.rate,
    {
        self.rate
    }

    /// The rate when it is positive, with a confidence that is not negative,
    /// fresh enough and confident enough for `config`.
    pub fn validate(&self, config: &OracleValidationConfig, unix_timestamp: i64) -> (r: LendingResult<
        OracleRate,
    >)
        ensures
            r == spec_validate_rate(self.rate, self.publish_time, *config, unix_timestamp),
    {
        if self.rate.rate.is_negative() {
            return Err(LendingError::NegativeOracleRate);
        }
        if self.rate.confidence.is_negative() {
            return Err(LendingError::NegativeOracleRate);
        }
        if self.rate.rate.is_zero() {
            return Err(LendingError::OracleRateIsNull);
        }
        let age_signed = match unix_timestamp.checked_sub(self.publish_time) {
            Some(a) => a,
            None => return Err(LendingError::SubtractionOverflow),
        };
        let age: u64 = if age_signed < 0 {
            0
        } else {
            age_signed as u64
        };
        match config.max_age {
            Some(max_age) => if age > max_age {
                return Err(LendingError::OracleRateTooOld);
            },
            None => {},
        }
        let relative_confidence = match self.rate.relative_confidence() {
            Ok(v) => v,
            Err(e) => return Err(e),
        };
        match config.min_relative_confidence {
            Some(min_conf) => if relative_confidence.bits > min_conf.bits {
                return Err(LendingError::OracleRateRelativeConfidenceTooLow);
            },
            None => {},
        }
        Ok(self.rate)
    }
}


/// An optional `u64` in an account's layout: zero stands for none.
pub open spec fn pod_u64_bytes(x: Option<u64>) -> Seq<u8> {
    match x {
        Some(v) => u64_bytes(v),
        None => u64_bytes(0),
    }
}

/// An optional fixed-point number in an account's layout: zero for none.
pub open spec fn pod_fixed_bytes(x: Option<IFixedPoint>) -> Seq<u8> {
    match x {
        Some(v) => fixed_bytes(v),
        None => fixed_bytes(IFixedPoint { bits: 0 }),
    }
}

/// The size of the provider slot: the largest provider, a Chaos feed with
/// its padding.
pub const PROVIDER_SLOT_SIZE: usize = 72;

/// The bytes of a provider: its kind, then its fields in a slot of
/// `PROVIDER_SLOT_SIZE` bytes filled with zeros.
pub open spec fn provider_bytes(p: OracleProvider) -> Seq<u8> {
    match p {
        OracleProvider::Pyth(py) => seq![0u8] + py.feed_id@ + py.program_id.0@ + zeros(8),
        OracleProvider::Chaos(c) => seq![1u8] + c.feed_id@ + c.program_id.0@ + seq![
            c.required_signatures,
        ] + zeros(7),
    }
}

pub open spec fn validation_bytes(v: OracleValidationConfig) -> Seq<u8> {
    pod_u64_bytes(v.max_age) + pod_fixed_bytes(v.min_relative_confidence) + pod_u64_bytes(
        v.min_signature_threshold,
    )
}

/// The size of the reserved space after the validation settings.
pub const ORACLE_CONFIG_RESERVED: usize = 152;

impl OracleConfig {
    /// The config on the wire: provider, validation settings, reserved space.
    #[verifier::opaque]
    pub open spec fn wire(&self) -> Seq<u8> {
        provider_bytes(self.oracle_provider) + validation_bytes(self.validation_config) + zeros(
            ORACLE_CONFIG_RESERVED as nat,
        )
    }

    /// A config takes 257 bytes on the wire.
    pub proof fn lemma_wire_len(&self)
        ensures
            self.wire().len() == 257,
    {
        reveal(OracleConfig::wire);
    }

    /// Appends the bytes of the config to `out`.
    pub fn write_to(&self, out: &mut Vec<u8>)
        ensures
            final(out)@ == old(out)@ + self.wire(),
    {
        proof {
            reveal(OracleConfig::wire);
        }
        match &self.oracle_provider {
            OracleProvider::Pyth(py) => {
                put_u8(out, 0u8);
                put_bytes(out, py.feed_id.as_slice());
                put_key(out, &py.program_id);
                put_zeros(out, 8);
            },
            OracleProvider::Chaos(c) => {
                put_u8(out, 1u8);
                put_bytes(out, c.feed_id.as_slice());
                put_key(out, &c.program_id);
                put_u8(out, c.required_signatures);
                put_zeros(out, 7);
            },
        }
        let v = &self.validation_config;
        put_u64(out, match v.max_age { Some(x) => x, None => 0 });
        put_fixed(out, match v.min_relative_confidence { Some(x) => x, None => IFixedPoint { bits: 0 } });
        put_u64(out, match v.min_signature_threshold { Some(x) => x, None => 0 });
        put_zeros(out, ORACLE_CONFIG_RESERVED);
        proof {
            assert(out@ =~= old(out)@ + self.wire());
        }
    }
}

} // verus!
