//! The curator's settings of a market.
use crate::error::{LendingError, LendingResult};
use crate::math::bps::bps_to_fixed_point;
use crate::math::fixed_ops::{i_one, u_one};
use crate::math::ifixed_point::{ifp, spec_i_add, spec_i_mul, IFixedPoint};
use crate::math::safe_math::SafeMath;
use crate::math::ufixed_point::UFixedPoint;
use crate::ixs::wire::{fixed_bytes, put_fixed};
use crate::pubkey::Pubkey;
use crate::state::global_config::GlobalConfig;
use vstd::prelude::*;

verus! {

/// Bits of 99%: the largest unhealthy ltv grown by the liquidation bonus.
pub const MAX_LTV_WITH_LIQUIDATION_BONUS_BITS: i128 = 278660226943549;

/// Bits of 10%: the largest liquidation bonus.
pub const MAX_LIQUIDATION_BONUS_BITS: i128 = 28147497671066;

/// Bits of 0.5%: the smallest liquidation bonus.
pub const MIN_LIQUIDATION_BONUS_BITS: i128 = 1407374883553;

/// Bits of 99 (9900%): the largest max utilisation rate.
pub const MAX_UTILISATION_RATE_BITS: i128 = 27866022694354944;

/// 20%: the largest lending fee.
pub const MAX_LENDING_MARKET_FEE_IN_BPS: u16 = 2000;

/// 50%: the protocol's usual share of the lending fee.
pub const FEE_PERCENT_FOR_PROTOCOL_IN_BPS: u16 = 5000;

/// Bits of 90%: liquidations aim at this fraction of the unhealthy ltv.
pub const TARGET_LTV_LIQUIDATION_MARGIN_BITS: i128 = 253327479039590;

/// Loan-to-value settings of a market.
#[derive(Debug, Clone, Copy, PartialEq, Eq, Default, Structural)]
pub struct LtvConfig {
    /// Largest ltv a borrow or withdrawal may leave
    pub max_ltv: IFixedPoint,
    /// Ltv from which a position can be liquidated
    pub unhealthy_ltv: IFixedPoint,
    /// Bonus for liquidating a position, from 0.5% to 10%
    pub liquidation_bonus: IFixedPoint,
}

/// The settings of a market.
#[derive(Debug, Clone, Copy, Default, PartialEq, Eq)]
pub struct MarketConfig {
    pub bump: [u8; 1],
    pub index: [u8; 1],
    /// Total fee in bps charged on lending interest
    pub lending_market_fee_in_bps: u16,
    /// Share of the fee sent to the protocol
    pub protocol_fee_share_in_bps: u16,
    /// Curator of the market, who can update its settings
    pub curator: Pubkey,
    pub ltv_config: LtvConfig,
    /// Max utilisation rate of the supply vault after a borrow
    pub max_utilisation_rate: IFixedPoint,
    /// Maximum atoms which can be supplied to the market
    pub max_supply_atoms: u64,
}

/// The ltv a liquidation aims at: 90% of the unhealthy ltv (the unhealthy
/// ltv itself if that overflows), but not below the max ltv.
pub open spec fn spec_target_ltv(c: LtvConfig) -> IFixedPoint {
    let t = match spec_i_mul(c.unhealthy_ltv, ifp(TARGET_LTV_LIQUIDATION_MARGIN_BITS as int)) {
        Ok(v) => v,
        Err(_) => c.unhealthy_ltv,
    };
    if t.bits >= c.max_ltv.bits {
        t
    } else {
        c.max_ltv
    }
}

/// Why a new ltv configuration is refused, if it is: the unhealthy ltv may
/// not decrease, the max ltv must stay below it, the bonus must lie in
/// `[0.1%, 10%]` and the unhealthy ltv grown by the bonus must not exceed 99%.
pub open spec fn spec_check_ltv(current: LtvConfig, new: LtvConfig) -> LendingResult<()> {
    if current.unhealthy_ltv.bits > new.unhealthy_ltv.bits {
        Err(LendingError::InvalidLtvConfig)
    } else if new.max_ltv.bits >= new.unhealthy_ltv.bits {
        Err(LendingError::InvalidLtvConfig)
    } else if new.liquidation_bonus.bits > MAX_LIQUIDATION_BONUS_BITS
        || new.liquidation_bonus.bits < MIN_LIQUIDATION_BONUS_BITS {
        Err(LendingError::InvalidLtvConfig)
    } else {
        match spec_i_add(ifp(i_one()), new.liquidation_bonus) {
            Err(e) => Err(e),
            Ok(opb) => match spec_i_mul(new.unhealthy_ltv, opb) {
                Err(e) => Err(e),
                Ok(m) => if m.bits > MAX_LTV_WITH_LIQUIDATION_BONUS_BITS {
                    Err(LendingError::InvalidLtvConfig)
                } else {
                    Ok(())
                },
            },
        }
    }
}

/// Why a max utilisation rate is refused, if it is.
pub open spec fn spec_check_max_utilisation_rate(rate: IFixedPoint) -> LendingResult<()> {
    if rate.bits > MAX_UTILISATION_RATE_BITS {
        Err(LendingError::InvalidMaxUtilisationRate)
    } else {
        Ok(())
    }
}

/// Why a lending fee is refused, if it is.
pub open spec fn spec_check_fee(fee: u16) -> LendingResult<()> {
    if fee > MAX_LENDING_MARKET_FEE_IN_BPS {
        Err(LendingError::FeeTooHigh)
    } else {
        Ok(())
    }
}

impl LtvConfig {
    /// The ltv a liquidation aims at, see `spec_target_ltv`.
    pub fn target_ltv_after_liquidation(&self) -> (r: IFixedPoint)
        ensures
            r == spec_target_ltv(*self),
            r.bits >= self.max_ltv.bits,
    {
        let t = match self.unhealthy_ltv.safe_mul(IFixedPoint::from_bits(TARGET_LTV_LIQUIDATION_MARGIN_BITS)) {
            Ok(v) => v,
            Err(_) => self.unhealthy_ltv,
        };
        if t.bits >= self.max_ltv.bits {
            t
        } else {
            self.max_ltv
        }
    }
}

impl MarketConfig {
    pub fn bump(&self) -> (r: &[u8; 1])
        ensures
            *r == self.bump,
    {
        &self.bump
    }

    pub fn index(&self) -> (r: &[u8; 1])
        ensures
            *r == self.index,
    {
        &self.index
    }

    pub fn lending_market_fee_in_bps(&self) -> (r: u16)
        ensures
            r == self.lending_market_fee_in_bps,
    {
        self.lending_market_fee_in_bps
    }

    pub fn protocol_fee_in_bps(&self) -> (r: u16)
        ensures
            r == self.protocol_fee_share_in_bps,
    {
        self.protocol_fee_share_in_bps
    }

    pub fn curator(&self) -> (r: &Pubkey)
        ensures
            *r == self.curator,
    {
        &self.curator
    }

    pub fn ltv_config(&self) -> (r: &LtvConfig)
        ensures
            *r == self.ltv_config,
    {
        &self.ltv_config
    }

    pub fn max_utilisation_rate(&self) -> (r: IFixedPoint)
        ensures
            r == self.max_utilisation_rate,
    {
        self.max_utilisation_rate
    }

    pub fn max_supply_atoms(&self) -> (r: u64)
        ensures
            r == self.max_supply_atoms,
    {
        self.max_supply_atoms
    }

    /// The lending fee as a fraction.
    pub fn lending_market_fee_fixed(&self) -> (r: UFixedPoint)
        ensures
            r.bits == (self.lending_market_fee_in_bps * u_one()) / 10_000,
    {
        bps_to_fixed_point(self.lending_market_fee_in_bps as u64)
    }

    /// Sets up the market; refused (with the first failing check's error)
    /// when the ltv configuration, the max utilisation rate or the fee is
    /// invalid.
    pub fn initialize(
        &mut self,
        bump: u8,
        index: u8,
        curator: &Pubkey,
        ltv_config: &LtvConfig,
        max_utilisation_rate: IFixedPoint,
        max_supply_atoms: u64,
        lending_market_fee_in_bps: u16,
        global_config: &GlobalConfig,
    ) -> (r: LendingResult<()>)
        ensures
            spec_check_ltv(old(self).ltv_config, *ltv_config) is Err ==> r == spec_check_ltv(
                old(self).ltv_config,
                *ltv_config,
            ) && *final(self) == *old(self),
            spec_check_ltv(old(self).ltv_config, *ltv_config) is Ok && spec_check_max_utilisation_rate(
                max_utilisation_rate,
            ) is Err ==> r == spec_check_max_utilisation_rate(max_utilisation_rate),
            spec_check_ltv(old(self).ltv_config, *ltv_config) is Ok && spec_check_max_utilisation_rate(
                max_utilisation_rate,
            ) is Ok ==> r == spec_check_fee(lending_market_fee_in_bps),
            r is Ok ==> *final(self) == (MarketConfig {
                bump: [bump],
                index: [index],
                lending_market_fee_in_bps,
                protocol_fee_share_in_bps: global_config.protocol_fee_share_in_bps,
                curator: *curator,
                ltv_config: *ltv_config,
                max_utilisation_rate,
                max_supply_atoms,
            }),
    {
        match self.update_ltv(ltv_config) {
            Ok(_) => {},
            Err(e) => return Err(e),
        }
        match self.update_max_utilisation_rate(max_utilisation_rate) {
            Ok(_) => {},
            Err(e) => return Err(e),
        }
        match self.set_lending_market_fee(lending_market_fee_in_bps) {
            Ok(_) => {},
            Err(e) => return Err(e),
        }
        self.bump = [bump];
        self.index = [index];
        self.curator = *curator;
        self.max_supply_atoms = max_supply_atoms;
        self.sync_global_config(global_config);
        Ok(())
    }

    /// Takes the protocol fee share of the global configuration.
    pub fn sync_global_config(&mut self, global_config: &GlobalConfig)
        ensures
            *final(self) == (MarketConfig {
                protocol_fee_share_in_bps: global_config.protocol_fee_share_in_bps,
                ..*old(self)
            }),
    {
        self.protocol_fee_share_in_bps = global_config.protocol_fee_share_in_bps();
    }

    pub fn update_max_supply_atoms(&mut self, max_supply_atoms: u64)
        ensures
            *final(self) == (MarketConfig { max_supply_atoms, ..*old(self) }),
    {
        self.max_supply_atoms = max_supply_atoms;
    }

    /// Sets the lending fee; above 20% is refused with `FeeTooHigh`.
    pub fn set_lending_market_fee(&mut self, lending_market_fee_in_bps: u16) -> (r: LendingResult<()>)
        ensures
            r == spec_check_fee(lending_market_fee_in_bps),
            r is Ok ==> *final(self) == (MarketConfig { lending_market_fee_in_bps, ..*old(self) }),
            r is Err ==> *final(self) == *old(self),
    {
        if lending_market_fee_in_bps > MAX_LENDING_MARKET_FEE_IN_BPS {
            return Err(LendingError::FeeTooHigh);
        }
        self.lending_market_fee_in_bps = lending_market_fee_in_bps;
        Ok(())
    }

    /// Sets the max utilisation rate; above 99 is refused with
    /// `InvalidMaxUtilisationRate`.
    pub fn update_max_utilisation_rate(&mut self, max_utilisation_rate: IFixedPoint) -> (r:
        LendingResult<()>)
        ensures
            r == spec_check_max_utilisation_rate(max_utilisation_rate),
            r is Ok ==> *final(self) == (MarketConfig { max_utilisation_rate, ..*old(self) }),
            r is Err ==> *final(self) == *old(self),
    {
        if max_utilisation_rate.bits > MAX_UTILISATION_RATE_BITS {
            return Err(LendingError::InvalidMaxUtilisationRate);
        }
        self.max_utilisation_rate = max_utilisation_rate;
        Ok(())
    }

    /// Sets the ltv configuration, see `spec_check_ltv`. An accepted
    /// configuration keeps the max ltv below the unhealthy ltv, never lowers
    /// the unhealthy ltv, keeps the bonus within bounds and leaves room for
    /// the bonus below 99%.
    pub fn update_ltv(&mut self, ltv_config: &LtvConfig) -> (r: LendingResult<()>)
        ensures
            r == spec_check_ltv(old(self).ltv_config, *ltv_config),
            r is Ok ==> *final(self) == (MarketConfig { ltv_config: *ltv_config, ..*old(self) }),
            r is Err ==> *final(self) == *old(self),
            r is Ok ==> final(self).ltv_config.max_ltv.bits < final(self).ltv_config.unhealthy_ltv.bits
                && final(self).ltv_config.unhealthy_ltv.bits >= old(self).ltv_config.unhealthy_ltv.bits
                && MIN_LIQUIDATION_BONUS_BITS <= final(self).ltv_config.liquidation_bonus.bits
                <= MAX_LIQUIDATION_BONUS_BITS,
    {
        if self.ltv_config.unhealthy_ltv.bits > ltv_config.unhealthy_ltv.bits {
            return Err(LendingError::InvalidLtvConfig);
        }
        if ltv_config.max_ltv.bits >= ltv_config.unhealthy_ltv.bits {
            return Err(LendingError::InvalidLtvConfig);
        }
        if ltv_config.liquidation_bonus.bits > MAX_LIQUIDATION_BONUS_BITS
            || ltv_config.liquidation_bonus.bits < MIN_LIQUIDATION_BONUS_BITS {
            return Err(LendingError::InvalidLtvConfig);
        }
        let one_plus_liquidation_bonus = match IFixedPoint::one().safe_add(ltv_config.liquidation_bonus) {
            Ok(v) => v,
            Err(e) => return Err(e),
        };
        let m = match ltv_config.unhealthy_ltv.safe_mul(one_plus_liquidation_bonus) {
            Ok(v) => v,
            Err(e) => return Err(e),
        };
        if m.bits > MAX_LTV_WITH_LIQUIDATION_BONUS_BITS {
            return Err(LendingError::InvalidLtvConfig);
        }
        self.ltv_config = *ltv_config;
        Ok(())
    }
}

impl LtvConfig {
    /// The three ratios on the wire, in field order.
    pub open spec fn wire(&self) -> Seq<u8> {
        fixed_bytes(self.max_ltv) + fixed_bytes(self.unhealthy_ltv) + fixed_bytes(
            self.liquidation_bonus,
        )
    }

    /// Appends the bytes of the config to `out`.
    pub fn write_to(&self, out: &mut Vec<u8>)
        ensures
            final(out)@ == old(out)@ + self.wire(),
    {
        put_fixed(out, self.max_ltv);
        put_fixed(out, self.unhealthy_ltv);
        put_fixed(out, self.liquidation_bonus);
        proof {
            assert(out@ =~= old(out)@ + self.wire());
        }
    }
}

} // verus!
