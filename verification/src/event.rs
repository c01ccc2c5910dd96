//! The events the program logs after each operation.
use crate::ixs::wire::{
    fixed_bytes, i64_bytes, put_fixed, put_i64, put_key, put_u64, put_u8, take_fixed, take_i64,
    take_key, take_u64, take_u8, u64_bytes, lemma_fixed_bytes_injective, lemma_i64_bytes_injective,
    lemma_key_injective, lemma_u64_bytes_injective, lemma_concat_split, lemma_subrange_join,
};
use crate::interest_rate::interest_rate_per_second::InterestRatePerSecond;
use crate::ixs::types::AurataInstructionTag;
use crate::oracle::oracle_price::OracleRate;
use crate::pubkey::Pubkey;
use crate::state::borrow_position::BorrowPositionHealth;
use crate::state::supply_vault::SupplyVaultSummary;
use vstd::prelude::*;

verus! {

/// The kind of an event, its first byte on the wire.
#[derive(Clone, Copy, Debug, PartialEq, Eq, Structural)]
pub enum AurataEventTag {
    Liquidate,
    Supply,
    Withdraw,
    DepositCollateral,
    WithdrawCollateral,
    Borrow,
    Repay,
    RedeemProtocolFees,
    RedeemCuratorFees,
    DepositAndBorrow,
    WithdrawAndRepay,
    SocializeLoss,
    Donation,
}

impl AurataEventTag {
    pub open spec fn spec_byte(&self) -> u8 {
        match *self {
            AurataEventTag::Liquidate => 0,
            AurataEventTag::Supply => 1,
            AurataEventTag::Withdraw => 2,
            AurataEventTag::DepositCollateral => 3,
            AurataEventTag::WithdrawCollateral => 4,
            AurataEventTag::Borrow => 5,
            AurataEventTag::Repay => 6,
            AurataEventTag::RedeemProtocolFees => 7,
            AurataEventTag::RedeemCuratorFees => 8,
            AurataEventTag::DepositAndBorrow => 9,
            AurataEventTag::WithdrawAndRepay => 10,
            AurataEventTag::SocializeLoss => 11,
            AurataEventTag::Donation => 12,
        }
    }

    /// The byte that encodes the tag, its place in declaration order.
    pub fn to_u8(&self) -> (r: u8)
        ensures
            r == self.spec_byte(),
    {
        match self {
            AurataEventTag::Liquidate => 0,
            AurataEventTag::Supply => 1,
            AurataEventTag::Withdraw => 2,
            AurataEventTag::DepositCollateral => 3,
            AurataEventTag::WithdrawCollateral => 4,
            AurataEventTag::Borrow => 5,
            AurataEventTag::Repay => 6,
            AurataEventTag::RedeemProtocolFees => 7,
            AurataEventTag::RedeemCuratorFees => 8,
            AurataEventTag::DepositAndBorrow => 9,
            AurataEventTag::WithdrawAndRepay => 10,
            AurataEventTag::SocializeLoss => 11,
            AurataEventTag::Donation => 12,
        }
    }

    /// The tag a byte encodes; the byte itself when it encodes none.
    pub fn try_from(value: u8) -> (r: Result<AurataEventTag, u8>)
        ensures
            match r {
                Ok(t) => t.spec_byte() == value,
                Err(v) => v == value && value >= 13,
            },
    {
        match value {
            0 => Ok(AurataEventTag::Liquidate),
            1 => Ok(AurataEventTag::Supply),
            2 => Ok(AurataEventTag::Withdraw),
            3 => Ok(AurataEventTag::DepositCollateral),
            4 => Ok(AurataEventTag::WithdrawCollateral),
            5 => Ok(AurataEventTag::Borrow),
            6 => Ok(AurataEventTag::Repay),
            7 => Ok(AurataEventTag::RedeemProtocolFees),
            8 => Ok(AurataEventTag::RedeemCuratorFees),
            9 => Ok(AurataEventTag::DepositAndBorrow),
            10 => Ok(AurataEventTag::WithdrawAndRepay),
            11 => Ok(AurataEventTag::SocializeLoss),
            12 => Ok(AurataEventTag::Donation),
            _ => Err(value),
        }
    }
}

/// A liquidation: who liquidated which position, its health around it and
/// what moved.
#[derive(Clone, Copy, Debug, PartialEq, Eq)]
pub struct LiquidateEvent {
    pub market: Pubkey,
    pub liquidator: Pubkey,
    pub liquidatee_position: Pubkey,
    pub supply_mint: Pubkey,
    pub collateral_mint: Pubkey,
    pub health_before_liquidation: BorrowPositionHealth,
    pub health_after_liquidation: BorrowPositionHealth,
    pub supply_repaid: u64,
    pub collateral_liquidated: u64,
    pub liquidator_fee: u64,
}

/// An operation moving one token: the market state and prices after it.
#[derive(Clone, Copy, Debug, PartialEq, Eq)]
pub struct SingleMarketTransactionEvent {
    pub market: Pubkey,
    pub user: Pubkey,
    pub position: Pubkey,
    pub mint: Pubkey,
    pub amount: u64,
    pub supply_vault_summary: SupplyVaultSummary,
    pub collateral_vault_atoms: u64,
    pub supply_oracle_rate: OracleRate,
    pub collateral_oracle_rate: OracleRate,
}

/// An operation moving two tokens: the market state and prices after it.
#[derive(Clone, Copy, Debug, PartialEq, Eq)]
pub struct DoubleMarketTransactionEvent {
    pub market: Pubkey,
    pub user: Pubkey,
    pub position: Pubkey,
    pub mint_in: Pubkey,
    pub amount_in: u64,
    pub mint_out: Pubkey,
    pub amount_out: u64,
    pub supply_vault_summary: SupplyVaultSummary,
    pub collateral_vault_atoms: u64,
    pub supply_oracle_rate: OracleRate,
    pub collateral_oracle_rate: OracleRate,
}

/// Fees paid out to the curator or the protocol.
#[derive(Clone, Copy, Debug, PartialEq, Eq)]
pub struct ReedeemFeeEvent {
    pub market: Pubkey,
    pub fee_receiver: Pubkey,
    pub fee_amount: u64,
    pub mint: Pubkey,
    pub supply_vault_snapshot: SupplyVaultSummary,
}

/// Bad debt spread over the suppliers.
#[derive(Clone, Copy, Debug, PartialEq, Eq)]
pub struct SocializeLossEvent {
    pub market: Pubkey,
    pub position: Pubkey,
    pub debt_socialized: u64,
    pub collateral_liquidated: u64,
}

/// Tokens given to the suppliers.
#[derive(Clone, Copy, Debug, PartialEq, Eq)]
pub struct DonateSupplyEvent {
    pub market: Pubkey,
    pub donor: Pubkey,
    pub mint: Pubkey,
    pub amount: u64,
}

/// Any event of the program.
#[derive(Clone, Copy, Debug, PartialEq, Eq)]
pub enum AutaraEvent {
    Liquidate(LiquidateEvent),
    Supply(SingleMarketTransactionEvent),
    Withdraw(SingleMarketTransactionEvent),
    DepositCollateral(SingleMarketTransactionEvent),
    WithdrawCollateral(SingleMarketTransactionEvent),
    BorrowAndDeposit(DoubleMarketTransactionEvent),
    WithdrawAndRepay(DoubleMarketTransactionEvent),
    Borrow(SingleMarketTransactionEvent),
    Repay(SingleMarketTransactionEvent),
    ReedeemProtocolFees(ReedeemFeeEvent),
    ReedeemCuratorFees(ReedeemFeeEvent),
    SocializeLoss(SocializeLossEvent),
    DonateSupply(DonateSupplyEvent),
}

#[verifier::opaque]
pub open spec fn health_bytes(h: BorrowPositionHealth) -> Seq<u8> {
    fixed_bytes(h.ltv) + u64_bytes(h.borrowed_atoms) + u64_bytes(h.collateral_atoms) + fixed_bytes(h.borrow_value) + fixed_bytes(h.collateral_value)
}

pub proof fn lemma_health_bytes_len(x: BorrowPositionHealth)
    ensures
        health_bytes(x).len() == 64,
{
    reveal(health_bytes);
}

#[verifier::opaque]
pub open spec fn summary_bytes(v: SupplyVaultSummary) -> Seq<u8> {
    i64_bytes(v.last_update_unix_timestamp) + u64_bytes(v.total_supply) + u64_bytes(v.total_borrow)
        + u64_bytes(v.pending_curator_fee_atoms) + u64_bytes(v.pending_protocol_fee_atoms)
        + fixed_bytes(v.utilisation_rate) + fixed_bytes(v.borrow_interest_rate.0) + fixed_bytes(
        v.lending_interest_rate.0,
    )
}

pub proof fn lemma_summary_bytes_len(x: SupplyVaultSummary)
    ensures
        summary_bytes(x).len() == 88,
{
    reveal(summary_bytes);
}

#[verifier::opaque]
pub open spec fn rate_bytes(r: OracleRate) -> Seq<u8> {
    fixed_bytes(r.rate) + fixed_bytes(r.confidence)
}

pub proof fn lemma_rate_bytes_len(x: OracleRate)
    ensures
        rate_bytes(x).len() == 32,
{
    reveal(rate_bytes);
}

fn put_health(out: &mut Vec<u8>, h: &BorrowPositionHealth)
    ensures
        final(out)@ == old(out)@ + health_bytes(*h),
{
    reveal(health_bytes);
    put_fixed(out, h.ltv);
    put_u64(out, h.borrowed_atoms);
    put_u64(out, h.collateral_atoms);
    put_fixed(out, h.borrow_value);
    put_fixed(out, h.collateral_value);
    proof {
        assert(out@ =~= old(out)@ + health_bytes(*h));
    }
}

fn put_summary(out: &mut Vec<u8>, v: &SupplyVaultSummary)
    ensures
        final(out)@ == old(out)@ + summary_bytes(*v),
{
    reveal(summary_bytes);
    put_i64(out, v.last_update_unix_timestamp);
    put_u64(out, v.total_supply);
    put_u64(out, v.total_borrow);
    put_u64(out, v.pending_curator_fee_atoms);
    put_u64(out, v.pending_protocol_fee_atoms);
    put_fixed(out, v.utilisation_rate);
    put_fixed(out, v.borrow_interest_rate.0);
    put_fixed(out, v.lending_interest_rate.0);
    proof {
        assert(out@ =~= old(out)@ + summary_bytes(*v));
    }
}

fn put_rate(out: &mut Vec<u8>, r: &OracleRate)
    ensures
        final(out)@ == old(out)@ + rate_bytes(*r),
{
    reveal(rate_bytes);
    put_fixed(out, r.rate);
    put_fixed(out, r.confidence);
    proof {
        assert(out@ =~= old(out)@ + rate_bytes(*r));
    }
}

impl LiquidateEvent {
    pub open spec fn wire(&self) -> Seq<u8> {
        self.market.0@ + self.liquidator.0@ + self.liquidatee_position.0@ + self.supply_mint.0@
            + self.collateral_mint.0@ + health_bytes(self.health_before_liquidation) + health_bytes(
            self.health_after_liquidation,
        ) + u64_bytes(self.supply_repaid) + u64_bytes(self.collateral_liquidated) + u64_bytes(self.liquidator_fee)
    }

    pub fn write_to(&self, out: &mut Vec<u8>)
        ensures
            final(out)@ == old(out)@ + self.wire(),
    {
        put_key(out, &self.market);
        put_key(out, &self.liquidator);
        put_key(out, &self.liquidatee_position);
        put_key(out, &self.supply_mint);
        put_key(out, &self.collateral_mint);
        put_health(out, &self.health_before_liquidation);
        put_health(out, &self.health_after_liquidation);
        put_u64(out, self.supply_repaid);
        put_u64(out, self.collateral_liquidated);
        put_u64(out, self.liquidator_fee);
        proof {
            assert(out@ =~= old(out)@ + self.wire());
        }
    }
}

impl SingleMarketTransactionEvent {
    pub open spec fn wire(&self) -> Seq<u8> {
        self.market.0@ + self.user.0@ + self.position.0@ + self.mint.0@ + u64_bytes(self.amount)
            + summary_bytes(self.supply_vault_summary) + u64_bytes(self.collateral_vault_atoms)
            + rate_bytes(self.supply_oracle_rate) + rate_bytes(self.collateral_oracle_rate)
    }

    pub fn write_to(&self, out: &mut Vec<u8>)
        ensures
            final(out)@ == old(out)@ + self.wire(),
    {
        put_key(out, &self.market);
        put_key(out, &self.user);
        put_key(out, &self.position);
        put_key(out, &self.mint);
        put_u64(out, self.amount);
        put_summary(out, &self.supply_vault_summary);
        put_u64(out, self.collateral_vault_atoms);
        put_rate(out, &self.supply_oracle_rate);
        put_rate(out, &self.collateral_oracle_rate);
        proof {
            assert(out@ =~= old(out)@ + self.wire());
        }
    }
}

impl DoubleMarketTransactionEvent {
    pub open spec fn wire(&self) -> Seq<u8> {
        self.market.0@ + self.user.0@ + self.position.0@ + self.mint_in.0@ + u64_bytes(self.amount_in) + self.mint_out.0@ + u64_bytes(self.amount_out) + summary_bytes(self.supply_vault_summary)
            + u64_bytes(self.collateral_vault_atoms) + rate_bytes(self.supply_oracle_rate)
            + rate_bytes(self.collateral_oracle_rate)
    }

    pub fn write_to(&self, out: &mut Vec<u8>)
        ensures
            final(out)@ == old(out)@ + self.wire(),
    {
        put_key(out, &self.market);
        put_key(out, &self.user);
        put_key(out, &self.position);
        put_key(out, &self.mint_in);
        put_u64(out, self.amount_in);
        put_key(out, &self.mint_out);
        put_u64(out, self.amount_out);
        put_summary(out, &self.supply_vault_summary);
        put_u64(out, self.collateral_vault_atoms);
        put_rate(out, &self.supply_oracle_rate);
        put_rate(out, &self.collateral_oracle_rate);
        proof {
            assert(out@ =~= old(out)@ + self.wire());
        }
    }
}

impl ReedeemFeeEvent {
    pub open spec fn wire(&self) -> Seq<u8> {
        self.market.0@ + self.fee_receiver.0@ + u64_bytes(self.fee_amount) + self.mint.0@
            + summary_bytes(self.supply_vault_snapshot)
    }

    pub fn write_to(&self, out: &mut Vec<u8>)
        ensures
            final(out)@ == old(out)@ + self.wire(),
    {
        put_key(out, &self.market);
        put_key(out, &self.fee_receiver);
        put_u64(out, self.fee_amount);
        put_key(out, &self.mint);
        put_summary(out, &self.supply_vault_snapshot);
        proof {
            assert(out@ =~= old(out)@ + self.wire());
        }
    }
}

impl SocializeLossEvent {
    pub open spec fn wire(&self) -> Seq<u8> {
        self.market.0@ + self.position.0@ + u64_bytes(self.debt_socialized) + u64_bytes(self.collateral_liquidated)
    }

    pub fn write_to(&self, out: &mut Vec<u8>)
        ensures
            final(out)@ == old(out)@ + self.wire(),
    {
        put_key(out, &self.market);
        put_key(out, &self.position);
        put_u64(out, self.debt_socialized);
        put_u64(out, self.collateral_liquidated);
        proof {
            assert(out@ =~= old(out)@ + self.wire());
        }
    }
}

impl DonateSupplyEvent {
    pub open spec fn wire(&self) -> Seq<u8> {
        self.market.0@ + self.donor.0@ + self.mint.0@ + u64_bytes(self.amount)
    }

    pub fn write_to(&self, out: &mut Vec<u8>)
        ensures
            final(out)@ == old(out)@ + self.wire(),
    {
        put_key(out, &self.market);
        put_key(out, &self.donor);
        put_key(out, &self.mint);
        put_u64(out, self.amount);
        proof {
            assert(out@ =~= old(out)@ + self.wire());
        }
    }
}

impl AutaraEvent {
    /// The tag under which the event is written. Note that a borrow with a
    /// deposit is written under `DepositAndBorrow`.
    pub open spec fn spec_tag(&self) -> AurataEventTag {
        match *self {
            AutaraEvent::Liquidate(_) => AurataEventTag::Liquidate,
            AutaraEvent::Supply(_) => AurataEventTag::Supply,
            AutaraEvent::Withdraw(_) => AurataEventTag::Withdraw,
            AutaraEvent::DepositCollateral(_) => AurataEventTag::DepositCollateral,
            AutaraEvent::WithdrawCollateral(_) => AurataEventTag::WithdrawCollateral,
            AutaraEvent::BorrowAndDeposit(_) => AurataEventTag::DepositAndBorrow,
            AutaraEvent::WithdrawAndRepay(_) => AurataEventTag::WithdrawAndRepay,
            AutaraEvent::Borrow(_) => AurataEventTag::Borrow,
            AutaraEvent::Repay(_) => AurataEventTag::Repay,
            AutaraEvent::ReedeemProtocolFees(_) => AurataEventTag::RedeemProtocolFees,
            AutaraEvent::ReedeemCuratorFees(_) => AurataEventTag::RedeemCuratorFees,
            AutaraEvent::SocializeLoss(_) => AurataEventTag::SocializeLoss,
            AutaraEvent::DonateSupply(_) => AurataEventTag::Donation,
        }
    }

    /// The event on the wire: the byte of its tag, then its fields.
    pub open spec fn wire(&self) -> Seq<u8> {
        seq![self.spec_tag().spec_byte()] + match *self {
            AutaraEvent::Liquidate(e) => e.wire(),
            AutaraEvent::Supply(e) => e.wire(),
            AutaraEvent::Withdraw(e) => e.wire(),
            AutaraEvent::DepositCollateral(e) => e.wire(),
            AutaraEvent::WithdrawCollateral(e) => e.wire(),
            AutaraEvent::BorrowAndDeposit(e) => e.wire(),
            AutaraEvent::WithdrawAndRepay(e) => e.wire(),
            AutaraEvent::Borrow(e) => e.wire(),
            AutaraEvent::Repay(e) => e.wire(),
            AutaraEvent::ReedeemProtocolFees(e) => e.wire(),
            AutaraEvent::ReedeemCuratorFees(e) => e.wire(),
            AutaraEvent::SocializeLoss(e) => e.wire(),
            AutaraEvent::DonateSupply(e) => e.wire(),
        }
    }

    /// Appends the bytes of the event to `out`.
    pub fn write_to(&self, out: &mut Vec<u8>)
        ensures
            final(out)@ == old(out)@ + self.wire(),
    {
        match self {
            AutaraEvent::Liquidate(e) => {
                put_u8(out, AurataEventTag::Liquidate.to_u8());
                e.write_to(out);
            },
            AutaraEvent::Supply(e) => {
                put_u8(out, AurataEventTag::Supply.to_u8());
                e.write_to(out);
            },
            AutaraEvent::Withdraw(e) => {
                put_u8(out, AurataEventTag::Withdraw.to_u8());
                e.write_to(out);
            },
            AutaraEvent::DepositCollateral(e) => {
                put_u8(out, AurataEventTag::DepositCollateral.to_u8());
                e.write_to(out);
            },
            AutaraEvent::WithdrawCollateral(e) => {
                put_u8(out, AurataEventTag::WithdrawCollateral.to_u8());
                e.write_to(out);
            },
            AutaraEvent::BorrowAndDeposit(e) => {
                put_u8(out, AurataEventTag::DepositAndBorrow.to_u8());
                e.write_to(out);
            },
            AutaraEvent::WithdrawAndRepay(e) => {
                put_u8(out, AurataEventTag::WithdrawAndRepay.to_u8());
                e.write_to(out);
            },
            AutaraEvent::Borrow(e) => {
                put_u8(out, AurataEventTag::Borrow.to_u8());
                e.write_to(out);
            },
            AutaraEvent::Repay(e) => {
                put_u8(out, AurataEventTag::Repay.to_u8());
                e.write_to(out);
            },
            AutaraEvent::ReedeemProtocolFees(e) => {
                put_u8(out, AurataEventTag::RedeemProtocolFees.to_u8());
                e.write_to(out);
            },
            AutaraEvent::ReedeemCuratorFees(e) => {
                put_u8(out, AurataEventTag::RedeemCuratorFees.to_u8());
                e.write_to(out);
            },
            AutaraEvent::SocializeLoss(e) => {
                put_u8(out, AurataEventTag::SocializeLoss.to_u8());
                e.write_to(out);
            },
            AutaraEvent::DonateSupply(e) => {
                put_u8(out, AurataEventTag::Donation.to_u8());
                e.write_to(out);
            },
        }
        proof {
            assert(out@ =~= old(out)@ + self.wire());
        }
    }
}

fn take_health(data: &[u8], pos: usize) -> (r: Option<(BorrowPositionHealth, usize)>)
    ensures
        r is Some <==> pos + 64 <= data@.len(),
        r matches Some((v, p)) ==> p == pos + 64 && data@.subrange(pos as int, p as int)
            == health_bytes(v),
{
    reveal(health_bytes);
    if pos > data.len() || data.len() - pos < 64 {
        return None;
    }
    let (ltv, p1) = take_fixed(data, pos).unwrap();
    let (borrowed_atoms, p2) = take_u64(data, p1).unwrap();
    let (collateral_atoms, p3) = take_u64(data, p2).unwrap();
    let (borrow_value, p4) = take_fixed(data, p3).unwrap();
    let (collateral_value, p5) = take_fixed(data, p4).unwrap();
    let v = BorrowPositionHealth {
        ltv,
        borrowed_atoms,
        collateral_atoms,
        borrow_value,
        collateral_value,
    };
    proof {
        let d = data@;
        assert(d.subrange(pos as int, p5 as int) =~= d.subrange(pos as int, p1 as int) + d.subrange(p1 as int, p2 as int) + d.subrange(p2 as int, p3 as int) + d.subrange(p3 as int, p4 as int) + d.subrange(
            p4 as int,
            p5 as int,
        ));
    }
    Some((v, p5))
}

fn take_summary(data: &[u8], pos: usize) -> (r: Option<(SupplyVaultSummary, usize)>)
    ensures
        r is Some <==> pos + 88 <= data@.len(),
        r matches Some((v, p)) ==> p == pos + 88 && data@.subrange(pos as int, p as int)
            == summary_bytes(v),
{
    reveal(summary_bytes);
    if pos > data.len() || data.len() - pos < 88 {
        return None;
    }
    let (last_update_unix_timestamp, p1) = take_i64(data, pos).unwrap();
    let (total_supply, p2) = take_u64(data, p1).unwrap();
    let (total_borrow, p3) = take_u64(data, p2).unwrap();
    let (pending_curator_fee_atoms, p4) = take_u64(data, p3).unwrap();
    let (pending_protocol_fee_atoms, p5) = take_u64(data, p4).unwrap();
    let (utilisation_rate, p6) = take_fixed(data, p5).unwrap();
    let (borrow_rate, p7) = take_fixed(data, p6).unwrap();
    let (lending_rate, p8) = take_fixed(data, p7).unwrap();
    let v = SupplyVaultSummary {
        last_update_unix_timestamp,
        total_supply,
        total_borrow,
        pending_curator_fee_atoms,
        pending_protocol_fee_atoms,
        utilisation_rate,
        borrow_interest_rate: InterestRatePerSecond(borrow_rate),
        lending_interest_rate: InterestRatePerSecond(lending_rate),
    };
    proof {
        let d = data@;
        assert(d.subrange(pos as int, p8 as int) =~= d.subrange(pos as int, p1 as int) + d.subrange(p1 as int, p2 as int) + d.subrange(p2 as int, p3 as int) + d.subrange(p3 as int, p4 as int) + d.subrange(
            p4 as int,
            p5 as int,
        ) + d.subrange(p5 as int, p6 as int) + d.subrange(p6 as int, p7 as int) + d.subrange(p7 as int, p8 as int));
    }
    Some((v, p8))
}

fn take_rate(data: &[u8], pos: usize) -> (r: Option<(OracleRate, usize)>)
    ensures
        r is Some <==> pos + 32 <= data@.len(),
        r matches Some((v, p)) ==> p == pos + 32 && data@.subrange(pos as int, p as int)
            == rate_bytes(v),
{
    reveal(rate_bytes);
    if pos > data.len() || data.len() - pos < 32 {
        return None;
    }
    let (rate, p1) = take_fixed(data, pos).unwrap();
    let (confidence, p2) = take_fixed(data, p1).unwrap();
    proof {
        let d = data@;
        assert(d.subrange(pos as int, p2 as int) =~= d.subrange(pos as int, p1 as int)
            + d.subrange(p1 as int, p2 as int));
    }
    Some((OracleRate { rate, confidence }, p2))
}

pub proof fn lemma_health_injective(a: BorrowPositionHealth, b: BorrowPositionHealth)
    requires
        health_bytes(a) == health_bytes(b),
    ensures
        a == b,
{
    reveal(health_bytes);
    assert(health_bytes(a) == fixed_bytes(a.ltv)
        + u64_bytes(a.borrowed_atoms)
        + u64_bytes(a.collateral_atoms)
        + fixed_bytes(a.borrow_value)
        + fixed_bytes(a.collateral_value));
    assert(health_bytes(b) == fixed_bytes(b.ltv)
        + u64_bytes(b.borrowed_atoms)
        + u64_bytes(b.collateral_atoms)
        + fixed_bytes(b.borrow_value)
        + fixed_bytes(b.collateral_value));
    lemma_concat_split(
        fixed_bytes(a.ltv)
            + u64_bytes(a.borrowed_atoms)
            + u64_bytes(a.collateral_atoms)
            + fixed_bytes(a.borrow_value),
        fixed_bytes(a.collateral_value),
        fixed_bytes(b.ltv)
            + u64_bytes(b.borrowed_atoms)
            + u64_bytes(b.collateral_atoms)
            + fixed_bytes(b.borrow_value),
        fixed_bytes(b.collateral_value),
    );
    lemma_fixed_bytes_injective(a.collateral_value, b.collateral_value);
    lemma_concat_split(
        fixed_bytes(a.ltv) + u64_bytes(a.borrowed_atoms) + u64_bytes(a.collateral_atoms),
        fixed_bytes(a.borrow_value),
        fixed_bytes(b.ltv) + u64_bytes(b.borrowed_atoms) + u64_bytes(b.collateral_atoms),
        fixed_bytes(b.borrow_value),
    );
    lemma_fixed_bytes_injective(a.borrow_value, b.borrow_value);
    lemma_concat_split(
        fixed_bytes(a.ltv) + u64_bytes(a.borrowed_atoms),
        u64_bytes(a.collateral_atoms),
        fixed_bytes(b.ltv) + u64_bytes(b.borrowed_atoms),
        u64_bytes(b.collateral_atoms),
    );
    lemma_u64_bytes_injective(a.collateral_atoms, b.collateral_atoms);
    lemma_concat_split(
        fixed_bytes(a.ltv),
        u64_bytes(a.borrowed_atoms),
        fixed_bytes(b.ltv),
        u64_bytes(b.borrowed_atoms),
    );
    lemma_u64_bytes_injective(a.borrowed_atoms, b.borrowed_atoms);
    lemma_fixed_bytes_injective(a.ltv, b.ltv);
}

pub proof fn lemma_summary_injective(a: SupplyVaultSummary, b: SupplyVaultSummary)
    requires
        summary_bytes(a) == summary_bytes(b),
    ensures
        a == b,
{
    reveal(summary_bytes);
    assert(summary_bytes(a) == i64_bytes(a.last_update_unix_timestamp)
        + u64_bytes(a.total_supply)
        + u64_bytes(a.total_borrow)
        + u64_bytes(a.pending_curator_fee_atoms)
        + u64_bytes(a.pending_protocol_fee_atoms)
        + fixed_bytes(a.utilisation_rate)
        + fixed_bytes(a.borrow_interest_rate.0)
        + fixed_bytes(a.lending_interest_rate.0));
    assert(summary_bytes(b) == i64_bytes(b.last_update_unix_timestamp)
        + u64_bytes(b.total_supply)
        + u64_bytes(b.total_borrow)
        + u64_bytes(b.pending_curator_fee_atoms)
        + u64_bytes(b.pending_protocol_fee_atoms)
        + fixed_bytes(b.utilisation_rate)
        + fixed_bytes(b.borrow_interest_rate.0)
        + fixed_bytes(b.lending_interest_rate.0));
    lemma_concat_split(
        i64_bytes(a.last_update_unix_timestamp)
            + u64_bytes(a.total_supply)
            + u64_bytes(a.total_borrow)
            + u64_bytes(a.pending_curator_fee_atoms)
            + u64_bytes(a.pending_protocol_fee_atoms)
            + fixed_bytes(a.utilisation_rate)
            + fixed_bytes(a.borrow_interest_rate.0),
        fixed_bytes(a.lending_interest_rate.0),
        i64_bytes(b.last_update_unix_timestamp)
            + u64_bytes(b.total_supply)
            + u64_bytes(b.total_borrow)
            + u64_bytes(b.pending_curator_fee_atoms)
            + u64_bytes(b.pending_protocol_fee_atoms)
            + fixed_bytes(b.utilisation_rate)
            + fixed_bytes(b.borrow_interest_rate.0),
        fixed_bytes(b.lending_interest_rate.0),
    );
    lemma_fixed_bytes_injective(a.lending_interest_rate.0, b.lending_interest_rate.0);
    lemma_concat_split(
        i64_bytes(a.last_update_unix_timestamp)
            + u64_bytes(a.total_supply)
            + u64_bytes(a.total_borrow)
            + u64_bytes(a.pending_curator_fee_atoms)
            + u64_bytes(a.pending_protocol_fee_atoms)
            + fixed_bytes(a.utilisation_rate),
        fixed_bytes(a.borrow_interest_rate.0),
        i64_bytes(b.last_update_unix_timestamp)
            + u64_bytes(b.total_supply)
            + u64_bytes(b.total_borrow)
            + u64_bytes(b.pending_curator_fee_atoms)
            + u64_bytes(b.pending_protocol_fee_atoms)
            + fixed_bytes(b.utilisation_rate),
        fixed_bytes(b.borrow_interest_rate.0),
    );
    lemma_fixed_bytes_injective(a.borrow_interest_rate.0, b.borrow_interest_rate.0);
    lemma_concat_split(
        i64_bytes(a.last_update_unix_timestamp)
            + u64_bytes(a.total_supply)
            + u64_bytes(a.total_borrow)
            + u64_bytes(a.pending_curator_fee_atoms)
            + u64_bytes(a.pending_protocol_fee_atoms),
        fixed_bytes(a.utilisation_rate),
        i64_bytes(b.last_update_unix_timestamp)
            + u64_bytes(b.total_supply)
            + u64_bytes(b.total_borrow)
            + u64_bytes(b.pending_curator_fee_atoms)
            + u64_bytes(b.pending_protocol_fee_atoms),
        fixed_bytes(b.utilisation_rate),
    );
    lemma_fixed_bytes_injective(a.utilisation_rate, b.utilisation_rate);
    lemma_concat_split(
        i64_bytes(a.last_update_unix_timestamp)
            + u64_bytes(a.total_supply)
            + u64_bytes(a.total_borrow)
            + u64_bytes(a.pending_curator_fee_atoms),
        u64_bytes(a.pending_protocol_fee_atoms),
        i64_bytes(b.last_update_unix_timestamp)
            + u64_bytes(b.total_supply)
            + u64_bytes(b.total_borrow)
            + u64_bytes(b.pending_curator_fee_atoms),
        u64_bytes(b.pending_protocol_fee_atoms),
    );
    lemma_u64_bytes_injective(a.pending_protocol_fee_atoms, b.pending_protocol_fee_atoms);
    lemma_concat_split(
        i64_bytes(a.last_update_unix_timestamp)
            + u64_bytes(a.total_supply)
            + u64_bytes(a.total_borrow),
        u64_bytes(a.pending_curator_fee_atoms),
        i64_bytes(b.last_update_unix_timestamp)
            + u64_bytes(b.total_supply)
            + u64_bytes(b.total_borrow),
        u64_bytes(b.pending_curator_fee_atoms),
    );
    lemma_u64_bytes_injective(a.pending_curator_fee_atoms, b.pending_curator_fee_atoms);
    lemma_concat_split(
        i64_bytes(a.last_update_unix_timestamp) + u64_bytes(a.total_supply),
        u64_bytes(a.total_borrow),
        i64_bytes(b.last_update_unix_timestamp) + u64_bytes(b.total_supply),
        u64_bytes(b.total_borrow),
    );
    lemma_u64_bytes_injective(a.total_borrow, b.total_borrow);
    lemma_concat_split(
        i64_bytes(a.last_update_unix_timestamp),
        u64_bytes(a.total_supply),
        i64_bytes(b.last_update_unix_timestamp),
        u64_bytes(b.total_supply),
    );
    lemma_u64_bytes_injective(a.total_supply, b.total_supply);
    lemma_i64_bytes_injective(a.last_update_unix_timestamp, b.last_update_unix_timestamp);
}

pub proof fn lemma_rate_injective(a: OracleRate, b: OracleRate)
    requires
        rate_bytes(a) == rate_bytes(b),
    ensures
        a == b,
{
    reveal(rate_bytes);
    assert(rate_bytes(a) == fixed_bytes(a.rate) + fixed_bytes(a.confidence));
    assert(rate_bytes(b) == fixed_bytes(b.rate) + fixed_bytes(b.confidence));
    lemma_concat_split(
        fixed_bytes(a.rate),
        fixed_bytes(a.confidence),
        fixed_bytes(b.rate),
        fixed_bytes(b.confidence),
    );
    lemma_fixed_bytes_injective(a.confidence, b.confidence);
    lemma_fixed_bytes_injective(a.rate, b.rate);
}

impl LiquidateEvent {
    /// Reads the fields from the bytes at `pos`.
    pub fn read_from(data: &[u8], pos: usize) -> (r: Option<(LiquidateEvent, usize)>)
        ensures
            r is Some <==> pos + 312 <= data@.len(),
            r matches Some((v, p)) ==> p == pos + 312 && data@.subrange(pos as int, p as int)
                == v.wire(),
    {
        if pos > data.len() || data.len() - pos < 312 {
            return None;
        }
        let (market, p1) = take_key(data, pos).unwrap();
        let (liquidator, p2) = take_key(data, p1).unwrap();
        proof {
            lemma_subrange_join(data@, pos as int, p1 as int, p2 as int);
        }
        let (liquidatee_position, p3) = take_key(data, p2).unwrap();
        proof {
            lemma_subrange_join(data@, pos as int, p2 as int, p3 as int);
        }
        let (supply_mint, p4) = take_key(data, p3).unwrap();
        proof {
            lemma_subrange_join(data@, pos as int, p3 as int, p4 as int);
        }
        let (collateral_mint, p5) = take_key(data, p4).unwrap();
        proof {
            lemma_subrange_join(data@, pos as int, p4 as int, p5 as int);
        }
        let (health_before_liquidation, p6) = take_health(data, p5).unwrap();
        proof {
            lemma_subrange_join(data@, pos as int, p5 as int, p6 as int);
        }
        let (health_after_liquidation, p7) = take_health(data, p6).unwrap();
        proof {
            lemma_subrange_join(data@, pos as int, p6 as int, p7 as int);
        }
        let (supply_repaid, p8) = take_u64(data, p7).unwrap();
        proof {
            lemma_subrange_join(data@, pos as int, p7 as int, p8 as int);
        }
        let (collateral_liquidated, p9) = take_u64(data, p8).unwrap();
        proof {
            lemma_subrange_join(data@, pos as int, p8 as int, p9 as int);
        }
        let (liquidator_fee, p10) = take_u64(data, p9).unwrap();
        proof {
            lemma_subrange_join(data@, pos as int, p9 as int, p10 as int);
        }
        let v = LiquidateEvent {
            market,
            liquidator,
            liquidatee_position,
            supply_mint,
            collateral_mint,
            health_before_liquidation,
            health_after_liquidation,
            supply_repaid,
            collateral_liquidated,
            liquidator_fee,
        };
        Some((v, p10))
    }

    pub proof fn lemma_wire_len(&self)
        ensures
            self.wire().len() == 312,
    {
        lemma_health_bytes_len(self.health_before_liquidation);
        lemma_health_bytes_len(self.health_after_liquidation);
    }

    pub proof fn lemma_wire_injective(a: LiquidateEvent, b: LiquidateEvent)
        requires
            a.wire() == b.wire(),
        ensures
            a == b,
    {
        lemma_health_bytes_len(a.health_before_liquidation);
        lemma_health_bytes_len(b.health_before_liquidation);
        lemma_health_bytes_len(a.health_after_liquidation);
        lemma_health_bytes_len(b.health_after_liquidation);
        assert(a.wire() == a.market.0@
            + a.liquidator.0@
            + a.liquidatee_position.0@
            + a.supply_mint.0@
            + a.collateral_mint.0@
            + health_bytes(a.health_before_liquidation)
            + health_bytes(a.health_after_liquidation)
            + u64_bytes(a.supply_repaid)
            + u64_bytes(a.collateral_liquidated)
            + u64_bytes(a.liquidator_fee));
        assert(b.wire() == b.market.0@
            + b.liquidator.0@
            + b.liquidatee_position.0@
            + b.supply_mint.0@
            + b.collateral_mint.0@
            + health_bytes(b.health_before_liquidation)
            + health_bytes(b.health_after_liquidation)
            + u64_bytes(b.supply_repaid)
            + u64_bytes(b.collateral_liquidated)
            + u64_bytes(b.liquidator_fee));
        lemma_concat_split(
            a.market.0@
                + a.liquidator.0@
                + a.liquidatee_position.0@
                + a.supply_mint.0@
                + a.collateral_mint.0@
                + health_bytes(a.health_before_liquidation)
                + health_bytes(a.health_after_liquidation)
                + u64_bytes(a.supply_repaid)
                + u64_bytes(a.collateral_liquidated),
            u64_bytes(a.liquidator_fee),
            b.market.0@
                + b.liquidator.0@
                + b.liquidatee_position.0@
                + b.supply_mint.0@
                + b.collateral_mint.0@
                + health_bytes(b.health_before_liquidation)
                + health_bytes(b.health_after_liquidation)
                + u64_bytes(b.supply_repaid)
                + u64_bytes(b.collateral_liquidated),
            u64_bytes(b.liquidator_fee),
        );
        lemma_u64_bytes_injective(a.liquidator_fee, b.liquidator_fee);
        lemma_concat_split(
            a.market.0@
                + a.liquidator.0@
                + a.liquidatee_position.0@
                + a.supply_mint.0@
                + a.collateral_mint.0@
                + health_bytes(a.health_before_liquidation)
                + health_bytes(a.health_after_liquidation)
                + u64_bytes(a.supply_repaid),
            u64_bytes(a.collateral_liquidated),
            b.market.0@
                + b.liquidator.0@
                + b.liquidatee_position.0@
                + b.supply_mint.0@
                + b.collateral_mint.0@
                + health_bytes(b.health_before_liquidation)
                + health_bytes(b.health_after_liquidation)
                + u64_bytes(b.supply_repaid),
            u64_bytes(b.collateral_liquidated),
        );
        lemma_u64_bytes_injective(a.collateral_liquidated, b.collateral_liquidated);
        lemma_concat_split(
            a.market.0@
                + a.liquidator.0@
                + a.liquidatee_position.0@
                + a.supply_mint.0@
                + a.collateral_mint.0@
                + health_bytes(a.health_before_liquidation)
                + health_bytes(a.health_after_liquidation),
            u64_bytes(a.supply_repaid),
            b.market.0@
                + b.liquidator.0@
                + b.liquidatee_position.0@
                + b.supply_mint.0@
                + b.collateral_mint.0@
                + health_bytes(b.health_before_liquidation)
                + health_bytes(b.health_after_liquidation),
            u64_bytes(b.supply_repaid),
        );
        lemma_u64_bytes_injective(a.supply_repaid, b.supply_repaid);
        lemma_concat_split(
            a.market.0@
                + a.liquidator.0@
                + a.liquidatee_position.0@
                + a.supply_mint.0@
                + a.collateral_mint.0@
                + health_bytes(a.health_before_liquidation),
            health_bytes(a.health_after_liquidation),
            b.market.0@
                + b.liquidator.0@
                + b.liquidatee_position.0@
                + b.supply_mint.0@
                + b.collateral_mint.0@
                + health_bytes(b.health_before_liquidation),
            health_bytes(b.health_after_liquidation),
        );
        lemma_health_injective(a.health_after_liquidation, b.health_after_liquidation);
        lemma_concat_split(
            a.market.0@
                + a.liquidator.0@
                + a.liquidatee_position.0@
                + a.supply_mint.0@
                + a.collateral_mint.0@,
            health_bytes(a.health_before_liquidation),
            b.market.0@
                + b.liquidator.0@
                + b.liquidatee_position.0@
                + b.supply_mint.0@
                + b.collateral_mint.0@,
            health_bytes(b.health_before_liquidation),
        );
        lemma_health_injective(a.health_before_liquidation, b.health_before_liquidation);
        lemma_concat_split(
            a.market.0@ + a.liquidator.0@ + a.liquidatee_position.0@ + a.supply_mint.0@,
            a.collateral_mint.0@,
            b.market.0@ + b.liquidator.0@ + b.liquidatee_position.0@ + b.supply_mint.0@,
            b.collateral_mint.0@,
        );
        lemma_key_injective(a.collateral_mint, b.collateral_mint);
        lemma_concat_split(
            a.market.0@ + a.liquidator.0@ + a.liquidatee_position.0@,
            a.supply_mint.0@,
            b.market.0@ + b.liquidator.0@ + b.liquidatee_position.0@,
            b.supply_mint.0@,
        );
        lemma_key_injective(a.supply_mint, b.supply_mint);
        lemma_concat_split(
            a.market.0@ + a.liquidator.0@,
            a.liquidatee_position.0@,
            b.market.0@ + b.liquidator.0@,
            b.liquidatee_position.0@,
        );
        lemma_key_injective(a.liquidatee_position, b.liquidatee_position);
        lemma_concat_split(a.market.0@, a.liquidator.0@, b.market.0@, b.liquidator.0@);
        lemma_key_injective(a.liquidator, b.liquidator);
        lemma_key_injective(a.market, b.market);
    }

}

impl SingleMarketTransactionEvent {
    /// Reads the fields from the bytes at `pos`.
    pub fn read_from(data: &[u8], pos: usize) -> (r: Option<(SingleMarketTransactionEvent, usize)>)
        ensures
            r is Some <==> pos + 296 <= data@.len(),
            r matches Some((v, p)) ==> p == pos + 296 && data@.subrange(pos as int, p as int)
                == v.wire(),
    {
        if pos > data.len() || data.len() - pos < 296 {
            return None;
        }
        let (market, p1) = take_key(data, pos).unwrap();
        let (user, p2) = take_key(data, p1).unwrap();
        proof {
            lemma_subrange_join(data@, pos as int, p1 as int, p2 as int);
        }
        let (position, p3) = take_key(data, p2).unwrap();
        proof {
            lemma_subrange_join(data@, pos as int, p2 as int, p3 as int);
        }
        let (mint, p4) = take_key(data, p3).unwrap();
        proof {
            lemma_subrange_join(data@, pos as int, p3 as int, p4 as int);
        }
        let (amount, p5) = take_u64(data, p4).unwrap();
        proof {
            lemma_subrange_join(data@, pos as int, p4 as int, p5 as int);
        }
        let (supply_vault_summary, p6) = take_summary(data, p5).unwrap();
        proof {
            lemma_subrange_join(data@, pos as int, p5 as int, p6 as int);
        }
        let (collateral_vault_atoms, p7) = take_u64(data, p6).unwrap();
        proof {
            lemma_subrange_join(data@, pos as int, p6 as int, p7 as int);
        }
        let (supply_oracle_rate, p8) = take_rate(data, p7).unwrap();
        proof {
            lemma_subrange_join(data@, pos as int, p7 as int, p8 as int);
        }
        let (collateral_oracle_rate, p9) = take_rate(data, p8).unwrap();
        proof {
            lemma_subrange_join(data@, pos as int, p8 as int, p9 as int);
        }
        let v = SingleMarketTransactionEvent {
            market,
            user,
            position,
            mint,
            amount,
            supply_vault_summary,
            collateral_vault_atoms,
            supply_oracle_rate,
            collateral_oracle_rate,
        };
        Some((v, p9))
    }

    pub proof fn lemma_wire_len(&self)
        ensures
            self.wire().len() == 296,
    {
        lemma_summary_bytes_len(self.supply_vault_summary);
        lemma_rate_bytes_len(self.supply_oracle_rate);
        lemma_rate_bytes_len(self.collateral_oracle_rate);
    }

    pub proof fn lemma_wire_injective(
        a: SingleMarketTransactionEvent,
        b: SingleMarketTransactionEvent,
    )
        requires
            a.wire() == b.wire(),
        ensures
            a == b,
    {
        lemma_summary_bytes_len(a.supply_vault_summary);
        lemma_summary_bytes_len(b.supply_vault_summary);
        lemma_rate_bytes_len(a.supply_oracle_rate);
        lemma_rate_bytes_len(b.supply_oracle_rate);
        lemma_rate_bytes_len(a.collateral_oracle_rate);
        lemma_rate_bytes_len(b.collateral_oracle_rate);
        assert(a.wire() == a.market.0@
            + a.user.0@
            + a.position.0@
            + a.mint.0@
            + u64_bytes(a.amount)
            + summary_bytes(a.supply_vault_summary)
            + u64_bytes(a.collateral_vault_atoms)
            + rate_bytes(a.supply_oracle_rate)
            + rate_bytes(a.collateral_oracle_rate));
        assert(b.wire() == b.market.0@
            + b.user.0@
            + b.position.0@
            + b.mint.0@
            + u64_bytes(b.amount)
            + summary_bytes(b.supply_vault_summary)
            + u64_bytes(b.collateral_vault_atoms)
            + rate_bytes(b.supply_oracle_rate)
            + rate_bytes(b.collateral_oracle_rate));
        lemma_concat_split(
            a.market.0@
                + a.user.0@
                + a.position.0@
                + a.mint.0@
                + u64_bytes(a.amount)
                + summary_bytes(a.supply_vault_summary)
                + u64_bytes(a.collateral_vault_atoms)
                + rate_bytes(a.supply_oracle_rate),
            rate_bytes(a.collateral_oracle_rate),
            b.market.0@
                + b.user.0@
                + b.position.0@
                + b.mint.0@
                + u64_bytes(b.amount)
                + summary_bytes(b.supply_vault_summary)
                + u64_bytes(b.collateral_vault_atoms)
                + rate_bytes(b.supply_oracle_rate),
            rate_bytes(b.collateral_oracle_rate),
        );
        lemma_rate_injective(a.collateral_oracle_rate, b.collateral_oracle_rate);
        lemma_concat_split(
            a.market.0@
                + a.user.0@
                + a.position.0@
                + a.mint.0@
                + u64_bytes(a.amount)
                + summary_bytes(a.supply_vault_summary)
                + u64_bytes(a.collateral_vault_atoms),
            rate_bytes(a.supply_oracle_rate),
            b.market.0@
                + b.user.0@
                + b.position.0@
                + b.mint.0@
                + u64_bytes(b.amount)
                + summary_bytes(b.supply_vault_summary)
                + u64_bytes(b.collateral_vault_atoms),
            rate_bytes(b.supply_oracle_rate),
        );
        lemma_rate_injective(a.supply_oracle_rate, b.supply_oracle_rate);
        lemma_concat_split(
            a.market.0@
                + a.user.0@
                + a.position.0@
                + a.mint.0@
                + u64_bytes(a.amount)
                + summary_bytes(a.supply_vault_summary),
            u64_bytes(a.collateral_vault_atoms),
            b.market.0@
                + b.user.0@
                + b.position.0@
                + b.mint.0@
                + u64_bytes(b.amount)
                + summary_bytes(b.supply_vault_summary),
            u64_bytes(b.collateral_vault_atoms),
        );
        lemma_u64_bytes_injective(a.collateral_vault_atoms, b.collateral_vault_atoms);
        lemma_concat_split(
            a.market.0@ + a.user.0@ + a.position.0@ + a.mint.0@ + u64_bytes(a.amount),
            summary_bytes(a.supply_vault_summary),
            b.market.0@ + b.user.0@ + b.position.0@ + b.mint.0@ + u64_bytes(b.amount),
            summary_bytes(b.supply_vault_summary),
        );
        lemma_summary_injective(a.supply_vault_summary, b.supply_vault_summary);
        lemma_concat_split(
            a.market.0@ + a.user.0@ + a.position.0@ + a.mint.0@,
            u64_bytes(a.amount),
            b.market.0@ + b.user.0@ + b.position.0@ + b.mint.0@,
            u64_bytes(b.amount),
        );
        lemma_u64_bytes_injective(a.amount, b.amount);
        lemma_concat_split(
            a.market.0@ + a.user.0@ + a.position.0@,
            a.mint.0@,
            b.market.0@ + b.user.0@ + b.position.0@,
            b.mint.0@,
        );
        lemma_key_injective(a.mint, b.mint);
        lemma_concat_split(
            a.market.0@ + a.user.0@,
            a.position.0@,
            b.market.0@ + b.user.0@,
            b.position.0@,
        );
        lemma_key_injective(a.position, b.position);
        lemma_concat_split(a.market.0@, a.user.0@, b.market.0@, b.user.0@);
        lemma_key_injective(a.user, b.user);
        lemma_key_injective(a.market, b.market);
    }

}

impl DoubleMarketTransactionEvent {
    /// Reads the fields from the bytes at `pos`.
    pub fn read_from(data: &[u8], pos: usize) -> (r: Option<(DoubleMarketTransactionEvent, usize)>)
        ensures
            r is Some <==> pos + 336 <= data@.len(),
            r matches Some((v, p)) ==> p == pos + 336 && data@.subrange(pos as int, p as int)
                == v.wire(),
    {
        if pos > data.len() || data.len() - pos < 336 {
            return None;
        }
        let (market, p1) = take_key(data, pos).unwrap();
        let (user, p2) = take_key(data, p1).unwrap();
        proof {
            lemma_subrange_join(data@, pos as int, p1 as int, p2 as int);
        }
        let (position, p3) = take_key(data, p2).unwrap();
        proof {
            lemma_subrange_join(data@, pos as int, p2 as int, p3 as int);
        }
        let (mint_in, p4) = take_key(data, p3).unwrap();
        proof {
            lemma_subrange_join(data@, pos as int, p3 as int, p4 as int);
        }
        let (amount_in, p5) = take_u64(data, p4).unwrap();
        proof {
            lemma_subrange_join(data@, pos as int, p4 as int, p5 as int);
        }
        let (mint_out, p6) = take_key(data, p5).unwrap();
        proof {
            lemma_subrange_join(data@, pos as int, p5 as int, p6 as int);
        }
        let (amount_out, p7) = take_u64(data, p6).unwrap();
        proof {
            lemma_subrange_join(data@, pos as int, p6 as int, p7 as int);
        }
        let (supply_vault_summary, p8) = take_summary(data, p7).unwrap();
        proof {
            lemma_subrange_join(data@, pos as int, p7 as int, p8 as int);
        }
        let (collateral_vault_atoms, p9) = take_u64(data, p8).unwrap();
        proof {
            lemma_subrange_join(data@, pos as int, p8 as int, p9 as int);
        }
        let (supply_oracle_rate, p10) = take_rate(data, p9).unwrap();
        proof {
            lemma_subrange_join(data@, pos as int, p9 as int, p10 as int);
        }
        let (collateral_oracle_rate, p11) = take_rate(data, p10).unwrap();
        proof {
            lemma_subrange_join(data@, pos as int, p10 as int, p11 as int);
        }
        let v = DoubleMarketTransactionEvent {
            market,
            user,
            position,
            mint_in,
            amount_in,
            mint_out,
            amount_out,
            supply_vault_summary,
            collateral_vault_atoms,
            supply_oracle_rate,
            collateral_oracle_rate,
        };
        Some((v, p11))
    }

    pub proof fn lemma_wire_len(&self)
        ensures
            self.wire().len() == 336,
    {
        lemma_summary_bytes_len(self.supply_vault_summary);
        lemma_rate_bytes_len(self.supply_oracle_rate);
        lemma_rate_bytes_len(self.collateral_oracle_rate);
    }

    pub proof fn lemma_wire_injective(
        a: DoubleMarketTransactionEvent,
        b: DoubleMarketTransactionEvent,
    )
        requires
            a.wire() == b.wire(),
        ensures
            a == b,
    {
        lemma_summary_bytes_len(a.supply_vault_summary);
        lemma_summary_bytes_len(b.supply_vault_summary);
        lemma_rate_bytes_len(a.supply_oracle_rate);
        lemma_rate_bytes_len(b.supply_oracle_rate);
        lemma_rate_bytes_len(a.collateral_oracle_rate);
        lemma_rate_bytes_len(b.collateral_oracle_rate);
        assert(a.wire() == a.market.0@
            + a.user.0@
            + a.position.0@
            + a.mint_in.0@
            + u64_bytes(a.amount_in)
            + a.mint_out.0@
            + u64_bytes(a.amount_out)
            + summary_bytes(a.supply_vault_summary)
            + u64_bytes(a.collateral_vault_atoms)
            + rate_bytes(a.supply_oracle_rate)
            + rate_bytes(a.collateral_oracle_rate));
        assert(b.wire() == b.market.0@
            + b.user.0@
            + b.position.0@
            + b.mint_in.0@
            + u64_bytes(b.amount_in)
            + b.mint_out.0@
            + u64_bytes(b.amount_out)
            + summary_bytes(b.supply_vault_summary)
            + u64_bytes(b.collateral_vault_atoms)
            + rate_bytes(b.supply_oracle_rate)
            + rate_bytes(b.collateral_oracle_rate));
        lemma_concat_split(
            a.market.0@
                + a.user.0@
                + a.position.0@
                + a.mint_in.0@
                + u64_bytes(a.amount_in)
                + a.mint_out.0@
                + u64_bytes(a.amount_out)
                + summary_bytes(a.supply_vault_summary)
                + u64_bytes(a.collateral_vault_atoms)
                + rate_bytes(a.supply_oracle_rate),
            rate_bytes(a.collateral_oracle_rate),
            b.market.0@
                + b.user.0@
                + b.position.0@
                + b.mint_in.0@
                + u64_bytes(b.amount_in)
                + b.mint_out.0@
                + u64_bytes(b.amount_out)
                + summary_bytes(b.supply_vault_summary)
                + u64_bytes(b.collateral_vault_atoms)
                + rate_bytes(b.supply_oracle_rate),
            rate_bytes(b.collateral_oracle_rate),
        );
        lemma_rate_injective(a.collateral_oracle_rate, b.collateral_oracle_rate);
        lemma_concat_split(
            a.market.0@
                + a.user.0@
                + a.position.0@
                + a.mint_in.0@
                + u64_bytes(a.amount_in)
                + a.mint_out.0@
                + u64_bytes(a.amount_out)
                + summary_bytes(a.supply_vault_summary)
                + u64_bytes(a.collateral_vault_atoms),
            rate_bytes(a.supply_oracle_rate),
            b.market.0@
                + b.user.0@
                + b.position.0@
                + b.mint_in.0@
                + u64_bytes(b.amount_in)
                + b.mint_out.0@
                + u64_bytes(b.amount_out)
                + summary_bytes(b.supply_vault_summary)
                + u64_bytes(b.collateral_vault_atoms),
            rate_bytes(b.supply_oracle_rate),
        );
        lemma_rate_injective(a.supply_oracle_rate, b.supply_oracle_rate);
        lemma_concat_split(
            a.market.0@
                + a.user.0@
                + a.position.0@
                + a.mint_in.0@
                + u64_bytes(a.amount_in)
                + a.mint_out.0@
                + u64_bytes(a.amount_out)
                + summary_bytes(a.supply_vault_summary),
            u64_bytes(a.collateral_vault_atoms),
            b.market.0@
                + b.user.0@
                + b.position.0@
                + b.mint_in.0@
                + u64_bytes(b.amount_in)
                + b.mint_out.0@
                + u64_bytes(b.amount_out)
                + summary_bytes(b.supply_vault_summary),
            u64_bytes(b.collateral_vault_atoms),
        );
        lemma_u64_bytes_injective(a.collateral_vault_atoms, b.collateral_vault_atoms);
        lemma_concat_split(
            a.market.0@
                + a.user.0@
                + a.position.0@
                + a.mint_in.0@
                + u64_bytes(a.amount_in)
                + a.mint_out.0@
                + u64_bytes(a.amount_out),
            summary_bytes(a.supply_vault_summary),
            b.market.0@
                + b.user.0@
                + b.position.0@
                + b.mint_in.0@
                + u64_bytes(b.amount_in)
                + b.mint_out.0@
                + u64_bytes(b.amount_out),
            summary_bytes(b.supply_vault_summary),
        );
        lemma_summary_injective(a.supply_vault_summary, b.supply_vault_summary);
        lemma_concat_split(
            a.market.0@
                + a.user.0@
                + a.position.0@
                + a.mint_in.0@
                + u64_bytes(a.amount_in)
                + a.mint_out.0@,
            u64_bytes(a.amount_out),
            b.market.0@
                + b.user.0@
                + b.position.0@
                + b.mint_in.0@
                + u64_bytes(b.amount_in)
                + b.mint_out.0@,
            u64_bytes(b.amount_out),
        );
        lemma_u64_bytes_injective(a.amount_out, b.amount_out);
        lemma_concat_split(
            a.market.0@ + a.user.0@ + a.position.0@ + a.mint_in.0@ + u64_bytes(a.amount_in),
            a.mint_out.0@,
            b.market.0@ + b.user.0@ + b.position.0@ + b.mint_in.0@ + u64_bytes(b.amount_in),
            b.mint_out.0@,
        );
        lemma_key_injective(a.mint_out, b.mint_out);
        lemma_concat_split(
            a.market.0@ + a.user.0@ + a.position.0@ + a.mint_in.0@,
            u64_bytes(a.amount_in),
            b.market.0@ + b.user.0@ + b.position.0@ + b.mint_in.0@,
            u64_bytes(b.amount_in),
        );
        lemma_u64_bytes_injective(a.amount_in, b.amount_in);
        lemma_concat_split(
            a.market.0@ + a.user.0@ + a.position.0@,
            a.mint_in.0@,
            b.market.0@ + b.user.0@ + b.position.0@,
            b.mint_in.0@,
        );
        lemma_key_injective(a.mint_in, b.mint_in);
        lemma_concat_split(
            a.market.0@ + a.user.0@,
            a.position.0@,
            b.market.0@ + b.user.0@,
            b.position.0@,
        );
        lemma_key_injective(a.position, b.position);
        lemma_concat_split(a.market.0@, a.user.0@, b.market.0@, b.user.0@);
        lemma_key_injective(a.user, b.user);
        lemma_key_injective(a.market, b.market);
    }

}

impl ReedeemFeeEvent {
    /// Reads the fields from the bytes at `pos`.
    pub fn read_from(data: &[u8], pos: usize) -> (r: Option<(ReedeemFeeEvent, usize)>)
        ensures
            r is Some <==> pos + 192 <= data@.len(),
            r matches Some((v, p)) ==> p == pos + 192 && data@.subrange(pos as int, p as int)
                == v.wire(),
    {
        if pos > data.len() || data.len() - pos < 192 {
            return None;
        }
        let (market, p1) = take_key(data, pos).unwrap();
        let (fee_receiver, p2) = take_key(data, p1).unwrap();
        proof {
            lemma_subrange_join(data@, pos as int, p1 as int, p2 as int);
        }
        let (fee_amount, p3) = take_u64(data, p2).unwrap();
        proof {
            lemma_subrange_join(data@, pos as int, p2 as int, p3 as int);
        }
        let (mint, p4) = take_key(data, p3).unwrap();
        proof {
            lemma_subrange_join(data@, pos as int, p3 as int, p4 as int);
        }
        let (supply_vault_snapshot, p5) = take_summary(data, p4).unwrap();
        proof {
            lemma_subrange_join(data@, pos as int, p4 as int, p5 as int);
        }
        let v = ReedeemFeeEvent { market, fee_receiver, fee_amount, mint, supply_vault_snapshot };
        Some((v, p5))
    }

    pub proof fn lemma_wire_len(&self)
        ensures
            self.wire().len() == 192,
    {
        lemma_summary_bytes_len(self.supply_vault_snapshot);
    }

    pub proof fn lemma_wire_injective(a: ReedeemFeeEvent, b: ReedeemFeeEvent)
        requires
            a.wire() == b.wire(),
        ensures
            a == b,
    {
        lemma_summary_bytes_len(a.supply_vault_snapshot);
        lemma_summary_bytes_len(b.supply_vault_snapshot);
        assert(a.wire() == a.market.0@
            + a.fee_receiver.0@
            + u64_bytes(a.fee_amount)
            + a.mint.0@
            + summary_bytes(a.supply_vault_snapshot));
        assert(b.wire() == b.market.0@
            + b.fee_receiver.0@
            + u64_bytes(b.fee_amount)
            + b.mint.0@
            + summary_bytes(b.supply_vault_snapshot));
        lemma_concat_split(
            a.market.0@ + a.fee_receiver.0@ + u64_bytes(a.fee_amount) + a.mint.0@,
            summary_bytes(a.supply_vault_snapshot),
            b.market.0@ + b.fee_receiver.0@ + u64_bytes(b.fee_amount) + b.mint.0@,
            summary_bytes(b.supply_vault_snapshot),
        );
        lemma_summary_injective(a.supply_vault_snapshot, b.supply_vault_snapshot);
        lemma_concat_split(
            a.market.0@ + a.fee_receiver.0@ + u64_bytes(a.fee_amount),
            a.mint.0@,
            b.market.0@ + b.fee_receiver.0@ + u64_bytes(b.fee_amount),
            b.mint.0@,
        );
        lemma_key_injective(a.mint, b.mint);
        lemma_concat_split(
            a.market.0@ + a.fee_receiver.0@,
            u64_bytes(a.fee_amount),
            b.market.0@ + b.fee_receiver.0@,
            u64_bytes(b.fee_amount),
        );
        lemma_u64_bytes_injective(a.fee_amount, b.fee_amount);
        lemma_concat_split(a.market.0@, a.fee_receiver.0@, b.market.0@, b.fee_receiver.0@);
        lemma_key_injective(a.fee_receiver, b.fee_receiver);
        lemma_key_injective(a.market, b.market);
    }

}

impl SocializeLossEvent {
    /// Reads the fields from the bytes at `pos`.
    pub fn read_from(data: &[u8], pos: usize) -> (r: Option<(SocializeLossEvent, usize)>)
        ensures
            r is Some <==> pos + 80 <= data@.len(),
            r matches Some((v, p)) ==> p == pos + 80 && data@.subrange(pos as int, p as int)
                == v.wire(),
    {
        if pos > data.len() || data.len() - pos < 80 {
            return None;
        }
        let (market, p1) = take_key(data, pos).unwrap();
        let (position, p2) = take_key(data, p1).unwrap();
        proof {
            lemma_subrange_join(data@, pos as int, p1 as int, p2 as int);
        }
        let (debt_socialized, p3) = take_u64(data, p2).unwrap();
        proof {
            lemma_subrange_join(data@, pos as int, p2 as int, p3 as int);
        }
        let (collateral_liquidated, p4) = take_u64(data, p3).unwrap();
        proof {
            lemma_subrange_join(data@, pos as int, p3 as int, p4 as int);
        }
        let v = SocializeLossEvent { market, position, debt_socialized, collateral_liquidated };
        Some((v, p4))
    }

    pub proof fn lemma_wire_len(&self)
        ensures
            self.wire().len() == 80,
    {
    }

    pub proof fn lemma_wire_injective(a: SocializeLossEvent, b: SocializeLossEvent)
        requires
            a.wire() == b.wire(),
        ensures
            a == b,
    {

        assert(a.wire() == a.market.0@
            + a.position.0@
            + u64_bytes(a.debt_socialized)
            + u64_bytes(a.collateral_liquidated));
        assert(b.wire() == b.market.0@
            + b.position.0@
            + u64_bytes(b.debt_socialized)
            + u64_bytes(b.collateral_liquidated));
        lemma_concat_split(
            a.market.0@ + a.position.0@ + u64_bytes(a.debt_socialized),
            u64_bytes(a.collateral_liquidated),
            b.market.0@ + b.position.0@ + u64_bytes(b.debt_socialized),
            u64_bytes(b.collateral_liquidated),
        );
        lemma_u64_bytes_injective(a.collateral_liquidated, b.collateral_liquidated);
        lemma_concat_split(
            a.market.0@ + a.position.0@,
            u64_bytes(a.debt_socialized),
            b.market.0@ + b.position.0@,
            u64_bytes(b.debt_socialized),
        );
        lemma_u64_bytes_injective(a.debt_socialized, b.debt_socialized);
        lemma_concat_split(a.market.0@, a.position.0@, b.market.0@, b.position.0@);
        lemma_key_injective(a.position, b.position);
        lemma_key_injective(a.market, b.market);
    }

}

impl DonateSupplyEvent {
    /// Reads the fields from the bytes at `pos`.
    pub fn read_from(data: &[u8], pos: usize) -> (r: Option<(DonateSupplyEvent, usize)>)
        ensures
            r is Some <==> pos + 104 <= data@.len(),
            r matches Some((v, p)) ==> p == pos + 104 && data@.subrange(pos as int, p as int)
                == v.wire(),
    {
        if pos > data.len() || data.len() - pos < 104 {
            return None;
        }
        let (market, p1) = take_key(data, pos).unwrap();
        let (donor, p2) = take_key(data, p1).unwrap();
        proof {
            lemma_subrange_join(data@, pos as int, p1 as int, p2 as int);
        }
        let (mint, p3) = take_key(data, p2).unwrap();
        proof {
            lemma_subrange_join(data@, pos as int, p2 as int, p3 as int);
        }
        let (amount, p4) = take_u64(data, p3).unwrap();
        proof {
            lemma_subrange_join(data@, pos as int, p3 as int, p4 as int);
        }
        let v = DonateSupplyEvent { market, donor, mint, amount };
        Some((v, p4))
    }

    pub proof fn lemma_wire_len(&self)
        ensures
            self.wire().len() == 104,
    {
    }

    pub proof fn lemma_wire_injective(a: DonateSupplyEvent, b: DonateSupplyEvent)
        requires
            a.wire() == b.wire(),
        ensures
            a == b,
    {

        assert(a.wire() == a.market.0@ + a.donor.0@ + a.mint.0@ + u64_bytes(a.amount));
        assert(b.wire() == b.market.0@ + b.donor.0@ + b.mint.0@ + u64_bytes(b.amount));
        lemma_concat_split(
            a.market.0@ + a.donor.0@ + a.mint.0@,
            u64_bytes(a.amount),
            b.market.0@ + b.donor.0@ + b.mint.0@,
            u64_bytes(b.amount),
        );
        lemma_u64_bytes_injective(a.amount, b.amount);
        lemma_concat_split(
            a.market.0@ + a.donor.0@,
            a.mint.0@,
            b.market.0@ + b.donor.0@,
            b.mint.0@,
        );
        lemma_key_injective(a.mint, b.mint);
        lemma_concat_split(a.market.0@, a.donor.0@, b.market.0@, b.donor.0@);
        lemma_key_injective(a.donor, b.donor);
        lemma_key_injective(a.market, b.market);
    }

}

/// The number of bytes after the tag of an event of kind `tag`.
pub open spec fn payload_len(tag: AurataEventTag) -> nat {
    match tag {
            AurataEventTag::Liquidate => 312,
            AurataEventTag::Supply => 296,
            AurataEventTag::Withdraw => 296,
            AurataEventTag::DepositCollateral => 296,
            AurataEventTag::WithdrawCollateral => 296,
            AurataEventTag::DepositAndBorrow => 336,
            AurataEventTag::WithdrawAndRepay => 336,
            AurataEventTag::Borrow => 296,
            AurataEventTag::Repay => 296,
            AurataEventTag::RedeemProtocolFees => 192,
            AurataEventTag::RedeemCuratorFees => 192,
            AurataEventTag::SocializeLoss => 80,
            AurataEventTag::Donation => 104,
    }
}

/// Whether the bytes of `d` at `pos` begin with those of `e`.
pub open spec fn event_at(d: Seq<u8>, pos: int, e: AutaraEvent) -> bool {
    0 <= pos && pos + e.wire().len() <= d.len() && d.subrange(pos, pos + e.wire().len()) == e.wire()
}

impl AutaraEvent {
    pub proof fn lemma_wire_len(&self)
        ensures
            self.wire().len() == 1 + payload_len(self.spec_tag()),
            self.wire()[0] == self.spec_tag().spec_byte(),
    {
        match *self {
            AutaraEvent::Liquidate(e) => e.lemma_wire_len(),
            AutaraEvent::Supply(e) => e.lemma_wire_len(),
            AutaraEvent::Withdraw(e) => e.lemma_wire_len(),
            AutaraEvent::DepositCollateral(e) => e.lemma_wire_len(),
            AutaraEvent::WithdrawCollateral(e) => e.lemma_wire_len(),
            AutaraEvent::BorrowAndDeposit(e) => e.lemma_wire_len(),
            AutaraEvent::WithdrawAndRepay(e) => e.lemma_wire_len(),
            AutaraEvent::Borrow(e) => e.lemma_wire_len(),
            AutaraEvent::Repay(e) => e.lemma_wire_len(),
            AutaraEvent::ReedeemProtocolFees(e) => e.lemma_wire_len(),
            AutaraEvent::ReedeemCuratorFees(e) => e.lemma_wire_len(),
            AutaraEvent::SocializeLoss(e) => e.lemma_wire_len(),
            AutaraEvent::DonateSupply(e) => e.lemma_wire_len(),
        }
    }

    /// Two events with the same bytes are the same event.
    pub proof fn lemma_wire_injective(a: AutaraEvent, b: AutaraEvent)
        requires
            a.wire() == b.wire(),
        ensures
            a == b,
    {
        a.lemma_wire_len();
        b.lemma_wire_len();
        assert(a.spec_tag().spec_byte() == b.spec_tag().spec_byte());
        assert(a.spec_tag() == b.spec_tag());
        let pa = a.wire().subrange(1, a.wire().len() as int);
        let pb = b.wire().subrange(1, b.wire().len() as int);
        assert(a.wire() =~= seq![a.spec_tag().spec_byte()] + pa);
        assert(b.wire() =~= seq![b.spec_tag().spec_byte()] + pb);
        match (a, b) {
            (AutaraEvent::Liquidate(x), AutaraEvent::Liquidate(y)) => {
                assert(pa =~= x.wire());
                assert(pb =~= y.wire());
                LiquidateEvent::lemma_wire_injective(x, y);
            },
            (AutaraEvent::Supply(x), AutaraEvent::Supply(y)) => {
                assert(pa =~= x.wire());
                assert(pb =~= y.wire());
                SingleMarketTransactionEvent::lemma_wire_injective(x, y);
            },
            (AutaraEvent::Withdraw(x), AutaraEvent::Withdraw(y)) => {
                assert(pa =~= x.wire());
                assert(pb =~= y.wire());
                SingleMarketTransactionEvent::lemma_wire_injective(x, y);
            },
            (AutaraEvent::DepositCollateral(x), AutaraEvent::DepositCollateral(y)) => {
                assert(pa =~= x.wire());
                assert(pb =~= y.wire());
                SingleMarketTransactionEvent::lemma_wire_injective(x, y);
            },
            (AutaraEvent::WithdrawCollateral(x), AutaraEvent::WithdrawCollateral(y)) => {
                assert(pa =~= x.wire());
                assert(pb =~= y.wire());
                SingleMarketTransactionEvent::lemma_wire_injective(x, y);
            },
            (AutaraEvent::BorrowAndDeposit(x), AutaraEvent::BorrowAndDeposit(y)) => {
                assert(pa =~= x.wire());
                assert(pb =~= y.wire());
                DoubleMarketTransactionEvent::lemma_wire_injective(x, y);
            },
            (AutaraEvent::WithdrawAndRepay(x), AutaraEvent::WithdrawAndRepay(y)) => {
                assert(pa =~= x.wire());
                assert(pb =~= y.wire());
                DoubleMarketTransactionEvent::lemma_wire_injective(x, y);
            },
            (AutaraEvent::Borrow(x), AutaraEvent::Borrow(y)) => {
                assert(pa =~= x.wire());
                assert(pb =~= y.wire());
                SingleMarketTransactionEvent::lemma_wire_injective(x, y);
            },
            (AutaraEvent::Repay(x), AutaraEvent::Repay(y)) => {
                assert(pa =~= x.wire());
                assert(pb =~= y.wire());
                SingleMarketTransactionEvent::lemma_wire_injective(x, y);
            },
            (AutaraEvent::ReedeemProtocolFees(x), AutaraEvent::ReedeemProtocolFees(y)) => {
                assert(pa =~= x.wire());
                assert(pb =~= y.wire());
                ReedeemFeeEvent::lemma_wire_injective(x, y);
            },
            (AutaraEvent::ReedeemCuratorFees(x), AutaraEvent::ReedeemCuratorFees(y)) => {
                assert(pa =~= x.wire());
                assert(pb =~= y.wire());
                ReedeemFeeEvent::lemma_wire_injective(x, y);
            },
            (AutaraEvent::SocializeLoss(x), AutaraEvent::SocializeLoss(y)) => {
                assert(pa =~= x.wire());
                assert(pb =~= y.wire());
                SocializeLossEvent::lemma_wire_injective(x, y);
            },
            (AutaraEvent::DonateSupply(x), AutaraEvent::DonateSupply(y)) => {
                assert(pa =~= x.wire());
                assert(pb =~= y.wire());
                DonateSupplyEvent::lemma_wire_injective(x, y);
            },
            _ => {},
        }
    }

    /// At most one event begins at a given place.
    pub proof fn lemma_event_at_unique(d: Seq<u8>, pos: int, a: AutaraEvent, b: AutaraEvent)
        requires
            event_at(d, pos, a),
            event_at(d, pos, b),
        ensures
            a == b,
    {
        a.lemma_wire_len();
        b.lemma_wire_len();
        assert(a.wire()[0] == d[pos]);
        assert(b.wire()[0] == d[pos]);
        assert(a.spec_tag() == b.spec_tag());
        assert(a.wire() =~= b.wire());
        AutaraEvent::lemma_wire_injective(a, b);
    }

    /// Reads the event whose bytes begin at `pos`, if any.
    pub fn read_from(data: &[u8], pos: usize) -> (r: Option<(AutaraEvent, usize)>)
        ensures
            r matches Some((e, p)) ==> event_at(data@, pos as int, e) && p == pos + e.wire().len(),
            r is None ==> forall|e: AutaraEvent| !#[trigger] event_at(data@, pos as int, e),
    {
        let (byte, p0) = match take_u8(data, pos) {
            Some(x) => x,
            None => {
                proof {
                    assert forall|e: AutaraEvent| !#[trigger] event_at(data@, pos as int, e) by {
                        e.lemma_wire_len();
                    }
                }
                return None;
            },
        };
        proof {
            assert(data@.subrange(pos as int, p0 as int)[0] == data@[pos as int]);
        }
        let tag = match AurataEventTag::try_from(byte) {
            Ok(t) => t,
            Err(_) => {
                proof {
                    assert forall|e: AutaraEvent| !#[trigger] event_at(data@, pos as int, e) by {
                        e.lemma_wire_len();
                        if event_at(data@, pos as int, e) {
                            assert(data@[pos as int] == e.wire()[0]);
                        }
                    }
                }
                return None;
            },
        };
        let (e, p) = match tag {
            AurataEventTag::Liquidate => match LiquidateEvent::read_from(data, p0) {
                Some((e, p)) => (AutaraEvent::Liquidate(e), p),
                None => {
                    proof {
                        lemma_no_event_at(data@, pos as int, tag);
                    }
                    return None;
                },
            },
            AurataEventTag::Supply => match SingleMarketTransactionEvent::read_from(data, p0) {
                Some((e, p)) => (AutaraEvent::Supply(e), p),
                None => {
                    proof {
                        lemma_no_event_at(data@, pos as int, tag);
                    }
                    return None;
                },
            },
            AurataEventTag::Withdraw => match SingleMarketTransactionEvent::read_from(data, p0) {
                Some((e, p)) => (AutaraEvent::Withdraw(e), p),
                None => {
                    proof {
                        lemma_no_event_at(data@, pos as int, tag);
                    }
                    return None;
                },
            },
            AurataEventTag::DepositCollateral => match SingleMarketTransactionEvent::read_from(data, p0) {
                Some((e, p)) => (AutaraEvent::DepositCollateral(e), p),
                None => {
                    proof {
                        lemma_no_event_at(data@, pos as int, tag);
                    }
                    return None;
                },
            },
            AurataEventTag::WithdrawCollateral => match SingleMarketTransactionEvent::read_from(data, p0) {
                Some((e, p)) => (AutaraEvent::WithdrawCollateral(e), p),
                None => {
                    proof {
                        lemma_no_event_at(data@, pos as int, tag);
                    }
                    return None;
                },
            },
            AurataEventTag::DepositAndBorrow => match DoubleMarketTransactionEvent::read_from(data, p0) {
                Some((e, p)) => (AutaraEvent::BorrowAndDeposit(e), p),
                None => {
                    proof {
                        lemma_no_event_at(data@, pos as int, tag);
                    }
                    return None;
                },
            },
            AurataEventTag::WithdrawAndRepay => match DoubleMarketTransactionEvent::read_from(data, p0) {
                Some((e, p)) => (AutaraEvent::WithdrawAndRepay(e), p),
                None => {
                    proof {
                        lemma_no_event_at(data@, pos as int, tag);
                    }
                    return None;
                },
            },
            AurataEventTag::Borrow => match SingleMarketTransactionEvent::read_from(data, p0) {
                Some((e, p)) => (AutaraEvent::Borrow(e), p),
                None => {
                    proof {
                        lemma_no_event_at(data@, pos as int, tag);
                    }
                    return None;
                },
            },
            AurataEventTag::Repay => match SingleMarketTransactionEvent::read_from(data, p0) {
                Some((e, p)) => (AutaraEvent::Repay(e), p),
                None => {
                    proof {
                        lemma_no_event_at(data@, pos as int, tag);
                    }
                    return None;
                },
            },
            AurataEventTag::RedeemProtocolFees => match ReedeemFeeEvent::read_from(data, p0) {
                Some((e, p)) => (AutaraEvent::ReedeemProtocolFees(e), p),
                None => {
                    proof {
                        lemma_no_event_at(data@, pos as int, tag);
                    }
                    return None;
                },
            },
            AurataEventTag::RedeemCuratorFees => match ReedeemFeeEvent::read_from(data, p0) {
                Some((e, p)) => (AutaraEvent::ReedeemCuratorFees(e), p),
                None => {
                    proof {
                        lemma_no_event_at(data@, pos as int, tag);
                    }
                    return None;
                },
            },
            AurataEventTag::SocializeLoss => match SocializeLossEvent::read_from(data, p0) {
                Some((e, p)) => (AutaraEvent::SocializeLoss(e), p),
                None => {
                    proof {
                        lemma_no_event_at(data@, pos as int, tag);
                    }
                    return None;
                },
            },
            AurataEventTag::Donation => match DonateSupplyEvent::read_from(data, p0) {
                Some((e, p)) => (AutaraEvent::DonateSupply(e), p),
                None => {
                    proof {
                        lemma_no_event_at(data@, pos as int, tag);
                    }
                    return None;
                },
            },
        };
        proof {
            e.lemma_wire_len();
            lemma_subrange_join(data@, pos as int, p0 as int, p as int);
            assert(data@.subrange(pos as int, p0 as int) =~= seq![byte]);
        }
        Some((e, p))
    }

    /// The event logged in `bytes`: the `Log` instruction tag, then the
    /// event; bytes after the event are ignored. None when the bytes hold
    /// no such event.
    pub fn from_bytes(bytes: &[u8]) -> (r: Option<AutaraEvent>)
        ensures
            reads_event(bytes@, r),
    {
        if bytes.len() == 0 {
            return None;
        }
        match AurataInstructionTag::try_from(bytes[0]) {
            Ok(tag) => match tag {
                AurataInstructionTag::Log => {},
                _ => return None,
            },
            Err(_) => return None,
        }
        match AutaraEvent::read_from(bytes, 1) {
            Some((e, _)) => Some(e),
            None => None,
        }
    }
}

/// What `AutaraEvent::from_bytes` gives for `bytes`: an event `e` when the
/// bytes are the `Log` tag followed by the bytes of `e` (and possibly more),
/// none when they hold no such event.
pub open spec fn reads_event(bytes: Seq<u8>, r: Option<AutaraEvent>) -> bool {
    &&& r matches Some(e) ==> bytes.len() > 0 && bytes[0] == 11 && event_at(bytes, 1, e)
    &&& r is None ==> !(bytes.len() > 0 && bytes[0] == 11 && exists|e: AutaraEvent|
        #[trigger] event_at(bytes, 1, e))
}

/// No event begins at `pos` when the bytes after a valid tag are too few
/// for an event of that kind.
proof fn lemma_no_event_at(d: Seq<u8>, pos: int, tag: AurataEventTag)
    requires
        0 <= pos < d.len(),
        d[pos] == tag.spec_byte(),
        pos + 1 + payload_len(tag) > d.len(),
    ensures
        forall|e: AutaraEvent| !#[trigger] event_at(d, pos, e),
{
    assert forall|e: AutaraEvent| !#[trigger] event_at(d, pos, e) by {
        e.lemma_wire_len();
        if event_at(d, pos, e) {
            assert(d[pos] == e.wire()[0]);
            assert(e.spec_tag() == tag);
        }
    }
}

/// The event logged in `bytes`, if any.
pub open spec fn spec_logged_event(bytes: Seq<u8>) -> Option<AutaraEvent> {
    if bytes.len() > 0 && bytes[0] == 11 && exists|e: AutaraEvent| #[trigger] event_at(bytes, 1, e) {
        Some(choose|e: AutaraEvent| #[trigger] event_at(bytes, 1, e))
    } else {
        None
    }
}

/// What `AutaraEvent::from_bytes` gives is the logged event.
pub proof fn lemma_reads_event_is_logged_event(bytes: Seq<u8>, r: Option<AutaraEvent>)
    requires
        reads_event(bytes, r),
    ensures
        r == spec_logged_event(bytes),
{
    if let Some(e) = r {
        let c = choose|x: AutaraEvent| #[trigger] event_at(bytes, 1, x);
        assert(event_at(bytes, 1, e));
        AutaraEvent::lemma_event_at_unique(bytes, 1, c, e);
    }
}

/// The events logged among the first `i` inner instructions `entries`
/// (program, data) whose program is accepted (`accepted[j]` for the `j`-th),
/// in order.
pub open spec fn spec_events_upto(entries: Seq<(Pubkey, Seq<u8>)>, accepted: Seq<bool>, i: int) -> Seq<
    AutaraEvent,
>
    decreases i,
{
    if i <= 0 {
        Seq::empty()
    } else {
        let rest = spec_events_upto(entries, accepted, i - 1);
        if accepted[i - 1] {
            match spec_logged_event(entries[i - 1].1) {
                Some(e) => rest.push(e),
                None => rest,
            }
        } else {
            rest
        }
    }
}

/// The events logged among the inner instructions whose program is accepted.
pub open spec fn spec_events(entries: Seq<(Pubkey, Seq<u8>)>, accepted: Seq<bool>) -> Seq<AutaraEvent> {
    spec_events_upto(entries, accepted, entries.len() as int)
}

pub open spec fn entries_view(entries: Seq<(Pubkey, Vec<u8>)>) -> Seq<(Pubkey, Seq<u8>)> {
    entries.map_values(|e: (Pubkey, Vec<u8>)| (e.0, e.1@))
}

/// The events of a transaction.
#[derive(Clone, Debug)]
pub struct AutaraEvents {
    pub events: Vec<AutaraEvent>,
}

impl AutaraEvents {
    /// The events logged in the inner instructions of a transaction, given
    /// as (program, data), in order, by the programs that
    /// `validate_program_id` accepts; other programs' instructions and data
    /// that hold no event are skipped. `validate_program_id` is asked once
    /// for each instruction, in order.
    pub fn from_instructions(
        instructions: &Vec<(Pubkey, Vec<u8>)>,
        validate_program_id: impl Fn(&Pubkey) -> bool,
    ) -> (r: AutaraEvents)
        requires
            forall|k: Pubkey| validate_program_id.requires((&k,)),
        ensures
            exists|accepted: Seq<bool>|
                {
                    &&& accepted.len() == instructions@.len()
                    &&& forall|j: int|
                        0 <= j < instructions@.len() ==> validate_program_id.ensures(
                            (&instructions@[j].0,),
                            #[trigger] accepted[j],
                        )
                    &&& r.events@ == spec_events(entries_view(instructions@), accepted)
                },
    {
        let ghost view = entries_view(instructions@);
        let ghost mut accepted: Seq<bool> = Seq::empty();
        let mut events: Vec<AutaraEvent> = Vec::new();
        let mut i: usize = 0;
        while i < instructions.len()
            invariant
                i <= instructions@.len(),
                view == entries_view(instructions@),
                forall|k: Pubkey| validate_program_id.requires((&k,)),
                accepted.len() == i,
                forall|j: int|
                    0 <= j < i ==> validate_program_id.ensures(
                        (&instructions@[j].0,),
                        #[trigger] accepted[j],
                    ),
                events@ == spec_events_upto(view, accepted, i as int),
            decreases instructions@.len() - i,
        {
            let entry = &instructions[i];
            proof {
                assert(view[i as int] == (entry.0, entry.1@));
            }
            let ok = validate_program_id(&entry.0);
            let ghost before = accepted;
            proof {
                accepted = accepted.push(ok);
                assert forall|j: int| 0 <= j < i ==> accepted[j] == before[j] by {}
                assert(spec_events_upto(view, accepted, i as int) == spec_events_upto(
                    view,
                    before,
                    i as int,
                )) by {
                    lemma_events_upto_prefix(view, before, accepted, i as int);
                }
            }
            if ok {
                let found = AutaraEvent::from_bytes(entry.1.as_slice());
                proof {
                    lemma_reads_event_is_logged_event(entry.1@, found);
                }
                match found {
                    Some(e) => events.push(e),
                    None => {},
                }
            }
            i += 1;
        }
        proof {
            assert(view.len() == instructions@.len());
            assert(events@ == spec_events(entries_view(instructions@), accepted));
            assert(accepted.len() == instructions@.len());
        }
        AutaraEvents { events }
    }
}

/// The events among the first `i` instructions depend only on the first `i`
/// acceptance answers.
proof fn lemma_events_upto_prefix(
    entries: Seq<(Pubkey, Seq<u8>)>,
    a: Seq<bool>,
    b: Seq<bool>,
    i: int,
)
    requires
        i <= a.len(),
        i <= b.len(),
        forall|j: int| 0 <= j < i ==> a[j] == b[j],
    ensures
        spec_events_upto(entries, a, i) == spec_events_upto(entries, b, i),
    decreases i,
{
    if i > 0 {
        lemma_events_upto_prefix(entries, a, b, i - 1);
    }
}

} // verus!
