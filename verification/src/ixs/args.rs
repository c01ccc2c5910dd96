//! Reading back the arguments of each instruction.
use crate::interest_rate::interest_rate_kind::InterestRateCurveKind;
use crate::ixs::admin::{CreateGlobalConfigInstruction, UpdateGlobalConfigInstruction};
use crate::ixs::borrow::{
    callback_bytes, callback_fits, BorrowAplInstruction, BorrowDepositAplInstruction,
    CreateBorrowPositionInstruction, DepositAplCollateralInstruction, RepayAplInstruction,
    WithdrawAplCollateralInstruction, WithdrawRepayAplInstruction,
};
use crate::ixs::decode::{
    canonical_oracle_config, lemma_ltv_config_wire_at, lemma_opt_ltv_config_wire_at,
    lemma_opt_oracle_config_wire_at, lemma_oracle_config_wire_at,
    callback_at, lemma_at_same_len, lemma_callback_unique, same_callback, lemma_bool_at_unique, lemma_curve_unique,
    lemma_ltv_config_unique, lemma_opt_fixed_bytes_unique, lemma_opt_key_bytes_unique,
    lemma_opt_ltv_config_unique, lemma_opt_oracle_config_unique, lemma_opt_u16_bytes_unique,
    lemma_opt_u64_bytes_unique, lemma_oracle_config_unique, ltv_config_at, opt_ltv_config_at,
    opt_ltv_config_len, opt_oracle_config_at, opt_oracle_config_len, oracle_config_at,
    read_callback, read_curve, read_ltv_config, read_opt_ltv_config, read_opt_oracle_config,
    read_oracle_config, take_opt_fixed, take_opt_key, take_opt_u16, take_opt_u64,
};
use crate::ixs::liquidation::{LiquidateInstruction, SocializeLossInstruction};
use crate::ixs::types::{AurataInstruction, AurataInstructionTag};
use crate::ixs::market::{
    opt_ltv_config_bytes, opt_oracle_config_bytes, CreateMarketInstruction, UpdateConfigInstruction,
};
use crate::ixs::supply::{
    CreateSupplyPositionInstruction, DonateSupplyInstruction, SupplyAplInstruction,
    WithdrawSupplyInstruction,
};
use crate::ixs::wire::{
    bool_bytes, bytes_at, lemma_bytes_at_concat, fixed_bytes, lemma_bytes_at_of_subrange, lemma_fixed_bytes_injective,
    lemma_key_injective, lemma_u16_bytes_injective, lemma_u64_bytes_injective, opt_fixed_bytes,
    opt_key_bytes, opt_u16_bytes, opt_u64_bytes, take_bool, take_fixed, take_key, take_u16,
    take_u64, take_u8, u16_bytes, u64_bytes,
};
use crate::state::market_config::LtvConfig;
use vstd::prelude::*;

verus! {

/// The bytes at `pos` hold the arguments of `x`, in field order.
pub open spec fn create_supply_position_at(d: Seq<u8>, pos: int, x: CreateSupplyPositionInstruction) -> bool {
    0 <= pos
        && bytes_at(d, pos, seq![x.bump])
}

pub open spec fn create_supply_position_len(x: CreateSupplyPositionInstruction) -> int {
    1int
}

pub proof fn lemma_create_supply_position_unique(
    d: Seq<u8>,
    pos: int,
    a: CreateSupplyPositionInstruction,
    b: CreateSupplyPositionInstruction,
)
    requires
        create_supply_position_at(d, pos, a),
        create_supply_position_at(d, pos, b),
    ensures
        a == b,
{
    lemma_at_same_len(d, pos, seq![a.bump], seq![b.bump]);
    assert(seq![a.bump][0] == seq![b.bump][0]);
}

/// Reads the fields at `pos`, in order.
pub fn read_create_supply_position(data: &[u8], pos: usize) -> (r: Option<(CreateSupplyPositionInstruction, usize)>)
    ensures
        r matches Some((x, p)) ==> create_supply_position_at(data@, pos as int, x) && p == pos
            + create_supply_position_len(x),
        r is None ==> forall|y: CreateSupplyPositionInstruction| !#[trigger] create_supply_position_at(data@, pos as int, y),
{
    let (bump, p1) = match take_u8(data, pos) {
        Some(v) => v,
        None => {
            proof {
                assert forall|y: CreateSupplyPositionInstruction|
                    !#[trigger] create_supply_position_at(data@, pos as int, y) by {
                }
            }
            return None;
        },
    };
    proof {
        lemma_bytes_at_of_subrange(data@, pos as int, p1 as int, seq![bump]);
    }
    let x = CreateSupplyPositionInstruction { bump };
    Some((x, p1))
}

/// The bytes at `pos` hold the arguments of `x`, in field order.
pub open spec fn supply_apl_at(d: Seq<u8>, pos: int, x: SupplyAplInstruction) -> bool {
    0 <= pos
        && bytes_at(d, pos, u64_bytes(x.amount))
}

pub open spec fn supply_apl_len(x: SupplyAplInstruction) -> int {
    8int
}

pub proof fn lemma_supply_apl_unique(
    d: Seq<u8>,
    pos: int,
    a: SupplyAplInstruction,
    b: SupplyAplInstruction,
)
    requires
        supply_apl_at(d, pos, a),
        supply_apl_at(d, pos, b),
    ensures
        a == b,
{
    lemma_at_same_len(d, pos, u64_bytes(a.amount), u64_bytes(b.amount));
    lemma_u64_bytes_injective(a.amount, b.amount);
}

/// Reads the fields at `pos`, in order.
pub fn read_supply_apl(data: &[u8], pos: usize) -> (r: Option<(SupplyAplInstruction, usize)>)
    ensures
        r matches Some((x, p)) ==> supply_apl_at(data@, pos as int, x) && p == pos
            + supply_apl_len(x),
        r is None ==> forall|y: SupplyAplInstruction| !#[trigger] supply_apl_at(data@, pos as int, y),
{
    let (amount, p1) = match take_u64(data, pos) {
        Some(v) => v,
        None => {
            proof {
                assert forall|y: SupplyAplInstruction|
                    !#[trigger] supply_apl_at(data@, pos as int, y) by {
                }
            }
            return None;
        },
    };
    proof {
        lemma_bytes_at_of_subrange(data@, pos as int, p1 as int, u64_bytes(amount));
    }
    let x = SupplyAplInstruction { amount };
    Some((x, p1))
}

/// The bytes at `pos` hold the arguments of `x`, in field order.
pub open spec fn withdraw_supply_at(d: Seq<u8>, pos: int, x: WithdrawSupplyInstruction) -> bool {
    0 <= pos
        && bytes_at(d, pos, u64_bytes(x.amount))
        && bytes_at(d, pos + 8int, bool_bytes(x.withdraw_all))
}

pub open spec fn withdraw_supply_len(x: WithdrawSupplyInstruction) -> int {
    8int + 1int
}

pub proof fn lemma_withdraw_supply_unique(
    d: Seq<u8>,
    pos: int,
    a: WithdrawSupplyInstruction,
    b: WithdrawSupplyInstruction,
)
    requires
        withdraw_supply_at(d, pos, a),
        withdraw_supply_at(d, pos, b),
    ensures
        a == b,
{
    lemma_at_same_len(d, pos, u64_bytes(a.amount), u64_bytes(b.amount));
    lemma_u64_bytes_injective(a.amount, b.amount);
    lemma_bool_at_unique(d, pos + 8int, a.withdraw_all, b.withdraw_all);
}

/// Reads the fields at `pos`, in order.
pub fn read_withdraw_supply(data: &[u8], pos: usize) -> (r: Option<(WithdrawSupplyInstruction, usize)>)
    ensures
        r matches Some((x, p)) ==> withdraw_supply_at(data@, pos as int, x) && p == pos
            + withdraw_supply_len(x),
        r is None ==> forall|y: WithdrawSupplyInstruction| !#[trigger] withdraw_supply_at(data@, pos as int, y),
{
    let (amount, p1) = match take_u64(data, pos) {
        Some(v) => v,
        None => {
            proof {
                assert forall|y: WithdrawSupplyInstruction|
                    !#[trigger] withdraw_supply_at(data@, pos as int, y) by {
                }
            }
            return None;
        },
    };
    proof {
        lemma_bytes_at_of_subrange(data@, pos as int, p1 as int, u64_bytes(amount));
    }
    let (withdraw_all, p2) = match take_bool(data, p1) {
        Some(v) => v,
        None => {
            proof {
                assert forall|y: WithdrawSupplyInstruction|
                    !#[trigger] withdraw_supply_at(data@, pos as int, y) by {
                    if withdraw_supply_at(data@, pos as int, y) {
                        lemma_at_same_len(
                            data@,
                            pos as int,
                            u64_bytes(y.amount),
                            u64_bytes(amount),
                        );
                        lemma_u64_bytes_injective(y.amount, amount);
                    }
                }
            }
            return None;
        },
    };
    let x = WithdrawSupplyInstruction { amount, withdraw_all };
    Some((x, p2))
}

/// The bytes at `pos` hold the arguments of `x`, in field order.
pub open spec fn donate_supply_at(d: Seq<u8>, pos: int, x: DonateSupplyInstruction) -> bool {
    0 <= pos
        && bytes_at(d, pos, u64_bytes(x.amount))
}

pub open spec fn donate_supply_len(x: DonateSupplyInstruction) -> int {
    8int
}

pub proof fn lemma_donate_supply_unique(
    d: Seq<u8>,
    pos: int,
    a: DonateSupplyInstruction,
    b: DonateSupplyInstruction,
)
    requires
        donate_supply_at(d, pos, a),
        donate_supply_at(d, pos, b),
    ensures
        a == b,
{
    lemma_at_same_len(d, pos, u64_bytes(a.amount), u64_bytes(b.amount));
    lemma_u64_bytes_injective(a.amount, b.amount);
}

/// Reads the fields at `pos`, in order.
pub fn read_donate_supply(data: &[u8], pos: usize) -> (r: Option<(DonateSupplyInstruction, usize)>)
    ensures
        r matches Some((x, p)) ==> donate_supply_at(data@, pos as int, x) && p == pos
            + donate_supply_len(x),
        r is None ==> forall|y: DonateSupplyInstruction| !#[trigger] donate_supply_at(data@, pos as int, y),
{
    let (amount, p1) = match take_u64(data, pos) {
        Some(v) => v,
        None => {
            proof {
                assert forall|y: DonateSupplyInstruction|
                    !#[trigger] donate_supply_at(data@, pos as int, y) by {
                }
            }
            return None;
        },
    };
    proof {
        lemma_bytes_at_of_subrange(data@, pos as int, p1 as int, u64_bytes(amount));
    }
    let x = DonateSupplyInstruction { amount };
    Some((x, p1))
}

/// The bytes at `pos` hold the arguments of `x`, in field order.
pub open spec fn create_borrow_position_at(d: Seq<u8>, pos: int, x: CreateBorrowPositionInstruction) -> bool {
    0 <= pos
        && bytes_at(d, pos, seq![x.bump])
}

pub open spec fn create_borrow_position_len(x: CreateBorrowPositionInstruction) -> int {
    1int
}

pub proof fn lemma_create_borrow_position_unique(
    d: Seq<u8>,
    pos: int,
    a: CreateBorrowPositionInstruction,
    b: CreateBorrowPositionInstruction,
)
    requires
        create_borrow_position_at(d, pos, a),
        create_borrow_position_at(d, pos, b),
    ensures
        a == b,
{
    lemma_at_same_len(d, pos, seq![a.bump], seq![b.bump]);
    assert(seq![a.bump][0] == seq![b.bump][0]);
}

/// Reads the fields at `pos`, in order.
pub fn read_create_borrow_position(data: &[u8], pos: usize) -> (r: Option<(CreateBorrowPositionInstruction, usize)>)
    ensures
        r matches Some((x, p)) ==> create_borrow_position_at(data@, pos as int, x) && p == pos
            + create_borrow_position_len(x),
        r is None ==> forall|y: CreateBorrowPositionInstruction| !#[trigger] create_borrow_position_at(data@, pos as int, y),
{
    let (bump, p1) = match take_u8(data, pos) {
        Some(v) => v,
        None => {
            proof {
                assert forall|y: CreateBorrowPositionInstruction|
                    !#[trigger] create_borrow_position_at(data@, pos as int, y) by {
                }
            }
            return None;
        },
    };
    proof {
        lemma_bytes_at_of_subrange(data@, pos as int, p1 as int, seq![bump]);
    }
    let x = CreateBorrowPositionInstruction { bump };
    Some((x, p1))
}

/// The bytes at `pos` hold the arguments of `x`, in field order.
pub open spec fn borrow_apl_at(d: Seq<u8>, pos: int, x: BorrowAplInstruction) -> bool {
    0 <= pos
        && bytes_at(d, pos, u64_bytes(x.amount))
}

pub open spec fn borrow_apl_len(x: BorrowAplInstruction) -> int {
    8int
}

pub proof fn lemma_borrow_apl_unique(
    d: Seq<u8>,
    pos: int,
    a: BorrowAplInstruction,
    b: BorrowAplInstruction,
)
    requires
        borrow_apl_at(d, pos, a),
        borrow_apl_at(d, pos, b),
    ensures
        a == b,
{
    lemma_at_same_len(d, pos, u64_bytes(a.amount), u64_bytes(b.amount));
    lemma_u64_bytes_injective(a.amount, b.amount);
}

/// Reads the fields at `pos`, in order.
pub fn read_borrow_apl(data: &[u8], pos: usize) -> (r: Option<(BorrowAplInstruction, usize)>)
    ensures
        r matches Some((x, p)) ==> borrow_apl_at(data@, pos as int, x) && p == pos
            + borrow_apl_len(x),
        r is None ==> forall|y: BorrowAplInstruction| !#[trigger] borrow_apl_at(data@, pos as int, y),
{
    let (amount, p1) = match take_u64(data, pos) {
        Some(v) => v,
        None => {
            proof {
                assert forall|y: BorrowAplInstruction|
                    !#[trigger] borrow_apl_at(data@, pos as int, y) by {
                }
            }
            return None;
        },
    };
    proof {
        lemma_bytes_at_of_subrange(data@, pos as int, p1 as int, u64_bytes(amount));
    }
    let x = BorrowAplInstruction { amount };
    Some((x, p1))
}

/// The bytes at `pos` hold the arguments of `x`, in field order.
pub open spec fn deposit_apl_collateral_at(d: Seq<u8>, pos: int, x: DepositAplCollateralInstruction) -> bool {
    0 <= pos
        && bytes_at(d, pos, u64_bytes(x.amount))
}

pub open spec fn deposit_apl_collateral_len(x: DepositAplCollateralInstruction) -> int {
    8int
}

pub proof fn lemma_deposit_apl_collateral_unique(
    d: Seq<u8>,
    pos: int,
    a: DepositAplCollateralInstruction,
    b: DepositAplCollateralInstruction,
)
    requires
        deposit_apl_collateral_at(d, pos, a),
        deposit_apl_collateral_at(d, pos, b),
    ensures
        a == b,
{
    lemma_at_same_len(d, pos, u64_bytes(a.amount), u64_bytes(b.amount));
    lemma_u64_bytes_injective(a.amount, b.amount);
}

/// Reads the fields at `pos`, in order.
pub fn read_deposit_apl_collateral(data: &[u8], pos: usize) -> (r: Option<(DepositAplCollateralInstruction, usize)>)
    ensures
        r matches Some((x, p)) ==> deposit_apl_collateral_at(data@, pos as int, x) && p == pos
            + deposit_apl_collateral_len(x),
        r is None ==> forall|y: DepositAplCollateralInstruction| !#[trigger] deposit_apl_collateral_at(data@, pos as int, y),
{
    let (amount, p1) = match take_u64(data, pos) {
        Some(v) => v,
        None => {
            proof {
                assert forall|y: DepositAplCollateralInstruction|
                    !#[trigger] deposit_apl_collateral_at(data@, pos as int, y) by {
                }
            }
            return None;
        },
    };
    proof {
        lemma_bytes_at_of_subrange(data@, pos as int, p1 as int, u64_bytes(amount));
    }
    let x = DepositAplCollateralInstruction { amount };
    Some((x, p1))
}

/// The bytes at `pos` hold the arguments of `x`, in field order.
pub open spec fn withdraw_apl_collateral_at(d: Seq<u8>, pos: int, x: WithdrawAplCollateralInstruction) -> bool {
    0 <= pos
        && bytes_at(d, pos, u64_bytes(x.amount))
        && bytes_at(d, pos + 8int, bool_bytes(x.withdraw_all))
}

pub open spec fn withdraw_apl_collateral_len(x: WithdrawAplCollateralInstruction) -> int {
    8int + 1int
}

pub proof fn lemma_withdraw_apl_collateral_unique(
    d: Seq<u8>,
    pos: int,
    a: WithdrawAplCollateralInstruction,
    b: WithdrawAplCollateralInstruction,
)
    requires
        withdraw_apl_collateral_at(d, pos, a),
        withdraw_apl_collateral_at(d, pos, b),
    ensures
        a == b,
{
    lemma_at_same_len(d, pos, u64_bytes(a.amount), u64_bytes(b.amount));
    lemma_u64_bytes_injective(a.amount, b.amount);
    lemma_bool_at_unique(d, pos + 8int, a.withdraw_all, b.withdraw_all);
}

/// Reads the fields at `pos`, in order.
pub fn read_withdraw_apl_collateral(data: &[u8], pos: usize) -> (r: Option<(WithdrawAplCollateralInstruction, usize)>)
    ensures
        r matches Some((x, p)) ==> withdraw_apl_collateral_at(data@, pos as int, x) && p == pos
            + withdraw_apl_collateral_len(x),
        r is None ==> forall|y: WithdrawAplCollateralInstruction| !#[trigger] withdraw_apl_collateral_at(data@, pos as int, y),
{
    let (amount, p1) = match take_u64(data, pos) {
        Some(v) => v,
        None => {
            proof {
                assert forall|y: WithdrawAplCollateralInstruction|
                    !#[trigger] withdraw_apl_collateral_at(data@, pos as int, y) by {
                }
            }
            return None;
        },
    };
    proof {
        lemma_bytes_at_of_subrange(data@, pos as int, p1 as int, u64_bytes(amount));
    }
    let (withdraw_all, p2) = match take_bool(data, p1) {
        Some(v) => v,
        None => {
            proof {
                assert forall|y: WithdrawAplCollateralInstruction|
                    !#[trigger] withdraw_apl_collateral_at(data@, pos as int, y) by {
                    if withdraw_apl_collateral_at(data@, pos as int, y) {
                        lemma_at_same_len(
                            data@,
                            pos as int,
                            u64_bytes(y.amount),
                            u64_bytes(amount),
                        );
                        lemma_u64_bytes_injective(y.amount, amount);
                    }
                }
            }
            return None;
        },
    };
    let x = WithdrawAplCollateralInstruction { amount, withdraw_all };
    Some((x, p2))
}

/// The bytes at `pos` hold the arguments of `x`, in field order.
pub open spec fn repay_apl_at(d: Seq<u8>, pos: int, x: RepayAplInstruction) -> bool {
    0 <= pos
        && bytes_at(d, pos, u64_bytes(x.amount))
        && bytes_at(d, pos + 8int, bool_bytes(x.repay_all))
}

pub open spec fn repay_apl_len(x: RepayAplInstruction) -> int {
    8int + 1int
}

pub proof fn lemma_repay_apl_unique(
    d: Seq<u8>,
    pos: int,
    a: RepayAplInstruction,
    b: RepayAplInstruction,
)
    requires
        repay_apl_at(d, pos, a),
        repay_apl_at(d, pos, b),
    ensures
        a == b,
{
    lemma_at_same_len(d, pos, u64_bytes(a.amount), u64_bytes(b.amount));
    lemma_u64_bytes_injective(a.amount, b.amount);
    lemma_bool_at_unique(d, pos + 8int, a.repay_all, b.repay_all);
}

/// Reads the fields at `pos`, in order.
pub fn read_repay_apl(data: &[u8], pos: usize) -> (r: Option<(RepayAplInstruction, usize)>)
    ensures
        r matches Some((x, p)) ==> repay_apl_at(data@, pos as int, x) && p == pos
            + repay_apl_len(x),
        r is None ==> forall|y: RepayAplInstruction| !#[trigger] repay_apl_at(data@, pos as int, y),
{
    let (amount, p1) = match take_u64(data, pos) {
        Some(v) => v,
        None => {
            proof {
                assert forall|y: RepayAplInstruction|
                    !#[trigger] repay_apl_at(data@, pos as int, y) by {
                }
            }
            return None;
        },
    };
    proof {
        lemma_bytes_at_of_subrange(data@, pos as int, p1 as int, u64_bytes(amount));
    }
    let (repay_all, p2) = match take_bool(data, p1) {
        Some(v) => v,
        None => {
            proof {
                assert forall|y: RepayAplInstruction|
                    !#[trigger] repay_apl_at(data@, pos as int, y) by {
                    if repay_apl_at(data@, pos as int, y) {
                        lemma_at_same_len(
                            data@,
                            pos as int,
                            u64_bytes(y.amount),
                            u64_bytes(amount),
                        );
                        lemma_u64_bytes_injective(y.amount, amount);
                    }
                }
            }
            return None;
        },
    };
    let x = RepayAplInstruction { amount, repay_all };
    Some((x, p2))
}

/// The bytes at `pos` hold the arguments of `x`, in field order.
pub open spec fn create_global_config_at(d: Seq<u8>, pos: int, x: CreateGlobalConfigInstruction) -> bool {
    0 <= pos
        && bytes_at(d, pos, seq![x.bump])
        && bytes_at(d, pos + 1int, x.admin.0@)
        && bytes_at(d, pos + 1int + 32int, x.fee_receiver.0@)
        && bytes_at(d, pos + 1int + 32int + 32int, u16_bytes(x.protocol_fee_share_in_bps))
}

pub open spec fn create_global_config_len(x: CreateGlobalConfigInstruction) -> int {
    1int + 32int + 32int + 2int
}

pub proof fn lemma_create_global_config_unique(
    d: Seq<u8>,
    pos: int,
    a: CreateGlobalConfigInstruction,
    b: CreateGlobalConfigInstruction,
)
    requires
        create_global_config_at(d, pos, a),
        create_global_config_at(d, pos, b),
    ensures
        a == b,
{
    lemma_at_same_len(d, pos, seq![a.bump], seq![b.bump]);
    assert(seq![a.bump][0] == seq![b.bump][0]);
    lemma_at_same_len(d, pos + 1int, a.admin.0@, b.admin.0@);
    lemma_key_injective(a.admin, b.admin);
    lemma_at_same_len(d, pos + 1int + 32int, a.fee_receiver.0@, b.fee_receiver.0@);
    lemma_key_injective(a.fee_receiver, b.fee_receiver);
    lemma_at_same_len(
        d,
        pos + 1int + 32int + 32int,
        u16_bytes(a.protocol_fee_share_in_bps),
        u16_bytes(b.protocol_fee_share_in_bps),
    );
    lemma_u16_bytes_injective(a.protocol_fee_share_in_bps, b.protocol_fee_share_in_bps);
}

/// Reads the fields at `pos`, in order.
pub fn read_create_global_config(data: &[u8], pos: usize) -> (r: Option<(CreateGlobalConfigInstruction, usize)>)
    ensures
        r matches Some((x, p)) ==> create_global_config_at(data@, pos as int, x) && p == pos
            + create_global_config_len(x),
        r is None ==> forall|y: CreateGlobalConfigInstruction| !#[trigger] create_global_config_at(data@, pos as int, y),
{
    let (bump, p1) = match take_u8(data, pos) {
        Some(v) => v,
        None => {
            proof {
                assert forall|y: CreateGlobalConfigInstruction|
                    !#[trigger] create_global_config_at(data@, pos as int, y) by {
                }
            }
            return None;
        },
    };
    proof {
        lemma_bytes_at_of_subrange(data@, pos as int, p1 as int, seq![bump]);
    }
    let (admin, p2) = match take_key(data, p1) {
        Some(v) => v,
        None => {
            proof {
                assert forall|y: CreateGlobalConfigInstruction|
                    !#[trigger] create_global_config_at(data@, pos as int, y) by {
                    if create_global_config_at(data@, pos as int, y) {
                        lemma_at_same_len(data@, pos as int, seq![y.bump], seq![bump]);
                        assert(seq![y.bump][0] == seq![bump][0]);
                    }
                }
            }
            return None;
        },
    };
    proof {
        lemma_bytes_at_of_subrange(data@, p1 as int, p2 as int, admin.0@);
    }
    let (fee_receiver, p3) = match take_key(data, p2) {
        Some(v) => v,
        None => {
            proof {
                assert forall|y: CreateGlobalConfigInstruction|
                    !#[trigger] create_global_config_at(data@, pos as int, y) by {
                    if create_global_config_at(data@, pos as int, y) {
                        lemma_at_same_len(data@, pos as int, seq![y.bump], seq![bump]);
                        assert(seq![y.bump][0] == seq![bump][0]);
                        lemma_at_same_len(data@, pos as int + 1int, y.admin.0@, admin.0@);
                        lemma_key_injective(y.admin, admin);
                    }
                }
            }
            return None;
        },
    };
    proof {
        lemma_bytes_at_of_subrange(data@, p2 as int, p3 as int, fee_receiver.0@);
    }
    let (protocol_fee_share_in_bps, p4) = match take_u16(data, p3) {
        Some(v) => v,
        None => {
            proof {
                assert forall|y: CreateGlobalConfigInstruction|
                    !#[trigger] create_global_config_at(data@, pos as int, y) by {
                    if create_global_config_at(data@, pos as int, y) {
                        lemma_at_same_len(data@, pos as int, seq![y.bump], seq![bump]);
                        assert(seq![y.bump][0] == seq![bump][0]);
                        lemma_at_same_len(data@, pos as int + 1int, y.admin.0@, admin.0@);
                        lemma_key_injective(y.admin, admin);
                        lemma_at_same_len(
                            data@,
                            pos as int + 1int + 32int,
                            y.fee_receiver.0@,
                            fee_receiver.0@,
                        );
                        lemma_key_injective(y.fee_receiver, fee_receiver);
                    }
                }
            }
            return None;
        },
    };
    proof {
        lemma_bytes_at_of_subrange(
            data@,
            p3 as int,
            p4 as int,
            u16_bytes(protocol_fee_share_in_bps),
        );
    }
    let x = CreateGlobalConfigInstruction { bump, admin, fee_receiver, protocol_fee_share_in_bps };
    Some((x, p4))
}

/// The bytes at `pos` hold the arguments of `x`, in field order.
pub open spec fn update_global_config_at(d: Seq<u8>, pos: int, x: UpdateGlobalConfigInstruction) -> bool {
    0 <= pos
        && bytes_at(d, pos, bool_bytes(x.accept_nomination))
        && bytes_at(d, pos + 1int, opt_key_bytes(x.nominated_admin))
        && bytes_at(d, pos + 1int + opt_key_bytes(x.nominated_admin).len(), opt_key_bytes(x.fee_receiver))
        && bytes_at(d, pos + 1int + opt_key_bytes(x.nominated_admin).len() + opt_key_bytes(x.fee_receiver).len(), opt_u16_bytes(x.protocol_fee_share_in_bps))
}

pub open spec fn update_global_config_len(x: UpdateGlobalConfigInstruction) -> int {
    1int + opt_key_bytes(x.nominated_admin).len() + opt_key_bytes(x.fee_receiver).len() + opt_u16_bytes(x.protocol_fee_share_in_bps).len()
}

pub proof fn lemma_update_global_config_unique(
    d: Seq<u8>,
    pos: int,
    a: UpdateGlobalConfigInstruction,
    b: UpdateGlobalConfigInstruction,
)
    requires
        update_global_config_at(d, pos, a),
        update_global_config_at(d, pos, b),
    ensures
        a == b,
{
    lemma_bool_at_unique(d, pos, a.accept_nomination, b.accept_nomination);
    lemma_opt_key_bytes_unique(d, pos + 1int, a.nominated_admin, b.nominated_admin);
    lemma_opt_key_bytes_unique(
        d,
        pos + 1int + opt_key_bytes(a.nominated_admin).len(),
        a.fee_receiver,
        b.fee_receiver,
    );
    lemma_opt_u16_bytes_unique(
        d,
        pos + 1int + opt_key_bytes(a.nominated_admin).len() + opt_key_bytes(a.fee_receiver).len(),
        a.protocol_fee_share_in_bps,
        b.protocol_fee_share_in_bps,
    );
}

/// Reads the fields at `pos`, in order.
pub fn read_update_global_config(data: &[u8], pos: usize) -> (r: Option<(UpdateGlobalConfigInstruction, usize)>)
    ensures
        r matches Some((x, p)) ==> update_global_config_at(data@, pos as int, x) && p == pos
            + update_global_config_len(x),
        r is None ==> forall|y: UpdateGlobalConfigInstruction| !#[trigger] update_global_config_at(data@, pos as int, y),
{
    let (accept_nomination, p1) = match take_bool(data, pos) {
        Some(v) => v,
        None => {
            proof {
                assert forall|y: UpdateGlobalConfigInstruction|
                    !#[trigger] update_global_config_at(data@, pos as int, y) by {
                }
            }
            return None;
        },
    };
    let (nominated_admin, p2) = match take_opt_key(data, p1) {
        Some(v) => v,
        None => {
            proof {
                assert forall|y: UpdateGlobalConfigInstruction|
                    !#[trigger] update_global_config_at(data@, pos as int, y) by {
                    if update_global_config_at(data@, pos as int, y) {
                        lemma_bool_at_unique(
                            data@,
                            pos as int,
                            y.accept_nomination,
                            accept_nomination,
                        );
                    }
                }
            }
            return None;
        },
    };
    let (fee_receiver, p3) = match take_opt_key(data, p2) {
        Some(v) => v,
        None => {
            proof {
                assert forall|y: UpdateGlobalConfigInstruction|
                    !#[trigger] update_global_config_at(data@, pos as int, y) by {
                    if update_global_config_at(data@, pos as int, y) {
                        lemma_bool_at_unique(
                            data@,
                            pos as int,
                            y.accept_nomination,
                            accept_nomination,
                        );
                        lemma_opt_key_bytes_unique(
                            data@,
                            pos as int + 1int,
                            y.nominated_admin,
                            nominated_admin,
                        );
                    }
                }
            }
            return None;
        },
    };
    let (protocol_fee_share_in_bps, p4) = match take_opt_u16(data, p3) {
        Some(v) => v,
        None => {
            proof {
                assert forall|y: UpdateGlobalConfigInstruction|
                    !#[trigger] update_global_config_at(data@, pos as int, y) by {
                    if update_global_config_at(data@, pos as int, y) {
                        lemma_bool_at_unique(
                            data@,
                            pos as int,
                            y.accept_nomination,
                            accept_nomination,
                        );
                        lemma_opt_key_bytes_unique(
                            data@,
                            pos as int + 1int,
                            y.nominated_admin,
                            nominated_admin,
                        );
                        lemma_opt_key_bytes_unique(
                            data@,
                            pos as int + 1int + opt_key_bytes(y.nominated_admin).len(),
                            y.fee_receiver,
                            fee_receiver,
                        );
                    }
                }
            }
            return None;
        },
    };
    let x = UpdateGlobalConfigInstruction {
        accept_nomination,
        nominated_admin,
        fee_receiver,
        protocol_fee_share_in_bps,
    };
    Some((x, p4))
}

/// The bytes at `pos` hold the arguments of `x`, in field order.
pub open spec fn create_market_at(d: Seq<u8>, pos: int, x: CreateMarketInstruction) -> bool {
    0 <= pos
        && bytes_at(d, pos, seq![x.market_bump])
        && bytes_at(d, pos + 1int, seq![x.index])
        && ltv_config_at(d, pos + 1int + 1int, x.ltv_config)
        && bytes_at(d, pos + 1int + 1int + 48int, fixed_bytes(x.max_utilisation_rate))
        && oracle_config_at(d, pos + 1int + 1int + 48int + 16int, x.supply_oracle_config)
        && oracle_config_at(d, pos + 1int + 1int + 48int + 16int + 257int, x.collateral_oracle_config)
        && bytes_at(d, pos + 1int + 1int + 48int + 16int + 257int + 257int, x.interest_rate.wire())
        && bytes_at(d, pos + 1int + 1int + 48int + 16int + 257int + 257int + x.interest_rate.wire().len(), u16_bytes(x.lending_market_fee_in_bps))
}

pub open spec fn create_market_len(x: CreateMarketInstruction) -> int {
    1int + 1int + 48int + 16int + 257int + 257int + x.interest_rate.wire().len() + 2int
}

pub proof fn lemma_create_market_unique(
    d: Seq<u8>,
    pos: int,
    a: CreateMarketInstruction,
    b: CreateMarketInstruction,
)
    requires
        create_market_at(d, pos, a),
        create_market_at(d, pos, b),
    ensures
        a == b,
{
    lemma_at_same_len(d, pos, seq![a.market_bump], seq![b.market_bump]);
    assert(seq![a.market_bump][0] == seq![b.market_bump][0]);
    lemma_at_same_len(d, pos + 1int, seq![a.index], seq![b.index]);
    assert(seq![a.index][0] == seq![b.index][0]);
    lemma_ltv_config_unique(d, pos + 1int + 1int, a.ltv_config, b.ltv_config);
    lemma_at_same_len(
        d,
        pos + 1int + 1int + 48int,
        fixed_bytes(a.max_utilisation_rate),
        fixed_bytes(b.max_utilisation_rate),
    );
    lemma_fixed_bytes_injective(a.max_utilisation_rate, b.max_utilisation_rate);
    lemma_oracle_config_unique(
        d,
        pos + 1int + 1int + 48int + 16int,
        a.supply_oracle_config,
        b.supply_oracle_config,
    );
    lemma_oracle_config_unique(
        d,
        pos + 1int + 1int + 48int + 16int + 257int,
        a.collateral_oracle_config,
        b.collateral_oracle_config,
    );
    lemma_curve_unique(
        d,
        pos + 1int + 1int + 48int + 16int + 257int + 257int,
        a.interest_rate,
        b.interest_rate,
    );
    lemma_at_same_len(
        d,
        pos + 1int + 1int + 48int + 16int + 257int + 257int + a.interest_rate.wire().len(),
        u16_bytes(a.lending_market_fee_in_bps),
        u16_bytes(b.lending_market_fee_in_bps),
    );
    lemma_u16_bytes_injective(a.lending_market_fee_in_bps, b.lending_market_fee_in_bps);
}

/// Reads the fields at `pos`, in order.
pub fn read_create_market(data: &[u8], pos: usize) -> (r: Option<(CreateMarketInstruction, usize)>)
    ensures
        r matches Some((x, p)) ==> create_market_at(data@, pos as int, x) && p == pos
            + create_market_len(x),
        r is None ==> forall|y: CreateMarketInstruction| !#[trigger] create_market_at(data@, pos as int, y),
{
    let (market_bump, p1) = match take_u8(data, pos) {
        Some(v) => v,
        None => {
            proof {
                assert forall|y: CreateMarketInstruction|
                    !#[trigger] create_market_at(data@, pos as int, y) by {
                }
            }
            return None;
        },
    };
    proof {
        lemma_bytes_at_of_subrange(data@, pos as int, p1 as int, seq![market_bump]);
    }
    let (index, p2) = match take_u8(data, p1) {
        Some(v) => v,
        None => {
            proof {
                assert forall|y: CreateMarketInstruction|
                    !#[trigger] create_market_at(data@, pos as int, y) by {
                    if create_market_at(data@, pos as int, y) {
                        lemma_at_same_len(
                            data@,
                            pos as int,
                            seq![y.market_bump],
                            seq![market_bump],
                        );
                        assert(seq![y.market_bump][0] == seq![market_bump][0]);
                    }
                }
            }
            return None;
        },
    };
    proof {
        lemma_bytes_at_of_subrange(data@, p1 as int, p2 as int, seq![index]);
    }
    let (ltv_config, p3) = match read_ltv_config(data, p2) {
        Some(v) => v,
        None => {
            proof {
                assert forall|y: CreateMarketInstruction|
                    !#[trigger] create_market_at(data@, pos as int, y) by {
                    if create_market_at(data@, pos as int, y) {
                        lemma_at_same_len(
                            data@,
                            pos as int,
                            seq![y.market_bump],
                            seq![market_bump],
                        );
                        assert(seq![y.market_bump][0] == seq![market_bump][0]);
                        lemma_at_same_len(data@, pos as int + 1int, seq![y.index], seq![index]);
                        assert(seq![y.index][0] == seq![index][0]);
                    }
                }
            }
            return None;
        },
    };
    let (max_utilisation_rate, p4) = match take_fixed(data, p3) {
        Some(v) => v,
        None => {
            proof {
                assert forall|y: CreateMarketInstruction|
                    !#[trigger] create_market_at(data@, pos as int, y) by {
                    if create_market_at(data@, pos as int, y) {
                        lemma_at_same_len(
                            data@,
                            pos as int,
                            seq![y.market_bump],
                            seq![market_bump],
                        );
                        assert(seq![y.market_bump][0] == seq![market_bump][0]);
                        lemma_at_same_len(data@, pos as int + 1int, seq![y.index], seq![index]);
                        assert(seq![y.index][0] == seq![index][0]);
                        lemma_ltv_config_unique(
                            data@,
                            pos as int + 1int + 1int,
                            y.ltv_config,
                            ltv_config,
                        );
                    }
                }
            }
            return None;
        },
    };
    proof {
        lemma_bytes_at_of_subrange(data@, p3 as int, p4 as int, fixed_bytes(max_utilisation_rate));
    }
    let (supply_oracle_config, p5) = match read_oracle_config(data, p4) {
        Some(v) => v,
        None => {
            proof {
                assert forall|y: CreateMarketInstruction|
                    !#[trigger] create_market_at(data@, pos as int, y) by {
                    if create_market_at(data@, pos as int, y) {
                        lemma_at_same_len(
                            data@,
                            pos as int,
                            seq![y.market_bump],
                            seq![market_bump],
                        );
                        assert(seq![y.market_bump][0] == seq![market_bump][0]);
                        lemma_at_same_len(data@, pos as int + 1int, seq![y.index], seq![index]);
                        assert(seq![y.index][0] == seq![index][0]);
                        lemma_ltv_config_unique(
                            data@,
                            pos as int + 1int + 1int,
                            y.ltv_config,
                            ltv_config,
                        );
                        lemma_at_same_len(
                            data@,
                            pos as int + 1int + 1int + 48int,
                            fixed_bytes(y.max_utilisation_rate),
                            fixed_bytes(max_utilisation_rate),
                        );
                        lemma_fixed_bytes_injective(y.max_utilisation_rate, max_utilisation_rate);
                    }
                }
            }
            return None;
        },
    };
    let (collateral_oracle_config, p6) = match read_oracle_config(data, p5) {
        Some(v) => v,
        None => {
            proof {
                assert forall|y: CreateMarketInstruction|
                    !#[trigger] create_market_at(data@, pos as int, y) by {
                    if create_market_at(data@, pos as int, y) {
                        lemma_at_same_len(
                            data@,
                            pos as int,
                            seq![y.market_bump],
                            seq![market_bump],
                        );
                        assert(seq![y.market_bump][0] == seq![market_bump][0]);
                        lemma_at_same_len(data@, pos as int + 1int, seq![y.index], seq![index]);
                        assert(seq![y.index][0] == seq![index][0]);
                        lemma_ltv_config_unique(
                            data@,
                            pos as int + 1int + 1int,
                            y.ltv_config,
                            ltv_config,
                        );
                        lemma_at_same_len(
                            data@,
                            pos as int + 1int + 1int + 48int,
                            fixed_bytes(y.max_utilisation_rate),
                            fixed_bytes(max_utilisation_rate),
                        );
                        lemma_fixed_bytes_injective(y.max_utilisation_rate, max_utilisation_rate);
                        lemma_oracle_config_unique(
                            data@,
                            pos as int + 1int + 1int + 48int + 16int,
                            y.supply_oracle_config,
                            supply_oracle_config,
                        );
                    }
                }
            }
            return None;
        },
    };
    let (interest_rate, p7) = match read_curve(data, p6) {
        Some(v) => v,
        None => {
            proof {
                assert forall|y: CreateMarketInstruction|
                    !#[trigger] create_market_at(data@, pos as int, y) by {
                    if create_market_at(data@, pos as int, y) {
                        lemma_at_same_len(
                            data@,
                            pos as int,
                            seq![y.market_bump],
                            seq![market_bump],
                        );
                        assert(seq![y.market_bump][0] == seq![market_bump][0]);
                        lemma_at_same_len(data@, pos as int + 1int, seq![y.index], seq![index]);
                        assert(seq![y.index][0] == seq![index][0]);
                        lemma_ltv_config_unique(
                            data@,
                            pos as int + 1int + 1int,
                            y.ltv_config,
                            ltv_config,
                        );
                        lemma_at_same_len(
                            data@,
                            pos as int + 1int + 1int + 48int,
                            fixed_bytes(y.max_utilisation_rate),
                            fixed_bytes(max_utilisation_rate),
                        );
                        lemma_fixed_bytes_injective(y.max_utilisation_rate, max_utilisation_rate);
                        lemma_oracle_config_unique(
                            data@,
                            pos as int + 1int + 1int + 48int + 16int,
                            y.supply_oracle_config,
                            supply_oracle_config,
                        );
                        lemma_oracle_config_unique(
                            data@,
                            pos as int + 1int + 1int + 48int + 16int + 257int,
                            y.collateral_oracle_config,
                            collateral_oracle_config,
                        );
                    }
                }
            }
            return None;
        },
    };
    let (lending_market_fee_in_bps, p8) = match take_u16(data, p7) {
        Some(v) => v,
        None => {
            proof {
                assert forall|y: CreateMarketInstruction|
                    !#[trigger] create_market_at(data@, pos as int, y) by {
                    if create_market_at(data@, pos as int, y) {
                        lemma_at_same_len(
                            data@,
                            pos as int,
                            seq![y.market_bump],
                            seq![market_bump],
                        );
                        assert(seq![y.market_bump][0] == seq![market_bump][0]);
                        lemma_at_same_len(data@, pos as int + 1int, seq![y.index], seq![index]);
                        assert(seq![y.index][0] == seq![index][0]);
                        lemma_ltv_config_unique(
                            data@,
                            pos as int + 1int + 1int,
                            y.ltv_config,
                            ltv_config,
                        );
                        lemma_at_same_len(
                            data@,
                            pos as int + 1int + 1int + 48int,
                            fixed_bytes(y.max_utilisation_rate),
                            fixed_bytes(max_utilisation_rate),
                        );
                        lemma_fixed_bytes_injective(y.max_utilisation_rate, max_utilisation_rate);
                        lemma_oracle_config_unique(
                            data@,
                            pos as int + 1int + 1int + 48int + 16int,
                            y.supply_oracle_config,
                            supply_oracle_config,
                        );
                        lemma_oracle_config_unique(
                            data@,
                            pos as int + 1int + 1int + 48int + 16int + 257int,
                            y.collateral_oracle_config,
                            collateral_oracle_config,
                        );
                        lemma_curve_unique(
                            data@,
                            pos as int + 1int + 1int + 48int + 16int + 257int + 257int,
                            y.interest_rate,
                            interest_rate,
                        );
                    }
                }
            }
            return None;
        },
    };
    proof {
        lemma_bytes_at_of_subrange(
            data@,
            p7 as int,
            p8 as int,
            u16_bytes(lending_market_fee_in_bps),
        );
    }
    let x = CreateMarketInstruction {
        market_bump,
        index,
        ltv_config,
        max_utilisation_rate,
        supply_oracle_config,
        collateral_oracle_config,
        interest_rate,
        lending_market_fee_in_bps,
    };
    Some((x, p8))
}

/// The bytes at `pos` hold the arguments of `x`, in field order.
pub open spec fn update_config_at(d: Seq<u8>, pos: int, x: UpdateConfigInstruction) -> bool {
    0 <= pos
        && opt_oracle_config_at(d, pos, x.supply_oracle_config)
        && opt_oracle_config_at(d, pos + opt_oracle_config_len(x.supply_oracle_config), x.collateral_oracle_config)
        && opt_ltv_config_at(d, pos + opt_oracle_config_len(x.supply_oracle_config) + opt_oracle_config_len(x.collateral_oracle_config), x.ltv_config)
        && bytes_at(d, pos + opt_oracle_config_len(x.supply_oracle_config) + opt_oracle_config_len(x.collateral_oracle_config) + opt_ltv_config_len(x.ltv_config), opt_u64_bytes(x.max_supply_atoms))
        && bytes_at(d, pos + opt_oracle_config_len(x.supply_oracle_config) + opt_oracle_config_len(x.collateral_oracle_config) + opt_ltv_config_len(x.ltv_config) + opt_u64_bytes(x.max_supply_atoms).len(), opt_fixed_bytes(x.max_utilisation_rate))
        && bytes_at(d, pos + opt_oracle_config_len(x.supply_oracle_config) + opt_oracle_config_len(x.collateral_oracle_config) + opt_ltv_config_len(x.ltv_config) + opt_u64_bytes(x.max_supply_atoms).len() + opt_fixed_bytes(x.max_utilisation_rate).len(), opt_u16_bytes(x.lending_market_fee_in_bps))
}

pub open spec fn update_config_len(x: UpdateConfigInstruction) -> int {
    opt_oracle_config_len(x.supply_oracle_config) + opt_oracle_config_len(x.collateral_oracle_config) + opt_ltv_config_len(x.ltv_config) + opt_u64_bytes(x.max_supply_atoms).len() + opt_fixed_bytes(x.max_utilisation_rate).len() + opt_u16_bytes(x.lending_market_fee_in_bps).len()
}

pub proof fn lemma_update_config_unique(
    d: Seq<u8>,
    pos: int,
    a: UpdateConfigInstruction,
    b: UpdateConfigInstruction,
)
    requires
        update_config_at(d, pos, a),
        update_config_at(d, pos, b),
    ensures
        a == b,
{
    lemma_opt_oracle_config_unique(d, pos, a.supply_oracle_config, b.supply_oracle_config);
    lemma_opt_oracle_config_unique(
        d,
        pos + opt_oracle_config_len(a.supply_oracle_config),
        a.collateral_oracle_config,
        b.collateral_oracle_config,
    );
    lemma_opt_ltv_config_unique(
        d,
        pos
            + opt_oracle_config_len(a.supply_oracle_config)
            + opt_oracle_config_len(a.collateral_oracle_config),
        a.ltv_config,
        b.ltv_config,
    );
    lemma_opt_u64_bytes_unique(
        d,
        pos
            + opt_oracle_config_len(a.supply_oracle_config)
            + opt_oracle_config_len(a.collateral_oracle_config)
            + opt_ltv_config_len(a.ltv_config),
        a.max_supply_atoms,
        b.max_supply_atoms,
    );
    lemma_opt_fixed_bytes_unique(
        d,
        pos
            + opt_oracle_config_len(a.supply_oracle_config)
            + opt_oracle_config_len(a.collateral_oracle_config)
            + opt_ltv_config_len(a.ltv_config)
            + opt_u64_bytes(a.max_supply_atoms).len(),
        a.max_utilisation_rate,
        b.max_utilisation_rate,
    );
    lemma_opt_u16_bytes_unique(
        d,
        pos
            + opt_oracle_config_len(a.supply_oracle_config)
            + opt_oracle_config_len(a.collateral_oracle_config)
            + opt_ltv_config_len(a.ltv_config)
            + opt_u64_bytes(a.max_supply_atoms).len()
            + opt_fixed_bytes(a.max_utilisation_rate).len(),
        a.lending_market_fee_in_bps,
        b.lending_market_fee_in_bps,
    );
}

/// Reads the fields at `pos`, in order.
pub fn read_update_config(data: &[u8], pos: usize) -> (r: Option<(UpdateConfigInstruction, usize)>)
    ensures
        r matches Some((x, p)) ==> update_config_at(data@, pos as int, x) && p == pos
            + update_config_len(x),
        r is None ==> forall|y: UpdateConfigInstruction| !#[trigger] update_config_at(data@, pos as int, y),
{
    let (supply_oracle_config, p1) = match read_opt_oracle_config(data, pos) {
        Some(v) => v,
        None => {
            proof {
                assert forall|y: UpdateConfigInstruction|
                    !#[trigger] update_config_at(data@, pos as int, y) by {
                }
            }
            return None;
        },
    };
    let (collateral_oracle_config, p2) = match read_opt_oracle_config(data, p1) {
        Some(v) => v,
        None => {
            proof {
                assert forall|y: UpdateConfigInstruction|
                    !#[trigger] update_config_at(data@, pos as int, y) by {
                    if update_config_at(data@, pos as int, y) {
                        lemma_opt_oracle_config_unique(
                            data@,
                            pos as int,
                            y.supply_oracle_config,
                            supply_oracle_config,
                        );
                    }
                }
            }
            return None;
        },
    };
    let (ltv_config, p3) = match read_opt_ltv_config(data, p2) {
        Some(v) => v,
        None => {
            proof {
                assert forall|y: UpdateConfigInstruction|
                    !#[trigger] update_config_at(data@, pos as int, y) by {
                    if update_config_at(data@, pos as int, y) {
                        lemma_opt_oracle_config_unique(
                            data@,
                            pos as int,
                            y.supply_oracle_config,
                            supply_oracle_config,
                        );
                        lemma_opt_oracle_config_unique(
                            data@,
                            pos as int + opt_oracle_config_len(y.supply_oracle_config),
                            y.collateral_oracle_config,
                            collateral_oracle_config,
                        );
                    }
                }
            }
            return None;
        },
    };
    let (max_supply_atoms, p4) = match take_opt_u64(data, p3) {
        Some(v) => v,
        None => {
            proof {
                assert forall|y: UpdateConfigInstruction|
                    !#[trigger] update_config_at(data@, pos as int, y) by {
                    if update_config_at(data@, pos as int, y) {
                        lemma_opt_oracle_config_unique(
                            data@,
                            pos as int,
                            y.supply_oracle_config,
                            supply_oracle_config,
                        );
                        lemma_opt_oracle_config_unique(
                            data@,
                            pos as int + opt_oracle_config_len(y.supply_oracle_config),
                            y.collateral_oracle_config,
                            collateral_oracle_config,
                        );
                        lemma_opt_ltv_config_unique(
                            data@,
                            pos as int
                                + opt_oracle_config_len(y.supply_oracle_config)
                                + opt_oracle_config_len(y.collateral_oracle_config),
                            y.ltv_config,
                            ltv_config,
                        );
                    }
                }
            }
            return None;
        },
    };
    let (max_utilisation_rate, p5) = match take_opt_fixed(data, p4) {
        Some(v) => v,
        None => {
            proof {
                assert forall|y: UpdateConfigInstruction|
                    !#[trigger] update_config_at(data@, pos as int, y) by {
                    if update_config_at(data@, pos as int, y) {
                        lemma_opt_oracle_config_unique(
                            data@,
                            pos as int,
                            y.supply_oracle_config,
                            supply_oracle_config,
                        );
                        lemma_opt_oracle_config_unique(
                            data@,
                            pos as int + opt_oracle_config_len(y.supply_oracle_config),
                            y.collateral_oracle_config,
                            collateral_oracle_config,
                        );
                        lemma_opt_ltv_config_unique(
                            data@,
                            pos as int
                                + opt_oracle_config_len(y.supply_oracle_config)
                                + opt_oracle_config_len(y.collateral_oracle_config),
                            y.ltv_config,
                            ltv_config,
                        );
                        lemma_opt_u64_bytes_unique(
                            data@,
                            pos as int
                                + opt_oracle_config_len(y.supply_oracle_config)
                                + opt_oracle_config_len(y.collateral_oracle_config)
                                + opt_ltv_config_len(y.ltv_config),
                            y.max_supply_atoms,
                            max_supply_atoms,
                        );
                    }
                }
            }
            return None;
        },
    };
    let (lending_market_fee_in_bps, p6) = match take_opt_u16(data, p5) {
        Some(v) => v,
        None => {
            proof {
                assert forall|y: UpdateConfigInstruction|
                    !#[trigger] update_config_at(data@, pos as int, y) by {
                    if update_config_at(data@, pos as int, y) {
                        lemma_opt_oracle_config_unique(
                            data@,
                            pos as int,
                            y.supply_oracle_config,
                            supply_oracle_config,
                        );
                        lemma_opt_oracle_config_unique(
                            data@,
                            pos as int + opt_oracle_config_len(y.supply_oracle_config),
                            y.collateral_oracle_config,
                            collateral_oracle_config,
                        );
                        lemma_opt_ltv_config_unique(
                            data@,
                            pos as int
                                + opt_oracle_config_len(y.supply_oracle_config)
                                + opt_oracle_config_len(y.collateral_oracle_config),
                            y.ltv_config,
                            ltv_config,
                        );
                        lemma_opt_u64_bytes_unique(
                            data@,
                            pos as int
                                + opt_oracle_config_len(y.supply_oracle_config)
                                + opt_oracle_config_len(y.collateral_oracle_config)
                                + opt_ltv_config_len(y.ltv_config),
                            y.max_supply_atoms,
                            max_supply_atoms,
                        );
                        lemma_opt_fixed_bytes_unique(
                            data@,
                            pos as int
                                + opt_oracle_config_len(y.supply_oracle_config)
                                + opt_oracle_config_len(y.collateral_oracle_config)
                                + opt_ltv_config_len(y.ltv_config)
                                + opt_u64_bytes(y.max_supply_atoms).len(),
                            y.max_utilisation_rate,
                            max_utilisation_rate,
                        );
                    }
                }
            }
            return None;
        },
    };
    let x = UpdateConfigInstruction {
        supply_oracle_config,
        collateral_oracle_config,
        ltv_config,
        max_supply_atoms,
        max_utilisation_rate,
        lending_market_fee_in_bps,
    };
    Some((x, p6))
}

/// The bytes at `pos` hold the arguments of `x`, in field order.
pub open spec fn liquidate_at(d: Seq<u8>, pos: int, x: LiquidateInstruction) -> bool {
    0 <= pos
        && bytes_at(d, pos, u64_bytes(x.max_borrowed_atoms_to_repay))
        && bytes_at(d, pos + 8int, u64_bytes(x.min_collateral_atoms_to_receive))
        && callback_at(d, pos + 8int + 8int, x.ix_callback)
}

pub open spec fn liquidate_len(x: LiquidateInstruction) -> int {
    8int + 8int + callback_bytes(x.ix_callback).len()
}

/// Reads the fields at `pos`, in order.
pub fn read_liquidate(data: &[u8], pos: usize) -> (r: Option<(LiquidateInstruction, usize)>)
    ensures
        r matches Some((x, p)) ==> liquidate_at(data@, pos as int, x) && p == pos
            + liquidate_len(x),
        r is None ==> forall|y: LiquidateInstruction| !#[trigger] liquidate_at(data@, pos as int, y),
{
    let (max_borrowed_atoms_to_repay, p1) = match take_u64(data, pos) {
        Some(v) => v,
        None => {
            proof {
                assert forall|y: LiquidateInstruction|
                    !#[trigger] liquidate_at(data@, pos as int, y) by {
                }
            }
            return None;
        },
    };
    proof {
        lemma_bytes_at_of_subrange(
            data@,
            pos as int,
            p1 as int,
            u64_bytes(max_borrowed_atoms_to_repay),
        );
    }
    let (min_collateral_atoms_to_receive, p2) = match take_u64(data, p1) {
        Some(v) => v,
        None => {
            proof {
                assert forall|y: LiquidateInstruction|
                    !#[trigger] liquidate_at(data@, pos as int, y) by {
                    if liquidate_at(data@, pos as int, y) {
                        lemma_at_same_len(
                            data@,
                            pos as int,
                            u64_bytes(y.max_borrowed_atoms_to_repay),
                            u64_bytes(max_borrowed_atoms_to_repay),
                        );
                        lemma_u64_bytes_injective(
                            y.max_borrowed_atoms_to_repay,
                            max_borrowed_atoms_to_repay,
                        );
                    }
                }
            }
            return None;
        },
    };
    proof {
        lemma_bytes_at_of_subrange(
            data@,
            p1 as int,
            p2 as int,
            u64_bytes(min_collateral_atoms_to_receive),
        );
    }
    let (ix_callback, p3) = match read_callback(data, p2) {
        Some(v) => v,
        None => {
            proof {
                assert forall|y: LiquidateInstruction|
                    !#[trigger] liquidate_at(data@, pos as int, y) by {
                    if liquidate_at(data@, pos as int, y) {
                        lemma_at_same_len(
                            data@,
                            pos as int,
                            u64_bytes(y.max_borrowed_atoms_to_repay),
                            u64_bytes(max_borrowed_atoms_to_repay),
                        );
                        lemma_u64_bytes_injective(
                            y.max_borrowed_atoms_to_repay,
                            max_borrowed_atoms_to_repay,
                        );
                        lemma_at_same_len(
                            data@,
                            pos as int + 8int,
                            u64_bytes(y.min_collateral_atoms_to_receive),
                            u64_bytes(min_collateral_atoms_to_receive),
                        );
                        lemma_u64_bytes_injective(
                            y.min_collateral_atoms_to_receive,
                            min_collateral_atoms_to_receive,
                        );
                    }
                }
            }
            return None;
        },
    };
    let x = LiquidateInstruction {
        max_borrowed_atoms_to_repay,
        min_collateral_atoms_to_receive,
        ix_callback,
    };
    Some((x, p3))
}

/// The bytes at `pos` hold the arguments of `x`, in field order.
pub open spec fn borrow_deposit_apl_at(d: Seq<u8>, pos: int, x: BorrowDepositAplInstruction) -> bool {
    0 <= pos
        && bytes_at(d, pos, u64_bytes(x.deposit_amount))
        && bytes_at(d, pos + 8int, u64_bytes(x.borrow_amount))
        && callback_at(d, pos + 8int + 8int, x.ix_callback)
}

pub open spec fn borrow_deposit_apl_len(x: BorrowDepositAplInstruction) -> int {
    8int + 8int + callback_bytes(x.ix_callback).len()
}

/// Reads the fields at `pos`, in order.
pub fn read_borrow_deposit_apl(data: &[u8], pos: usize) -> (r: Option<(BorrowDepositAplInstruction, usize)>)
    ensures
        r matches Some((x, p)) ==> borrow_deposit_apl_at(data@, pos as int, x) && p == pos
            + borrow_deposit_apl_len(x),
        r is None ==> forall|y: BorrowDepositAplInstruction| !#[trigger] borrow_deposit_apl_at(data@, pos as int, y),
{
    let (deposit_amount, p1) = match take_u64(data, pos) {
        Some(v) => v,
        None => {
            proof {
                assert forall|y: BorrowDepositAplInstruction|
                    !#[trigger] borrow_deposit_apl_at(data@, pos as int, y) by {
                }
            }
            return None;
        },
    };
    proof {
        lemma_bytes_at_of_subrange(data@, pos as int, p1 as int, u64_bytes(deposit_amount));
    }
    let (borrow_amount, p2) = match take_u64(data, p1) {
        Some(v) => v,
        None => {
            proof {
                assert forall|y: BorrowDepositAplInstruction|
                    !#[trigger] borrow_deposit_apl_at(data@, pos as int, y) by {
                    if borrow_deposit_apl_at(data@, pos as int, y) {
                        lemma_at_same_len(
                            data@,
                            pos as int,
                            u64_bytes(y.deposit_amount),
                            u64_bytes(deposit_amount),
                        );
                        lemma_u64_bytes_injective(y.deposit_amount, deposit_amount);
                    }
                }
            }
            return None;
        },
    };
    proof {
        lemma_bytes_at_of_subrange(data@, p1 as int, p2 as int, u64_bytes(borrow_amount));
    }
    let (ix_callback, p3) = match read_callback(data, p2) {
        Some(v) => v,
        None => {
            proof {
                assert forall|y: BorrowDepositAplInstruction|
                    !#[trigger] borrow_deposit_apl_at(data@, pos as int, y) by {
                    if borrow_deposit_apl_at(data@, pos as int, y) {
                        lemma_at_same_len(
                            data@,
                            pos as int,
                            u64_bytes(y.deposit_amount),
                            u64_bytes(deposit_amount),
                        );
                        lemma_u64_bytes_injective(y.deposit_amount, deposit_amount);
                        lemma_at_same_len(
                            data@,
                            pos as int + 8int,
                            u64_bytes(y.borrow_amount),
                            u64_bytes(borrow_amount),
                        );
                        lemma_u64_bytes_injective(y.borrow_amount, borrow_amount);
                    }
                }
            }
            return None;
        },
    };
    let x = BorrowDepositAplInstruction { deposit_amount, borrow_amount, ix_callback };
    Some((x, p3))
}

/// The bytes at `pos` hold the arguments of `x`, in field order.
pub open spec fn withdraw_repay_apl_at(d: Seq<u8>, pos: int, x: WithdrawRepayAplInstruction) -> bool {
    0 <= pos
        && bytes_at(d, pos, u64_bytes(x.repay_amount))
        && bytes_at(d, pos + 8int, u64_bytes(x.withdraw_amount))
        && bytes_at(d, pos + 8int + 8int, bool_bytes(x.repay_all))
        && bytes_at(d, pos + 8int + 8int + 1int, bool_bytes(x.withdraw_all))
        && callback_at(d, pos + 8int + 8int + 1int + 1int, x.ix_callback)
}

pub open spec fn withdraw_repay_apl_len(x: WithdrawRepayAplInstruction) -> int {
    8int + 8int + 1int + 1int + callback_bytes(x.ix_callback).len()
}

/// Reads the fields at `pos`, in order.
pub fn read_withdraw_repay_apl(data: &[u8], pos: usize) -> (r: Option<(WithdrawRepayAplInstruction, usize)>)
    ensures
        r matches Some((x, p)) ==> withdraw_repay_apl_at(data@, pos as int, x) && p == pos
            + withdraw_repay_apl_len(x),
        r is None ==> forall|y: WithdrawRepayAplInstruction| !#[trigger] withdraw_repay_apl_at(data@, pos as int, y),
{
    let (repay_amount, p1) = match take_u64(data, pos) {
        Some(v) => v,
        None => {
            proof {
                assert forall|y: WithdrawRepayAplInstruction|
                    !#[trigger] withdraw_repay_apl_at(data@, pos as int, y) by {
                }
            }
            return None;
        },
    };
    proof {
        lemma_bytes_at_of_subrange(data@, pos as int, p1 as int, u64_bytes(repay_amount));
    }
    let (withdraw_amount, p2) = match take_u64(data, p1) {
        Some(v) => v,
        None => {
            proof {
                assert forall|y: WithdrawRepayAplInstruction|
                    !#[trigger] withdraw_repay_apl_at(data@, pos as int, y) by {
                    if withdraw_repay_apl_at(data@, pos as int, y) {
                        lemma_at_same_len(
                            data@,
                            pos as int,
                            u64_bytes(y.repay_amount),
                            u64_bytes(repay_amount),
                        );
                        lemma_u64_bytes_injective(y.repay_amount, repay_amount);
                    }
                }
            }
            return None;
        },
    };
    proof {
        lemma_bytes_at_of_subrange(data@, p1 as int, p2 as int, u64_bytes(withdraw_amount));
    }
    let (repay_all, p3) = match take_bool(data, p2) {
        Some(v) => v,
        None => {
            proof {
                assert forall|y: WithdrawRepayAplInstruction|
                    !#[trigger] withdraw_repay_apl_at(data@, pos as int, y) by {
                    if withdraw_repay_apl_at(data@, pos as int, y) {
                        lemma_at_same_len(
                            data@,
                            pos as int,
                            u64_bytes(y.repay_amount),
                            u64_bytes(repay_amount),
                        );
                        lemma_u64_bytes_injective(y.repay_amount, repay_amount);
                        lemma_at_same_len(
                            data@,
                            pos as int + 8int,
                            u64_bytes(y.withdraw_amount),
                            u64_bytes(withdraw_amount),
                        );
                        lemma_u64_bytes_injective(y.withdraw_amount, withdraw_amount);
                    }
                }
            }
            return None;
        },
    };
    let (withdraw_all, p4) = match take_bool(data, p3) {
        Some(v) => v,
        None => {
            proof {
                assert forall|y: WithdrawRepayAplInstruction|
                    !#[trigger] withdraw_repay_apl_at(data@, pos as int, y) by {
                    if withdraw_repay_apl_at(data@, pos as int, y) {
                        lemma_at_same_len(
                            data@,
                            pos as int,
                            u64_bytes(y.repay_amount),
                            u64_bytes(repay_amount),
                        );
                        lemma_u64_bytes_injective(y.repay_amount, repay_amount);
                        lemma_at_same_len(
                            data@,
                            pos as int + 8int,
                            u64_bytes(y.withdraw_amount),
                            u64_bytes(withdraw_amount),
                        );
                        lemma_u64_bytes_injective(y.withdraw_amount, withdraw_amount);
                        lemma_bool_at_unique(
                            data@,
                            pos as int + 8int + 8int,
                            y.repay_all,
                            repay_all,
                        );
                    }
                }
            }
            return None;
        },
    };
    let (ix_callback, p5) = match read_callback(data, p4) {
        Some(v) => v,
        None => {
            proof {
                assert forall|y: WithdrawRepayAplInstruction|
                    !#[trigger] withdraw_repay_apl_at(data@, pos as int, y) by {
                    if withdraw_repay_apl_at(data@, pos as int, y) {
                        lemma_at_same_len(
                            data@,
                            pos as int,
                            u64_bytes(y.repay_amount),
                            u64_bytes(repay_amount),
                        );
                        lemma_u64_bytes_injective(y.repay_amount, repay_amount);
                        lemma_at_same_len(
                            data@,
                            pos as int + 8int,
                            u64_bytes(y.withdraw_amount),
                            u64_bytes(withdraw_amount),
                        );
                        lemma_u64_bytes_injective(y.withdraw_amount, withdraw_amount);
                        lemma_bool_at_unique(
                            data@,
                            pos as int + 8int + 8int,
                            y.repay_all,
                            repay_all,
                        );
                        lemma_bool_at_unique(
                            data@,
                            pos as int + 8int + 8int + 1int,
                            y.withdraw_all,
                            withdraw_all,
                        );
                    }
                }
            }
            return None;
        },
    };
    let x = WithdrawRepayAplInstruction {
        repay_amount,
        withdraw_amount,
        repay_all,
        withdraw_all,
        ix_callback,
    };
    Some((x, p5))
}

pub proof fn lemma_create_supply_position_wire_at(
    d: Seq<u8>,
    pos: int,
    x: CreateSupplyPositionInstruction,
)
    requires
        bytes_at(d, pos, seq![x.bump]),
    ensures
        create_supply_position_at(d, pos, x),
        create_supply_position_len(x) == seq![x.bump].len(),
{
    assert(seq![x.bump] =~= seq![x.bump]);
}

pub proof fn lemma_supply_apl_wire_at(d: Seq<u8>, pos: int, x: SupplyAplInstruction)
    requires
        bytes_at(d, pos, u64_bytes(x.amount)),
    ensures
        supply_apl_at(d, pos, x),
        supply_apl_len(x) == u64_bytes(x.amount).len(),
{
    assert(u64_bytes(x.amount) =~= u64_bytes(x.amount));
}

pub proof fn lemma_withdraw_supply_wire_at(d: Seq<u8>, pos: int, x: WithdrawSupplyInstruction)
    requires
        bytes_at(d, pos, x.wire()),
    ensures
        withdraw_supply_at(d, pos, x),
        withdraw_supply_len(x) == x.wire().len(),
{
    assert(x.wire() =~= u64_bytes(x.amount) + bool_bytes(x.withdraw_all));
    lemma_bytes_at_concat(d, pos, u64_bytes(x.amount), bool_bytes(x.withdraw_all));
}

pub proof fn lemma_donate_supply_wire_at(d: Seq<u8>, pos: int, x: DonateSupplyInstruction)
    requires
        bytes_at(d, pos, u64_bytes(x.amount)),
    ensures
        donate_supply_at(d, pos, x),
        donate_supply_len(x) == u64_bytes(x.amount).len(),
{
    assert(u64_bytes(x.amount) =~= u64_bytes(x.amount));
}

pub proof fn lemma_create_borrow_position_wire_at(
    d: Seq<u8>,
    pos: int,
    x: CreateBorrowPositionInstruction,
)
    requires
        bytes_at(d, pos, seq![x.bump]),
    ensures
        create_borrow_position_at(d, pos, x),
        create_borrow_position_len(x) == seq![x.bump].len(),
{
    assert(seq![x.bump] =~= seq![x.bump]);
}

pub proof fn lemma_borrow_apl_wire_at(d: Seq<u8>, pos: int, x: BorrowAplInstruction)
    requires
        bytes_at(d, pos, u64_bytes(x.amount)),
    ensures
        borrow_apl_at(d, pos, x),
        borrow_apl_len(x) == u64_bytes(x.amount).len(),
{
    assert(u64_bytes(x.amount) =~= u64_bytes(x.amount));
}

pub proof fn lemma_deposit_apl_collateral_wire_at(
    d: Seq<u8>,
    pos: int,
    x: DepositAplCollateralInstruction,
)
    requires
        bytes_at(d, pos, u64_bytes(x.amount)),
    ensures
        deposit_apl_collateral_at(d, pos, x),
        deposit_apl_collateral_len(x) == u64_bytes(x.amount).len(),
{
    assert(u64_bytes(x.amount) =~= u64_bytes(x.amount));
}

pub proof fn lemma_withdraw_apl_collateral_wire_at(
    d: Seq<u8>,
    pos: int,
    x: WithdrawAplCollateralInstruction,
)
    requires
        bytes_at(d, pos, x.wire()),
    ensures
        withdraw_apl_collateral_at(d, pos, x),
        withdraw_apl_collateral_len(x) == x.wire().len(),
{
    assert(x.wire() =~= u64_bytes(x.amount) + bool_bytes(x.withdraw_all));
    lemma_bytes_at_concat(d, pos, u64_bytes(x.amount), bool_bytes(x.withdraw_all));
}

pub proof fn lemma_repay_apl_wire_at(d: Seq<u8>, pos: int, x: RepayAplInstruction)
    requires
        bytes_at(d, pos, x.wire()),
    ensures
        repay_apl_at(d, pos, x),
        repay_apl_len(x) == x.wire().len(),
{
    assert(x.wire() =~= u64_bytes(x.amount) + bool_bytes(x.repay_all));
    lemma_bytes_at_concat(d, pos, u64_bytes(x.amount), bool_bytes(x.repay_all));
}

pub proof fn lemma_create_global_config_wire_at(
    d: Seq<u8>,
    pos: int,
    x: CreateGlobalConfigInstruction,
)
    requires
        bytes_at(d, pos, x.wire()),
    ensures
        create_global_config_at(d, pos, x),
        create_global_config_len(x) == x.wire().len(),
{
    assert(x.wire() =~= seq![x.bump]
        + x.admin.0@
        + x.fee_receiver.0@
        + u16_bytes(x.protocol_fee_share_in_bps));
    lemma_bytes_at_concat(
        d,
        pos,
        seq![x.bump] + x.admin.0@ + x.fee_receiver.0@,
        u16_bytes(x.protocol_fee_share_in_bps),
    );
    lemma_bytes_at_concat(d, pos, seq![x.bump] + x.admin.0@, x.fee_receiver.0@);
    lemma_bytes_at_concat(d, pos, seq![x.bump], x.admin.0@);
}

pub proof fn lemma_update_global_config_wire_at(
    d: Seq<u8>,
    pos: int,
    x: UpdateGlobalConfigInstruction,
)
    requires
        bytes_at(d, pos, x.wire()),
    ensures
        update_global_config_at(d, pos, x),
        update_global_config_len(x) == x.wire().len(),
{
    assert(x.wire() =~= bool_bytes(x.accept_nomination)
        + opt_key_bytes(x.nominated_admin)
        + opt_key_bytes(x.fee_receiver)
        + opt_u16_bytes(x.protocol_fee_share_in_bps));
    lemma_bytes_at_concat(
        d,
        pos,
        bool_bytes(x.accept_nomination)
            + opt_key_bytes(x.nominated_admin)
            + opt_key_bytes(x.fee_receiver),
        opt_u16_bytes(x.protocol_fee_share_in_bps),
    );
    lemma_bytes_at_concat(
        d,
        pos,
        bool_bytes(x.accept_nomination) + opt_key_bytes(x.nominated_admin),
        opt_key_bytes(x.fee_receiver),
    );
    lemma_bytes_at_concat(
        d,
        pos,
        bool_bytes(x.accept_nomination),
        opt_key_bytes(x.nominated_admin),
    );
}

pub proof fn lemma_create_market_wire_at(d: Seq<u8>, pos: int, x: CreateMarketInstruction)
    requires
        bytes_at(d, pos, x.wire()),
        canonical_oracle_config(x.supply_oracle_config),
        canonical_oracle_config(x.collateral_oracle_config),
    ensures
        create_market_at(d, pos, x),
        create_market_len(x) == x.wire().len(),
{
    x.supply_oracle_config.lemma_wire_len();
    x.collateral_oracle_config.lemma_wire_len();
    assert(seq![x.market_bump, x.index] =~= seq![x.market_bump] + seq![x.index]);
    assert(x.wire() == seq![x.market_bump]
        + seq![x.index]
        + x.ltv_config.wire()
        + fixed_bytes(x.max_utilisation_rate)
        + x.supply_oracle_config.wire()
        + x.collateral_oracle_config.wire()
        + x.interest_rate.wire()
        + u16_bytes(x.lending_market_fee_in_bps));
    lemma_bytes_at_concat(
        d,
        pos,
        seq![x.market_bump]
            + seq![x.index]
            + x.ltv_config.wire()
            + fixed_bytes(x.max_utilisation_rate)
            + x.supply_oracle_config.wire()
            + x.collateral_oracle_config.wire()
            + x.interest_rate.wire(),
        u16_bytes(x.lending_market_fee_in_bps),
    );
    lemma_bytes_at_concat(
        d,
        pos,
        seq![x.market_bump]
            + seq![x.index]
            + x.ltv_config.wire()
            + fixed_bytes(x.max_utilisation_rate)
            + x.supply_oracle_config.wire()
            + x.collateral_oracle_config.wire(),
        x.interest_rate.wire(),
    );
    lemma_bytes_at_concat(
        d,
        pos,
        seq![x.market_bump]
            + seq![x.index]
            + x.ltv_config.wire()
            + fixed_bytes(x.max_utilisation_rate)
            + x.supply_oracle_config.wire(),
        x.collateral_oracle_config.wire(),
    );
    lemma_bytes_at_concat(
        d,
        pos,
        seq![x.market_bump]
            + seq![x.index]
            + x.ltv_config.wire()
            + fixed_bytes(x.max_utilisation_rate),
        x.supply_oracle_config.wire(),
    );
    lemma_bytes_at_concat(
        d,
        pos,
        seq![x.market_bump] + seq![x.index] + x.ltv_config.wire(),
        fixed_bytes(x.max_utilisation_rate),
    );
    lemma_bytes_at_concat(d, pos, seq![x.market_bump] + seq![x.index], x.ltv_config.wire());
    lemma_bytes_at_concat(d, pos, seq![x.market_bump], seq![x.index]);
    lemma_ltv_config_wire_at(
        d,
        pos + seq![x.market_bump].len() + seq![x.index].len(),
        x.ltv_config,
    );
    lemma_oracle_config_wire_at(
        d,
        pos
            + seq![x.market_bump].len()
            + seq![x.index].len()
            + x.ltv_config.wire().len()
            + fixed_bytes(x.max_utilisation_rate).len(),
        x.supply_oracle_config,
    );
    lemma_oracle_config_wire_at(
        d,
        pos
            + seq![x.market_bump].len()
            + seq![x.index].len()
            + x.ltv_config.wire().len()
            + fixed_bytes(x.max_utilisation_rate).len()
            + x.supply_oracle_config.wire().len(),
        x.collateral_oracle_config,
    );
}

pub proof fn lemma_update_config_wire_at(d: Seq<u8>, pos: int, x: UpdateConfigInstruction)
    requires
        bytes_at(d, pos, x.wire()),
        (x.supply_oracle_config matches Some(c) ==> canonical_oracle_config(c)),
        (x.collateral_oracle_config matches Some(c) ==> canonical_oracle_config(c)),
    ensures
        update_config_at(d, pos, x),
        update_config_len(x) == x.wire().len(),
{
    assert(x.wire() =~= opt_oracle_config_bytes(x.supply_oracle_config)
        + opt_oracle_config_bytes(x.collateral_oracle_config)
        + opt_ltv_config_bytes(x.ltv_config)
        + opt_u64_bytes(x.max_supply_atoms)
        + opt_fixed_bytes(x.max_utilisation_rate)
        + opt_u16_bytes(x.lending_market_fee_in_bps));
    lemma_bytes_at_concat(
        d,
        pos,
        opt_oracle_config_bytes(x.supply_oracle_config)
            + opt_oracle_config_bytes(x.collateral_oracle_config)
            + opt_ltv_config_bytes(x.ltv_config)
            + opt_u64_bytes(x.max_supply_atoms)
            + opt_fixed_bytes(x.max_utilisation_rate),
        opt_u16_bytes(x.lending_market_fee_in_bps),
    );
    lemma_bytes_at_concat(
        d,
        pos,
        opt_oracle_config_bytes(x.supply_oracle_config)
            + opt_oracle_config_bytes(x.collateral_oracle_config)
            + opt_ltv_config_bytes(x.ltv_config)
            + opt_u64_bytes(x.max_supply_atoms),
        opt_fixed_bytes(x.max_utilisation_rate),
    );
    lemma_bytes_at_concat(
        d,
        pos,
        opt_oracle_config_bytes(x.supply_oracle_config)
            + opt_oracle_config_bytes(x.collateral_oracle_config)
            + opt_ltv_config_bytes(x.ltv_config),
        opt_u64_bytes(x.max_supply_atoms),
    );
    lemma_bytes_at_concat(
        d,
        pos,
        opt_oracle_config_bytes(x.supply_oracle_config)
            + opt_oracle_config_bytes(x.collateral_oracle_config),
        opt_ltv_config_bytes(x.ltv_config),
    );
    lemma_bytes_at_concat(
        d,
        pos,
        opt_oracle_config_bytes(x.supply_oracle_config),
        opt_oracle_config_bytes(x.collateral_oracle_config),
    );
    lemma_opt_oracle_config_wire_at(d, pos, x.supply_oracle_config);
    lemma_opt_oracle_config_wire_at(
        d,
        pos + opt_oracle_config_bytes(x.supply_oracle_config).len(),
        x.collateral_oracle_config,
    );
    lemma_opt_ltv_config_wire_at(
        d,
        pos
            + opt_oracle_config_bytes(x.supply_oracle_config).len()
            + opt_oracle_config_bytes(x.collateral_oracle_config).len(),
        x.ltv_config,
    );
}

pub proof fn lemma_liquidate_wire_at(d: Seq<u8>, pos: int, x: LiquidateInstruction)
    requires
        bytes_at(d, pos, x.wire()),
        callback_fits(x.ix_callback),
    ensures
        liquidate_at(d, pos, x),
        liquidate_len(x) == x.wire().len(),
{
    assert(x.wire() =~= u64_bytes(x.max_borrowed_atoms_to_repay)
        + u64_bytes(x.min_collateral_atoms_to_receive)
        + callback_bytes(x.ix_callback));
    lemma_bytes_at_concat(
        d,
        pos,
        u64_bytes(x.max_borrowed_atoms_to_repay) + u64_bytes(x.min_collateral_atoms_to_receive),
        callback_bytes(x.ix_callback),
    );
    lemma_bytes_at_concat(
        d,
        pos,
        u64_bytes(x.max_borrowed_atoms_to_repay),
        u64_bytes(x.min_collateral_atoms_to_receive),
    );
}

pub proof fn lemma_borrow_deposit_apl_wire_at(d: Seq<u8>, pos: int, x: BorrowDepositAplInstruction)
    requires
        bytes_at(d, pos, x.wire()),
        callback_fits(x.ix_callback),
    ensures
        borrow_deposit_apl_at(d, pos, x),
        borrow_deposit_apl_len(x) == x.wire().len(),
{
    assert(x.wire() =~= u64_bytes(x.deposit_amount)
        + u64_bytes(x.borrow_amount)
        + callback_bytes(x.ix_callback));
    lemma_bytes_at_concat(
        d,
        pos,
        u64_bytes(x.deposit_amount) + u64_bytes(x.borrow_amount),
        callback_bytes(x.ix_callback),
    );
    lemma_bytes_at_concat(d, pos, u64_bytes(x.deposit_amount), u64_bytes(x.borrow_amount));
}

pub proof fn lemma_withdraw_repay_apl_wire_at(d: Seq<u8>, pos: int, x: WithdrawRepayAplInstruction)
    requires
        bytes_at(d, pos, x.wire()),
        callback_fits(x.ix_callback),
    ensures
        withdraw_repay_apl_at(d, pos, x),
        withdraw_repay_apl_len(x) == x.wire().len(),
{
    assert(x.wire() =~= u64_bytes(x.repay_amount)
        + u64_bytes(x.withdraw_amount)
        + bool_bytes(x.repay_all)
        + bool_bytes(x.withdraw_all)
        + callback_bytes(x.ix_callback));
    lemma_bytes_at_concat(
        d,
        pos,
        u64_bytes(x.repay_amount)
            + u64_bytes(x.withdraw_amount)
            + bool_bytes(x.repay_all)
            + bool_bytes(x.withdraw_all),
        callback_bytes(x.ix_callback),
    );
    lemma_bytes_at_concat(
        d,
        pos,
        u64_bytes(x.repay_amount) + u64_bytes(x.withdraw_amount) + bool_bytes(x.repay_all),
        bool_bytes(x.withdraw_all),
    );
    lemma_bytes_at_concat(
        d,
        pos,
        u64_bytes(x.repay_amount) + u64_bytes(x.withdraw_amount),
        bool_bytes(x.repay_all),
    );
    lemma_bytes_at_concat(d, pos, u64_bytes(x.repay_amount), u64_bytes(x.withdraw_amount));
}

/// The bytes at `pos` hold the instruction `ix`: its tag, then its
/// arguments.
pub open spec fn instruction_data_at(d: Seq<u8>, pos: int, ix: AurataInstruction) -> bool {
    &&& 0 <= pos < d.len()
    &&& match ix {
        AurataInstruction::CreateMarket(x) => d[pos] == 0 && create_market_at(d, pos + 1, x),
        AurataInstruction::CreateSupplyPosition(x) => d[pos] == 1 && create_supply_position_at(d, pos + 1, x),
        AurataInstruction::SupplyApl(x) => d[pos] == 2 && supply_apl_at(d, pos + 1, x),
        AurataInstruction::WithdrawSupply(x) => d[pos] == 3 && withdraw_supply_at(d, pos + 1, x),
        AurataInstruction::CreateBorrowPosition(x) => d[pos] == 4 && create_borrow_position_at(d, pos + 1, x),
        AurataInstruction::DepositAplCollateral(x) => d[pos] == 5 && deposit_apl_collateral_at(d, pos + 1, x),
        AurataInstruction::WithdrawAplCollateral(x) => d[pos] == 6 && withdraw_apl_collateral_at(d, pos + 1, x),
        AurataInstruction::BorrowApl(x) => d[pos] == 7 && borrow_apl_at(d, pos + 1, x),
        AurataInstruction::RepayApl(x) => d[pos] == 8 && repay_apl_at(d, pos + 1, x),
        AurataInstruction::UpdateConfig(x) => d[pos] == 9 && update_config_at(d, pos + 1, x),
        AurataInstruction::Liquidate(x) => d[pos] == 10 && liquidate_at(d, pos + 1, x),
        AurataInstruction::Log => d[pos] == 11,
        AurataInstruction::CreateGlobalConfig(x) => d[pos] == 12 && create_global_config_at(d, pos + 1, x),
        AurataInstruction::ReedeemCuratorFees => d[pos] == 13,
        AurataInstruction::ReedeemProtocolFees => d[pos] == 14,
        AurataInstruction::UpdateGlobalConfig(x) => d[pos] == 15 && update_global_config_at(d, pos + 1, x),
        AurataInstruction::BorrowDepositApl(x) => d[pos] == 16 && borrow_deposit_apl_at(d, pos + 1, x),
        AurataInstruction::WithdrawRepayApl(x) => d[pos] == 17 && withdraw_repay_apl_at(d, pos + 1, x),
        AurataInstruction::SocializeLoss(_) => d[pos] == 18,
        AurataInstruction::DonateSupply(x) => d[pos] == 19 && donate_supply_at(d, pos + 1, x),
    }
}

/// The number of bytes of the instruction `ix`.
pub open spec fn instruction_data_len(ix: AurataInstruction) -> int {
    1 + match ix {
        AurataInstruction::CreateMarket(x) => create_market_len(x),
        AurataInstruction::CreateSupplyPosition(x) => create_supply_position_len(x),
        AurataInstruction::SupplyApl(x) => supply_apl_len(x),
        AurataInstruction::WithdrawSupply(x) => withdraw_supply_len(x),
        AurataInstruction::CreateBorrowPosition(x) => create_borrow_position_len(x),
        AurataInstruction::DepositAplCollateral(x) => deposit_apl_collateral_len(x),
        AurataInstruction::WithdrawAplCollateral(x) => withdraw_apl_collateral_len(x),
        AurataInstruction::BorrowApl(x) => borrow_apl_len(x),
        AurataInstruction::RepayApl(x) => repay_apl_len(x),
        AurataInstruction::UpdateConfig(x) => update_config_len(x),
        AurataInstruction::Liquidate(x) => liquidate_len(x),
        AurataInstruction::Log => 0,
        AurataInstruction::CreateGlobalConfig(x) => create_global_config_len(x),
        AurataInstruction::ReedeemCuratorFees => 0,
        AurataInstruction::ReedeemProtocolFees => 0,
        AurataInstruction::UpdateGlobalConfig(x) => update_global_config_len(x),
        AurataInstruction::BorrowDepositApl(x) => borrow_deposit_apl_len(x),
        AurataInstruction::WithdrawRepayApl(x) => withdraw_repay_apl_len(x),
        AurataInstruction::SocializeLoss(_) => 0,
        AurataInstruction::DonateSupply(x) => donate_supply_len(x),
    }
}

/// Instructions compared by their contents: callbacks by their program,
/// accounts and data.
pub open spec fn same_aurata_instruction(a: AurataInstruction, b: AurataInstruction) -> bool {
    match (a, b) {
        (AurataInstruction::Liquidate(x), AurataInstruction::Liquidate(y)) => x.max_borrowed_atoms_to_repay
            == y.max_borrowed_atoms_to_repay && x.min_collateral_atoms_to_receive
            == y.min_collateral_atoms_to_receive && same_callback(x.ix_callback, y.ix_callback),
        (AurataInstruction::BorrowDepositApl(x), AurataInstruction::BorrowDepositApl(y)) => x.deposit_amount
            == y.deposit_amount && x.borrow_amount == y.borrow_amount && same_callback(
            x.ix_callback,
            y.ix_callback,
        ),
        (AurataInstruction::WithdrawRepayApl(x), AurataInstruction::WithdrawRepayApl(y)) => x.repay_amount
            == y.repay_amount && x.withdraw_amount == y.withdraw_amount && x.repay_all == y.repay_all
            && x.withdraw_all == y.withdraw_all && same_callback(x.ix_callback, y.ix_callback),
        _ => a == b,
    }
}

/// An instruction the wire can carry as it is: its callback fits and its
/// oracle configs have no zero settings.
pub open spec fn canonical_instruction(ix: AurataInstruction) -> bool {
    &&& ix.fits()
    &&& match ix {
        AurataInstruction::CreateMarket(x) => canonical_oracle_config(x.supply_oracle_config)
            && canonical_oracle_config(x.collateral_oracle_config),
        AurataInstruction::UpdateConfig(x) => (x.supply_oracle_config matches Some(c)
            ==> canonical_oracle_config(c)) && (x.collateral_oracle_config matches Some(c)
            ==> canonical_oracle_config(c)),
        _ => true,
    }
}

/// At most one instruction begins at a given place.
pub proof fn lemma_instruction_data_unique(
    d: Seq<u8>,
    pos: int,
    a: AurataInstruction,
    b: AurataInstruction,
)
    requires
        instruction_data_at(d, pos, a),
        instruction_data_at(d, pos, b),
    ensures
        same_aurata_instruction(a, b),
        instruction_data_len(a) == instruction_data_len(b),
{
    match (a, b) {
        (AurataInstruction::CreateMarket(x), AurataInstruction::CreateMarket(y)) => lemma_create_market_unique(d, pos + 1, x, y),
        (AurataInstruction::CreateSupplyPosition(x), AurataInstruction::CreateSupplyPosition(y)) => lemma_create_supply_position_unique(d, pos + 1, x, y),
        (AurataInstruction::SupplyApl(x), AurataInstruction::SupplyApl(y)) => lemma_supply_apl_unique(d, pos + 1, x, y),
        (AurataInstruction::WithdrawSupply(x), AurataInstruction::WithdrawSupply(y)) => lemma_withdraw_supply_unique(d, pos + 1, x, y),
        (AurataInstruction::CreateBorrowPosition(x), AurataInstruction::CreateBorrowPosition(y)) => lemma_create_borrow_position_unique(d, pos + 1, x, y),
        (AurataInstruction::DepositAplCollateral(x), AurataInstruction::DepositAplCollateral(y)) => lemma_deposit_apl_collateral_unique(d, pos + 1, x, y),
        (AurataInstruction::WithdrawAplCollateral(x), AurataInstruction::WithdrawAplCollateral(y)) => lemma_withdraw_apl_collateral_unique(d, pos + 1, x, y),
        (AurataInstruction::BorrowApl(x), AurataInstruction::BorrowApl(y)) => lemma_borrow_apl_unique(d, pos + 1, x, y),
        (AurataInstruction::RepayApl(x), AurataInstruction::RepayApl(y)) => lemma_repay_apl_unique(d, pos + 1, x, y),
        (AurataInstruction::UpdateConfig(x), AurataInstruction::UpdateConfig(y)) => lemma_update_config_unique(d, pos + 1, x, y),
        (AurataInstruction::Liquidate(x), AurataInstruction::Liquidate(y)) => {
            lemma_at_same_len(
                d,
                pos + 1,
                u64_bytes(x.max_borrowed_atoms_to_repay),
                u64_bytes(y.max_borrowed_atoms_to_repay),
            );
            lemma_u64_bytes_injective(x.max_borrowed_atoms_to_repay, y.max_borrowed_atoms_to_repay);
            lemma_at_same_len(
                d,
                pos + 1 + 8,
                u64_bytes(x.min_collateral_atoms_to_receive),
                u64_bytes(y.min_collateral_atoms_to_receive),
            );
            lemma_u64_bytes_injective(
                x.min_collateral_atoms_to_receive,
                y.min_collateral_atoms_to_receive,
            );
            lemma_callback_unique(d, pos + 1 + 8 + 8, x.ix_callback, y.ix_callback);
        },
        (AurataInstruction::CreateGlobalConfig(x), AurataInstruction::CreateGlobalConfig(y)) => lemma_create_global_config_unique(d, pos + 1, x, y),
        (AurataInstruction::UpdateGlobalConfig(x), AurataInstruction::UpdateGlobalConfig(y)) => lemma_update_global_config_unique(d, pos + 1, x, y),
        (AurataInstruction::BorrowDepositApl(x), AurataInstruction::BorrowDepositApl(y)) => {
            lemma_at_same_len(d, pos + 1, u64_bytes(x.deposit_amount), u64_bytes(y.deposit_amount));
            lemma_u64_bytes_injective(x.deposit_amount, y.deposit_amount);
            lemma_at_same_len(
                d,
                pos + 1 + 8,
                u64_bytes(x.borrow_amount),
                u64_bytes(y.borrow_amount),
            );
            lemma_u64_bytes_injective(x.borrow_amount, y.borrow_amount);
            lemma_callback_unique(d, pos + 1 + 8 + 8, x.ix_callback, y.ix_callback);
        },
        (AurataInstruction::WithdrawRepayApl(x), AurataInstruction::WithdrawRepayApl(y)) => {
            lemma_at_same_len(d, pos + 1, u64_bytes(x.repay_amount), u64_bytes(y.repay_amount));
            lemma_u64_bytes_injective(x.repay_amount, y.repay_amount);
            lemma_at_same_len(
                d,
                pos + 1 + 8,
                u64_bytes(x.withdraw_amount),
                u64_bytes(y.withdraw_amount),
            );
            lemma_u64_bytes_injective(x.withdraw_amount, y.withdraw_amount);
            lemma_bool_at_unique(d, pos + 1 + 8 + 8, x.repay_all, y.repay_all);
            lemma_bool_at_unique(d, pos + 1 + 8 + 8 + 1, x.withdraw_all, y.withdraw_all);
            lemma_callback_unique(d, pos + 1 + 8 + 8 + 1 + 1, x.ix_callback, y.ix_callback);
        },
        (AurataInstruction::DonateSupply(x), AurataInstruction::DonateSupply(y)) => lemma_donate_supply_unique(d, pos + 1, x, y),
        _ => {},
    }
}

/// The bytes of an instruction the wire can carry hold that instruction.
pub proof fn lemma_instruction_data_wire_at(d: Seq<u8>, pos: int, ix: AurataInstruction)
    requires
        bytes_at(d, pos, ix.wire()),
        canonical_instruction(ix),
    ensures
        instruction_data_at(d, pos, ix),
        instruction_data_len(ix) == ix.wire().len(),
{
    assert(d[pos] == ix.wire()[0]);
    match ix {
        AurataInstruction::CreateMarket(x) => {
            assert(ix.wire() =~= seq![0u8] + x.wire());
            lemma_bytes_at_concat(d, pos, seq![0u8], x.wire());
            lemma_create_market_wire_at(d, pos + 1, x);
        },
        AurataInstruction::CreateSupplyPosition(x) => {
            assert(ix.wire() =~= seq![1u8] + seq![x.bump]);
            lemma_bytes_at_concat(d, pos, seq![1u8], seq![x.bump]);
            lemma_create_supply_position_wire_at(d, pos + 1, x);
        },
        AurataInstruction::SupplyApl(x) => {
            assert(ix.wire() =~= seq![2u8] + u64_bytes(x.amount));
            lemma_bytes_at_concat(d, pos, seq![2u8], u64_bytes(x.amount));
            lemma_supply_apl_wire_at(d, pos + 1, x);
        },
        AurataInstruction::WithdrawSupply(x) => {
            assert(ix.wire() =~= seq![3u8] + x.wire());
            lemma_bytes_at_concat(d, pos, seq![3u8], x.wire());
            lemma_withdraw_supply_wire_at(d, pos + 1, x);
        },
        AurataInstruction::CreateBorrowPosition(x) => {
            assert(ix.wire() =~= seq![4u8] + seq![x.bump]);
            lemma_bytes_at_concat(d, pos, seq![4u8], seq![x.bump]);
            lemma_create_borrow_position_wire_at(d, pos + 1, x);
        },
        AurataInstruction::DepositAplCollateral(x) => {
            assert(ix.wire() =~= seq![5u8] + u64_bytes(x.amount));
            lemma_bytes_at_concat(d, pos, seq![5u8], u64_bytes(x.amount));
            lemma_deposit_apl_collateral_wire_at(d, pos + 1, x);
        },
        AurataInstruction::WithdrawAplCollateral(x) => {
            assert(ix.wire() =~= seq![6u8] + x.wire());
            lemma_bytes_at_concat(d, pos, seq![6u8], x.wire());
            lemma_withdraw_apl_collateral_wire_at(d, pos + 1, x);
        },
        AurataInstruction::BorrowApl(x) => {
            assert(ix.wire() =~= seq![7u8] + u64_bytes(x.amount));
            lemma_bytes_at_concat(d, pos, seq![7u8], u64_bytes(x.amount));
            lemma_borrow_apl_wire_at(d, pos + 1, x);
        },
        AurataInstruction::RepayApl(x) => {
            assert(ix.wire() =~= seq![8u8] + x.wire());
            lemma_bytes_at_concat(d, pos, seq![8u8], x.wire());
            lemma_repay_apl_wire_at(d, pos + 1, x);
        },
        AurataInstruction::UpdateConfig(x) => {
            assert(ix.wire() =~= seq![9u8] + x.wire());
            lemma_bytes_at_concat(d, pos, seq![9u8], x.wire());
            lemma_update_config_wire_at(d, pos + 1, x);
        },
        AurataInstruction::Liquidate(x) => {
            assert(ix.wire() =~= seq![10u8] + x.wire());
            lemma_bytes_at_concat(d, pos, seq![10u8], x.wire());
            lemma_liquidate_wire_at(d, pos + 1, x);
        },
        AurataInstruction::CreateGlobalConfig(x) => {
            assert(ix.wire() =~= seq![12u8] + x.wire());
            lemma_bytes_at_concat(d, pos, seq![12u8], x.wire());
            lemma_create_global_config_wire_at(d, pos + 1, x);
        },
        AurataInstruction::UpdateGlobalConfig(x) => {
            assert(ix.wire() =~= seq![15u8] + x.wire());
            lemma_bytes_at_concat(d, pos, seq![15u8], x.wire());
            lemma_update_global_config_wire_at(d, pos + 1, x);
        },
        AurataInstruction::BorrowDepositApl(x) => {
            assert(ix.wire() =~= seq![16u8] + x.wire());
            lemma_bytes_at_concat(d, pos, seq![16u8], x.wire());
            lemma_borrow_deposit_apl_wire_at(d, pos + 1, x);
        },
        AurataInstruction::WithdrawRepayApl(x) => {
            assert(ix.wire() =~= seq![17u8] + x.wire());
            lemma_bytes_at_concat(d, pos, seq![17u8], x.wire());
            lemma_withdraw_repay_apl_wire_at(d, pos + 1, x);
        },
        AurataInstruction::DonateSupply(x) => {
            assert(ix.wire() =~= seq![19u8] + u64_bytes(x.amount));
            lemma_bytes_at_concat(d, pos, seq![19u8], u64_bytes(x.amount));
            lemma_donate_supply_wire_at(d, pos + 1, x);
        },
        _ => {},
    }
}

/// What `AurataInstruction::try_from_slice` gives for `data`: an
/// instruction whose bytes are all of `data`, or none when there is none.
pub open spec fn reads_instruction(data: Seq<u8>, r: Option<AurataInstruction>) -> bool {
    &&& r matches Some(ix) ==> instruction_data_at(data, 0, ix) && canonical_instruction(ix)
        && instruction_data_len(ix) == data.len()
    &&& r is None ==> forall|y: AurataInstruction| #[trigger] instruction_data_at(data, 0, y)
        ==> instruction_data_len(y) != data.len()
}

impl AurataInstruction {
    /// Reads the instruction whose bytes begin at `pos`: the tag, then the
    /// arguments of that kind of instruction.
    pub fn deserialize(data: &[u8], pos: usize) -> (r: Option<(AurataInstruction, usize)>)
        ensures
            r matches Some((ix, p)) ==> instruction_data_at(data@, pos as int, ix) && canonical_instruction(ix)
                && p == pos + instruction_data_len(ix),
            r is None ==> forall|y: AurataInstruction| !#[trigger] instruction_data_at(data@, pos as int, y),
    {
        let (byte, p0) = match take_u8(data, pos) {
            Some(v) => v,
            None => return None,
        };
        proof {
            assert(data@.subrange(pos as int, p0 as int)[0] == data@[pos as int]);
        }
        let tag = match AurataInstructionTag::try_from(byte) {
            Ok(t) => t,
            Err(_) => return None,
        };
        match tag {
            AurataInstructionTag::CreateMarket => match read_create_market(data, p0) {
                Some((x, p)) => Some((AurataInstruction::CreateMarket(x), p)),
                None => {
                    proof {
                        assert forall|y: AurataInstruction|
                            !#[trigger] instruction_data_at(data@, pos as int, y) by {
                            if instruction_data_at(data@, pos as int, y) {
                                assert(y is CreateMarket);
                            }
                        }
                    }
                    None
                },
            },
            AurataInstructionTag::CreateSupplyPosition => match read_create_supply_position(data, p0) {
                Some((x, p)) => Some((AurataInstruction::CreateSupplyPosition(x), p)),
                None => {
                    proof {
                        assert forall|y: AurataInstruction|
                            !#[trigger] instruction_data_at(data@, pos as int, y) by {
                            if instruction_data_at(data@, pos as int, y) {
                                assert(y is CreateSupplyPosition);
                            }
                        }
                    }
                    None
                },
            },
            AurataInstructionTag::SupplyApl => match read_supply_apl(data, p0) {
                Some((x, p)) => Some((AurataInstruction::SupplyApl(x), p)),
                None => {
                    proof {
                        assert forall|y: AurataInstruction|
                            !#[trigger] instruction_data_at(data@, pos as int, y) by {
                            if instruction_data_at(data@, pos as int, y) {
                                assert(y is SupplyApl);
                            }
                        }
                    }
                    None
                },
            },
            AurataInstructionTag::WithdrawSupply => match read_withdraw_supply(data, p0) {
                Some((x, p)) => Some((AurataInstruction::WithdrawSupply(x), p)),
                None => {
                    proof {
                        assert forall|y: AurataInstruction|
                            !#[trigger] instruction_data_at(data@, pos as int, y) by {
                            if instruction_data_at(data@, pos as int, y) {
                                assert(y is WithdrawSupply);
                            }
                        }
                    }
                    None
                },
            },
            AurataInstructionTag::CreateBorrowPosition => match read_create_borrow_position(data, p0) {
                Some((x, p)) => Some((AurataInstruction::CreateBorrowPosition(x), p)),
                None => {
                    proof {
                        assert forall|y: AurataInstruction|
                            !#[trigger] instruction_data_at(data@, pos as int, y) by {
                            if instruction_data_at(data@, pos as int, y) {
                                assert(y is CreateBorrowPosition);
                            }
                        }
                    }
                    None
                },
            },
            AurataInstructionTag::DepositAplCollateral => match read_deposit_apl_collateral(data, p0) {
                Some((x, p)) => Some((AurataInstruction::DepositAplCollateral(x), p)),
                None => {
                    proof {
                        assert forall|y: AurataInstruction|
                            !#[trigger] instruction_data_at(data@, pos as int, y) by {
                            if instruction_data_at(data@, pos as int, y) {
                                assert(y is DepositAplCollateral);
                            }
                        }
                    }
                    None
                },
            },
            AurataInstructionTag::WithdrawAplCollateral => match read_withdraw_apl_collateral(data, p0) {
                Some((x, p)) => Some((AurataInstruction::WithdrawAplCollateral(x), p)),
                None => {
                    proof {
                        assert forall|y: AurataInstruction|
                            !#[trigger] instruction_data_at(data@, pos as int, y) by {
                            if instruction_data_at(data@, pos as int, y) {
                                assert(y is WithdrawAplCollateral);
                            }
                        }
                    }
                    None
                },
            },
            AurataInstructionTag::BorrowApl => match read_borrow_apl(data, p0) {
                Some((x, p)) => Some((AurataInstruction::BorrowApl(x), p)),
                None => {
                    proof {
                        assert forall|y: AurataInstruction|
                            !#[trigger] instruction_data_at(data@, pos as int, y) by {
                            if instruction_data_at(data@, pos as int, y) {
                                assert(y is BorrowApl);
                            }
                        }
                    }
                    None
                },
            },
            AurataInstructionTag::RepayApl => match read_repay_apl(data, p0) {
                Some((x, p)) => Some((AurataInstruction::RepayApl(x), p)),
                None => {
                    proof {
                        assert forall|y: AurataInstruction|
                            !#[trigger] instruction_data_at(data@, pos as int, y) by {
                            if instruction_data_at(data@, pos as int, y) {
                                assert(y is RepayApl);
                            }
                        }
                    }
                    None
                },
            },
            AurataInstructionTag::UpdateConfig => match read_update_config(data, p0) {
                Some((x, p)) => Some((AurataInstruction::UpdateConfig(x), p)),
                None => {
                    proof {
                        assert forall|y: AurataInstruction|
                            !#[trigger] instruction_data_at(data@, pos as int, y) by {
                            if instruction_data_at(data@, pos as int, y) {
                                assert(y is UpdateConfig);
                            }
                        }
                    }
                    None
                },
            },
            AurataInstructionTag::Liquidate => match read_liquidate(data, p0) {
                Some((x, p)) => Some((AurataInstruction::Liquidate(x), p)),
                None => {
                    proof {
                        assert forall|y: AurataInstruction|
                            !#[trigger] instruction_data_at(data@, pos as int, y) by {
                            if instruction_data_at(data@, pos as int, y) {
                                assert(y is Liquidate);
                            }
                        }
                    }
                    None
                },
            },
            AurataInstructionTag::Log => Some((AurataInstruction::Log, p0)),
            AurataInstructionTag::CreateGlobalConfig => match read_create_global_config(data, p0) {
                Some((x, p)) => Some((AurataInstruction::CreateGlobalConfig(x), p)),
                None => {
                    proof {
                        assert forall|y: AurataInstruction|
                            !#[trigger] instruction_data_at(data@, pos as int, y) by {
                            if instruction_data_at(data@, pos as int, y) {
                                assert(y is CreateGlobalConfig);
                            }
                        }
                    }
                    None
                },
            },
            AurataInstructionTag::ReedeemCuratorFees => Some((AurataInstruction::ReedeemCuratorFees, p0)),
            AurataInstructionTag::ReedeemProtocolFees => Some((AurataInstruction::ReedeemProtocolFees, p0)),
            AurataInstructionTag::UpdateGlobalConfig => match read_update_global_config(data, p0) {
                Some((x, p)) => Some((AurataInstruction::UpdateGlobalConfig(x), p)),
                None => {
                    proof {
                        assert forall|y: AurataInstruction|
                            !#[trigger] instruction_data_at(data@, pos as int, y) by {
                            if instruction_data_at(data@, pos as int, y) {
                                assert(y is UpdateGlobalConfig);
                            }
                        }
                    }
                    None
                },
            },
            AurataInstructionTag::BorrowDepositApl => match read_borrow_deposit_apl(data, p0) {
                Some((x, p)) => Some((AurataInstruction::BorrowDepositApl(x), p)),
                None => {
                    proof {
                        assert forall|y: AurataInstruction|
                            !#[trigger] instruction_data_at(data@, pos as int, y) by {
                            if instruction_data_at(data@, pos as int, y) {
                                assert(y is BorrowDepositApl);
                            }
                        }
                    }
                    None
                },
            },
            AurataInstructionTag::WithdrawRepayApl => match read_withdraw_repay_apl(data, p0) {
                Some((x, p)) => Some((AurataInstruction::WithdrawRepayApl(x), p)),
                None => {
                    proof {
                        assert forall|y: AurataInstruction|
                            !#[trigger] instruction_data_at(data@, pos as int, y) by {
                            if instruction_data_at(data@, pos as int, y) {
                                assert(y is WithdrawRepayApl);
                            }
                        }
                    }
                    None
                },
            },
            AurataInstructionTag::SocializeLoss => Some((AurataInstruction::SocializeLoss(SocializeLossInstruction {  }), p0)),
            AurataInstructionTag::DonateSupply => match read_donate_supply(data, p0) {
                Some((x, p)) => Some((AurataInstruction::DonateSupply(x), p)),
                None => {
                    proof {
                        assert forall|y: AurataInstruction|
                            !#[trigger] instruction_data_at(data@, pos as int, y) by {
                            if instruction_data_at(data@, pos as int, y) {
                                assert(y is DonateSupply);
                            }
                        }
                    }
                    None
                },
            },
        }
    }

    /// Reads an instruction that takes all of `data`; none when the bytes
    /// hold no instruction, or hold more than one.
    pub fn try_from_slice(data: &[u8]) -> (r: Option<AurataInstruction>)
        ensures
            reads_instruction(data@, r),
    {
        match AurataInstruction::deserialize(data, 0) {
            Some((ix, p)) => {
                if p == data.len() {
                    Some(ix)
                } else {
                    proof {
                        assert forall|y: AurataInstruction| #[trigger] instruction_data_at(data@, 0, y)
                            implies instruction_data_len(y) != data@.len() by {
                            lemma_instruction_data_unique(data@, 0, ix, y);
                        }
                    }
                    None
                }
            },
            None => None,
        }
    }
}

} // verus!
