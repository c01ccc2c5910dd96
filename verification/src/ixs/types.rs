//! The instructions of the program and the tags that open them on the wire.
use crate::ixs::admin::{CreateGlobalConfigInstruction, UpdateGlobalConfigInstruction};
use crate::ixs::borrow::{
    BorrowAplInstruction, BorrowDepositAplInstruction, CreateBorrowPositionInstruction,
    DepositAplCollateralInstruction, RepayAplInstruction, WithdrawAplCollateralInstruction,
    WithdrawRepayAplInstruction,
};
use crate::ixs::liquidation::{LiquidateInstruction, SocializeLossInstruction};
use crate::ixs::market::{CreateMarketInstruction, UpdateConfigInstruction};
use crate::ixs::supply::{
    CreateSupplyPositionInstruction, DonateSupplyInstruction, SupplyAplInstruction,
    WithdrawSupplyInstruction,
};
use crate::ixs::wire::{put_u64, put_u8, u64_bytes};
use vstd::prelude::*;

verus! {

/// The kind of an instruction, its first byte on the wire.
#[derive(Clone, Copy, Debug, PartialEq, Eq, Structural)]
pub enum AurataInstructionTag {
    /// Create an isolated market lending one token against another
    CreateMarket,
    /// Create a supply position
    CreateSupplyPosition,
    /// Supply tokens to a market
    SupplyApl,
    /// Withdraw supplied tokens
    WithdrawSupply,
    /// Create a borrow position
    CreateBorrowPosition,
    /// Deposit collateral
    DepositAplCollateral,
    /// Withdraw collateral
    WithdrawAplCollateral,
    /// Borrow from a market
    BorrowApl,
    /// Repay a borrow
    RepayApl,
    /// Update the market config
    UpdateConfig,
    /// Liquidate an unhealthy position
    Liquidate,
    /// Log an event
    Log,
    /// Create the global config
    CreateGlobalConfig,
    /// Redeem the curator fees
    ReedeemCuratorFees,
    /// Redeem the protocol fees
    ReedeemProtocolFees,
    /// Update the global config
    UpdateGlobalConfig,
    /// Borrow and deposit collateral at once
    BorrowDepositApl,
    /// Withdraw collateral and repay at once
    WithdrawRepayApl,
    /// Spread bad debt over the suppliers
    SocializeLoss,
    /// Donate tokens to the suppliers
    DonateSupply,
}

/// The tag of each byte value below 20, in declaration order.
pub open spec fn spec_tag_of(value: u8) -> Option<AurataInstructionTag> {
    if value == 0 {
        Some(AurataInstructionTag::CreateMarket)
    } else if value == 1 {
        Some(AurataInstructionTag::CreateSupplyPosition)
    } else if value == 2 {
        Some(AurataInstructionTag::SupplyApl)
    } else if value == 3 {
        Some(AurataInstructionTag::WithdrawSupply)
    } else if value == 4 {
        Some(AurataInstructionTag::CreateBorrowPosition)
    } else if value == 5 {
        Some(AurataInstructionTag::DepositAplCollateral)
    } else if value == 6 {
        Some(AurataInstructionTag::WithdrawAplCollateral)
    } else if value == 7 {
        Some(AurataInstructionTag::BorrowApl)
    } else if value == 8 {
        Some(AurataInstructionTag::RepayApl)
    } else if value == 9 {
        Some(AurataInstructionTag::UpdateConfig)
    } else if value == 10 {
        Some(AurataInstructionTag::Liquidate)
    } else if value == 11 {
        Some(AurataInstructionTag::Log)
    } else if value == 12 {
        Some(AurataInstructionTag::CreateGlobalConfig)
    } else if value == 13 {
        Some(AurataInstructionTag::ReedeemCuratorFees)
    } else if value == 14 {
        Some(AurataInstructionTag::ReedeemProtocolFees)
    } else if value == 15 {
        Some(AurataInstructionTag::UpdateGlobalConfig)
    } else if value == 16 {
        Some(AurataInstructionTag::BorrowDepositApl)
    } else if value == 17 {
        Some(AurataInstructionTag::WithdrawRepayApl)
    } else if value == 18 {
        Some(AurataInstructionTag::SocializeLoss)
    } else if value == 19 {
        Some(AurataInstructionTag::DonateSupply)
    } else {
        None
    }
}

impl AurataInstructionTag {
    /// The tag a byte encodes; the byte itself when it encodes none.
    pub fn try_from(value: u8) -> (r: Result<AurataInstructionTag, u8>)
        ensures
            match spec_tag_of(value) {
                Some(t) => r == Ok::<AurataInstructionTag, u8>(t),
                None => r == Err::<AurataInstructionTag, u8>(value),
            },
            r is Ok <==> value < 20,
    {
        match value {
            0 => Ok(AurataInstructionTag::CreateMarket),
            1 => Ok(AurataInstructionTag::CreateSupplyPosition),
            2 => Ok(AurataInstructionTag::SupplyApl),
            3 => Ok(AurataInstructionTag::WithdrawSupply),
            4 => Ok(AurataInstructionTag::CreateBorrowPosition),
            5 => Ok(AurataInstructionTag::DepositAplCollateral),
            6 => Ok(AurataInstructionTag::WithdrawAplCollateral),
            7 => Ok(AurataInstructionTag::BorrowApl),
            8 => Ok(AurataInstructionTag::RepayApl),
            9 => Ok(AurataInstructionTag::UpdateConfig),
            10 => Ok(AurataInstructionTag::Liquidate),
            11 => Ok(AurataInstructionTag::Log),
            12 => Ok(AurataInstructionTag::CreateGlobalConfig),
            13 => Ok(AurataInstructionTag::ReedeemCuratorFees),
            14 => Ok(AurataInstructionTag::ReedeemProtocolFees),
            15 => Ok(AurataInstructionTag::UpdateGlobalConfig),
            16 => Ok(AurataInstructionTag::BorrowDepositApl),
            17 => Ok(AurataInstructionTag::WithdrawRepayApl),
            18 => Ok(AurataInstructionTag::SocializeLoss),
            19 => Ok(AurataInstructionTag::DonateSupply),
            _ => Err(value),
        }
    }

    /// The byte that encodes the tag.
    pub fn to_u8(&self) -> (r: u8)
        ensures
            r < 20,
            spec_tag_of(r) == Some(*self),
    {
        match self {
            AurataInstructionTag::CreateMarket => 0,
            AurataInstructionTag::CreateSupplyPosition => 1,
            AurataInstructionTag::SupplyApl => 2,
            AurataInstructionTag::WithdrawSupply => 3,
            AurataInstructionTag::CreateBorrowPosition => 4,
            AurataInstructionTag::DepositAplCollateral => 5,
            AurataInstructionTag::WithdrawAplCollateral => 6,
            AurataInstructionTag::BorrowApl => 7,
            AurataInstructionTag::RepayApl => 8,
            AurataInstructionTag::UpdateConfig => 9,
            AurataInstructionTag::Liquidate => 10,
            AurataInstructionTag::Log => 11,
            AurataInstructionTag::CreateGlobalConfig => 12,
            AurataInstructionTag::ReedeemCuratorFees => 13,
            AurataInstructionTag::ReedeemProtocolFees => 14,
            AurataInstructionTag::UpdateGlobalConfig => 15,
            AurataInstructionTag::BorrowDepositApl => 16,
            AurataInstructionTag::WithdrawRepayApl => 17,
            AurataInstructionTag::SocializeLoss => 18,
            AurataInstructionTag::DonateSupply => 19,
        }
    }
}

/// An instruction of the program with its arguments.
#[derive(Clone, Debug)]
pub enum AurataInstruction {
    CreateMarket(CreateMarketInstruction),
    CreateSupplyPosition(CreateSupplyPositionInstruction),
    SupplyApl(SupplyAplInstruction),
    WithdrawSupply(WithdrawSupplyInstruction),
    CreateBorrowPosition(CreateBorrowPositionInstruction),
    BorrowApl(BorrowAplInstruction),
    DepositAplCollateral(DepositAplCollateralInstruction),
    WithdrawAplCollateral(WithdrawAplCollateralInstruction),
    RepayApl(RepayAplInstruction),
    UpdateConfig(UpdateConfigInstruction),
    Liquidate(LiquidateInstruction),
    Log,
    CreateGlobalConfig(CreateGlobalConfigInstruction),
    ReedeemCuratorFees,
    ReedeemProtocolFees,
    UpdateGlobalConfig(UpdateGlobalConfigInstruction),
    BorrowDepositApl(BorrowDepositAplInstruction),
    WithdrawRepayApl(WithdrawRepayAplInstruction),
    SocializeLoss(SocializeLossInstruction),
    DonateSupply(DonateSupplyInstruction),
}

impl AurataInstruction {
    /// The instruction's data: the byte of its tag, then its arguments.
    pub open spec fn wire(&self) -> Seq<u8> {
        match *self {
            AurataInstruction::CreateMarket(ix) => seq![0u8] + ix.wire(),
            AurataInstruction::CreateSupplyPosition(ix) => seq![1u8, ix.bump],
            AurataInstruction::SupplyApl(ix) => seq![2u8] + u64_bytes(ix.amount),
            AurataInstruction::WithdrawSupply(ix) => seq![3u8] + ix.wire(),
            AurataInstruction::CreateBorrowPosition(ix) => seq![4u8, ix.bump],
            AurataInstruction::DepositAplCollateral(ix) => seq![5u8] + u64_bytes(ix.amount),
            AurataInstruction::WithdrawAplCollateral(ix) => seq![6u8] + ix.wire(),
            AurataInstruction::BorrowApl(ix) => seq![7u8] + u64_bytes(ix.amount),
            AurataInstruction::RepayApl(ix) => seq![8u8] + ix.wire(),
            AurataInstruction::UpdateConfig(ix) => seq![9u8] + ix.wire(),
            AurataInstruction::Liquidate(ix) => seq![10u8] + ix.wire(),
            AurataInstruction::Log => seq![11u8],
            AurataInstruction::CreateGlobalConfig(ix) => seq![12u8] + ix.wire(),
            AurataInstruction::ReedeemCuratorFees => seq![13u8],
            AurataInstruction::ReedeemProtocolFees => seq![14u8],
            AurataInstruction::UpdateGlobalConfig(ix) => seq![15u8] + ix.wire(),
            AurataInstruction::BorrowDepositApl(ix) => seq![16u8] + ix.wire(),
            AurataInstruction::WithdrawRepayApl(ix) => seq![17u8] + ix.wire(),
            AurataInstruction::SocializeLoss(_) => seq![18u8],
            AurataInstruction::DonateSupply(ix) => seq![19u8] + u64_bytes(ix.amount),
        }
    }

    /// Whether the callback the instruction carries, if any, fits on the
    /// wire.
    pub open spec fn fits(&self) -> bool {
        match *self {
            AurataInstruction::Liquidate(ix) => ix.fits(),
            AurataInstruction::BorrowDepositApl(ix) => ix.fits(),
            AurataInstruction::WithdrawRepayApl(ix) => ix.fits(),
            _ => true,
        }
    }

    /// The tag of the instruction.
    pub open spec fn spec_tag(&self) -> AurataInstructionTag {
        match *self {
            AurataInstruction::CreateMarket(_) => AurataInstructionTag::CreateMarket,
            AurataInstruction::CreateSupplyPosition(_) => AurataInstructionTag::CreateSupplyPosition,
            AurataInstruction::SupplyApl(_) => AurataInstructionTag::SupplyApl,
            AurataInstruction::WithdrawSupply(_) => AurataInstructionTag::WithdrawSupply,
            AurataInstruction::CreateBorrowPosition(_) => AurataInstructionTag::CreateBorrowPosition,
            AurataInstruction::DepositAplCollateral(_) => AurataInstructionTag::DepositAplCollateral,
            AurataInstruction::WithdrawAplCollateral(_) => AurataInstructionTag::WithdrawAplCollateral,
            AurataInstruction::BorrowApl(_) => AurataInstructionTag::BorrowApl,
            AurataInstruction::RepayApl(_) => AurataInstructionTag::RepayApl,
            AurataInstruction::UpdateConfig(_) => AurataInstructionTag::UpdateConfig,
            AurataInstruction::Liquidate(_) => AurataInstructionTag::Liquidate,
            AurataInstruction::Log => AurataInstructionTag::Log,
            AurataInstruction::CreateGlobalConfig(_) => AurataInstructionTag::CreateGlobalConfig,
            AurataInstruction::ReedeemCuratorFees => AurataInstructionTag::ReedeemCuratorFees,
            AurataInstruction::ReedeemProtocolFees => AurataInstructionTag::ReedeemProtocolFees,
            AurataInstruction::UpdateGlobalConfig(_) => AurataInstructionTag::UpdateGlobalConfig,
            AurataInstruction::BorrowDepositApl(_) => AurataInstructionTag::BorrowDepositApl,
            AurataInstruction::WithdrawRepayApl(_) => AurataInstructionTag::WithdrawRepayApl,
            AurataInstruction::SocializeLoss(_) => AurataInstructionTag::SocializeLoss,
            AurataInstruction::DonateSupply(_) => AurataInstructionTag::DonateSupply,
        }
    }

    /// Appends the instruction's data to `out`.
    pub fn write_to(&self, out: &mut Vec<u8>)
        requires
            self.fits(),
        ensures
            final(out)@ == old(out)@ + self.wire(),
    {
        match self {
            AurataInstruction::CreateMarket(ix) => {
                put_u8(out, 0);
                ix.write_to(out);
            },
            AurataInstruction::CreateSupplyPosition(ix) => {
                put_u8(out, 1);
                put_u8(out, ix.bump);
            },
            AurataInstruction::SupplyApl(ix) => {
                put_u8(out, 2);
                put_u64(out, ix.amount);
            },
            AurataInstruction::WithdrawSupply(ix) => {
                put_u8(out, 3);
                ix.write_to(out);
            },
            AurataInstruction::CreateBorrowPosition(ix) => {
                put_u8(out, 4);
                put_u8(out, ix.bump);
            },
            AurataInstruction::DepositAplCollateral(ix) => {
                put_u8(out, 5);
                put_u64(out, ix.amount);
            },
            AurataInstruction::WithdrawAplCollateral(ix) => {
                put_u8(out, 6);
                ix.write_to(out);
            },
            AurataInstruction::BorrowApl(ix) => {
                put_u8(out, 7);
                put_u64(out, ix.amount);
            },
            AurataInstruction::RepayApl(ix) => {
                put_u8(out, 8);
                ix.write_to(out);
            },
            AurataInstruction::UpdateConfig(ix) => {
                put_u8(out, 9);
                ix.write_to(out);
            },
            AurataInstruction::Liquidate(ix) => {
                put_u8(out, 10);
                ix.write_to(out);
            },
            AurataInstruction::Log => put_u8(out, 11),
            AurataInstruction::CreateGlobalConfig(ix) => {
                put_u8(out, 12);
                ix.write_to(out);
            },
            AurataInstruction::ReedeemCuratorFees => put_u8(out, 13),
            AurataInstruction::ReedeemProtocolFees => put_u8(out, 14),
            AurataInstruction::UpdateGlobalConfig(ix) => {
                put_u8(out, 15);
                ix.write_to(out);
            },
            AurataInstruction::BorrowDepositApl(ix) => {
                put_u8(out, 16);
                ix.write_to(out);
            },
            AurataInstruction::WithdrawRepayApl(ix) => {
                put_u8(out, 17);
                ix.write_to(out);
            },
            AurataInstruction::SocializeLoss(_) => put_u8(out, 18),
            AurataInstruction::DonateSupply(ix) => {
                put_u8(out, 19);
                put_u64(out, ix.amount);
            },
        }
        proof {
            assert(out@ =~= old(out)@ + self.wire());
        }
    }

    /// The instruction's data.
    pub fn to_bytes(&self) -> (r: Vec<u8>)
        requires
            self.fits(),
        ensures
            r@ == self.wire(),
            spec_tag_of(r@[0]) == Some(self.spec_tag()),
    {
        let mut out: Vec<u8> = Vec::new();
        self.write_to(&mut out);
        proof {
            assert(out@ =~= self.wire());
        }
        out
    }
}

} // verus!
