//! The vault of the collateral token.
use crate::error::{LendingError, LendingResult};
use crate::math::safe_math::{u64_res, SafeMath};
use crate::oracle::oracle_config::OracleConfig;
use crate::pubkey::Pubkey;
use vstd::prelude::*;

verus! {

/// The vault of the collateral token.
#[derive(Debug, Clone, Copy, PartialEq, Eq)]
pub struct CollateralVault {
    /// The mint of the collateral token
    pub mint: Pubkey,
    /// The decimals of the collateral token mint
    pub mint_decimals: u64,
    /// The token account that holds the collateral tokens
    pub vault: Pubkey,
    /// The total amount of collateral tokens in atoms
    pub total_collateral_atoms: u64,
    /// The oracle configuration of the collateral token
    pub oracle_config: OracleConfig,
}

/// The vault with `atoms` more collateral.
pub open spec fn spec_cv_deposit(v: CollateralVault, atoms: u64) -> (LendingResult<()>, CollateralVault) {
    match u64_res(v.total_collateral_atoms + atoms, LendingError::AdditionOverflow) {
        Ok(t) => (Ok(()), CollateralVault { total_collateral_atoms: t, ..v }),
        Err(e) => (Err(e), v),
    }
}

/// The vault with `atoms` less collateral.
pub open spec fn spec_cv_withdraw(v: CollateralVault, atoms: u64) -> (LendingResult<()>, CollateralVault) {
    match u64_res(v.total_collateral_atoms - atoms, LendingError::SubtractionOverflow) {
        Ok(t) => (Ok(()), CollateralVault { total_collateral_atoms: t, ..v }),
        Err(e) => (Err(e), v),
    }
}

impl CollateralVault {
    /// Sets up the vault; decimals above 18 are refused with
    /// `UnsupportedMintDecimals`.
    pub fn initialize(&mut self, mint: Pubkey, mint_decimals: u64, vault: Pubkey, oracle_config: OracleConfig) -> (r:
        LendingResult<()>)
        ensures
            mint_decimals > 18 ==> r == Err::<(), LendingError>(LendingError::UnsupportedMintDecimals)
                && *final(self) == *old(self),
            mint_decimals <= 18 ==> r is Ok && *final(self) == (CollateralVault {
                mint,
                mint_decimals,
                vault,
                oracle_config,
                ..*old(self)
            }),
    {
        if mint_decimals > 18 {
            return Err(LendingError::UnsupportedMintDecimals);
        }
        self.mint = mint;
        self.mint_decimals = mint_decimals;
        self.vault = vault;
        self.oracle_config = oracle_config;
        Ok(())
    }

    pub fn mint(&self) -> (r: &Pubkey)
        ensures
            *r == self.mint,
    {
        &self.mint
    }

    pub fn mint_decimals(&self) -> (r: u8)
        requires
            self.mint_decimals <= 18,
        ensures
            r == self.mint_decimals,
    {
        self.mint_decimals as u8
    }

    pub fn vault(&self) -> (r: &Pubkey)
        ensures
            *r == self.vault,
    {
        &self.vault
    }

    pub fn set_oracle_config(&mut self, oracle_config: OracleConfig)
        ensures
            *final(self) == (CollateralVault { oracle_config, ..*old(self) }),
    {
        self.oracle_config = oracle_config;
    }

    pub fn oracle_config(&self) -> (r: &OracleConfig)
        ensures
            *r == self.oracle_config,
    {
        &self.oracle_config
    }

    pub fn total_collateral_atoms(&self) -> (r: u64)
        ensures
            r == self.total_collateral_atoms,
    {
        self.total_collateral_atoms
    }

    pub fn deposit_collateral(&mut self, atoms: u64) -> (r: LendingResult<()>)
        ensures
            (r, *final(self)) == spec_cv_deposit(*old(self), atoms),
    {
        self.total_collateral_atoms = match self.total_collateral_atoms.safe_add(atoms) {
            Ok(v) => v,
            Err(e) => return Err(e),
        };
        Ok(())
    }

    pub fn withdraw_collateral(&mut self, atoms: u64) -> (r: LendingResult<()>)
        ensures
            (r, *final(self)) == spec_cv_withdraw(*old(self), atoms),
    {
        self.total_collateral_atoms = match self.total_collateral_atoms.safe_sub(atoms) {
            Ok(v) => v,
            Err(e) => return Err(e),
        };
        Ok(())
    }
}

} // verus!
