//! Protocol-wide settings: admin, fee receiver and the protocol's share of
//! lending fees.
use crate::error::{LendingError, LendingResult};
use crate::math::bps::ONE_IN_BPS;
use crate::pubkey::Pubkey;
use vstd::prelude::*;

verus! {

/// The protocol share is taken out of the lending fee, so it can never
/// exceed 100%.
pub const MAX_PROTOCOL_FEE_SHARE_IN_BPS: u16 = 10_000;

/// Refuses a protocol fee share above 100% with `FeeTooHigh`.
pub fn validate_protocol_fee_share_in_bps(protocol_fee_share_in_bps: u16) -> (r: LendingResult<()>)
    ensures
        r == (if protocol_fee_share_in_bps > MAX_PROTOCOL_FEE_SHARE_IN_BPS {
            Err::<(), LendingError>(LendingError::FeeTooHigh)
        } else {
            Ok(())
        }),
{
    if protocol_fee_share_in_bps > MAX_PROTOCOL_FEE_SHARE_IN_BPS {
        return Err(LendingError::FeeTooHigh);
    }
    Ok(())
}

/// The all-zero address, which stands for "no address".
pub open spec fn is_zero_key(k: Pubkey) -> bool {
    forall|i: int| 0 <= i < 32 ==> k.0@[i] == 0
}

fn key_is_zero(k: &Pubkey) -> (r: bool)
    ensures
        r == is_zero_key(*k),
{
    let mut i: usize = 0;
    while i < 32
        invariant
            i <= 32,
            forall|j: int| 0 <= j < i ==> k.0@[j] == 0,
        decreases 32 - i,
    {
        if k.0[i] != 0 {
            return false;
        }
        i += 1;
    }
    true
}

/// Protocol-wide settings.
#[derive(Debug, Clone, Copy, Default, PartialEq, Eq)]
pub struct GlobalConfig {
    /// Admin who can manage fees and nominate a new admin
    pub admin: Pubkey,
    /// The nominated admin, who can take over as admin
    pub nominated_admin: Option<Pubkey>,
    /// Account which can redeem protocol fees
    pub fee_receiver: Pubkey,
    /// The protocol's share of the lending fee
    pub protocol_fee_share_in_bps: u16,
}

impl GlobalConfig {
    pub fn new(admin: Pubkey, fee_receiver: Pubkey, protocol_fee_share_in_bps: u16) -> (r: Self)
        ensures
            r == (GlobalConfig {
                admin,
                nominated_admin: None,
                fee_receiver,
                protocol_fee_share_in_bps,
            }),
    {
        GlobalConfig { admin, fee_receiver, protocol_fee_share_in_bps, nominated_admin: None }
    }

    /// Sets admin, fee receiver and share; a share above 100% is refused
    /// with `FeeTooHigh` and nothing changes.
    pub fn initialize(&mut self, admin: Pubkey, fee_receiver: Pubkey, protocol_fee_share_in_bps: u16) -> (r:
        LendingResult<()>)
        ensures
            protocol_fee_share_in_bps > MAX_PROTOCOL_FEE_SHARE_IN_BPS ==> r == Err::<
                (),
                LendingError,
            >(LendingError::FeeTooHigh) && *final(self) == *old(self),
            protocol_fee_share_in_bps <= MAX_PROTOCOL_FEE_SHARE_IN_BPS ==> r is Ok && *final(self)
                == (GlobalConfig { admin, fee_receiver, protocol_fee_share_in_bps, ..*old(self) }),
    {
        match validate_protocol_fee_share_in_bps(protocol_fee_share_in_bps) {
            Ok(_) => {},
            Err(e) => return Err(e),
        }
        self.admin = admin;
        self.fee_receiver = fee_receiver;
        self.protocol_fee_share_in_bps = protocol_fee_share_in_bps;
        Ok(())
    }

    pub fn admin(&self) -> (r: &Pubkey)
        ensures
            *r == self.admin,
    {
        &self.admin
    }

    pub fn fee_receiver(&self) -> (r: &Pubkey)
        ensures
            *r == self.fee_receiver,
    {
        &self.fee_receiver
    }

    /// Whether `key` is the nominated admin.
    pub fn can_upgrade_nomination(&self, key: &Pubkey) -> (r: bool)
        ensures
            r == (self.nominated_admin == Some(*key)),
    {
        match &self.nominated_admin {
            Some(n) => n.same_as(key),
            None => false,
        }
    }

    /// The nominated admin becomes the admin; `InvalidNomination` when there
    /// is none.
    pub fn upgrade_nomination(&mut self) -> (r: LendingResult<()>)
        ensures
            match old(self).nominated_admin {
                Some(n) => r is Ok && *final(self) == (GlobalConfig {
                    admin: n,
                    nominated_admin: None,
                    ..*old(self)
                }),
                None => r == Err::<(), LendingError>(LendingError::InvalidNomination) && *final(self)
                    == *old(self),
            },
    {
        match self.nominated_admin {
            Some(admin) => {
                self.nominated_admin = None;
                self.admin = admin;
                Ok(())
            },
            None => Err(LendingError::InvalidNomination),
        }
    }

    pub fn set_fee_receiver(&mut self, fee_receiver: Pubkey)
        ensures
            *final(self) == (GlobalConfig { fee_receiver, ..*old(self) }),
    {
        self.fee_receiver = fee_receiver;
    }

    /// Nominates `nominated_admin`; the all-zero address clears the
    /// nomination.
    pub fn set_nominated_admin(&mut self, nominated_admin: Pubkey)
        ensures
            *final(self) == (GlobalConfig {
                nominated_admin: if is_zero_key(nominated_admin) {
                    None
                } else {
                    Some(nominated_admin)
                },
                ..*old(self)
            }),
    {
        if key_is_zero(&nominated_admin) {
            self.nominated_admin = None;
        } else {
            self.nominated_admin = Some(nominated_admin);
        }
    }

    /// The admin and the fee receiver can redeem fees.
    pub fn can_redeem_fees(&self, key: &Pubkey) -> (r: bool)
        ensures
            r == (self.admin == *key || self.fee_receiver == *key),
    {
        self.admin.same_as(key) || self.fee_receiver.same_as(key)
    }

    /// Only the admin can update the configuration.
    pub fn can_update_config(&self, key: &Pubkey) -> (r: bool)
        ensures
            r == (self.admin == *key),
    {
        self.admin.same_as(key)
    }

    /// Sets the protocol fee share; above 100% is refused with `FeeTooHigh`
    /// and nothing changes.
    pub fn update_protocol_fee_share_in_bps(&mut self, new_fee: u16) -> (r: LendingResult<()>)
        ensures
            new_fee > MAX_PROTOCOL_FEE_SHARE_IN_BPS ==> r == Err::<(), LendingError>(
                LendingError::FeeTooHigh,
            ) && *final(self) == *old(self),
            new_fee <= MAX_PROTOCOL_FEE_SHARE_IN_BPS ==> r is Ok && *final(self) == (GlobalConfig {
                protocol_fee_share_in_bps: new_fee,
                ..*old(self)
            }),
    {
        match validate_protocol_fee_share_in_bps(new_fee) {
            Ok(_) => {},
            Err(e) => return Err(e),
        }
        self.protocol_fee_share_in_bps = new_fee;
        Ok(())
    }

    pub fn protocol_fee_share_in_bps(&self) -> (r: u16)
        ensures
            r == self.protocol_fee_share_in_bps,
    {
        self.protocol_fee_share_in_bps
    }
}

} // verus!
