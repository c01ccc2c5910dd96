//! Token programs and associated token accounts.
use crate::ixs::instruction::{readonly, writable, AccountMeta, Instruction};
use crate::pda::{program_address, try_find_program_address};
use crate::pubkey::Pubkey;
use vstd::prelude::*;
use vstd::slice::slice_to_vec;

verus! {

pub open spec fn system_program_bytes() -> Seq<u8> {
    Seq::new(32, |i: int| 0u8)
}

pub open spec fn apl_token_program_bytes() -> Seq<u8> {
    seq![
        6u8, 221, 246, 225, 185, 234, 132, 65, 44, 16, 184, 223, 2, 28, 16, 15,
        200, 135, 25, 7, 195, 9, 195, 53, 53, 222, 32, 156, 52, 23, 99, 191,
    ]
}

pub open spec fn ata_program_bytes() -> Seq<u8> {
    seq![
        140u8, 151, 35, 17, 132, 146, 123, 119, 181, 241, 128, 17, 143, 204, 104, 52,
        20, 183, 124, 82, 30, 90, 119, 8, 28, 247, 29, 95, 96, 106, 83, 132,
    ]
}

/// `arch_program::system_program::SYSTEM_PROGRAM_ID`, declared as the base58
/// text `11111111111111111111111111111111`: 32 zero bytes.
#[verifier::external_body]
pub(crate) fn system_program_id() -> (r: Pubkey)
    ensures
        r.0@ == system_program_bytes(),
{
    Pubkey(arch_program::system_program::SYSTEM_PROGRAM_ID.0)
}

/// `apl_token::id()`, declared as the base58 text
/// `TokenT4em53UrV4gSvZ3nCS2mZeHaqTLapwt6iZt6Mk`, whose 32 bytes the
/// contract lists.
#[verifier::external_body]
pub(crate) fn apl_token_program_id() -> (r: Pubkey)
    ensures
        r.0@ == apl_token_program_bytes(),
{
    Pubkey(apl_token::id().0)
}

/// `apl_associated_token_account::id()`, declared as the base58 text
/// `ATok9pxLsNzM5zJJ3UQpXBrMriHpZiY5Yio3GKYU4we3`, whose 32 bytes the
/// contract lists.
#[verifier::external_body]
pub(crate) fn ata_program_id() -> (r: Pubkey)
    ensures
        r.0@ == ata_program_bytes(),
{
    Pubkey(apl_associated_token_account::id().0)
}

/// `apl_associated_token_account::create_associated_token_account`: an
/// instruction for the associated token program, with no data, whose
/// accounts are the funder (writable signer), the account to create
/// (writable), the wallet, the mint, the system program and the token
/// program (read only).
#[verifier::external_body]
fn create_associated_token_account(
    funder: &Pubkey,
    associated_token_account: &Pubkey,
    wallet: &Pubkey,
    mint: &Pubkey,
    token_program: &Pubkey,
    system_program: &Pubkey,
) -> (r: Instruction)
    ensures
        r.program_id.0@ == ata_program_bytes(),
        r.data@ == Seq::<u8>::empty(),
        r.accounts@ == seq![
            writable(*funder, true),
            writable(*associated_token_account, false),
            readonly(*wallet, false),
            readonly(*mint, false),
            readonly(*system_program, false),
            readonly(*token_program, false),
        ],
{
    let k = |p: &Pubkey| arch_program::pubkey::Pubkey(p.0);
    let ix = apl_associated_token_account::create_associated_token_account(
        &k(funder), &k(associated_token_account), &k(wallet), &k(mint), &k(token_program),
        &k(system_program),
    );
    let meta = |m: &arch_program::account::AccountMeta|
        AccountMeta { pubkey: Pubkey(m.pubkey.0), is_signer: m.is_signer, is_writable: m.is_writable };
    let accounts = ix.accounts.iter().map(meta).collect();
    Instruction { program_id: Pubkey(ix.program_id.0), accounts, data: ix.data }
}

/// The seeds of the associated token account of `wallet` for `mint`: the
/// wallet, the token program and the mint.
pub open spec fn spec_ata_seeds(wallet: Seq<u8>, mint: Seq<u8>) -> Seq<Seq<u8>> {
    seq![wallet, apl_token_program_bytes(), mint]
}

pub open spec fn is_associated_token_address(wallet: Pubkey, mint: Pubkey, r: Option<Pubkey>) -> bool {
    match program_address(spec_ata_seeds(wallet.0@, mint.0@), ata_program_bytes()) {
        Some((k, _)) => r matches Some(key) && key.0@ == k,
        None => r is None,
    }
}

/// The address of the token account that the associated token program
/// derives for `wallet_address` and `spl_token_mint_address`; none only when
/// no address can be derived from the seeds.
pub fn get_associated_token_address(wallet_address: &Pubkey, spl_token_mint_address: &Pubkey) -> (r:
    Option<Pubkey>)
    ensures
        is_associated_token_address(*wallet_address, *spl_token_mint_address, r),
{
    let token = apl_token_program_id();
    let mut seeds: Vec<Vec<u8>> = Vec::new();
    seeds.push(slice_to_vec(wallet_address.0.as_slice()));
    seeds.push(slice_to_vec(token.0.as_slice()));
    seeds.push(slice_to_vec(spl_token_mint_address.0.as_slice()));
    proof {
        crate::pda::lemma_seeds_deep_view(seeds);
        assert(seeds.deep_view() =~= spec_ata_seeds(wallet_address.0@, spl_token_mint_address.0@));
    }
    let program = ata_program_id();
    match try_find_program_address(&seeds, &program) {
        Some((key, _)) => Some(key),
        None => None,
    }
}

/// The instruction creating the associated token account of the owner for
/// the mint, at `associated_token_account_info` when given, else at the
/// derived address; none only when no address can be derived.
pub fn create_ata_ix(
    funder_info: &Pubkey,
    associated_token_account_info: Option<&Pubkey>,
    owner_account_info: &Pubkey,
    spl_token_mint_info: &Pubkey,
) -> (r: Option<Instruction>)
    ensures
        r is Some <==> (associated_token_account_info is Some || program_address(
            spec_ata_seeds(owner_account_info.0@, spl_token_mint_info.0@),
            ata_program_bytes(),
        ) is Some),
        r matches Some(ix) ==> {
            &&& ix.program_id.0@ == ata_program_bytes()
            &&& ix.data@ == Seq::<u8>::empty()
            &&& ix.accounts@.len() == 6
            &&& ix.accounts@[0] == writable(*funder_info, true)
            &&& ix.accounts@[2] == readonly(*owner_account_info, false)
            &&& ix.accounts@[3] == readonly(*spl_token_mint_info, false)
            &&& ix.accounts@[4].pubkey.0@ == system_program_bytes()
            &&& !ix.accounts@[4].is_signer && !ix.accounts@[4].is_writable
            &&& ix.accounts@[5].pubkey.0@ == apl_token_program_bytes()
            &&& !ix.accounts@[5].is_signer && !ix.accounts@[5].is_writable
            &&& !ix.accounts@[1].is_signer && ix.accounts@[1].is_writable
            &&& match associated_token_account_info {
                Some(a) => ix.accounts@[1].pubkey == *a,
                None => is_associated_token_address(
                    *owner_account_info,
                    *spl_token_mint_info,
                    Some(ix.accounts@[1].pubkey),
                ),
            }
        },
{
    let ata = match associated_token_account_info {
        Some(info) => *info,
        None => match get_associated_token_address(owner_account_info, spl_token_mint_info) {
            Some(k) => k,
            None => return None,
        },
    };
    let token = apl_token_program_id();
    let system = system_program_id();
    Some(
        create_associated_token_account(
            funder_info,
            &ata,
            owner_account_info,
            spl_token_mint_info,
            &token,
            &system,
        ),
    )
}

/// A token mint and its number of decimals.
#[derive(Debug, Clone, Copy, PartialEq, Eq)]
pub struct TokenInfo {
    pub mint: Pubkey,
    pub decimals: u8,
}

impl TokenInfo {
    /// The associated token account of `owner` for this mint.
    pub fn get_associated_token_address(&self, owner: &Pubkey) -> (r: Option<Pubkey>)
        ensures
            is_associated_token_address(*owner, self.mint, r),
    {
        get_associated_token_address(owner, &self.mint)
    }
}

} // verus!
