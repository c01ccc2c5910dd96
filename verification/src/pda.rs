//! Program-derived addresses of the protocol's accounts and their seeds.
use crate::pubkey::Pubkey;
use vstd::prelude::*;
use vstd::slice::slice_to_vec;

verus! {

/// The address and bump seed that `Pubkey::try_find_program_address` of
/// `arch_program` derives from `seeds` under `program_id`.
pub uninterp spec fn program_address(seeds: Seq<Seq<u8>>, program_id: Seq<u8>) -> Option<
    (Seq<u8>, u8),
>;

/// `arch_program::pubkey::Pubkey::try_find_program_address`: its result,
/// address and bump or none, is `program_address` of the seeds and the
/// program id. What that address is (a hash of the seeds, the bump and the
/// program id) is not stated.
#[verifier::external_body]
pub(crate) fn try_find_program_address(seeds: &Vec<Vec<u8>>, program_id: &Pubkey) -> (r: Option<
    (Pubkey, u8),
>)
    ensures
        match program_address(seeds.deep_view(), program_id.0@) {
            Some((k, b)) => r matches Some((key, bump)) && key.0@ == k && bump == b,
            None => r is None,
        },
{
    let refs: Vec<&[u8]> = seeds.iter().map(|s| s.as_slice()).collect();
    let program = arch_program::pubkey::Pubkey(program_id.0);
    match arch_program::pubkey::Pubkey::try_find_program_address(&refs, &program) {
        Some((key, bump)) => Some((Pubkey(key.0), bump)),
        None => None,
    }
}

/// The deep view of a list of byte strings is the list of their views.
pub(crate) proof fn lemma_seeds_deep_view(seeds: Vec<Vec<u8>>)
    ensures
        seeds.deep_view().len() == seeds@.len(),
        forall|i: int| 0 <= i < seeds@.len() ==> #[trigger] seeds.deep_view()[i] == seeds@[i]@,
{
    assert forall|i: int| 0 <= i < seeds@.len() implies #[trigger] seeds.deep_view()[i]
        == seeds@[i]@ by {
        assert(seeds@[i].deep_view() =~= seeds@[i]@);
    }
}

pub open spec fn market_word() -> Seq<u8> {
    seq![109u8, 97, 114, 107, 101, 116]
}

pub open spec fn supply_position_word() -> Seq<u8> {
    seq![115u8, 117, 112, 112, 108, 121, 95, 112, 111, 115, 105, 116, 105, 111, 110]
}

pub open spec fn borrow_position_word() -> Seq<u8> {
    seq![98u8, 111, 114, 114, 111, 119, 95, 112, 111, 115, 105, 116, 105, 111, 110]
}

pub open spec fn global_config_word() -> Seq<u8> {
    seq![103u8, 108, 111, 98, 97, 108, 95, 99, 111, 110, 102, 105, 103]
}

fn market_word_vec() -> (r: Vec<u8>)
    ensures
        r@ == market_word(),
{
    let r: Vec<u8> = vec![109u8, 97, 114, 107, 101, 116];
    proof {
        assert(r@ =~= market_word());
    }
    r
}

fn supply_position_word_vec() -> (r: Vec<u8>)
    ensures
        r@ == supply_position_word(),
{
    let r: Vec<u8> = vec![115u8, 117, 112, 112, 108, 121, 95, 112, 111, 115, 105, 116, 105, 111, 110];
    proof {
        assert(r@ =~= supply_position_word());
    }
    r
}

fn borrow_position_word_vec() -> (r: Vec<u8>)
    ensures
        r@ == borrow_position_word(),
{
    let r: Vec<u8> = vec![98u8, 111, 114, 114, 111, 119, 95, 112, 111, 115, 105, 116, 105, 111, 110];
    proof {
        assert(r@ =~= borrow_position_word());
    }
    r
}

fn key_vec(key: &Pubkey) -> (r: Vec<u8>)
    ensures
        r@ == key.0@,
{
    slice_to_vec(key.0.as_slice())
}

fn byte_vec(b: &[u8; 1]) -> (r: Vec<u8>)
    ensures
        r@ == b@,
{
    slice_to_vec(b.as_slice())
}

/// `market`, the curator, the two mints and the index.
pub open spec fn spec_market_seed_without_bump(
    curator: Pubkey,
    supply_mint: Pubkey,
    collateral_mint: Pubkey,
    index: [u8; 1],
) -> Seq<Seq<u8>> {
    seq![market_word(), curator.0@, supply_mint.0@, collateral_mint.0@, index@]
}

/// The seeds of a market's address, without its bump.
pub fn market_seed_without_bump(
    curator: &Pubkey,
    supply_mint: &Pubkey,
    collateral_mint: &Pubkey,
    index: &[u8; 1],
) -> (r: Vec<Vec<u8>>)
    ensures
        r.deep_view() == spec_market_seed_without_bump(*curator, *supply_mint, *collateral_mint, *index),
{
    let mut seeds: Vec<Vec<u8>> = Vec::new();
    seeds.push(market_word_vec());
    seeds.push(key_vec(curator));
    seeds.push(key_vec(supply_mint));
    seeds.push(key_vec(collateral_mint));
    seeds.push(byte_vec(index));
    proof {
        lemma_seeds_deep_view(seeds);
        assert(seeds.deep_view() =~= spec_market_seed_without_bump(
            *curator,
            *supply_mint,
            *collateral_mint,
            *index,
        ));
    }
    seeds
}

/// The seeds of a market's address, its bump last.
pub fn market_seed_with_bump(
    curator: &Pubkey,
    supply_mint: &Pubkey,
    collateral_mint: &Pubkey,
    index: &[u8; 1],
    bump: &[u8; 1],
) -> (r: Vec<Vec<u8>>)
    ensures
        r.deep_view() == spec_market_seed_without_bump(
            *curator,
            *supply_mint,
            *collateral_mint,
            *index,
        ).push(bump@),
{
    let mut seeds = market_seed_without_bump(curator, supply_mint, collateral_mint, index);
    seeds.push(byte_vec(bump));
    proof {
        lemma_seeds_deep_view(seeds);
        assert(seeds.deep_view() =~= spec_market_seed_without_bump(
            *curator,
            *supply_mint,
            *collateral_mint,
            *index,
        ).push(bump@));
    }
    seeds
}

/// `supply_position`, the market and the owner.
pub open spec fn spec_supply_position_seed(market: Pubkey, authority: Pubkey) -> Seq<Seq<u8>> {
    seq![supply_position_word(), market.0@, authority.0@]
}

/// `borrow_position`, the market and the owner.
pub open spec fn spec_borrow_position_seed(market: Pubkey, authority: Pubkey) -> Seq<Seq<u8>> {
    seq![borrow_position_word(), market.0@, authority.0@]
}

/// The seeds of a supply position's address, without its bump.
pub fn supply_position_seed(market: &Pubkey, authority: &Pubkey) -> (r: Vec<Vec<u8>>)
    ensures
        r.deep_view() == spec_supply_position_seed(*market, *authority),
{
    let mut seeds: Vec<Vec<u8>> = Vec::new();
    seeds.push(supply_position_word_vec());
    seeds.push(key_vec(market));
    seeds.push(key_vec(authority));
    proof {
        lemma_seeds_deep_view(seeds);
        assert(seeds.deep_view() =~= spec_supply_position_seed(*market, *authority));
    }
    seeds
}

/// The seeds of a supply position's address, its bump last.
pub fn supply_position_seed_with_bump(market: &Pubkey, authority: &Pubkey, bump: &[u8; 1]) -> (r:
    Vec<Vec<u8>>)
    ensures
        r.deep_view() == spec_supply_position_seed(*market, *authority).push(bump@),
{
    let mut seeds = supply_position_seed(market, authority);
    seeds.push(byte_vec(bump));
    proof {
        lemma_seeds_deep_view(seeds);
        assert(seeds.deep_view() =~= spec_supply_position_seed(*market, *authority).push(bump@));
    }
    seeds
}

/// The seeds of a borrow position's address, without its bump.
pub fn borrow_position_seed(market: &Pubkey, authority: &Pubkey) -> (r: Vec<Vec<u8>>)
    ensures
        r.deep_view() == spec_borrow_position_seed(*market, *authority),
{
    let mut seeds: Vec<Vec<u8>> = Vec::new();
    seeds.push(borrow_position_word_vec());
    seeds.push(key_vec(market));
    seeds.push(key_vec(authority));
    proof {
        lemma_seeds_deep_view(seeds);
        assert(seeds.deep_view() =~= spec_borrow_position_seed(*market, *authority));
    }
    seeds
}

/// The seeds of a borrow position's address, its bump last.
pub fn borrow_position_seed_with_bump(market: &Pubkey, authority: &Pubkey, bump: &[u8; 1]) -> (r:
    Vec<Vec<u8>>)
    ensures
        r.deep_view() == spec_borrow_position_seed(*market, *authority).push(bump@),
{
    let mut seeds = borrow_position_seed(market, authority);
    seeds.push(byte_vec(bump));
    proof {
        lemma_seeds_deep_view(seeds);
        assert(seeds.deep_view() =~= spec_borrow_position_seed(*market, *authority).push(bump@));
    }
    seeds
}

/// The seeds of the global configuration's address, without its bump.
pub fn global_config_seed() -> (r: Vec<Vec<u8>>)
    ensures
        r.deep_view() == seq![global_config_word()],
{
    let word: Vec<u8> = vec![103u8, 108, 111, 98, 97, 108, 95, 99, 111, 110, 102, 105, 103];
    proof {
        assert(word@ =~= global_config_word());
    }
    let mut seeds: Vec<Vec<u8>> = Vec::new();
    seeds.push(word);
    proof {
        lemma_seeds_deep_view(seeds);
        assert(seeds.deep_view() =~= seq![global_config_word()]);
    }
    seeds
}

/// The seeds of the global configuration's address, its bump last.
pub fn global_config_seed_with_bump(bump: &[u8; 1]) -> (r: Vec<Vec<u8>>)
    ensures
        r.deep_view() == seq![global_config_word(), bump@],
{
    let mut seeds = global_config_seed();
    proof {
        lemma_seeds_deep_view(seeds);
        assert(seeds@[0]@ == seq![global_config_word()][0]);
    }
    seeds.push(byte_vec(bump));
    proof {
        lemma_seeds_deep_view(seeds);
        assert(seeds.deep_view() =~= seq![global_config_word(), bump@]);
    }
    seeds
}

/// The derived address and bump for `seeds`, as `program_address` gives.
pub open spec fn derived(seeds: Seq<Seq<u8>>, program_id: Pubkey, r: Option<(Pubkey, u8)>) -> bool {
    match program_address(seeds, program_id.0@) {
        Some((k, b)) => r matches Some((key, bump)) && key.0@ == k && bump == b,
        None => r is None,
    }
}

/// The address and bump of the supply position of `authority` in `market`.
pub fn find_supply_position_pda(program_id: &Pubkey, market: &Pubkey, authority: &Pubkey) -> (r:
    Option<(Pubkey, u8)>)
    ensures
        derived(spec_supply_position_seed(*market, *authority), *program_id, r),
{
    try_find_program_address(&supply_position_seed(market, authority), program_id)
}

/// The address and bump of the borrow position of `authority` in `market`.
pub fn find_borrow_position_pda(program_id: &Pubkey, market: &Pubkey, authority: &Pubkey) -> (r:
    Option<(Pubkey, u8)>)
    ensures
        derived(spec_borrow_position_seed(*market, *authority), *program_id, r),
{
    try_find_program_address(&borrow_position_seed(market, authority), program_id)
}

/// The address and bump of a market.
pub fn find_market_pda(
    program_id: &Pubkey,
    curator: &Pubkey,
    supply_mint: &Pubkey,
    collateral_mint: &Pubkey,
    index: u8,
) -> (r: Option<(Pubkey, u8)>)
    ensures
        derived(
            spec_market_seed_without_bump(*curator, *supply_mint, *collateral_mint, [index]),
            *program_id,
            r,
        ),
{
    let idx: [u8; 1] = [index];
    try_find_program_address(
        &market_seed_without_bump(curator, supply_mint, collateral_mint, &idx),
        program_id,
    )
}

/// The address and bump of the global configuration.
pub fn find_global_config_pda(program_id: &Pubkey) -> (r: Option<(Pubkey, u8)>)
    ensures
        derived(seq![global_config_word()], *program_id, r),
{
    try_find_program_address(&global_config_seed(), program_id)
}

} // verus!
