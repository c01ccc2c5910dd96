//! Reading a price out of the account of a Pyth or Chaos Labs feed, after
//! checking that the account is the feed's canonical one.
use crate::error::{LendingError, LendingResult};
use crate::oracle::oracle_config::{
    spec_validate_rate, ChaosProvider, OracleConfig, OracleProvider, PythProvider,
    UncheckedOracleRate,
};
use crate::oracle::oracle_price::{spec_from_price_expo_conf, OracleRate};
use crate::pda::{program_address, try_find_program_address};
use crate::pubkey::Pubkey;
use crate::oracle::chaos::ChaosPriceState;
use crate::oracle::pyth::PythPriceAccount;
use vstd::prelude::*;
use vstd::slice::slice_to_vec;

verus! {

/// An account handed to the program: its address, its data and its owner.
pub struct AccountView<'a> {
    pub key: &'a Pubkey,
    pub data: &'a [u8],
    pub owner: &'a Pubkey,
}

impl<'a> AccountView<'a> {
    pub fn from(key: &'a Pubkey, data: &'a [u8], owner: &'a Pubkey) -> (r: AccountView<'a>)
        ensures
            *r.key == *key,
            r.data@ == data@,
            *r.owner == *owner,
    {
        AccountView { key, data, owner }
    }
}

/// The unsigned little-endian integer of the 8 bytes at `off`.
pub open spec fn le_u64(s: Seq<u8>, off: int) -> int {
    s[off] + 256 * (s[off + 1] + 256 * (s[off + 2] + 256 * (s[off + 3] + 256 * (s[off + 4] + 256 * (
    s[off + 5] + 256 * (s[off + 6] + 256 * s[off + 7]))))))
}

/// The two's-complement little-endian integer of the 8 bytes at `off`.
pub open spec fn le_i64(s: Seq<u8>, off: int) -> int {
    if le_u64(s, off) > i64::MAX {
        le_u64(s, off) - 0x1_0000_0000_0000_0000
    } else {
        le_u64(s, off)
    }
}

/// The byte at `off` read as a two's-complement `i8`.
pub open spec fn byte_i8(s: Seq<u8>, off: int) -> int {
    if s[off] > 127 {
        s[off] - 256
    } else {
        s[off] as int
    }
}

pub(crate) fn read_u64_le(data: &[u8], off: usize) -> (r: u64)
    requires
        off + 8 <= data@.len(),
    ensures
        r == le_u64(data@, off as int),
{
    let b0 = data[off] as u64;
    let b1 = data[off + 1] as u64;
    let b2 = data[off + 2] as u64;
    let b3 = data[off + 3] as u64;
    let b4 = data[off + 4] as u64;
    let b5 = data[off + 5] as u64;
    let b6 = data[off + 6] as u64;
    let b7 = data[off + 7] as u64;
    b0 + 256 * (b1 + 256 * (b2 + 256 * (b3 + 256 * (b4 + 256 * (b5 + 256 * (b6 + 256 * b7))))))
}

pub(crate) fn read_i64_le(data: &[u8], off: usize) -> (r: i64)
    requires
        off + 8 <= data@.len(),
    ensures
        r == le_i64(data@, off as int),
{
    let u = read_u64_le(data, off);
    if u > i64::MAX as u64 {
        let m: i128 = u as i128 - 0x1_0000_0000_0000_0000i128;
        m as i64
    } else {
        u as i64
    }
}

pub(crate) fn read_i8(data: &[u8], off: usize) -> (r: i8)
    requires
        off < data@.len(),
    ensures
        r == byte_i8(data@, off as int),
{
    let b = data[off];
    if b > 127 {
        let m: i16 = b as i16 - 256;
        m as i8
    } else {
        b as i8
    }
}

/// Size of a Pyth price account: the feed id, the price and the moving
/// average (price, confidence, exponent, publish time each) and three
/// words of metadata.
pub const PYTH_PRICE_ACCOUNT_LEN: usize = 120;

/// The price of a Pyth account owned by `owner` with data `data`: the owner
/// must be the feed's program, the data a price account (feed id at 0,
/// then price, confidence, exponent and publish time as 8-byte
/// little-endian words) of the feed, the exponent within `[-18, 18]`.
pub open spec fn spec_pyth_load(p: PythProvider, data: Seq<u8>, owner: Pubkey) -> LendingResult<
    UncheckedOracleRate,
> {
    if owner != p.program_id {
        Err(LendingError::InvalidPythOracleAccount)
    } else if data.len() != 120 {
        Err(LendingError::InvalidPythOracleAccount)
    } else if data.subrange(0, 32) != p.feed_id@ {
        Err(LendingError::InvalidOracleFeedId)
    } else if le_i64(data, 48) > 18 || le_i64(data, 48) < -18 {
        Err(LendingError::InvalidPythOracleAccount)
    } else {
        match spec_from_price_expo_conf(
            le_u64(data, 32) as u64,
            le_u64(data, 40) as u64,
            le_i64(data, 48) as i8,
        ) {
            Err(e) => Err(e),
            Ok(rate) => Ok(UncheckedOracleRate { rate, publish_time: le_i64(data, 56) as i64 }),
        }
    }
}

impl PythProvider {
    /// Reads the unchecked price of a Pyth account, see `spec_pyth_load`.
    pub fn load_oracle_price(&self, view: &AccountView) -> (r: LendingResult<UncheckedOracleRate>)
        ensures
            r == spec_pyth_load(*self, view.data@, *view.owner),
    {
        if !view.owner.same_as(&self.program_id) {
            return Err(LendingError::InvalidPythOracleAccount);
        }
        let account = match PythPriceAccount::from_bytes(view.data) {
            Some(a) => a,
            None => return Err(LendingError::InvalidPythOracleAccount),
        };
        let pyth_price = account.pyth_price;
        if !Pubkey(pyth_price.id).same_as(&Pubkey(self.feed_id)) {
            proof {
                assert(pyth_price.id@ != self.feed_id@) by {
                    if pyth_price.id@ == self.feed_id@ {
                        assert(pyth_price.id =~= self.feed_id);
                    }
                }
            }
            return Err(LendingError::InvalidOracleFeedId);
        }
        let expo = pyth_price.price.expo;
        if expo > 18 || expo < -18 {
            return Err(LendingError::InvalidPythOracleAccount);
        }
        let price = pyth_price.price.price;
        let conf = pyth_price.price.conf;
        let publish_time = pyth_price.price.publish_time;
        match OracleRate::try_from_price_expo_conf(price, conf, expo as i8) {
            Ok(rate) => Ok(UncheckedOracleRate::new(rate, publish_time)),
            Err(e) => Err(e),
        }
    }
}

/// The first 8 bytes of a Chaos Labs price account.
pub open spec fn chaos_discriminator() -> Seq<u8> {
    seq![168u8, 184, 18, 246, 179, 16, 141, 51]
}

/// Whether the first 8 bytes are the Chaos Labs discriminator.
fn has_chaos_discriminator(data: &[u8]) -> (r: bool)
    requires
        8 <= data@.len(),
    ensures
        r == (data@.subrange(0, 8) == chaos_discriminator()),
{
    let disc: [u8; 8] = [168, 184, 18, 246, 179, 16, 141, 51];
    proof {
        assert(disc@ =~= chaos_discriminator());
    }
    let mut i: usize = 0;
    while i < 8
        invariant
            i <= 8,
            8 <= data@.len(),
            disc@ == chaos_discriminator(),
            forall|j: int| 0 <= j < i ==> data@[j] == disc@[j],
        decreases 8 - i,
    {
        if data[i] != disc[i] {
            proof {
                assert(data@.subrange(0, 8)[i as int] != chaos_discriminator()[i as int]);
            }
            return false;
        }
        i += 1;
    }
    proof {
        assert(data@.subrange(0, 8) =~= chaos_discriminator());
    }
    true
}

/// Size of a Chaos Labs price state after its discriminator: version,
/// price id, price (value, observation time, exponent), moving average,
/// signature count, slot, publish time and bump.
pub const CHAOS_PRICE_STATE_LEN: usize = 86;

/// The price of a Chaos Labs account owned by `owner` with data `data`: the
/// owner must be the feed's program, the data the discriminator and a price
/// state of the feed (price id at 10, price at 42, observation time at 50,
/// exponent at 58, signature count at 76) with enough signatures and an
/// exponent within `[-18, 18]`; the confidence is zero.
pub open spec fn spec_chaos_load(p: ChaosProvider, data: Seq<u8>, owner: Pubkey) -> LendingResult<
    UncheckedOracleRate,
> {
    if owner != p.program_id {
        Err(LendingError::InvalidChaosOracleAccount)
    } else if data.len() < 8 {
        Err(LendingError::InvalidChaosOracleAccount)
    } else if data.subrange(0, 8) != chaos_discriminator() {
        Err(LendingError::InvalidChaosOracleAccount)
    } else if data.len() != 8 + 86 {
        Err(LendingError::InvalidChaosOracleAccount)
    } else if data.subrange(10, 42) != p.feed_id@ {
        Err(LendingError::InvalidOracleFeedId)
    } else if data[76] < p.required_signatures {
        Err(LendingError::InvalidChaosOracleAccount)
    } else if byte_i8(data, 58) > 18 || byte_i8(data, 58) < -18 {
        Err(LendingError::InvalidChaosOracleAccount)
    } else {
        match spec_from_price_expo_conf(le_u64(data, 42) as u64, 0, byte_i8(data, 58) as i8) {
            Err(e) => Err(e),
            Ok(rate) => Ok(UncheckedOracleRate { rate, publish_time: le_u64(data, 50) as i64 }),
        }
    }
}

impl ChaosProvider {
    /// Reads the unchecked price of a Chaos Labs account, see
    /// `spec_chaos_load`.
    pub fn load_oracle_price(&self, view: &AccountView) -> (r: LendingResult<UncheckedOracleRate>)
        ensures
            r == spec_chaos_load(*self, view.data@, *view.owner),
    {
        if !view.owner.same_as(&self.program_id) {
            return Err(LendingError::InvalidChaosOracleAccount);
        }
        let data = view.data;
        if data.len() < 8 {
            return Err(LendingError::InvalidChaosOracleAccount);
        }
        if !has_chaos_discriminator(data) {
            return Err(LendingError::InvalidChaosOracleAccount);
        }
        let (_, rest) = data.split_at(8);
        let state = match ChaosPriceState::try_from_slice(rest) {
            Some(st) => st,
            None => return Err(LendingError::InvalidChaosOracleAccount),
        };
        if !Pubkey(state.price_id).same_as(&Pubkey(self.feed_id)) {
            proof {
                assert(data@.subrange(10, 42) =~= rest@.subrange(2, 34));
                assert(state.price_id@ != self.feed_id@) by {
                    if state.price_id@ == self.feed_id@ {
                        assert(state.price_id =~= self.feed_id);
                    }
                }
            }
            return Err(LendingError::InvalidOracleFeedId);
        }
        proof {
            assert(data@.subrange(10, 42) =~= rest@.subrange(2, 34));
            assert(rest@[68] == data@[76]);
            assert(rest@[50] == data@[58]);
        }
        if state.num_signatures < self.required_signatures {
            return Err(LendingError::InvalidChaosOracleAccount);
        }
        let expo = state.price.expo;
        if expo > 18 || expo < -18 {
            return Err(LendingError::InvalidChaosOracleAccount);
        }
        let price = state.price.price;
        let observed_ts = state.price.observed_ts;
        proof {
            assert(le_u64(rest@, 34) == le_u64(data@, 42));
            assert(le_u64(rest@, 42) == le_u64(data@, 50));
        }
        match OracleRate::try_from_price_expo_conf(price, 0, expo) {
            Ok(rate) => Ok(UncheckedOracleRate::new(rate, #[verifier::truncate] (observed_ts as i64))),
            Err(e) => Err(e),
        }
    }
}

/// The seed that, with the feed id, places a Chaos Labs price account.
pub open spec fn chaos_price_config_seed() -> Seq<u8> {
    seq![99u8, 104, 97, 111, 115, 95, 112, 114, 105, 99, 101, 95, 99, 111, 110, 102, 105, 103]
}

/// The seeds of the canonical account of a feed: the feed id for Pyth,
/// `chaos_price_config` and the feed id for Chaos Labs.
pub open spec fn feed_seeds(p: OracleProvider) -> Seq<Seq<u8>> {
    match p {
        OracleProvider::Pyth(pp) => seq![pp.feed_id@],
        OracleProvider::Chaos(cp) => seq![chaos_price_config_seed(), cp.feed_id@],
    }
}

pub open spec fn feed_program(p: OracleProvider) -> Pubkey {
    match p {
        OracleProvider::Pyth(pp) => pp.program_id,
        OracleProvider::Chaos(cp) => cp.program_id,
    }
}

/// The address of the canonical account of the feed, when one can be
/// derived.
pub open spec fn spec_feed_address(p: OracleProvider) -> Option<Seq<u8>> {
    match program_address(feed_seeds(p), feed_program(p).0@) {
        Some((k, _)) => Some(k),
        None => None,
    }
}

/// The price read through `p` from `view`: the account must live at the
/// feed's canonical address, then the feed's own reading applies.
pub open spec fn spec_provider_load(p: OracleProvider, view_key: Pubkey, data: Seq<u8>, owner: Pubkey) -> LendingResult<UncheckedOracleRate> {
    match spec_feed_address(p) {
        None => Err(LendingError::InvalidOracleFeedAccount),
        Some(k) => if view_key.0@ != k {
            Err(LendingError::InvalidOracleFeedAccount)
        } else {
            match p {
                OracleProvider::Pyth(pp) => spec_pyth_load(pp, data, owner),
                OracleProvider::Chaos(cp) => spec_chaos_load(cp, data, owner),
            }
        },
    }
}

impl OracleProvider {
    /// The seeds of the feed's canonical account, see `feed_seeds`.
    fn feed_seeds(&self) -> (r: Vec<Vec<u8>>)
        ensures
            r.deep_view() == feed_seeds(*self),
    {
        let mut seeds: Vec<Vec<u8>> = Vec::new();
        match self {
            OracleProvider::Pyth(p) => {
                seeds.push(slice_to_vec(p.feed_id.as_slice()));
            },
            OracleProvider::Chaos(p) => {
                let seed: Vec<u8> = vec![
                    99u8, 104, 97, 111, 115, 95, 112, 114, 105, 99, 101, 95, 99, 111, 110, 102, 105, 103,
                ];
                proof {
                    assert(seed@ =~= chaos_price_config_seed());
                }
                seeds.push(seed);
                seeds.push(slice_to_vec(p.feed_id.as_slice()));
            },
        }
        proof {
            crate::pda::lemma_seeds_deep_view(seeds);
            assert(seeds.deep_view() =~= feed_seeds(*self));
        }
        seeds
    }

    fn program_id(&self) -> (r: &Pubkey)
        ensures
            *r == feed_program(*self),
    {
        match self {
            OracleProvider::Pyth(p) => &p.program_id,
            OracleProvider::Chaos(p) => &p.program_id,
        }
    }

    /// The address of the feed's canonical account; none only when no
    /// address can be derived from its seeds.
    pub fn oracle_feed_pubkey(&self) -> (r: Option<Pubkey>)
        ensures
            match spec_feed_address(*self) {
                Some(k) => r matches Some(key) && key.0@ == k,
                None => r is None,
            },
    {
        let seeds = self.feed_seeds();
        match try_find_program_address(&seeds, self.program_id()) {
            Some((key, _)) => Some(key),
            None => None,
        }
    }

    /// Reads the unchecked price of the feed from `view`, see
    /// `spec_provider_load`.
    pub fn load_oracle_price(&self, view: &AccountView) -> (r: LendingResult<UncheckedOracleRate>)
        ensures
            r == spec_provider_load(*self, *view.key, view.data@, *view.owner),
    {
        match self.oracle_feed_pubkey() {
            Some(expected_key) => if !view.key.same_as(&expected_key) {
                proof {
                    if view.key.0@ == expected_key.0@ {
                        assert(view.key.0 =~= expected_key.0);
                    }
                }
                return Err(LendingError::InvalidOracleFeedAccount);
            },
            None => return Err(LendingError::InvalidOracleFeedAccount),
        }
        match self {
            OracleProvider::Pyth(p) => p.load_oracle_price(view),
            OracleProvider::Chaos(p) => p.load_oracle_price(view),
        }
    }
}

/// The price an account gives under `config` at `unix_timestamp`: read
/// through the feed, then checked.
pub open spec fn spec_load_and_validate(
    config: OracleConfig,
    view_key: Pubkey,
    data: Seq<u8>,
    owner: Pubkey,
    unix_timestamp: i64,
) -> LendingResult<OracleRate> {
    match spec_provider_load(config.oracle_provider, view_key, data, owner) {
        Err(e) => Err(e),
        Ok(u) => spec_validate_rate(u.rate, u.publish_time, config.validation_config, unix_timestamp),
    }
}

impl OracleConfig {
    /// Reads the feed's price from `view` and checks it at `unix_timestamp`.
    pub fn load_and_validate_oracle_rate(&self, view: &AccountView, unix_timestamp: i64) -> (r:
        LendingResult<OracleRate>)
        ensures
            r == spec_load_and_validate(*self, *view.key, view.data@, *view.owner, unix_timestamp),
    {
        let unchecked = match self.oracle_provider.load_oracle_price(view) {
            Ok(u) => u,
            Err(e) => return Err(e),
        };
        unchecked.validate(&self.validation_config, unix_timestamp)
    }
}

} // verus!
