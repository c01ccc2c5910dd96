//! The layout of a Chaos Labs price state (after the account's 8-byte
//! discriminator): version, price id, price, moving average price, number
//! of signatures, slot, publication time and bump, every integer
//! little-endian.
use crate::ixs::wire::{put_bytes, put_u16, put_u64, put_u8, u16_bytes, u64_bytes};
use crate::oracle::oracle_provider::{byte_i8, le_u64, read_i8, read_u64_le, CHAOS_PRICE_STATE_LEN};
use vstd::prelude::*;

verus! {

/// A price, when it was observed, and its decimal exponent.
#[derive(Debug, Clone, Copy, PartialEq, Eq, Default)]
pub struct PriceData {
    pub price: u64,
    pub observed_ts: u64,
    pub expo: i8,
}

/// The price state of one feed.
#[derive(Debug, Clone, Copy, PartialEq, Eq, Default)]
pub struct ChaosPriceState {
    pub version: u16,
    pub price_id: [u8; 32],
    pub price: PriceData,
    pub ema_price: PriceData,
    pub num_signatures: u8,
    pub slot: u64,
    pub publish_time: u64,
    pub bump: u8,
}

/// Whether `p` is the price whose fields begin at `off`.
pub open spec fn price_data_at(d: Seq<u8>, off: int, p: PriceData) -> bool {
    &&& p.price == le_u64(d, off)
    &&& p.observed_ts == le_u64(d, off + 8)
    &&& p.expo == byte_i8(d, off + 16)
}

pub open spec fn price_data_bytes(p: PriceData) -> Seq<u8> {
    u64_bytes(p.price) + u64_bytes(p.observed_ts) + seq![p.expo as u8]
}

/// Whether `s` is the state the 86 bytes of `d` hold.
pub open spec fn is_state_of(d: Seq<u8>, s: ChaosPriceState) -> bool {
    &&& s.version == d[0] + 256 * d[1]
    &&& s.price_id@ == d.subrange(2, 34)
    &&& price_data_at(d, 34, s.price)
    &&& price_data_at(d, 51, s.ema_price)
    &&& s.num_signatures == d[68]
    &&& s.slot == le_u64(d, 69)
    &&& s.publish_time == le_u64(d, 77)
    &&& s.bump == d[85]
}

fn read_price_data(data: &[u8], off: usize) -> (r: PriceData)
    requires
        off + 17 <= data@.len(),
    ensures
        price_data_at(data@, off as int, r),
{
    let n = data.len();
    assert(off + 17 <= n);
    PriceData {
        price: read_u64_le(data, off),
        observed_ts: read_u64_le(data, off + 8),
        expo: read_i8(data, off + 16),
    }
}

fn put_price_data(out: &mut Vec<u8>, p: &PriceData)
    ensures
        final(out)@ == old(out)@ + price_data_bytes(*p),
{
    put_u64(out, p.price);
    put_u64(out, p.observed_ts);
    put_u8(out, p.expo as u8);
    proof {
        assert(out@ =~= old(out)@ + price_data_bytes(*p));
    }
}

impl ChaosPriceState {
    /// The state held by `data`, which must be exactly a state long.
    pub fn try_from_slice(data: &[u8]) -> (r: Option<ChaosPriceState>)
        ensures
            r is Some <==> data@.len() == CHAOS_PRICE_STATE_LEN,
            r matches Some(s) ==> is_state_of(data@, s),
    {
        if data.len() != CHAOS_PRICE_STATE_LEN {
            return None;
        }
        let mut price_id: [u8; 32] = [0u8; 32];
        let mut i: usize = 0;
        while i < 32
            invariant
                i <= 32,
                data@.len() == CHAOS_PRICE_STATE_LEN,
                forall|j: int| 0 <= j < i ==> price_id@[j] == data@[2 + j],
            decreases 32 - i,
        {
            price_id[i] = data[2 + i];
            i += 1;
        }
        let s = ChaosPriceState {
            version: data[0] as u16 + 256 * (data[1] as u16),
            price_id,
            price: read_price_data(data, 34),
            ema_price: read_price_data(data, 51),
            num_signatures: data[68],
            slot: read_u64_le(data, 69),
            publish_time: read_u64_le(data, 77),
            bump: data[85],
        };
        proof {
            assert(price_id@ =~= data@.subrange(2, 34));
        }
        Some(s)
    }

    /// The bytes of the state, in its layout.
    pub open spec fn spec_bytes(&self) -> Seq<u8> {
        u16_bytes(self.version) + self.price_id@ + price_data_bytes(self.price) + price_data_bytes(
            self.ema_price,
        ) + seq![self.num_signatures] + u64_bytes(self.slot) + u64_bytes(self.publish_time) + seq![
            self.bump,
        ]
    }

    /// The bytes of the state, in its layout.
    pub fn to_bytes(&self) -> (r: Vec<u8>)
        ensures
            r@ == self.spec_bytes(),
            r@.len() == CHAOS_PRICE_STATE_LEN,
    {
        let mut out: Vec<u8> = Vec::new();
        put_u16(&mut out, self.version);
        put_bytes(&mut out, self.price_id.as_slice());
        put_price_data(&mut out, &self.price);
        put_price_data(&mut out, &self.ema_price);
        put_u8(&mut out, self.num_signatures);
        put_u64(&mut out, self.slot);
        put_u64(&mut out, self.publish_time);
        put_u8(&mut out, self.bump);
        proof {
            assert(out@ =~= self.spec_bytes());
        }
        out
    }
}

} // verus!
