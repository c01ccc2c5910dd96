//! The byte layout of the values that instructions and events carry:
//! integers little-endian, `bool` as one byte, an address as its 32 bytes,
//! an optional value as a flag byte and the value, a list as its length on
//! four bytes and its items.
use crate::math::ifixed_point::IFixedPoint;
use crate::pubkey::Pubkey;
use vstd::prelude::*;
use vstd::slice::slice_to_vec;

verus! {

pub open spec fn u16_bytes(x: u16) -> Seq<u8> {
    seq![x as u8, (x >> 8u16) as u8]
}

pub open spec fn u32_bytes(x: u32) -> Seq<u8> {
    seq![x as u8, (x >> 8u32) as u8, (x >> 16u32) as u8, (x >> 24u32) as u8]
}

pub open spec fn u64_bytes(x: u64) -> Seq<u8> {
    seq![
        x as u8,
        (x >> 8u64) as u8,
        (x >> 16u64) as u8,
        (x >> 24u64) as u8,
        (x >> 32u64) as u8,
        (x >> 40u64) as u8,
        (x >> 48u64) as u8,
        (x >> 56u64) as u8,
    ]
}

pub open spec fn i64_bytes(x: i64) -> Seq<u8> {
    u64_bytes(x as u64)
}

pub open spec fn u128_bytes(x: u128) -> Seq<u8> {
    u64_bytes(x as u64) + u64_bytes((x >> 64u128) as u64)
}

pub open spec fn i128_bytes(x: i128) -> Seq<u8> {
    u128_bytes(x as u128)
}

pub open spec fn bool_bytes(b: bool) -> Seq<u8> {
    seq![if b { 1u8 } else { 0u8 }]
}

pub open spec fn fixed_bytes(x: IFixedPoint) -> Seq<u8> {
    i128_bytes(x.bits)
}

/// An optional value: `0`, or `1` and the value's bytes.
pub open spec fn option_bytes(present: bool, body: Seq<u8>) -> Seq<u8> {
    if present {
        seq![1u8] + body
    } else {
        seq![0u8]
    }
}

pub open spec fn opt_u64_bytes(x: Option<u64>) -> Seq<u8> {
    match x {
        Some(v) => option_bytes(true, u64_bytes(v)),
        None => option_bytes(false, seq![]),
    }
}

pub open spec fn opt_u16_bytes(x: Option<u16>) -> Seq<u8> {
    match x {
        Some(v) => option_bytes(true, u16_bytes(v)),
        None => option_bytes(false, seq![]),
    }
}

pub open spec fn opt_key_bytes(x: Option<Pubkey>) -> Seq<u8> {
    match x {
        Some(v) => option_bytes(true, v.0@),
        None => option_bytes(false, seq![]),
    }
}

pub open spec fn opt_fixed_bytes(x: Option<IFixedPoint>) -> Seq<u8> {
    match x {
        Some(v) => option_bytes(true, fixed_bytes(v)),
        None => option_bytes(false, seq![]),
    }
}

/// `n` zero bytes.
pub open spec fn zeros(n: nat) -> Seq<u8> {
    Seq::new(n, |i: int| 0u8)
}

pub fn put_u8(out: &mut Vec<u8>, x: u8)
    ensures
        final(out)@ == old(out)@.push(x),
{
    out.push(x);
}

pub fn put_bool(out: &mut Vec<u8>, b: bool)
    ensures
        final(out)@ == old(out)@ + bool_bytes(b),
{
    out.push(if b { 1u8 } else { 0u8 });
    proof {
        assert(out@ =~= old(out)@ + bool_bytes(b));
    }
}

pub fn put_u16(out: &mut Vec<u8>, x: u16)
    ensures
        final(out)@ == old(out)@ + u16_bytes(x),
{
    out.push(x as u8);
    out.push((x >> 8u16) as u8);
    proof {
        assert(out@ =~= old(out)@ + u16_bytes(x));
    }
}

pub fn put_u32(out: &mut Vec<u8>, x: u32)
    ensures
        final(out)@ == old(out)@ + u32_bytes(x),
{
    out.push(x as u8);
    out.push((x >> 8u32) as u8);
    out.push((x >> 16u32) as u8);
    out.push((x >> 24u32) as u8);
    proof {
        assert(out@ =~= old(out)@ + u32_bytes(x));
    }
}

pub fn put_u64(out: &mut Vec<u8>, x: u64)
    ensures
        final(out)@ == old(out)@ + u64_bytes(x),
{
    out.push(x as u8);
    out.push((x >> 8u64) as u8);
    out.push((x >> 16u64) as u8);
    out.push((x >> 24u64) as u8);
    out.push((x >> 32u64) as u8);
    out.push((x >> 40u64) as u8);
    out.push((x >> 48u64) as u8);
    out.push((x >> 56u64) as u8);
    proof {
        assert(out@ =~= old(out)@ + u64_bytes(x));
    }
}

pub fn put_i64(out: &mut Vec<u8>, x: i64)
    ensures
        final(out)@ == old(out)@ + i64_bytes(x),
{
    put_u64(out, x as u64);
}

pub fn put_i128(out: &mut Vec<u8>, x: i128)
    ensures
        final(out)@ == old(out)@ + i128_bytes(x),
{
    let u: u128 = x as u128;
    put_u64(out, u as u64);
    put_u64(out, (u >> 64u128) as u64);
    proof {
        assert(out@ =~= old(out)@ + i128_bytes(x));
    }
}

pub fn put_u128(out: &mut Vec<u8>, x: u128)
    ensures
        final(out)@ == old(out)@ + u128_bytes(x),
{
    put_u64(out, x as u64);
    put_u64(out, (x >> 64u128) as u64);
    proof {
        assert(out@ =~= old(out)@ + u128_bytes(x));
    }
}

pub fn put_fixed(out: &mut Vec<u8>, x: IFixedPoint)
    ensures
        final(out)@ == old(out)@ + fixed_bytes(x),
{
    put_i128(out, x.bits);
}

pub fn put_bytes(out: &mut Vec<u8>, bytes: &[u8])
    ensures
        final(out)@ == old(out)@ + bytes@,
{
    let mut tail = slice_to_vec(bytes);
    out.append(&mut tail);
}

pub fn put_key(out: &mut Vec<u8>, key: &Pubkey)
    ensures
        final(out)@ == old(out)@ + key.0@,
{
    put_bytes(out, key.0.as_slice());
}

pub fn put_zeros(out: &mut Vec<u8>, n: usize)
    ensures
        final(out)@ == old(out)@ + zeros(n as nat),
{
    let mut i: usize = 0;
    while i < n
        invariant
            i <= n,
            out@ == old(out)@ + zeros(i as nat),
        decreases n - i,
    {
        out.push(0u8);
        i += 1;
        proof {
            assert(out@ =~= old(out)@ + zeros(i as nat));
        }
    }
    proof {
        assert(out@ =~= old(out)@ + zeros(n as nat));
    }
}

pub fn put_opt_u64(out: &mut Vec<u8>, x: Option<u64>)
    ensures
        final(out)@ == old(out)@ + opt_u64_bytes(x),
{
    match x {
        Some(v) => {
            out.push(1u8);
            put_u64(out, v);
        },
        None => out.push(0u8),
    }
    proof {
        assert(out@ =~= old(out)@ + opt_u64_bytes(x));
    }
}

pub fn put_opt_u16(out: &mut Vec<u8>, x: Option<u16>)
    ensures
        final(out)@ == old(out)@ + opt_u16_bytes(x),
{
    match x {
        Some(v) => {
            out.push(1u8);
            put_u16(out, v);
        },
        None => out.push(0u8),
    }
    proof {
        assert(out@ =~= old(out)@ + opt_u16_bytes(x));
    }
}

pub fn put_opt_key(out: &mut Vec<u8>, x: &Option<Pubkey>)
    ensures
        final(out)@ == old(out)@ + opt_key_bytes(*x),
{
    match x {
        Some(v) => {
            out.push(1u8);
            put_key(out, v);
        },
        None => out.push(0u8),
    }
    proof {
        assert(out@ =~= old(out)@ + opt_key_bytes(*x));
    }
}

pub fn put_opt_fixed(out: &mut Vec<u8>, x: Option<IFixedPoint>)
    ensures
        final(out)@ == old(out)@ + opt_fixed_bytes(x),
{
    match x {
        Some(v) => {
            out.push(1u8);
            put_fixed(out, v);
        },
        None => out.push(0u8),
    }
    proof {
        assert(out@ =~= old(out)@ + opt_fixed_bytes(x));
    }
}

/// Reads the 8 bytes at `pos` as a little-endian `u64`; none when fewer
/// than 8 bytes are left.
pub fn take_u64(data: &[u8], pos: usize) -> (r: Option<(u64, usize)>)
    ensures
        r is Some <==> pos + 8 <= data@.len(),
        r matches Some((v, p)) ==> p == pos + 8 && data@.subrange(pos as int, p as int)
            == u64_bytes(v),
{
    if pos > data.len() || data.len() - pos < 8 {
        return None;
    }
    let b0 = data[pos];
    let b1 = data[pos + 1];
    let b2 = data[pos + 2];
    let b3 = data[pos + 3];
    let b4 = data[pos + 4];
    let b5 = data[pos + 5];
    let b6 = data[pos + 6];
    let b7 = data[pos + 7];
    let v: u64 = (b0 as u64) | ((b1 as u64) << 8u64) | ((b2 as u64) << 16u64) | ((b3 as u64)
        << 24u64) | ((b4 as u64) << 32u64) | ((b5 as u64) << 40u64) | ((b6 as u64) << 48u64) | ((
    b7 as u64) << 56u64);
    assert(v as u8 == b0 && (v >> 8u64) as u8 == b1 && (v >> 16u64) as u8 == b2 && (v >> 24u64) as u8
        == b3 && (v >> 32u64) as u8 == b4 && (v >> 40u64) as u8 == b5 && (v >> 48u64) as u8 == b6 && (v
        >> 56u64) as u8 == b7) by (bit_vector)
        requires
            v == (b0 as u64) | ((b1 as u64) << 8u64) | ((b2 as u64) << 16u64) | ((b3 as u64) << 24u64)
                | ((b4 as u64) << 32u64) | ((b5 as u64) << 40u64) | ((b6 as u64) << 48u64) | ((
            b7 as u64) << 56u64),
    ;
    proof {
        assert(data@.subrange(pos as int, pos + 8) =~= u64_bytes(v));
    }
    Some((v, pos + 8))
}

/// Reads the 8 bytes at `pos` as a little-endian two's-complement `i64`.
pub fn take_i64(data: &[u8], pos: usize) -> (r: Option<(i64, usize)>)
    ensures
        r is Some <==> pos + 8 <= data@.len(),
        r matches Some((v, p)) ==> p == pos + 8 && data@.subrange(pos as int, p as int)
            == i64_bytes(v),
{
    match take_u64(data, pos) {
        Some((u, p)) => {
            let v = u as i64;
            assert((v as u64) == u) by (bit_vector)
                requires
                    v == u as i64,
            ;
            Some((v, p))
        },
        None => None,
    }
}

/// Reads the 16 bytes at `pos` as a little-endian two's-complement `i128`.
pub fn take_i128(data: &[u8], pos: usize) -> (r: Option<(i128, usize)>)
    ensures
        r is Some <==> pos + 16 <= data@.len(),
        r matches Some((v, p)) ==> p == pos + 16 && data@.subrange(pos as int, p as int)
            == i128_bytes(v),
{
    let (lo, p1) = match take_u64(data, pos) {
        Some(x) => x,
        None => return None,
    };
    let (hi, p2) = match take_u64(data, p1) {
        Some(x) => x,
        None => return None,
    };
    let u: u128 = (lo as u128) | ((hi as u128) << 64u128);
    let v: i128 = u as i128;
    assert((v as u128) as u64 == lo && ((v as u128) >> 64u128) as u64 == hi) by (bit_vector)
        requires
            u == (lo as u128) | ((hi as u128) << 64u128),
            v == u as i128,
    ;
    proof {
        assert(data@.subrange(pos as int, p2 as int) =~= data@.subrange(pos as int, p1 as int)
            + data@.subrange(p1 as int, p2 as int));
    }
    Some((v, p2))
}

/// Reads the 16 bytes at `pos` as a fixed-point number.
pub fn take_fixed(data: &[u8], pos: usize) -> (r: Option<(IFixedPoint, usize)>)
    ensures
        r is Some <==> pos + 16 <= data@.len(),
        r matches Some((v, p)) ==> p == pos + 16 && data@.subrange(pos as int, p as int)
            == fixed_bytes(v),
{
    match take_i128(data, pos) {
        Some((bits, p)) => Some((IFixedPoint { bits }, p)),
        None => None,
    }
}

/// Reads the byte at `pos`.
pub fn take_u8(data: &[u8], pos: usize) -> (r: Option<(u8, usize)>)
    ensures
        r is Some <==> pos + 1 <= data@.len(),
        r matches Some((v, p)) ==> p == pos + 1 && data@.subrange(pos as int, p as int) == seq![v],
{
    if pos >= data.len() {
        return None;
    }
    let v = data[pos];
    proof {
        assert(data@.subrange(pos as int, pos + 1) =~= seq![v]);
    }
    Some((v, pos + 1))
}

/// Reads the 32 bytes at `pos` as an address.
pub fn take_key(data: &[u8], pos: usize) -> (r: Option<(Pubkey, usize)>)
    ensures
        r is Some <==> pos + 32 <= data@.len(),
        r matches Some((v, p)) ==> p == pos + 32 && data@.subrange(pos as int, p as int) == v.0@,
{
    if pos > data.len() || data.len() - pos < 32 {
        return None;
    }
    let mut bytes: [u8; 32] = [0u8; 32];
    let mut i: usize = 0;
    while i < 32
        invariant
            i <= 32,
            pos + 32 <= data@.len(),
            data@.len() == data.len(),
            forall|j: int| 0 <= j < i ==> bytes@[j] == data@[pos + j],
        decreases 32 - i,
    {
        bytes[i] = data[pos + i];
        i += 1;
    }
    proof {
        assert(data@.subrange(pos as int, pos + 32) =~= bytes@);
    }
    Some((Pubkey(bytes), pos + 32))
}

/// Equal little-endian bytes are those of equal numbers.
pub proof fn lemma_u64_bytes_injective(x: u64, y: u64)
    requires
        u64_bytes(x) == u64_bytes(y),
    ensures
        x == y,
{
    assert(u64_bytes(x)[0] == u64_bytes(y)[0]);
    assert(u64_bytes(x)[1] == u64_bytes(y)[1]);
    assert(u64_bytes(x)[2] == u64_bytes(y)[2]);
    assert(u64_bytes(x)[3] == u64_bytes(y)[3]);
    assert(u64_bytes(x)[4] == u64_bytes(y)[4]);
    assert(u64_bytes(x)[5] == u64_bytes(y)[5]);
    assert(u64_bytes(x)[6] == u64_bytes(y)[6]);
    assert(u64_bytes(x)[7] == u64_bytes(y)[7]);
    assert(x == y) by (bit_vector)
        requires
            x as u8 == y as u8,
            (x >> 8u64) as u8 == (y >> 8u64) as u8,
            (x >> 16u64) as u8 == (y >> 16u64) as u8,
            (x >> 24u64) as u8 == (y >> 24u64) as u8,
            (x >> 32u64) as u8 == (y >> 32u64) as u8,
            (x >> 40u64) as u8 == (y >> 40u64) as u8,
            (x >> 48u64) as u8 == (y >> 48u64) as u8,
            (x >> 56u64) as u8 == (y >> 56u64) as u8,
    ;
}

pub proof fn lemma_i64_bytes_injective(x: i64, y: i64)
    requires
        i64_bytes(x) == i64_bytes(y),
    ensures
        x == y,
{
    lemma_u64_bytes_injective(x as u64, y as u64);
    assert(x == y) by (bit_vector)
        requires
            x as u64 == y as u64,
    ;
}

pub proof fn lemma_i128_bytes_injective(x: i128, y: i128)
    requires
        i128_bytes(x) == i128_bytes(y),
    ensures
        x == y,
{
    let bx = i128_bytes(x);
    let by = i128_bytes(y);
    assert(bx.subrange(0, 8) =~= u64_bytes((x as u128) as u64));
    assert(by.subrange(0, 8) =~= u64_bytes((y as u128) as u64));
    assert(bx.subrange(8, 16) =~= u64_bytes(((x as u128) >> 64u128) as u64));
    assert(by.subrange(8, 16) =~= u64_bytes(((y as u128) >> 64u128) as u64));
    lemma_u64_bytes_injective((x as u128) as u64, (y as u128) as u64);
    lemma_u64_bytes_injective(((x as u128) >> 64u128) as u64, ((y as u128) >> 64u128) as u64);
    assert(x == y) by (bit_vector)
        requires
            (x as u128) as u64 == (y as u128) as u64,
            ((x as u128) >> 64u128) as u64 == ((y as u128) >> 64u128) as u64,
    ;
}

pub proof fn lemma_fixed_bytes_injective(x: IFixedPoint, y: IFixedPoint)
    requires
        fixed_bytes(x) == fixed_bytes(y),
    ensures
        x == y,
{
    lemma_i128_bytes_injective(x.bits, y.bits);
}

pub proof fn lemma_key_injective(x: Pubkey, y: Pubkey)
    requires
        x.0@ == y.0@,
    ensures
        x == y,
{
    assert(x.0 =~= y.0);
}

/// Two concatenations with first parts of equal length are equal part by
/// part.
pub proof fn lemma_concat_split<T>(x: Seq<T>, y: Seq<T>, x2: Seq<T>, y2: Seq<T>)
    requires
        x + y == x2 + y2,
        x.len() == x2.len(),
    ensures
        x == x2,
        y == y2,
{
    assert(x =~= (x + y).subrange(0, x.len() as int));
    assert(x2 =~= (x2 + y2).subrange(0, x.len() as int));
    assert(y =~= (x + y).subrange(x.len() as int, (x + y).len() as int));
    assert(y2 =~= (x2 + y2).subrange(x.len() as int, (x + y).len() as int));
}

/// The bytes from `a` to `c` are those from `a` to `b`, then those from `b`
/// to `c`.
pub proof fn lemma_subrange_join(d: Seq<u8>, a: int, b: int, c: int)
    requires
        0 <= a <= b <= c <= d.len(),
    ensures
        d.subrange(a, c) == d.subrange(a, b) + d.subrange(b, c),
{
    assert(d.subrange(a, c) =~= d.subrange(a, b) + d.subrange(b, c));
}

/// Whether the bytes of `d` at `pos` begin with `s`.
pub open spec fn bytes_at(d: Seq<u8>, pos: int, s: Seq<u8>) -> bool {
    0 <= pos && pos + s.len() <= d.len() && d.subrange(pos, pos + s.len()) == s
}

/// `x + y` begins at `pos` when `x` does and `y` follows it.
pub proof fn lemma_bytes_at_concat(d: Seq<u8>, pos: int, x: Seq<u8>, y: Seq<u8>)
    ensures
        bytes_at(d, pos, x + y) ==> bytes_at(d, pos, x) && bytes_at(d, pos + x.len(), y),
        bytes_at(d, pos, x) && bytes_at(d, pos + x.len(), y) ==> bytes_at(d, pos, x + y),
{
    if bytes_at(d, pos, x + y) {
        let w = d.subrange(pos, pos + (x + y).len());
        assert(w == x + y);
        assert(d.subrange(pos, pos + x.len()) =~= w.subrange(0, x.len() as int));
        assert(w.subrange(0, x.len() as int) =~= x);
        assert(d.subrange(pos + x.len(), pos + x.len() + y.len()) =~= w.subrange(
            x.len() as int,
            w.len() as int,
        ));
        assert(w.subrange(x.len() as int, w.len() as int) =~= y);
    }
    if bytes_at(d, pos, x) && bytes_at(d, pos + x.len(), y) {
        let a = d.subrange(pos, pos + x.len());
        let b = d.subrange(pos + x.len(), pos + x.len() + y.len());
        assert forall|i: int| 0 <= i < (x + y).len() implies d.subrange(pos, pos + (x + y).len())[i]
            == (x + y)[i] by {
            if i < x.len() {
                assert(a[i] == x[i]);
            } else {
                assert(b[i - x.len()] == y[i - x.len()]);
            }
        }
        assert(d.subrange(pos, pos + (x + y).len()) =~= x + y);
    }
}

/// A piece read at `pos` by a reader that ends at `p` lies at `pos`.
pub proof fn lemma_bytes_at_of_subrange(d: Seq<u8>, pos: int, p: int, s: Seq<u8>)
    requires
        0 <= pos <= p <= d.len(),
        d.subrange(pos, p) == s,
    ensures
        bytes_at(d, pos, s),
{
}

/// Reads a `bool`: the byte `0` or `1`; none for another byte or no byte.
pub fn take_bool(data: &[u8], pos: usize) -> (r: Option<(bool, usize)>)
    ensures
        r matches Some((v, p)) ==> p == pos + 1 && bytes_at(data@, pos as int, bool_bytes(v)),
        r is None ==> forall|b: bool| !#[trigger] bytes_at(data@, pos as int, bool_bytes(b)),
{
    if pos >= data.len() {
        return None;
    }
    let byte = data[pos];
    proof {
        assert forall|b: bool| #[trigger] bytes_at(data@, pos as int, bool_bytes(b)) implies data@[pos as int]
            == bool_bytes(b)[0] by {
            assert(data@.subrange(pos as int, pos + 1)[0] == data@[pos as int]);
        }
        assert(data@.subrange(pos as int, pos + 1) =~= seq![byte]);
    }
    if byte == 0 {
        Some((false, pos + 1))
    } else if byte == 1 {
        Some((true, pos + 1))
    } else {
        None
    }
}

pub fn take_u16(data: &[u8], pos: usize) -> (r: Option<(u16, usize)>)
    ensures
        r is Some <==> pos + 2 <= data@.len(),
        r matches Some((v, p)) ==> p == pos + 2 && data@.subrange(pos as int, p as int)
            == u16_bytes(v),
{
    if pos > data.len() || data.len() - pos < 2 {
        return None;
    }
    let b0 = data[pos];
    let b1 = data[pos + 1];
    let v: u16 = (b0 as u16) | ((b1 as u16) << 8u16);
    assert(v as u8 == b0 && (v >> 8u16) as u8 == b1) by (bit_vector)
        requires
            v == (b0 as u16) | ((b1 as u16) << 8u16),
    ;
    proof {
        assert(data@.subrange(pos as int, pos + 2) =~= u16_bytes(v));
    }
    Some((v, pos + 2))
}

pub fn take_u32(data: &[u8], pos: usize) -> (r: Option<(u32, usize)>)
    ensures
        r is Some <==> pos + 4 <= data@.len(),
        r matches Some((v, p)) ==> p == pos + 4 && data@.subrange(pos as int, p as int)
            == u32_bytes(v),
{
    if pos > data.len() || data.len() - pos < 4 {
        return None;
    }
    let b0 = data[pos];
    let b1 = data[pos + 1];
    let b2 = data[pos + 2];
    let b3 = data[pos + 3];
    let v: u32 = (b0 as u32) | ((b1 as u32) << 8u32) | ((b2 as u32) << 16u32) | ((b3 as u32)
        << 24u32);
    assert(v as u8 == b0 && (v >> 8u32) as u8 == b1 && (v >> 16u32) as u8 == b2 && (v >> 24u32) as u8
        == b3) by (bit_vector)
        requires
            v == (b0 as u32) | ((b1 as u32) << 8u32) | ((b2 as u32) << 16u32) | ((b3 as u32) << 24u32),
    ;
    proof {
        assert(data@.subrange(pos as int, pos + 4) =~= u32_bytes(v));
    }
    Some((v, pos + 4))
}

pub proof fn lemma_u16_bytes_injective(x: u16, y: u16)
    requires
        u16_bytes(x) == u16_bytes(y),
    ensures
        x == y,
{
    assert(u16_bytes(x)[0] == u16_bytes(y)[0]);
    assert(u16_bytes(x)[1] == u16_bytes(y)[1]);
    assert(x == y) by (bit_vector)
        requires
            x as u8 == y as u8,
            (x >> 8u16) as u8 == (y >> 8u16) as u8,
    ;
}

pub proof fn lemma_u32_bytes_injective(x: u32, y: u32)
    requires
        u32_bytes(x) == u32_bytes(y),
    ensures
        x == y,
{
    assert(u32_bytes(x)[0] == u32_bytes(y)[0]);
    assert(u32_bytes(x)[1] == u32_bytes(y)[1]);
    assert(u32_bytes(x)[2] == u32_bytes(y)[2]);
    assert(u32_bytes(x)[3] == u32_bytes(y)[3]);
    assert(x == y) by (bit_vector)
        requires
            x as u8 == y as u8,
            (x >> 8u32) as u8 == (y >> 8u32) as u8,
            (x >> 16u32) as u8 == (y >> 16u32) as u8,
            (x >> 24u32) as u8 == (y >> 24u32) as u8,
    ;
}

pub proof fn lemma_bool_bytes_injective(x: bool, y: bool)
    requires
        bool_bytes(x) == bool_bytes(y),
    ensures
        x == y,
{
    let bx = bool_bytes(x);
    let by = bool_bytes(y);
    assert(bx[0] == by[0]);
    assert(bx[0] == (if x { 1u8 } else { 0u8 }));
    assert(by[0] == (if y { 1u8 } else { 0u8 }));
}

} // verus!
