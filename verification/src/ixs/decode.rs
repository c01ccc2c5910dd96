//! Reading instruction data back: each reader takes the bytes at a place
//! and gives the value they begin with, or none when they begin with no
//! value of that kind.
use crate::interest_rate::adaptive_curve::AdaptiveInterestRateCurve;
use crate::interest_rate::interest_rate_kind::{point_bytes, points_bytes, InterestRateCurveKind};
use crate::interest_rate::interest_rate_per_second::InterestRatePerSecond;
use crate::interest_rate::polyline::{PolylineInterestRateCurve, PolylineInterestRatePoint};
use crate::ixs::borrow::{callback_bytes, callback_fits};
use crate::ixs::instruction::{meta_bytes, metas_bytes, AccountMeta, Instruction};
use crate::state::market_config::LtvConfig;
use crate::ixs::wire::{
    bool_bytes, bytes_at, fixed_bytes, lemma_bool_bytes_injective, lemma_bytes_at_concat,
    lemma_bytes_at_of_subrange, lemma_concat_split, lemma_fixed_bytes_injective,
    lemma_key_injective, lemma_subrange_join, lemma_u16_bytes_injective, lemma_u32_bytes_injective,
    lemma_u64_bytes_injective, opt_fixed_bytes, opt_key_bytes, opt_u16_bytes, opt_u64_bytes,
    take_bool, take_fixed, take_key, take_u16, take_u32, take_u64, take_u8, u16_bytes, u32_bytes,
    u64_bytes,
};
use crate::math::ifixed_point::IFixedPoint;
use crate::ixs::market::{opt_ltv_config_bytes, opt_oracle_config_bytes};
use crate::ixs::wire::zeros;
use crate::oracle::oracle_config::{
    pod_fixed_bytes, pod_u64_bytes, provider_bytes, validation_bytes, ChaosProvider, OracleConfig,
    OracleProvider, OracleValidationConfig, PythProvider, ORACLE_CONFIG_RESERVED,
};
use crate::pubkey::Pubkey;
use vstd::prelude::*;

verus! {

/// Two byte strings of one length at one place are equal.
pub proof fn lemma_at_same_len(d: Seq<u8>, pos: int, s1: Seq<u8>, s2: Seq<u8>)
    requires
        bytes_at(d, pos, s1),
        bytes_at(d, pos, s2),
        s1.len() == s2.len(),
    ensures
        s1 == s2,
{
}

/// At most one `bool` begins at a given place.
pub proof fn lemma_bool_at_unique(d: Seq<u8>, pos: int, a: bool, b: bool)
    requires
        bytes_at(d, pos, bool_bytes(a)),
        bytes_at(d, pos, bool_bytes(b)),
    ensures
        a == b,
{
    lemma_at_same_len(d, pos, bool_bytes(a), bool_bytes(b));
    lemma_bool_bytes_injective(a, b);
}

/// `opt_key_bytes` as a flag and the value's bytes.
proof fn lemma_opt_key_bytes_parts(x: Option<Pubkey>)
    ensures
        opt_key_bytes(x) == bool_bytes(x is Some) + match x {
            Some(v) => v.0@,
            None => Seq::<u8>::empty(),
        },
        x is Some ==> opt_key_bytes(x).len() == 1 + 32,
{
    match x {
        Some(v) => assert(opt_key_bytes(x) =~= bool_bytes(true) + v.0@),
        None => assert(opt_key_bytes(x) =~= bool_bytes(false) + Seq::<u8>::empty()),
    }
}

/// Reads an optional value: a flag byte `0`, or `1` and the value.
pub fn take_opt_key(data: &[u8], pos: usize) -> (r: Option<(Option<Pubkey>, usize)>)
    ensures
        r matches Some((x, p)) ==> bytes_at(data@, pos as int, opt_key_bytes(x)) && p == pos
            + opt_key_bytes(x).len(),
        r is None ==> forall|y: Option<Pubkey>| !#[trigger] bytes_at(data@, pos as int, opt_key_bytes(y)),
{
    let (flag, p1) = match take_bool(data, pos) {
        Some(x) => x,
        None => {
            proof {
                assert forall|y: Option<Pubkey>|
                    !#[trigger] bytes_at(data@, pos as int, opt_key_bytes(y)) by {
                    lemma_opt_key_bytes_parts(y);
                    let rest = match y {
                        Some(v) => v.0@,
                        None => Seq::<u8>::empty(),
                    };
                    lemma_bytes_at_concat(data@, pos as int, bool_bytes(y is Some), rest);
                }
            }
            return None;
        },
    };
    if !flag {
        proof {
            lemma_opt_key_bytes_parts(None);
            assert(opt_key_bytes(None) =~= bool_bytes(false));
        }
        return Some((None, p1));
    }
    match take_key(data, p1) {
        Some((k, p2)) => {
            proof {
                lemma_opt_key_bytes_parts(Some(k));
                lemma_bytes_at_concat(data@, pos as int, bool_bytes(true), k.0@);
            }
            Some((Some(k), p2))
        },
        None => {
            proof {
                assert forall|y: Option<Pubkey>|
                    !#[trigger] bytes_at(data@, pos as int, opt_key_bytes(y)) by {
                    lemma_opt_key_bytes_parts(y);
                    let rest = match y {
                        Some(v) => v.0@,
                        None => Seq::<u8>::empty(),
                    };
                    lemma_bytes_at_concat(data@, pos as int, bool_bytes(y is Some), rest);
                    if bytes_at(data@, pos as int, opt_key_bytes(y)) {
                        lemma_bool_at_unique(data@, pos as int, true, y is Some);
                    }
                }
            }
            None
        },
    }
}

/// At most one optional value begins at a given place.
pub proof fn lemma_opt_key_bytes_unique(d: Seq<u8>, pos: int, a: Option<Pubkey>, b: Option<Pubkey>)
    requires
        bytes_at(d, pos, opt_key_bytes(a)),
        bytes_at(d, pos, opt_key_bytes(b)),
    ensures
        a == b,
{
    lemma_opt_key_bytes_parts(a);
    lemma_opt_key_bytes_parts(b);
    let ra = match a {
        Some(v) => v.0@,
        None => Seq::<u8>::empty(),
    };
    let rb = match b {
        Some(v) => v.0@,
        None => Seq::<u8>::empty(),
    };
    lemma_bytes_at_concat(d, pos, bool_bytes(a is Some), ra);
    lemma_bytes_at_concat(d, pos, bool_bytes(b is Some), rb);
    lemma_bool_at_unique(d, pos, a is Some, b is Some);
    match (a, b) {
        (Some(x), Some(y)) => {
            assert(ra == rb);
            lemma_key_injective(x, y);
        },
        _ => {},
    }
}

/// `opt_u16_bytes` as a flag and the value's bytes.
proof fn lemma_opt_u16_bytes_parts(x: Option<u16>)
    ensures
        opt_u16_bytes(x) == bool_bytes(x is Some) + match x {
            Some(v) => u16_bytes(v),
            None => Seq::<u8>::empty(),
        },
        x is Some ==> opt_u16_bytes(x).len() == 1 + 2,
{
    match x {
        Some(v) => assert(opt_u16_bytes(x) =~= bool_bytes(true) + u16_bytes(v)),
        None => assert(opt_u16_bytes(x) =~= bool_bytes(false) + Seq::<u8>::empty()),
    }
}

/// Reads an optional value: a flag byte `0`, or `1` and the value.
pub fn take_opt_u16(data: &[u8], pos: usize) -> (r: Option<(Option<u16>, usize)>)
    ensures
        r matches Some((x, p)) ==> bytes_at(data@, pos as int, opt_u16_bytes(x)) && p == pos
            + opt_u16_bytes(x).len(),
        r is None ==> forall|y: Option<u16>| !#[trigger] bytes_at(data@, pos as int, opt_u16_bytes(y)),
{
    let (flag, p1) = match take_bool(data, pos) {
        Some(x) => x,
        None => {
            proof {
                assert forall|y: Option<u16>|
                    !#[trigger] bytes_at(data@, pos as int, opt_u16_bytes(y)) by {
                    lemma_opt_u16_bytes_parts(y);
                    let rest = match y {
                        Some(v) => u16_bytes(v),
                        None => Seq::<u8>::empty(),
                    };
                    lemma_bytes_at_concat(data@, pos as int, bool_bytes(y is Some), rest);
                }
            }
            return None;
        },
    };
    if !flag {
        proof {
            lemma_opt_u16_bytes_parts(None);
            assert(opt_u16_bytes(None) =~= bool_bytes(false));
        }
        return Some((None, p1));
    }
    match take_u16(data, p1) {
        Some((k, p2)) => {
            proof {
                lemma_opt_u16_bytes_parts(Some(k));
                lemma_bytes_at_concat(data@, pos as int, bool_bytes(true), u16_bytes(k));
            }
            Some((Some(k), p2))
        },
        None => {
            proof {
                assert forall|y: Option<u16>|
                    !#[trigger] bytes_at(data@, pos as int, opt_u16_bytes(y)) by {
                    lemma_opt_u16_bytes_parts(y);
                    let rest = match y {
                        Some(v) => u16_bytes(v),
                        None => Seq::<u8>::empty(),
                    };
                    lemma_bytes_at_concat(data@, pos as int, bool_bytes(y is Some), rest);
                    if bytes_at(data@, pos as int, opt_u16_bytes(y)) {
                        lemma_bool_at_unique(data@, pos as int, true, y is Some);
                    }
                }
            }
            None
        },
    }
}

/// At most one optional value begins at a given place.
pub proof fn lemma_opt_u16_bytes_unique(d: Seq<u8>, pos: int, a: Option<u16>, b: Option<u16>)
    requires
        bytes_at(d, pos, opt_u16_bytes(a)),
        bytes_at(d, pos, opt_u16_bytes(b)),
    ensures
        a == b,
{
    lemma_opt_u16_bytes_parts(a);
    lemma_opt_u16_bytes_parts(b);
    let ra = match a {
        Some(v) => u16_bytes(v),
        None => Seq::<u8>::empty(),
    };
    let rb = match b {
        Some(v) => u16_bytes(v),
        None => Seq::<u8>::empty(),
    };
    lemma_bytes_at_concat(d, pos, bool_bytes(a is Some), ra);
    lemma_bytes_at_concat(d, pos, bool_bytes(b is Some), rb);
    lemma_bool_at_unique(d, pos, a is Some, b is Some);
    match (a, b) {
        (Some(x), Some(y)) => {
            assert(ra == rb);
            lemma_u16_bytes_injective(x, y);
        },
        _ => {},
    }
}

/// `opt_u64_bytes` as a flag and the value's bytes.
proof fn lemma_opt_u64_bytes_parts(x: Option<u64>)
    ensures
        opt_u64_bytes(x) == bool_bytes(x is Some) + match x {
            Some(v) => u64_bytes(v),
            None => Seq::<u8>::empty(),
        },
        x is Some ==> opt_u64_bytes(x).len() == 1 + 8,
{
    match x {
        Some(v) => assert(opt_u64_bytes(x) =~= bool_bytes(true) + u64_bytes(v)),
        None => assert(opt_u64_bytes(x) =~= bool_bytes(false) + Seq::<u8>::empty()),
    }
}

/// Reads an optional value: a flag byte `0`, or `1` and the value.
pub fn take_opt_u64(data: &[u8], pos: usize) -> (r: Option<(Option<u64>, usize)>)
    ensures
        r matches Some((x, p)) ==> bytes_at(data@, pos as int, opt_u64_bytes(x)) && p == pos
            + opt_u64_bytes(x).len(),
        r is None ==> forall|y: Option<u64>| !#[trigger] bytes_at(data@, pos as int, opt_u64_bytes(y)),
{
    let (flag, p1) = match take_bool(data, pos) {
        Some(x) => x,
        None => {
            proof {
                assert forall|y: Option<u64>|
                    !#[trigger] bytes_at(data@, pos as int, opt_u64_bytes(y)) by {
                    lemma_opt_u64_bytes_parts(y);
                    let rest = match y {
                        Some(v) => u64_bytes(v),
                        None => Seq::<u8>::empty(),
                    };
                    lemma_bytes_at_concat(data@, pos as int, bool_bytes(y is Some), rest);
                }
            }
            return None;
        },
    };
    if !flag {
        proof {
            lemma_opt_u64_bytes_parts(None);
            assert(opt_u64_bytes(None) =~= bool_bytes(false));
        }
        return Some((None, p1));
    }
    match take_u64(data, p1) {
        Some((k, p2)) => {
            proof {
                lemma_opt_u64_bytes_parts(Some(k));
                lemma_bytes_at_concat(data@, pos as int, bool_bytes(true), u64_bytes(k));
            }
            Some((Some(k), p2))
        },
        None => {
            proof {
                assert forall|y: Option<u64>|
                    !#[trigger] bytes_at(data@, pos as int, opt_u64_bytes(y)) by {
                    lemma_opt_u64_bytes_parts(y);
                    let rest = match y {
                        Some(v) => u64_bytes(v),
                        None => Seq::<u8>::empty(),
                    };
                    lemma_bytes_at_concat(data@, pos as int, bool_bytes(y is Some), rest);
                    if bytes_at(data@, pos as int, opt_u64_bytes(y)) {
                        lemma_bool_at_unique(data@, pos as int, true, y is Some);
                    }
                }
            }
            None
        },
    }
}

/// At most one optional value begins at a given place.
pub proof fn lemma_opt_u64_bytes_unique(d: Seq<u8>, pos: int, a: Option<u64>, b: Option<u64>)
    requires
        bytes_at(d, pos, opt_u64_bytes(a)),
        bytes_at(d, pos, opt_u64_bytes(b)),
    ensures
        a == b,
{
    lemma_opt_u64_bytes_parts(a);
    lemma_opt_u64_bytes_parts(b);
    let ra = match a {
        Some(v) => u64_bytes(v),
        None => Seq::<u8>::empty(),
    };
    let rb = match b {
        Some(v) => u64_bytes(v),
        None => Seq::<u8>::empty(),
    };
    lemma_bytes_at_concat(d, pos, bool_bytes(a is Some), ra);
    lemma_bytes_at_concat(d, pos, bool_bytes(b is Some), rb);
    lemma_bool_at_unique(d, pos, a is Some, b is Some);
    match (a, b) {
        (Some(x), Some(y)) => {
            assert(ra == rb);
            lemma_u64_bytes_injective(x, y);
        },
        _ => {},
    }
}

/// `opt_fixed_bytes` as a flag and the value's bytes.
proof fn lemma_opt_fixed_bytes_parts(x: Option<IFixedPoint>)
    ensures
        opt_fixed_bytes(x) == bool_bytes(x is Some) + match x {
            Some(v) => fixed_bytes(v),
            None => Seq::<u8>::empty(),
        },
        x is Some ==> opt_fixed_bytes(x).len() == 1 + 16,
{
    match x {
        Some(v) => assert(opt_fixed_bytes(x) =~= bool_bytes(true) + fixed_bytes(v)),
        None => assert(opt_fixed_bytes(x) =~= bool_bytes(false) + Seq::<u8>::empty()),
    }
}

/// Reads an optional value: a flag byte `0`, or `1` and the value.
pub fn take_opt_fixed(data: &[u8], pos: usize) -> (r: Option<(Option<IFixedPoint>, usize)>)
    ensures
        r matches Some((x, p)) ==> bytes_at(data@, pos as int, opt_fixed_bytes(x)) && p == pos
            + opt_fixed_bytes(x).len(),
        r is None ==> forall|y: Option<IFixedPoint>| !#[trigger] bytes_at(data@, pos as int, opt_fixed_bytes(y)),
{
    let (flag, p1) = match take_bool(data, pos) {
        Some(x) => x,
        None => {
            proof {
                assert forall|y: Option<IFixedPoint>|
                    !#[trigger] bytes_at(data@, pos as int, opt_fixed_bytes(y)) by {
                    lemma_opt_fixed_bytes_parts(y);
                    let rest = match y {
                        Some(v) => fixed_bytes(v),
                        None => Seq::<u8>::empty(),
                    };
                    lemma_bytes_at_concat(data@, pos as int, bool_bytes(y is Some), rest);
                }
            }
            return None;
        },
    };
    if !flag {
        proof {
            lemma_opt_fixed_bytes_parts(None);
            assert(opt_fixed_bytes(None) =~= bool_bytes(false));
        }
        return Some((None, p1));
    }
    match take_fixed(data, p1) {
        Some((k, p2)) => {
            proof {
                lemma_opt_fixed_bytes_parts(Some(k));
                lemma_bytes_at_concat(data@, pos as int, bool_bytes(true), fixed_bytes(k));
            }
            Some((Some(k), p2))
        },
        None => {
            proof {
                assert forall|y: Option<IFixedPoint>|
                    !#[trigger] bytes_at(data@, pos as int, opt_fixed_bytes(y)) by {
                    lemma_opt_fixed_bytes_parts(y);
                    let rest = match y {
                        Some(v) => fixed_bytes(v),
                        None => Seq::<u8>::empty(),
                    };
                    lemma_bytes_at_concat(data@, pos as int, bool_bytes(y is Some), rest);
                    if bytes_at(data@, pos as int, opt_fixed_bytes(y)) {
                        lemma_bool_at_unique(data@, pos as int, true, y is Some);
                    }
                }
            }
            None
        },
    }
}

/// At most one optional value begins at a given place.
pub proof fn lemma_opt_fixed_bytes_unique(
    d: Seq<u8>,
    pos: int,
    a: Option<IFixedPoint>,
    b: Option<IFixedPoint>,
)
    requires
        bytes_at(d, pos, opt_fixed_bytes(a)),
        bytes_at(d, pos, opt_fixed_bytes(b)),
    ensures
        a == b,
{
    lemma_opt_fixed_bytes_parts(a);
    lemma_opt_fixed_bytes_parts(b);
    let ra = match a {
        Some(v) => fixed_bytes(v),
        None => Seq::<u8>::empty(),
    };
    let rb = match b {
        Some(v) => fixed_bytes(v),
        None => Seq::<u8>::empty(),
    };
    lemma_bytes_at_concat(d, pos, bool_bytes(a is Some), ra);
    lemma_bytes_at_concat(d, pos, bool_bytes(b is Some), rb);
    lemma_bool_at_unique(d, pos, a is Some, b is Some);
    match (a, b) {
        (Some(x), Some(y)) => {
            assert(ra == rb);
            lemma_fixed_bytes_injective(x, y);
        },
        _ => {},
    }
}

/// The bytes of the first `n` points are those of the points, in order.
pub(crate) proof fn lemma_points_bytes_len(s: Seq<PolylineInterestRatePoint>)
    ensures
        points_bytes(s).len() == 8 * s.len(),
    decreases s.len(),
{
    if s.len() > 0 {
        lemma_points_bytes_len(s.drop_last());
    }
}

/// Points with the same bytes are the same points.
pub(crate) proof fn lemma_points_bytes_injective(
    a: Seq<PolylineInterestRatePoint>,
    b: Seq<PolylineInterestRatePoint>,
)
    requires
        a.len() == b.len(),
        points_bytes(a) == points_bytes(b),
    ensures
        a == b,
    decreases a.len(),
{
    if a.len() > 0 {
        lemma_points_bytes_len(a.drop_last());
        lemma_points_bytes_len(b.drop_last());
        lemma_concat_split(
            points_bytes(a.drop_last()),
            point_bytes(a.last()),
            points_bytes(b.drop_last()),
            point_bytes(b.last()),
        );
        lemma_points_bytes_injective(a.drop_last(), b.drop_last());
        let (x, y) = (a.last(), b.last());
        lemma_concat_split(
            u32_bytes(x.utilization_rate_bps),
            u32_bytes(x.borrow_rate_bps),
            u32_bytes(y.utilization_rate_bps),
            u32_bytes(y.borrow_rate_bps),
        );
        lemma_u32_bytes_injective(x.utilization_rate_bps, y.utilization_rate_bps);
        lemma_u32_bytes_injective(x.borrow_rate_bps, y.borrow_rate_bps);
        assert(a =~= a.drop_last().push(a.last()));
        assert(b =~= b.drop_last().push(b.last()));
    }
}

proof fn lemma_curve_len(c: InterestRateCurveKind)
    ensures
        c.wire().len() == match c {
            InterestRateCurveKind::Polyline(_) => 65int,
            _ => 17int,
        },
        c.wire()[0] == match c {
            InterestRateCurveKind::Fixed(_) => 0u8,
            InterestRateCurveKind::Polyline(_) => 1u8,
            InterestRateCurveKind::Adaptive(_) => 2u8,
        },
{
    match c {
        InterestRateCurveKind::Polyline(p) => lemma_points_bytes_len(p.points@),
        _ => {},
    }
}

/// At most one interest rate curve begins at a given place.
pub proof fn lemma_curve_unique(
    d: Seq<u8>,
    pos: int,
    a: InterestRateCurveKind,
    b: InterestRateCurveKind,
)
    requires
        bytes_at(d, pos, a.wire()),
        bytes_at(d, pos, b.wire()),
    ensures
        a == b,
{
    lemma_curve_len(a);
    lemma_curve_len(b);
    assert(a.wire()[0] == d[pos]);
    assert(b.wire()[0] == d[pos]);
    lemma_at_same_len(d, pos, a.wire(), b.wire());
    match (a, b) {
        (InterestRateCurveKind::Fixed(x), InterestRateCurveKind::Fixed(y)) => {
            lemma_concat_split(seq![0u8], fixed_bytes(x.0), seq![0u8], fixed_bytes(y.0));
            lemma_fixed_bytes_injective(x.0, y.0);
        },
        (InterestRateCurveKind::Adaptive(x), InterestRateCurveKind::Adaptive(y)) => {
            lemma_concat_split(
                seq![2u8],
                fixed_bytes(x.rate_at_target.0),
                seq![2u8],
                fixed_bytes(y.rate_at_target.0),
            );
            lemma_fixed_bytes_injective(x.rate_at_target.0, y.rate_at_target.0);
        },
        (InterestRateCurveKind::Polyline(x), InterestRateCurveKind::Polyline(y)) => {
            lemma_concat_split(
                seq![1u8],
                points_bytes(x.points@),
                seq![1u8],
                points_bytes(y.points@),
            );
            lemma_points_bytes_injective(x.points@, y.points@);
            assert(x.points =~= y.points);
        },
        _ => {},
    }
}

/// Reads an interest rate curve: its kind (`0` fixed, `1` polyline, `2`
/// adaptive), then its fields.
pub fn read_curve(data: &[u8], pos: usize) -> (r: Option<(InterestRateCurveKind, usize)>)
    ensures
        r matches Some((x, p)) ==> bytes_at(data@, pos as int, x.wire()) && p == pos
            + x.wire().len(),
        r is None ==> forall|y: InterestRateCurveKind| !#[trigger] bytes_at(data@, pos as int, y.wire()),
{
    let (kind, p0) = match take_u8(data, pos) {
        Some(v) => v,
        None => {
            proof {
                assert forall|y: InterestRateCurveKind|
                    !#[trigger] bytes_at(data@, pos as int, y.wire()) by {
                    lemma_curve_len(y);
                }
            }
            return None;
        },
    };
    proof {
        assert(data@.subrange(pos as int, p0 as int)[0] == data@[pos as int]);
    }
    if kind == 0 || kind == 2 {
        let (f, p1) = match take_fixed(data, p0) {
            Some(v) => v,
            None => {
                proof {
                    assert forall|y: InterestRateCurveKind|
                        !#[trigger] bytes_at(data@, pos as int, y.wire()) by {
                        lemma_curve_len(y);
                        if bytes_at(data@, pos as int, y.wire()) {
                            assert(y.wire()[0] == data@[pos as int]);
                        }
                    }
                }
                return None;
            },
        };
        let x = if kind == 0 {
            InterestRateCurveKind::Fixed(InterestRatePerSecond(f))
        } else {
            InterestRateCurveKind::Adaptive(AdaptiveInterestRateCurve { rate_at_target: InterestRatePerSecond(f) })
        };
        proof {
            lemma_subrange_join(data@, pos as int, p0 as int, p1 as int);
            assert(data@.subrange(pos as int, p0 as int) =~= seq![kind]);
            assert(x.wire() =~= seq![kind] + fixed_bytes(f));
        }
        return Some((x, p1));
    }
    if kind != 1 {
        proof {
            assert forall|y: InterestRateCurveKind|
                !#[trigger] bytes_at(data@, pos as int, y.wire()) by {
                lemma_curve_len(y);
                if bytes_at(data@, pos as int, y.wire()) {
                    assert(y.wire()[0] == data@[pos as int]);
                }
            }
        }
        return None;
    }
    if p0 > data.len() || data.len() - p0 < 64 {
        proof {
            assert forall|y: InterestRateCurveKind|
                !#[trigger] bytes_at(data@, pos as int, y.wire()) by {
                lemma_curve_len(y);
                if bytes_at(data@, pos as int, y.wire()) {
                    assert(y.wire()[0] == data@[pos as int]);
                }
            }
        }
        return None;
    }
    let zero = PolylineInterestRatePoint { utilization_rate_bps: 0, borrow_rate_bps: 0 };
    let mut points: [PolylineInterestRatePoint; 8] = [zero; 8];
    let mut i: usize = 0;
    let mut q: usize = p0;
    while i < 8
        invariant
            i <= 8,
            q == p0 + 8 * i,
            p0 + 64 <= data@.len(),
            data@.subrange(p0 as int, q as int) == points_bytes(points@.take(i as int)),
        decreases 8 - i,
    {
        let (u, q1) = take_u32(data, q).unwrap();
        let (b, q2) = take_u32(data, q1).unwrap();
        let ghost before = points@.take(i as int);
        points[i] = PolylineInterestRatePoint { utilization_rate_bps: u, borrow_rate_bps: b };
        proof {
            assert(points@.take(i as int) =~= before);
            let t = points@.take(i as int + 1);
            assert(t.drop_last() =~= before);
            lemma_subrange_join(data@, p0 as int, q as int, q1 as int);
            lemma_subrange_join(data@, p0 as int, q1 as int, q2 as int);
        }
        i += 1;
        q = q2;
    }
    let x = InterestRateCurveKind::Polyline(PolylineInterestRateCurve { points });
    proof {
        assert(points@.take(8) =~= points@);
        lemma_subrange_join(data@, pos as int, p0 as int, q as int);
        assert(data@.subrange(pos as int, p0 as int) =~= seq![kind]);
    }
    Some((x, q))
}

/// An optional `u64` of an account's layout read back: zero is none.
pub open spec fn pod_u64_at(d: Seq<u8>, pos: int, x: Option<u64>) -> bool {
    match x {
        Some(v) => v != 0 && bytes_at(d, pos, u64_bytes(v)),
        None => bytes_at(d, pos, u64_bytes(0)),
    }
}

/// An optional fixed-point number of an account's layout read back: zero
/// is none.
pub open spec fn pod_fixed_at(d: Seq<u8>, pos: int, x: Option<IFixedPoint>) -> bool {
    match x {
        Some(v) => v.bits != 0 && bytes_at(d, pos, fixed_bytes(v)),
        None => bytes_at(d, pos, fixed_bytes(IFixedPoint { bits: 0 })),
    }
}

/// The bytes at `pos` hold the oracle config `c`: its provider's kind and
/// fields, then the validation settings; the padding in the provider slot
/// and the reserved space are not read.
pub open spec fn oracle_config_at(d: Seq<u8>, pos: int, c: OracleConfig) -> bool {
    &&& 0 <= pos && pos + 257 <= d.len()
    &&& match c.oracle_provider {
        OracleProvider::Pyth(p) => d[pos] == 0 && bytes_at(d, pos + 1, p.feed_id@) && bytes_at(d, pos + 33, p.program_id.0@),
        OracleProvider::Chaos(ch) => d[pos] == 1 && bytes_at(d, pos + 1, ch.feed_id@) && bytes_at(d, pos + 33, ch.program_id.0@) && d[pos + 65] == ch.required_signatures,
    }
    &&& pod_u64_at(d, pos + 73, c.validation_config.max_age)
    &&& pod_fixed_at(d, pos + 81, c.validation_config.min_relative_confidence)
    &&& pod_u64_at(d, pos + 97, c.validation_config.min_signature_threshold)
}

/// An oracle config whose optional settings are none or non-zero: the ones
/// the account layout can hold.
pub open spec fn canonical_oracle_config(c: OracleConfig) -> bool {
    &&& c.validation_config.max_age != Some(0u64)
    &&& c.validation_config.min_relative_confidence != Some(IFixedPoint { bits: 0 })
    &&& c.validation_config.min_signature_threshold != Some(0u64)
}

/// At most one oracle config begins at a given place.
pub proof fn lemma_oracle_config_unique(d: Seq<u8>, pos: int, a: OracleConfig, b: OracleConfig)
    requires
        oracle_config_at(d, pos, a),
        oracle_config_at(d, pos, b),
    ensures
        a == b,
{
    let (va, vb) = (a.validation_config, b.validation_config);
    match (va.max_age, vb.max_age) {
        (Some(x), Some(y)) => {
            lemma_at_same_len(d, pos + 73, u64_bytes(x), u64_bytes(y));
            lemma_u64_bytes_injective(x, y);
        },
        (Some(x), None) => {
            lemma_at_same_len(d, pos + 73, u64_bytes(x), u64_bytes(0));
            lemma_u64_bytes_injective(x, 0);
        },
        (None, Some(y)) => {
            lemma_at_same_len(d, pos + 73, u64_bytes(0), u64_bytes(y));
            lemma_u64_bytes_injective(0, y);
        },
        _ => {},
    }
    match (va.min_signature_threshold, vb.min_signature_threshold) {
        (Some(x), Some(y)) => {
            lemma_at_same_len(d, pos + 97, u64_bytes(x), u64_bytes(y));
            lemma_u64_bytes_injective(x, y);
        },
        (Some(x), None) => {
            lemma_at_same_len(d, pos + 97, u64_bytes(x), u64_bytes(0));
            lemma_u64_bytes_injective(x, 0);
        },
        (None, Some(y)) => {
            lemma_at_same_len(d, pos + 97, u64_bytes(0), u64_bytes(y));
            lemma_u64_bytes_injective(0, y);
        },
        _ => {},
    }
    let zero = IFixedPoint { bits: 0 };
    match (va.min_relative_confidence, vb.min_relative_confidence) {
        (Some(x), Some(y)) => {
            lemma_at_same_len(d, pos + 81, fixed_bytes(x), fixed_bytes(y));
            lemma_fixed_bytes_injective(x, y);
        },
        (Some(x), None) => {
            lemma_at_same_len(d, pos + 81, fixed_bytes(x), fixed_bytes(zero));
            lemma_fixed_bytes_injective(x, zero);
        },
        (None, Some(y)) => {
            lemma_at_same_len(d, pos + 81, fixed_bytes(zero), fixed_bytes(y));
            lemma_fixed_bytes_injective(zero, y);
        },
        _ => {},
    }
    match (a.oracle_provider, b.oracle_provider) {
        (OracleProvider::Pyth(x), OracleProvider::Pyth(y)) => {
            lemma_at_same_len(d, pos + 1, x.feed_id@, y.feed_id@);
            assert(x.feed_id =~= y.feed_id);
            lemma_at_same_len(d, pos + 33, x.program_id.0@, y.program_id.0@);
            lemma_key_injective(x.program_id, y.program_id);
        },
        (OracleProvider::Chaos(x), OracleProvider::Chaos(y)) => {
            lemma_at_same_len(d, pos + 1, x.feed_id@, y.feed_id@);
            assert(x.feed_id =~= y.feed_id);
            lemma_at_same_len(d, pos + 33, x.program_id.0@, y.program_id.0@);
            lemma_key_injective(x.program_id, y.program_id);
        },
        _ => {},
    }
}

fn read_pod_u64(data: &[u8], pos: usize) -> (r: Option<u64>)
    requires
        pos + 8 <= data@.len(),
    ensures
        pod_u64_at(data@, pos as int, r),
{
    let (v, p) = take_u64(data, pos).unwrap();
    if v == 0 {
        None
    } else {
        Some(v)
    }
}

/// Reads an oracle config: the provider's kind (`0` Pyth, `1` Chaos) and
/// fields in a slot of 72 bytes, the validation settings, and 152 reserved
/// bytes.
pub fn read_oracle_config(data: &[u8], pos: usize) -> (r: Option<(OracleConfig, usize)>)
    ensures
        r matches Some((x, p)) ==> oracle_config_at(data@, pos as int, x) && p == pos + 257,
        r is None ==> forall|y: OracleConfig| !#[trigger] oracle_config_at(data@, pos as int, y),
{
    if pos > data.len() || data.len() - pos < 257 {
        return None;
    }
    let kind = data[pos];
    let (feed, p1) = take_key(data, pos + 1).unwrap();
    let (program_id, p2) = take_key(data, p1).unwrap();
    let oracle_provider = if kind == 0 {
        OracleProvider::Pyth(PythProvider { feed_id: feed.0, program_id })
    } else if kind == 1 {
        OracleProvider::Chaos(ChaosProvider { feed_id: feed.0, program_id, required_signatures: data[pos + 65] })
    } else {
        return None;
    };
    let max_age = read_pod_u64(data, pos + 73);
    let (conf, p3) = take_fixed(data, pos + 81).unwrap();
    let min_relative_confidence = if conf.bits == 0 {
        None
    } else {
        Some(conf)
    };
    let min_signature_threshold = read_pod_u64(data, pos + 97);
    let x = OracleConfig {
        oracle_provider,
        validation_config: OracleValidationConfig { max_age, min_relative_confidence, min_signature_threshold },
    };
    proof {
        lemma_bytes_at_of_subrange(data@, pos + 1, p1 as int, feed.0@);
        lemma_bytes_at_of_subrange(data@, p1 as int, p2 as int, program_id.0@);
        lemma_bytes_at_of_subrange(data@, pos + 81, p3 as int, fixed_bytes(conf));
    }
    Some((x, pos + 257))
}

proof fn lemma_meta_bytes_parts(m: AccountMeta)
    ensures
        meta_bytes(m).len() == 34,
        meta_bytes(m) == m.pubkey.0@ + bool_bytes(m.is_signer) + bool_bytes(m.is_writable),
{
}

/// The bytes of two runs of accounts are the bytes of each, in order.
proof fn lemma_metas_bytes_append(a: Seq<AccountMeta>, b: Seq<AccountMeta>)
    ensures
        metas_bytes(a + b) == metas_bytes(a) + metas_bytes(b),
    decreases b.len(),
{
    if b.len() == 0 {
        assert(a + b =~= a);
        assert(metas_bytes(b) =~= Seq::<u8>::empty());
        assert(metas_bytes(a) + metas_bytes(b) =~= metas_bytes(a));
    } else {
        lemma_metas_bytes_append(a, b.drop_last());
        assert((a + b).drop_last() =~= a + b.drop_last());
        assert((a + b).last() == b.last());
        assert(metas_bytes(a + b) == metas_bytes(a + b.drop_last()) + meta_bytes(b.last()));
        assert(metas_bytes(a) + metas_bytes(b) =~= metas_bytes(a)
            + metas_bytes(b.drop_last())
            + meta_bytes(b.last()));
    }
}

proof fn lemma_metas_bytes_len(s: Seq<AccountMeta>)
    ensures
        metas_bytes(s).len() == 34 * s.len(),
    decreases s.len(),
{
    if s.len() > 0 {
        lemma_metas_bytes_len(s.drop_last());
    }
}

/// The bytes of the `i`-th account come after those of the first `i`.
proof fn lemma_metas_bytes_at(s: Seq<AccountMeta>, i: int)
    requires
        0 <= i < s.len(),
    ensures
        metas_bytes(s) == metas_bytes(s.take(i)) + meta_bytes(s[i]) + metas_bytes(s.skip(i + 1)),
{
    let head = s.take(i);
    let one = seq![s[i]];
    let tail = s.skip(i + 1);
    assert(s =~= head + one + tail);
    lemma_metas_bytes_append(head + one, tail);
    lemma_metas_bytes_append(head, one);
    lemma_metas_bytes_single(s[i]);
}

proof fn lemma_metas_bytes_empty()
    ensures
        metas_bytes(Seq::<AccountMeta>::empty()) == Seq::<u8>::empty(),
{
    assert(metas_bytes(Seq::<AccountMeta>::empty()) =~= Seq::<u8>::empty());
}

proof fn lemma_metas_bytes_single(m: AccountMeta)
    ensures
        metas_bytes(seq![m]) == meta_bytes(m),
{
    lemma_metas_bytes_empty();
    assert(seq![m].drop_last() =~= Seq::<AccountMeta>::empty());
    assert(metas_bytes(seq![m]) == metas_bytes(seq![m].drop_last()) + meta_bytes(seq![m].last()));
    assert(metas_bytes(seq![m]) =~= meta_bytes(m));
}

/// Accounts with the same bytes are the same account.
proof fn lemma_meta_bytes_injective(x: AccountMeta, y: AccountMeta)
    requires
        meta_bytes(x) == meta_bytes(y),
    ensures
        x == y,
{
    lemma_concat_split(
        x.pubkey.0@ + bool_bytes(x.is_signer),
        bool_bytes(x.is_writable),
        y.pubkey.0@ + bool_bytes(y.is_signer),
        bool_bytes(y.is_writable),
    );
    lemma_concat_split(x.pubkey.0@, bool_bytes(x.is_signer), y.pubkey.0@, bool_bytes(y.is_signer));
    lemma_key_injective(x.pubkey, y.pubkey);
    lemma_bool_bytes_injective(x.is_signer, y.is_signer);
    lemma_bool_bytes_injective(x.is_writable, y.is_writable);
}

/// Accounts with the same bytes are the same accounts.
proof fn lemma_metas_bytes_injective(a: Seq<AccountMeta>, b: Seq<AccountMeta>)
    requires
        a.len() == b.len(),
        metas_bytes(a) == metas_bytes(b),
    ensures
        a == b,
    decreases a.len(),
{
    if a.len() > 0 {
        lemma_metas_bytes_len(a.drop_last());
        lemma_metas_bytes_len(b.drop_last());
        lemma_concat_split(
            metas_bytes(a.drop_last()),
            meta_bytes(a.last()),
            metas_bytes(b.drop_last()),
            meta_bytes(b.last()),
        );
        lemma_metas_bytes_injective(a.drop_last(), b.drop_last());
        let (x, y) = (a.last(), b.last());
        lemma_concat_split(
            x.pubkey.0@ + bool_bytes(x.is_signer),
            bool_bytes(x.is_writable),
            y.pubkey.0@ + bool_bytes(y.is_signer),
            bool_bytes(y.is_writable),
        );
        lemma_concat_split(
            x.pubkey.0@,
            bool_bytes(x.is_signer),
            y.pubkey.0@,
            bool_bytes(y.is_signer),
        );
        lemma_key_injective(x.pubkey, y.pubkey);
        lemma_bool_bytes_injective(x.is_signer, y.is_signer);
        lemma_bool_bytes_injective(x.is_writable, y.is_writable);
        assert(a =~= a.drop_last().push(a.last()));
        assert(b =~= b.drop_last().push(b.last()));
    }
}

/// The parts of an instruction's bytes at `pos`: the program, the count of
/// accounts, the accounts, the length of the data, the data.
proof fn lemma_instruction_at_parts(d: Seq<u8>, pos: int, y: Instruction)
    requires
        bytes_at(d, pos, y.wire()),
    ensures
        bytes_at(d, pos, y.program_id.0@),
        bytes_at(d, pos + 32, u32_bytes(y.accounts@.len() as u32)),
        bytes_at(d, pos + 36, metas_bytes(y.accounts@)),
        bytes_at(d, pos + 36 + 34 * y.accounts@.len(), u32_bytes(y.data@.len() as u32)),
        bytes_at(d, pos + 40 + 34 * y.accounts@.len(), y.data@),
        y.wire().len() == 40 + 34 * y.accounts@.len() + y.data@.len(),
{
    let a = y.program_id.0@;
    let b = u32_bytes(y.accounts@.len() as u32);
    let c = metas_bytes(y.accounts@);
    let e = u32_bytes(y.data@.len() as u32);
    let f = y.data@;
    lemma_metas_bytes_len(y.accounts@);
    lemma_bytes_at_concat(d, pos, a + b + c + e, f);
    lemma_bytes_at_concat(d, pos, a + b + c, e);
    lemma_bytes_at_concat(d, pos, a + b, c);
    lemma_bytes_at_concat(d, pos, a, b);
}

/// An instruction carried inside another one, compared by its contents.
pub open spec fn same_instruction(a: Instruction, b: Instruction) -> bool {
    a.program_id == b.program_id && a.accounts@ == b.accounts@ && a.data@ == b.data@
}

/// At most one instruction begins at a given place.
pub proof fn lemma_instruction_unique(d: Seq<u8>, pos: int, a: Instruction, b: Instruction)
    requires
        bytes_at(d, pos, a.wire()),
        bytes_at(d, pos, b.wire()),
        a.fits(),
        b.fits(),
    ensures
        same_instruction(a, b),
{
    lemma_instruction_at_parts(d, pos, a);
    lemma_instruction_at_parts(d, pos, b);
    lemma_at_same_len(d, pos, a.program_id.0@, b.program_id.0@);
    lemma_key_injective(a.program_id, b.program_id);
    lemma_at_same_len(
        d,
        pos + 32,
        u32_bytes(a.accounts@.len() as u32),
        u32_bytes(b.accounts@.len() as u32),
    );
    lemma_u32_bytes_injective(a.accounts@.len() as u32, b.accounts@.len() as u32);
    lemma_metas_bytes_len(a.accounts@);
    lemma_metas_bytes_len(b.accounts@);
    lemma_at_same_len(d, pos + 36, metas_bytes(a.accounts@), metas_bytes(b.accounts@));
    lemma_metas_bytes_injective(a.accounts@, b.accounts@);
    let q = pos + 36 + 34 * a.accounts@.len();
    lemma_at_same_len(d, q, u32_bytes(a.data@.len() as u32), u32_bytes(b.data@.len() as u32));
    lemma_u32_bytes_injective(a.data@.len() as u32, b.data@.len() as u32);
    lemma_at_same_len(d, q + 4, a.data@, b.data@);
}

/// Reads an instruction carried inside another one: the program, the
/// number of accounts on four bytes, each account (address, signer flag,
/// writable flag), the length of the data on four bytes, the data.
pub fn read_instruction(data: &[u8], pos: usize) -> (r: Option<(Instruction, usize)>)
    ensures
        r matches Some((x, p)) ==> bytes_at(data@, pos as int, x.wire()) && x.fits() && p == pos
            + x.wire().len(),
        r is None ==> forall|y: Instruction| y.fits() ==> !#[trigger] bytes_at(data@, pos as int, y.wire()),
{
    let (program_id, p1) = match take_key(data, pos) {
        Some(v) => v,
        None => {
            proof {
                assert forall|y: Instruction|
                    y.fits() implies !#[trigger] bytes_at(data@, pos as int, y.wire()) by {
                    if bytes_at(data@, pos as int, y.wire()) {
                        lemma_instruction_at_parts(data@, pos as int, y);
                    }
                }
            }
            return None;
        },
    };
    let (n, p2) = match take_u32(data, p1) {
        Some(v) => v,
        None => {
            proof {
                assert forall|y: Instruction|
                    y.fits() implies !#[trigger] bytes_at(data@, pos as int, y.wire()) by {
                    if bytes_at(data@, pos as int, y.wire()) {
                        lemma_instruction_at_parts(data@, pos as int, y);
                    }
                }
            }
            return None;
        },
    };
    proof {
        lemma_bytes_at_of_subrange(data@, pos as int, p1 as int, program_id.0@);
        lemma_bytes_at_of_subrange(data@, p1 as int, p2 as int, u32_bytes(n));
    }
    let mut accounts: Vec<AccountMeta> = Vec::new();
    proof {
        lemma_metas_bytes_empty();
        assert(accounts@ =~= Seq::<AccountMeta>::empty());
        assert(data@.subrange(p2 as int, p2 as int) =~= Seq::<u8>::empty());
        assert forall|y: Instruction| y.fits() && #[trigger] bytes_at(data@, pos as int, y.wire()) implies y.accounts@.len()
            == n && y.accounts@.take(0) == accounts@ by {
            lemma_instruction_at_parts(data@, pos as int, y);
            lemma_at_same_len(data@, pos + 32, u32_bytes(y.accounts@.len() as u32), u32_bytes(n));
            lemma_u32_bytes_injective(y.accounts@.len() as u32, n);
            assert(y.accounts@.take(0) =~= accounts@);
        }
    }
    let mut q: usize = p2;
    let mut i: u32 = 0;
    while i < n
        invariant
            i <= n,
            p2 == pos + 36,
            p2 <= data@.len(),
            q == p2 + 34 * i,
            accounts@.len() == i,
            bytes_at(data@, p2 as int, metas_bytes(accounts@)),
            bytes_at(data@, pos as int, program_id.0@),
            bytes_at(data@, pos + 32, u32_bytes(n)),
            forall|y: Instruction|
                y.fits() && #[trigger] bytes_at(data@, pos as int, y.wire()) ==> y.accounts@.len() == n
                    && y.accounts@.take(i as int) == accounts@,
        decreases n - i,
    {
        let (key, q1) = match take_key(data, q) {
            Some(v) => v,
            None => {
                proof {
                    assert forall|y: Instruction|
                        y.fits() implies !#[trigger] bytes_at(data@, pos as int, y.wire()) by {
                        if bytes_at(data@, pos as int, y.wire()) {
                            lemma_instruction_at_parts(data@, pos as int, y);
                            lemma_metas_bytes_at(y.accounts@, i as int);
                            lemma_metas_bytes_len(y.accounts@.take(i as int));
                        }
                    }
                }
                return None;
            },
        };
        let (is_signer, q2) = match take_bool(data, q1) {
            Some(v) => v,
            None => {
                proof {
                    assert forall|y: Instruction|
                        y.fits() implies !#[trigger] bytes_at(data@, pos as int, y.wire()) by {
                        if bytes_at(data@, pos as int, y.wire()) {
                            meta_at(data@, pos as int, y, i as int);
                        }
                    }
                }
                return None;
            },
        };
        let (is_writable, q3) = match take_bool(data, q2) {
            Some(v) => v,
            None => {
                proof {
                    assert forall|y: Instruction|
                        y.fits() implies !#[trigger] bytes_at(data@, pos as int, y.wire()) by {
                        if bytes_at(data@, pos as int, y.wire()) {
                            meta_at(data@, pos as int, y, i as int);
                        }
                    }
                }
                return None;
            },
        };
        let m = AccountMeta { pubkey: key, is_signer, is_writable };
        let ghost before = accounts@;
        accounts.push(m);
        proof {
            lemma_bytes_at_of_subrange(data@, q as int, q1 as int, key.0@);
            lemma_bytes_at_concat(data@, q as int, key.0@, bool_bytes(is_signer));
            lemma_bytes_at_concat(
                data@,
                q as int,
                key.0@ + bool_bytes(is_signer),
                bool_bytes(is_writable),
            );
            lemma_meta_bytes_parts(m);
            lemma_metas_bytes_len(before);
            assert(accounts@.drop_last() =~= before);
            lemma_bytes_at_concat(data@, p2 as int, metas_bytes(before), meta_bytes(m));
            assert forall|y: Instruction| y.fits() && #[trigger] bytes_at(data@, pos as int, y.wire()) implies y.accounts@.len() == n
                && y.accounts@.take(i + 1) == accounts@ by {
                meta_at(data@, pos as int, y, i as int);
                lemma_meta_bytes_parts(y.accounts@[i as int]);
                lemma_at_same_len(
                    data@,
                    q as int,
                    meta_bytes(y.accounts@[i as int]),
                    meta_bytes(m),
                );
                lemma_meta_bytes_injective(y.accounts@[i as int], m);
                assert(y.accounts@.take(i + 1) =~= y.accounts@.take(i as int).push(y.accounts@[i as int]));
            }
        }
        i += 1;
        q = q3;
    }
    let (len, p4) = match take_u32(data, q) {
        Some(v) => v,
        None => {
            proof {
                assert forall|y: Instruction|
                    y.fits() implies !#[trigger] bytes_at(data@, pos as int, y.wire()) by {
                    if bytes_at(data@, pos as int, y.wire()) {
                        lemma_instruction_at_parts(data@, pos as int, y);
                    }
                }
            }
            return None;
        },
    };
    proof {
        lemma_bytes_at_of_subrange(data@, q as int, p4 as int, u32_bytes(len));
        assert forall|y: Instruction| y.fits() && #[trigger] bytes_at(data@, pos as int, y.wire()) implies y.data@.len()
            == len by {
            lemma_instruction_at_parts(data@, pos as int, y);
            lemma_at_same_len(data@, q as int, u32_bytes(y.data@.len() as u32), u32_bytes(len));
            lemma_u32_bytes_injective(y.data@.len() as u32, len);
        }
    }
    if p4 > data.len() || data.len() - p4 < len as usize {
        proof {
            assert forall|y: Instruction|
                y.fits() implies !#[trigger] bytes_at(data@, pos as int, y.wire()) by {
                if bytes_at(data@, pos as int, y.wire()) {
                    lemma_instruction_at_parts(data@, pos as int, y);
                }
            }
        }
        return None;
    }
    let mut bytes: Vec<u8> = Vec::new();
    let mut j: usize = 0;
    while j < len as usize
        invariant
            j <= len,
            p4 + len <= data@.len(),
            data@.len() == data.len(),
            bytes@ == data@.subrange(p4 as int, p4 + j),
        decreases len - j,
    {
        bytes.push(data[p4 + j]);
        j += 1;
        proof {
            assert(bytes@ =~= data@.subrange(p4 as int, p4 + j));
        }
    }
    let x = Instruction { program_id, accounts, data: bytes };
    proof {
        let a = program_id.0@;
        let b = u32_bytes(n);
        let c = metas_bytes(accounts@);
        let e = u32_bytes(len);
        let f = bytes@;
        lemma_metas_bytes_len(accounts@);
        lemma_bytes_at_concat(data@, pos as int, a, b);
        lemma_bytes_at_concat(data@, pos as int, a + b, c);
        lemma_bytes_at_concat(data@, pos as int, a + b + c, e);
        lemma_bytes_at_concat(data@, pos as int, a + b + c + e, f);
        assert(x.wire() == a + b + c + e + f);
    }
    Some((x, p4 + len as usize))
}

/// The bytes of an instruction's `i`-th account, and their parts.
proof fn meta_at(d: Seq<u8>, pos: int, y: Instruction, i: int)
    requires
        bytes_at(d, pos, y.wire()),
        0 <= i < y.accounts@.len(),
    ensures
        bytes_at(d, pos + 36 + 34 * i, meta_bytes(y.accounts@[i])),
        bytes_at(d, pos + 36 + 34 * i, y.accounts@[i].pubkey.0@),
        bytes_at(d, pos + 36 + 34 * i + 32, bool_bytes(y.accounts@[i].is_signer)),
        bytes_at(d, pos + 36 + 34 * i + 33, bool_bytes(y.accounts@[i].is_writable)),
{
    let s = y.accounts@;
    let m = s[i];
    lemma_instruction_at_parts(d, pos, y);
    lemma_metas_bytes_at(s, i);
    lemma_metas_bytes_len(s.take(i));
    lemma_bytes_at_concat(
        d,
        pos + 36,
        metas_bytes(s.take(i)) + meta_bytes(m),
        metas_bytes(s.skip(i + 1)),
    );
    lemma_bytes_at_concat(d, pos + 36, metas_bytes(s.take(i)), meta_bytes(m));
    lemma_bytes_at_concat(
        d,
        pos + 36 + 34 * i,
        m.pubkey.0@ + bool_bytes(m.is_signer),
        bool_bytes(m.is_writable),
    );
    lemma_bytes_at_concat(d, pos + 36 + 34 * i, m.pubkey.0@, bool_bytes(m.is_signer));
}

/// The bytes at `pos` hold the optional callback `x`, which fits.
pub open spec fn callback_at(d: Seq<u8>, pos: int, x: Option<Instruction>) -> bool {
    bytes_at(d, pos, callback_bytes(x)) && callback_fits(x)
}

/// Optional callbacks compared by their contents.
pub open spec fn same_callback(a: Option<Instruction>, b: Option<Instruction>) -> bool {
    match (a, b) {
        (Some(x), Some(y)) => same_instruction(x, y),
        (None, None) => true,
        _ => false,
    }
}

proof fn lemma_callback_parts(x: Option<Instruction>)
    ensures
        callback_bytes(x) == bool_bytes(x is Some) + match x {
            Some(ix) => ix.wire(),
            None => Seq::<u8>::empty(),
        },
{
    match x {
        Some(ix) => assert(callback_bytes(x) =~= bool_bytes(true) + ix.wire()),
        None => assert(callback_bytes(x) =~= bool_bytes(false) + Seq::<u8>::empty()),
    }
}

/// At most one callback begins at a given place.
pub proof fn lemma_callback_unique(
    d: Seq<u8>,
    pos: int,
    a: Option<Instruction>,
    b: Option<Instruction>,
)
    requires
        callback_at(d, pos, a),
        callback_at(d, pos, b),
    ensures
        same_callback(a, b),
        callback_bytes(a).len() == callback_bytes(b).len(),
{
    lemma_callback_parts(a);
    lemma_callback_parts(b);
    let ra = match a {
        Some(ix) => ix.wire(),
        None => Seq::<u8>::empty(),
    };
    let rb = match b {
        Some(ix) => ix.wire(),
        None => Seq::<u8>::empty(),
    };
    lemma_bytes_at_concat(d, pos, bool_bytes(a is Some), ra);
    lemma_bytes_at_concat(d, pos, bool_bytes(b is Some), rb);
    lemma_bool_at_unique(d, pos, a is Some, b is Some);
    match (a, b) {
        (Some(x), Some(y)) => {
            lemma_instruction_unique(d, pos + 1, x, y);
            lemma_instruction_at_parts(d, pos + 1, x);
            lemma_instruction_at_parts(d, pos + 1, y);
        },
        _ => {},
    }
}

/// Reads an optional callback: a flag byte `0`, or `1` and an instruction.
pub fn read_callback(data: &[u8], pos: usize) -> (r: Option<(Option<Instruction>, usize)>)
    ensures
        r matches Some((x, p)) ==> callback_at(data@, pos as int, x) && p == pos
            + callback_bytes(x).len(),
        r is None ==> forall|y: Option<Instruction>| !#[trigger] callback_at(data@, pos as int, y),
{
    let (flag, p1) = match take_bool(data, pos) {
        Some(v) => v,
        None => {
            proof {
                assert forall|y: Option<Instruction>|
                    !#[trigger] callback_at(data@, pos as int, y) by {
                    lemma_callback_parts(y);
                    let rest = match y {
                        Some(ix) => ix.wire(),
                        None => Seq::<u8>::empty(),
                    };
                    lemma_bytes_at_concat(data@, pos as int, bool_bytes(y is Some), rest);
                }
            }
            return None;
        },
    };
    if !flag {
        proof {
            lemma_callback_parts(None);
            assert(callback_bytes(None) =~= bool_bytes(false));
        }
        return Some((None, p1));
    }
    match read_instruction(data, p1) {
        Some((ix, p2)) => {
            proof {
                lemma_callback_parts(Some(ix));
                lemma_bytes_at_concat(data@, pos as int, bool_bytes(true), ix.wire());
            }
            Some((Some(ix), p2))
        },
        None => {
            proof {
                assert forall|y: Option<Instruction>|
                    !#[trigger] callback_at(data@, pos as int, y) by {
                    lemma_callback_parts(y);
                    let rest = match y {
                        Some(ix) => ix.wire(),
                        None => Seq::<u8>::empty(),
                    };
                    lemma_bytes_at_concat(data@, pos as int, bool_bytes(y is Some), rest);
                    if callback_at(data@, pos as int, y) {
                        lemma_bool_at_unique(data@, pos as int, true, y is Some);
                    }
                }
            }
            None
        },
    }
}

/// The bytes at `pos` hold the optional oracle config `x`: a flag byte,
/// then the config.
pub open spec fn opt_oracle_config_at(d: Seq<u8>, pos: int, x: Option<OracleConfig>) -> bool {
    match x {
        Some(c) => bytes_at(d, pos, bool_bytes(true)) && oracle_config_at(d, pos + 1, c),
        None => bytes_at(d, pos, bool_bytes(false)),
    }
}

pub open spec fn opt_oracle_config_len(x: Option<OracleConfig>) -> int {
    if x is Some {
        258
    } else {
        1
    }
}

pub proof fn lemma_opt_oracle_config_unique(
    d: Seq<u8>,
    pos: int,
    a: Option<OracleConfig>,
    b: Option<OracleConfig>,
)
    requires
        opt_oracle_config_at(d, pos, a),
        opt_oracle_config_at(d, pos, b),
    ensures
        a == b,
{
    lemma_bool_at_unique(d, pos, a is Some, b is Some);
    match (a, b) {
        (Some(x), Some(y)) => lemma_oracle_config_unique(d, pos + 1, x, y),
        _ => {},
    }
}

/// Reads an optional oracle config: a flag byte `0`, or `1` and a config.
pub fn read_opt_oracle_config(data: &[u8], pos: usize) -> (r: Option<(Option<OracleConfig>, usize)>)
    ensures
        r matches Some((x, p)) ==> opt_oracle_config_at(data@, pos as int, x) && p == pos
            + opt_oracle_config_len(x),
        r is None ==> forall|y: Option<OracleConfig>| !#[trigger] opt_oracle_config_at(data@, pos as int, y),
{
    let (flag, p1) = match take_bool(data, pos) {
        Some(v) => v,
        None => return None,
    };
    if !flag {
        return Some((None, p1));
    }
    match read_oracle_config(data, p1) {
        Some((c, p2)) => Some((Some(c), p2)),
        None => {
            proof {
                assert forall|y: Option<OracleConfig>|
                    !#[trigger] opt_oracle_config_at(data@, pos as int, y) by {
                    if opt_oracle_config_at(data@, pos as int, y) {
                        lemma_bool_at_unique(data@, pos as int, true, y is Some);
                    }
                }
            }
            None
        },
    }
}

/// The bytes at `pos` hold the optional ratios `x`: a flag byte, then the
/// ratios.
pub open spec fn opt_ltv_config_at(d: Seq<u8>, pos: int, x: Option<LtvConfig>) -> bool {
    match x {
        Some(c) => bytes_at(d, pos, bool_bytes(true)) && ltv_config_at(d, pos + 1, c),
        None => bytes_at(d, pos, bool_bytes(false)),
    }
}

pub open spec fn opt_ltv_config_len(x: Option<LtvConfig>) -> int {
    if x is Some {
        49
    } else {
        1
    }
}

pub proof fn lemma_opt_ltv_config_unique(
    d: Seq<u8>,
    pos: int,
    a: Option<LtvConfig>,
    b: Option<LtvConfig>,
)
    requires
        opt_ltv_config_at(d, pos, a),
        opt_ltv_config_at(d, pos, b),
    ensures
        a == b,
{
    lemma_bool_at_unique(d, pos, a is Some, b is Some);
    match (a, b) {
        (Some(x), Some(y)) => lemma_ltv_config_unique(d, pos + 1, x, y),
        _ => {},
    }
}

/// Reads optional ratios: a flag byte `0`, or `1` and the three ratios.
pub fn read_opt_ltv_config(data: &[u8], pos: usize) -> (r: Option<(Option<LtvConfig>, usize)>)
    ensures
        r matches Some((x, p)) ==> opt_ltv_config_at(data@, pos as int, x) && p == pos
            + opt_ltv_config_len(x),
        r is None ==> forall|y: Option<LtvConfig>| !#[trigger] opt_ltv_config_at(data@, pos as int, y),
{
    let (flag, p1) = match take_bool(data, pos) {
        Some(v) => v,
        None => return None,
    };
    if !flag {
        return Some((None, p1));
    }
    match read_ltv_config(data, p1) {
        Some((c, p2)) => Some((Some(c), p2)),
        None => {
            proof {
                assert forall|y: Option<LtvConfig>|
                    !#[trigger] opt_ltv_config_at(data@, pos as int, y) by {
                    if opt_ltv_config_at(data@, pos as int, y) {
                        lemma_bool_at_unique(data@, pos as int, true, y is Some);
                    }
                }
            }
            None
        },
    }
}

/// The bytes at `pos` hold the three ratios of `x`, in field order.
pub open spec fn ltv_config_at(d: Seq<u8>, pos: int, x: LtvConfig) -> bool {
    0 <= pos
        && bytes_at(d, pos, fixed_bytes(x.max_ltv))
        && bytes_at(d, pos + 16int, fixed_bytes(x.unhealthy_ltv))
        && bytes_at(d, pos + 16int + 16int, fixed_bytes(x.liquidation_bonus))
}

pub open spec fn ltv_config_len(x: LtvConfig) -> int {
    16int + 16int + 16int
}

pub proof fn lemma_ltv_config_unique(d: Seq<u8>, pos: int, a: LtvConfig, b: LtvConfig)
    requires
        ltv_config_at(d, pos, a),
        ltv_config_at(d, pos, b),
    ensures
        a == b,
{
    lemma_at_same_len(d, pos, fixed_bytes(a.max_ltv), fixed_bytes(b.max_ltv));
    lemma_fixed_bytes_injective(a.max_ltv, b.max_ltv);
    lemma_at_same_len(d, pos + 16int, fixed_bytes(a.unhealthy_ltv), fixed_bytes(b.unhealthy_ltv));
    lemma_fixed_bytes_injective(a.unhealthy_ltv, b.unhealthy_ltv);
    lemma_at_same_len(
        d,
        pos + 16int + 16int,
        fixed_bytes(a.liquidation_bonus),
        fixed_bytes(b.liquidation_bonus),
    );
    lemma_fixed_bytes_injective(a.liquidation_bonus, b.liquidation_bonus);
}

/// Reads the fields at `pos`, in order.
pub fn read_ltv_config(data: &[u8], pos: usize) -> (r: Option<(LtvConfig, usize)>)
    ensures
        r matches Some((x, p)) ==> ltv_config_at(data@, pos as int, x) && p == pos
            + ltv_config_len(x),
        r is None ==> forall|y: LtvConfig| !#[trigger] ltv_config_at(data@, pos as int, y),
{
    let (max_ltv, p1) = match take_fixed(data, pos) {
        Some(v) => v,
        None => {
            proof {
                assert forall|y: LtvConfig| !#[trigger] ltv_config_at(data@, pos as int, y) by {
                }
            }
            return None;
        },
    };
    proof {
        lemma_bytes_at_of_subrange(data@, pos as int, p1 as int, fixed_bytes(max_ltv));
    }
    let (unhealthy_ltv, p2) = match take_fixed(data, p1) {
        Some(v) => v,
        None => {
            proof {
                assert forall|y: LtvConfig| !#[trigger] ltv_config_at(data@, pos as int, y) by {
                    if ltv_config_at(data@, pos as int, y) {
                        lemma_at_same_len(
                            data@,
                            pos as int,
                            fixed_bytes(y.max_ltv),
                            fixed_bytes(max_ltv),
                        );
                        lemma_fixed_bytes_injective(y.max_ltv, max_ltv);
                    }
                }
            }
            return None;
        },
    };
    proof {
        lemma_bytes_at_of_subrange(data@, p1 as int, p2 as int, fixed_bytes(unhealthy_ltv));
    }
    let (liquidation_bonus, p3) = match take_fixed(data, p2) {
        Some(v) => v,
        None => {
            proof {
                assert forall|y: LtvConfig| !#[trigger] ltv_config_at(data@, pos as int, y) by {
                    if ltv_config_at(data@, pos as int, y) {
                        lemma_at_same_len(
                            data@,
                            pos as int,
                            fixed_bytes(y.max_ltv),
                            fixed_bytes(max_ltv),
                        );
                        lemma_fixed_bytes_injective(y.max_ltv, max_ltv);
                        lemma_at_same_len(
                            data@,
                            pos as int + 16int,
                            fixed_bytes(y.unhealthy_ltv),
                            fixed_bytes(unhealthy_ltv),
                        );
                        lemma_fixed_bytes_injective(y.unhealthy_ltv, unhealthy_ltv);
                    }
                }
            }
            return None;
        },
    };
    proof {
        lemma_bytes_at_of_subrange(data@, p2 as int, p3 as int, fixed_bytes(liquidation_bonus));
    }
    let x = LtvConfig { max_ltv, unhealthy_ltv, liquidation_bonus };
    Some((x, p3))
}

pub proof fn lemma_ltv_config_wire_at(d: Seq<u8>, pos: int, x: LtvConfig)
    requires
        bytes_at(d, pos, x.wire()),
    ensures
        ltv_config_at(d, pos, x),
        ltv_config_len(x) == x.wire().len(),
{
    assert(x.wire() =~= fixed_bytes(x.max_ltv)
        + fixed_bytes(x.unhealthy_ltv)
        + fixed_bytes(x.liquidation_bonus));
    lemma_bytes_at_concat(
        d,
        pos,
        fixed_bytes(x.max_ltv) + fixed_bytes(x.unhealthy_ltv),
        fixed_bytes(x.liquidation_bonus),
    );
    lemma_bytes_at_concat(d, pos, fixed_bytes(x.max_ltv), fixed_bytes(x.unhealthy_ltv));
}

/// The bytes of an oracle config without zero settings hold that config.
pub proof fn lemma_oracle_config_wire_at(d: Seq<u8>, pos: int, c: OracleConfig)
    requires
        bytes_at(d, pos, c.wire()),
        canonical_oracle_config(c),
    ensures
        oracle_config_at(d, pos, c),
{
    reveal(OracleConfig::wire);
    let pb = provider_bytes(c.oracle_provider);
    let vb = validation_bytes(c.validation_config);
    let v = c.validation_config;
    let a = pod_u64_bytes(v.max_age);
    let b = pod_fixed_bytes(v.min_relative_confidence);
    let e = pod_u64_bytes(v.min_signature_threshold);
    lemma_bytes_at_concat(d, pos, pb + vb, zeros(ORACLE_CONFIG_RESERVED as nat));
    lemma_bytes_at_concat(d, pos, pb, vb);
    assert(vb == a + b + e);
    lemma_bytes_at_concat(d, pos + 73, a + b, e);
    lemma_bytes_at_concat(d, pos + 73, a, b);
    assert(d.subrange(pos, pos + 73) == pb);
    match c.oracle_provider {
        OracleProvider::Pyth(p) => {
            assert(pb =~= seq![0u8] + p.feed_id@ + p.program_id.0@ + zeros(8));
            lemma_bytes_at_concat(d, pos, seq![0u8] + p.feed_id@ + p.program_id.0@, zeros(8));
            lemma_bytes_at_concat(d, pos, seq![0u8] + p.feed_id@, p.program_id.0@);
            lemma_bytes_at_concat(d, pos, seq![0u8], p.feed_id@);
            assert(d[pos] == d.subrange(pos, pos + 73)[0]);
        },
        OracleProvider::Chaos(ch) => {
            assert(pb =~= seq![1u8]
                + ch.feed_id@
                + ch.program_id.0@
                + seq![ch.required_signatures]
                + zeros(7));
            lemma_bytes_at_concat(
                d,
                pos,
                seq![1u8] + ch.feed_id@ + ch.program_id.0@ + seq![ch.required_signatures],
                zeros(7),
            );
            lemma_bytes_at_concat(
                d,
                pos,
                seq![1u8] + ch.feed_id@ + ch.program_id.0@,
                seq![ch.required_signatures],
            );
            lemma_bytes_at_concat(d, pos, seq![1u8] + ch.feed_id@, ch.program_id.0@);
            lemma_bytes_at_concat(d, pos, seq![1u8], ch.feed_id@);
            assert(d[pos] == d.subrange(pos, pos + 73)[0]);
            assert(d[pos + 65] == d.subrange(pos + 65, pos + 66)[0]);
        },
    }
}

pub proof fn lemma_opt_oracle_config_wire_at(d: Seq<u8>, pos: int, x: Option<OracleConfig>)
    requires
        bytes_at(d, pos, opt_oracle_config_bytes(x)),
        x matches Some(c) ==> canonical_oracle_config(c),
    ensures
        opt_oracle_config_at(d, pos, x),
        opt_oracle_config_len(x) == opt_oracle_config_bytes(x).len(),
{
    match x {
        Some(c) => {
            c.lemma_wire_len();
            assert(opt_oracle_config_bytes(x) =~= bool_bytes(true) + c.wire());
            lemma_bytes_at_concat(d, pos, bool_bytes(true), c.wire());
            lemma_oracle_config_wire_at(d, pos + 1, c);
        },
        None => {
            assert(opt_oracle_config_bytes(x) =~= bool_bytes(false));
        },
    }
}

pub proof fn lemma_opt_ltv_config_wire_at(d: Seq<u8>, pos: int, x: Option<LtvConfig>)
    requires
        bytes_at(d, pos, opt_ltv_config_bytes(x)),
    ensures
        opt_ltv_config_at(d, pos, x),
        opt_ltv_config_len(x) == opt_ltv_config_bytes(x).len(),
{
    match x {
        Some(c) => {
            assert(opt_ltv_config_bytes(x) =~= bool_bytes(true) + c.wire());
            lemma_bytes_at_concat(d, pos, bool_bytes(true), c.wire());
            lemma_ltv_config_wire_at(d, pos + 1, c);
        },
        None => {
            assert(opt_ltv_config_bytes(x) =~= bool_bytes(false));
        },
    }
}

} // verus!
