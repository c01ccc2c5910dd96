//! The interest-rate curve as a market account lays it out: the kind on
//! eight bytes, then a 64-byte slot that holds the curve's fields, padded
//! with zeros.
use crate::interest_rate::adaptive_curve::AdaptiveInterestRateCurve;
use crate::interest_rate::interest_rate_kind::{points_bytes, InterestRateCurveKind};
use crate::interest_rate::interest_rate_per_second::InterestRatePerSecond;
use crate::interest_rate::polyline::{PolylineInterestRateCurve, PolylineInterestRatePoint};
use crate::ixs::decode::{lemma_points_bytes_injective, lemma_points_bytes_len};
use crate::ixs::wire::{
    fixed_bytes, lemma_fixed_bytes_injective, lemma_subrange_join, put_fixed,
    put_u32, put_u64, take_fixed, take_u32, take_u64, u64_bytes, zeros,
};
use vstd::prelude::*;

verus! {

/// Bytes of the slot that holds the curve's fields: the largest of them.
pub const POD_UNION_SIZE: usize = 64;

/// The kind of a curve as the account stores it.
#[derive(Clone, Copy, Debug, PartialEq, Eq, Structural)]
pub enum PodInterestRateCurveKind {
    Fixed,
    Polyline,
    Adaptive,
}

impl PodInterestRateCurveKind {
    /// The number the account stores for the kind.
    pub open spec fn spec_tag(&self) -> u64 {
        match *self {
            PodInterestRateCurveKind::Fixed => 0,
            PodInterestRateCurveKind::Polyline => 1,
            PodInterestRateCurveKind::Adaptive => 2,
        }
    }

    pub open spec fn spec_size(&self) -> usize {
        match *self {
            PodInterestRateCurveKind::Polyline => 64,
            _ => 16,
        }
    }

    /// The bytes that the fields of a curve of this kind take.
    pub fn size(&self) -> (r: usize)
        ensures
            r == self.spec_size(),
    {
        match self {
            PodInterestRateCurveKind::Polyline => 64,
            _ => 16,
        }
    }
}

/// The kind of `k`.
pub open spec fn pod_kind_of(k: InterestRateCurveKind) -> PodInterestRateCurveKind {
    match k {
        InterestRateCurveKind::Fixed(_) => PodInterestRateCurveKind::Fixed,
        InterestRateCurveKind::Polyline(_) => PodInterestRateCurveKind::Polyline,
        InterestRateCurveKind::Adaptive(_) => PodInterestRateCurveKind::Adaptive,
    }
}

/// The fields of `k` as the slot holds them: a rate as its 16 bytes, a
/// polyline as its eight points of two `u32` each.
pub open spec fn pod_payload(k: InterestRateCurveKind) -> Seq<u8> {
    match k {
        InterestRateCurveKind::Fixed(r) => fixed_bytes(r.0),
        InterestRateCurveKind::Polyline(c) => points_bytes(c.points@),
        InterestRateCurveKind::Adaptive(a) => fixed_bytes(a.rate_at_target.0),
    }
}

/// The slot of `k`: its fields, then zeros.
pub open spec fn pod_union(k: InterestRateCurveKind) -> Seq<u8> {
    pod_payload(k) + zeros((64 - pod_payload(k).len()) as nat)
}

/// The slot `union` of kind `kind` holds the curve `k`.
pub open spec fn pod_holds(kind: PodInterestRateCurveKind, union: Seq<u8>, k: InterestRateCurveKind) -> bool {
    &&& kind == pod_kind_of(k)
    &&& union.len() == 64
    &&& union.subrange(0, pod_payload(k).len() as int) == pod_payload(k)
}

pub proof fn lemma_pod_payload_len(k: InterestRateCurveKind)
    ensures
        pod_payload(k).len() == pod_kind_of(k).spec_size(),
{
    if let InterestRateCurveKind::Polyline(c) = k {
        lemma_points_bytes_len(c.points@);
    }
}

/// A slot holds at most one curve.
pub proof fn lemma_pod_holds_unique(
    kind: PodInterestRateCurveKind,
    union: Seq<u8>,
    a: InterestRateCurveKind,
    b: InterestRateCurveKind,
)
    requires
        pod_holds(kind, union, a),
        pod_holds(kind, union, b),
    ensures
        a == b,
{
    lemma_pod_payload_len(a);
    lemma_pod_payload_len(b);
    match (a, b) {
        (InterestRateCurveKind::Fixed(x), InterestRateCurveKind::Fixed(y)) => {
            lemma_fixed_bytes_injective(x.0, y.0);
        },
        (InterestRateCurveKind::Adaptive(x), InterestRateCurveKind::Adaptive(y)) => {
            lemma_fixed_bytes_injective(x.rate_at_target.0, y.rate_at_target.0);
        },
        (InterestRateCurveKind::Polyline(x), InterestRateCurveKind::Polyline(y)) => {
            lemma_points_bytes_injective(x.points@, y.points@);
            assert(x.points =~= y.points);
        },
        _ => {},
    }
}

/// An interest-rate curve as a market account stores it.
#[derive(Clone, Copy, PartialEq, Eq)]
pub struct PodInterestRateCurve {
    pub kind: PodInterestRateCurveKind,
    pub union: [u8; 64],
}

impl PodInterestRateCurve {
    /// The 72 bytes of the account layout: the kind as a little-endian
    /// `u64`, then the slot.
    pub open spec fn layout(&self) -> Seq<u8> {
        u64_bytes(self.kind.spec_tag()) + self.union@
    }

    /// The stored form of `interest_rate`: its kind, and its fields padded
    /// with zeros.
    pub fn from_interest_rate_kind(interest_rate: InterestRateCurveKind) -> (r: Self)
        ensures
            r.kind == pod_kind_of(interest_rate),
            r.union@ == pod_union(interest_rate),
            pod_holds(r.kind, r.union@, interest_rate),
    {
        let mut payload: Vec<u8> = Vec::new();
        let kind = match interest_rate {
            InterestRateCurveKind::Fixed(rate) => {
                put_fixed(&mut payload, rate.0);
                PodInterestRateCurveKind::Fixed
            },
            InterestRateCurveKind::Polyline(c) => {
                let mut i: usize = 0;
                while i < 8
                    invariant
                        i <= 8,
                        c.points@.len() == 8,
                        payload@ == points_bytes(c.points@.take(i as int)),
                    decreases 8 - i,
                {
                    let p = c.points[i];
                    put_u32(&mut payload, p.utilization_rate_bps);
                    put_u32(&mut payload, p.borrow_rate_bps);
                    proof {
                        let t = c.points@.take(i as int + 1);
                        assert(t.drop_last() =~= c.points@.take(i as int));
                        assert(payload@ =~= points_bytes(t));
                    }
                    i += 1;
                }
                proof {
                    assert(c.points@.take(8) =~= c.points@);
                }
                PodInterestRateCurveKind::Polyline
            },
            InterestRateCurveKind::Adaptive(a) => {
                put_fixed(&mut payload, a.rate_at_target.0);
                PodInterestRateCurveKind::Adaptive
            },
        };
        proof {
            lemma_pod_payload_len(interest_rate);
            assert(payload@ == pod_payload(interest_rate));
        }
        let n = payload.len();
        let mut union = [0u8; 64];
        let mut i: usize = 0;
        while i < n
            invariant
                n == payload@.len(),
                n <= 64,
                i <= n,
                forall|j: int| 0 <= j < i ==> union@[j] == payload@[j],
                forall|j: int| i <= j < 64 ==> union@[j] == 0u8,
            decreases n - i,
        {
            union[i] = payload[i];
            i += 1;
        }
        proof {
            assert(union@ =~= pod_union(interest_rate));
            assert(union@.subrange(0, n as int) =~= payload@);
        }
        PodInterestRateCurve { kind, union }
    }

    /// The curve the account holds.
    pub fn interest_rate_kind(&self) -> (r: InterestRateCurveKind)
        ensures
            pod_holds(self.kind, self.union@, r),
    {
        let data = self.union.as_slice();
        match self.kind {
            PodInterestRateCurveKind::Fixed => {
                let (f, _) = take_fixed(data, 0).unwrap();
                InterestRateCurveKind::Fixed(InterestRatePerSecond(f))
            },
            PodInterestRateCurveKind::Adaptive => {
                let (f, _) = take_fixed(data, 0).unwrap();
                InterestRateCurveKind::Adaptive(
                    AdaptiveInterestRateCurve { rate_at_target: InterestRatePerSecond(f) },
                )
            },
            PodInterestRateCurveKind::Polyline => {
                let zero = PolylineInterestRatePoint { utilization_rate_bps: 0, borrow_rate_bps: 0 };
                let mut points: [PolylineInterestRatePoint; 8] = [zero; 8];
                let mut i: usize = 0;
                let mut q: usize = 0;
                while i < 8
                    invariant
                        i <= 8,
                        q == 8 * i,
                        data@ == self.union@,
                        data@.len() == 64,
                        data@.subrange(0, q as int) == points_bytes(points@.take(i as int)),
                    decreases 8 - i,
                {
                    let (u, q1) = take_u32(data, q).unwrap();
                    let (b, q2) = take_u32(data, q1).unwrap();
                    let ghost before = points@.take(i as int);
                    points[i] = PolylineInterestRatePoint { utilization_rate_bps: u, borrow_rate_bps: b };
                    proof {
                        assert(points@.take(i as int) =~= before);
                        let t = points@.take(i as int + 1);
                        assert(t.drop_last() =~= before);
                        lemma_subrange_join(data@, 0, q as int, q1 as int);
                        lemma_subrange_join(data@, 0, q1 as int, q2 as int);
                    }
                    i += 1;
                    q = q2;
                }
                proof {
                    assert(points@.take(8) =~= points@);
                    lemma_points_bytes_len(points@);
                }
                InterestRateCurveKind::Polyline(PolylineInterestRateCurve { points })
            },
        }
    }

    /// The 72 bytes of the account layout.
    pub fn to_bytes(&self) -> (r: Vec<u8>)
        ensures
            r@ == self.layout(),
    {
        let mut out: Vec<u8> = Vec::new();
        let tag: u64 = match self.kind {
            PodInterestRateCurveKind::Fixed => 0,
            PodInterestRateCurveKind::Polyline => 1,
            PodInterestRateCurveKind::Adaptive => 2,
        };
        put_u64(&mut out, tag);
        let mut i: usize = 0;
        while i < 64
            invariant
                i <= 64,
                out@ == u64_bytes(tag) + self.union@.take(i as int),
            decreases 64 - i,
        {
            out.push(self.union[i]);
            proof {
                assert(self.union@.take(i as int + 1) =~= self.union@.take(i as int).push(
                    self.union@[i as int],
                ));
                assert(out@ =~= u64_bytes(tag) + self.union@.take(i as int + 1));
            }
            i += 1;
        }
        proof {
            assert(self.union@.take(64) =~= self.union@);
        }
        out
    }

    /// Reads the account layout back: exactly 72 bytes whose first eight
    /// are a known kind; none otherwise.
    pub fn from_bytes(data: &[u8]) -> (r: Option<Self>)
        ensures
            r matches Some(p) ==> data@ == p.layout(),
            r is None ==> forall|p: PodInterestRateCurve| data@ != #[trigger] p.layout(),
    {
        if data.len() != 72 {
            proof {
                assert forall|p: PodInterestRateCurve| data@ != #[trigger] p.layout() by {}
            }
            return None;
        }
        let (tag, _) = take_u64(data, 0).unwrap();
        let kind = if tag == 0 {
            PodInterestRateCurveKind::Fixed
        } else if tag == 1 {
            PodInterestRateCurveKind::Polyline
        } else if tag == 2 {
            PodInterestRateCurveKind::Adaptive
        } else {
            proof {
                assert forall|p: PodInterestRateCurve| data@ != #[trigger] p.layout() by {
                    if data@ == p.layout() {
                        assert(data@.subrange(0, 8) =~= u64_bytes(p.kind.spec_tag()));
                        crate::ixs::wire::lemma_u64_bytes_injective(tag, p.kind.spec_tag());
                    }
                }
            }
            return None;
        };
        let mut union = [0u8; 64];
        let mut i: usize = 0;
        while i < 64
            invariant
                i <= 64,
                data@.len() == 72,
                forall|j: int| 0 <= j < i ==> union@[j] == data@[8 + j],
            decreases 64 - i,
        {
            union[i] = data[8 + i];
            i += 1;
        }
        let p = PodInterestRateCurve { kind, union };
        proof {
            assert(p.kind.spec_tag() == tag);
            assert(data@ =~= p.layout());
        }
        Some(p)
    }
}

} // verus!
