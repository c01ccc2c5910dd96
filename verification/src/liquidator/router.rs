//! Pool discovery cadence and the choice among the quotes of several pools.
use vstd::prelude::*;

verus! {

/// Slippage tolerance asked of the pool quotes, in basis points.
pub const SLIPPAGE_TOLERANCE_BPS: u16 = 100;

/// Seconds between two discoveries of the pools of the registered pairs.
pub const DISCOVERY_INTERVAL_SECS: u64 = 300;

/// Whether the pools must be discovered again: never discovered yet, or
/// at least the discovery interval ago.
pub fn should_refresh_pools(secs_since_last_discovery: Option<u64>) -> (r: bool)
    ensures
        r == match secs_since_last_discovery {
            None => true,
            Some(s) => s >= DISCOVERY_INTERVAL_SECS,
        },
{
    match secs_since_last_discovery {
        None => true,
        Some(s) => s >= DISCOVERY_INTERVAL_SECS,
    }
}

/// The index of the best quote: the first of the largest estimated
/// outputs, skipping the pools whose quote failed (`None`).
pub open spec fn is_best_quote(est_outs: Seq<Option<u64>>, i: int) -> bool {
    &&& 0 <= i < est_outs.len()
    &&& est_outs[i] is Some
    &&& forall|j: int|
        0 <= j < i ==> (#[trigger] est_outs[j] matches Some(o) ==> o < est_outs[i]->0)
    &&& forall|j: int|
        i < j < est_outs.len() ==> (#[trigger] est_outs[j] matches Some(o) ==> o <= est_outs[i]->0)
}

/// Picks the pool whose quote gives the most, the first one on a tie;
/// none when every quote failed.
pub fn pick_best_quote(est_outs: &[Option<u64>]) -> (r: Option<usize>)
    ensures
        r is None <==> forall|j: int| 0 <= j < est_outs@.len() ==> #[trigger] est_outs@[j] is None,
        r matches Some(i) ==> is_best_quote(est_outs@, i as int),
{
    let mut best: Option<usize> = None;
    let mut i: usize = 0;
    while i < est_outs.len()
        invariant
            i <= est_outs@.len(),
            best is None <==> forall|j: int| 0 <= j < i ==> #[trigger] est_outs@[j] is None,
            best matches Some(b) ==> b < i && est_outs@[b as int] is Some && (forall|j: int|
                0 <= j < b ==> (#[trigger] est_outs@[j] matches Some(o) ==> o < est_outs@[b as int]->0))
                && (forall|j: int|
                b < j < i ==> (#[trigger] est_outs@[j] matches Some(o) ==> o <= est_outs@[b as int]->0)),
        decreases est_outs@.len() - i,
    {
        match est_outs[i] {
            Some(out) => {
                let better = match best {
                    None => true,
                    Some(b) => match est_outs[b] {
                        Some(prev) => out > prev,
                        None => true,
                    },
                };
                if better {
                    best = Some(i);
                }
            },
            None => {},
        }
        i += 1;
    }
    best
}

} // verus!
