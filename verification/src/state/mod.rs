pub mod borrow_position;
pub mod supply_position;
pub mod global_config;
pub mod market_config;
pub mod supply_vault;
pub mod collateral_vault;
pub mod market;
pub mod market_wrapper;

use vstd::prelude::*;

verus! {

/// Whether no two sizes are equal.
pub open spec fn all_different(sizes: Seq<usize>) -> bool {
    forall|i: int, j: int| 0 <= i < j < sizes.len() ==> sizes[i] != sizes[j]
}

/// Accounts are told apart by their size: checks that no two of the given
/// sizes are equal, which the caller must ensure.
pub fn validate_all_different_sizes<const M: usize>(sizes: [usize; M])
    requires
        all_different(sizes@),
{
    let mut i: usize = 0;
    while i < M
        invariant
            i <= M,
            sizes@.len() == M,
            all_different(sizes@),
        decreases M - i,
    {
        let mut j: usize = i + 1;
        while j < M
            invariant
                i < j <= M,
                sizes@.len() == M,
                all_different(sizes@),
            decreases M - j,
        {
            assert(sizes[i as int] != sizes[j as int]);
            j += 1;
        }
        i += 1;
    }
}

} // verus!
