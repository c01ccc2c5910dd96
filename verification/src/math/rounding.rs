use vstd::prelude::*;

verus! {

/// Direction in which a fixed-point amount is turned into whole atoms.
#[derive(Clone, Copy, Debug, PartialEq, Eq, Structural)]
pub enum RoundingMode {
    RoundDown,
    RoundUp,
}

} // verus!
