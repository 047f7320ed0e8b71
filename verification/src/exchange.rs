//! What a compare-and-exchange returned: `Ok` with the value it replaced when
//! it took effect, `Err` with the value it found instead when it did not.
use vstd::prelude::*;

verus! {

/// The compare-and-exchange that returned `outcome` took effect.
pub open spec fn spec_exchanged<T>(outcome: Result<T, T>) -> bool {
    outcome is Ok
}

/// Tells whether the compare-and-exchange that returned `outcome` took
/// effect.
pub fn exchanged<T>(outcome: &Result<T, T>) -> (r: bool)
    ensures
        r == spec_exchanged(*outcome),
{
    match outcome {
        Ok(_) => true,
        Err(_) => false,
    }
}

} // verus!
