//! Hints to the processor and the optimiser.
use vstd::prelude::*;

verus! {

/// Calls `std::hint::spin_loop`, which tells the processor that the thread
/// is busy-waiting. It returns nothing; the contract states nothing.
#[verifier::external_body]
pub(crate) fn spin_loop() {
    std::hint::spin_loop()
}

/// Calls `std::hint::black_box`, which std documents as an identity
/// function that the optimiser cannot see through; the contract states that
/// it returns its argument.
#[verifier::external_body]
pub(crate) fn black_box<T>(dummy: T) -> (r: T)
    ensures
        r == dummy,
{
    std::hint::black_box(dummy)
}

} // verus!
