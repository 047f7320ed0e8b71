//! Loading one atomic a billion times, with and without hiding the loaded
//! value from the optimiser.
use crate::hint::black_box;
use std::sync::atomic::AtomicU64;
use std::sync::atomic::Ordering;
use vstd::prelude::*;

verus! {

/// How many loads each benchmark performs.
pub const NUM_ITER: u64 = 1_000_000_000;

/// Loads `a` [`NUM_ITER`] times, discarding the values (an optimised build
/// may remove the loop).
pub fn load_billion_times(a: &AtomicU64) {
    let mut i: u64 = 0;
    while i < NUM_ITER
        invariant
            i <= NUM_ITER,
        decreases NUM_ITER - i,
    {
        a.load(Ordering::Relaxed);
        i = i + 1;
    }
}

/// Loads `a` [`NUM_ITER`] times, passing each value through `black_box` so
/// that the loads stay.
pub fn load_billion_times_black_box(a: &AtomicU64) {
    let mut i: u64 = 0;
    while i < NUM_ITER
        invariant
            i <= NUM_ITER,
        decreases NUM_ITER - i,
    {
        black_box(a.load(Ordering::Relaxed));
        i = i + 1;
    }
}

} // verus!
