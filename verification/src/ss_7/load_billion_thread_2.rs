//! Loading one atomic a billion times while another thread keeps storing to
//! it.
use crate::hint::black_box;
use crate::ss_7::load_billion::NUM_ITER;
use std::sync::atomic::AtomicU64;
use std::sync::atomic::Ordering;
use vstd::prelude::*;

verus! {

/// Loads `a` [`NUM_ITER`] times through `black_box`, as the measuring
/// thread does while the other thread stores.
pub fn load_billion_times_black_box(a: &AtomicU64) {
    let mut i: u64 = 0;
    while i < NUM_ITER
        invariant
            i <= NUM_ITER,
        decreases NUM_ITER - i,
    {
        black_box(a.load(Ordering::Relaxed));
        i = i + 1;
    }
}

} // verus!
