//! Loading the middle one of three atomics a billion times while another
//! thread stores to its neighbours, which share its cache line.
use crate::hint::black_box;
use crate::ss_7::load_billion::NUM_ITER;
use std::sync::atomic::AtomicU64;
use std::sync::atomic::Ordering;
use vstd::prelude::*;

verus! {

/// Loads `a[1]` [`NUM_ITER`] times through `black_box`.
pub fn load_3_variable(a: &[AtomicU64; 3]) {
    let mut i: u64 = 0;
    while i < NUM_ITER
        invariant
            i <= NUM_ITER,
        decreases NUM_ITER - i,
    {
        black_box(a[1].load(Ordering::Relaxed));
        i = i + 1;
    }
}

} // verus!
