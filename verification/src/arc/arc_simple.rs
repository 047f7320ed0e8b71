//! The reference count behind a minimal atomically reference-counted
//! pointer, without weak pointers and without release.
//!
//! [`ArcData`] holds the count; the pointer and the data it shares are kept
//! by the caller.
use crate::arc::arc_opt::{count_overflows, count_up_done, CountUp};
use crate::effect::fetch_add_usize_on;
use std::sync::atomic::AtomicUsize;
use std::sync::atomic::Ordering;
use vstd::prelude::*;

verus! {

/// The reference count.
pub struct ArcData {
    ref_count: AtomicUsize,
}

impl ArcData {
    /// The count of a new pointer: one.
    pub fn new() -> Self {
        ArcData { ref_count: AtomicUsize::new(1) }
    }

    /// Counts one more pointer (a clone) by one increment. `false` means
    /// the count was past half of `usize::MAX` and the process must abort.
    pub fn clone_arc(&self) -> bool {
        self.clone_arc_op().within_limit
    }

    /// The reference count.
    pub closed spec fn count(&self) -> AtomicUsize {
        self.ref_count
    }

    /// The clone of [`ArcData::clone_arc`], together with its addition: it
    /// adds exactly one to the count, and is within the limit exactly when
    /// the count it found was not past half of `usize::MAX`.
    pub fn clone_arc_op(&self) -> (r: CountUp<'_>)
        ensures
            count_up_done(self.count(), r),
    {
        let add = fetch_add_usize_on(&self.ref_count, 1, Ordering::Relaxed);
        CountUp { within_limit: !count_overflows(add.prev), add }
    }
}

/// A clone adds exactly one to the count, and asks for an abort exactly
/// when the count it found was past half of `usize::MAX`.
pub proof fn lemma_clone_adds_one(d: ArcData, r: CountUp)
    requires
        count_up_done(d.count(), r),
    ensures
        *r.add.target == d.count() && r.add.op == crate::effect::RmwOp::Add && r.add.operand == 1,
        r.within_limit <==> r.add.prev <= usize::MAX / 2,
{
}

} // verus!
