//! Memory fences of each ordering.
use std::sync::atomic::Ordering;
use vstd::prelude::*;

verus! {

/// Issues `std::sync::atomic::fence` with the given ordering. std documents
/// that it panics on `Relaxed`, which `requires` rules out; a fence computes
/// nothing and returns nothing, so nothing more is stated.
#[verifier::external_body]
pub(crate) fn memory_fence(order: Ordering)
    requires
        !(order == Ordering::Relaxed),
{
    std::sync::atomic::fence(order)
}

/// An acquire fence.
pub fn fence_acquire() {
    memory_fence(Ordering::Acquire);
}

/// A release fence.
pub fn fence_release() {
    memory_fence(Ordering::Release);
}

/// An acquire-release fence.
pub fn fence_acqrel() {
    memory_fence(Ordering::AcqRel);
}

/// A sequentially consistent fence.
pub fn fence_seqcst() {
    memory_fence(Ordering::SeqCst);
}

} // verus!
