//! Blocking on an atomic word until another thread wakes it, through the
//! `atomic_wait` crate (a futex on Linux).
use std::sync::atomic::AtomicU32;
use vstd::prelude::*;

verus! {

/// Calls `atomic_wait::wait`: blocks while `atomic` holds `value`, until a
/// wake on `atomic`; it may also return spuriously. It returns nothing, and
/// the contract states nothing: whether and how long it blocks depends on
/// other threads.
#[verifier::external_body]
pub(crate) fn wait(atomic: &AtomicU32, value: u32) {
    atomic_wait::wait(atomic, value)
}

/// Calls `atomic_wait::wake_one`: wakes at most one thread blocked in
/// [`wait`] on `atomic`. It returns nothing; the contract states nothing.
#[verifier::external_body]
pub(crate) fn wake_one(atomic: &AtomicU32) {
    atomic_wait::wake_one(atomic)
}

/// Calls `atomic_wait::wake_all`: wakes every thread blocked in [`wait`] on
/// `atomic`. It returns nothing; the contract states nothing.
#[verifier::external_body]
pub(crate) fn wake_all(atomic: &AtomicU32) {
    atomic_wait::wake_all(atomic)
}

} // verus!
