//! A spin lock that hands out a guard for each held lock.
//!
//! It follows the protocol of [`crate::spinlock::spinlock_safe`]: a swap of
//! `true` into the flag takes the lock when it finds the flag clear, and the
//! guard's release clears the flag; the laws there cover this lock too.
use crate::effect::{store_bool_on, swap_bool_on, StoreBool, SwapBool};
use crate::spinlock::spinlock_safe::{lock_flag, spec_lock_flag, spec_swap_acquires, swap_acquires};
use std::sync::atomic::AtomicBool;
use std::sync::atomic::Ordering;
use vstd::prelude::*;

verus! {

/// The lock's flag: `true` while the lock is held.
pub struct SpinLock {
    locked: AtomicBool,
}

/// A held lock of `lock`; [`Guard::unlock`] releases it.
pub struct Guard<'a> {
    lock: &'a SpinLock,
}

/// What one attempt to take the lock did: the guard, if it took the lock,
/// and the swap of the flag.
pub struct SpinAttempt<'a> {
    pub guard: Option<Guard<'a>>,
    pub swap: SwapBool<'a>,
}

/// An attempt on `l`: it swaps [`spec_lock_flag`] into the flag and takes
/// the lock exactly when the flag was clear.
pub open spec fn spin_attempt_done(l: SpinLock, r: SpinAttempt) -> bool {
    &&& *r.swap.target == l.flag()
    &&& r.swap.operand == spec_lock_flag()
    &&& r.guard is Some <==> spec_swap_acquires(r.swap.prev)
}

/// A release of `l`: it clears the flag.
pub open spec fn spin_release_done(l: SpinLock, r: StoreBool) -> bool {
    *r.target == l.flag() && r.value == false
}

impl<'a> Guard<'a> {
    /// The spin lock this guard holds.
    pub closed spec fn lock(&self) -> &'a SpinLock {
        self.lock
    }

    /// Releases the lock: clears the flag.
    pub fn unlock(self) -> (r: StoreBool<'a>)
        ensures
            spin_release_done(*self.lock(), r),
    {
        store_bool_on(&self.lock.locked, false, Ordering::Release)
    }
}

impl SpinLock {
    /// The lock's flag.
    pub closed spec fn flag(&self) -> AtomicBool {
        self.locked
    }

    /// An unlocked spin lock.
    pub fn new() -> Self {
        SpinLock { locked: AtomicBool::new(false) }
    }

    /// One attempt to take the lock: swaps `true` into the flag; when the
    /// flag was clear, the returned guard holds this lock.
    pub fn lock_step(&self) -> (r: Option<Guard<'_>>)
        ensures
            r matches Some(g) ==> g.lock() == self,
    {
        self.lock_attempt().guard
    }

    /// The attempt of [`SpinLock::lock_step`], together with its swap.
    pub fn lock_attempt(&self) -> (r: SpinAttempt<'_>)
        ensures
            spin_attempt_done(*self, r),
            r.guard matches Some(g) ==> g.lock() == self,
    {
        let swap = swap_bool_on(&self.locked, lock_flag(), Ordering::Acquire);
        let guard = if swap_acquires(swap.prev) {
            Some(Guard { lock: self })
        } else {
            None
        };
        SpinAttempt { guard, swap }
    }

    /// Clears the flag without a guard. A guard of this lock that is still
    /// held afterwards no longer excludes other threads.
    pub fn unlock(&self) -> (r: StoreBool<'_>)
        ensures
            spin_release_done(*self, r),
    {
        store_bool_on(&self.locked, false, Ordering::Release)
    }
}

/// An attempt sets the flag, and takes the lock exactly when the flag was
/// clear before; a release clears the flag, so that the next attempt takes
/// the lock.
pub proof fn lemma_guarded_spin_ops(l: SpinLock, a: SpinAttempt, u: StoreBool)
    requires
        spin_attempt_done(l, a),
        spin_release_done(l, u),
    ensures
        *a.swap.target == l.flag() && a.swap.operand == true,
        a.guard is Some <==> !a.swap.prev,
        *u.target == l.flag() && u.value == false && spec_swap_acquires(u.value),
{
}

} // verus!
