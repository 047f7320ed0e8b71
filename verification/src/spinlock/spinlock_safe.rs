//! A minimal spin lock: one atomic flag, set by a swap to take the lock and
//! cleared by a store to release it.
//!
//! [`SpinLock`] holds the flag; taking the lock is a loop of
//! [`SpinLock::lock_step`] calls. [`SpinState`] and [`spin_step`] describe
//! the protocol as a state machine over the flag, and the laws below prove
//! mutual exclusion for every interleaving of the threads' atomic steps.
use crate::effect::{store_bool_on, swap_bool_on, StoreBool, SwapBool};
use std::sync::atomic::AtomicBool;
use std::sync::atomic::Ordering;
use vstd::prelude::*;

verus! {

/// A thread that swapped `true` into the flag holds the lock when it swapped
/// out `false`.
pub open spec fn spec_swap_acquires(prev: bool) -> bool {
    !prev
}

/// Tells whether the swap that returned `prev` took the lock.
pub fn swap_acquires(prev: bool) -> (r: bool)
    ensures
        r == spec_swap_acquires(prev),
{
    !prev
}

/// The value a thread swaps into the flag to take the lock.
pub open spec fn spec_lock_flag() -> bool {
    true
}

/// Computes the value a thread swaps into the flag to take the lock.
pub fn lock_flag() -> (f: bool)
    ensures
        f == spec_lock_flag(),
{
    true
}

/// The lock's flag: `true` while the lock is held.
pub struct SpinLock {
    locked: AtomicBool,
}

/// What one attempt to take the lock did: whether it took the lock, and
/// the swap of the flag.
pub struct SpinAttempt<'a> {
    pub acquired: bool,
    pub swap: SwapBool<'a>,
}

/// An attempt on `l`: it swaps [`spec_lock_flag`] into the flag and takes
/// the lock exactly when the flag was clear.
pub open spec fn spin_attempt_done(l: SpinLock, r: SpinAttempt) -> bool {
    &&& *r.swap.target == l.flag()
    &&& r.swap.operand == spec_lock_flag()
    &&& r.acquired == spec_swap_acquires(r.swap.prev)
}

/// A release of `l`: it clears the flag.
pub open spec fn spin_release_done(l: SpinLock, r: StoreBool) -> bool {
    *r.target == l.flag() && r.value == false
}

impl SpinLock {
    /// The lock's flag.
    pub closed spec fn flag(&self) -> AtomicBool {
        self.locked
    }

    /// An unlocked spin lock.
    pub fn new() -> Self {
        SpinLock { locked: AtomicBool::new(false) }
    }

    /// One attempt to take the lock: swaps `true` into the flag and reports
    /// whether the swap took the lock (it found the flag clear).
    pub fn lock_step(&self) -> bool {
        self.lock_attempt().acquired
    }

    /// The attempt of [`SpinLock::lock_step`], together with its swap.
    pub fn lock_attempt(&self) -> (r: SpinAttempt<'_>)
        ensures
            spin_attempt_done(*self, r),
    {
        let swap = swap_bool_on(&self.locked, lock_flag(), Ordering::Acquire);
        SpinAttempt { acquired: swap_acquires(swap.prev), swap }
    }

    /// Releases the lock: clears the flag.
    pub fn unlock(&self) -> (r: StoreBool<'_>)
        ensures
            spin_release_done(*self, r),
    {
        store_bool_on(&self.locked, false, Ordering::Release)
    }
}

// What the lock operations do to the flag.

/// An attempt sets the flag, and takes the lock exactly when the flag was
/// clear before; a release clears the flag, so that the next attempt takes
/// the lock.
pub proof fn lemma_spin_ops(l: SpinLock, a: SpinAttempt, u: StoreBool)
    requires
        spin_attempt_done(l, a),
        spin_release_done(l, u),
    ensures
        *a.swap.target == l.flag() && a.swap.operand == true,
        a.acquired <==> !a.swap.prev,
        *u.target == l.flag() && u.value == false && spec_swap_acquires(u.value),
{
}

// The protocol as a state machine over the flag.

/// The flag together with the thread holding the lock.
pub ghost struct SpinState {
    pub locked: bool,
    pub holder: Option<int>,
}

/// The atomic steps on the flag.
pub ghost enum SpinStep {
    /// The swap of `true` by `thread`.
    Lock { thread: int },
    /// The holder's store of `false`.
    Unlock,
}

/// The unlocked lock.
pub open spec fn spin_init() -> SpinState {
    SpinState { locked: false, holder: None }
}

/// The flag is set exactly while a thread holds the lock.
pub open spec fn spin_inv(s: SpinState) -> bool {
    s.locked == (s.holder is Some)
}

/// Only the holder unlocks.
pub open spec fn spin_enabled(s: SpinState, step: SpinStep) -> bool {
    match step {
        SpinStep::Lock { thread } => true,
        SpinStep::Unlock => s.holder is Some,
    }
}

/// Whether the step hands out the lock.
pub open spec fn grants(s: SpinState, step: SpinStep) -> bool {
    match step {
        SpinStep::Lock { thread } => spec_swap_acquires(s.locked),
        SpinStep::Unlock => false,
    }
}

/// The effect of one step.
pub open spec fn spin_step(s: SpinState, step: SpinStep) -> SpinState {
    match step {
        SpinStep::Lock { thread } => {
            if spec_swap_acquires(s.locked) {
                SpinState { locked: spec_lock_flag(), holder: Some(thread) }
            } else {
                s
            }
        },
        SpinStep::Unlock => SpinState { locked: false, holder: None },
    }
}

/// The unlocked lock satisfies the invariant.
pub proof fn lemma_spin_init()
    ensures
        spin_inv(spin_init()),
{
}

/// Every enabled step keeps the invariant.
pub proof fn lemma_spin_step_keeps_inv(s: SpinState, step: SpinStep)
    requires
        spin_inv(s),
        spin_enabled(s, step),
    ensures
        spin_inv(spin_step(s, step)),
{
}

/// Mutual exclusion: the lock is only handed out while nobody holds it, and
/// then to the thread that took the step; a held lock refuses every other
/// thread until it is unlocked.
pub proof fn lemma_spin_exclusion(s: SpinState, step: SpinStep)
    requires
        spin_inv(s),
        spin_enabled(s, step),
    ensures
        grants(s, step) ==> s.holder is None && spin_step(s, step).holder == Some(step->thread),
        s.holder is Some && step is Lock ==> spin_step(s, step) == s,
{
}

/// The state after the steps `steps`, taken in order from `s`.
pub open spec fn spin_run(s: SpinState, steps: Seq<SpinStep>) -> SpinState
    decreases steps.len(),
{
    if steps.len() == 0 {
        s
    } else {
        spin_run(spin_step(s, steps[0]), steps.drop_first())
    }
}

/// Each of `steps`, taken in order from `s`, is enabled when it is taken.
pub open spec fn spin_run_enabled(s: SpinState, steps: Seq<SpinStep>) -> bool
    decreases steps.len(),
{
    steps.len() == 0 || (spin_enabled(s, steps[0]) && spin_run_enabled(
        spin_step(s, steps[0]),
        steps.drop_first(),
    ))
}

/// A run of enabled steps from a state satisfying the invariant ends in a
/// state satisfying it.
pub proof fn lemma_spin_run_keeps_inv(s: SpinState, steps: Seq<SpinStep>)
    requires
        spin_inv(s),
        spin_run_enabled(s, steps),
    ensures
        spin_inv(spin_run(s, steps)),
    decreases steps.len(),
{
    if steps.len() > 0 {
        lemma_spin_step_keeps_inv(s, steps[0]);
        lemma_spin_run_keeps_inv(spin_step(s, steps[0]), steps.drop_first());
    }
}

/// In every state reachable from the unlocked lock, whatever the
/// interleaving of the threads' steps, the flag is set exactly while one
/// thread holds the lock.
pub proof fn lemma_spin_reachable_exclusion(steps: Seq<SpinStep>)
    requires
        spin_run_enabled(spin_init(), steps),
    ensures
        spin_inv(spin_run(spin_init(), steps)),
{
    lemma_spin_run_keeps_inv(spin_init(), steps);
}

} // verus!
