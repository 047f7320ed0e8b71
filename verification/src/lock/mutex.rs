//! A futex-based mutex with two states.
//!
//! The state word is `0` when unlocked and `1` when locked. Taking the lock
//! swaps `1` in until the swap returns something other than `1`, sleeping
//! while the word is `1`; unlocking stores `0` and wakes one sleeper.
//!
//! [`Mutex`] holds the word; [`MutexState`] and [`mutex_step`] describe the
//! protocol as a state machine over it, with the threads asleep on the word
//! and those woken since, and the laws below prove mutual exclusion for every
//! interleaving of the threads' atomic steps, and that no wake-up is lost:
//! while a thread sleeps, the word is locked (so its holder's unlock wakes a
//! sleeper) or a woken thread is still to retry.
use crate::effect::{
    store_on, swap_on, wait_on, wake_one_on, Rmw, RmwOp, Store, Wait, Wake, WakeKind,
};
use std::sync::atomic::AtomicU32;
use std::sync::atomic::Ordering;
use vstd::prelude::*;

verus! {

/// The word of an unlocked mutex.
pub const UNLOCKED: u32 = 0;

/// The word of a locked mutex.
pub const LOCKED: u32 = 1;

/// A thread that swapped [`LOCKED`] in holds the lock unless it swapped out
/// [`LOCKED`].
pub open spec fn spec_swap_acquires(prev: u32) -> bool {
    prev != LOCKED
}

/// Tells whether the swap that returned `prev` took the lock.
pub fn swap_acquires(prev: u32) -> (r: bool)
    ensures
        r == spec_swap_acquires(prev),
{
    prev != LOCKED
}

/// The word a thread swaps in to take the lock, and sleeps on when the swap
/// finds the lock held.
pub open spec fn spec_lock_word() -> u32 {
    LOCKED
}

/// Computes the word a thread swaps in to take the lock.
pub fn lock_word() -> (w: u32)
    ensures
        w == spec_lock_word(),
{
    LOCKED
}

/// The mutex's state word.
pub struct Mutex {
    state: AtomicU32,
}

/// A held lock of `mutex`; [`MutexGuard::unlock`] releases it.
pub struct MutexGuard<'a> {
    mutex: &'a Mutex,
}

/// What an unlock did: the store of [`UNLOCKED`] and the wake of one
/// sleeper.
pub struct Unlock<'a> {
    pub clear: Store<'a>,
    pub wake: Wake<'a>,
}

/// What one attempt to take the lock did: the guard, if the lock was taken,
/// the swap of [`LOCKED`] into the word, and the wait, if the lock was held.
pub struct LockAttempt<'a> {
    pub guard: Option<MutexGuard<'a>>,
    pub swap: Rmw<'a>,
    pub wait: Option<Wait<'a>>,
}

/// An unlock of `m`: it stores [`UNLOCKED`] into the state word and wakes
/// one thread waiting on it.
pub open spec fn unlock_done(m: Mutex, r: Unlock) -> bool {
    &&& *r.clear.target == m.state_word() && r.clear.value == UNLOCKED
    &&& *r.wake.target == m.state_word() && r.wake.kind == WakeKind::One
}

/// An attempt to take `m`: it swaps [`LOCKED`] into the state word; it takes
/// the lock exactly when the swap found the word other than [`LOCKED`], and
/// otherwise waits on the word while it holds [`LOCKED`].
pub open spec fn lock_attempt_done(m: Mutex, r: LockAttempt) -> bool {
    &&& *r.swap.target == m.state_word() && r.swap.op == RmwOp::Swap && r.swap.operand
        == spec_lock_word()
    &&& if spec_swap_acquires(r.swap.prev) {
        r.guard is Some && r.wait is None
    } else {
        r.guard is None && (r.wait matches Some(w) && *w.target == m.state_word() && w.value
            == spec_lock_word())
    }
}

impl<'a> MutexGuard<'a> {
    /// The mutex this guard holds.
    pub closed spec fn mutex(&self) -> &'a Mutex {
        self.mutex
    }

    /// Releases the lock: stores [`UNLOCKED`] and wakes one sleeper.
    pub fn unlock(self) -> (r: Unlock<'a>)
        ensures
            unlock_done(*self.mutex(), r),
    {
        let clear = store_on(&self.mutex.state, UNLOCKED, Ordering::Release);
        let wake = wake_one_on(&self.mutex.state);
        Unlock { clear, wake }
    }
}

impl Mutex {
    /// The state word.
    pub closed spec fn state_word(&self) -> AtomicU32 {
        self.state
    }

    /// An unlocked mutex.
    pub fn new() -> Self {
        Mutex { state: AtomicU32::new(UNLOCKED) }
    }

    /// One attempt to take the lock: swaps [`LOCKED`] in; the lock is taken
    /// unless the word was [`LOCKED`], and otherwise the thread sleeps while
    /// the word stays [`LOCKED`]. A guard returned holds this mutex.
    pub fn lock_step(&self) -> (r: Option<MutexGuard<'_>>)
        ensures
            r matches Some(g) ==> g.mutex() == self,
    {
        self.lock_attempt().guard
    }

    /// The attempt of [`Mutex::lock_step`], together with the swap and the
    /// wait it performed.
    pub fn lock_attempt(&self) -> (r: LockAttempt<'_>)
        ensures
            lock_attempt_done(*self, r),
            r.guard matches Some(g) ==> g.mutex() == self,
    {
        let locked = lock_word();
        let swap = swap_on(&self.state, locked, Ordering::Acquire);
        if swap_acquires(swap.prev) {
            LockAttempt { guard: Some(MutexGuard { mutex: self }), swap, wait: None }
        } else {
            let wait = wait_on(&self.state, locked);
            LockAttempt { guard: None, swap, wait: Some(wait) }
        }
    }
}

// What the lock operations do to the state word.

/// An unlock frees the lock (the word becomes [`UNLOCKED`], so no sleeper
/// keeps sleeping on [`LOCKED`]) and wakes one thread sleeping on the word.
pub proof fn lemma_unlock_frees_and_wakes(m: Mutex, r: Unlock)
    requires
        unlock_done(m, r),
    ensures
        *r.clear.target == m.state_word() && r.clear.value == UNLOCKED && r.clear.value != LOCKED,
        *r.wake.target == m.state_word() && r.wake.kind == WakeKind::One,
{
}

/// An attempt takes the lock exactly when its swap of [`LOCKED`] found the
/// word unlocked; otherwise it sleeps on the word only while the word still
/// shows the lock held.
pub proof fn lemma_lock_attempt_takes_only_free(m: Mutex, r: LockAttempt)
    requires
        lock_attempt_done(m, r),
    ensures
        *r.swap.target == m.state_word() && r.swap.op == RmwOp::Swap && r.swap.operand == LOCKED,
        r.guard is Some <==> r.swap.prev != LOCKED,
        r.guard is None ==> (r.wait matches Some(w) && *w.target == m.state_word() && w.value
            == LOCKED),
{
}

// The protocol as a state machine over the state word.

/// The state word together with the thread holding the lock, the threads
/// that went to sleep after a failed swap, and the threads woken since that
/// have not swapped again.
pub ghost struct MutexState {
    pub word: u32,
    pub holder: Option<int>,
    pub sleepers: nat,
    pub woken: nat,
}

/// The atomic steps that change the word or the waiting threads.
pub ghost enum MutexStep {
    /// The swap of [`LOCKED`] by `thread`; `retry` when the thread is one
    /// that was woken.
    Lock { thread: int, retry: bool },
    /// The guard's unlock: the store of [`UNLOCKED`] and the wake of one
    /// sleeper.
    Unlock,
    /// A sleeper returns from its wait without a wake.
    SpuriousWake,
}

/// The unlocked mutex, with nobody waiting.
pub open spec fn mutex_init() -> MutexState {
    MutexState { word: UNLOCKED, holder: None, sleepers: 0, woken: 0 }
}

/// The word is [`UNLOCKED`] or [`LOCKED`], and [`LOCKED`] exactly while a
/// thread holds the lock; while some thread sleeps, either the word is
/// [`LOCKED`] (so the holder's unlock wakes a sleeper) or a woken thread has
/// yet to swap again.
pub open spec fn mutex_inv(s: MutexState) -> bool {
    &&& s.word <= LOCKED
    &&& (s.word == LOCKED) == (s.holder is Some)
    &&& s.sleepers > 0 ==> s.word == LOCKED || s.woken > 0
}

/// Only a holder unlocks; a retry needs a woken thread, a spurious wake a
/// sleeper.
pub open spec fn mutex_enabled(s: MutexState, step: MutexStep) -> bool {
    match step {
        MutexStep::Lock { thread, retry } => retry ==> s.woken > 0,
        MutexStep::Unlock => s.holder is Some,
        MutexStep::SpuriousWake => s.sleepers > 0,
    }
}

/// Whether the step hands out the lock.
pub open spec fn grants(s: MutexState, step: MutexStep) -> bool {
    match step {
        MutexStep::Lock { thread, retry } => spec_swap_acquires(s.word),
        _ => false,
    }
}

/// The effect of one step: a swap that finds the lock held sends the thread
/// to sleep; an unlock wakes one sleeper, if any.
pub open spec fn mutex_step(s: MutexState, step: MutexStep) -> MutexState {
    match step {
        MutexStep::Lock { thread, retry } => {
            let woken = if retry {
                (s.woken - 1) as nat
            } else {
                s.woken
            };
            if spec_swap_acquires(s.word) {
                MutexState { word: spec_lock_word(), holder: Some(thread), woken, ..s }
            } else {
                MutexState { sleepers: s.sleepers + 1, woken, ..s }
            }
        },
        MutexStep::Unlock => {
            if s.sleepers > 0 {
                MutexState {
                    word: UNLOCKED,
                    holder: None,
                    sleepers: (s.sleepers - 1) as nat,
                    woken: s.woken + 1,
                }
            } else {
                MutexState { word: UNLOCKED, holder: None, ..s }
            }
        },
        MutexStep::SpuriousWake => MutexState {
            sleepers: (s.sleepers - 1) as nat,
            woken: s.woken + 1,
            ..s
        },
    }
}

/// The unlocked mutex satisfies the invariant.
pub proof fn lemma_mutex_init()
    ensures
        mutex_inv(mutex_init()),
{
}

/// Every enabled step keeps the invariant.
pub proof fn lemma_mutex_step_keeps_inv(s: MutexState, step: MutexStep)
    requires
        mutex_inv(s),
        mutex_enabled(s, step),
    ensures
        mutex_inv(mutex_step(s, step)),
{
}

/// Mutual exclusion: the lock is only handed out while nobody holds it, and
/// then to the thread that took the step.
pub proof fn lemma_mutex_exclusion(s: MutexState, step: MutexStep)
    requires
        mutex_inv(s),
        mutex_enabled(s, step),
    ensures
        grants(s, step) ==> s.holder is None && mutex_step(s, step).holder == Some(step->thread),
{
}

/// No lost wake-up: a thread that finds the lock held goes to sleep while
/// another thread holds it, and that holder's unlock wakes a sleeper.
pub proof fn lemma_mutex_sleeper_is_woken(s: MutexState, thread: int, retry: bool)
    requires
        mutex_inv(s),
        mutex_enabled(s, MutexStep::Lock { thread, retry }),
        !grants(s, MutexStep::Lock { thread, retry }),
    ensures
        ({
            let t = mutex_step(s, MutexStep::Lock { thread, retry });
            &&& t.word == LOCKED
            &&& t.holder is Some
            &&& t.sleepers > 0
            &&& mutex_step(t, MutexStep::Unlock).woken == t.woken + 1
        }),
{
}

/// The state after the steps `steps`, taken in order from `s`.
pub open spec fn mutex_run(s: MutexState, steps: Seq<MutexStep>) -> MutexState
    decreases steps.len(),
{
    if steps.len() == 0 {
        s
    } else {
        mutex_run(mutex_step(s, steps[0]), steps.drop_first())
    }
}

/// Each of `steps`, taken in order from `s`, is enabled when it is taken.
pub open spec fn mutex_run_enabled(s: MutexState, steps: Seq<MutexStep>) -> bool
    decreases steps.len(),
{
    steps.len() == 0 || (mutex_enabled(s, steps[0]) && mutex_run_enabled(
        mutex_step(s, steps[0]),
        steps.drop_first(),
    ))
}

/// A run of enabled steps from a state satisfying the invariant ends in a
/// state satisfying it.
pub proof fn lemma_mutex_run_keeps_inv(s: MutexState, steps: Seq<MutexStep>)
    requires
        mutex_inv(s),
        mutex_run_enabled(s, steps),
    ensures
        mutex_inv(mutex_run(s, steps)),
    decreases steps.len(),
{
    if steps.len() > 0 {
        lemma_mutex_step_keeps_inv(s, steps[0]);
        lemma_mutex_run_keeps_inv(mutex_step(s, steps[0]), steps.drop_first());
    }
}

/// In every state reachable from the unlocked mutex, whatever the
/// interleaving of the threads' steps, the word is locked exactly while one
/// thread holds the lock.
pub proof fn lemma_mutex_reachable_exclusion(steps: Seq<MutexStep>)
    requires
        mutex_run_enabled(mutex_init(), steps),
    ensures
        mutex_inv(mutex_run(mutex_init(), steps)),
{
    lemma_mutex_run_keeps_inv(mutex_init(), steps);
}

} // verus!
