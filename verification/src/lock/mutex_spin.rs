//! A futex-based mutex with three states that spins a little before it
//! sleeps.
//!
//! The state word is `0` when unlocked, `1` when locked with no other thread
//! waiting, and `2` when locked with other threads possibly waiting. Taking
//! the lock tries a compare-and-exchange from `0` to `1`; when that fails the
//! thread spins up to a hundred times while the word is `1`, tries once more,
//! and then swaps `2` in until it swaps out a `0`, sleeping while the word is
//! `2`. Unlocking swaps `0` in and wakes a sleeper only when it swapped out a
//! `2`.
//!
//! [`Mutex`] holds the word; [`MutexState`] and [`mutex_step`] describe the
//! protocol as a state machine over it, and the laws below prove mutual
//! exclusion and that no sleeping thread is forgotten by an unlock.
use crate::hint::spin_loop;
use crate::effect::{
    cas_on, load_on, swap_on, wait_on, wake_one_on, Cas, Load, Rmw, RmwOp, Wait, Wake, WakeKind,
};
use std::sync::atomic::AtomicU32;
use std::sync::atomic::Ordering;
use vstd::prelude::*;

verus! {

/// The word of an unlocked mutex.
pub const UNLOCKED: u32 = 0;

/// The word of a mutex locked with no other thread waiting.
pub const LOCKED: u32 = 1;

/// The word of a mutex locked with other threads possibly waiting.
pub const CONTENDED: u32 = 2;

/// How many times a thread spins before it falls back to sleeping.
pub const SPIN_LIMIT: u32 = 100;

/// A thread keeps spinning while the lock is held uncontended and it has
/// spun fewer than [`SPIN_LIMIT`] times.
pub open spec fn spec_keeps_spinning(word: u32, spins: u32) -> bool {
    word == LOCKED && spins < SPIN_LIMIT
}

/// Tells whether a thread that read `word` after `spins` spins spins again.
pub fn keeps_spinning(word: u32, spins: u32) -> (r: bool)
    ensures
        r == spec_keeps_spinning(word, spins),
{
    word == LOCKED && spins < SPIN_LIMIT
}

/// A thread that swapped [`CONTENDED`] in holds the lock when it swapped out
/// [`UNLOCKED`].
pub open spec fn spec_swap_acquires(prev: u32) -> bool {
    prev == UNLOCKED
}

/// Tells whether the swap that returned `prev` took the lock.
pub fn swap_acquires(prev: u32) -> (r: bool)
    ensures
        r == spec_swap_acquires(prev),
{
    prev == UNLOCKED
}

/// An unlock that swapped out [`CONTENDED`] wakes one sleeping thread.
pub open spec fn spec_unlock_wakes(prev: u32) -> bool {
    prev == CONTENDED
}

/// Tells whether the unlock that swapped out `prev` wakes a sleeper.
pub fn unlock_wakes(prev: u32) -> (r: bool)
    ensures
        r == spec_unlock_wakes(prev),
{
    prev == CONTENDED
}

/// The fast path's exchange: from [`UNLOCKED`] to [`LOCKED`].
pub open spec fn spec_fast_exchange() -> (u32, u32) {
    (UNLOCKED, LOCKED)
}

/// Computes the fast path's exchange.
pub fn fast_exchange() -> (e: (u32, u32))
    ensures
        e == spec_fast_exchange(),
{
    (UNLOCKED, LOCKED)
}

/// The word a thread on the contended path swaps in, and sleeps on when the
/// swap finds the lock held.
pub open spec fn spec_contended_word() -> u32 {
    CONTENDED
}

/// Computes the word a thread on the contended path swaps in.
pub fn contended_word() -> (w: u32)
    ensures
        w == spec_contended_word(),
{
    CONTENDED
}

/// The mutex's state word.
pub struct Mutex {
    state: AtomicU32,
}

/// A held lock of `mutex`; [`MutexGuard::unlock`] releases it.
pub struct MutexGuard<'a> {
    mutex: &'a Mutex,
}

/// What an unlock did: the swap of [`UNLOCKED`] into the state word, and
/// the wake of one sleeper, when there was one to wake.
pub struct Unlock<'a> {
    pub release: Rmw<'a>,
    pub wake: Option<Wake<'a>>,
}

/// An unlock of `m`: it swaps [`UNLOCKED`] into the state word, and exactly
/// when the word was [`CONTENDED`] it wakes one thread waiting on the word.
pub open spec fn unlock_done(m: Mutex, r: Unlock) -> bool {
    &&& *r.release.target == m.state_word() && r.release.op == RmwOp::Swap && r.release.operand == UNLOCKED
    &&& if spec_unlock_wakes(r.release.prev) {
        r.wake matches Some(w) && *w.target == m.state_word() && w.kind == WakeKind::One
    } else {
        r.wake is None
    }
}

/// What one attempt of the fast path did: the guard, if the lock was
/// taken, and the compare-and-exchange of the state word.
pub struct TryLockAttempt<'a> {
    pub guard: Option<MutexGuard<'a>>,
    pub exchange: Cas<'a>,
}

/// What one round of the contended path did: the guard, if the lock was
/// taken, the swap of [`CONTENDED`] into the word, and the wait, if the lock
/// was held.
pub struct ContendedAttempt<'a> {
    pub guard: Option<MutexGuard<'a>>,
    pub swap: Rmw<'a>,
    pub wait: Option<Wait<'a>>,
}

/// A release of the lock that keeps hold of the mutex reference: the mutex
/// that was held, and what its unlock did.
pub struct Released<'a> {
    pub mutex: &'a Mutex,
    pub unlock: Unlock<'a>,
}

/// What the start of the contended path did: how many times it spun, the
/// load of the state word that ended the spinning, and the final attempt of
/// the fast path.
pub struct SpinThenTry<'a> {
    pub spins: u32,
    pub last_look: Load<'a>,
    pub attempt: TryLockAttempt<'a>,
}

/// A fast-path attempt on `m`: the exchange of [`spec_fast_exchange`] on the
/// state word; the lock is taken exactly when it took effect.
pub open spec fn try_lock_done(m: Mutex, r: TryLockAttempt) -> bool {
    &&& *r.exchange.target == m.state_word()
    &&& r.exchange.expected == spec_fast_exchange().0
    &&& r.exchange.desired == spec_fast_exchange().1
    &&& r.guard is Some <==> r.exchange.outcome is Ok
}

/// A contended round on `m`: it swaps [`CONTENDED`] into the state word; it
/// takes the lock exactly when the swap found the word [`UNLOCKED`], and
/// otherwise waits on the word while it holds [`CONTENDED`].
pub open spec fn contended_done(m: Mutex, r: ContendedAttempt) -> bool {
    &&& *r.swap.target == m.state_word() && r.swap.op == RmwOp::Swap && r.swap.operand
        == spec_contended_word()
    &&& if spec_swap_acquires(r.swap.prev) {
        r.guard is Some && r.wait is None
    } else {
        r.guard is None && (r.wait matches Some(w) && *w.target == m.state_word() && w.value
            == spec_contended_word())
    }
}

impl<'a> MutexGuard<'a> {
    /// The mutex this guard holds.
    pub closed spec fn mutex(&self) -> &'a Mutex {
        self.mutex
    }

    /// Releases the lock, as [`MutexGuard::unlock`] does, and returns the
    /// mutex it held, to be locked again later.
    pub fn into_mutex(self) -> (m: &'a Mutex)
        ensures
            m == self.mutex(),
    {
        self.release().mutex
    }

    /// Releases the lock, as [`MutexGuard::unlock`] does, and returns the
    /// mutex it held together with what the unlock did.
    pub fn release(self) -> (r: Released<'a>)
        ensures
            r.mutex == self.mutex(),
            unlock_done(*self.mutex(), r.unlock),
    {
        let mutex = self.mutex;
        let unlock = self.unlock();
        Released { mutex, unlock }
    }

    /// Releases the lock: swaps [`UNLOCKED`] in and wakes one sleeper if the
    /// lock was contended.
    pub fn unlock(self) -> (r: Unlock<'a>)
        ensures
            unlock_done(*self.mutex(), r),
    {
        let release = swap_on(&self.mutex.state, UNLOCKED, Ordering::Release);
        if unlock_wakes(release.prev) {
            let wake = wake_one_on(&self.mutex.state);
            Unlock { release, wake: Some(wake) }
        } else {
            Unlock { release, wake: None }
        }
    }
}

impl Mutex {
    /// The state word.
    pub closed spec fn state_word(&self) -> AtomicU32 {
        self.state
    }

    /// An unlocked mutex.
    pub fn new() -> Self {
        Mutex { state: AtomicU32::new(UNLOCKED) }
    }

    /// The fast path of taking the lock: one compare-and-exchange from
    /// [`UNLOCKED`] to [`LOCKED`]. A guard returned holds this mutex.
    pub fn try_lock(&self) -> (r: Option<MutexGuard<'_>>)
        ensures
            r matches Some(g) ==> g.mutex() == self,
    {
        self.try_lock_attempt().guard
    }

    /// The attempt of [`Mutex::try_lock`], together with its exchange.
    pub fn try_lock_attempt(&self) -> (r: TryLockAttempt<'_>)
        ensures
            try_lock_done(*self, r),
            r.guard matches Some(g) ==> g.mutex() == self,
    {
        let (free, locked) = fast_exchange();
        let exchange = cas_on(&self.state, free, locked, Ordering::Acquire, Ordering::Relaxed);
        let guard = match exchange.outcome {
            Ok(_) => Some(MutexGuard { mutex: self }),
            Err(_) => None,
        };
        TryLockAttempt { guard, exchange }
    }

    /// The start of the contended path: spins while the lock is held
    /// uncontended, at most [`SPIN_LIMIT`] times, then tries the fast path
    /// once more. A guard returned holds this mutex.
    pub fn lock_contended_spin(&self) -> (r: Option<MutexGuard<'_>>)
        ensures
            r matches Some(g) ==> g.mutex() == self,
    {
        self.spin_then_try().attempt.guard
    }

    /// The start of the contended path of [`Mutex::lock_contended_spin`],
    /// together with what it did: it spins at most [`SPIN_LIMIT`] times,
    /// stops when its look at the state word no longer shows the lock held
    /// uncontended or the limit is reached, and then tries the fast path.
    pub fn spin_then_try(&self) -> (r: SpinThenTry<'_>)
        ensures
            r.spins <= SPIN_LIMIT,
            *r.last_look.target == self.state_word(),
            !spec_keeps_spinning(r.last_look.value, r.spins),
            try_lock_done(*self, r.attempt),
            r.attempt.guard matches Some(g) ==> g.mutex() == self,
    {
        let mut spins: u32 = 0;
        let mut look = load_on(&self.state, Ordering::Relaxed);
        while keeps_spinning(look.value, spins)
            invariant
                spins <= SPIN_LIMIT,
                *look.target == self.state_word(),
            decreases SPIN_LIMIT - spins,
        {
            spins = spins + 1;
            spin_loop();
            look = load_on(&self.state, Ordering::Relaxed);
        }
        let attempt = self.try_lock_attempt();
        SpinThenTry { spins, last_look: look, attempt }
    }

    /// One round of the contended path: swaps [`CONTENDED`] in; the lock is
    /// taken if the word was [`UNLOCKED`], and otherwise the thread sleeps
    /// while the word stays [`CONTENDED`]. A guard returned holds this mutex.
    pub fn lock_contended_step(&self) -> (r: Option<MutexGuard<'_>>)
        ensures
            r matches Some(g) ==> g.mutex() == self,
    {
        self.contended_attempt().guard
    }

    /// The round of [`Mutex::lock_contended_step`], together with the swap
    /// and the wait it performed.
    pub fn contended_attempt(&self) -> (r: ContendedAttempt<'_>)
        ensures
            contended_done(*self, r),
            r.guard matches Some(g) ==> g.mutex() == self,
    {
        let contended = contended_word();
        let swap = swap_on(&self.state, contended, Ordering::Acquire);
        if swap_acquires(swap.prev) {
            ContendedAttempt { guard: Some(MutexGuard { mutex: self }), swap, wait: None }
        } else {
            let wait = wait_on(&self.state, contended);
            ContendedAttempt { guard: None, swap, wait: Some(wait) }
        }
    }
}

// What an unlock does to the state word.

/// An unlock frees the lock (it swaps [`UNLOCKED`] into the state word), and
/// when it finds the word [`CONTENDED`] (a thread may be asleep on it) it
/// wakes one thread sleeping on the word; an uncontended unlock wakes
/// nobody.
pub proof fn lemma_unlock_wakes_contended(m: Mutex, r: Unlock)
    requires
        unlock_done(m, r),
    ensures
        *r.release.target == m.state_word() && r.release.op == RmwOp::Swap && r.release.operand == UNLOCKED,
        r.release.prev == CONTENDED ==> (r.wake matches Some(w) && *w.target == m.state_word()
            && w.kind == WakeKind::One),
        r.release.prev != CONTENDED ==> r.wake is None,
{
}

/// The fast path takes the lock exactly when its exchange from [`UNLOCKED`]
/// to [`LOCKED`] took effect.
pub proof fn lemma_try_lock_takes_only_free(m: Mutex, r: TryLockAttempt)
    requires
        try_lock_done(m, r),
    ensures
        *r.exchange.target == m.state_word(),
        r.exchange.expected == UNLOCKED && r.exchange.desired == LOCKED,
        r.guard is Some <==> r.exchange.outcome is Ok,
{
}

/// A contended round takes the lock exactly when its swap of [`CONTENDED`]
/// found the word [`UNLOCKED`]; otherwise the word now shows the lock
/// contended (so the holder's unlock wakes a sleeper) and the thread sleeps
/// on it only while it stays [`CONTENDED`].
pub proof fn lemma_contended_round_marks_contention(m: Mutex, r: ContendedAttempt)
    requires
        contended_done(m, r),
    ensures
        *r.swap.target == m.state_word() && r.swap.op == RmwOp::Swap && r.swap.operand
            == CONTENDED,
        r.guard is Some <==> r.swap.prev == UNLOCKED,
        r.guard is None ==> (r.wait matches Some(w) && *w.target == m.state_word() && w.value
            == CONTENDED && spec_unlock_wakes(w.value)),
{
}

// The protocol as a state machine over the state word.

/// The state word together with the thread holding the lock, the threads
/// that went to sleep after a failed swap, and the threads woken since that
/// have not swapped again.
pub ghost struct MutexState {
    pub word: u32,
    pub holder: Option<int>,
    pub sleepers: nat,
    pub woken: nat,
}

/// The atomic steps that change the word or the waiting threads.
pub ghost enum MutexStep {
    /// The compare-and-exchange from [`UNLOCKED`] to [`LOCKED`] by
    /// `thread`.
    TryLock { thread: int },
    /// The swap of [`CONTENDED`] by `thread`; `retry` when the thread is one
    /// that was woken.
    ContendedSwap { thread: int, retry: bool },
    /// The guard's unlock, which wakes one sleeper after swapping out
    /// [`CONTENDED`].
    Unlock,
    /// A sleeper returns from its wait without a wake.
    SpuriousWake,
}

/// The unlocked mutex, with nobody waiting.
pub open spec fn mutex_init() -> MutexState {
    MutexState { word: UNLOCKED, holder: None, sleepers: 0, woken: 0 }
}

/// The word is one of the three states; it is [`UNLOCKED`] exactly when no
/// thread holds the lock; and while some thread sleeps, either the word is
/// [`CONTENDED`] (so the next unlock wakes a sleeper) or a woken thread has
/// yet to swap again.
pub open spec fn mutex_inv(s: MutexState) -> bool {
    &&& s.word <= CONTENDED
    &&& (s.word == UNLOCKED) == (s.holder is None)
    &&& s.sleepers > 0 ==> s.word == CONTENDED || s.woken > 0
}

/// When a step can be taken: a retry needs a woken thread, an unlock a
/// holder, a spurious wake a sleeper.
pub open spec fn mutex_enabled(s: MutexState, step: MutexStep) -> bool {
    match step {
        MutexStep::TryLock { thread } => true,
        MutexStep::ContendedSwap { thread, retry } => retry ==> s.woken > 0,
        MutexStep::Unlock => s.holder is Some,
        MutexStep::SpuriousWake => s.sleepers > 0,
    }
}

/// Whether the step hands out the lock.
pub open spec fn grants(s: MutexState, step: MutexStep) -> bool {
    match step {
        MutexStep::TryLock { thread } => s.word == spec_fast_exchange().0,
        MutexStep::ContendedSwap { thread, retry } => spec_swap_acquires(s.word),
        _ => false,
    }
}

/// The effect of one step.
pub open spec fn mutex_step(s: MutexState, step: MutexStep) -> MutexState {
    match step {
        MutexStep::TryLock { thread } => {
            if s.word == spec_fast_exchange().0 {
                MutexState { word: spec_fast_exchange().1, holder: Some(thread), ..s }
            } else {
                s
            }
        },
        MutexStep::ContendedSwap { thread, retry } => {
            let woken = if retry {
                (s.woken - 1) as nat
            } else {
                s.woken
            };
            if spec_swap_acquires(s.word) {
                MutexState { word: spec_contended_word(), holder: Some(thread), woken, ..s }
            } else {
                MutexState { word: spec_contended_word(), sleepers: s.sleepers + 1, woken, ..s }
            }
        },
        MutexStep::Unlock => {
            if spec_unlock_wakes(s.word) && s.sleepers > 0 {
                MutexState {
                    word: UNLOCKED,
                    holder: None,
                    sleepers: (s.sleepers - 1) as nat,
                    woken: s.woken + 1,
                }
            } else {
                MutexState { word: UNLOCKED, holder: None, ..s }
            }
        },
        MutexStep::SpuriousWake => MutexState {
            sleepers: (s.sleepers - 1) as nat,
            woken: s.woken + 1,
            ..s
        },
    }
}

/// The unlocked mutex satisfies the invariant.
pub proof fn lemma_mutex_init()
    ensures
        mutex_inv(mutex_init()),
{
}

/// Every enabled step keeps the invariant.
pub proof fn lemma_mutex_step_keeps_inv(s: MutexState, step: MutexStep)
    requires
        mutex_inv(s),
        mutex_enabled(s, step),
    ensures
        mutex_inv(mutex_step(s, step)),
{
}

/// Mutual exclusion: the lock is only handed out while nobody holds it, and
/// then to the thread that took the step.
pub proof fn lemma_mutex_exclusion(s: MutexState, step: MutexStep)
    requires
        mutex_inv(s),
        mutex_enabled(s, step),
    ensures
        grants(s, step) ==> s.holder is None,
        step matches MutexStep::TryLock { thread } ==> (grants(s, step) ==> mutex_step(
            s,
            step,
        ).holder == Some(thread)),
        step matches MutexStep::ContendedSwap { thread, retry } ==> (grants(s, step) ==> mutex_step(
            s,
            step,
        ).holder == Some(thread)),
{
}

/// No lost wake-up: a thread that fails its swap leaves the word
/// [`CONTENDED`], and an unlock of a [`CONTENDED`] word with a sleeper wakes
/// one.
pub proof fn lemma_mutex_sleeper_is_woken(s: MutexState, thread: int, retry: bool)
    requires
        mutex_inv(s),
        mutex_enabled(s, MutexStep::ContendedSwap { thread, retry }),
        !grants(s, MutexStep::ContendedSwap { thread, retry }),
    ensures
        ({
            let t = mutex_step(s, MutexStep::ContendedSwap { thread, retry });
            &&& t.word == CONTENDED
            &&& t.holder is Some
            &&& spec_unlock_wakes(t.word)
            &&& mutex_step(t, MutexStep::Unlock).woken == t.woken + 1
        }),
{
}

/// The state after the steps `steps`, taken in order from `s`.
pub open spec fn mutex_run(s: MutexState, steps: Seq<MutexStep>) -> MutexState
    decreases steps.len(),
{
    if steps.len() == 0 {
        s
    } else {
        mutex_run(mutex_step(s, steps[0]), steps.drop_first())
    }
}

/// Each of `steps`, taken in order from `s`, is enabled when it is taken.
pub open spec fn mutex_run_enabled(s: MutexState, steps: Seq<MutexStep>) -> bool
    decreases steps.len(),
{
    steps.len() == 0 || (mutex_enabled(s, steps[0]) && mutex_run_enabled(
        mutex_step(s, steps[0]),
        steps.drop_first(),
    ))
}

/// A run of enabled steps from a state satisfying the invariant ends in a
/// state satisfying it.
pub proof fn lemma_mutex_run_keeps_inv(s: MutexState, steps: Seq<MutexStep>)
    requires
        mutex_inv(s),
        mutex_run_enabled(s, steps),
    ensures
        mutex_inv(mutex_run(s, steps)),
    decreases steps.len(),
{
    if steps.len() > 0 {
        lemma_mutex_step_keeps_inv(s, steps[0]);
        lemma_mutex_run_keeps_inv(mutex_step(s, steps[0]), steps.drop_first());
    }
}

/// In every state reachable from the unlocked mutex, whatever the
/// interleaving of the threads' steps, the word is one of the three states,
/// it is unlocked exactly while no thread holds the lock, and a sleeping
/// thread is never left without a pending wake-up.
pub proof fn lemma_mutex_reachable_exclusion(steps: Seq<MutexStep>)
    requires
        mutex_run_enabled(mutex_init(), steps),
    ensures
        mutex_inv(mutex_run(mutex_init(), steps)),
{
    lemma_mutex_run_keeps_inv(mutex_init(), steps);
}

} // verus!
