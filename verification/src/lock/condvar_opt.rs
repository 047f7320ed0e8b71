//! A condition variable that counts its waiters, so that a notification
//! with nobody waiting costs no system call.
//!
//! A waiter registers itself, samples the notification counter, releases its
//! mutex and sleeps while the counter still holds the sample. A notification
//! bumps the counter (only when somebody is registered) and wakes one or all
//! sleepers; the sleeper then takes the mutex again.
//!
//! [`CondState`] and [`cond_step`] describe the protocol as a state machine
//! over the counter, the registered threads and the mutex, and the laws
//! below prove that a waiter samples the counter while it holds the mutex
//! and releases the mutex before it sleeps, and that no notification is
//! lost: a thread notified after it sampled the counter does not go to
//! sleep, and `notify_all` leaves nobody asleep.
use crate::lock::mutex_spin::{unlock_done, Mutex, MutexGuard, Released};
use crate::effect::{
    fetch_add_on, fetch_add_usize_on, fetch_sub_usize_on, load_on, load_usize_on, wait_on,
    wake_all_on, wake_one_on, Load, LoadUsize, Rmw, RmwOp, RmwUsize, Wait, Wake, WakeKind,
};
use std::sync::atomic::AtomicU32;
use std::sync::atomic::AtomicUsize;
use std::sync::atomic::Ordering;
use vstd::prelude::*;

verus! {

/// A notification acts only when some thread is registered as waiting.
pub open spec fn spec_should_notify(waiters: usize) -> bool {
    waiters > 0
}

/// Tells whether a notification that read `waiters` bumps the counter and
/// wakes.
pub fn should_notify(waiters: usize) -> (r: bool)
    ensures
        r == spec_should_notify(waiters),
{
    waiters > 0
}

/// The counter after a notification: a wrapping increment.
pub open spec fn spec_bumped(counter: u32) -> u32 {
    if counter == 0xffff_ffff {
        0
    } else {
        (counter + 1) as u32
    }
}

/// The notification counter and the number of registered waiters.
pub struct Condvar {
    counter: AtomicU32,
    num_waiters: AtomicUsize,
}

/// What a notification did: its load of the number of waiters, and, when
/// somebody was registered, the bump of the counter and the wake.
pub struct Notify<'a> {
    pub waiters: LoadUsize<'a>,
    pub bump: Option<Rmw<'a>>,
    pub wake: Option<Wake<'a>>,
}

/// A notification of `c` that wakes `kind`: it loads the number of
/// waiters, and exactly when somebody is registered it adds one to the
/// counter and then wakes `kind` of the threads waiting on the counter.
pub open spec fn notify_done(c: Condvar, kind: WakeKind, r: Notify) -> bool {
    &&& *r.waiters.target == c.waiters_word()
    &&& if spec_should_notify(r.waiters.value) {
        &&& r.bump matches Some(b) && *b.target == c.counter_word() && b.op == RmwOp::Add && b.operand == 1
        &&& r.wake matches Some(w) && *w.target == c.counter_word() && w.kind == kind
    } else {
        r.bump is None && r.wake is None
    }
}

/// What the waiting half of `wait` did: the registration, the sample of
/// the counter, the release of the mutex, the wait on the counter, and the
/// deregistration.
pub struct CondWait<'a, 'b> {
    pub register: RmwUsize<'b>,
    pub sample: Load<'b>,
    pub release: Released<'a>,
    pub wait: Wait<'b>,
    pub leave: RmwUsize<'b>,
}

/// The waiting half of a wait on `c` by the holder of `m`: it adds one to
/// the number of waiters, loads the counter, releases `m`, waits on the
/// counter while it holds the value loaded, and takes one off the number of
/// waiters again.
pub open spec fn cond_wait_done(c: Condvar, m: Mutex, r: CondWait) -> bool {
    &&& *r.register.target == c.waiters_word() && r.register.op == RmwOp::Add
        && r.register.operand == 1
    &&& *r.sample.target == c.counter_word()
    &&& *r.release.mutex == m && unlock_done(m, r.release.unlock)
    &&& *r.wait.target == c.counter_word() && r.wait.value == r.sample.value
    &&& *r.leave.target == c.waiters_word() && r.leave.op == RmwOp::Sub && r.leave.operand == 1
}

impl Condvar {
    /// A condition variable with nobody waiting.
    pub fn new() -> Self {
        Condvar { counter: AtomicU32::new(0), num_waiters: AtomicUsize::new(0) }
    }

    /// The notification counter.
    pub closed spec fn counter_word(&self) -> AtomicU32 {
        self.counter
    }

    /// The number of registered waiters.
    pub closed spec fn waiters_word(&self) -> AtomicUsize {
        self.num_waiters
    }

    /// Wakes one waiting thread, if any is registered.
    pub fn notify_one(&self) -> (r: Notify<'_>)
        ensures
            notify_done(*self, WakeKind::One, r),
    {
        let waiters = load_usize_on(&self.num_waiters, Ordering::Relaxed);
        if should_notify(waiters.value) {
            let bump = fetch_add_on(&self.counter, 1, Ordering::Relaxed);
            let wake = wake_one_on(&self.counter);
            Notify { waiters, bump: Some(bump), wake: Some(wake) }
        } else {
            Notify { waiters, bump: None, wake: None }
        }
    }

    /// Wakes every waiting thread, if any is registered.
    pub fn notify_all(&self) -> (r: Notify<'_>)
        ensures
            notify_done(*self, WakeKind::All, r),
    {
        let waiters = load_usize_on(&self.num_waiters, Ordering::Relaxed);
        if should_notify(waiters.value) {
            let bump = fetch_add_on(&self.counter, 1, Ordering::Relaxed);
            let wake = wake_all_on(&self.counter);
            Notify { waiters, bump: Some(bump), wake: Some(wake) }
        } else {
            Notify { waiters, bump: None, wake: None }
        }
    }

    /// The waiting half of `wait`: registers, samples the counter, releases
    /// the guard's mutex, sleeps while the counter holds the sample, and
    /// deregisters. Returns the mutex that the guard held, to be locked
    /// again.
    pub fn wait_unlocked<'a>(&self, guard: MutexGuard<'a>) -> (m: &'a Mutex)
        ensures
            m == guard.mutex(),
    {
        self.wait_traced(guard).release.mutex
    }

    /// The waiting half of `wait`, together with the operations it
    /// performed.
    pub fn wait_traced<'a>(&self, guard: MutexGuard<'a>) -> (r: CondWait<'a, '_>)
        ensures
            cond_wait_done(*self, *guard.mutex(), r),
            r.release.mutex == guard.mutex(),
    {
        let register = fetch_add_usize_on(&self.num_waiters, 1, Ordering::Relaxed);
        let sample = load_on(&self.counter, Ordering::Relaxed);
        let release = guard.release();
        let wait = wait_on(&self.counter, sample.value);
        let leave = fetch_sub_usize_on(&self.num_waiters, 1, Ordering::Relaxed);
        CondWait { register, sample, release, wait, leave }
    }
}

/// A waiter registers itself, samples the counter while it still holds the
/// mutex, releases exactly the mutex it held (so that a notifier can take it
/// and notify), and sleeps only while the counter still holds its sample, so
/// that a notification after the sample is not missed; it deregisters
/// afterwards.
pub proof fn lemma_wait_releases_and_sleeps_on_sample(c: Condvar, m: Mutex, r: CondWait)
    requires
        cond_wait_done(c, m, r),
    ensures
        *r.register.target == c.waiters_word() && r.register.op == RmwOp::Add
            && r.register.operand == 1,
        *r.leave.target == c.waiters_word() && r.leave.op == RmwOp::Sub && r.leave.operand == 1,
        *r.release.mutex == m,
        *r.release.unlock.release.target == m.state_word() && r.release.unlock.release.operand
            == crate::lock::mutex_spin::UNLOCKED,
        *r.wait.target == c.counter_word() && *r.sample.target == c.counter_word()
            && r.wait.value == r.sample.value,
{
}

/// `notify_all` with registered waiters moves the counter away from the
/// value every waiter sampled before it (one more, wrapping), so that none
/// of them goes to sleep afterwards, and wakes every thread already asleep
/// on the counter; with nobody registered it does neither.
pub proof fn lemma_notify_all_wakes_every_waiter(c: Condvar, r: Notify)
    requires
        notify_done(c, WakeKind::All, r),
    ensures
        *r.waiters.target == c.waiters_word(),
        r.waiters.value > 0 ==> (r.bump matches Some(b) && *b.target == c.counter_word()
            && b.op == RmwOp::Add && b.operand == 1 && spec_bumped(b.prev) != b.prev),
        r.waiters.value > 0 ==> (r.wake matches Some(w) && *w.target == c.counter_word()
            && w.kind == WakeKind::All),
        r.waiters.value == 0 ==> r.bump is None && r.wake is None,
{
}

/// `notify_one` with registered waiters moves the counter away from the
/// value the waiters sampled before it and wakes one thread asleep on the
/// counter; with nobody registered it does neither.
pub proof fn lemma_notify_one_wakes_a_waiter(c: Condvar, r: Notify)
    requires
        notify_done(c, WakeKind::One, r),
    ensures
        *r.waiters.target == c.waiters_word(),
        r.waiters.value > 0 ==> (r.bump matches Some(b) && *b.target == c.counter_word()
            && b.op == RmwOp::Add && b.operand == 1 && spec_bumped(b.prev) != b.prev),
        r.waiters.value > 0 ==> (r.wake matches Some(w) && *w.target == c.counter_word()
            && w.kind == WakeKind::One),
        r.waiters.value == 0 ==> r.bump is None && r.wake is None,
{
}

/// The counter counts notifications modulo `2^32`.
pub open spec fn counter_modulus() -> int {
    0x1_0000_0000
}

/// Where a registered thread is in its wait.
pub ghost enum Waiter {
    /// Registered, still holding the mutex, not yet sampled the counter.
    Registered,
    /// Sampled `sample` from the counter, still holding the mutex; `since`
    /// notifications have happened after the sample.
    Sampled { sample: u32, since: nat },
    /// Released the mutex after sampling `sample`; `since` notifications
    /// have happened after the sample.
    Released { sample: u32, since: nat },
    /// Sleeping while the counter held `sample`.
    Asleep { sample: u32 },
    /// Back from its sleep (woken, or it never slept), about to deregister
    /// and take the mutex again.
    Awake,
}

/// The counter, the registered threads (the waiter count is their number),
/// and the thread holding the mutex the waiters use.
pub ghost struct CondState {
    pub counter: u32,
    pub waiters: Map<int, Waiter>,
    pub mutex_holder: Option<int>,
}

/// The steps of the protocol.
pub ghost enum CondStep {
    /// `thread`, holding the mutex, increments the waiter count.
    Register { thread: int },
    /// `thread`, holding the mutex, samples the counter.
    Sample { thread: int },
    /// `thread` releases the mutex.
    Release { thread: int },
    /// `thread` waits on its sample: it sleeps if the counter still holds
    /// it, and returns at once otherwise.
    Sleep { thread: int },
    /// The sleeping `thread` wakes (spuriously).
    Wake { thread: int },
    /// `thread` decrements the waiter count.
    Leave { thread: int },
    /// `thread`, not in the middle of a wait, takes the mutex.
    Lock { thread: int },
    /// `thread`, holding the mutex outside a wait, releases it.
    Unlock { thread: int },
    /// `notify_one`, whose wake reaches `woken` if it sleeps.
    NotifyOne { woken: int },
    /// `notify_all`.
    NotifyAll,
}

/// A condition variable with nobody waiting, and its mutex free.
pub open spec fn cond_init(counter: u32) -> CondState {
    CondState { counter, waiters: Map::empty(), mutex_holder: None }
}

/// Whether the thread is between registering and releasing the mutex.
pub open spec fn holds_for_wait(w: Waiter) -> bool {
    w is Registered || w is Sampled
}

/// Whether the thread has released the mutex and not yet come back.
pub open spec fn released_for_wait(w: Waiter) -> bool {
    w is Released || w is Asleep
}

/// The counter moves on by one for every notification a thread missed since
/// its sample, so it differs from the sample unless the notifications
/// wrapped the counter around; a thread holds the mutex from registering
/// until it releases it, and not while it is released or asleep.
pub open spec fn cond_inv(s: CondState) -> bool {
    &&& s.waiters.dom().finite()
    &&& forall|t: int|
        #![trigger s.waiters[t]]
        s.waiters.dom().contains(t) ==> {
            &&& (s.waiters[t] matches Waiter::Sampled { sample, since } ==> s.counter == (sample
                + since) % counter_modulus())
            &&& (s.waiters[t] matches Waiter::Released { sample, since } ==> s.counter == (sample
                + since) % counter_modulus())
            &&& holds_for_wait(s.waiters[t]) ==> s.mutex_holder == Some(t)
            &&& released_for_wait(s.waiters[t]) ==> s.mutex_holder != Some(t)
        }
}

/// Whether `thread` is in the middle of a wait: registered and not yet back
/// from its sleep.
pub open spec fn in_wait(s: CondState, thread: int) -> bool {
    s.waiters.dom().contains(thread) && !(s.waiters[thread] is Awake)
}

/// Each step is taken by a thread in the right phase of its wait; the mutex
/// is taken only while free, by a thread not in the middle of a wait, and
/// released outside a wait only by its holder.
pub open spec fn cond_enabled(s: CondState, step: CondStep) -> bool {
    match step {
        CondStep::Register { thread } => !s.waiters.dom().contains(thread) && s.mutex_holder
            == Some(thread),
        CondStep::Sample { thread } => s.waiters.dom().contains(thread)
            && s.waiters[thread] is Registered,
        CondStep::Release { thread } => s.waiters.dom().contains(thread)
            && s.waiters[thread] is Sampled,
        CondStep::Sleep { thread } => s.waiters.dom().contains(thread)
            && s.waiters[thread] is Released,
        CondStep::Wake { thread } => s.waiters.dom().contains(thread)
            && s.waiters[thread] is Asleep,
        CondStep::Leave { thread } => s.waiters.dom().contains(thread) && s.waiters[thread] is Awake,
        CondStep::Lock { thread } => s.mutex_holder is None && !in_wait(s, thread),
        CondStep::Unlock { thread } => s.mutex_holder == Some(thread) && !in_wait(s, thread),
        CondStep::NotifyOne { woken } => true,
        CondStep::NotifyAll => true,
    }
}

/// A thread that has sampled misses one more notification.
pub open spec fn missed(w: Waiter) -> Waiter {
    match w {
        Waiter::Sampled { sample, since } => Waiter::Sampled { sample, since: since + 1 },
        Waiter::Released { sample, since } => Waiter::Released { sample, since: since + 1 },
        _ => w,
    }
}

/// A sleeping thread is woken by `notify_all`.
pub open spec fn woken_by_all(w: Waiter) -> Waiter {
    match w {
        Waiter::Asleep { sample } => Waiter::Awake,
        _ => missed(w),
    }
}

/// The registered threads after a notification: those that have sampled
/// have missed it.
pub open spec fn after_notification(waiters: Map<int, Waiter>) -> Map<int, Waiter> {
    Map::new(|t: int| waiters.dom().contains(t), |t: int| missed(waiters[t]))
}

/// The effect of one step.
pub open spec fn cond_step(s: CondState, step: CondStep) -> CondState {
    match step {
        CondStep::Register { thread } => CondState {
            waiters: s.waiters.insert(thread, Waiter::Registered),
            ..s
        },
        CondStep::Sample { thread } => CondState {
            waiters: s.waiters.insert(thread, Waiter::Sampled { sample: s.counter, since: 0 }),
            ..s
        },
        CondStep::Release { thread } => match s.waiters[thread] {
            Waiter::Sampled { sample, since } => CondState {
                waiters: s.waiters.insert(thread, Waiter::Released { sample, since }),
                mutex_holder: None,
                ..s
            },
            _ => s,
        },
        CondStep::Sleep { thread } => match s.waiters[thread] {
            Waiter::Released { sample, since } => if s.counter == sample {
                CondState { waiters: s.waiters.insert(thread, Waiter::Asleep { sample }), ..s }
            } else {
                CondState { waiters: s.waiters.insert(thread, Waiter::Awake), ..s }
            },
            _ => s,
        },
        CondStep::Wake { thread } => CondState {
            waiters: s.waiters.insert(thread, Waiter::Awake),
            ..s
        },
        CondStep::Leave { thread } => CondState { waiters: s.waiters.remove(thread), ..s },
        CondStep::Lock { thread } => CondState { mutex_holder: Some(thread), ..s },
        CondStep::Unlock { thread } => CondState { mutex_holder: None, ..s },
        CondStep::NotifyOne { woken } => if s.waiters.len() > 0 {
            let missed_all = after_notification(s.waiters);
            CondState {
                counter: spec_bumped(s.counter),
                waiters: if missed_all.dom().contains(woken) && missed_all[woken] is Asleep {
                    missed_all.insert(woken, Waiter::Awake)
                } else {
                    missed_all
                },
                ..s
            }
        } else {
            s
        },
        CondStep::NotifyAll => if s.waiters.len() > 0 {
            CondState {
                counter: spec_bumped(s.counter),
                waiters: Map::new(
                    |t: int| s.waiters.dom().contains(t),
                    |t: int| woken_by_all(s.waiters[t]),
                ),
                ..s
            }
        } else {
            s
        },
    }
}

/// A bumped counter is one more, modulo `2^32`.
proof fn lemma_bumped_is_successor(counter: u32, sample: u32, since: nat)
    requires
        counter == (sample + since) % counter_modulus(),
    ensures
        spec_bumped(counter) == (sample + (since + 1)) % counter_modulus(),
{
    vstd::arithmetic::div_mod::lemma_add_mod_noop(sample + since, 1, counter_modulus());
}

/// A condition variable with nobody waiting satisfies the invariant.
pub proof fn lemma_cond_init(counter: u32)
    ensures
        cond_inv(cond_init(counter)),
{
}

/// Every enabled step keeps the invariant.
pub proof fn lemma_cond_step_keeps_inv(s: CondState, step: CondStep)
    requires
        cond_inv(s),
        cond_enabled(s, step),
    ensures
        cond_inv(cond_step(s, step)),
{
    let t2 = cond_step(s, step);
    match step {
        CondStep::Sample { thread } => {
            vstd::arithmetic::div_mod::lemma_small_mod(s.counter as nat, counter_modulus() as nat);
        },
        CondStep::NotifyOne { woken } => {
            if s.waiters.len() > 0 {
                assert forall|t: int|
                    #![trigger t2.waiters[t]]
                    t2.waiters.dom().contains(t) implies {
                    &&& (t2.waiters[t] matches Waiter::Sampled { sample, since } ==> t2.counter == (
                    sample + since) % counter_modulus())
                    &&& (t2.waiters[t] matches Waiter::Released { sample, since } ==> t2.counter
                        == (sample + since) % counter_modulus())
                    &&& holds_for_wait(t2.waiters[t]) ==> t2.mutex_holder == Some(t)
                    &&& released_for_wait(t2.waiters[t]) ==> t2.mutex_holder != Some(t)
                } by {
                    match s.waiters[t] {
                        Waiter::Sampled { sample, since } => {
                            lemma_bumped_is_successor(s.counter, sample, since);
                        },
                        Waiter::Released { sample, since } => {
                            lemma_bumped_is_successor(s.counter, sample, since);
                        },
                        _ => {},
                    }
                }
                assert(t2.waiters.dom() =~= s.waiters.dom());
            }
        },
        CondStep::NotifyAll => {
            if s.waiters.len() > 0 {
                assert forall|t: int|
                    #![trigger t2.waiters[t]]
                    t2.waiters.dom().contains(t) implies {
                    &&& (t2.waiters[t] matches Waiter::Sampled { sample, since } ==> t2.counter == (
                    sample + since) % counter_modulus())
                    &&& (t2.waiters[t] matches Waiter::Released { sample, since } ==> t2.counter
                        == (sample + since) % counter_modulus())
                    &&& holds_for_wait(t2.waiters[t]) ==> t2.mutex_holder == Some(t)
                    &&& released_for_wait(t2.waiters[t]) ==> t2.mutex_holder != Some(t)
                } by {
                    match s.waiters[t] {
                        Waiter::Sampled { sample, since } => {
                            lemma_bumped_is_successor(s.counter, sample, since);
                        },
                        Waiter::Released { sample, since } => {
                            lemma_bumped_is_successor(s.counter, sample, since);
                        },
                        _ => {},
                    }
                }
                assert(t2.waiters.dom() =~= s.waiters.dom());
            }
        },
        _ => {},
    }
}

/// The mutex is released before the sleep: a thread samples the counter
/// while it holds the mutex, and goes to sleep only from the released
/// phase, in which it does not hold the mutex.
pub proof fn lemma_cond_releases_before_sleep(s: CondState, step: CondStep)
    requires
        cond_inv(s),
        cond_enabled(s, step),
    ensures
        step matches CondStep::Sample { thread } ==> s.mutex_holder == Some(thread),
        step matches CondStep::Sleep { thread } ==> s.mutex_holder != Some(thread) && s.waiters[thread] is Released,
        step matches CondStep::Release { thread } ==> cond_step(s, step).mutex_holder is None
            && cond_step(s, step).waiters[thread] is Released,
        step matches CondStep::Sleep { thread } ==> !(cond_step(s, step).mutex_holder == Some(
            thread,
        )),
{
}

/// No notification is lost: a thread that was notified after it sampled
/// the counter (fewer than `2^32` times, so that the counter did not wrap
/// around to its sample) does not go to sleep. Since the sample is taken
/// while the thread still holds the mutex, this covers every notification
/// made after the thread released the mutex.
pub proof fn lemma_cond_notified_thread_does_not_sleep(s: CondState, thread: int)
    requires
        cond_inv(s),
        s.waiters.dom().contains(thread),
        s.waiters[thread] matches Waiter::Released { sample, since } && 1 <= since
            < counter_modulus(),
    ensures
        cond_step(s, CondStep::Sleep { thread }).waiters[thread] is Awake,
{
    if let Waiter::Released { sample, since } = s.waiters[thread] {
        assert(s.counter == (sample + since) % counter_modulus());
        if s.counter == sample {
            vstd::arithmetic::div_mod::lemma_small_mod(sample as nat, counter_modulus() as nat);
            assert(false) by (nonlinear_arith)
                requires
                    (sample + since) % counter_modulus() == sample,
                    1 <= since < counter_modulus(),
                    0 <= sample < counter_modulus(),
                    counter_modulus() == 0x1_0000_0000,
            ;
        }
    }
}

/// Every notification made while some thread is registered moves the
/// counter on; `notify_all` leaves no thread asleep, and `notify_one`
/// wakes the sleeper its wake reaches.
pub proof fn lemma_cond_notifications_act(s: CondState, woken: int)
    requires
        cond_inv(s),
        s.waiters.len() > 0,
    ensures
        cond_step(s, CondStep::NotifyAll).counter == spec_bumped(s.counter),
        cond_step(s, CondStep::NotifyOne { woken }).counter == spec_bumped(s.counter),
        forall|t: int|
            #![trigger cond_step(s, CondStep::NotifyAll).waiters[t]]
            cond_step(s, CondStep::NotifyAll).waiters.dom().contains(t) ==> !(cond_step(
                s,
                CondStep::NotifyAll,
            ).waiters[t] is Asleep),
        s.waiters.dom().contains(woken) && s.waiters[woken] is Asleep ==> cond_step(
            s,
            CondStep::NotifyOne { woken },
        ).waiters[woken] is Awake,
{
}

/// A registered thread makes the waiter count nonzero, so a notification
/// acts on its account.
pub proof fn lemma_cond_registered_is_counted(s: CondState, thread: int)
    requires
        cond_inv(s),
        s.waiters.dom().contains(thread),
    ensures
        s.waiters.len() > 0,
{
    vstd::set_lib::lemma_set_empty_equivalency_len(s.waiters.dom());
}

/// The state after the steps `steps`, taken in order from `s`.
pub open spec fn cond_run(s: CondState, steps: Seq<CondStep>) -> CondState
    decreases steps.len(),
{
    if steps.len() == 0 {
        s
    } else {
        cond_run(cond_step(s, steps[0]), steps.drop_first())
    }
}

/// Each of `steps`, taken in order from `s`, is enabled when it is taken.
pub open spec fn cond_run_enabled(s: CondState, steps: Seq<CondStep>) -> bool
    decreases steps.len(),
{
    steps.len() == 0 || (cond_enabled(s, steps[0]) && cond_run_enabled(
        cond_step(s, steps[0]),
        steps.drop_first(),
    ))
}

/// A run of enabled steps from a state satisfying the invariant (such as a
/// condition variable with nobody waiting, [`lemma_cond_init`]) ends in a
/// state satisfying it, whatever the interleaving of the steps.
pub proof fn lemma_cond_run_keeps_inv(s: CondState, steps: Seq<CondStep>)
    requires
        cond_inv(s),
        cond_run_enabled(s, steps),
    ensures
        cond_inv(cond_run(s, steps)),
    decreases steps.len(),
{
    if steps.len() > 0 {
        lemma_cond_step_keeps_inv(s, steps[0]);
        lemma_cond_run_keeps_inv(cond_step(s, steps[0]), steps.drop_first());
    }
}

/// A registered waiter makes every notification bump the counter, and a
/// bumped counter differs from the value the waiter sampled if the counter
/// still held it, so the waiter's sleep on that sample ends.
pub proof fn lemma_notification_reaches_waiter(waiters: usize, counter: u32, sample: u32)
    requires
        waiters >= 1,
        counter == sample,
    ensures
        spec_should_notify(waiters),
        spec_bumped(counter) != sample,
{
}

} // verus!
