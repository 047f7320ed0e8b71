//! A reader-writer lock whose state word counts the read locks, with
//! `u32::MAX` standing for the write lock.
//!
//! [`RwLock`] holds the state word and a counter that writers sleep on; each
//! attempt of the acquisition loops is one call
//! ([`RwLock::read_step`], [`RwLock::write_step`]). [`RwState`] and
//! [`rw_step`] describe the protocol as a state machine over the word, and
//! the laws below prove that a writer excludes every reader and every other
//! writer, for every interleaving of the threads' atomic steps.
//!
//! A writer that finds the lock held reads the wake counter first, then looks
//! at the state word again, and sleeps on the counter only while it still
//! holds the value read; every release that frees the lock bumps the counter
//! and wakes one writer. [`WriterWaitState`] and [`ww_step`] add the counter
//! and the writers' loops to the state machine, and the laws on them prove
//! that no wake-up is lost: a writer sleeps only while something will still
//! wake one.
use crate::effect::{
    cas_on, cas_weak_on, fetch_add_on, fetch_sub_on, load_on, store_on, wait_on, wake_all_on,
    wake_one_on, Cas, Load, Rmw, RmwOp, Store, Wait, Wake, WakeKind,
};
use std::sync::atomic::AtomicU32;
use std::sync::atomic::Ordering;
use vstd::prelude::*;

verus! {

/// The value of the state word while the lock is write-locked.
pub const WRITE_LOCKED: u32 = 0xffff_ffff;

/// The word a reader that observed `s` tries to install: one more reader.
pub open spec fn spec_read_target(s: u32) -> u32 {
    (s + 1) as u32
}

/// A reader that observed `0xffff_fffe` read locks would make the word
/// [`WRITE_LOCKED`]: the acquisition panics ("too many read") there.
pub open spec fn read_overflows(s: u32) -> bool {
    s == 0xffff_fffe
}

/// Tells whether a reader that observed `s` must panic with "too many
/// read".
pub fn read_would_overflow(s: u32) -> (r: bool)
    ensures
        r == read_overflows(s),
{
    s == 0xffff_fffe
}

/// Computes the word a reader that observed `s` tries to install.
pub fn read_target(s: u32) -> (t: u32)
    requires
        s < WRITE_LOCKED,
        !read_overflows(s),
    ensures
        t == spec_read_target(s),
{
    s + 1
}

/// Releasing a read lock from `prev == 1` frees the lock: a writer is woken.
pub open spec fn spec_read_release_wakes_writer(prev: u32) -> bool {
    prev == 1
}

/// Tells whether the release of a read lock that found `prev` in the word
/// must wake a waiting writer.
pub fn read_release_wakes_writer(prev: u32) -> (r: bool)
    ensures
        r == spec_read_release_wakes_writer(prev),
{
    prev == 1
}

/// The writer's exchange: from zero (no lock held) to [`WRITE_LOCKED`].
pub open spec fn spec_write_exchange() -> (u32, u32) {
    (0, WRITE_LOCKED)
}

/// Computes the writer's exchange.
pub fn write_exchange() -> (e: (u32, u32))
    ensures
        e == spec_write_exchange(),
{
    (0, WRITE_LOCKED)
}

/// A writer whose exchange failed sleeps on the wake counter when the state
/// word it reads after sampling the counter shows the lock held.
pub open spec fn spec_writer_must_sleep(s: u32) -> bool {
    s != 0
}

/// Tells whether a writer that reads `s` after sampling the counter sleeps.
pub fn writer_must_sleep(s: u32) -> (r: bool)
    ensures
        r == spec_writer_must_sleep(s),
{
    s != 0
}

/// The lock's two atomic words: the state word, and a counter that is
/// bumped whenever writers should look again.
pub struct RwLock {
    state: AtomicU32,
    writer_wake_counter: AtomicU32,
}

/// A held read lock of `rwlock`; [`ReadGuard::unlock`] releases it.
pub struct ReadGuard<'a> {
    rwlock: &'a RwLock,
}

/// A held write lock of `rwlock`; [`WriteGuard::unlock`] releases it.
pub struct WriteGuard<'a> {
    rwlock: &'a RwLock,
}

/// The outcome of one attempt to take a read lock.
pub enum ReadStep<'a> {
    /// The read lock is held.
    Acquired(ReadGuard<'a>),
    /// The attempt failed; the state word observed last.
    Retry(u32),
}

/// The outcome of one attempt to take the write lock.
pub enum WriteStep<'a> {
    /// The write lock is held.
    Acquired(WriteGuard<'a>),
    /// The attempt failed. After sampling the wake counter the writer read
    /// `state`, and `waited` tells whether it then waited on the counter.
    Retry { state: u32, waited: bool },
}

/// What releasing a read lock did: the subtraction from the state word,
/// and, when it freed the lock, the bump of the wake counter and the wake.
pub struct ReadRelease<'a> {
    pub release: Rmw<'a>,
    pub bump: Option<Rmw<'a>>,
    pub wake: Option<Wake<'a>>,
}

/// What releasing the write lock did: the store clearing the state word,
/// the bump of the wake counter, the wake of one writer on it, and the wake
/// of every thread waiting on the state word.
pub struct WriteRelease<'a> {
    pub clear: Store<'a>,
    pub bump: Rmw<'a>,
    pub wake_writer: Wake<'a>,
    pub wake_readers: Wake<'a>,
}

/// What one attempt to take a read lock did: its outcome; below
/// [`WRITE_LOCKED`] the exchange adding a reader, at [`WRITE_LOCKED`] the
/// wait on the state word and the load after it.
pub struct ReadAttempt<'a> {
    pub step: ReadStep<'a>,
    pub exchange: Option<Cas<'a>>,
    pub wait: Option<Wait<'a>>,
    pub reload: Option<Load<'a>>,
}

/// What one attempt to take the write lock did: its outcome, the exchange
/// of the state word, and, when that failed, the sample of the wake
/// counter, the look at the state word, and the wait on the counter if it
/// slept.
pub struct WriteAttempt<'a> {
    pub step: WriteStep<'a>,
    pub exchange: Cas<'a>,
    pub sample: Option<Load<'a>>,
    pub check: Option<Load<'a>>,
    pub wait: Option<Wait<'a>>,
}

/// A read attempt on `l` by a reader that observed `s`: below
/// [`WRITE_LOCKED`] it exchanges the state word from `s` to `s + 1` and
/// holds a read lock exactly when that took effect, retrying otherwise with
/// the word the exchange found; at [`WRITE_LOCKED`] it waits on the state
/// word while it holds [`WRITE_LOCKED`] and retries with the word it loads
/// afterwards.
pub open spec fn read_attempt_done(l: RwLock, s: u32, r: ReadAttempt) -> bool {
    if s < WRITE_LOCKED {
        &&& r.exchange matches Some(c) && *c.target == l.state_word() && c.expected == s
            && c.desired == spec_read_target(s)
        &&& r.exchange matches Some(c) && match c.outcome {
            Ok(_) => r.step is Acquired,
            Err(e) => r.step == ReadStep::<'_>::Retry(e),
        }
        &&& r.wait is None && r.reload is None
    } else {
        &&& r.exchange is None
        &&& r.wait matches Some(w) && *w.target == l.state_word() && w.value == WRITE_LOCKED
        &&& r.reload matches Some(v) && *v.target == l.state_word() && r.step
            == ReadStep::<'_>::Retry(v.value)
    }
}

/// A write attempt on `l`: it exchanges the state word from zero to
/// [`WRITE_LOCKED`] and holds the lock exactly when that took effect;
/// otherwise it loads the wake counter, then the state word, and waits on
/// the counter while it holds the value loaded exactly when the state word
/// read shows the lock held.
pub open spec fn write_attempt_done(l: RwLock, r: WriteAttempt) -> bool {
    &&& *r.exchange.target == l.state_word()
    &&& r.exchange.expected == spec_write_exchange().0
    &&& r.exchange.desired == spec_write_exchange().1
    &&& if r.exchange.outcome is Ok {
        r.step is Acquired && r.sample is None && r.check is None && r.wait is None
    } else {
        &&& r.sample matches Some(w) && *w.target == l.wake_counter()
        &&& r.check matches Some(c) && *c.target == l.state_word()
        &&& r.check matches Some(c) && r.step matches WriteStep::Retry { state, waited }
            && state == c.value && waited == spec_writer_must_sleep(c.value)
        &&& r.check matches Some(c) && if spec_writer_must_sleep(c.value) {
            r.wait matches Some(x) && r.sample matches Some(w) && *x.target == l.wake_counter()
                && x.value == w.value
        } else {
            r.wait is None
        }
    }
}

/// A read release of `l`: it subtracts one from the state word; exactly
/// when that word was one (the last reader leaves) it then adds one to the
/// wake counter and wakes one thread waiting on the counter.
pub open spec fn read_release_done(l: RwLock, r: ReadRelease) -> bool {
    &&& *r.release.target == l.state_word()
    &&& r.release.op == RmwOp::Sub && r.release.operand == 1
    &&& if spec_read_release_wakes_writer(r.release.prev) {
        &&& r.bump matches Some(b) && *b.target == l.wake_counter() && b.op == RmwOp::Add && b.operand == 1
        &&& r.wake matches Some(w) && *w.target == l.wake_counter() && w.kind == WakeKind::One
    } else {
        r.bump is None && r.wake is None
    }
}

/// A write release of `l`: it stores zero into the state word, adds one to
/// the wake counter, wakes one thread waiting on the counter, and wakes all
/// threads waiting on the state word.
pub open spec fn write_release_done(l: RwLock, r: WriteRelease) -> bool {
    &&& *r.clear.target == l.state_word() && r.clear.value == 0
    &&& *r.bump.target == l.wake_counter() && r.bump.op == RmwOp::Add && r.bump.operand == 1
    &&& *r.wake_writer.target == l.wake_counter() && r.wake_writer.kind == WakeKind::One
    &&& *r.wake_readers.target == l.state_word() && r.wake_readers.kind == WakeKind::All
}

impl<'a> ReadGuard<'a> {
    /// The lock this guard holds a read lock of.
    pub closed spec fn rwlock(&self) -> RwLock {
        *self.rwlock
    }

    /// Releases the read lock; the last reader to leave bumps the wake
    /// counter and wakes a writer.
    pub fn unlock(self) -> (r: ReadRelease<'a>)
        ensures
            read_release_done(self.rwlock(), r),
    {
        let release = fetch_sub_on(&self.rwlock.state, 1, Ordering::Release);
        if read_release_wakes_writer(release.prev) {
            let bump = fetch_add_on(&self.rwlock.writer_wake_counter, 1, Ordering::Release);
            let wake = wake_one_on(&self.rwlock.writer_wake_counter);
            ReadRelease { release, bump: Some(bump), wake: Some(wake) }
        } else {
            ReadRelease { release, bump: None, wake: None }
        }
    }
}

impl<'a> WriteGuard<'a> {
    /// The lock this guard holds the write lock of.
    pub closed spec fn rwlock(&self) -> RwLock {
        *self.rwlock
    }

    /// Releases the write lock: clears the word, then bumps the wake
    /// counter, wakes one waiting writer and every thread waiting on the
    /// word.
    pub fn unlock(self) -> (r: WriteRelease<'a>)
        ensures
            write_release_done(self.rwlock(), r),
    {
        let clear = store_on(&self.rwlock.state, 0, Ordering::Release);
        let bump = fetch_add_on(&self.rwlock.writer_wake_counter, 1, Ordering::Release);
        let wake_writer = wake_one_on(&self.rwlock.writer_wake_counter);
        let wake_readers = wake_all_on(&self.rwlock.state);
        WriteRelease { clear, bump, wake_writer, wake_readers }
    }
}

impl RwLock {
    /// The state word.
    pub closed spec fn state_word(&self) -> AtomicU32 {
        self.state
    }

    /// The counter that writers sleep on.
    pub closed spec fn wake_counter(&self) -> AtomicU32 {
        self.writer_wake_counter
    }

    /// An unlocked lock: both words zero.
    pub fn new() -> Self {
        RwLock { state: AtomicU32::new(0), writer_wake_counter: AtomicU32::new(0) }
    }

    /// Reads the state word, as a reader does first.
    pub fn load_state(&self) -> u32 {
        self.state.load(Ordering::Relaxed)
    }

    /// One attempt to take a read lock, by a reader that last observed `s`:
    /// below [`WRITE_LOCKED`], a compare-and-exchange adding one reader;
    /// at [`WRITE_LOCKED`], a sleep while the writer holds the lock and a new
    /// look. A read lock is only ever taken from an observed word below
    /// [`WRITE_LOCKED`].
    pub fn read_step(&self, s: u32) -> (r: ReadStep<'_>)
        requires
            !read_overflows(s),
        ensures
            r matches ReadStep::Acquired(g) ==> g.rwlock() == *self && s < WRITE_LOCKED,
    {
        self.read_attempt(s).step
    }

    /// The attempt of [`RwLock::read_step`], together with the operations it
    /// performed.
    pub fn read_attempt(&self, s: u32) -> (r: ReadAttempt<'_>)
        requires
            !read_overflows(s),
        ensures
            read_attempt_done(*self, s, r),
            r.step matches ReadStep::Acquired(g) ==> g.rwlock() == *self,
    {
        if s < WRITE_LOCKED {
            let desired = read_target(s);
            let c = cas_weak_on(&self.state, s, desired, Ordering::Acquire, Ordering::Relaxed);
            let step = match c.outcome {
                Ok(_) => ReadStep::Acquired(ReadGuard { rwlock: self }),
                Err(e) => ReadStep::Retry(e),
            };
            ReadAttempt { step, exchange: Some(c), wait: None, reload: None }
        } else {
            let wait = wait_on(&self.state, WRITE_LOCKED);
            let reload = load_on(&self.state, Ordering::Relaxed);
            ReadAttempt {
                step: ReadStep::Retry(reload.value),
                exchange: None,
                wait: Some(wait),
                reload: Some(reload),
            }
        }
    }

    /// One attempt to take the write lock: the exchange of
    /// [`spec_write_exchange`], from zero (no lock held) to
    /// [`WRITE_LOCKED`]; when it fails, the writer samples the wake counter,
    /// reads the state word, and waits on the counter (while it still holds
    /// the sample) exactly when [`spec_writer_must_sleep`] holds of the word
    /// read.
    pub fn write_step(&self) -> (r: WriteStep<'_>)
        ensures
            r matches WriteStep::Acquired(g) ==> g.rwlock() == *self,
            r matches WriteStep::Retry { state, waited } ==> waited == spec_writer_must_sleep(
                state,
            ),
    {
        self.write_attempt().step
    }

    /// The attempt of [`RwLock::write_step`], together with the operations
    /// it performed.
    pub fn write_attempt(&self) -> (r: WriteAttempt<'_>)
        ensures
            write_attempt_done(*self, r),
            r.step matches WriteStep::Acquired(g) ==> g.rwlock() == *self,
    {
        let (free, locked) = write_exchange();
        let exchange = cas_on(&self.state, free, locked, Ordering::Acquire, Ordering::Relaxed);
        match exchange.outcome {
            Ok(_) => WriteAttempt {
                step: WriteStep::Acquired(WriteGuard { rwlock: self }),
                exchange,
                sample: None,
                check: None,
                wait: None,
            },
            Err(_) => {
                let sample = load_on(&self.writer_wake_counter, Ordering::Acquire);
                let check = load_on(&self.state, Ordering::Relaxed);
                let waited = writer_must_sleep(check.value);
                let wait = if waited {
                    Some(wait_on(&self.writer_wake_counter, sample.value))
                } else {
                    None
                };
                WriteAttempt {
                    step: WriteStep::Retry { state: check.value, waited },
                    exchange,
                    sample: Some(sample),
                    check: Some(check),
                    wait,
                }
            },
        }
    }
}

// What the lock operations do to the two words.

/// A reader takes a read lock only from an observed word below
/// [`WRITE_LOCKED`], by an exchange of the state word from that word to one
/// more reader that took effect; at [`WRITE_LOCKED`] it does not touch the
/// word but sleeps on it while the writer holds the lock.
pub proof fn lemma_read_attempt_adds_one_reader(l: RwLock, s: u32, r: ReadAttempt)
    requires
        read_attempt_done(l, s, r),
    ensures
        r.step is Acquired ==> s < WRITE_LOCKED && (r.exchange matches Some(c) && *c.target
            == l.state_word() && c.expected == s && c.desired == s + 1 && c.outcome is Ok),
        s == WRITE_LOCKED ==> r.exchange is None && r.step is Retry && (r.wait matches Some(w)
            && *w.target == l.state_word() && w.value == WRITE_LOCKED),
{
}

/// A writer takes the lock only by an exchange of the state word from zero
/// to [`WRITE_LOCKED`] that took effect. When the exchange fails it reads
/// the wake counter before it looks at the state word again, and it sleeps
/// only if that look shows the lock held, and then only while the counter
/// still holds the value read before the look, so that a wake sent after
/// the look is not lost.
pub proof fn lemma_write_attempt_samples_before_sleeping(l: RwLock, r: WriteAttempt)
    requires
        write_attempt_done(l, r),
    ensures
        *r.exchange.target == l.state_word() && r.exchange.expected == 0 && r.exchange.desired
            == WRITE_LOCKED,
        r.step is Acquired <==> r.exchange.outcome is Ok,
        r.wait is Some ==> (r.check matches Some(c) && *c.target == l.state_word() && c.value
            != 0),
        r.wait is Some ==> (r.wait matches Some(x) && r.sample matches Some(w) && *x.target
            == l.wake_counter() && *w.target == l.wake_counter() && x.value == w.value),
        (r.check matches Some(c) && c.value != 0) ==> r.wait is Some,
{
}

/// The last reader to leave (it found the word at one) frees the lock, adds
/// one to the wake counter, so that a writer that sampled the counter
/// before does not go to sleep, and wakes one thread sleeping on the
/// counter. Any other read release leaves the counter alone and wakes
/// nobody.
pub proof fn lemma_read_release_wakes_writer(l: RwLock, r: ReadRelease)
    requires
        read_release_done(l, r),
    ensures
        *r.release.target == l.state_word() && r.release.op == RmwOp::Sub && r.release.operand == 1,
        r.release.prev == 1 ==> (r.bump matches Some(b) && *b.target == l.wake_counter()
            && b.op == RmwOp::Add && b.operand == 1),
        r.release.prev == 1 ==> (r.wake matches Some(w) && *w.target == l.wake_counter()
            && w.kind == WakeKind::One),
        r.release.prev != 1 ==> r.bump is None && r.wake is None,
{
}

/// Releasing the write lock frees it (the state word becomes zero, so no
/// reader keeps sleeping on [`WRITE_LOCKED`]), wakes every thread sleeping
/// on the state word, adds one to the wake counter and wakes one writer
/// sleeping on it.
pub proof fn lemma_write_release_wakes_everyone(l: RwLock, r: WriteRelease)
    requires
        write_release_done(l, r),
    ensures
        *r.clear.target == l.state_word() && r.clear.value == 0 && r.clear.value != WRITE_LOCKED,
        *r.wake_readers.target == l.state_word() && r.wake_readers.kind == WakeKind::All,
        *r.bump.target == l.wake_counter() && r.bump.op == RmwOp::Add && r.bump.operand == 1,
        *r.wake_writer.target == l.wake_counter() && r.wake_writer.kind == WakeKind::One,
{
}

// The protocol as a state machine over the state word.

/// The state word together with what it stands for: the read locks held and
/// the thread holding the write lock, if any.
pub ghost struct RwState {
    pub word: u32,
    pub readers: nat,
    pub writer: Option<int>,
}

/// The atomic steps that change the state word; loads and sleeps change
/// nothing and are left out.
pub ghost enum RwStep {
    /// A reader's compare-and-exchange from the value it observed.
    ReadAcquire { observed: u32 },
    /// A read guard's release.
    ReadRelease,
    /// A writer's compare-and-exchange from zero, by thread `thread`.
    WriteAcquire { thread: int },
    /// The write guard's release.
    WriteRelease,
}

/// The unlocked lock.
pub open spec fn rw_init() -> RwState {
    RwState { word: 0, readers: 0, writer: None }
}

/// The word stands for the locks held: [`WRITE_LOCKED`] exactly while a
/// writer holds the lock (and then no reader does); otherwise it counts the
/// read locks.
pub open spec fn rw_inv(s: RwState) -> bool {
    if s.word == WRITE_LOCKED {
        s.writer is Some && s.readers == 0
    } else {
        s.writer is None && s.readers == s.word
    }
}

/// When a thread can take a step: a reader exchanges only from an observed
/// word below [`WRITE_LOCKED`] that does not overflow; a release only by a
/// holder.
pub open spec fn rw_enabled(s: RwState, step: RwStep) -> bool {
    match step {
        RwStep::ReadAcquire { observed } => observed < WRITE_LOCKED && !read_overflows(observed),
        RwStep::ReadRelease => s.readers > 0,
        RwStep::WriteAcquire { thread } => true,
        RwStep::WriteRelease => s.writer is Some,
    }
}

/// Whether the step hands out a read lock.
pub open spec fn grants_read(s: RwState, step: RwStep) -> bool {
    match step {
        RwStep::ReadAcquire { observed } => s.word == observed,
        _ => false,
    }
}

/// Whether the step hands out the write lock.
pub open spec fn grants_write(s: RwState, step: RwStep) -> bool {
    match step {
        RwStep::WriteAcquire { thread } => s.word == spec_write_exchange().0,
        _ => false,
    }
}

/// The effect of one step; a compare-and-exchange that does not meet the
/// word it expected changes nothing.
pub open spec fn rw_step(s: RwState, step: RwStep) -> RwState {
    match step {
        RwStep::ReadAcquire { observed } => {
            if s.word == observed {
                RwState { word: spec_read_target(observed), readers: s.readers + 1, ..s }
            } else {
                s
            }
        },
        RwStep::ReadRelease => RwState {
            word: (s.word - 1) as u32,
            readers: (s.readers - 1) as nat,
            ..s
        },
        RwStep::WriteAcquire { thread } => {
            if s.word == spec_write_exchange().0 {
                RwState { word: spec_write_exchange().1, writer: Some(thread), ..s }
            } else {
                s
            }
        },
        RwStep::WriteRelease => RwState { word: 0, writer: None, ..s },
    }
}

/// The unlocked lock satisfies the invariant.
pub proof fn lemma_rw_init()
    ensures
        rw_inv(rw_init()),
{
}

/// Every enabled step keeps the invariant.
pub proof fn lemma_rw_step_keeps_inv(s: RwState, step: RwStep)
    requires
        rw_inv(s),
        rw_enabled(s, step),
    ensures
        rw_inv(rw_step(s, step)),
{
}

/// Mutual exclusion: the write lock is only handed out while no thread holds
/// the lock, and a read lock only while no writer holds it.
pub proof fn lemma_rw_exclusion(s: RwState, step: RwStep)
    requires
        rw_inv(s),
        rw_enabled(s, step),
    ensures
        grants_write(s, step) ==> s.writer is None && s.readers == 0,
        grants_read(s, step) ==> s.writer is None,
        grants_write(s, step) ==> rw_step(s, step).writer == Some(step->thread),
        grants_read(s, step) ==> rw_step(s, step).readers == s.readers + 1,
{
}

/// Taking a read lock and releasing it again restores the word.
pub proof fn lemma_rw_read_round_trip(s: RwState)
    requires
        rw_inv(s),
        rw_enabled(s, RwStep::ReadAcquire { observed: s.word }),
    ensures
        rw_step(rw_step(s, RwStep::ReadAcquire { observed: s.word }), RwStep::ReadRelease) == s,
{
}

/// The last reader to leave frees the lock and wakes a writer.
pub proof fn lemma_rw_last_reader_wakes_writer(s: RwState)
    requires
        rw_inv(s),
        s.readers == 1,
    ensures
        spec_read_release_wakes_writer(s.word),
        rw_step(s, RwStep::ReadRelease) == rw_init(),
{
}

/// Releasing the write lock leaves the lock free.
pub proof fn lemma_rw_write_release_frees(s: RwState)
    requires
        rw_inv(s),
        s.writer is Some,
    ensures
        rw_step(s, RwStep::WriteRelease) == rw_init(),
{
}

/// The state after the steps `steps`, taken in order from `s`.
pub open spec fn rw_run(s: RwState, steps: Seq<RwStep>) -> RwState
    decreases steps.len(),
{
    if steps.len() == 0 {
        s
    } else {
        rw_run(rw_step(s, steps[0]), steps.drop_first())
    }
}

/// Each of `steps`, taken in order from `s`, is enabled when it is taken.
pub open spec fn rw_run_enabled(s: RwState, steps: Seq<RwStep>) -> bool
    decreases steps.len(),
{
    steps.len() == 0 || (rw_enabled(s, steps[0]) && rw_run_enabled(
        rw_step(s, steps[0]),
        steps.drop_first(),
    ))
}

/// A run of enabled steps from a state satisfying the invariant ends in a
/// state satisfying it.
pub proof fn lemma_rw_run_keeps_inv(s: RwState, steps: Seq<RwStep>)
    requires
        rw_inv(s),
        rw_run_enabled(s, steps),
    ensures
        rw_inv(rw_run(s, steps)),
    decreases steps.len(),
{
    if steps.len() > 0 {
        lemma_rw_step_keeps_inv(s, steps[0]);
        lemma_rw_run_keeps_inv(rw_step(s, steps[0]), steps.drop_first());
    }
}

/// Mutual exclusion in every reachable state: whatever the interleaving of
/// the threads' steps from the unlocked lock, a writer never holds the lock
/// together with a reader, and the word always counts the readers or marks
/// the writer.
pub proof fn lemma_rw_reachable_exclusion(steps: Seq<RwStep>)
    requires
        rw_run_enabled(rw_init(), steps),
    ensures
        rw_inv(rw_run(rw_init(), steps)),
        rw_run(rw_init(), steps).writer is Some ==> rw_run(rw_init(), steps).readers == 0,
{
    lemma_rw_run_keeps_inv(rw_init(), steps);
}

// A writer's wait on the wake counter.

/// Where a writer thread is in its acquisition loop.
pub ghost enum WriterPhase {
    /// About to try the compare-and-exchange from zero.
    Trying,
    /// Its compare-and-exchange failed; it is about to read the wake counter.
    Failed,
    /// It read `sample` from the wake counter; the counter has been bumped
    /// `bumps` times since.
    Sampled { sample: u32, bumps: nat },
    /// After sampling, it found the lock still held; it is about to sleep on
    /// the counter while the counter still holds `sample`.
    Checked { sample: u32, bumps: nat },
    /// Asleep on the wake counter.
    Asleep,
    /// Holds the write lock.
    Holding,
}

/// The lock, its wake counter and the writers taking the lock. `unbumped`
/// counts the releases that freed the lock and have yet to bump the counter;
/// `unwoken` those that bumped it and have yet to wake a writer.
pub ghost struct WriterWaitState {
    pub lock: RwState,
    pub counter: u32,
    pub writers: Map<int, WriterPhase>,
    pub unbumped: nat,
    pub unwoken: nat,
}

/// The atomic steps of readers, writers and releases, with the writers' loads
/// and futex waits.
pub ghost enum WriterWaitStep {
    /// A reader's compare-and-exchange from the value it observed.
    ReadAcquire { observed: u32 },
    /// A read guard's release; the last reader frees the lock.
    ReadRelease,
    /// Thread `thread` starts taking the write lock.
    Arrive { thread: int },
    /// The writer's compare-and-exchange from zero.
    Try { thread: int },
    /// The writer reads the wake counter.
    Sample { thread: int },
    /// The writer reads the state word again.
    Check { thread: int },
    /// The writer's wait on the counter: it sleeps only while the counter
    /// still holds its sample, and otherwise returns at once.
    Sleep { thread: int },
    /// A sleeping writer returns from its wait without a wake.
    SpuriousWake { thread: int },
    /// The holder of the write lock releases it.
    WriteRelease { thread: int },
    /// A release that freed the lock bumps the wake counter.
    Bump,
    /// A release that bumped the counter wakes one sleeping writer, if any.
    Wake { woken: Option<int> },
}

/// The wake counter after one wrapping increment.
pub open spec fn counter_bumped(c: u32) -> u32 {
    if c == 0xffff_ffff {
        0
    } else {
        (c + 1) as u32
    }
}

/// A phase after one bump of the counter.
pub open spec fn phase_bumped(p: WriterPhase) -> WriterPhase {
    match p {
        WriterPhase::Sampled { sample, bumps } => WriterPhase::Sampled { sample, bumps: bumps + 1 },
        WriterPhase::Checked { sample, bumps } => WriterPhase::Checked { sample, bumps: bumps + 1 },
        _ => p,
    }
}

/// Thread `t` is a writer asleep on the counter.
pub open spec fn is_asleep(s: WriterWaitState, t: int) -> bool {
    s.writers.dom().contains(t) && s.writers[t] is Asleep
}

/// Thread `t` is a writer still running its loop: it will try again, sample,
/// check or decide whether to sleep.
pub open spec fn is_active(s: WriterWaitState, t: int) -> bool {
    &&& s.writers.dom().contains(t)
    &&& !(s.writers[t] is Asleep)
    &&& !(s.writers[t] is Holding)
}

/// Some writer is asleep.
pub open spec fn some_asleep(s: WriterWaitState) -> bool {
    exists|t: int| is_asleep(s, t)
}

/// Some writer is still running its loop.
pub open spec fn some_active(s: WriterWaitState) -> bool {
    exists|t: int| is_active(s, t)
}

/// Something will still wake a writer or take the lock: the lock is held (its
/// release frees it), a release has yet to bump the counter or to wake a
/// writer, or a writer is still running its loop.
pub open spec fn wake_pending(s: WriterWaitState) -> bool {
    ||| s.lock.word != 0
    ||| s.unbumped > 0
    ||| s.unwoken > 0
    ||| some_active(s)
}

/// The unlocked lock, with no writer and a zero counter.
pub open spec fn ww_init() -> WriterWaitState {
    WriterWaitState {
        lock: rw_init(),
        counter: 0,
        writers: Map::empty(),
        unbumped: 0,
        unwoken: 0,
    }
}

/// What holds of writer `t`'s phase: a sample differs from the counter by the
/// bumps since; a writer that found the lock held after sampling, with no bump
/// since, sees the lock still held or its freeing release not yet bumped; the
/// holder is the lock's writer.
pub open spec fn phase_ok(s: WriterWaitState, t: int) -> bool {
    match s.writers[t] {
        WriterPhase::Sampled { sample, bumps } => s.counter as int == (sample + bumps) % 0x1_0000_0000,
        WriterPhase::Checked { sample, bumps } => {
            &&& s.counter as int == (sample + bumps) % 0x1_0000_0000
            &&& bumps == 0 ==> s.lock.word != 0 || s.unbumped > 0
        },
        WriterPhase::Holding => s.lock.writer == Some(t),
        _ => true,
    }
}

/// The invariant: the word stands for the locks held, the lock's writer is a
/// holding writer, every phase is consistent, and while a writer sleeps
/// something will still wake one.
pub open spec fn ww_inv(s: WriterWaitState) -> bool {
    &&& rw_inv(s.lock)
    &&& s.lock.writer matches Some(t) ==> s.writers.dom().contains(t) && s.writers[t] is Holding
    &&& forall|t: int| #[trigger] s.writers.dom().contains(t) ==> phase_ok(s, t)
    &&& some_asleep(s) ==> wake_pending(s)
}

/// No writer that found the lock held has seen the counter wrap around to its
/// sample: fewer than `2^32` bumps since its sample.
pub open spec fn ww_no_wrap(s: WriterWaitState) -> bool {
    forall|t: int|
        #[trigger] s.writers.dom().contains(t) ==> (s.writers[t] matches WriterPhase::Checked {
            bumps,
            ..
        } ==> bumps < 0x1_0000_0000)
}

/// When a thread can take a step.
pub open spec fn ww_enabled(s: WriterWaitState, step: WriterWaitStep) -> bool {
    match step {
        WriterWaitStep::ReadAcquire { observed } => rw_enabled(
            s.lock,
            RwStep::ReadAcquire { observed },
        ),
        WriterWaitStep::ReadRelease => rw_enabled(s.lock, RwStep::ReadRelease),
        WriterWaitStep::Arrive { thread } => !s.writers.dom().contains(thread),
        WriterWaitStep::Try { thread } => s.writers.dom().contains(thread)
            && s.writers[thread] is Trying,
        WriterWaitStep::Sample { thread } => s.writers.dom().contains(thread)
            && s.writers[thread] is Failed,
        WriterWaitStep::Check { thread } => s.writers.dom().contains(thread)
            && s.writers[thread] is Sampled,
        WriterWaitStep::Sleep { thread } => s.writers.dom().contains(thread)
            && s.writers[thread] is Checked,
        WriterWaitStep::SpuriousWake { thread } => is_asleep(s, thread),
        WriterWaitStep::WriteRelease { thread } => s.writers.dom().contains(thread)
            && s.writers[thread] is Holding,
        WriterWaitStep::Bump => s.unbumped > 0,
        WriterWaitStep::Wake { woken } => s.unwoken > 0 && match woken {
            Some(t) => is_asleep(s, t),
            None => !some_asleep(s),
        },
    }
}

/// The effect of one step.
pub open spec fn ww_step(s: WriterWaitState, step: WriterWaitStep) -> WriterWaitState {
    match step {
        WriterWaitStep::ReadAcquire { observed } => WriterWaitState {
            lock: rw_step(s.lock, RwStep::ReadAcquire { observed }),
            ..s
        },
        WriterWaitStep::ReadRelease => WriterWaitState {
            lock: rw_step(s.lock, RwStep::ReadRelease),
            unbumped: if spec_read_release_wakes_writer(s.lock.word) {
                s.unbumped + 1
            } else {
                s.unbumped
            },
            ..s
        },
        WriterWaitStep::Arrive { thread } => WriterWaitState {
            writers: s.writers.insert(thread, WriterPhase::Trying),
            ..s
        },
        WriterWaitStep::Try { thread } => {
            if s.lock.word == spec_write_exchange().0 {
                WriterWaitState {
                    lock: rw_step(s.lock, RwStep::WriteAcquire { thread }),
                    writers: s.writers.insert(thread, WriterPhase::Holding),
                    ..s
                }
            } else {
                WriterWaitState { writers: s.writers.insert(thread, WriterPhase::Failed), ..s }
            }
        },
        WriterWaitStep::Sample { thread } => WriterWaitState {
            writers: s.writers.insert(thread, WriterPhase::Sampled { sample: s.counter, bumps: 0 }),
            ..s
        },
        WriterWaitStep::Check { thread } => match s.writers[thread] {
            WriterPhase::Sampled { sample, bumps } => WriterWaitState {
                writers: s.writers.insert(
                    thread,
                    if spec_writer_must_sleep(s.lock.word) {
                        WriterPhase::Checked { sample, bumps }
                    } else {
                        WriterPhase::Trying
                    },
                ),
                ..s
            },
            _ => s,
        },
        WriterWaitStep::Sleep { thread } => match s.writers[thread] {
            WriterPhase::Checked { sample, bumps } => WriterWaitState {
                writers: s.writers.insert(
                    thread,
                    if s.counter == sample {
                        WriterPhase::Asleep
                    } else {
                        WriterPhase::Trying
                    },
                ),
                ..s
            },
            _ => s,
        },
        WriterWaitStep::SpuriousWake { thread } => WriterWaitState {
            writers: s.writers.insert(thread, WriterPhase::Trying),
            ..s
        },
        WriterWaitStep::WriteRelease { thread } => WriterWaitState {
            lock: rw_step(s.lock, RwStep::WriteRelease),
            writers: s.writers.remove(thread),
            unbumped: s.unbumped + 1,
            ..s
        },
        WriterWaitStep::Bump => WriterWaitState {
            counter: counter_bumped(s.counter),
            writers: s.writers.map_values(|p: WriterPhase| phase_bumped(p)),
            unbumped: (s.unbumped - 1) as nat,
            unwoken: s.unwoken + 1,
            ..s
        },
        WriterWaitStep::Wake { woken } => WriterWaitState {
            writers: match woken {
                Some(t) => s.writers.insert(t, WriterPhase::Trying),
                None => s.writers,
            },
            unwoken: (s.unwoken - 1) as nat,
            ..s
        },
    }
}

/// One wrapping increment of a counter that tracks `x` modulo `2^32` tracks
/// `x + 1`.
pub(crate) proof fn lemma_counter_bumped_tracks(c: u32, x: int)
    requires
        x >= 0,
        c as int == x % 0x1_0000_0000,
    ensures
        counter_bumped(c) as int == (x + 1) % 0x1_0000_0000,
{
}

/// A counter that tracks `sample + bumps`, with fewer than `2^32` bumps,
/// holds `sample` again only if there was no bump.
pub(crate) proof fn lemma_counter_back_at_sample(c: u32, sample: u32, bumps: nat)
    requires
        c as int == (sample + bumps) % 0x1_0000_0000,
        bumps < 0x1_0000_0000,
        c == sample,
    ensures
        bumps == 0,
{
}

/// The unlocked lock with no writer satisfies the invariant.
pub proof fn lemma_ww_init()
    ensures
        ww_inv(ww_init()),
{
    assert(!some_asleep(ww_init()));
}

/// Every enabled step keeps the invariant, as long as no writer that found
/// the lock held has seen `2^32` bumps of the counter since its sample.
pub proof fn lemma_ww_step_keeps_inv(s: WriterWaitState, step: WriterWaitStep)
    requires
        ww_inv(s),
        ww_no_wrap(s),
        ww_enabled(s, step),
    ensures
        ww_inv(ww_step(s, step)),
{
    let s2 = ww_step(s, step);
    match step {
        WriterWaitStep::ReadAcquire { observed } => {
            lemma_rw_step_keeps_inv(s.lock, RwStep::ReadAcquire { observed });
            assert forall|t: int| #[trigger] s2.writers.dom().contains(t) implies phase_ok(s2, t) by {
                assert(phase_ok(s, t));
            }
            lemma_ww_asleep_pending_kept(s, s2);
        },
        WriterWaitStep::ReadRelease => {
            lemma_rw_step_keeps_inv(s.lock, RwStep::ReadRelease);
            assert forall|t: int| #[trigger] s2.writers.dom().contains(t) implies phase_ok(s2, t) by {
                assert(phase_ok(s, t));
            }
            lemma_ww_asleep_pending_kept(s, s2);
        },
        WriterWaitStep::Arrive { thread } => {
            assert forall|t: int| #[trigger] s2.writers.dom().contains(t) implies phase_ok(s2, t) by {
                if t != thread {
                    assert(phase_ok(s, t));
                }
            }
            if some_asleep(s2) {
                assert(is_active(s2, thread));
            }
        },
        WriterWaitStep::Try { thread } => {
            lemma_rw_step_keeps_inv(s.lock, RwStep::WriteAcquire { thread });
            assert forall|t: int| #[trigger] s2.writers.dom().contains(t) implies phase_ok(s2, t) by {
                if t != thread {
                    assert(phase_ok(s, t));
                }
            }
            if some_asleep(s2) {
                if s.lock.word != 0 {
                    assert(is_active(s2, thread));
                }
            }
        },
        WriterWaitStep::Sample { thread } => {
            assert forall|t: int| #[trigger] s2.writers.dom().contains(t) implies phase_ok(s2, t) by {
                if t != thread {
                    assert(phase_ok(s, t));
                }
            }
            if some_asleep(s2) {
                assert(is_active(s2, thread));
            }
        },
        WriterWaitStep::Check { thread } => {
            assert(phase_ok(s, thread));
            assert forall|t: int| #[trigger] s2.writers.dom().contains(t) implies phase_ok(s2, t) by {
                if t != thread {
                    assert(phase_ok(s, t));
                }
            }
            if some_asleep(s2) {
                assert(is_active(s2, thread));
            }
        },
        WriterWaitStep::Sleep { thread } => {
            assert(phase_ok(s, thread));
            assert forall|t: int| #[trigger] s2.writers.dom().contains(t) implies phase_ok(s2, t) by {
                if t != thread {
                    assert(phase_ok(s, t));
                }
            }
            if let WriterPhase::Checked { sample, bumps } = s.writers[thread] {
                if s.counter == sample {
                    assert(s.writers.dom().contains(thread));
                    lemma_counter_back_at_sample(s.counter, sample, bumps);
                } else {
                    if some_asleep(s2) {
                        assert(is_active(s2, thread));
                    }
                }
            }
        },
        WriterWaitStep::SpuriousWake { thread } => {
            assert forall|t: int| #[trigger] s2.writers.dom().contains(t) implies phase_ok(s2, t) by {
                if t != thread {
                    assert(phase_ok(s, t));
                }
            }
            assert(is_active(s2, thread));
        },
        WriterWaitStep::WriteRelease { thread } => {
            assert(phase_ok(s, thread));
            lemma_rw_step_keeps_inv(s.lock, RwStep::WriteRelease);
            assert forall|t: int| #[trigger] s2.writers.dom().contains(t) implies phase_ok(s2, t) by {
                assert(phase_ok(s, t));
            }
        },
        WriterWaitStep::Bump => {
            assert forall|t: int| #[trigger] s2.writers.dom().contains(t) implies phase_ok(s2, t) by {
                assert(phase_ok(s, t));
                match s.writers[t] {
                    WriterPhase::Sampled { sample, bumps } => {
                        lemma_counter_bumped_tracks(s.counter, sample + bumps);
                    },
                    WriterPhase::Checked { sample, bumps } => {
                        lemma_counter_bumped_tracks(s.counter, sample + bumps);
                    },
                    _ => {},
                }
            }
            if some_asleep(s2) {
                assert(s2.unwoken > 0);
            }
        },
        WriterWaitStep::Wake { woken } => {
            assert forall|t: int| #[trigger] s2.writers.dom().contains(t) implies phase_ok(s2, t) by {
                assert(phase_ok(s, t));
            }
            match woken {
                Some(w) => {
                    assert(is_active(s2, w));
                },
                None => {
                    if some_asleep(s2) {
                        let t = choose|t: int| is_asleep(s2, t);
                        assert(is_asleep(s, t));
                    }
                },
            }
        },
    }
}

/// A step that leaves the writers alone and frees the lock only together with
/// a pending bump keeps "something will wake a sleeping writer".
proof fn lemma_ww_asleep_pending_kept(s: WriterWaitState, s2: WriterWaitState)
    requires
        some_asleep(s) ==> wake_pending(s),
        s2.writers == s.writers,
        s2.unwoken == s.unwoken,
        s2.unbumped >= s.unbumped,
        s2.lock.word == 0 ==> s.lock.word == 0 || s2.unbumped > s.unbumped,
    ensures
        some_asleep(s2) ==> wake_pending(s2),
{
    if some_asleep(s2) {
        let t = choose|t: int| is_asleep(s2, t);
        assert(is_asleep(s, t));
        if some_active(s) {
            let a = choose|a: int| is_active(s, a);
            assert(is_active(s2, a));
        }
    }
}

/// The writer reads the wake counter before it looks at the state word again,
/// so a wake that comes after that look is not lost: a writer goes to sleep
/// only if the counter was not bumped since its sample, and then the lock is
/// still held, or the release that freed it has yet to bump the counter (and
/// so to wake a writer, after this one sleeps).
pub proof fn lemma_ww_sleeps_only_unwoken(s: WriterWaitState, thread: int)
    requires
        ww_inv(s),
        ww_no_wrap(s),
        ww_enabled(s, WriterWaitStep::Sleep { thread }),
        is_asleep(ww_step(s, WriterWaitStep::Sleep { thread }), thread),
    ensures
        s.writers[thread] matches WriterPhase::Checked { sample, bumps } && bumps == 0
            && s.counter == sample,
        s.lock.word != 0 || s.unbumped > 0,
{
    assert(phase_ok(s, thread));
    if let WriterPhase::Checked { sample, bumps } = s.writers[thread] {
        lemma_counter_back_at_sample(s.counter, sample, bumps);
    }
}

/// The state after the steps `steps`, taken in order from `s`.
pub open spec fn ww_run(s: WriterWaitState, steps: Seq<WriterWaitStep>) -> WriterWaitState
    decreases steps.len(),
{
    if steps.len() == 0 {
        s
    } else {
        ww_run(ww_step(s, steps[0]), steps.drop_first())
    }
}

/// Each of `steps`, taken in order from `s`, is enabled when it is taken.
pub open spec fn ww_run_enabled(s: WriterWaitState, steps: Seq<WriterWaitStep>) -> bool
    decreases steps.len(),
{
    steps.len() == 0 || (ww_enabled(s, steps[0]) && ww_run_enabled(
        ww_step(s, steps[0]),
        steps.drop_first(),
    ))
}

/// Before each of `steps`, taken in order from `s`, no writer that found the
/// lock held has seen `2^32` bumps of the counter since its sample.
pub open spec fn ww_run_no_wrap(s: WriterWaitState, steps: Seq<WriterWaitStep>) -> bool
    decreases steps.len(),
{
    steps.len() == 0 || (ww_no_wrap(s) && ww_run_no_wrap(ww_step(s, steps[0]), steps.drop_first()))
}

/// A run of enabled steps from a state satisfying the invariant ends in a
/// state satisfying it.
pub proof fn lemma_ww_run_keeps_inv(s: WriterWaitState, steps: Seq<WriterWaitStep>)
    requires
        ww_inv(s),
        ww_run_enabled(s, steps),
        ww_run_no_wrap(s, steps),
    ensures
        ww_inv(ww_run(s, steps)),
    decreases steps.len(),
{
    if steps.len() > 0 {
        lemma_ww_step_keeps_inv(s, steps[0]);
        lemma_ww_run_keeps_inv(ww_step(s, steps[0]), steps.drop_first());
    }
}

/// No lost wake-up, in every reachable state: whatever the interleaving from
/// the unlocked lock, while a writer sleeps on the wake counter the lock is
/// held, or a release that freed it has yet to bump the counter or to wake a
/// writer, or another writer is still running its loop; and a writer still
/// excludes every reader. The one exception is a writer whose counter wraps
/// around to its sample (`2^32` bumps between its sample and its sleep).
pub proof fn lemma_ww_reachable_no_lost_wake(steps: Seq<WriterWaitStep>)
    requires
        ww_run_enabled(ww_init(), steps),
        ww_run_no_wrap(ww_init(), steps),
    ensures
        ww_inv(ww_run(ww_init(), steps)),
        some_asleep(ww_run(ww_init(), steps)) ==> wake_pending(ww_run(ww_init(), steps)),
        ww_run(ww_init(), steps).lock.writer is Some ==> ww_run(ww_init(), steps).lock.readers
            == 0,
{
    lemma_ww_init();
    lemma_ww_run_keeps_inv(ww_init(), steps);
}

} // verus!
