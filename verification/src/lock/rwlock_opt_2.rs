//! A reader-writer lock whose state word counts read locks twice and sets
//! its lowest bit while a writer waits, so that a waiting writer keeps new
//! readers out.
//!
//! The state word is `u32::MAX` while the lock is write-locked; otherwise it
//! is twice the number of read locks, plus one while a writer is waiting.
//! Readers may therefore take the lock only while the word is even.
//!
//! [`RwLock`] holds the two atomic words; each attempt of the
//! acquisition loops is one call ([`RwLock::read_step`],
//! [`RwLock::write_step`]), and the decisions each attempt takes on the value
//! it observed are the verified functions [`read_action`] and
//! [`write_action`]. [`RwState`] and [`rw_step`] describe the same protocol as
//! a state machine over the word, and the laws below prove, for every
//! interleaving of the threads' atomic steps, that a writer excludes every
//! reader and every other writer.
//!
//! A writer that finds the lock held reads the wake counter first, then looks
//! at the state word again, and sleeps on the counter only while it still
//! holds the value read. [`WriterWaitState`] and [`ww_step`] add the counter
//! and the writers' waits to the state machine; the laws on them prove that a
//! writer sleeps exactly when no release bumped the counter since its sample.
//! Only the releases that see the waiting bit (a read release from three) or
//! release the write lock bump the counter.
use crate::effect::{
    cas_on, cas_weak_on, fetch_add_on, fetch_sub_on, load_on, store_on, wait_on, wake_all_on,
    wake_one_on, Cas, Load, Rmw, RmwOp, Store, Wait, Wake, WakeKind,
};
use std::sync::atomic::AtomicU32;
use std::sync::atomic::Ordering;
use vstd::prelude::*;

verus! {

/// The value of the state word while the lock is write-locked.
pub const WRITE_LOCKED: u32 = 0xffff_ffff;

/// What one read lock adds to the state word.
pub const READ_LOCK_UNIT: u32 = 2;

/// What an acquiring reader does with the state word it observed.
pub enum ReadAction {
    /// Compare-and-exchange the word from `expected` to `desired`, taking one
    /// more read lock.
    Acquire { expected: u32, desired: u32 },
    /// Sleep while the word still holds `expected` (a writer waits or holds
    /// the lock), then look again.
    Wait { expected: u32 },
}

/// The reader's decision: an even word admits one more reader (two more in
/// the word), an odd word makes the reader wait.
pub open spec fn spec_read_action(s: u32) -> ReadAction {
    if s % 2 == 0 {
        ReadAction::Acquire { expected: s, desired: (s + READ_LOCK_UNIT) as u32 }
    } else {
        ReadAction::Wait { expected: s }
    }
}

/// An even word so large that one more reader would run into
/// [`WRITE_LOCKED`]: the acquisition panics ("too many read") there.
pub open spec fn read_overflows(s: u32) -> bool {
    s % 2 == 0 && s >= 0xffff_fffd
}

/// Tells whether a reader that observed `s` must panic with "too many
/// read".
pub fn read_would_overflow(s: u32) -> (r: bool)
    ensures
        r == read_overflows(s),
{
    s % 2 == 0 && s >= 0xffff_fffd
}

/// Computes the reader's decision on the observed word `s`.
pub fn read_action(s: u32) -> (a: ReadAction)
    requires
        !read_overflows(s),
    ensures
        a == spec_read_action(s),
{
    if s % 2 == 0 {
        ReadAction::Acquire { expected: s, desired: s + READ_LOCK_UNIT }
    } else {
        ReadAction::Wait { expected: s }
    }
}

/// What an acquiring writer does with the state word it observed.
pub enum WriteAction {
    /// No read lock is held: compare-and-exchange the word from `expected`
    /// to `desired`, which is [`WRITE_LOCKED`].
    Acquire { expected: u32, desired: u32 },
    /// Read locks are held and no writer is marked as waiting yet:
    /// compare-and-exchange the word from `expected` to `desired`, its odd
    /// successor, then wait for the readers.
    MarkWaiting { expected: u32, desired: u32 },
    /// The lock is held (by readers with a waiting writer, or by a writer):
    /// wait.
    Wait,
}

/// The writer's decision: a word of at most one (no reader, no writer) can
/// be taken; an even word gets its waiting bit set; any other word waits.
pub open spec fn spec_write_action(s: u32) -> WriteAction {
    if s <= 1 {
        WriteAction::Acquire { expected: s, desired: WRITE_LOCKED }
    } else if s % 2 == 0 {
        WriteAction::MarkWaiting { expected: s, desired: (s + 1) as u32 }
    } else {
        WriteAction::Wait
    }
}

/// Computes the writer's decision on the observed word `s`.
pub fn write_action(s: u32) -> (a: WriteAction)
    ensures
        a == spec_write_action(s),
{
    if s <= 1 {
        WriteAction::Acquire { expected: s, desired: WRITE_LOCKED }
    } else if s % 2 == 0 {
        WriteAction::MarkWaiting { expected: s, desired: s + 1 }
    } else {
        WriteAction::Wait
    }
}

/// A writer sleeps after its attempt while the word it reads still shows a
/// lock held (two or more).
pub open spec fn spec_writer_must_sleep(s: u32) -> bool {
    s >= 2
}

/// Tells whether a writer that reads `s` after marking itself sleeps.
pub fn writer_must_sleep(s: u32) -> (r: bool)
    ensures
        r == spec_writer_must_sleep(s),
{
    s >= 2
}

/// The word after a read lock is released from `prev` (a wrapping
/// subtraction of [`READ_LOCK_UNIT`]).
pub open spec fn spec_read_release(prev: u32) -> u32 {
    if prev >= READ_LOCK_UNIT {
        (prev - READ_LOCK_UNIT) as u32
    } else {
        (prev + 0xffff_fffe) as u32
    }
}

/// Releasing a read lock from `prev == 3` leaves the lock free with a
/// writer waiting: the writer is woken.
pub open spec fn spec_read_release_wakes_writer(prev: u32) -> bool {
    prev == 3
}

/// Tells whether the release of a read lock that found `prev` in the word
/// must wake a waiting writer.
pub fn read_release_wakes_writer(prev: u32) -> (r: bool)
    ensures
        r == spec_read_release_wakes_writer(prev),
{
    prev == 3
}

/// The lock's two atomic words: the state word described above, and a
/// counter that is bumped whenever writers should look again.
pub struct RwLock {
    state: AtomicU32,
    writer_wake_counter: AtomicU32,
}

/// A held read lock of `rwlock`; [`ReadGuard::unlock`] releases it.
pub struct ReadGuard<'a> {
    rwlock: &'a RwLock,
}

/// A held write lock of `rwlock`; [`WriteGuard::unlock`] releases it.
pub struct WriteGuard<'a> {
    rwlock: &'a RwLock,
}

/// The outcome of one attempt to take a read lock.
pub enum ReadStep<'a> {
    /// The read lock is held.
    Acquired(ReadGuard<'a>),
    /// The attempt failed; the state word observed last.
    Retry(u32),
}

/// The outcome of one attempt to take the write lock.
pub enum WriteStep<'a> {
    /// The write lock is held.
    Acquired(WriteGuard<'a>),
    /// The attempt failed; the state word observed last.
    Retry(u32),
}

/// What releasing a read lock did: the subtraction from the state word,
/// and, when it woke a writer, the bump of the wake counter and the wake.
pub struct ReadRelease<'a> {
    pub release: Rmw<'a>,
    pub bump: Option<Rmw<'a>>,
    pub wake: Option<Wake<'a>>,
}

/// What releasing the write lock did: the store clearing the state word,
/// the bump of the wake counter, the wake of one writer on it, and the wake
/// of every thread waiting on the state word.
pub struct WriteRelease<'a> {
    pub clear: Store<'a>,
    pub bump: Rmw<'a>,
    pub wake_writer: Wake<'a>,
    pub wake_readers: Wake<'a>,
}

/// What one attempt to take the write lock did: its outcome, and the
/// compare-and-exchange of the state word it performed, if any.
pub struct WriteAttempt<'a> {
    pub step: WriteStep<'a>,
    pub exchange: Option<Cas<'a>>,
    pub sleep: Option<HeldSleep<'a>>,
}

/// What a writer's wait for the lock did: the sample of the wake counter,
/// the look at the state word after it, and, when that look showed the lock
/// held, the wait on the counter and the look at the word after it; `last`
/// is the word it read last.
pub struct HeldSleep<'a> {
    pub sample: Load<'a>,
    pub check: Load<'a>,
    pub wait: Option<Wait<'a>>,
    pub reload: Option<Load<'a>>,
    pub last: u32,
}

/// What one attempt to take a read lock did: its outcome; on an even word
/// the exchange adding a reader, on an odd one the wait on the state word
/// and the load after it.
pub struct ReadAttempt<'a> {
    pub step: ReadStep<'a>,
    pub exchange: Option<Cas<'a>>,
    pub wait: Option<Wait<'a>>,
    pub reload: Option<Load<'a>>,
}

/// A writer's wait on `l`: it loads the wake counter, then the state word;
/// exactly when that word shows the lock held it waits on the counter while
/// the counter holds the value loaded, and loads the state word again; the
/// last word it read is reported.
pub open spec fn held_sleep_done(l: RwLock, h: HeldSleep) -> bool {
    &&& *h.sample.target == l.wake_counter()
    &&& *h.check.target == l.state_word()
    &&& if spec_writer_must_sleep(h.check.value) {
        &&& h.wait matches Some(w) && *w.target == l.wake_counter() && w.value == h.sample.value
        &&& h.reload matches Some(v) && *v.target == l.state_word() && h.last == v.value
    } else {
        h.wait is None && h.reload is None && h.last == h.check.value
    }
}

/// A read attempt on `l` by a reader that observed `s`: it performs what
/// [`spec_read_action`] prescribes. On an even word it exchanges the state
/// word and holds a read lock exactly when that took effect, retrying
/// otherwise with the word the exchange found; on an odd word it waits on
/// the state word while it holds `s` and retries with the word it loads
/// afterwards.
pub open spec fn read_attempt_done(l: RwLock, s: u32, r: ReadAttempt) -> bool {
    match spec_read_action(s) {
        ReadAction::Acquire { expected, desired } => {
            &&& r.exchange matches Some(c) && *c.target == l.state_word() && c.expected == expected
                && c.desired == desired
            &&& r.exchange matches Some(c) && match c.outcome {
                Ok(_) => r.step is Acquired,
                Err(e) => r.step == ReadStep::<'_>::Retry(e),
            }
            &&& r.wait is None && r.reload is None
        },
        ReadAction::Wait { expected } => {
            &&& r.exchange is None
            &&& r.wait matches Some(w) && *w.target == l.state_word() && w.value == expected
            &&& r.reload matches Some(v) && *v.target == l.state_word() && r.step
                == ReadStep::<'_>::Retry(v.value)
        },
    }
}

/// A read release of `l`: it subtracts [`READ_LOCK_UNIT`] from the state
/// word; exactly when that word was three (the last reader leaves while a
/// writer waits) it then adds one to the wake counter and wakes one thread
/// waiting on the counter.
pub open spec fn read_release_done(l: RwLock, r: ReadRelease) -> bool {
    &&& *r.release.target == l.state_word()
    &&& r.release.op == RmwOp::Sub && r.release.operand == READ_LOCK_UNIT
    &&& if spec_read_release_wakes_writer(r.release.prev) {
        &&& r.bump matches Some(b) && *b.target == l.wake_counter() && b.op == RmwOp::Add && b.operand == 1
        &&& r.wake matches Some(w) && *w.target == l.wake_counter() && w.kind == WakeKind::One
    } else {
        r.bump is None && r.wake is None
    }
}

/// A write release of `l`: it stores zero into the state word, adds one to
/// the wake counter, wakes one thread waiting on the counter, and wakes all
/// threads waiting on the state word.
pub open spec fn write_release_done(l: RwLock, r: WriteRelease) -> bool {
    &&& *r.clear.target == l.state_word() && r.clear.value == 0
    &&& *r.bump.target == l.wake_counter() && r.bump.op == RmwOp::Add && r.bump.operand == 1
    &&& *r.wake_writer.target == l.wake_counter() && r.wake_writer.kind == WakeKind::One
    &&& *r.wake_readers.target == l.state_word() && r.wake_readers.kind == WakeKind::All
}

/// A write attempt on `l` by a writer that observed `s`: it performs the
/// exchange of the state word that [`spec_write_action`] prescribes (none
/// when it only waits), and holds the write lock exactly when an exchange to
/// take the lock took effect.
pub open spec fn write_attempt_done(l: RwLock, s: u32, r: WriteAttempt) -> bool {
    match spec_write_action(s) {
        WriteAction::Acquire { expected, desired } => {
            &&& r.exchange matches Some(c) && *c.target == l.state_word() && c.expected
                == expected && c.desired == desired
            &&& r.exchange matches Some(c) && match c.outcome {
                Ok(_) => r.step is Acquired,
                Err(e) => r.step == WriteStep::<'_>::Retry(e),
            }
            &&& r.sleep is None
        },
        WriteAction::MarkWaiting { expected, desired } => {
            &&& r.exchange matches Some(c) && *c.target == l.state_word() && c.expected
                == expected && c.desired == desired
            &&& r.exchange matches Some(c) && match c.outcome {
                Ok(_) => r.sleep matches Some(h) && held_sleep_done(l, h) && r.step
                    == WriteStep::<'_>::Retry(h.last),
                Err(e) => r.sleep is None && r.step == WriteStep::<'_>::Retry(e),
            }
        },
        WriteAction::Wait => {
            &&& r.exchange is None
            &&& r.sleep matches Some(h) && held_sleep_done(l, h) && r.step
                == WriteStep::<'_>::Retry(h.last)
        },
    }
}

impl<'a> ReadGuard<'a> {
    /// The lock this guard holds a read lock of.
    pub closed spec fn rwlock(&self) -> RwLock {
        *self.rwlock
    }

    /// Releases the read lock: subtracts two from the word and, when that
    /// leaves the lock free with a writer waiting, bumps the wake counter and
    /// wakes a writer.
    pub fn unlock(self) -> (r: ReadRelease<'a>)
        ensures
            read_release_done(self.rwlock(), r),
    {
        let release = fetch_sub_on(&self.rwlock.state, READ_LOCK_UNIT, Ordering::Release);
        if read_release_wakes_writer(release.prev) {
            let bump = fetch_add_on(&self.rwlock.writer_wake_counter, 1, Ordering::Release);
            let wake = wake_one_on(&self.rwlock.writer_wake_counter);
            ReadRelease { release, bump: Some(bump), wake: Some(wake) }
        } else {
            ReadRelease { release, bump: None, wake: None }
        }
    }
}

impl<'a> WriteGuard<'a> {
    /// The lock this guard holds the write lock of.
    pub closed spec fn rwlock(&self) -> RwLock {
        *self.rwlock
    }

    /// Releases the write lock: clears the word, then bumps the wake
    /// counter, wakes one waiting writer and every thread waiting on the
    /// word.
    pub fn unlock(self) -> (r: WriteRelease<'a>)
        ensures
            write_release_done(self.rwlock(), r),
    {
        let clear = store_on(&self.rwlock.state, 0, Ordering::Release);
        let bump = fetch_add_on(&self.rwlock.writer_wake_counter, 1, Ordering::Release);
        let wake_writer = wake_one_on(&self.rwlock.writer_wake_counter);
        let wake_readers = wake_all_on(&self.rwlock.state);
        WriteRelease { clear, bump, wake_writer, wake_readers }
    }
}

impl RwLock {
    /// The state word.
    pub closed spec fn state_word(&self) -> AtomicU32 {
        self.state
    }

    /// The counter that writers sleep on.
    pub closed spec fn wake_counter(&self) -> AtomicU32 {
        self.writer_wake_counter
    }

    /// An unlocked lock: both words zero.
    pub fn new() -> Self {
        RwLock { state: AtomicU32::new(0), writer_wake_counter: AtomicU32::new(0) }
    }

    /// Reads the state word, as each acquisition does first.
    pub fn load_state(&self) -> u32 {
        self.state.load(Ordering::Relaxed)
    }

    /// One attempt to take a read lock, by a reader that last observed `s`:
    /// on an even word, a compare-and-exchange adding one reader; on an odd
    /// word, a sleep while the word is unchanged and a new look. A read lock
    /// is only ever taken from an even observed word.
    pub fn read_step(&self, s: u32) -> (r: ReadStep<'_>)
        requires
            !read_overflows(s),
        ensures
            r matches ReadStep::Acquired(g) ==> g.rwlock() == *self && spec_read_action(s) is Acquire,
    {
        self.read_attempt(s).step
    }

    /// The attempt of [`RwLock::read_step`], together with the operations it
    /// performed.
    pub fn read_attempt(&self, s: u32) -> (r: ReadAttempt<'_>)
        requires
            !read_overflows(s),
        ensures
            read_attempt_done(*self, s, r),
            r.step matches ReadStep::Acquired(g) ==> g.rwlock() == *self,
    {
        match read_action(s) {
            ReadAction::Acquire { expected, desired } => {
                let c = cas_weak_on(&self.state, expected, desired, Ordering::Acquire, Ordering::Relaxed);
                let step = match c.outcome {
                    Ok(_) => ReadStep::Acquired(ReadGuard { rwlock: self }),
                    Err(e) => ReadStep::Retry(e),
                };
                ReadAttempt { step, exchange: Some(c), wait: None, reload: None }
            },
            ReadAction::Wait { expected } => {
                let wait = wait_on(&self.state, expected);
                let reload = load_on(&self.state, Ordering::Relaxed);
                ReadAttempt {
                    step: ReadStep::Retry(reload.value),
                    exchange: None,
                    wait: Some(wait),
                    reload: Some(reload),
                }
            },
        }
    }

    /// One attempt to take the write lock, by a writer that last observed
    /// `s`: with no lock held, a compare-and-exchange to [`WRITE_LOCKED`];
    /// otherwise the waiting bit is set if it is clear, and the writer sleeps
    /// on the wake counter while the lock stays held. The write lock is only
    /// ever taken from an observed word of at most one.
    pub fn write_step(&self, s: u32) -> (r: WriteStep<'_>)
        ensures
            r matches WriteStep::Acquired(g) ==> g.rwlock() == *self && spec_write_action(s) is Acquire,
    {
        self.write_attempt(s).step
    }

    /// The attempt of [`RwLock::write_step`], together with the exchange of
    /// the state word it performed.
    pub fn write_attempt(&self, s: u32) -> (r: WriteAttempt<'_>)
        ensures
            write_attempt_done(*self, s, r),
            r.step matches WriteStep::Acquired(g) ==> g.rwlock() == *self,
    {
        match write_action(s) {
            WriteAction::Acquire { expected, desired } => {
                let c = cas_on(&self.state, expected, desired, Ordering::Acquire, Ordering::Relaxed);
                let step = match c.outcome {
                    Ok(_) => WriteStep::Acquired(WriteGuard { rwlock: self }),
                    Err(e) => WriteStep::Retry(e),
                };
                WriteAttempt { step, exchange: Some(c), sleep: None }
            },
            WriteAction::MarkWaiting { expected, desired } => {
                let c = cas_on(&self.state, expected, desired, Ordering::Relaxed, Ordering::Relaxed);
                match c.outcome {
                    Ok(_) => {
                        let h = self.sleep_while_held();
                        WriteAttempt { step: WriteStep::Retry(h.last), exchange: Some(c), sleep: Some(h) }
                    },
                    Err(e) => WriteAttempt { step: WriteStep::Retry(e), exchange: Some(c), sleep: None },
                }
            },
            WriteAction::Wait => {
                let h = self.sleep_while_held();
                WriteAttempt { step: WriteStep::Retry(h.last), exchange: None, sleep: Some(h) }
            },
        }
    }

    /// Samples the wake counter, reads the word, and sleeps on the counter
    /// while the word shows the lock held; reports the word read last.
    fn sleep_while_held(&self) -> (h: HeldSleep<'_>)
        ensures
            held_sleep_done(*self, h),
    {
        let sample = load_on(&self.writer_wake_counter, Ordering::Acquire);
        let check = load_on(&self.state, Ordering::Relaxed);
        if writer_must_sleep(check.value) {
            let wait = wait_on(&self.writer_wake_counter, sample.value);
            let reload = load_on(&self.state, Ordering::Relaxed);
            let last = reload.value;
            HeldSleep { sample, check, wait: Some(wait), reload: Some(reload), last }
        } else {
            let last = check.value;
            HeldSleep { sample, check, wait: None, reload: None, last }
        }
    }
}

// What the lock operations do to the two words.

/// A writer that finds read locks held and no writer waiting marks itself
/// waiting: when its exchange takes effect it moves the state word from the
/// even `s` it observed to the odd `s + 1`, and while the word is odd every
/// reader waits, so no read lock is handed out past the waiting writer.
pub proof fn lemma_write_attempt_marks_waiting(l: RwLock, s: u32, r: WriteAttempt)
    requires
        write_attempt_done(l, s, r),
        s % 2 == 0,
        s >= 2,
    ensures
        r.step is Retry,
        r.exchange matches Some(c) && *c.target == l.state_word() && c.expected == s && c.desired
            == s + 1,
        r.exchange matches Some(c) && c.desired % 2 == 1 && spec_read_action(c.desired) is Wait,
        forall|st: RwState, step: RwStep|
            rw_inv(st) && rw_enabled(st, step) && (r.exchange matches Some(c) && st.word
                == c.desired) ==> !#[trigger] grants_read(st, step),
{
}

/// A reader takes a read lock only from an even observed word `s`, by an
/// exchange of the state word from `s` to `s + 2` that took effect; on an odd
/// word (a writer waits or holds the lock) it leaves the word alone and
/// sleeps on it while it still holds `s`.
pub proof fn lemma_read_attempt_respects_waiting_writer(l: RwLock, s: u32, r: ReadAttempt)
    requires
        !read_overflows(s),
        read_attempt_done(l, s, r),
    ensures
        r.step is Acquired ==> s % 2 == 0 && (r.exchange matches Some(c) && *c.target
            == l.state_word() && c.expected == s && c.desired == s + 2 && c.outcome is Ok),
        s % 2 == 1 ==> r.exchange is None && r.step is Retry && (r.wait matches Some(w)
            && *w.target == l.state_word() && w.value == s),
{
}

/// A waiting writer reads the wake counter before it looks at the state
/// word again; it sleeps only if that look shows the lock held (two or
/// more), and then only while the counter still holds the value read before
/// the look.
pub proof fn lemma_held_sleep_samples_first(l: RwLock, h: HeldSleep)
    requires
        held_sleep_done(l, h),
    ensures
        *h.sample.target == l.wake_counter() && *h.check.target == l.state_word(),
        h.wait is Some <==> h.check.value >= 2,
        h.wait matches Some(w) ==> *w.target == l.wake_counter() && w.value == h.sample.value,
{
}

/// A writer takes the lock only from an observed word of at most one (no
/// read lock held), with an exchange of the state word to [`WRITE_LOCKED`]
/// that took effect.
pub proof fn lemma_write_attempt_takes_only_free(l: RwLock, s: u32, r: WriteAttempt)
    requires
        write_attempt_done(l, s, r),
        r.step is Acquired,
    ensures
        s <= 1,
        r.exchange matches Some(c) && *c.target == l.state_word() && c.expected == s && c.desired
            == WRITE_LOCKED && c.outcome is Ok,
{
}

/// The last reader to leave while a writer waits (it found the word at
/// three) leaves the word at one (free, the writer still marked), adds one
/// to the wake counter, so that a writer that sampled the counter before
/// does not go to sleep, and wakes one thread sleeping on the counter. Any
/// other read release leaves the counter alone and wakes nobody.
pub proof fn lemma_read_release_wakes_waiting_writer(l: RwLock, r: ReadRelease)
    requires
        read_release_done(l, r),
    ensures
        *r.release.target == l.state_word(),
        r.release.prev == 3 ==> spec_read_release(r.release.prev) == 1,
        r.release.prev == 3 ==> (r.bump matches Some(b) && *b.target == l.wake_counter()
            && b.op == RmwOp::Add && b.operand == 1),
        r.release.prev == 3 ==> (r.wake matches Some(w) && *w.target == l.wake_counter()
            && w.kind == WakeKind::One),
        r.release.prev != 3 ==> r.bump is None && r.wake is None,
{
}

/// Releasing the write lock frees it (the state word becomes zero, so no
/// thread keeps sleeping on [`WRITE_LOCKED`]), wakes every thread sleeping
/// on the state word, adds one to the wake counter and wakes one writer
/// sleeping on it.
pub proof fn lemma_write_release_wakes_everyone(l: RwLock, r: WriteRelease)
    requires
        write_release_done(l, r),
    ensures
        *r.clear.target == l.state_word() && r.clear.value == 0 && r.clear.value != WRITE_LOCKED,
        *r.wake_readers.target == l.state_word() && r.wake_readers.kind == WakeKind::All,
        *r.bump.target == l.wake_counter() && r.bump.op == RmwOp::Add && r.bump.operand == 1,
        *r.wake_writer.target == l.wake_counter() && r.wake_writer.kind == WakeKind::One,
{
}

// The protocol as a state machine over the state word.

/// The state word together with what it stands for: the read locks held and
/// the thread holding the write lock, if any.
pub ghost struct RwState {
    pub word: u32,
    pub readers: nat,
    pub writer: Option<int>,
}

/// The atomic steps that change the state word. Loads and sleeps change
/// nothing and are left out; `observed` is the (possibly stale) value the
/// acting thread last read, from which it computed its exchange.
pub ghost enum RwStep {
    /// The reader's compare-and-exchange of [`ReadAction::Acquire`].
    ReadAcquire { observed: u32 },
    /// A read guard's release.
    ReadRelease,
    /// The writer's compare-and-exchange of [`WriteAction::MarkWaiting`].
    MarkWriterWaiting { observed: u32 },
    /// The writer's compare-and-exchange of [`WriteAction::Acquire`], by
    /// thread `thread`.
    WriteAcquire { thread: int, observed: u32 },
    /// The write guard's release.
    WriteRelease,
}

/// The unlocked lock.
pub open spec fn rw_init() -> RwState {
    RwState { word: 0, readers: 0, writer: None }
}

/// The word stands for the locks held: while a writer holds the lock the
/// word is [`WRITE_LOCKED`] and no reader holds it; otherwise half the word
/// counts the read locks. (With `0x7fff_ffff` read locks and a writer
/// marked waiting, the word is [`WRITE_LOCKED`] too, with no writer.)
pub open spec fn rw_inv(s: RwState) -> bool {
    if s.writer is Some {
        s.word == WRITE_LOCKED && s.readers == 0
    } else {
        s.readers == s.word / 2
    }
}

/// When a thread can take a step: an exchange is only attempted as its
/// decision function prescribes for the observed value; a release only by a
/// holder.
pub open spec fn rw_enabled(s: RwState, step: RwStep) -> bool {
    match step {
        RwStep::ReadAcquire { observed } => !read_overflows(observed) && spec_read_action(
            observed,
        ) is Acquire,
        RwStep::ReadRelease => s.readers > 0,
        RwStep::MarkWriterWaiting { observed } => spec_write_action(observed) is MarkWaiting,
        RwStep::WriteAcquire { thread, observed } => spec_write_action(observed) is Acquire,
        RwStep::WriteRelease => s.writer is Some,
    }
}

/// Whether the step hands out a read lock: the exchange met the word it
/// expected.
pub open spec fn grants_read(s: RwState, step: RwStep) -> bool {
    match step {
        RwStep::ReadAcquire { observed } => s.word == observed,
        _ => false,
    }
}

/// Whether the step hands out the write lock.
pub open spec fn grants_write(s: RwState, step: RwStep) -> bool {
    match step {
        RwStep::WriteAcquire { thread, observed } => s.word == observed,
        _ => false,
    }
}

/// The effect of one step; a compare-and-exchange that does not meet the
/// word it expected changes nothing.
pub open spec fn rw_step(s: RwState, step: RwStep) -> RwState {
    match step {
        RwStep::ReadAcquire { observed } => {
            if s.word == observed {
                RwState { word: (observed + READ_LOCK_UNIT) as u32, readers: s.readers + 1, ..s }
            } else {
                s
            }
        },
        RwStep::ReadRelease => RwState {
            word: spec_read_release(s.word),
            readers: (s.readers - 1) as nat,
            ..s
        },
        RwStep::MarkWriterWaiting { observed } => {
            if s.word == observed {
                RwState { word: spec_write_action(observed)->MarkWaiting_desired, ..s }
            } else {
                s
            }
        },
        RwStep::WriteAcquire { thread, observed } => {
            if s.word == observed {
                RwState {
                    word: spec_write_action(observed)->Acquire_desired,
                    writer: Some(thread),
                    ..s
                }
            } else {
                s
            }
        },
        RwStep::WriteRelease => RwState { word: 0, writer: None, ..s },
    }
}

/// The unlocked lock satisfies the invariant.
pub proof fn lemma_rw_init()
    ensures
        rw_inv(rw_init()),
{
}

/// Every enabled step keeps the invariant.
pub proof fn lemma_rw_step_keeps_inv(s: RwState, step: RwStep)
    requires
        rw_inv(s),
        rw_enabled(s, step),
    ensures
        rw_inv(rw_step(s, step)),
{
}

/// Mutual exclusion: the write lock is only handed out while no thread holds
/// the lock at all, and a read lock only while no writer holds it.
pub proof fn lemma_rw_exclusion(s: RwState, step: RwStep)
    requires
        rw_inv(s),
        rw_enabled(s, step),
    ensures
        grants_write(s, step) ==> s.writer is None && s.readers == 0,
        grants_read(s, step) ==> s.writer is None,
        grants_write(s, step) ==> rw_step(s, step).writer == Some(step->thread),
        grants_read(s, step) ==> rw_step(s, step).readers == s.readers + 1,
{
}

/// A waiting writer keeps new readers out: while the word is odd (a writer
/// waits, or holds the lock), no step hands out a read lock.
pub proof fn lemma_rw_waiting_writer_blocks_readers(s: RwState, step: RwStep)
    requires
        rw_inv(s),
        rw_enabled(s, step),
        s.word % 2 == 1,
    ensures
        !grants_read(s, step),
{
}

/// Taking a read lock and releasing it again restores the word, and that
/// release wakes nobody.
pub proof fn lemma_rw_read_round_trip(s: RwState)
    requires
        rw_inv(s),
        rw_enabled(s, RwStep::ReadAcquire { observed: s.word }),
    ensures
        rw_step(rw_step(s, RwStep::ReadAcquire { observed: s.word }), RwStep::ReadRelease) == s,
        !spec_read_release_wakes_writer(
            rw_step(s, RwStep::ReadAcquire { observed: s.word }).word,
        ),
{
}

/// The last reader to leave while a writer waits frees the lock with the
/// waiting bit still set, and wakes the writer.
pub proof fn lemma_rw_last_reader_wakes_writer(s: RwState)
    requires
        rw_inv(s),
        s.readers == 1,
        s.word % 2 == 1,
    ensures
        spec_read_release_wakes_writer(s.word),
        rw_step(s, RwStep::ReadRelease).word == 1,
        rw_step(s, RwStep::ReadRelease).readers == 0,
{
}

/// Releasing the write lock leaves the lock free, with nobody waiting
/// marked.
pub proof fn lemma_rw_write_release_frees(s: RwState)
    requires
        rw_inv(s),
        s.writer is Some,
    ensures
        rw_step(s, RwStep::WriteRelease) == rw_init(),
{
}

/// The state after the steps `steps`, taken in order from `s`.
pub open spec fn rw_run(s: RwState, steps: Seq<RwStep>) -> RwState
    decreases steps.len(),
{
    if steps.len() == 0 {
        s
    } else {
        rw_run(rw_step(s, steps[0]), steps.drop_first())
    }
}

/// Each of `steps`, taken in order from `s`, is enabled when it is taken.
pub open spec fn rw_run_enabled(s: RwState, steps: Seq<RwStep>) -> bool
    decreases steps.len(),
{
    steps.len() == 0 || {
        &&& rw_enabled(s, steps[0])
        &&& rw_run_enabled(rw_step(s, steps[0]), steps.drop_first())
    }
}

/// A run of enabled steps from a state satisfying the invariant ends in a
/// state satisfying it.
pub proof fn lemma_rw_run_keeps_inv(s: RwState, steps: Seq<RwStep>)
    requires
        rw_inv(s),
        rw_run_enabled(s, steps),
    ensures
        rw_inv(rw_run(s, steps)),
    decreases steps.len(),
{
    if steps.len() > 0 {
        lemma_rw_step_keeps_inv(s, steps[0]);
        lemma_rw_run_keeps_inv(rw_step(s, steps[0]), steps.drop_first());
    }
}

/// Mutual exclusion in every reachable state: whatever the interleaving of
/// the threads' steps from the unlocked lock, a writer never holds the lock
/// together with a reader, and a writer holds it only while the word is
/// [`WRITE_LOCKED`].
pub proof fn lemma_rw_reachable_exclusion(steps: Seq<RwStep>)
    requires
        rw_run_enabled(rw_init(), steps),
    ensures
        rw_inv(rw_run(rw_init(), steps)),
        rw_run(rw_init(), steps).writer is Some ==> rw_run(rw_init(), steps).readers == 0,
{
    lemma_rw_run_keeps_inv(rw_init(), steps);
}

// A writer's wait on the wake counter.

/// Where a writer thread is in its wait on the wake counter.
pub ghost enum WriterPhase {
    /// Elsewhere in its acquisition loop.
    Running,
    /// It read `sample` from the wake counter; the counter has been bumped
    /// `bumps` times since.
    Sampled { sample: u32, bumps: nat },
    /// After sampling, it read a word showing the lock held; it is about to
    /// sleep on the counter while the counter still holds `sample`.
    Checked { sample: u32, bumps: nat },
    /// Asleep on the wake counter.
    Asleep,
}

/// The lock, its wake counter and the writers waiting on it; `unbumped`
/// counts the releases that woke writers and have yet to bump the counter.
pub ghost struct WriterWaitState {
    pub lock: RwState,
    pub counter: u32,
    pub writers: Map<int, WriterPhase>,
    pub unbumped: nat,
}

/// The steps on the state word, and the writers' loads and waits.
pub ghost enum WriterWaitStep {
    /// A step on the state word; a release that must wake a writer (a read
    /// release from three, or the write release) goes on to bump the counter.
    Lock { step: RwStep },
    /// A release bumps the wake counter.
    Bump,
    /// Writer `thread` reads the wake counter.
    Sample { thread: int },
    /// The writer reads the state word again.
    Check { thread: int },
    /// The writer's wait on the counter: it sleeps only while the counter
    /// still holds its sample, and otherwise returns at once.
    Sleep { thread: int },
    /// A sleeping writer returns from its wait, woken or not.
    Wake { thread: int },
}

/// A phase after one bump of the counter.
pub open spec fn phase_bumped(p: WriterPhase) -> WriterPhase {
    match p {
        WriterPhase::Sampled { sample, bumps } => WriterPhase::Sampled { sample, bumps: bumps + 1 },
        WriterPhase::Checked { sample, bumps } => WriterPhase::Checked { sample, bumps: bumps + 1 },
        _ => p,
    }
}

/// Whether a step on the state word is a release that bumps the counter.
pub open spec fn bumps_counter(s: RwState, step: RwStep) -> bool {
    match step {
        RwStep::ReadRelease => spec_read_release_wakes_writer(s.word),
        RwStep::WriteRelease => true,
        _ => false,
    }
}

/// The unlocked lock, with no writer waiting and a zero counter.
pub open spec fn ww_init() -> WriterWaitState {
    WriterWaitState { lock: rw_init(), counter: 0, writers: Map::empty(), unbumped: 0 }
}

/// A sample differs from the counter by the bumps since.
pub open spec fn phase_ok(s: WriterWaitState, t: int) -> bool {
    match s.writers[t] {
        WriterPhase::Sampled { sample, bumps } => s.counter as int == (sample + bumps) % 0x1_0000_0000,
        WriterPhase::Checked { sample, bumps } => s.counter as int == (sample + bumps) % 0x1_0000_0000,
        _ => true,
    }
}

/// The invariant: the word stands for the locks held, and every sample
/// tracks the counter.
pub open spec fn ww_inv(s: WriterWaitState) -> bool {
    &&& rw_inv(s.lock)
    &&& forall|t: int| #[trigger] s.writers.dom().contains(t) ==> phase_ok(s, t)
}

/// No writer about to sleep has seen the counter wrap around to its sample:
/// fewer than `2^32` bumps since its sample.
pub open spec fn ww_no_wrap(s: WriterWaitState) -> bool {
    forall|t: int|
        #[trigger] s.writers.dom().contains(t) ==> (s.writers[t] matches WriterPhase::Checked {
            bumps,
            ..
        } ==> bumps < 0x1_0000_0000)
}

/// When a thread can take a step.
pub open spec fn ww_enabled(s: WriterWaitState, step: WriterWaitStep) -> bool {
    match step {
        WriterWaitStep::Lock { step } => rw_enabled(s.lock, step),
        WriterWaitStep::Bump => s.unbumped > 0,
        WriterWaitStep::Sample { thread } => !s.writers.dom().contains(thread)
            || s.writers[thread] is Running,
        WriterWaitStep::Check { thread } => s.writers.dom().contains(thread)
            && s.writers[thread] is Sampled,
        WriterWaitStep::Sleep { thread } => s.writers.dom().contains(thread)
            && s.writers[thread] is Checked,
        WriterWaitStep::Wake { thread } => s.writers.dom().contains(thread)
            && s.writers[thread] is Asleep,
    }
}

/// The effect of one step.
pub open spec fn ww_step(s: WriterWaitState, step: WriterWaitStep) -> WriterWaitState {
    match step {
        WriterWaitStep::Lock { step } => WriterWaitState {
            lock: rw_step(s.lock, step),
            unbumped: if bumps_counter(s.lock, step) {
                s.unbumped + 1
            } else {
                s.unbumped
            },
            ..s
        },
        WriterWaitStep::Bump => WriterWaitState {
            counter: crate::lock::rwlock_opt::counter_bumped(s.counter),
            writers: s.writers.map_values(|p: WriterPhase| phase_bumped(p)),
            unbumped: (s.unbumped - 1) as nat,
            ..s
        },
        WriterWaitStep::Sample { thread } => WriterWaitState {
            writers: s.writers.insert(thread, WriterPhase::Sampled { sample: s.counter, bumps: 0 }),
            ..s
        },
        WriterWaitStep::Check { thread } => match s.writers[thread] {
            WriterPhase::Sampled { sample, bumps } => WriterWaitState {
                writers: s.writers.insert(
                    thread,
                    if spec_writer_must_sleep(s.lock.word) {
                        WriterPhase::Checked { sample, bumps }
                    } else {
                        WriterPhase::Running
                    },
                ),
                ..s
            },
            _ => s,
        },
        WriterWaitStep::Sleep { thread } => match s.writers[thread] {
            WriterPhase::Checked { sample, bumps } => WriterWaitState {
                writers: s.writers.insert(
                    thread,
                    if s.counter == sample {
                        WriterPhase::Asleep
                    } else {
                        WriterPhase::Running
                    },
                ),
                ..s
            },
            _ => s,
        },
        WriterWaitStep::Wake { thread } => WriterWaitState {
            writers: s.writers.insert(thread, WriterPhase::Running),
            ..s
        },
    }
}

/// The unlocked lock with no writer waiting satisfies the invariant.
pub proof fn lemma_ww_init()
    ensures
        ww_inv(ww_init()),
{
}

/// Every enabled step keeps the invariant.
pub proof fn lemma_ww_step_keeps_inv(s: WriterWaitState, step: WriterWaitStep)
    requires
        ww_inv(s),
        ww_enabled(s, step),
    ensures
        ww_inv(ww_step(s, step)),
{
    let s2 = ww_step(s, step);
    match step {
        WriterWaitStep::Lock { step } => {
            lemma_rw_step_keeps_inv(s.lock, step);
            assert forall|t: int| #[trigger] s2.writers.dom().contains(t) implies phase_ok(s2, t) by {
                assert(phase_ok(s, t));
            }
        },
        WriterWaitStep::Bump => {
            assert forall|t: int| #[trigger] s2.writers.dom().contains(t) implies phase_ok(s2, t) by {
                assert(phase_ok(s, t));
                match s.writers[t] {
                    WriterPhase::Sampled { sample, bumps } => {
                        crate::lock::rwlock_opt::lemma_counter_bumped_tracks(s.counter, sample + bumps);
                    },
                    WriterPhase::Checked { sample, bumps } => {
                        crate::lock::rwlock_opt::lemma_counter_bumped_tracks(s.counter, sample + bumps);
                    },
                    _ => {},
                }
            }
        },
        _ => {
            assert forall|t: int| #[trigger] s2.writers.dom().contains(t) implies phase_ok(s2, t) by {
                if s.writers.dom().contains(t) {
                    assert(phase_ok(s, t));
                }
            }
        },
    }
}

/// The writer reads the wake counter before it looks at the state word again,
/// so a wake sent after its sample is not lost on it: a writer about to sleep
/// goes to sleep exactly when no release has bumped the counter since its
/// sample.
pub proof fn lemma_ww_sleeps_iff_no_bump(s: WriterWaitState, thread: int)
    requires
        ww_inv(s),
        ww_no_wrap(s),
        ww_enabled(s, WriterWaitStep::Sleep { thread }),
    ensures
        s.writers[thread] matches WriterPhase::Checked { sample, bumps } && (ww_step(
            s,
            WriterWaitStep::Sleep { thread },
        ).writers[thread] is Asleep <==> bumps == 0),
{
    assert(phase_ok(s, thread));
    if let WriterPhase::Checked { sample, bumps } = s.writers[thread] {
        if s.counter == sample {
            crate::lock::rwlock_opt::lemma_counter_back_at_sample(s.counter, sample, bumps);
        }
    }
}

/// The state after the steps `steps`, taken in order from `s`.
pub open spec fn ww_run(s: WriterWaitState, steps: Seq<WriterWaitStep>) -> WriterWaitState
    decreases steps.len(),
{
    if steps.len() == 0 {
        s
    } else {
        ww_run(ww_step(s, steps[0]), steps.drop_first())
    }
}

/// Each of `steps`, taken in order from `s`, is enabled when it is taken.
pub open spec fn ww_run_enabled(s: WriterWaitState, steps: Seq<WriterWaitStep>) -> bool
    decreases steps.len(),
{
    steps.len() == 0 || (ww_enabled(s, steps[0]) && ww_run_enabled(
        ww_step(s, steps[0]),
        steps.drop_first(),
    ))
}

/// A run of enabled steps from a state satisfying the invariant ends in a
/// state satisfying it.
pub proof fn lemma_ww_run_keeps_inv(s: WriterWaitState, steps: Seq<WriterWaitStep>)
    requires
        ww_inv(s),
        ww_run_enabled(s, steps),
    ensures
        ww_inv(ww_run(s, steps)),
    decreases steps.len(),
{
    if steps.len() > 0 {
        lemma_ww_step_keeps_inv(s, steps[0]);
        lemma_ww_run_keeps_inv(ww_step(s, steps[0]), steps.drop_first());
    }
}

/// In every reachable state, whatever the interleaving from the unlocked lock,
/// every writer's sample tracks the wake counter, so that (by
/// [`lemma_ww_sleeps_iff_no_bump`]) a writer sleeps only if no release bumped
/// the counter since its sample.
pub proof fn lemma_ww_reachable(steps: Seq<WriterWaitStep>)
    requires
        ww_run_enabled(ww_init(), steps),
    ensures
        ww_inv(ww_run(ww_init(), steps)),
{
    lemma_ww_run_keeps_inv(ww_init(), steps);
}

} // verus!
