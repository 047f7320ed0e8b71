//! The two reference counts behind an atomically reference-counted pointer
//! with weak pointers.
//!
//! `data_ref_count` counts the strong pointers (`Arc`); `alloc_ref_count`
//! counts the weak pointers (`Weak`), plus one for all strong pointers
//! together while any exists. The data is dropped when the last strong
//! pointer goes, and the allocation is freed when `alloc_ref_count` reaches
//! zero. `get_mut` briefly sets `alloc_ref_count` to `usize::MAX` to keep new
//! weak pointers out while it checks that its strong pointer is the only
//! pointer of any kind.
//!
//! [`ArcData`] holds the two counts and performs every atomic step of the
//! pointer operations; the pointers themselves and the data they share are
//! kept by the caller. [`ArcState`] and [`arc_step`] describe the counting
//! protocol as a state machine, and the laws below prove that the counts
//! always match the pointers that exist, that a weak pointer upgrades only
//! while the data is alive, that the data is dropped with the last strong
//! pointer, that the allocation is freed only once no pointer remains, and
//! that `get_mut` succeeds only for the sole pointer.
use crate::cpu::fence::memory_fence;
use crate::effect::{
    cas_usize_on, cas_weak_usize_on, fetch_add_usize_on, fetch_sub_usize_on, load_usize_on,
    store_usize_on, CasUsize, LoadUsize, RmwOp, RmwUsize, StoreUsize,
};
use crate::hint::spin_loop;
use std::sync::atomic::AtomicUsize;
use std::sync::atomic::Ordering;
use vstd::prelude::*;

verus! {

/// The count of a single pointer: each count starts there, a release from
/// there is the last, and `get_mut` needs the weak count there.
pub const SOLE: usize = 1;

/// The count that `alloc_ref_count` holds while `get_mut` checks for
/// uniqueness.
pub const LOCKED: usize = usize::MAX;

/// A clone that found more than half of `usize::MAX` pointers aborts the
/// process: the count could otherwise overflow.
pub open spec fn spec_count_overflows(prev: usize) -> bool {
    prev > usize::MAX / 2
}

/// Tells whether a clone that found `prev` pointers must abort the process.
pub fn count_overflows(prev: usize) -> (r: bool)
    ensures
        r == spec_count_overflows(prev),
{
    prev > usize::MAX / 2
}

/// A release that found `prev` was the last of its count.
pub open spec fn spec_is_last(prev: usize) -> bool {
    prev == SOLE
}

/// Tells whether the release that found `prev` released the last count.
pub fn is_last(prev: usize) -> (r: bool)
    ensures
        r == spec_is_last(prev),
{
    prev == SOLE
}

/// What `downgrade` does with the weak count it observed.
pub enum DowngradeAction {
    /// `get_mut` holds the count: spin and look again.
    Spin,
    /// Compare-and-exchange the count from `expected` to `desired`, one
    /// more weak pointer.
    Increment { expected: usize, desired: usize },
}

/// Downgrading spins while `get_mut` holds the count and otherwise adds one
/// weak pointer.
pub open spec fn spec_downgrade_action(n: usize) -> DowngradeAction {
    if n == LOCKED {
        DowngradeAction::Spin
    } else {
        DowngradeAction::Increment { expected: n, desired: (n + 1) as usize }
    }
}

/// A downgrade that observed `usize::MAX - 1` weak pointers panics.
pub open spec fn downgrade_overflows(n: usize) -> bool {
    n == LOCKED - 1
}

/// Tells whether a downgrade that observed `n` must panic.
pub fn downgrade_would_overflow(n: usize) -> (r: bool)
    ensures
        r == downgrade_overflows(n),
{
    n == LOCKED - 1
}

/// Computes the downgrade's decision on the observed count `n`.
pub fn downgrade_action(n: usize) -> (a: DowngradeAction)
    requires
        !downgrade_overflows(n),
    ensures
        a == spec_downgrade_action(n),
{
    if n == LOCKED {
        DowngradeAction::Spin
    } else {
        DowngradeAction::Increment { expected: n, desired: n + 1 }
    }
}

/// What `upgrade` does with the strong count it observed.
pub enum UpgradeAction {
    /// No strong pointer is left: the data is gone and the upgrade fails.
    Gone,
    /// Compare-and-exchange the count from `expected` to `desired`, one
    /// more strong pointer.
    Increment { expected: usize, desired: usize },
}

/// Upgrading fails on a zero count and otherwise adds one strong pointer.
pub open spec fn spec_upgrade_action(n: usize) -> UpgradeAction {
    if n == 0 {
        UpgradeAction::Gone
    } else {
        UpgradeAction::Increment { expected: n, desired: (n + 1) as usize }
    }
}

/// An upgrade that observed `usize::MAX` strong pointers panics.
pub open spec fn upgrade_overflows(n: usize) -> bool {
    n == usize::MAX
}

/// Tells whether an upgrade that observed `n` must panic.
pub fn upgrade_would_overflow(n: usize) -> (r: bool)
    ensures
        r == upgrade_overflows(n),
{
    n == usize::MAX
}

/// Computes the upgrade's decision on the observed count `n`.
pub fn upgrade_action(n: usize) -> (a: UpgradeAction)
    requires
        !upgrade_overflows(n),
    ensures
        a == spec_upgrade_action(n),
{
    if n == 0 {
        UpgradeAction::Gone
    } else {
        UpgradeAction::Increment { expected: n, desired: n + 1 }
    }
}

/// The exchange with which `get_mut` locks the weak count: from a single
/// count ([`SOLE`]) to [`LOCKED`]. Unlocking stores the count it locked
/// from.
pub open spec fn spec_get_mut_lock() -> (usize, usize) {
    (SOLE, LOCKED)
}

/// Computes the exchange with which `get_mut` locks the weak count.
pub fn get_mut_lock() -> (e: (usize, usize))
    ensures
        e == spec_get_mut_lock(),
{
    (SOLE, LOCKED)
}

/// What the check of `get_mut` observed.
pub enum GetMutCheck {
    /// The exchange locking the weak count failed: it found `alloc_count`
    /// (a weak pointer exists, or another check holds the count).
    Held { alloc_count: usize },
    /// The weak count was locked, and the strong count read then was
    /// `data_count`.
    Checked { data_count: usize },
}

/// `get_mut` succeeds when it locked the weak count (so no weak pointer
/// exists) and then found a single strong pointer.
pub open spec fn spec_get_mut_succeeds(c: GetMutCheck) -> bool {
    c matches GetMutCheck::Checked { data_count } && spec_is_last(data_count)
}

/// Computes whether the check that observed `c` lets `get_mut` hand out the
/// data.
pub fn get_mut_succeeds(c: &GetMutCheck) -> (r: bool)
    ensures
        r == spec_get_mut_succeeds(*c),
{
    match c {
        GetMutCheck::Held { .. } => false,
        GetMutCheck::Checked { data_count } => is_last(*data_count),
    }
}

/// The check of `get_mut`: what it observed, and whether the caller's
/// strong pointer is the only pointer of either kind.
pub struct GetMutOutcome<'a> {
    pub check: GetMutCheck,
    pub unique: bool,
    pub lock: CasUsize<'a>,
    pub read: Option<LoadUsize<'a>>,
    pub unlock: Option<StoreUsize<'a>>,
}

/// What counting one more pointer did: the addition to the count, and
/// whether the count it found was within the limit.
pub struct CountUp<'a> {
    pub within_limit: bool,
    pub add: RmwUsize<'a>,
}

/// What uncounting one pointer did: the subtraction from the count, and
/// whether it was the last count.
pub struct CountDown<'a> {
    pub last: bool,
    pub sub: RmwUsize<'a>,
}

/// What one attempt of `downgrade` or `upgrade` did: its outcome, the
/// exchange of the count, if any, and the load after a spin, if any.
pub struct CountAttempt<'a, S> {
    pub step: S,
    pub exchange: Option<CasUsize<'a>>,
    pub reload: Option<LoadUsize<'a>>,
}

/// The outcome of one attempt of `downgrade`.
pub enum DowngradeStep {
    /// One more weak pointer is counted.
    Done,
    /// The attempt failed; the weak count observed last.
    Retry(usize),
}

/// The outcome of one attempt of `upgrade`.
pub enum UpgradeStep {
    /// The strong count was zero: the upgrade fails.
    Gone,
    /// One more strong pointer is counted.
    Done,
    /// The attempt failed; the strong count observed last.
    Retry(usize),
}

/// Counting one more pointer on `count`: it adds one and is within the
/// limit exactly when the count it found was not past half of `usize::MAX`.
pub open spec fn count_up_done(count: AtomicUsize, r: CountUp) -> bool {
    &&& *r.add.target == count && r.add.op == RmwOp::Add && r.add.operand == 1
    &&& r.within_limit == !spec_count_overflows(r.add.prev)
}

/// Uncounting one pointer on `count`: it subtracts one and was the last
/// exactly when the count it found was one.
pub open spec fn count_down_done(count: AtomicUsize, r: CountDown) -> bool {
    &&& *r.sub.target == count && r.sub.op == RmwOp::Sub && r.sub.operand == 1
    &&& r.last == spec_is_last(r.sub.prev)
}

/// The check of `get_mut` on `d`: it exchanges the weak count from a single
/// count to [`LOCKED`]; when that took effect it reads the strong count and
/// stores the single count back, and reports what it read; otherwise it
/// reports the weak count it found.
pub open spec fn get_mut_done(d: ArcData, r: GetMutOutcome) -> bool {
    &&& *r.lock.target == d.alloc_count()
    &&& r.lock.expected == spec_get_mut_lock().0 && r.lock.desired == spec_get_mut_lock().1
    &&& match r.lock.outcome {
        Ok(_) => {
            &&& r.read matches Some(l) && *l.target == d.data_count() && r.check
                == GetMutCheck::Checked { data_count: l.value }
            &&& r.unlock matches Some(u) && *u.target == d.alloc_count() && u.value
                == spec_get_mut_lock().0
        },
        Err(found) => r.check == GetMutCheck::Held { alloc_count: found } && r.read is None
            && r.unlock is None,
    }
    &&& r.unique == spec_get_mut_succeeds(r.check)
}

/// One attempt of `downgrade` on `d` by a thread that observed `n`: it does
/// what [`spec_downgrade_action`] prescribes; an increment exchanges the
/// weak count and succeeds exactly when that took effect, retrying
/// otherwise with the count it found; a spin retries with a fresh load.
pub open spec fn downgrade_done(d: ArcData, n: usize, r: CountAttempt<DowngradeStep>) -> bool {
    match spec_downgrade_action(n) {
        DowngradeAction::Spin => {
            &&& r.exchange is None
            &&& r.reload matches Some(l) && *l.target == d.alloc_count() && r.step
                == DowngradeStep::Retry(l.value)
        },
        DowngradeAction::Increment { expected, desired } => {
            &&& r.reload is None
            &&& r.exchange matches Some(c) && *c.target == d.alloc_count() && c.expected
                == expected && c.desired == desired
            &&& r.exchange matches Some(c) && match c.outcome {
                Ok(_) => r.step == DowngradeStep::Done,
                Err(e) => r.step == DowngradeStep::Retry(e),
            }
        },
    }
}

/// One attempt of `upgrade` on `d` by a thread that observed `n`: it does
/// what [`spec_upgrade_action`] prescribes; an increment exchanges the
/// strong count and succeeds exactly when that took effect, retrying
/// otherwise with the count it found.
pub open spec fn upgrade_done(d: ArcData, n: usize, r: CountAttempt<UpgradeStep>) -> bool {
    &&& r.reload is None
    &&& match spec_upgrade_action(n) {
        UpgradeAction::Gone => r.exchange is None && r.step == UpgradeStep::Gone,
        UpgradeAction::Increment { expected, desired } => {
            &&& r.exchange matches Some(c) && *c.target == d.data_count() && c.expected
                == expected && c.desired == desired
            &&& r.exchange matches Some(c) && match c.outcome {
                Ok(_) => r.step == UpgradeStep::Done,
                Err(e) => r.step == UpgradeStep::Retry(e),
            }
        },
    }
}

/// The two reference counts.
pub struct ArcData {
    data_ref_count: AtomicUsize,
    alloc_ref_count: AtomicUsize,
}

impl ArcData {
    /// The counts of a new pointer: one strong pointer, and the one weak
    /// count that all strong pointers share.
    pub fn new() -> Self {
        ArcData {
            data_ref_count: AtomicUsize::new(SOLE),
            alloc_ref_count: AtomicUsize::new(SOLE),
        }
    }

    /// The strong count.
    pub closed spec fn data_count(&self) -> AtomicUsize {
        self.data_ref_count
    }

    /// The weak count.
    pub closed spec fn alloc_count(&self) -> AtomicUsize {
        self.alloc_ref_count
    }

    /// Counts one more strong pointer (a clone). `false` means the count
    /// was past the limit and the process must abort.
    pub fn clone_arc(&self) -> bool {
        self.clone_arc_op().within_limit
    }

    /// The clone of [`ArcData::clone_arc`], together with its addition.
    pub fn clone_arc_op(&self) -> (r: CountUp<'_>)
        ensures
            count_up_done(self.data_count(), r),
    {
        let add = fetch_add_usize_on(&self.data_ref_count, 1, Ordering::Relaxed);
        CountUp { within_limit: !count_overflows(add.prev), add }
    }

    /// Uncounts one strong pointer (a drop). `true` means it was the last
    /// one: the data must be dropped, then the shared weak count released.
    pub fn release_arc(&self) -> bool {
        self.release_arc_op().last
    }

    /// The drop of [`ArcData::release_arc`], together with its subtraction.
    pub fn release_arc_op(&self) -> (r: CountDown<'_>)
        ensures
            count_down_done(self.data_count(), r),
    {
        let sub = fetch_sub_usize_on(&self.data_ref_count, 1, Ordering::Release);
        let last = is_last(sub.prev);
        if last {
            memory_fence(Ordering::Acquire);
        }
        CountDown { last, sub }
    }

    /// Counts one more weak pointer (a clone). `false` means the count was
    /// past the limit and the process must abort.
    pub fn clone_weak(&self) -> bool {
        self.clone_weak_op().within_limit
    }

    /// The clone of [`ArcData::clone_weak`], together with its addition.
    pub fn clone_weak_op(&self) -> (r: CountUp<'_>)
        ensures
            count_up_done(self.alloc_count(), r),
    {
        let add = fetch_add_usize_on(&self.alloc_ref_count, 1, Ordering::Relaxed);
        CountUp { within_limit: !count_overflows(add.prev), add }
    }

    /// Uncounts one weak pointer (a drop). `true` means it was the last
    /// count: the allocation must be freed.
    pub fn release_weak(&self) -> bool {
        self.release_weak_op().last
    }

    /// The drop of [`ArcData::release_weak`], together with its
    /// subtraction.
    pub fn release_weak_op(&self) -> (r: CountDown<'_>)
        ensures
            count_down_done(self.alloc_count(), r),
    {
        let sub = fetch_sub_usize_on(&self.alloc_ref_count, 1, Ordering::Release);
        let last = is_last(sub.prev);
        if last {
            memory_fence(Ordering::Acquire);
        }
        CountDown { last, sub }
    }

    /// Reads the weak count, as `downgrade` does first.
    pub fn load_alloc_count(&self) -> usize {
        self.alloc_ref_count.load(Ordering::Relaxed)
    }

    /// Reads the strong count, as `upgrade` does first.
    pub fn load_data_count(&self) -> usize {
        self.data_ref_count.load(Ordering::Relaxed)
    }

    /// One attempt of `downgrade` by a thread that last observed `n` weak
    /// counts: while `get_mut` holds the count, a spin and a new look;
    /// otherwise a compare-and-exchange adding one. It succeeds only from an
    /// observed count other than [`LOCKED`].
    pub fn downgrade_step(&self, n: usize) -> (r: DowngradeStep)
        requires
            !downgrade_overflows(n),
        ensures
            r is Done ==> n != LOCKED,
    {
        self.downgrade_attempt(n).step
    }

    /// The attempt of [`ArcData::downgrade_step`], together with the
    /// operations it performed.
    pub fn downgrade_attempt(&self, n: usize) -> (r: CountAttempt<'_, DowngradeStep>)
        requires
            !downgrade_overflows(n),
        ensures
            downgrade_done(*self, n, r),
    {
        match downgrade_action(n) {
            DowngradeAction::Spin => {
                spin_loop();
                let l = load_usize_on(&self.alloc_ref_count, Ordering::Relaxed);
                CountAttempt { step: DowngradeStep::Retry(l.value), exchange: None, reload: Some(l) }
            },
            DowngradeAction::Increment { expected, desired } => {
                let c = cas_weak_usize_on(
                    &self.alloc_ref_count,
                    expected,
                    desired,
                    Ordering::Acquire,
                    Ordering::Relaxed,
                );
                let step = match c.outcome {
                    Ok(_) => DowngradeStep::Done,
                    Err(e) => DowngradeStep::Retry(e),
                };
                CountAttempt { step, exchange: Some(c), reload: None }
            },
        }
    }

    /// One attempt of `upgrade` by a thread that last observed `n` strong
    /// counts: a zero count fails the upgrade, any other is incremented by a
    /// compare-and-exchange. It succeeds only from a nonzero observed count,
    /// and fails as [`UpgradeStep::Gone`] exactly on a zero one.
    pub fn upgrade_step(&self, n: usize) -> (r: UpgradeStep)
        requires
            !upgrade_overflows(n),
        ensures
            r is Done ==> n != 0,
            r is Gone <==> n == 0,
    {
        self.upgrade_attempt(n).step
    }

    /// The attempt of [`ArcData::upgrade_step`], together with the exchange
    /// it performed.
    pub fn upgrade_attempt(&self, n: usize) -> (r: CountAttempt<'_, UpgradeStep>)
        requires
            !upgrade_overflows(n),
        ensures
            upgrade_done(*self, n, r),
    {
        match upgrade_action(n) {
            UpgradeAction::Gone => CountAttempt { step: UpgradeStep::Gone, exchange: None, reload: None },
            UpgradeAction::Increment { expected, desired } => {
                let c = cas_weak_usize_on(
                    &self.data_ref_count,
                    expected,
                    desired,
                    Ordering::Relaxed,
                    Ordering::Relaxed,
                );
                let step = match c.outcome {
                    Ok(_) => UpgradeStep::Done,
                    Err(e) => UpgradeStep::Retry(e),
                };
                CountAttempt { step, exchange: Some(c), reload: None }
            },
        }
    }

    /// The check of `get_mut`: locks the weak count with the exchange of
    /// [`spec_get_mut_lock`] (which fails while any weak pointer exists),
    /// reads the strong count, and unlocks the weak count again. The caller
    /// may hand out the data exactly when [`spec_get_mut_succeeds`] holds of
    /// what the check observed.
    pub fn is_unique(&self) -> (r: GetMutOutcome<'_>)
        ensures
            r.unique == spec_get_mut_succeeds(r.check),
            get_mut_done(*self, r),
    {
        let (single, locked) = get_mut_lock();
        let lock = cas_usize_on(&self.alloc_ref_count, single, locked, Ordering::Acquire, Ordering::Relaxed);
        let (check, read, unlock) = match lock.outcome {
            Ok(_) => {
                let read = load_usize_on(&self.data_ref_count, Ordering::Relaxed);
                let unlock = store_usize_on(&self.alloc_ref_count, single, Ordering::Release);
                (GetMutCheck::Checked { data_count: read.value }, Some(read), Some(unlock))
            },
            Err(alloc_count) => (GetMutCheck::Held { alloc_count }, None, None),
        };
        let unique = get_mut_succeeds(&check);
        if unique {
            memory_fence(Ordering::Acquire);
        }
        GetMutOutcome { check, unique, lock, read, unlock }
    }
}

// What the pointer operations do to the two counts.

/// Cloning a pointer adds exactly one to its own count (the strong count
/// for a strong pointer, the weak count for a weak one), and asks for an
/// abort exactly when the count found was past half of `usize::MAX`;
/// dropping one subtracts exactly one and is the last exactly when the count
/// found was one.
pub proof fn lemma_count_ops(
    d: ArcData,
    ca: CountUp,
    ra: CountDown,
    cw: CountUp,
    rw: CountDown,
)
    requires
        count_up_done(d.data_count(), ca),
        count_down_done(d.data_count(), ra),
        count_up_done(d.alloc_count(), cw),
        count_down_done(d.alloc_count(), rw),
    ensures
        *ca.add.target == d.data_count() && ca.add.op == RmwOp::Add && ca.add.operand == 1,
        *ra.sub.target == d.data_count() && ra.sub.op == RmwOp::Sub && ra.sub.operand == 1,
        *cw.add.target == d.alloc_count() && cw.add.op == RmwOp::Add && cw.add.operand == 1,
        *rw.sub.target == d.alloc_count() && rw.sub.op == RmwOp::Sub && rw.sub.operand == 1,
        ca.within_limit <==> ca.add.prev <= usize::MAX / 2,
        cw.within_limit <==> cw.add.prev <= usize::MAX / 2,
        ra.last <==> ra.sub.prev == 1,
        rw.last <==> rw.sub.prev == 1,
{
}

/// `get_mut` succeeds only when its exchange of the weak count from one to
/// [`LOCKED`] took effect (so no weak pointer existed) and the strong count
/// it then read was one; whenever it locked the weak count it stores one
/// back, so the weak count is restored.
pub proof fn lemma_get_mut_only_for_sole_pointer(d: ArcData, r: GetMutOutcome)
    requires
        get_mut_done(d, r),
    ensures
        *r.lock.target == d.alloc_count() && r.lock.expected == 1 && r.lock.desired == LOCKED,
        r.unique ==> r.lock.outcome is Ok && (r.read matches Some(l) && *l.target
            == d.data_count() && l.value == 1),
        r.lock.outcome is Ok ==> (r.unlock matches Some(u) && *u.target == d.alloc_count()
            && u.value == 1),
        r.lock.outcome is Err ==> !r.unique && r.unlock is None,
{
}

/// A downgrade adds one weak count only by an exchange of the weak count
/// from the count it observed, never [`LOCKED`], to one more; an upgrade
/// adds one strong count only by an exchange of the strong count from a
/// nonzero count it observed to one more, and fails exactly on zero.
pub proof fn lemma_downgrade_upgrade_add_one(
    d: ArcData,
    n: usize,
    m: usize,
    dg: CountAttempt<DowngradeStep>,
    ug: CountAttempt<UpgradeStep>,
)
    requires
        !downgrade_overflows(n),
        !upgrade_overflows(m),
        downgrade_done(d, n, dg),
        upgrade_done(d, m, ug),
    ensures
        dg.step == DowngradeStep::Done ==> n != LOCKED && (dg.exchange matches Some(c)
            && *c.target == d.alloc_count() && c.expected == n && c.desired == n + 1
            && c.outcome is Ok),
        ug.step == UpgradeStep::Done ==> m != 0 && (ug.exchange matches Some(c) && *c.target
            == d.data_count() && c.expected == m && c.desired == m + 1 && c.outcome is Ok),
        ug.step == UpgradeStep::Gone <==> m == 0,
{
}

// The counting protocol as a state machine.

/// The two counts together with the pointers that exist: `arcs` strong
/// pointers, `weaks` weak pointers (counting the shared weak count that the
/// last strong pointer hands on when it goes), whether the data is alive,
/// and whether `get_mut` holds the weak count.
pub ghost struct ArcState {
    pub data_count: usize,
    pub alloc_count: usize,
    pub arcs: nat,
    pub weaks: nat,
    pub data_alive: bool,
    pub checking: bool,
}

/// The atomic steps on the counts.
pub ghost enum ArcStep {
    /// A strong pointer is cloned.
    CloneArc,
    /// A strong pointer is dropped.
    DropArc,
    /// A strong pointer is downgraded: the compare-and-exchange from the
    /// weak count the thread observed.
    Downgrade { observed: usize },
    /// A weak pointer is upgraded: the compare-and-exchange from the strong
    /// count the thread observed.
    Upgrade { observed: usize },
    /// A weak pointer is cloned.
    CloneWeak,
    /// A weak pointer is dropped.
    DropWeak,
    /// `get_mut` locks the weak count.
    LockForGetMut,
    /// `get_mut` reads the strong count and unlocks the weak count.
    CheckForGetMut,
}

/// The counts of a new pointer.
pub open spec fn arc_init() -> ArcState {
    ArcState {
        data_count: SOLE,
        alloc_count: SOLE,
        arcs: 1,
        weaks: 0,
        data_alive: true,
        checking: false,
    }
}

/// The counts match the pointers: the strong count is the number of strong
/// pointers, which are nonzero exactly while the data is alive; the weak
/// count is the number of weak pointers plus one while a strong pointer
/// exists, except while `get_mut` holds it at [`LOCKED`] (and then no weak
/// pointer exists).
pub open spec fn arc_inv(s: ArcState) -> bool {
    &&& s.data_count == s.arcs
    &&& s.data_alive == (s.arcs > 0)
    &&& if s.checking {
        s.alloc_count == LOCKED && s.weaks == 0 && s.arcs > 0
    } else {
        s.alloc_count == s.weaks + (if s.arcs > 0 {
            1int
        } else {
            0int
        })
    }
}

/// When a step can be taken: strong-pointer steps need a strong pointer
/// (while `get_mut` checks, its own stays), weak-pointer steps a weak one;
/// clones that would abort, and observed counts that would panic, are left
/// out; only the thread of `get_mut` checks.
pub open spec fn arc_enabled(s: ArcState, step: ArcStep) -> bool {
    match step {
        ArcStep::CloneArc => s.arcs > 0 && !spec_count_overflows(s.data_count),
        ArcStep::DropArc => s.arcs > (if s.checking {
            1int
        } else {
            0int
        }),
        ArcStep::Downgrade { observed } => s.arcs > 0 && !downgrade_overflows(observed)
            && spec_downgrade_action(observed) is Increment,
        ArcStep::Upgrade { observed } => s.weaks > 0 && !upgrade_overflows(observed)
            && spec_upgrade_action(observed) is Increment,
        ArcStep::CloneWeak => s.weaks > 0 && !spec_count_overflows(s.alloc_count),
        ArcStep::DropWeak => s.weaks > 0,
        ArcStep::LockForGetMut => s.arcs > 0,
        ArcStep::CheckForGetMut => s.checking,
    }
}

/// Whether the step drops the data: the last strong pointer goes.
pub open spec fn drops_data(s: ArcState, step: ArcStep) -> bool {
    step is DropArc && spec_is_last(s.data_count)
}

/// Whether the step frees the allocation: the last weak count goes.
pub open spec fn frees(s: ArcState, step: ArcStep) -> bool {
    step is DropWeak && spec_is_last(s.alloc_count)
}

/// Whether the step is an upgrade that succeeds.
pub open spec fn upgrades(s: ArcState, step: ArcStep) -> bool {
    step matches ArcStep::Upgrade { observed } && s.data_count == observed
}

/// Whether the step is the check of `get_mut` finding the pointer unique.
pub open spec fn finds_unique(s: ArcState, step: ArcStep) -> bool {
    step is CheckForGetMut && spec_get_mut_succeeds(
        GetMutCheck::Checked { data_count: s.data_count },
    )
}

/// The effect of one step.
pub open spec fn arc_step(s: ArcState, step: ArcStep) -> ArcState {
    match step {
        ArcStep::CloneArc => ArcState {
            data_count: (s.data_count + 1) as usize,
            arcs: s.arcs + 1,
            ..s
        },
        ArcStep::DropArc => {
            if spec_is_last(s.data_count) {
                ArcState {
                    data_count: 0,
                    arcs: 0,
                    weaks: s.weaks + 1,
                    data_alive: false,
                    ..s
                }
            } else {
                ArcState {
                    data_count: (s.data_count - 1) as usize,
                    arcs: (s.arcs - 1) as nat,
                    ..s
                }
            }
        },
        ArcStep::Downgrade { observed } => {
            if s.alloc_count == observed {
                ArcState { alloc_count: (observed + 1) as usize, weaks: s.weaks + 1, ..s }
            } else {
                s
            }
        },
        ArcStep::Upgrade { observed } => {
            if s.data_count == observed {
                ArcState { data_count: (observed + 1) as usize, arcs: s.arcs + 1, ..s }
            } else {
                s
            }
        },
        ArcStep::CloneWeak => ArcState {
            alloc_count: (s.alloc_count + 1) as usize,
            weaks: s.weaks + 1,
            ..s
        },
        ArcStep::DropWeak => ArcState {
            alloc_count: (s.alloc_count - 1) as usize,
            weaks: (s.weaks - 1) as nat,
            ..s
        },
        ArcStep::LockForGetMut => {
            if s.alloc_count == spec_get_mut_lock().0 {
                ArcState { alloc_count: spec_get_mut_lock().1, checking: true, ..s }
            } else {
                s
            }
        },
        ArcStep::CheckForGetMut => ArcState {
            alloc_count: spec_get_mut_lock().0,
            checking: false,
            ..s
        },
    }
}

/// A new pointer satisfies the invariant.
pub proof fn lemma_arc_init()
    ensures
        arc_inv(arc_init()),
{
}

/// Every enabled step keeps the invariant.
pub proof fn lemma_arc_step_keeps_inv(s: ArcState, step: ArcStep)
    requires
        arc_inv(s),
        arc_enabled(s, step),
    ensures
        arc_inv(arc_step(s, step)),
{
}

/// The data is dropped exactly when the last strong pointer goes, and a
/// weak pointer upgrades only while the data is still alive.
pub proof fn lemma_arc_data_lifetime(s: ArcState, step: ArcStep)
    requires
        arc_inv(s),
        arc_enabled(s, step),
    ensures
        drops_data(s, step) ==> s.arcs == 1 && arc_step(s, step).arcs == 0 && !arc_step(
            s,
            step,
        ).data_alive,
        step is DropArc && !drops_data(s, step) ==> arc_step(s, step).data_alive,
        upgrades(s, step) ==> s.data_alive && arc_step(s, step).arcs == s.arcs + 1,
        !s.data_alive ==> !upgrades(s, step) && !arc_step(s, step).data_alive,
{
}

/// The allocation is freed only when no pointer of either kind remains.
pub proof fn lemma_arc_free_when_unreferenced(s: ArcState, step: ArcStep)
    requires
        arc_inv(s),
        arc_enabled(s, step),
    ensures
        frees(s, step) ==> arc_step(s, step).arcs == 0 && arc_step(s, step).weaks == 0,
        step is DropWeak && !frees(s, step) ==> arc_step(s, step).arcs > 0 || arc_step(
            s,
            step,
        ).weaks > 0,
{
}

/// `get_mut` succeeds only for the one pointer in existence: when its check
/// finds the strong count at one, there is one strong pointer and no weak
/// pointer.
pub proof fn lemma_arc_get_mut_unique(s: ArcState, step: ArcStep)
    requires
        arc_inv(s),
        arc_enabled(s, step),
    ensures
        finds_unique(s, step) ==> s.arcs == 1 && s.weaks == 0,
        step is LockForGetMut && arc_step(s, step).checking && !s.checking ==> s.weaks == 0,
{
}

/// The state after the steps `steps`, taken in order from `s`.
pub open spec fn arc_run(s: ArcState, steps: Seq<ArcStep>) -> ArcState
    decreases steps.len(),
{
    if steps.len() == 0 {
        s
    } else {
        arc_run(arc_step(s, steps[0]), steps.drop_first())
    }
}

/// Each of `steps`, taken in order from `s`, is enabled when it is taken.
pub open spec fn arc_run_enabled(s: ArcState, steps: Seq<ArcStep>) -> bool
    decreases steps.len(),
{
    steps.len() == 0 || (arc_enabled(s, steps[0]) && arc_run_enabled(
        arc_step(s, steps[0]),
        steps.drop_first(),
    ))
}

/// A run of enabled steps from a state satisfying the invariant ends in a
/// state satisfying it.
pub proof fn lemma_arc_run_keeps_inv(s: ArcState, steps: Seq<ArcStep>)
    requires
        arc_inv(s),
        arc_run_enabled(s, steps),
    ensures
        arc_inv(arc_run(s, steps)),
    decreases steps.len(),
{
    if steps.len() > 0 {
        lemma_arc_step_keeps_inv(s, steps[0]);
        lemma_arc_run_keeps_inv(arc_step(s, steps[0]), steps.drop_first());
    }
}

/// In every state reachable from a new pointer, whatever the interleaving of
/// the threads' steps, the counts match the pointers that exist and the data
/// is alive exactly while a strong pointer exists.
pub proof fn lemma_arc_reachable_counts(steps: Seq<ArcStep>)
    requires
        arc_run_enabled(arc_init(), steps),
    ensures
        arc_inv(arc_run(arc_init(), steps)),
        arc_run(arc_init(), steps).data_alive == (arc_run(arc_init(), steps).arcs > 0),
{
    lemma_arc_run_keeps_inv(arc_init(), steps);
}

} // verus!
