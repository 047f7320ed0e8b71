//! Incrementing an atomic counter with a compare-and-exchange loop.
use crate::effect::{cas_on, Cas};
use std::sync::atomic::AtomicU32;
use std::sync::atomic::Ordering;
use vstd::prelude::*;

verus! {

/// The value that replaces `current`: one more.
pub open spec fn spec_incremented(current: u32) -> u32 {
    (current + 1) as u32
}

/// Computes the value that replaces `current`.
pub fn incremented(current: u32) -> (new: u32)
    requires
        current < u32::MAX,
    ensures
        new == spec_incremented(current),
{
    current + 1
}

/// One attempt of the increment loop by a thread that last observed
/// `current`: a compare-and-exchange from `current` to `current + 1`.
/// `Err` carries the value found in its place.
pub fn increment_step(a: &AtomicU32, current: u32) -> (r: Result<(), u32>)
    requires
        current < u32::MAX,
{
    increment_attempt(a, current).result
}

/// What one attempt of the increment loop did: its result and the exchange
/// it performed.
pub struct IncrementAttempt<'a> {
    pub result: Result<(), u32>,
    pub exchange: Cas<'a>,
}

/// An attempt on `a` from `current`: it exchanges `a` from `current` to
/// one more; it succeeds exactly when that took effect, and otherwise hands
/// back the value the exchange found.
pub open spec fn increment_attempt_done(a: AtomicU32, current: u32, r: IncrementAttempt) -> bool {
    &&& *r.exchange.target == a
    &&& r.exchange.expected == current && r.exchange.desired == spec_incremented(current)
    &&& match r.exchange.outcome {
        Ok(_) => r.result == Ok::<(), u32>(()),
        Err(v) => r.result == Err::<(), u32>(v),
    }
}

/// The attempt of [`increment_step`], together with its exchange.
pub fn increment_attempt(a: &AtomicU32, current: u32) -> (r: IncrementAttempt<'_>)
    requires
        current < u32::MAX,
    ensures
        increment_attempt_done(*a, current, r),
{
    let new = incremented(current);
    let exchange = cas_on(a, current, new, Ordering::Relaxed, Ordering::Relaxed);
    let result = match exchange.outcome {
        Ok(_) => Ok(()),
        Err(v) => Err(v),
    };
    IncrementAttempt { result, exchange }
}

/// An attempt succeeds only by an exchange from the value it observed to
/// exactly one more that took effect; a failed attempt hands back the value
/// the exchange found.
pub proof fn lemma_increment_attempt_adds_one(a: AtomicU32, current: u32, r: IncrementAttempt)
    requires
        current < u32::MAX,
        increment_attempt_done(a, current, r),
    ensures
        *r.exchange.target == a && r.exchange.expected == current && r.exchange.desired
            == current + 1,
        r.result is Ok <==> r.exchange.outcome is Ok,
        r.exchange.outcome matches Err(v) ==> r.result == Err::<(), u32>(v),
{
}

/// A compare-and-exchange from `expected` to `new` on a word holding
/// `word`: on a match, returns `Ok(word)` and leaves `new`; otherwise
/// returns `Err(word)` and leaves the word as it was.
pub open spec fn spec_compare_exchange(word: u32, expected: u32, new: u32) -> (Result<u32, u32>, u32) {
    if word == expected {
        (Ok(word), new)
    } else {
        (Err(word), word)
    }
}

/// An attempt that meets the word it observed adds exactly one, and a
/// failed attempt changes nothing and hands back the current word, from
/// which the next attempt succeeds unless the word changes again.
pub proof fn lemma_increment_adds_one(word: u32, current: u32)
    requires
        current < u32::MAX,
    ensures
        ({
            let (r, after) = spec_compare_exchange(word, current, spec_incremented(current));
            &&& r is Ok ==> after == word + 1
            &&& r is Err ==> after == word && r->Err_0 == word
            &&& word < u32::MAX ==> spec_compare_exchange(word, word, spec_incremented(word)).0 is Ok
        }),
{
}

// Several callers incrementing one counter concurrently.

/// The counter, the value it started from, and the callers whose increment
/// has taken effect (each caller returns after its one successful
/// exchange).
pub ghost struct IncrementState {
    pub word: u32,
    pub start: nat,
    pub done: Set<int>,
}

/// One attempt by `thread`, which last observed `observed`: a
/// compare-and-exchange from `observed` to `observed + 1`.
pub ghost struct IncrementStep {
    pub thread: int,
    pub observed: u32,
}

/// A counter holding `start`, with no increment taken effect.
pub open spec fn increment_init(start: u32) -> IncrementState {
    IncrementState { word: start, start: start as nat, done: Set::empty() }
}

/// The counter has moved on by one for each caller done, and by nothing
/// else.
pub open spec fn increment_inv(s: IncrementState) -> bool {
    &&& s.done.finite()
    &&& s.word == s.start + s.done.len()
}

/// A caller attempts only while it is not done, and only from a value it
/// can increment.
pub open spec fn increment_enabled(s: IncrementState, step: IncrementStep) -> bool {
    !s.done.contains(step.thread) && step.observed < u32::MAX
}

/// The effect of an attempt: it takes effect when the counter still holds
/// the observed value.
pub open spec fn increment_step_effect(s: IncrementState, step: IncrementStep) -> IncrementState {
    let (r, after) = spec_compare_exchange(s.word, step.observed, spec_incremented(step.observed));
    if r is Ok {
        IncrementState { word: after, done: s.done.insert(step.thread), ..s }
    } else {
        s
    }
}

/// The state after the attempts `steps`, taken in order from `s`.
pub open spec fn increment_run(s: IncrementState, steps: Seq<IncrementStep>) -> IncrementState
    decreases steps.len(),
{
    if steps.len() == 0 {
        s
    } else {
        increment_run(increment_step_effect(s, steps[0]), steps.drop_first())
    }
}

/// Each of `steps`, taken in order from `s`, is enabled when it is taken.
pub open spec fn increment_run_enabled(s: IncrementState, steps: Seq<IncrementStep>) -> bool
    decreases steps.len(),
{
    steps.len() == 0 || (increment_enabled(s, steps[0]) && increment_run_enabled(
        increment_step_effect(s, steps[0]),
        steps.drop_first(),
    ))
}

/// Every enabled attempt keeps the invariant, and never lowers the counter.
pub proof fn lemma_increment_step_keeps_inv(s: IncrementState, step: IncrementStep)
    requires
        increment_inv(s),
        increment_enabled(s, step),
    ensures
        increment_inv(increment_step_effect(s, step)),
        increment_step_effect(s, step).word >= s.word,
{
    vstd::set::axiom_set_insert_finite(s.done, step.thread);
    vstd::set::axiom_set_insert_len(s.done, step.thread);
}

/// No increment is lost, whatever the interleaving of the callers'
/// attempts: the counter always equals its start plus the number of callers
/// done, and never decreases. So once `k` callers have returned, a counter
/// that started at `v` holds `v + k`.
pub proof fn lemma_increment_run(s: IncrementState, steps: Seq<IncrementStep>)
    requires
        increment_inv(s),
        increment_run_enabled(s, steps),
    ensures
        increment_inv(increment_run(s, steps)),
        increment_run(s, steps).word >= s.word,
        s.done.subset_of(increment_run(s, steps).done),
        increment_run(s, steps).start == s.start,
    decreases steps.len(),
{
    if steps.len() > 0 {
        lemma_increment_step_keeps_inv(s, steps[0]);
        lemma_increment_run(increment_step_effect(s, steps[0]), steps.drop_first());
    }
}

/// From a counter holding `start`: after any run of attempts in which every
/// caller is done, the counter holds `start` plus the number of callers.
pub proof fn lemma_increment_all_done(start: u32, steps: Seq<IncrementStep>, callers: Set<int>)
    requires
        increment_run_enabled(increment_init(start), steps),
        increment_run(increment_init(start), steps).done == callers,
    ensures
        increment_run(increment_init(start), steps).word == start + callers.len(),
{
    broadcast use vstd::set::axiom_set_empty_finite, vstd::set::axiom_set_empty_len;

    lemma_increment_run(increment_init(start), steps);
}

} // verus!
