//! Single atomic instructions on an `AtomicI32`, each with relaxed ordering.
//!
//! What an atomic operation reads depends on the other threads that share the
//! atomic, so these functions promise nothing about the values they return.
//! The compare-and-exchange loop that emulates `fetch_or(10)` runs one
//! attempt per [`cmp_ten_exchg_step`]; the value each attempt writes is
//! [`or_ten`] of the value it observed, and
//! [`lemma_cmp_ten_exchg_loop_is_fetch_or`] shows that a successful attempt
//! does what `fetch_or(10)` does.
use crate::effect::{
    cas_i32_on, fetch_add_i32_on, fetch_or_i32_on, load_i32_on, store_i32_on, CasI32, LoadI32, RmwI32,
    RmwOp, StoreI32,
};
use std::sync::atomic::AtomicI32;
use std::sync::atomic::Ordering;
use vstd::prelude::*;

verus! {

/// Stores `0` into `x`.
pub fn store(x: &AtomicI32) -> (r: StoreI32<'_>)
    ensures
        *r.target == *x && r.value == 0,
{
    store_i32_on(x, 0, Ordering::Relaxed)
}

/// Loads the value of `x`.
pub fn load(x: &AtomicI32) -> i32 {
    load_op(x).value
}

/// The load of [`load`], as a record: the value returned is what the load
/// of `x` returned.
pub fn load_op(x: &AtomicI32) -> (r: LoadI32<'_>)
    ensures
        *r.target == *x,
{
    load_i32_on(x, Ordering::Relaxed)
}

/// Adds ten to `x` (wrapping), discarding the previous value.
pub fn add_ten(x: &AtomicI32) -> (r: RmwI32<'_>)
    ensures
        *r.target == *x && r.op == RmwOp::Add && r.operand == 10,
{
    fetch_add_i32_on(x, 10, Ordering::Relaxed)
}

/// Adds ten to `x` (wrapping) and returns the previous value.
pub fn add_ten_i32(x: &AtomicI32) -> i32 {
    add_ten(x).prev
}

/// Sets the bits of ten in `x` with `fetch_or` and returns the previous value.
pub fn cmp_ten_exchg(x: &AtomicI32) -> i32 {
    or_ten_op(x).prev
}

/// The `fetch_or` of [`cmp_ten_exchg`], as a record: it sets the bits of ten
/// in `x`, and [`cmp_ten_exchg`] returns the value it found.
pub fn or_ten_op(x: &AtomicI32) -> (r: RmwI32<'_>)
    ensures
        *r.target == *x && r.op == RmwOp::Or && r.operand == 10,
{
    fetch_or_i32_on(x, 10, Ordering::Relaxed)
}

/// The value that `cmp_ten_exchg` writes over `current`: `current | 10`.
pub open spec fn spec_or_ten(current: i32) -> i32 {
    current | 10
}

/// Computes the value that replaces `current`.
pub fn or_ten(current: i32) -> (new: i32)
    ensures
        new == spec_or_ten(current),
{
    current | 10
}

/// The outcome of one compare-and-exchange attempt of
/// [`cmp_ten_exchg_loop`].
pub enum OrTenStep {
    /// The exchange took place; the value replaced.
    Done(i32),
    /// The exchange failed; the value found in its place.
    Retry(i32),
}

/// One attempt of the compare-and-exchange loop that emulates `fetch_or(10)`:
/// tries to replace `current` by `current | 10`.
pub fn cmp_ten_exchg_step(x: &AtomicI32, current: i32) -> OrTenStep {
    cmp_ten_exchg_attempt(x, current).step
}

/// What one attempt of the loop did: its outcome and its exchange.
pub struct OrTenAttempt<'a> {
    pub step: OrTenStep,
    pub exchange: CasI32<'a>,
}

/// The attempt of [`cmp_ten_exchg_step`], together with its exchange: it
/// exchanges `x` from `current` to [`spec_or_ten`] of it, and reports the
/// value the exchange returned, as done exactly when it took effect.
pub fn cmp_ten_exchg_attempt(x: &AtomicI32, current: i32) -> (r: OrTenAttempt<'_>)
    ensures
        *r.exchange.target == *x,
        r.exchange.expected == current && r.exchange.desired == spec_or_ten(current),
        match r.exchange.outcome {
            Ok(v) => r.step == OrTenStep::Done(v),
            Err(v) => r.step == OrTenStep::Retry(v),
        },
{
    let new = or_ten(current);
    let exchange = cas_i32_on(x, current, new, Ordering::Relaxed, Ordering::Relaxed);
    let step = match exchange.outcome {
        Ok(v) => OrTenStep::Done(v),
        Err(v) => OrTenStep::Retry(v),
    };
    OrTenAttempt { step, exchange }
}

// What the two ways of setting the bits of ten do to the atomic word.

/// `fetch_or(val)` on a word holding `word`: returns `word` and leaves
/// `word | val`.
pub open spec fn spec_fetch_or(word: i32, val: i32) -> (i32, i32) {
    (word, word | val)
}

/// A compare-and-exchange from `expected` to `new` on a word holding
/// `word`: on a match, returns `Ok(word)` and leaves `new`; otherwise
/// returns `Err(word)` and leaves the word as it was.
pub open spec fn spec_compare_exchange(word: i32, expected: i32, new: i32) -> (Result<i32, i32>, i32) {
    if word == expected {
        (Ok(word), new)
    } else {
        (Err(word), word)
    }
}

/// The compare-and-exchange loop is equivalent to `fetch_or(10)`: an
/// attempt from the value it observed either succeeds, returning and
/// leaving exactly what `fetch_or(10)` would, or changes nothing and hands
/// back the current word, from which the next attempt succeeds unless the
/// word changes again.
pub proof fn lemma_cmp_ten_exchg_loop_is_fetch_or(word: i32, current: i32)
    ensures
        ({
            let (r, after) = spec_compare_exchange(word, current, spec_or_ten(current));
            &&& r is Ok ==> (r->Ok_0, after) == spec_fetch_or(word, 10)
            &&& r is Err ==> after == word && r->Err_0 == word
            &&& spec_compare_exchange(word, word, spec_or_ten(word)).0 is Ok
        }),
{
}

} // verus!
