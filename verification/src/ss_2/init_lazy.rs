//! Lazily initialising a nonzero value in an atomic, with a random number.
//!
//! Zero means "not computed yet"; the value itself is never zero. Two threads
//! may both compute it; the later store wins.
use crate::effect::{load_u64_on, store_u64_on, LoadU64, StoreU64};
use std::sync::atomic::AtomicU64;
use std::sync::atomic::Ordering;
use vstd::prelude::*;

verus! {

/// `rand`'s thread-local generator.
#[verifier::external_type_specification]
#[verifier::external_body]
pub struct ExThreadRng(rand::rngs::ThreadRng);

/// Calls `rand::thread_rng`, the handle of the thread-local generator.
/// Nothing is promised of it.
#[verifier::external_body]
pub(crate) fn thread_rng() -> rand::rngs::ThreadRng {
    rand::thread_rng()
}

/// Calls `rand::Rng::gen_range` on `low..=high`, which `rand` documents as a
/// value in that range (it panics on an empty range, which `requires` rules
/// out). The contract states the range and nothing more: the value is
/// random.
#[verifier::external_body]
fn gen_range_inclusive(rng: &mut rand::rngs::ThreadRng, low: u64, high: u64) -> (r: u64)
    requires
        low <= high,
    ensures
        low <= r <= high,
{
    rand::Rng::gen_range(rng, low..=high)
}

/// Computes a value for the lazy initialisation: a random number from one to
/// ten.
pub fn calculate_x() -> (x: u64)
    ensures
        1 <= x <= 10,
{
    let mut rng = thread_rng();
    gen_range_inclusive(&mut rng, 1, 10)
}

/// What the atomic holds before the value is computed.
pub const NOT_COMPUTED: u64 = 0;

/// Whether a thread that loaded `loaded` must compute the value: only while
/// nothing is stored yet.
pub open spec fn spec_must_compute(loaded: u64) -> bool {
    loaded == NOT_COMPUTED
}

/// Tells whether a thread that loaded `loaded` must compute the value.
pub fn must_compute(loaded: u64) -> (r: bool)
    ensures
        r == spec_must_compute(loaded),
{
    loaded == NOT_COMPUTED
}

/// One call of the lazy initialisation: the value `loaded` from the atomic,
/// and the value returned.
pub struct LazyValue<'a> {
    pub loaded: u64,
    pub value: u64,
    pub load: LoadU64<'a>,
    pub store: Option<StoreU64<'a>>,
}

/// Returns the value in `x`, computing and storing one first if `x` holds
/// zero: a stored value is returned as it is, a computed one is from one to
/// ten. The value returned is never zero.
pub fn get_x(x: &AtomicU64) -> (r: LazyValue<'_>)
    ensures
        !spec_must_compute(r.loaded) ==> r.value == r.loaded,
        spec_must_compute(r.loaded) ==> 1 <= r.value <= 10,
        r.value != 0,
        *r.load.target == *x && r.loaded == r.load.value,
        spec_must_compute(r.loaded) <==> r.store is Some,
        r.store matches Some(st) ==> *st.target == *x && st.value == r.value,
{
    let load = load_u64_on(x, Ordering::Relaxed);
    let loaded = load.value;
    if must_compute(loaded) {
        let value = calculate_x();
        let store = store_u64_on(x, value, Ordering::Relaxed);
        LazyValue { loaded, value, load, store: Some(store) }
    } else {
        LazyValue { loaded, value: loaded, load, store: None }
    }
}

/// The value returned is the one loaded from `x` when that was nonzero;
/// otherwise it is a fresh value from one to ten, which is stored into `x`
/// first, so that later calls return it.
pub proof fn lemma_get_x_keeps_or_publishes(x: AtomicU64, r: LazyValue)
    requires
        *r.load.target == x && r.loaded == r.load.value,
        !spec_must_compute(r.loaded) ==> r.value == r.loaded,
        spec_must_compute(r.loaded) ==> 1 <= r.value <= 10,
        spec_must_compute(r.loaded) <==> r.store is Some,
        r.store matches Some(st) ==> *st.target == x && st.value == r.value,
    ensures
        r.load.value != 0 ==> r.value == r.load.value && r.store is None,
        r.load.value == 0 ==> (r.store matches Some(st) && *st.target == x && st.value
            == r.value && 1 <= st.value <= 10),
        r.value != 0,
{
}

} // verus!
