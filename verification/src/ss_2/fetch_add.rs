//! Handing out unique identifiers from an atomic counter, below a limit of
//! a thousand.
//!
//! Each function takes one identifier with `fetch_add` and refuses it when
//! it is at or past the limit; they differ in what happens then. Each
//! returns the identifier it fetched together with what it hands out for it
//! ([`spec_id_outcome`]): the fetched identifier below the limit, `None`
//! past it, on which the calling program panics ("too many IDs") or aborts.
use crate::effect::{fetch_add_on, fetch_sub_on, Rmw, RmwOp};
use std::sync::atomic::AtomicU32;
use std::sync::atomic::Ordering;
use vstd::prelude::*;

verus! {

/// The number of identifiers handed out.
pub const ID_LIMIT: u32 = 1000;

/// What each call adds to the counter, and what a refused call of the
/// decrement variant takes back.
pub const ID_STEP: u32 = 1;

/// Tells whether `id` may be handed out.
pub fn id_in_range(id: u32) -> (r: bool)
    ensures
        r == (id < ID_LIMIT),
{
    id < ID_LIMIT
}

/// What a call hands out for the identifier `fetched` it took from the
/// counter: that identifier while it is below the limit, nothing past it.
pub open spec fn spec_id_outcome(fetched: u32) -> Option<u32> {
    if fetched < ID_LIMIT {
        Some(fetched)
    } else {
        None
    }
}

/// Computes what a call hands out for the identifier `fetched`.
pub fn id_outcome(fetched: u32) -> (r: Option<u32>)
    ensures
        r == spec_id_outcome(fetched),
{
    if id_in_range(fetched) {
        Some(fetched)
    } else {
        None
    }
}

/// One call's take from the counter: the identifier `fetched` that its
/// `fetch_add` returned, and the identifier `id` handed out for it (`None`
/// past the limit, on which the calling program panics or aborts).
pub struct IdGrant<'a> {
    pub fetched: u32,
    pub id: Option<u32>,
    pub take: Rmw<'a>,
    pub give_back: Option<Rmw<'a>>,
}

/// A call on the counter `next_id`: it adds [`ID_STEP`] to the counter, and
/// hands out for the value it fetched what [`spec_id_outcome`] says; when
/// `gives_back`, a refused call subtracts [`ID_STEP`] again, and otherwise
/// no call does.
pub open spec fn id_grant_done(next_id: AtomicU32, gives_back: bool, r: IdGrant) -> bool {
    &&& *r.take.target == next_id && r.take.op == RmwOp::Add && r.take.operand == ID_STEP
    &&& r.fetched == r.take.prev
    &&& r.id == spec_id_outcome(r.fetched)
    &&& if gives_back && r.id is None {
        r.give_back matches Some(g) && *g.target == next_id && g.op == RmwOp::Sub && g.operand
            == ID_STEP
    } else {
        r.give_back is None
    }
}

/// Takes the next identifier; past the limit the counter has moved on
/// all the same (the caller panics with "too many IDs").
pub fn allocate_new_id(next_id: &AtomicU32) -> (r: IdGrant<'_>)
    ensures
        r.id == spec_id_outcome(r.fetched),
        id_grant_done(*next_id, false, r),
{
    let take = fetch_add_on(next_id, ID_STEP, Ordering::Relaxed);
    let fetched = take.prev;
    IdGrant { fetched, id: id_outcome(fetched), take, give_back: None }
}

/// Takes the next identifier; past the limit the caller aborts the
/// process.
pub fn allocate_new_id_abort(next_id: &AtomicU32) -> (r: IdGrant<'_>)
    ensures
        r.id == spec_id_outcome(r.fetched),
        id_grant_done(*next_id, false, r),
{
    let take = fetch_add_on(next_id, ID_STEP, Ordering::Relaxed);
    let fetched = take.prev;
    IdGrant { fetched, id: id_outcome(fetched), take, give_back: None }
}

/// Takes the next identifier; past the limit, gives the increment back
/// with `fetch_sub` so that the counter cannot overflow (the caller panics
/// with "too many IDs").
pub fn allocate_new_id_decrement(next_id: &AtomicU32) -> (r: IdGrant<'_>)
    ensures
        r.id == spec_id_outcome(r.fetched),
        id_grant_done(*next_id, true, r),
{
    let take = fetch_add_on(next_id, ID_STEP, Ordering::Relaxed);
    let fetched = take.prev;
    let id = id_outcome(fetched);
    let give_back = match id {
        Some(_) => None,
        None => Some(fetch_sub_on(next_id, ID_STEP, Ordering::Relaxed)),
    };
    IdGrant { fetched, id, take, give_back }
}

/// Each call takes the identifier the counter held by adding one to it, and
/// hands out exactly that identifier while it is below the limit and none
/// past it; the decrement variant, and only it, takes its one back when it
/// hands out none.
pub proof fn lemma_id_grant_hands_out_fetched(next_id: AtomicU32, gives_back: bool, r: IdGrant)
    requires
        id_grant_done(next_id, gives_back, r),
    ensures
        *r.take.target == next_id && r.take.op == RmwOp::Add && r.take.operand == 1,
        r.fetched == r.take.prev,
        r.take.prev < 1000 ==> r.id == Some(r.take.prev),
        r.take.prev >= 1000 ==> r.id is None,
        r.give_back is Some <==> gives_back && r.take.prev >= 1000,
        r.give_back matches Some(g) ==> *g.target == next_id && g.op == RmwOp::Sub && g.operand
            == 1,
{
}

// The identifiers handed out over many calls, from any threads.

/// The counter, the identifiers handed out so far, and the calls refused
/// past the limit that have not given their increment back (the decrement
/// variant gives it back; the others never do).
pub ghost struct IdState {
    pub word: u32,
    pub issued: Set<u32>,
    pub pending: nat,
}

/// The atomic steps on the counter.
pub ghost enum IdStep {
    /// A call's `fetch_add`: it takes the identifier the counter held.
    Allocate,
    /// A refused call's `fetch_sub`, in the decrement variant.
    GiveBack,
}

/// A counter at zero, nothing handed out.
pub open spec fn id_init() -> IdState {
    IdState { word: 0, issued: Set::empty(), pending: 0 }
}

/// Every identifier handed out is below the limit and below the counter;
/// while refused calls are pending, the counter is past the limit by at
/// least their number; and it is past the limit by at most their number.
pub open spec fn id_inv(s: IdState) -> bool {
    &&& forall|i: u32| #[trigger] s.issued.contains(i) ==> i < ID_LIMIT && i < s.word
    &&& s.pending > 0 ==> s.word >= ID_LIMIT + s.pending
    &&& s.word <= ID_LIMIT + s.pending
}

/// An allocation is taken while the counter does not wrap around (the
/// `2^32`-th call would); a give-back only by a refused call.
pub open spec fn id_enabled(s: IdState, step: IdStep) -> bool {
    match step {
        IdStep::Allocate => s.word < u32::MAX,
        IdStep::GiveBack => s.pending > 0,
    }
}

/// What the step hands out: the identifier the counter held, if it is below
/// the limit.
pub open spec fn id_handed_out(s: IdState, step: IdStep) -> Option<u32> {
    match step {
        IdStep::Allocate => spec_id_outcome(s.word),
        IdStep::GiveBack => None,
    }
}

/// The effect of one step.
pub open spec fn id_step(s: IdState, step: IdStep) -> IdState {
    match step {
        IdStep::Allocate => if s.word < ID_LIMIT {
            IdState { word: (s.word + ID_STEP) as u32, issued: s.issued.insert(s.word), ..s }
        } else {
            IdState { word: (s.word + ID_STEP) as u32, pending: s.pending + 1, ..s }
        },
        IdStep::GiveBack => IdState {
            word: (s.word - ID_STEP) as u32,
            pending: (s.pending - 1) as nat,
            ..s
        },
    }
}

/// A counter at zero satisfies the invariant.
pub proof fn lemma_id_init()
    ensures
        id_inv(id_init()),
{
}

/// Every enabled step keeps the invariant.
pub proof fn lemma_id_step_keeps_inv(s: IdState, step: IdStep)
    requires
        id_inv(s),
        id_enabled(s, step),
    ensures
        id_inv(id_step(s, step)),
{
}

/// Identifiers are unique: an identifier handed out was never handed out
/// before, and is below the limit; and it is recorded as handed out.
pub proof fn lemma_id_unique(s: IdState, step: IdStep)
    requires
        id_inv(s),
        id_enabled(s, step),
    ensures
        id_handed_out(s, step) matches Some(id) ==> !s.issued.contains(id) && id < ID_LIMIT
            && id_step(s, step).issued.contains(id),
        s.issued.subset_of(id_step(s, step).issued),
{
}

/// The state after the steps `steps`, taken in order from `s`.
pub open spec fn id_run(s: IdState, steps: Seq<IdStep>) -> IdState
    decreases steps.len(),
{
    if steps.len() == 0 {
        s
    } else {
        id_run(id_step(s, steps[0]), steps.drop_first())
    }
}

/// Each of `steps`, taken in order from `s`, is enabled when it is taken.
pub open spec fn id_run_enabled(s: IdState, steps: Seq<IdStep>) -> bool
    decreases steps.len(),
{
    steps.len() == 0 || (id_enabled(s, steps[0]) && id_run_enabled(
        id_step(s, steps[0]),
        steps.drop_first(),
    ))
}

/// In every state reachable by any interleaving of the calls, the
/// invariant holds: so every identifier any step hands out is new.
pub proof fn lemma_id_run_keeps_inv(s: IdState, steps: Seq<IdStep>)
    requires
        id_inv(s),
        id_run_enabled(s, steps),
    ensures
        id_inv(id_run(s, steps)),
    decreases steps.len(),
{
    if steps.len() > 0 {
        lemma_id_step_keeps_inv(s, steps[0]);
        lemma_id_run_keeps_inv(id_step(s, steps[0]), steps.drop_first());
    }
}

} // verus!
