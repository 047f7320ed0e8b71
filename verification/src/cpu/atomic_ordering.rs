//! Atomic operations on an `AtomicI32` with release, acquire and
//! sequentially consistent orderings.
use crate::effect::{fetch_add_i32_on, load_i32_on, store_i32_on, LoadI32, RmwI32, RmwOp, StoreI32};
use std::sync::atomic::AtomicI32;
use std::sync::atomic::Ordering;
use vstd::prelude::*;

verus! {

/// Stores `0` into `x` with release ordering.
pub fn store_release(x: &AtomicI32) -> (r: StoreI32<'_>)
    ensures
        *r.target == *x && r.value == 0,
{
    store_i32_on(x, 0, Ordering::Release)
}

/// Loads `x` with acquire ordering.
pub fn load_acquire(x: &AtomicI32) -> (r: LoadI32<'_>)
    ensures
        *r.target == *x,
{
    load_i32_on(x, Ordering::Acquire)
}

/// Adds ten to `x` with acquire-release ordering.
pub fn fetch_add_acqrel(x: &AtomicI32) -> (r: RmwI32<'_>)
    ensures
        *r.target == *x && r.op == RmwOp::Add && r.operand == 10,
{
    fetch_add_i32_on(x, 10, Ordering::AcqRel)
}

/// Stores `0` into `x` with sequentially consistent ordering.
pub fn store_seqcst(x: &AtomicI32) -> (r: StoreI32<'_>)
    ensures
        *r.target == *x && r.value == 0,
{
    store_i32_on(x, 0, Ordering::SeqCst)
}

/// Loads `x` with sequentially consistent ordering.
pub fn load_seqcst(x: &AtomicI32) -> (r: LoadI32<'_>)
    ensures
        *r.target == *x,
{
    load_i32_on(x, Ordering::SeqCst)
}

/// Adds ten to `x` with sequentially consistent ordering.
pub fn fetch_add_seqcst(x: &AtomicI32) -> (r: RmwI32<'_>)
    ensures
        *r.target == *x && r.op == RmwOp::Add && r.operand == 10,
{
    fetch_add_i32_on(x, 10, Ordering::SeqCst)
}

} // verus!
