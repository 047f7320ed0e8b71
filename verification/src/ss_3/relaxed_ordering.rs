//! Relaxed additions and loads on one atomic from several threads: the
//! additions by one thread are seen in the same order by every thread.
use crate::effect::{fetch_add_i32_on, load_i32_on, LoadI32, RmwI32, RmwOp};
use std::sync::atomic::AtomicI32;
use std::sync::atomic::Ordering;
use vstd::prelude::*;

verus! {

/// Adds five, then ten, to `x`; returns the two additions in order.
pub fn a(x: &AtomicI32) -> (r: (RmwI32<'_>, RmwI32<'_>))
    ensures
        *r.0.target == *x && r.0.op == RmwOp::Add && r.0.operand == 5,
        *r.1.target == *x && r.1.op == RmwOp::Add && r.1.operand == 10,
{
    let first = fetch_add_i32_on(x, 5, Ordering::Relaxed);
    let second = fetch_add_i32_on(x, 10, Ordering::Relaxed);
    (first, second)
}

/// Adds five to `x`.
pub fn a_1(x: &AtomicI32) -> (r: RmwI32<'_>)
    ensures
        *r.target == *x && r.op == RmwOp::Add && r.operand == 5,
{
    fetch_add_i32_on(x, 5, Ordering::Relaxed)
}

/// Adds ten to `x`.
pub fn a_2(x: &AtomicI32) -> (r: RmwI32<'_>)
    ensures
        *r.target == *x && r.op == RmwOp::Add && r.operand == 10,
{
    fetch_add_i32_on(x, 10, Ordering::Relaxed)
}

/// Loads `x` four times in a row, as the observing thread does; the four
/// values are returned in load order.
pub fn load_four(x: &AtomicI32) -> (i32, i32, i32, i32) {
    let r = load_four_op(x);
    (r.0.value, r.1.value, r.2.value, r.3.value)
}

/// The four loads of [`load_four`], in order, each of `x`.
pub fn load_four_op(x: &AtomicI32) -> (r: (LoadI32<'_>, LoadI32<'_>, LoadI32<'_>, LoadI32<'_>))
    ensures
        *r.0.target == *x && *r.1.target == *x && *r.2.target == *x && *r.3.target == *x,
{
    let a = load_i32_on(x, Ordering::Relaxed);
    let b = load_i32_on(x, Ordering::Relaxed);
    let c = load_i32_on(x, Ordering::Relaxed);
    let d = load_i32_on(x, Ordering::Relaxed);
    (a, b, c, d)
}

} // verus!
