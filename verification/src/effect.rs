//! Records of single atomic operations: which atomic each one acted on,
//! with what operand, and what it returned. The lock and channel operations
//! return these records, so that their contracts can say which operations
//! they performed and on which atomics.
use crate::waiting::{wait, wake_all, wake_one};
use std::sync::atomic::AtomicBool;
use std::sync::atomic::AtomicI32;
use std::sync::atomic::AtomicU32;
use std::sync::atomic::AtomicU64;
use std::sync::atomic::AtomicU8;
use std::sync::atomic::AtomicUsize;
use std::sync::atomic::Ordering;
use vstd::prelude::*;

verus! {

/// Whether a wake releases one waiting thread or all of them.
pub enum WakeKind {
    One,
    All,
}

/// A wake of the threads waiting on `target`.
pub struct Wake<'a> {
    pub target: &'a AtomicU32,
    pub kind: WakeKind,
}

/// Which read-modify-write an operation was.
pub enum RmwOp {
    /// A wrapping addition of the operand.
    Add,
    /// A wrapping subtraction of the operand.
    Sub,
    /// A swap of the operand in.
    Swap,
    /// A bitwise or with the operand.
    Or,
}

/// A read-modify-write `op` of `target` with `operand`; `prev` is the value
/// it returned, the word before.
pub struct Rmw<'a> {
    pub target: &'a AtomicU32,
    pub op: RmwOp,
    pub operand: u32,
    pub prev: u32,
}

/// A store of `value` into `target`.
pub struct Store<'a> {
    pub target: &'a AtomicU32,
    pub value: u32,
}

/// A compare-and-exchange of `target` from `expected` to `desired`;
/// `outcome` is what it returned.
pub struct Cas<'a> {
    pub target: &'a AtomicU32,
    pub expected: u32,
    pub desired: u32,
    pub outcome: Result<u32, u32>,
}

/// A load of `target`, which returned `value`.
pub struct LoadUsize<'a> {
    pub target: &'a AtomicUsize,
    pub value: usize,
}

/// Wakes one thread waiting on `target`.
pub fn wake_one_on<'a>(target: &'a AtomicU32) -> (w: Wake<'a>)
    ensures
        w.target == target,
        w.kind == WakeKind::One,
{
    wake_one(target);
    Wake { target, kind: WakeKind::One }
}

/// Wakes every thread waiting on `target`.
pub fn wake_all_on<'a>(target: &'a AtomicU32) -> (w: Wake<'a>)
    ensures
        w.target == target,
        w.kind == WakeKind::All,
{
    wake_all(target);
    Wake { target, kind: WakeKind::All }
}

/// Adds `operand` to `target` (wrapping).
pub fn fetch_add_on<'a>(target: &'a AtomicU32, operand: u32, order: Ordering) -> (r: Rmw<'a>)
    ensures
        r.target == target,
        r.op == RmwOp::Add,
        r.operand == operand,
{
    let prev = target.fetch_add(operand, order);
    Rmw { target, op: RmwOp::Add, operand, prev }
}

/// Subtracts `operand` from `target` (wrapping).
pub fn fetch_sub_on<'a>(target: &'a AtomicU32, operand: u32, order: Ordering) -> (r: Rmw<'a>)
    ensures
        r.target == target,
        r.op == RmwOp::Sub,
        r.operand == operand,
{
    let prev = target.fetch_sub(operand, order);
    Rmw { target, op: RmwOp::Sub, operand, prev }
}

/// Swaps `operand` into `target`.
pub fn swap_on<'a>(target: &'a AtomicU32, operand: u32, order: Ordering) -> (r: Rmw<'a>)
    ensures
        r.target == target,
        r.op == RmwOp::Swap,
        r.operand == operand,
{
    let prev = target.swap(operand, order);
    Rmw { target, op: RmwOp::Swap, operand, prev }
}

/// Stores `value` into `target`.
pub fn store_on<'a>(target: &'a AtomicU32, value: u32, order: Ordering) -> (s: Store<'a>)
    ensures
        s.target == target,
        s.value == value,
{
    target.store(value, order);
    Store { target, value }
}

/// Compares `target` with `expected` and, if equal, replaces it by
/// `desired`.
pub fn cas_on<'a>(
    target: &'a AtomicU32,
    expected: u32,
    desired: u32,
    success: Ordering,
    failure: Ordering,
) -> (c: Cas<'a>)
    ensures
        c.target == target,
        c.expected == expected,
        c.desired == desired,
{
    let outcome = target.compare_exchange(expected, desired, success, failure);
    Cas { target, expected, desired, outcome }
}

/// Compares `target` with `expected` and, if equal, replaces it by
/// `desired`; unlike [`cas_on`] it may also fail while they are equal.
pub fn cas_weak_on<'a>(
    target: &'a AtomicU32,
    expected: u32,
    desired: u32,
    success: Ordering,
    failure: Ordering,
) -> (c: Cas<'a>)
    ensures
        c.target == target,
        c.expected == expected,
        c.desired == desired,
{
    let outcome = target.compare_exchange_weak(expected, desired, success, failure);
    Cas { target, expected, desired, outcome }
}

/// Loads `target`.
pub fn load_usize_on<'a>(target: &'a AtomicUsize, order: Ordering) -> (l: LoadUsize<'a>)
    ensures
        l.target == target,
{
    let value = target.load(order);
    LoadUsize { target, value }
}

/// A wait on `target` while it holds `value`.
pub struct Wait<'a> {
    pub target: &'a AtomicU32,
    pub value: u32,
}

/// A load of `target`, which returned `value`.
pub struct Load<'a> {
    pub target: &'a AtomicU32,
    pub value: u32,
}

/// A read-modify-write `op` of the count `target` with `operand`; `prev` is
/// the value it returned.
pub struct RmwUsize<'a> {
    pub target: &'a AtomicUsize,
    pub op: RmwOp,
    pub operand: usize,
    pub prev: usize,
}

/// A swap of `operand` into the flag `target`; `prev` is the flag before.
pub struct SwapBool<'a> {
    pub target: &'a AtomicBool,
    pub operand: bool,
    pub prev: bool,
}

/// A store of `value` into the flag `target`.
pub struct StoreBool<'a> {
    pub target: &'a AtomicBool,
    pub value: bool,
}

/// A store of `value` into the byte `target`.
pub struct StoreU8<'a> {
    pub target: &'a AtomicU8,
    pub value: u8,
}

/// A compare-and-exchange of the byte `target` from `expected` to
/// `desired`; `outcome` is what it returned.
pub struct CasU8<'a> {
    pub target: &'a AtomicU8,
    pub expected: u8,
    pub desired: u8,
    pub outcome: Result<u8, u8>,
}

/// Sleeps while `target` holds `value`, until a wake on `target` (or
/// spuriously).
pub fn wait_on<'a>(target: &'a AtomicU32, value: u32) -> (w: Wait<'a>)
    ensures
        w.target == target,
        w.value == value,
{
    wait(target, value);
    Wait { target, value }
}

/// Loads `target`.
pub fn load_on<'a>(target: &'a AtomicU32, order: Ordering) -> (l: Load<'a>)
    ensures
        l.target == target,
{
    let value = target.load(order);
    Load { target, value }
}

/// Adds `operand` to the count `target` (wrapping).
pub fn fetch_add_usize_on<'a>(target: &'a AtomicUsize, operand: usize, order: Ordering) -> (r:
    RmwUsize<'a>)
    ensures
        r.target == target,
        r.op == RmwOp::Add,
        r.operand == operand,
{
    let prev = target.fetch_add(operand, order);
    RmwUsize { target, op: RmwOp::Add, operand, prev }
}

/// Subtracts `operand` from the count `target` (wrapping).
pub fn fetch_sub_usize_on<'a>(target: &'a AtomicUsize, operand: usize, order: Ordering) -> (r:
    RmwUsize<'a>)
    ensures
        r.target == target,
        r.op == RmwOp::Sub,
        r.operand == operand,
{
    let prev = target.fetch_sub(operand, order);
    RmwUsize { target, op: RmwOp::Sub, operand, prev }
}

/// Swaps `operand` into the flag `target`.
pub fn swap_bool_on<'a>(target: &'a AtomicBool, operand: bool, order: Ordering) -> (r: SwapBool<
    'a,
>)
    ensures
        r.target == target,
        r.operand == operand,
{
    let prev = target.swap(operand, order);
    SwapBool { target, operand, prev }
}

/// Stores `value` into the flag `target`.
pub fn store_bool_on<'a>(target: &'a AtomicBool, value: bool, order: Ordering) -> (s: StoreBool<
    'a,
>)
    ensures
        s.target == target,
        s.value == value,
{
    target.store(value, order);
    StoreBool { target, value }
}

/// Stores `value` into the byte `target`.
pub fn store_u8_on<'a>(target: &'a AtomicU8, value: u8, order: Ordering) -> (s: StoreU8<'a>)
    ensures
        s.target == target,
        s.value == value,
{
    target.store(value, order);
    StoreU8 { target, value }
}

/// Compares the byte `target` with `expected` and, if equal, replaces it by
/// `desired`.
pub fn cas_u8_on<'a>(
    target: &'a AtomicU8,
    expected: u8,
    desired: u8,
    success: Ordering,
    failure: Ordering,
) -> (c: CasU8<'a>)
    ensures
        c.target == target,
        c.expected == expected,
        c.desired == desired,
{
    let outcome = target.compare_exchange(expected, desired, success, failure);
    CasU8 { target, expected, desired, outcome }
}

/// A compare-and-exchange of the count `target` from `expected` to
/// `desired`; `outcome` is what it returned.
pub struct CasUsize<'a> {
    pub target: &'a AtomicUsize,
    pub expected: usize,
    pub desired: usize,
    pub outcome: Result<usize, usize>,
}

/// A store of `value` into the count `target`.
pub struct StoreUsize<'a> {
    pub target: &'a AtomicUsize,
    pub value: usize,
}

/// Compares the count `target` with `expected` and, if equal, replaces it
/// by `desired`.
pub fn cas_usize_on<'a>(
    target: &'a AtomicUsize,
    expected: usize,
    desired: usize,
    success: Ordering,
    failure: Ordering,
) -> (c: CasUsize<'a>)
    ensures
        c.target == target,
        c.expected == expected,
        c.desired == desired,
{
    let outcome = target.compare_exchange(expected, desired, success, failure);
    CasUsize { target, expected, desired, outcome }
}

/// Compares the count `target` with `expected` and, if equal, replaces it
/// by `desired`; it may also fail while they are equal.
pub fn cas_weak_usize_on<'a>(
    target: &'a AtomicUsize,
    expected: usize,
    desired: usize,
    success: Ordering,
    failure: Ordering,
) -> (c: CasUsize<'a>)
    ensures
        c.target == target,
        c.expected == expected,
        c.desired == desired,
{
    let outcome = target.compare_exchange_weak(expected, desired, success, failure);
    CasUsize { target, expected, desired, outcome }
}

/// Stores `value` into the count `target`.
pub fn store_usize_on<'a>(target: &'a AtomicUsize, value: usize, order: Ordering) -> (s:
    StoreUsize<'a>)
    ensures
        s.target == target,
        s.value == value,
{
    target.store(value, order);
    StoreUsize { target, value }
}

/// A read-modify-write `op` of the integer `target` with `operand`; `prev`
/// is the value it returned.
pub struct RmwI32<'a> {
    pub target: &'a AtomicI32,
    pub op: RmwOp,
    pub operand: i32,
    pub prev: i32,
}

/// A store of `value` into the integer `target`.
pub struct StoreI32<'a> {
    pub target: &'a AtomicI32,
    pub value: i32,
}

/// A load of the integer `target`, which returned `value`.
pub struct LoadI32<'a> {
    pub target: &'a AtomicI32,
    pub value: i32,
}

/// A compare-and-exchange of the integer `target` from `expected` to
/// `desired`; `outcome` is what it returned.
pub struct CasI32<'a> {
    pub target: &'a AtomicI32,
    pub expected: i32,
    pub desired: i32,
    pub outcome: Result<i32, i32>,
}

/// A load of the 64-bit word `target`, which returned `value`.
pub struct LoadU64<'a> {
    pub target: &'a AtomicU64,
    pub value: u64,
}

/// A store of `value` into the 64-bit word `target`.
pub struct StoreU64<'a> {
    pub target: &'a AtomicU64,
    pub value: u64,
}

/// Adds `operand` to the integer `target` (wrapping).
pub fn fetch_add_i32_on<'a>(target: &'a AtomicI32, operand: i32, order: Ordering) -> (r: RmwI32<
    'a,
>)
    ensures
        r.target == target,
        r.op == RmwOp::Add,
        r.operand == operand,
{
    let prev = target.fetch_add(operand, order);
    RmwI32 { target, op: RmwOp::Add, operand, prev }
}

/// Sets the bits of `operand` in the integer `target`.
pub fn fetch_or_i32_on<'a>(target: &'a AtomicI32, operand: i32, order: Ordering) -> (r: RmwI32<
    'a,
>)
    ensures
        r.target == target,
        r.op == RmwOp::Or,
        r.operand == operand,
{
    let prev = target.fetch_or(operand, order);
    RmwI32 { target, op: RmwOp::Or, operand, prev }
}

/// Stores `value` into the integer `target`.
pub fn store_i32_on<'a>(target: &'a AtomicI32, value: i32, order: Ordering) -> (s: StoreI32<'a>)
    ensures
        s.target == target,
        s.value == value,
{
    target.store(value, order);
    StoreI32 { target, value }
}

/// Loads the integer `target`.
pub fn load_i32_on<'a>(target: &'a AtomicI32, order: Ordering) -> (l: LoadI32<'a>)
    ensures
        l.target == target,
{
    let value = target.load(order);
    LoadI32 { target, value }
}

/// Compares the integer `target` with `expected` and, if equal, replaces it
/// by `desired`.
pub fn cas_i32_on<'a>(
    target: &'a AtomicI32,
    expected: i32,
    desired: i32,
    success: Ordering,
    failure: Ordering,
) -> (c: CasI32<'a>)
    ensures
        c.target == target,
        c.expected == expected,
        c.desired == desired,
{
    let outcome = target.compare_exchange(expected, desired, success, failure);
    CasI32 { target, expected, desired, outcome }
}

/// Loads the 64-bit word `target`.
pub fn load_u64_on<'a>(target: &'a AtomicU64, order: Ordering) -> (l: LoadU64<'a>)
    ensures
        l.target == target,
{
    let value = target.load(order);
    LoadU64 { target, value }
}

/// Stores `value` into the 64-bit word `target`.
pub fn store_u64_on<'a>(target: &'a AtomicU64, value: u64, order: Ordering) -> (s: StoreU64<'a>)
    ensures
        s.target == target,
        s.value == value,
{
    target.store(value, order);
    StoreU64 { target, value }
}

} // verus!
