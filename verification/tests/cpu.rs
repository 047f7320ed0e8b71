use rust_atomic_lock::cpu::atomic::{
    add_ten, add_ten_i32, cmp_ten_exchg, cmp_ten_exchg_step, load, or_ten, store, OrTenStep,
};
use rust_atomic_lock::cpu::atomic_ordering::{
    fetch_add_acqrel, fetch_add_seqcst, load_acquire, load_seqcst, store_release, store_seqcst,
};
use rust_atomic_lock::cpu::basic;
use rust_atomic_lock::cpu::fence::{fence_acqrel, fence_acquire, fence_release, fence_seqcst};
use std::sync::atomic::AtomicI32;

#[test]
fn add_two_adds() {
    assert_eq!(basic::add_two(2, 3), 5);
    assert_eq!(basic::add_two(-7, 4), -3);
    assert_eq!(basic::add_two(i32::MAX, 0), i32::MAX);
}

#[test]
fn add_ten_adds_in_place() {
    let mut n = 5;
    basic::add_ten(&mut n);
    assert_eq!(n, 15);
    let mut m = i32::MAX - 10;
    basic::add_ten(&mut m);
    assert_eq!(m, i32::MAX);
}

#[test]
fn relaxed_operations() {
    let x = AtomicI32::new(7);
    assert_eq!(load(&x), 7);
    store(&x);
    assert_eq!(load(&x), 0);
    add_ten(&x);
    assert_eq!(load(&x), 10);
    assert_eq!(add_ten_i32(&x), 10);
    assert_eq!(load(&x), 20);
}

#[test]
fn add_ten_wraps() {
    let x = AtomicI32::new(i32::MAX);
    assert_eq!(add_ten_i32(&x), i32::MAX);
    assert_eq!(load(&x), i32::MIN + 9);
}

#[test]
fn or_ten_sets_bits() {
    assert_eq!(or_ten(0), 10);
    assert_eq!(or_ten(5), 15);
    assert_eq!(or_ten(10), 10);
    assert_eq!(or_ten(-1), -1);
}

#[test]
fn cmp_ten_exchg_matches_fetch_or() {
    let x = AtomicI32::new(5);
    assert_eq!(cmp_ten_exchg(&x), 5);
    assert_eq!(load(&x), 15);

    let y = AtomicI32::new(5);
    match cmp_ten_exchg_step(&y, 5) {
        OrTenStep::Done(v) => assert_eq!(v, 5),
        OrTenStep::Retry(_) => panic!("the exchange from the current value must succeed"),
    }
    assert_eq!(load(&y), 15);
}

#[test]
fn cmp_ten_exchg_step_retries_on_stale_value() {
    let x = AtomicI32::new(1);
    match cmp_ten_exchg_step(&x, 4) {
        OrTenStep::Retry(v) => assert_eq!(v, 1),
        OrTenStep::Done(_) => panic!("a stale value must not be exchanged"),
    }
    assert_eq!(load(&x), 1);
    assert!(matches!(cmp_ten_exchg_step(&x, 1), OrTenStep::Done(1)));
    assert_eq!(load(&x), 11);
}

#[test]
fn ordered_operations() {
    let x = AtomicI32::new(3);
    fetch_add_acqrel(&x);
    assert_eq!(load(&x), 13);
    fetch_add_seqcst(&x);
    assert_eq!(load(&x), 23);
    load_acquire(&x);
    load_seqcst(&x);
    store_release(&x);
    assert_eq!(load(&x), 0);
    fetch_add_seqcst(&x);
    store_seqcst(&x);
    assert_eq!(load(&x), 0);
}

#[test]
fn fences_return() {
    fence_acquire();
    fence_release();
    fence_acqrel();
    fence_seqcst();
}
