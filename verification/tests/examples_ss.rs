use rust_atomic_lock::ss_1::mutable::cell_vec;
use rust_atomic_lock::ss_2::compare_exchange::{increment_step, incremented};
use rust_atomic_lock::ss_2::fetch_add::{
    allocate_new_id, allocate_new_id_abort, allocate_new_id_decrement, id_in_range, id_outcome,
};
use rust_atomic_lock::ss_2::init_lazy::{calculate_x, get_x, must_compute};
use rust_atomic_lock::ss_2::stop_flag::some_work;
use rust_atomic_lock::ss_3::relaxed_ordering::{a, a_1, a_2, load_four};
use rust_atomic_lock::ss_3::release_acquire_ordering_init::gen_i32;
use std::cell::Cell;
use std::sync::atomic::{AtomicI32, AtomicU32, AtomicU64, Ordering::Relaxed};

#[test]
fn increment_attempts() {
    assert_eq!(incremented(99), 100);
    let n = AtomicU32::new(99);
    assert_eq!(increment_step(&n, 99), Ok(()));
    assert_eq!(n.load(Relaxed), 100);
    assert_eq!(increment_step(&n, 99), Err(100));
    assert_eq!(n.load(Relaxed), 100);
}

#[test]
fn ids_below_limit() {
    assert!(id_in_range(0));
    assert!(id_in_range(999));
    assert!(!id_in_range(1000));
    let next = AtomicU32::new(0);
    assert_eq!(allocate_new_id(&next).id, Some(0));
    assert_eq!(allocate_new_id(&next).id, Some(1));
    let late = AtomicU32::new(999);
    assert_eq!(allocate_new_id(&late).id, Some(999));
    let refused = allocate_new_id(&late);
    assert_eq!(refused.fetched, 1000);
    assert_eq!(refused.id, None);
    assert_eq!(id_outcome(5), Some(5));
    assert_eq!(id_outcome(1000), None);
    assert_eq!(late.load(Relaxed), 1001);
}

#[test]
fn ids_abort_variant() {
    let next = AtomicU32::new(998);
    assert_eq!(allocate_new_id_abort(&next).id, Some(998));
    assert_eq!(allocate_new_id_abort(&next).id, Some(999));
    assert_eq!(allocate_new_id_abort(&next).id, None);
}

#[test]
fn ids_decrement_variant_keeps_counter() {
    let next = AtomicU32::new(999);
    assert_eq!(allocate_new_id_decrement(&next).id, Some(999));
    assert_eq!(allocate_new_id_decrement(&next).id, None);
    assert_eq!(next.load(Relaxed), 1000);
    assert_eq!(allocate_new_id_decrement(&next).id, None);
    assert_eq!(next.load(Relaxed), 1000);
}

#[test]
fn lazy_value_is_nonzero_and_kept() {
    let mut seen = [false; 11];
    for _ in 0..200 {
        let x = calculate_x();
        assert!((1..=10).contains(&x));
        seen[x as usize] = true;
    }
    // Random draws: two hundred of them do not all land on one value.
    assert!(seen.iter().filter(|&&b| b).count() > 1);
    let cell = AtomicU64::new(0);
    let computed = get_x(&cell);
    assert_eq!(computed.loaded, 0);
    let first = computed.value;
    assert!((1..=10).contains(&first));
    assert_eq!(cell.load(Relaxed), first);
    let kept = get_x(&cell);
    assert_eq!(kept.loaded, first);
    assert_eq!(kept.value, first);
    let set = AtomicU64::new(42);
    assert_eq!(get_x(&set).value, 42);
    assert!(must_compute(0));
    assert!(!must_compute(42));
}

#[test]
fn relaxed_additions() {
    let x = AtomicI32::new(0);
    a(&x);
    assert_eq!(x.load(Relaxed), 15);
    a_1(&x);
    assert_eq!(x.load(Relaxed), 20);
    a_2(&x);
    assert_eq!(load_four(&x), (30, 30, 30, 30));
    some_work();
}

#[test]
fn cell_vec_pushes() {
    let v = Cell::new(vec![1, 2]);
    cell_vec(&v);
    assert_eq!(v.take(), vec![1, 2, 11]);
}

use rust_atomic_lock::factor_mp::{factors_mp_combine, factors_sp, fact_tasks, FactTask};

#[test]
fn divisors_counted_directly() {
    assert_eq!(factors_sp(12), 6);
    assert_eq!(factors_sp(7), 2);
    assert_eq!(factors_sp(1), 1);
    assert_eq!(factors_sp(0), 0);
    assert_eq!(factors_sp(-5), 0);
    assert_eq!(factors_sp(2_000), 20);
}

#[test]
fn divisors_counted_in_a_range() {
    assert_eq!(FactTask::new(12, 1, 5).factor(), 4);
    assert_eq!(FactTask::new(12, 5, 13).factor(), 2);
    assert_eq!(FactTask::new(12, -4, 0).factor(), 4);
    assert_eq!(FactTask::new(-12, 1, 7).factor(), 5);
    assert_eq!(FactTask::new(12, 5, 5).factor(), 0);
    assert_eq!(FactTask::new(12, 9, 3).factor(), 0);
}

fn split_count(num: i64, num_thread: i64) -> i64 {
    let tasks = fact_tasks(num, num_thread);
    let results: Vec<i64> = tasks.iter().map(|t| t.factor()).collect();
    factors_mp_combine(num, num_thread, &results)
}

#[test]
fn split_count_matches_direct_count() {
    assert_eq!(fact_tasks(12, 5).len(), 5);
    assert_eq!(split_count(12, 5), 6);
    assert_eq!(split_count(12, 4), 6);
    assert_eq!(split_count(12, 1), 6);
    assert_eq!(split_count(12, 20), 6);
    assert_eq!(split_count(2_000, 6), 20);
    assert_eq!(split_count(0, 3), 0);
    assert_eq!(split_count(-9, 2), 0);
    for num in 0..60 {
        for k in 1..8 {
            assert_eq!(split_count(num, k), factors_sp(num));
        }
    }
}

#[test]
fn split_count_with_negative_thread_count() {
    assert_eq!(fact_tasks(4, -3).len(), 0);
    // No thread runs; the main thread counts only when -3 does not divide 4.
    assert_eq!(split_count(4, -3), 3);
    assert_eq!(split_count(4, -2), 0);
}

#[test]
fn random_values_vary() {
    let first = gen_i32();
    let mut differs = false;
    for _ in 0..64 {
        if gen_i32() != first {
            differs = true;
        }
    }
    assert!(differs);
}

#[test]
fn interleaved_increments_lose_nothing() {
    let n = AtomicU32::new(7);
    // Three callers observe 7; one succeeds, the others retry from what they saw.
    assert_eq!(increment_step(&n, 7), Ok(()));
    assert_eq!(increment_step(&n, 7), Err(8));
    assert_eq!(increment_step(&n, 7), Err(8));
    assert_eq!(increment_step(&n, 8), Ok(()));
    assert_eq!(increment_step(&n, 8), Err(9));
    assert_eq!(increment_step(&n, 9), Ok(()));
    assert_eq!(n.load(Relaxed), 10);
}

#[test]
fn ids_handed_out_are_distinct() {
    let next = AtomicU32::new(0);
    let mut seen: Vec<u32> = Vec::new();
    while let Some(id) = allocate_new_id(&next).id {
        assert!(!seen.contains(&id));
        assert!(id < 1000);
        seen.push(id);
    }
    assert_eq!(seen.len(), 1000);
}
