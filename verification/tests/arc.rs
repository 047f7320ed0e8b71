use rust_atomic_lock::arc::{arc_opt, arc_simple, arc_weak};

#[test]
fn count_limits() {
    assert!(!arc_opt::count_overflows(0));
    assert!(!arc_opt::count_overflows(usize::MAX / 2));
    assert!(arc_opt::count_overflows(usize::MAX / 2 + 1));
    assert!(arc_opt::is_last(1));
    assert!(!arc_opt::is_last(2));
    assert!(!arc_opt::is_last(0));
    assert!(arc_opt::downgrade_would_overflow(usize::MAX - 1));
    assert!(!arc_opt::downgrade_would_overflow(usize::MAX));
    assert!(arc_opt::upgrade_would_overflow(usize::MAX));
    assert!(!arc_opt::upgrade_would_overflow(usize::MAX - 1));
}

#[test]
fn downgrade_and_upgrade_decisions() {
    assert!(matches!(arc_opt::downgrade_action(usize::MAX), arc_opt::DowngradeAction::Spin));
    assert!(matches!(
        arc_opt::downgrade_action(3),
        arc_opt::DowngradeAction::Increment { expected: 3, desired: 4 }
    ));
    assert!(matches!(arc_opt::upgrade_action(0), arc_opt::UpgradeAction::Gone));
    assert!(matches!(
        arc_opt::upgrade_action(1),
        arc_opt::UpgradeAction::Increment { expected: 1, desired: 2 }
    ));
}

#[test]
fn strong_counts() {
    let d = arc_opt::ArcData::new();
    assert_eq!(d.load_data_count(), 1);
    assert_eq!(d.load_alloc_count(), 1);
    assert!(d.clone_arc());
    assert_eq!(d.load_data_count(), 2);
    assert!(!d.release_arc());
    assert!(d.release_arc());
    assert_eq!(d.load_data_count(), 0);
    // The shared weak count is the last one.
    assert!(d.release_weak());
}

#[test]
fn weak_pointer_life() {
    let d = arc_opt::ArcData::new();
    downgrade_from(&d, 1);
    assert_eq!(d.load_alloc_count(), 2);
    // A stale view retries with the current count.
    assert!(matches!(d.downgrade_step(1), arc_opt::DowngradeStep::Retry(2)));
    assert!(d.clone_weak());
    assert_eq!(d.load_alloc_count(), 3);
    upgrade_from(&d, 1);
    assert_eq!(d.load_data_count(), 2);
    assert!(!d.release_arc());
    assert!(d.release_arc());
    // The data is gone: upgrading fails.
    assert!(matches!(d.upgrade_step(d.load_data_count()), arc_opt::UpgradeStep::Gone));
    assert!(!d.release_weak());
    assert!(!d.release_weak());
    assert!(d.release_weak());
}

#[test]
fn get_mut_needs_uniqueness() {
    let d = arc_opt::ArcData::new();
    let first = d.is_unique();
    assert!(first.unique);
    assert!(matches!(first.check, arc_opt::GetMutCheck::Checked { data_count: 1 }));
    assert_eq!(d.load_alloc_count(), 1);
    assert!(d.clone_arc());
    let shared = d.is_unique();
    assert!(!shared.unique);
    assert!(matches!(shared.check, arc_opt::GetMutCheck::Checked { data_count: 2 }));
    assert_eq!(d.load_alloc_count(), 1);
    assert!(!d.release_arc());
    downgrade_from(&d, 1);
    let weak = d.is_unique();
    assert!(!weak.unique);
    assert!(matches!(weak.check, arc_opt::GetMutCheck::Held { alloc_count: 2 }));
    assert_eq!(d.load_alloc_count(), 2);
    assert!(!d.release_weak());
    assert!(d.is_unique().unique);
    assert_eq!(arc_opt::get_mut_lock(), (1, usize::MAX));
    assert!(arc_opt::get_mut_succeeds(&arc_opt::GetMutCheck::Checked { data_count: 1 }));
    assert!(!arc_opt::get_mut_succeeds(&arc_opt::GetMutCheck::Checked { data_count: 3 }));
    assert!(!arc_opt::get_mut_succeeds(&arc_opt::GetMutCheck::Held { alloc_count: 1 }));
}

#[test]
fn other_counters() {
    let s = arc_simple::ArcData::new();
    assert!(s.clone_arc());
    assert!(s.clone_arc());
    let _w = arc_weak::ArcData::new();
}

/// Counts one more weak pointer from the observed count `n`, retrying only
/// on a spurious failure of the weak exchange (one that found `n` itself).
fn downgrade_from(d: &arc_opt::ArcData, n: usize) {
    loop {
        match d.downgrade_step(n) {
            arc_opt::DowngradeStep::Done => return,
            arc_opt::DowngradeStep::Retry(v) => assert_eq!(v, n),
        }
    }
}

/// Counts one more strong pointer from the observed count `n`, retrying
/// only on a spurious failure of the weak exchange.
fn upgrade_from(d: &arc_opt::ArcData, n: usize) {
    loop {
        match d.upgrade_step(n) {
            arc_opt::UpgradeStep::Done => return,
            arc_opt::UpgradeStep::Retry(v) => assert_eq!(v, n),
            arc_opt::UpgradeStep::Gone => panic!("a live count upgrades"),
        }
    }
}
