use rust_atomic_lock::spinlock::{spinlock_safe, spinlock_unsafe};

#[test]
fn swap_acquires_when_clear() {
    assert!(spinlock_safe::swap_acquires(false));
    assert!(!spinlock_safe::swap_acquires(true));
}

#[test]
fn safe_spin_lock_excludes_until_unlocked() {
    let lock = spinlock_safe::SpinLock::new();
    assert!(lock.lock_step());
    assert!(!lock.lock_step());
    assert!(!lock.lock_step());
    lock.unlock();
    assert!(lock.lock_step());
}

#[test]
fn guarded_spin_lock_excludes_until_guard_released() {
    let lock = spinlock_unsafe::SpinLock::new();
    let guard = lock.lock_step().expect("an unlocked lock is taken");
    assert!(lock.lock_step().is_none());
    guard.unlock();
    let again = lock.lock_step().expect("a released lock is taken again");
    assert!(lock.lock_step().is_none());
    again.unlock();
}

#[test]
fn guarded_spin_lock_unlock_without_guard() {
    let lock = spinlock_unsafe::SpinLock::new();
    let _guard = lock.lock_step().expect("an unlocked lock is taken");
    lock.unlock();
    assert!(lock.lock_step().is_some());
}

#[test]
fn the_lock_swaps_a_set_flag_in() {
    assert!(spinlock_safe::lock_flag());
}
