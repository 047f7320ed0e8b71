use rust_atomic_lock::lock::condvar_opt::{should_notify, Condvar};
use rust_atomic_lock::lock::{mutex, mutex_spin};

#[test]
fn two_state_mutex_decisions() {
    assert!(mutex::swap_acquires(mutex::UNLOCKED));
    assert!(!mutex::swap_acquires(mutex::LOCKED));
}

#[test]
fn two_state_mutex_lock_and_unlock() {
    let m = mutex::Mutex::new();
    let g = m.lock_step().expect("an unlocked mutex is taken");
    g.unlock();
    let g2 = m.lock_step().expect("a released mutex is taken again");
    g2.unlock();
}

#[test]
fn three_state_mutex_decisions() {
    assert!(mutex_spin::keeps_spinning(mutex_spin::LOCKED, 0));
    assert!(mutex_spin::keeps_spinning(mutex_spin::LOCKED, 99));
    assert!(!mutex_spin::keeps_spinning(mutex_spin::LOCKED, 100));
    assert!(!mutex_spin::keeps_spinning(mutex_spin::UNLOCKED, 0));
    assert!(!mutex_spin::keeps_spinning(mutex_spin::CONTENDED, 0));
    assert!(mutex_spin::swap_acquires(mutex_spin::UNLOCKED));
    assert!(!mutex_spin::swap_acquires(mutex_spin::LOCKED));
    assert!(!mutex_spin::swap_acquires(mutex_spin::CONTENDED));
    assert!(mutex_spin::unlock_wakes(mutex_spin::CONTENDED));
    assert!(!mutex_spin::unlock_wakes(mutex_spin::LOCKED));
}

#[test]
fn three_state_mutex_excludes() {
    let m = mutex_spin::Mutex::new();
    let g = m.try_lock().expect("an unlocked mutex is taken");
    assert!(m.try_lock().is_none());
    // Spins its hundred rounds on the held lock, then fails.
    assert!(m.lock_contended_spin().is_none());
    g.unlock();
    let g2 = m.lock_contended_spin().expect("a released mutex is taken after spinning");
    g2.unlock();
}

#[test]
fn three_state_mutex_contended_path() {
    let m = mutex_spin::Mutex::new();
    let g = m.lock_contended_step().expect("a swap on an unlocked mutex takes it");
    // The contended path leaves the word contended.
    assert!(m.try_lock().is_none());
    g.unlock();
    let g2 = m.try_lock().expect("after the unlock the fast path succeeds");
    let back = g2.into_mutex();
    assert!(back.try_lock().is_some());
}

#[test]
fn condvar_notifies_only_with_waiters() {
    assert!(!should_notify(0));
    assert!(should_notify(1));
    assert!(should_notify(usize::MAX));
    let cv = Condvar::new();
    cv.notify_one();
    cv.notify_all();
}

#[test]
fn words_handed_to_the_atomics() {
    assert_eq!(mutex::lock_word(), mutex::LOCKED);
    assert_eq!(mutex_spin::fast_exchange(), (mutex_spin::UNLOCKED, mutex_spin::LOCKED));
    assert_eq!(mutex_spin::contended_word(), mutex_spin::CONTENDED);
}
