use rust_atomic_lock::lock::{rwlock_opt, rwlock_opt_2};

#[test]
fn opt_2_read_decisions() {
    assert!(matches!(
        rwlock_opt_2::read_action(0),
        rwlock_opt_2::ReadAction::Acquire { expected: 0, desired: 2 }
    ));
    assert!(matches!(
        rwlock_opt_2::read_action(4),
        rwlock_opt_2::ReadAction::Acquire { expected: 4, desired: 6 }
    ));
    assert!(matches!(rwlock_opt_2::read_action(3), rwlock_opt_2::ReadAction::Wait { expected: 3 }));
    assert!(matches!(
        rwlock_opt_2::read_action(u32::MAX),
        rwlock_opt_2::ReadAction::Wait { expected: u32::MAX }
    ));
    assert!(rwlock_opt_2::read_would_overflow(0xffff_fffe));
    assert!(!rwlock_opt_2::read_would_overflow(0xffff_fffc));
    assert!(!rwlock_opt_2::read_would_overflow(u32::MAX));
}

#[test]
fn opt_2_write_decisions() {
    assert!(matches!(
        rwlock_opt_2::write_action(0),
        rwlock_opt_2::WriteAction::Acquire { expected: 0, desired: u32::MAX }
    ));
    assert!(matches!(
        rwlock_opt_2::write_action(1),
        rwlock_opt_2::WriteAction::Acquire { expected: 1, desired: u32::MAX }
    ));
    assert!(matches!(
        rwlock_opt_2::write_action(4),
        rwlock_opt_2::WriteAction::MarkWaiting { expected: 4, desired: 5 }
    ));
    assert!(matches!(rwlock_opt_2::write_action(5), rwlock_opt_2::WriteAction::Wait));
    assert!(matches!(rwlock_opt_2::write_action(u32::MAX), rwlock_opt_2::WriteAction::Wait));
    assert!(rwlock_opt_2::writer_must_sleep(2));
    assert!(!rwlock_opt_2::writer_must_sleep(1));
    assert!(rwlock_opt_2::read_release_wakes_writer(3));
    assert!(!rwlock_opt_2::read_release_wakes_writer(2));
    assert!(!rwlock_opt_2::read_release_wakes_writer(5));
}

#[test]
fn opt_2_readers_share_and_release() {
    let l = rwlock_opt_2::RwLock::new();
    assert_eq!(l.load_state(), 0);
    let r1 = read_opt_2(&l, 0, "a free lock admits a reader");
    assert_eq!(l.load_state(), 2);
    // A reader with a stale view retries with the current word.
    assert!(matches!(l.read_step(0), rwlock_opt_2::ReadStep::Retry(2)));
    let r2 = read_opt_2(&l, 2, "a read-locked lock admits another reader");
    assert_eq!(l.load_state(), 4);
    r1.unlock();
    assert_eq!(l.load_state(), 2);
    r2.unlock();
    assert_eq!(l.load_state(), 0);
}

#[test]
fn opt_2_writer_excludes() {
    let l = rwlock_opt_2::RwLock::new();
    // A writer with a stale view retries with the current word.
    let r = read_opt_2(&l, 0, "a free lock admits a reader");
    assert!(matches!(l.write_step(0), rwlock_opt_2::WriteStep::Retry(2)));
    r.unlock();
    let w = match l.write_step(0) {
        rwlock_opt_2::WriteStep::Acquired(g) => g,
        rwlock_opt_2::WriteStep::Retry(_) => panic!("a free lock admits a writer"),
    };
    assert_eq!(l.load_state(), u32::MAX);
    assert!(matches!(l.write_step(0), rwlock_opt_2::WriteStep::Retry(u32::MAX)));
    w.unlock();
    assert_eq!(l.load_state(), 0);
    let w2 = match l.write_step(0) {
        rwlock_opt_2::WriteStep::Acquired(g) => g,
        rwlock_opt_2::WriteStep::Retry(_) => panic!("a released lock admits a writer"),
    };
    w2.unlock();
}

#[test]
fn opt_decisions() {
    assert_eq!(rwlock_opt::read_target(0), 1);
    assert_eq!(rwlock_opt::read_target(41), 42);
    assert!(rwlock_opt::read_would_overflow(0xffff_fffe));
    assert!(!rwlock_opt::read_would_overflow(0xffff_fffd));
    assert!(rwlock_opt::read_release_wakes_writer(1));
    assert!(!rwlock_opt::read_release_wakes_writer(2));
    assert_eq!(rwlock_opt::write_exchange(), (0, u32::MAX));
    assert!(rwlock_opt::writer_must_sleep(1));
    assert!(rwlock_opt::writer_must_sleep(u32::MAX));
    assert!(!rwlock_opt::writer_must_sleep(0));
}

#[test]
fn opt_readers_and_writer() {
    let l = rwlock_opt::RwLock::new();
    let r1 = read_opt(&l, 0, "a free lock admits a reader");
    let r2 = read_opt(&l, 1, "a read-locked lock admits another reader");
    assert_eq!(l.load_state(), 2);
    r1.unlock();
    r2.unlock();
    assert_eq!(l.load_state(), 0);
    let w = match l.write_step() {
        rwlock_opt::WriteStep::Acquired(g) => g,
        rwlock_opt::WriteStep::Retry { .. } => panic!("a free lock admits a writer"),
    };
    assert_eq!(l.load_state(), u32::MAX);
    assert!(matches!(l.read_step(0), rwlock_opt::ReadStep::Retry(u32::MAX)));
    w.unlock();
    assert_eq!(l.load_state(), 0);
}

/// Takes a read lock from the observed word `s`, retrying only on a spurious
/// failure of the weak exchange (one that found `s` itself).
fn read_opt_2<'a>(l: &'a rwlock_opt_2::RwLock, s: u32, msg: &str) -> rwlock_opt_2::ReadGuard<'a> {
    loop {
        match l.read_step(s) {
            rwlock_opt_2::ReadStep::Acquired(g) => return g,
            rwlock_opt_2::ReadStep::Retry(v) if v == s => {},
            rwlock_opt_2::ReadStep::Retry(_) => panic!("{}", msg),
        }
    }
}

/// Takes a read lock from the observed word `s`, retrying only on a spurious
/// failure of the weak exchange (one that found `s` itself).
fn read_opt<'a>(l: &'a rwlock_opt::RwLock, s: u32, msg: &str) -> rwlock_opt::ReadGuard<'a> {
    loop {
        match l.read_step(s) {
            rwlock_opt::ReadStep::Acquired(g) => return g,
            rwlock_opt::ReadStep::Retry(v) if v == s => {},
            rwlock_opt::ReadStep::Retry(_) => panic!("{}", msg),
        }
    }
}
