# rust_atomic_lock

Spin locks, futex-based mutexes, reader-writer locks, a condition variable,
one-shot channels and reference-counted pointers, built on
`std::sync::atomic` and verified with Verus.

- `src/` is the verified library. For each primitive it holds the atomic
  words and every atomic step of its operations (one attempt of each
  acquisition loop per call), the decision functions those steps apply to
  the values they observe, and the protocol as a state machine over the
  atomic words, with its laws: mutual exclusion for the locks, no lost
  wake-up for the sleeping waiters, hand-over of exactly the written message
  for the channels, counts that match the pointers for the reference
  counting. The laws are proved for every
  interleaving of the threads' atomic steps (under sequential consistency;
  memory orderings are not modelled).
- `app/` holds what the library cannot: the values behind the locks and
  channels and the allocations behind the pointers (`UnsafeCell`,
  `MaybeUninit`, raw pointers), the guards' `Deref` and `Drop`, the
  unbounded retry loops of the acquisitions, the statics of the small
  programs, and the raw `futex` system call.
- `tests/` runs the library's steps and decisions single-threaded.
