//! Atomics, spin locks, futex-based mutexes, reader-writer locks, condition
//! variables, one-shot channels and reference counting, all built on
//! `std::sync::atomic`.
//!
//! Each primitive comes in two parts. The executable part performs the
//! atomic operations. Each operation goes through a small function of
//! [`effect`] that returns a record of it: which atomic it acted on, with
//! what operand, and what it returned. The operations of the primitives
//! return these records (the plain versions that the blocking front ends
//! call hand on only the outcome), and their contracts say, over the
//! records, which operations they performed on which atomics and what they
//! decided from the values they read; the decisions come from pure decision
//! functions with exact contracts. The laws on the records (a waiting writer
//! marks itself, a releasing thread wakes the sleepers it must, a
//! notification wakes all waiters, and so on) are proved for every value an
//! operation can read.
//!
//! The protocol part is a state machine over the atomic words, built on the
//! same decision functions, whose invariant (mutual exclusion, reference
//! counts, message hand-over, no lost wake-up) is proved for every
//! interleaving of the threads' atomic steps. The interleavings are
//! sequentially consistent: the memory orderings the operations use are not
//! modelled.
//!
//! No proof ties the values in the records to the values in the atomics:
//! Verus sees nothing of the values inside `std` atomics, so that a record
//! states which operation a step performed and what it returned, not what
//! the atomic held; and each state machine is a separate statement of the
//! protocol those steps are written to follow.

pub mod arc;
pub mod channel;
pub mod cpu;
pub mod effect;
pub mod exchange;
pub mod factor_mp;
pub(crate) mod hint;
pub mod lock;
pub mod spinlock;
pub mod ss_1;
pub mod ss_2;
pub mod ss_3;
pub mod ss_7;
pub(crate) mod waiting;
