pub mod atomic;
pub mod atomic_ordering;
pub mod basic;
pub mod fence;
