pub mod relaxed_ordering;
pub mod release_acquire_ordering_init;
