pub mod spinlock_safe;
pub mod spinlock_unsafe;
