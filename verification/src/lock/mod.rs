pub mod rwlock_opt_2;
pub mod rwlock_opt;
pub mod mutex_spin;
pub mod mutex;
pub mod condvar_opt;
