pub mod channel_save_mem;
pub mod channel_unsafe;
