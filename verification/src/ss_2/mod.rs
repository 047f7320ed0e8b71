pub mod compare_exchange;
pub mod fetch_add;
pub mod init_lazy;
pub mod stop_flag;
