pub mod load_3_variable;
pub mod load_billion;
pub mod load_billion_thread_2;
