pub mod arc_opt;
pub mod arc_simple;
pub mod arc_weak;
