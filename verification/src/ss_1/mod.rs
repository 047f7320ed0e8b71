pub mod mutable;
