//! Small worked examples of the Rust language, each one a function whose
//! result is stated in its contract and proved.

pub mod abstract_module;
pub mod chance;
pub mod closures;
pub mod collections;
pub mod control;
pub mod data;
pub mod errors;
pub mod ownership;
pub mod patterns;
pub mod pointers;
pub mod temporaries;
pub mod traits;
pub mod types;
