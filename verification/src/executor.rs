//! The execution-host abstraction: heap policy, instance lifecycle and the
//! call protocol that every engine honours.

pub mod error;
pub mod heap;
pub mod instance;
pub mod lifecycle;
pub mod wasm_runtime;
