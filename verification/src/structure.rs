//! The typed representation of a WebAssembly module.

pub mod idx;
pub mod instr;
pub mod module;
pub mod ty;
