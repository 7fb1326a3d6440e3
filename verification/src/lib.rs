//! Decoder and static validator for WebAssembly 1.0 binary modules.
//!
//! [`binary`] turns a byte stream into the typed module of [`structure`];
//! [`validation`] type-checks such a module; [`grammar`] turns a byte stream
//! into the list of sections that it is.  Every decoder is specified by a
//! function from the remaining bytes to the decoded value and the number of
//! bytes read, and every rule of the validator by a function on the typing
//! context and the two stacks.

pub mod source;
pub mod binary;
pub mod grammar;
pub mod structure;
pub mod validation;

pub use binary::module::decode;
pub use validation::module::validate;
