//! Decoding of the WebAssembly binary format.
//!
//! Every type of [`crate::structure`] has a grammar, which says what its
//! decoder makes of any bytes, and a decoder that does what the grammar says.
//! [`module::decode`] decodes a whole module.

use vstd::prelude::*;

pub mod primitive;
pub mod error;
pub mod idx;
pub mod instr;
pub mod locality;
pub mod module;
pub mod ty;

pub use self::primitive::byte::Byte;
pub use self::primitive::sized::{Consume, Sized};
pub use self::primitive::traits::{WasmBinary, WasmBinaryGrammar, WasmBinaryParse, WasmBinaryParseProxy};
pub use self::primitive::vec::{CompactVec, UnwrappingVec};
pub use self::error::Error;

verus! {

/// What decoding gives: a value, or why the bytes are not one.
pub type Result<T> = std::result::Result<T, Error>;

} // verus!
