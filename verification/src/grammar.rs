//! A module as the sections that it is stored as.
//!
//! Where [`crate::binary`] decodes a module into its parts, this module keeps
//! what is stored: [`module::Module`] lists the sections in their order, the
//! custom sections with their bytes among them, and holds them to no order.
//! [`deserialize`] decodes a value of any type that has a grammar and tells a
//! failure in the terms of [`Error`], which names what was being decoded.
//!
//! The grammar of a record is its fields in a row, and the grammar of a tagged
//! union a byte that selects the variant and then the variant's fields.
//! [`primitive::derive`] holds the pieces from which such grammars are put
//! together, and [`List`] the grammar of elements up to the end of the bytes.

use vstd::prelude::*;

pub mod idx;
pub mod instr;
pub mod module;
pub mod primitive;
pub mod section;
pub mod ty;

pub use self::primitive::error::Error;
pub use self::primitive::list::List;
pub use self::primitive::traits::{deserialize, Grammar};
pub use self::primitive::vec::VecVec;
pub use crate::binary::primitive::byte::Byte;

verus! {

/// What decoding gives: a value, or why the bytes are not one.
pub type Result<T> = std::result::Result<T, Error>;

} // verus!
