//! Validation of a decoded module.
//!
//! The validator checks each part of a module against the typing context that
//! the module's types, imports and definitions make up, and each function body
//! by running its instructions on a stack of operand types.

use vstd::prelude::*;

pub mod context;
pub mod error;
pub mod idx;
pub mod instr;
pub mod module;
pub mod stacks;
pub mod ty;

pub use self::context::Context;
pub use self::error::Error;

verus! {

/// What validation gives: a result, or why the module is not valid.
pub type Result<T> = std::result::Result<T, Error>;

/// Something that is valid or not by itself.
pub trait ValidationEntry<'a>: Sized {
    type ValidationResult;

    /// Validates `self`.
    fn validate(&'a self) -> Result<Self::ValidationResult>;
}

/// Something that is valid or not in a typing context.
pub trait Validate<'a>: Sized {
    type ValidationResult;

    /// Validates `self` in the context `ctx`.
    fn validate(&'a self, ctx: &mut Context<'a>) -> Result<Self::ValidationResult>;
}

} // verus!
