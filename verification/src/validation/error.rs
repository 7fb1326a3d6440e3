//! The failures of the validator.

use vstd::prelude::*;

verus! {

/// Why a module is not valid.
#[derive(Debug, Clone, Copy, PartialEq, Eq, Structural)]
pub enum Error {
    /// An instruction needs an operand and the current block has none left.
    StackUnderflow,
    /// An operand does not have the type that is expected of it.
    TypeMismatch,
    /// A block ends with more operands than it may leave.
    UnbalancedStack,
    /// An instruction is validated outside of any block.
    MissingFrame,
    /// An index refers to nothing.
    IndexOutOfRange,
    /// A function type has more than one result.
    TooManyResults,
    /// The minimum of limits is above their maximum, or their range is above
    /// what their kind allows.
    InvalidLimits,
    /// A constant global is assigned to.
    ImmutableGlobal,
    /// The targets of a branch table expect different operands.
    LabelMismatch,
    /// `return` stands where there is nothing to return from.
    MissingReturn,
    /// A load or store asks for more alignment than its width.
    InvalidAlignment,
    /// A constant expression holds an instruction that is not constant, or
    /// reads a global that is imported or can be assigned to.
    NonConstantExpression,
    /// The start function takes or returns values.
    InvalidStartFunction,
    /// The module has more than one table.
    MultipleTables,
    /// The module has more than one memory.
    MultipleMemories,
    /// Two exports have the same name.
    DuplicateExport,
}

} // verus!
