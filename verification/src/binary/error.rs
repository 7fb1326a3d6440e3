//! The failures of the binary decoder.

use vstd::prelude::*;
use crate::binary::primitive::byte::Byte;

verus! {

/// Why a byte stream is not a WebAssembly module.
#[derive(Debug, PartialEq)]
#[allow(inconsistent_fields)]
pub enum Error {
    /// More bytes were expected than the source holds.
    UnexpectedEndOfFile,
    /// The byte `id` selects no variant of the type named `ty`.
    InvalidVariantId { id: u8, ty: &'static str },
    /// A signed LEB-128 integer does not fit its type.
    OutOfRangeSignedInteger,
    /// An unsigned LEB-128 integer does not fit its type.
    OutOfRangeUnsignedInteger,
    /// The bytes of a name are not valid UTF-8.
    InvalidUtf8Encoding,
    /// The instruction named `instr` ends an expression that it cannot end.
    UnexpectedOpcode { instr: &'static str },
    /// The stream does not start with the four magic bytes.
    InvalidPreambleMagic,
    /// The version is not 1.
    InvalidPreambleVersion,
    /// A section comes after one that it should precede, or twice.
    UnexpectedSectionId { id: Byte },
    /// No section has this id.
    InvalidSectionId { id: Byte },
    /// A section's declared size is not the size of its content.
    SectionSizeMissmatch { id: Byte },
    /// A function's declared size is not the size of its content.
    FunctionSizeMissmatch,
    /// An element's declared size is not the size of its content.
    SizeMissmatch,
}

} // verus!
