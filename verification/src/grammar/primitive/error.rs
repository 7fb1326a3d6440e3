//! The failures of decoding, in the terms of what was being decoded.

use vstd::prelude::*;
use crate::binary;

verus! {

/// Why bytes are not the encoding of a value.
#[derive(Debug, Clone, Copy, PartialEq, Eq)]
pub enum Error {
    /// The byte `discriminant` selects no variant of the type `ident`.
    InvalidEnumDiscriminant { ident: &'static str, discriminant: u8 },
    /// A signed integer does not fit its type.
    OutOfRangeSignedInteger,
    /// An unsigned integer does not fit its type.
    OutOfRangeUnsignedInteger,
    /// More bytes were expected than the source holds.
    UnexpectedEndOfStream,
    /// The bytes of a string are not valid UTF-8.
    InvalidUtf8Encoding,
    /// A sized value does not take up the bytes that its size announces.
    RemainingBytesInStream { ident: &'static str },
    /// The instruction `ident` stands where it cannot stand.
    UnexpectedInstruction { ident: &'static str },
    /// A value that must match `expected` does not.
    UnsatisfiedMatch { expected: &'static str },
}

/// The failure `e` of the binary decoder in the terms of this module.
pub open spec fn converted(e: binary::Error) -> Error {
    match e {
        binary::Error::UnexpectedEndOfFile => Error::UnexpectedEndOfStream,
        binary::Error::InvalidVariantId { id, ty } => Error::InvalidEnumDiscriminant { ident: ty, discriminant: id },
        binary::Error::OutOfRangeSignedInteger => Error::OutOfRangeSignedInteger,
        binary::Error::OutOfRangeUnsignedInteger => Error::OutOfRangeUnsignedInteger,
        binary::Error::InvalidUtf8Encoding => Error::InvalidUtf8Encoding,
        binary::Error::UnexpectedOpcode { instr } => Error::UnexpectedInstruction { ident: instr },
        binary::Error::InvalidPreambleMagic => Error::UnsatisfiedMatch { expected: "magic" },
        binary::Error::InvalidPreambleVersion => Error::UnsatisfiedMatch { expected: "version" },
        binary::Error::UnexpectedSectionId { id } => Error::InvalidEnumDiscriminant {
            ident: "Section",
            discriminant: id.0,
        },
        binary::Error::InvalidSectionId { id } => Error::InvalidEnumDiscriminant {
            ident: "Section",
            discriminant: id.0,
        },
        binary::Error::SectionSizeMissmatch { id } => Error::RemainingBytesInStream { ident: "Section" },
        binary::Error::FunctionSizeMissmatch => Error::RemainingBytesInStream { ident: "Function" },
        binary::Error::SizeMissmatch => Error::RemainingBytesInStream { ident: "Sized" },
    }
}

/// Tells the failure `e` of the binary decoder in the terms of this module.
pub fn convert(e: binary::Error) -> (r: Error)
    ensures
        r == converted(e),
{
    match e {
        binary::Error::UnexpectedEndOfFile => Error::UnexpectedEndOfStream,
        binary::Error::InvalidVariantId { id, ty } => Error::InvalidEnumDiscriminant { ident: ty, discriminant: id },
        binary::Error::OutOfRangeSignedInteger => Error::OutOfRangeSignedInteger,
        binary::Error::OutOfRangeUnsignedInteger => Error::OutOfRangeUnsignedInteger,
        binary::Error::InvalidUtf8Encoding => Error::InvalidUtf8Encoding,
        binary::Error::UnexpectedOpcode { instr } => Error::UnexpectedInstruction { ident: instr },
        binary::Error::InvalidPreambleMagic => Error::UnsatisfiedMatch { expected: "magic" },
        binary::Error::InvalidPreambleVersion => Error::UnsatisfiedMatch { expected: "version" },
        binary::Error::UnexpectedSectionId { id } => Error::InvalidEnumDiscriminant {
            ident: "Section",
            discriminant: id.0,
        },
        binary::Error::InvalidSectionId { id } => Error::InvalidEnumDiscriminant {
            ident: "Section",
            discriminant: id.0,
        },
        binary::Error::SectionSizeMissmatch { id } => Error::RemainingBytesInStream { ident: "Section" },
        binary::Error::FunctionSizeMissmatch => Error::RemainingBytesInStream { ident: "Function" },
        binary::Error::SizeMissmatch => Error::RemainingBytesInStream { ident: "Sized" },
    }
}

} // verus!
