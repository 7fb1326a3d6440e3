//! The pieces from which the grammar of a record or of a tagged union is put
//! together.
//!
//! A record is its fields in a row: it is decoded by decoding them in their
//! order.  A tagged union is a byte that selects the variant, and then the
//! variant's record; a variant that forwards the byte to the union that it
//! holds looks at it without reading it.  Either can stand behind its size,
//! and a field can be held to a value.

use vstd::prelude::*;
use crate::binary::primitive::byte::byte_grammar;
use crate::binary::primitive::sized::{sized_grammar, Sized};
use crate::binary::primitive::traits::{WasmBinaryParse, WasmBinaryParseProxy};
use crate::grammar::primitive::error::{convert, converted, Error};
use crate::grammar::primitive::traits::deserializes;
use crate::source::Source;

verus! {

/// Reads the byte that selects the variant of a tagged union.
pub fn discriminant(iter: &mut Source) -> (r: Result<u8, Error>)
    ensures
        deserializes(*old(iter), *final(iter), r, byte_grammar(old(iter)@)),
{
    match iter.next() {
        Some(byte) => Ok(byte),
        None => Err(Error::UnexpectedEndOfStream),
    }
}

/// Looks at the byte that selects the variant of a tagged union and leaves it
/// to be read again.
pub fn forwarded(iter: &Source) -> (r: Result<u8, Error>)
    ensures
        match byte_grammar(iter@) {
            Ok((byte, _)) => r == Ok::<u8, Error>(byte),
            Err(e) => r == Err::<u8, Error>(converted(e)),
        },
{
    match iter.peek() {
        Some(byte) => Ok(byte),
        None => Err(Error::UnexpectedEndOfStream),
    }
}

/// The failure of a tagged union of the type named `ident` whose variant is
/// selected by the byte `discriminant`, which selects none.
pub fn no_variant(ident: &'static str, discriminant: u8) -> (r: Error)
    ensures
        r == (Error::InvalidEnumDiscriminant { ident, discriminant }),
{
    Error::InvalidEnumDiscriminant { ident, discriminant }
}

/// Holds a field to a value: succeeds if `matches` holds, and else fails as
/// not matching `expected`.
pub fn matching(matches: bool, expected: &'static str) -> (r: Result<(), Error>)
    ensures
        matches ==> r is Ok,
        !matches ==> r == Err::<(), Error>(Error::UnsatisfiedMatch { expected }),
{
    if matches {
        Ok(())
    } else {
        Err(Error::UnsatisfiedMatch { expected })
    }
}

/// Decodes a value that stands behind its size in bytes.
pub fn sized<T: WasmBinaryParse>(iter: &mut Source) -> (r: Result<T, Error>)
    ensures
        deserializes(*old(iter), *final(iter), r, sized_grammar::<T>(old(iter)@)),
{
    match Sized::<T>::parse(iter) {
        Ok(value) => Ok(value.unwrap()),
        Err(e) => Err(convert(e)),
    }
}

} // verus!
