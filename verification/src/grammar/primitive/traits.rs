//! The trait that ties a type to its grammar.

use vstd::prelude::*;
use crate::binary::primitive::traits::{Parsed, WasmBinaryGrammar, WasmBinaryParse};
use crate::grammar::primitive::error::{convert, converted, Error};
use crate::source::Source;

verus! {

/// Holds when a call that found the source as `before`, left it as `after` and
/// returned `r` did what `spec` says of the bytes in `before`.
pub open spec fn deserializes<T: DeepView>(
    before: Source,
    after: Source,
    r: Result<T, Error>,
    spec: Parsed<T::V>,
) -> bool {
    &&& after.beyond() == before.beyond()
    &&& match spec {
        Ok((v, n)) => {
            &&& r is Ok
            &&& r->Ok_0.deep_view() == v
            &&& n <= before@.len()
            &&& after@ == before@.skip(n as int)
        },
        Err(e) => r == Err::<T, Error>(converted(e)),
    }
}

/// A type that can be decoded from a byte source, as its grammar says.
pub trait Grammar: WasmBinaryGrammar {
    /// Decodes one value from the front of `iter`.
    fn deserialize(iter: &mut Source) -> (r: Result<Self, Error>)
        ensures
            deserializes(*old(iter), *final(iter), r, Self::grammar(old(iter)@)),
    ;
}

impl<T: WasmBinaryParse> Grammar for T {
    fn deserialize(iter: &mut Source) -> (r: Result<Self, Error>) {
        match T::parse(iter) {
            Ok(value) => Ok(value),
            Err(e) => Err(convert(e)),
        }
    }
}

/// Decodes one value of the type `T` from the front of `iter`.
pub fn deserialize<T: Grammar>(iter: &mut Source) -> (r: Result<T, Error>)
    ensures
        deserializes(*old(iter), *final(iter), r, T::grammar(old(iter)@)),
{
    T::deserialize(iter)
}

} // verus!
