//! Decoding of pairs.
//!
//! A pair is stored as its first part and then its second part.

use vstd::prelude::*;
use crate::binary::error::Error;
use crate::binary::primitive::traits::{Parsed, WasmBinaryGrammar, WasmBinaryParse};
use crate::source::Source;

verus! {

broadcast use vstd::seq_lib::lemma_seq_skip_of_skip;

/// The grammar of a pair: the first part, then the second.
pub open spec fn pair_grammar<A: WasmBinaryGrammar, B: WasmBinaryGrammar>(s: Seq<u8>) -> Parsed<(A::V, B::V)> {
    match A::grammar(s) {
        Err(e) => Err(e),
        Ok((first, n)) => match B::grammar(s.skip(n as int)) {
            Err(e) => Err(e),
            Ok((second, a)) => Ok(((first, second), n + a)),
        },
    }
}

impl<A: WasmBinaryGrammar, B: WasmBinaryGrammar> WasmBinaryGrammar for (A, B) {
    open spec fn grammar(s: Seq<u8>) -> Parsed<(A::V, B::V)> {
        pair_grammar::<A, B>(s)
    }
}

impl<A: WasmBinaryParse, B: WasmBinaryParse> WasmBinaryParse for (A, B) {
    fn parse(bin: &mut Source) -> (r: Result<Self, Error>) {
        let first = A::parse(bin)?;
        let second = B::parse(bin)?;
        Ok((first, second))
    }
}

} // verus!
