//! Decoding of vectors that are stored as runs.

use vstd::prelude::*;
use crate::binary::error::Error;
use crate::binary::primitive::traits::{Parsed, WasmBinaryGrammar, WasmBinaryParse, WasmBinaryParseProxy};
use crate::binary::primitive::vec::{compact_vec_grammar, CompactVec};
use crate::source::Source;

verus! {

/// A vector that is stored as runs: a count, and then for each run its length
/// and its element.
#[derive(Debug, PartialEq)]
pub struct VecVec<T>(pub Vec<T>);

impl<T: DeepView> DeepView for VecVec<T> {
    type V = Seq<T::V>;

    open spec fn deep_view(&self) -> Seq<T::V> {
        self.0.deep_view()
    }
}

impl<T: WasmBinaryGrammar> WasmBinaryGrammar for VecVec<T> {
    open spec fn grammar(s: Seq<u8>) -> Parsed<Seq<T::V>> {
        compact_vec_grammar::<T>(s)
    }
}

impl<T: WasmBinaryParse + Copy> WasmBinaryParse for VecVec<T> {
    fn parse(bin: &mut Source) -> (r: Result<Self, Error>) {
        Ok(VecVec(CompactVec::<T>::parse(bin)?.unwrap()))
    }
}

} // verus!
