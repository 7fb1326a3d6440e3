//! Decoding of lists.
//!
//! A list is stored as its elements in a row, up to the end of the bytes.
//! Unlike a vector it does not store its length.

use vstd::prelude::*;
use crate::binary::error::Error;
use crate::binary::instr::after;
use crate::binary::primitive::traits::{Parsed, WasmBinaryGrammar, WasmBinaryParse};
use crate::source::Source;

verus! {

broadcast use vstd::seq_lib::lemma_seq_skip_of_skip;

/// The elements that take up all the bytes that are left.
#[derive(Debug, PartialEq)]
pub struct List<T>(pub Vec<T>);

impl<T: DeepView> DeepView for List<T> {
    type V = Seq<T::V>;

    open spec fn deep_view(&self) -> Seq<T::V> {
        self.0.deep_view()
    }
}

/// The grammar of a list: elements as long as bytes are left.  An element in
/// no bytes would never use them up: it makes the list fail as if the bytes
/// had run out.
pub open spec fn list_grammar<T: WasmBinaryGrammar>(s: Seq<u8>) -> Parsed<Seq<T::V>>
    decreases s.len(),
{
    if s.len() == 0 {
        Ok((Seq::empty(), 0))
    } else {
        match T::grammar(s) {
            Err(e) => Err(e),
            Ok((first, n)) => if n == 0 {
                Err(Error::UnexpectedEndOfFile)
            } else {
                match list_grammar::<T>(after(s, n)) {
                    Err(e) => Err(e),
                    Ok((others, m)) => Ok((seq![first] + others, n + m)),
                }
            },
        }
    }
}

/// `p` behind `front` and the `taken` bytes that `front` was decoded from.
pub open spec fn behind<V>(front: Seq<V>, taken: nat, p: Parsed<Seq<V>>) -> Parsed<Seq<V>> {
    match p {
        Err(e) => Err(e),
        Ok((others, m)) => Ok((front + others, taken + m)),
    }
}

impl<T: WasmBinaryGrammar> WasmBinaryGrammar for List<T> {
    open spec fn grammar(s: Seq<u8>) -> Parsed<Seq<T::V>> {
        list_grammar::<T>(s)
    }
}

impl<T: WasmBinaryParse> WasmBinaryParse for List<T> {
    fn parse(bin: &mut Source) -> (r: Result<Self, Error>) {
        let mut result: Vec<T> = Vec::new();
        let ghost s = bin@;
        let ghost mut taken: nat = 0;
        assert(result.deep_view() =~= Seq::<T::V>::empty());
        assert(s.skip(0) =~= s);
        while bin.remaining() > 0
            invariant
                s == old(bin)@,
                bin.beyond() == old(bin).beyond(),
                taken <= s.len(),
                bin@ == s.skip(taken as int),
                list_grammar::<T>(s) == behind(result.deep_view(), taken, list_grammar::<T>(s.skip(taken as int))),
            decreases bin@.len(),
        {
            let ghost front = result.deep_view();
            let ghost here = bin@;
            let left = bin.remaining();
            let element = T::parse(bin)?;
            if bin.remaining() == left {
                return Err(Error::UnexpectedEndOfFile);
            }
            proof {
                let n = T::grammar(here)->Ok_0.1;
                if let Ok((others, m)) = list_grammar::<T>(here.skip(n as int)) {
                    assert(front + (seq![element.deep_view()] + others) =~= front.push(element.deep_view()) + others);
                }
                taken = taken + n;
            }
            result.push(element);
            assert(result.deep_view() =~= front.push(element.deep_view()));
        }
        assert(result.deep_view() + Seq::<T::V>::empty() =~= result.deep_view());
        Ok(List(result))
    }
}

} // verus!
