//! Decoding of arrays of up to eight elements.
//!
//! An array of `N` elements is stored as its elements in a row.  Unlike a
//! vector it does not store its length.

use vstd::prelude::*;
use crate::source::Source;
use crate::binary::error::Error;
use crate::binary::primitive::traits::{Parsed, WasmBinaryGrammar, WasmBinaryParse};
use crate::binary::primitive::vec::{parse_repeat, repeat};

verus! {

impl<T: WasmBinaryGrammar> WasmBinaryGrammar for [T; 0] {
    open spec fn grammar(s: Seq<u8>) -> Parsed<Seq<T::V>> {
        repeat::<T>(s, 0)
    }
}

impl<T: WasmBinaryParse> WasmBinaryParse for [T; 0] {
    fn parse(bin: &mut Source) -> (r: Result<Self, Error>) {
        let elements = parse_repeat::<T>(bin, 0)?;
        let ghost decoded = elements.deep_view();
        let array: [T; 0] = [];
        assert(array.deep_view() =~= decoded);
        Ok(array)
    }
}

impl<T: WasmBinaryGrammar> WasmBinaryGrammar for [T; 1] {
    open spec fn grammar(s: Seq<u8>) -> Parsed<Seq<T::V>> {
        repeat::<T>(s, 1)
    }
}

impl<T: WasmBinaryParse> WasmBinaryParse for [T; 1] {
    fn parse(bin: &mut Source) -> (r: Result<Self, Error>) {
        let mut elements = parse_repeat::<T>(bin, 1)?;
        let ghost decoded = elements.deep_view();
        let a = elements.pop().unwrap();
        let array: [T; 1] = [a];
        assert(array.deep_view() =~= decoded);
        Ok(array)
    }
}

impl<T: WasmBinaryGrammar> WasmBinaryGrammar for [T; 2] {
    open spec fn grammar(s: Seq<u8>) -> Parsed<Seq<T::V>> {
        repeat::<T>(s, 2)
    }
}

impl<T: WasmBinaryParse> WasmBinaryParse for [T; 2] {
    fn parse(bin: &mut Source) -> (r: Result<Self, Error>) {
        let mut elements = parse_repeat::<T>(bin, 2)?;
        let ghost decoded = elements.deep_view();
        let b = elements.pop().unwrap();
        let a = elements.pop().unwrap();
        let array: [T; 2] = [a, b];
        assert(array.deep_view() =~= decoded);
        Ok(array)
    }
}

impl<T: WasmBinaryGrammar> WasmBinaryGrammar for [T; 3] {
    open spec fn grammar(s: Seq<u8>) -> Parsed<Seq<T::V>> {
        repeat::<T>(s, 3)
    }
}

impl<T: WasmBinaryParse> WasmBinaryParse for [T; 3] {
    fn parse(bin: &mut Source) -> (r: Result<Self, Error>) {
        let mut elements = parse_repeat::<T>(bin, 3)?;
        let ghost decoded = elements.deep_view();
        let c = elements.pop().unwrap();
        let b = elements.pop().unwrap();
        let a = elements.pop().unwrap();
        let array: [T; 3] = [a, b, c];
        assert(array.deep_view() =~= decoded);
        Ok(array)
    }
}

impl<T: WasmBinaryGrammar> WasmBinaryGrammar for [T; 4] {
    open spec fn grammar(s: Seq<u8>) -> Parsed<Seq<T::V>> {
        repeat::<T>(s, 4)
    }
}

impl<T: WasmBinaryParse> WasmBinaryParse for [T; 4] {
    fn parse(bin: &mut Source) -> (r: Result<Self, Error>) {
        let mut elements = parse_repeat::<T>(bin, 4)?;
        let ghost decoded = elements.deep_view();
        let d = elements.pop().unwrap();
        let c = elements.pop().unwrap();
        let b = elements.pop().unwrap();
        let a = elements.pop().unwrap();
        let array: [T; 4] = [a, b, c, d];
        assert(array.deep_view() =~= decoded);
        Ok(array)
    }
}

impl<T: WasmBinaryGrammar> WasmBinaryGrammar for [T; 5] {
    open spec fn grammar(s: Seq<u8>) -> Parsed<Seq<T::V>> {
        repeat::<T>(s, 5)
    }
}

impl<T: WasmBinaryParse> WasmBinaryParse for [T; 5] {
    fn parse(bin: &mut Source) -> (r: Result<Self, Error>) {
        let mut elements = parse_repeat::<T>(bin, 5)?;
        let ghost decoded = elements.deep_view();
        let e = elements.pop().unwrap();
        let d = elements.pop().unwrap();
        let c = elements.pop().unwrap();
        let b = elements.pop().unwrap();
        let a = elements.pop().unwrap();
        let array: [T; 5] = [a, b, c, d, e];
        assert(array.deep_view() =~= decoded);
        Ok(array)
    }
}

impl<T: WasmBinaryGrammar> WasmBinaryGrammar for [T; 6] {
    open spec fn grammar(s: Seq<u8>) -> Parsed<Seq<T::V>> {
        repeat::<T>(s, 6)
    }
}

impl<T: WasmBinaryParse> WasmBinaryParse for [T; 6] {
    fn parse(bin: &mut Source) -> (r: Result<Self, Error>) {
        let mut elements = parse_repeat::<T>(bin, 6)?;
        let ghost decoded = elements.deep_view();
        let f = elements.pop().unwrap();
        let e = elements.pop().unwrap();
        let d = elements.pop().unwrap();
        let c = elements.pop().unwrap();
        let b = elements.pop().unwrap();
        let a = elements.pop().unwrap();
        let array: [T; 6] = [a, b, c, d, e, f];
        assert(array.deep_view() =~= decoded);
        Ok(array)
    }
}

impl<T: WasmBinaryGrammar> WasmBinaryGrammar for [T; 7] {
    open spec fn grammar(s: Seq<u8>) -> Parsed<Seq<T::V>> {
        repeat::<T>(s, 7)
    }
}

impl<T: WasmBinaryParse> WasmBinaryParse for [T; 7] {
    fn parse(bin: &mut Source) -> (r: Result<Self, Error>) {
        let mut elements = parse_repeat::<T>(bin, 7)?;
        let ghost decoded = elements.deep_view();
        let g = elements.pop().unwrap();
        let f = elements.pop().unwrap();
        let e = elements.pop().unwrap();
        let d = elements.pop().unwrap();
        let c = elements.pop().unwrap();
        let b = elements.pop().unwrap();
        let a = elements.pop().unwrap();
        let array: [T; 7] = [a, b, c, d, e, f, g];
        assert(array.deep_view() =~= decoded);
        Ok(array)
    }
}

impl<T: WasmBinaryGrammar> WasmBinaryGrammar for [T; 8] {
    open spec fn grammar(s: Seq<u8>) -> Parsed<Seq<T::V>> {
        repeat::<T>(s, 8)
    }
}

impl<T: WasmBinaryParse> WasmBinaryParse for [T; 8] {
    fn parse(bin: &mut Source) -> (r: Result<Self, Error>) {
        let mut elements = parse_repeat::<T>(bin, 8)?;
        let ghost decoded = elements.deep_view();
        let h = elements.pop().unwrap();
        let g = elements.pop().unwrap();
        let f = elements.pop().unwrap();
        let e = elements.pop().unwrap();
        let d = elements.pop().unwrap();
        let c = elements.pop().unwrap();
        let b = elements.pop().unwrap();
        let a = elements.pop().unwrap();
        let array: [T; 8] = [a, b, c, d, e, f, g, h];
        assert(array.deep_view() =~= decoded);
        Ok(array)
    }
}

} // verus!
