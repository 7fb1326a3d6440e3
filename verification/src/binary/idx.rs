//! Decoding of indices.
//!
//! An index of any kind is stored as a `u32`.

use vstd::prelude::*;
use crate::source::Source;
use crate::binary::error::Error;
use crate::binary::primitive::traits::{
    local, map_parsed, reads_its_bytes, Parsed, WasmBinaryGrammar, WasmBinaryParse,
};
use crate::binary::primitive::unsigned::{lemma_u32_local, u32_grammar};
use crate::structure::idx;

verus! {

impl WasmBinaryGrammar for idx::Type {
    open spec fn grammar(s: Seq<u8>) -> Parsed<idx::Type> {
        map_parsed(u32_grammar(s), |index: u32| idx::Type(index))
    }
}

impl WasmBinaryParse for idx::Type {
    fn parse(bin: &mut Source) -> (r: Result<Self, Error>) {
        Ok(idx::Type(u32::parse(bin)?))
    }
}

impl WasmBinaryGrammar for idx::Func {
    open spec fn grammar(s: Seq<u8>) -> Parsed<idx::Func> {
        map_parsed(u32_grammar(s), |index: u32| idx::Func(index))
    }
}

impl WasmBinaryParse for idx::Func {
    fn parse(bin: &mut Source) -> (r: Result<Self, Error>) {
        Ok(idx::Func(u32::parse(bin)?))
    }
}

impl WasmBinaryGrammar for idx::Table {
    open spec fn grammar(s: Seq<u8>) -> Parsed<idx::Table> {
        map_parsed(u32_grammar(s), |index: u32| idx::Table(index))
    }
}

impl WasmBinaryParse for idx::Table {
    fn parse(bin: &mut Source) -> (r: Result<Self, Error>) {
        Ok(idx::Table(u32::parse(bin)?))
    }
}

impl WasmBinaryGrammar for idx::Mem {
    open spec fn grammar(s: Seq<u8>) -> Parsed<idx::Mem> {
        map_parsed(u32_grammar(s), |index: u32| idx::Mem(index))
    }
}

impl WasmBinaryParse for idx::Mem {
    fn parse(bin: &mut Source) -> (r: Result<Self, Error>) {
        Ok(idx::Mem(u32::parse(bin)?))
    }
}

impl WasmBinaryGrammar for idx::Global {
    open spec fn grammar(s: Seq<u8>) -> Parsed<idx::Global> {
        map_parsed(u32_grammar(s), |index: u32| idx::Global(index))
    }
}

impl WasmBinaryParse for idx::Global {
    fn parse(bin: &mut Source) -> (r: Result<Self, Error>) {
        Ok(idx::Global(u32::parse(bin)?))
    }
}

impl WasmBinaryGrammar for idx::Local {
    open spec fn grammar(s: Seq<u8>) -> Parsed<idx::Local> {
        map_parsed(u32_grammar(s), |index: u32| idx::Local(index))
    }
}

impl WasmBinaryParse for idx::Local {
    fn parse(bin: &mut Source) -> (r: Result<Self, Error>) {
        Ok(idx::Local(u32::parse(bin)?))
    }
}

impl WasmBinaryGrammar for idx::Label {
    open spec fn grammar(s: Seq<u8>) -> Parsed<idx::Label> {
        map_parsed(u32_grammar(s), |index: u32| idx::Label(index))
    }
}

impl WasmBinaryParse for idx::Label {
    fn parse(bin: &mut Source) -> (r: Result<Self, Error>) {
        Ok(idx::Label(u32::parse(bin)?))
    }
}

/// A type index is read from its own bytes.
pub proof fn lemma_type_index_reads_its_bytes()
    ensures
        reads_its_bytes::<idx::Type>(),
{
    assert forall|s: Seq<u8>, t: Seq<u8>|
        #![trigger idx::Type::grammar(s), idx::Type::grammar(t)]
        local(s, t, idx::Type::grammar(s), idx::Type::grammar(t)) by {
        lemma_u32_local(s, t);
    }
}

/// A function index is read from its own bytes.
pub proof fn lemma_func_index_reads_its_bytes()
    ensures
        reads_its_bytes::<idx::Func>(),
{
    assert forall|s: Seq<u8>, t: Seq<u8>|
        #![trigger idx::Func::grammar(s), idx::Func::grammar(t)]
        local(s, t, idx::Func::grammar(s), idx::Func::grammar(t)) by {
        lemma_u32_local(s, t);
    }
}

/// A label is read from its own bytes.
pub proof fn lemma_label_reads_its_bytes()
    ensures
        reads_its_bytes::<idx::Label>(),
{
    assert forall|s: Seq<u8>, t: Seq<u8>|
        #![trigger idx::Label::grammar(s), idx::Label::grammar(t)]
        local(s, t, idx::Label::grammar(s), idx::Label::grammar(t)) by {
        lemma_u32_local(s, t);
    }
}

} // verus!
