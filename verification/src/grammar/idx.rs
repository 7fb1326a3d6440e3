//! The indices by which the sections of a module refer to its parts.

use vstd::prelude::*;
use crate::binary::error::Error;
use crate::binary::primitive::traits::{Parsed, WasmBinaryGrammar, WasmBinaryParse};
use crate::source::Source;

verus! {

broadcast use vstd::seq_lib::lemma_seq_skip_of_skip;

/// An index into the types of a module.
#[derive(Debug, Clone, Copy, PartialEq, Eq, Structural)]
pub struct TypeIdx(pub u32);

impl DeepView for TypeIdx {
    type V = TypeIdx;

    open spec fn deep_view(&self) -> TypeIdx {
        *self
    }
}

/// The grammar of a type index: a `u32`.
pub open spec fn type_idx_grammar(s: Seq<u8>) -> Parsed<TypeIdx> {
    match u32::grammar(s) {
        Err(e) => Err(e),
        Ok((index, a)) => Ok((TypeIdx(index), a)),
    }
}

impl WasmBinaryGrammar for TypeIdx {
    open spec fn grammar(s: Seq<u8>) -> Parsed<TypeIdx> {
        type_idx_grammar(s)
    }
}

impl WasmBinaryParse for TypeIdx {
    fn parse(bin: &mut Source) -> (r: Result<Self, Error>) {
        let index = u32::parse(bin)?;
        Ok(TypeIdx(index))
    }
}

/// An index into the functions of a module.
#[derive(Debug, Clone, Copy, PartialEq, Eq, Structural)]
pub struct FuncIdx(pub u32);

impl DeepView for FuncIdx {
    type V = FuncIdx;

    open spec fn deep_view(&self) -> FuncIdx {
        *self
    }
}

/// The grammar of a function index: a `u32`.
pub open spec fn func_idx_grammar(s: Seq<u8>) -> Parsed<FuncIdx> {
    match u32::grammar(s) {
        Err(e) => Err(e),
        Ok((index, a)) => Ok((FuncIdx(index), a)),
    }
}

impl WasmBinaryGrammar for FuncIdx {
    open spec fn grammar(s: Seq<u8>) -> Parsed<FuncIdx> {
        func_idx_grammar(s)
    }
}

impl WasmBinaryParse for FuncIdx {
    fn parse(bin: &mut Source) -> (r: Result<Self, Error>) {
        let index = u32::parse(bin)?;
        Ok(FuncIdx(index))
    }
}

/// An index into the tables of a module.
#[derive(Debug, Clone, Copy, PartialEq, Eq, Structural)]
pub struct TableIdx(pub u32);

impl DeepView for TableIdx {
    type V = TableIdx;

    open spec fn deep_view(&self) -> TableIdx {
        *self
    }
}

/// The grammar of a table index: a `u32`.
pub open spec fn table_idx_grammar(s: Seq<u8>) -> Parsed<TableIdx> {
    match u32::grammar(s) {
        Err(e) => Err(e),
        Ok((index, a)) => Ok((TableIdx(index), a)),
    }
}

impl WasmBinaryGrammar for TableIdx {
    open spec fn grammar(s: Seq<u8>) -> Parsed<TableIdx> {
        table_idx_grammar(s)
    }
}

impl WasmBinaryParse for TableIdx {
    fn parse(bin: &mut Source) -> (r: Result<Self, Error>) {
        let index = u32::parse(bin)?;
        Ok(TableIdx(index))
    }
}

/// An index into the memories of a module.
#[derive(Debug, Clone, Copy, PartialEq, Eq, Structural)]
pub struct MemIdx(pub u32);

impl DeepView for MemIdx {
    type V = MemIdx;

    open spec fn deep_view(&self) -> MemIdx {
        *self
    }
}

/// The grammar of a memory index: a `u32`.
pub open spec fn mem_idx_grammar(s: Seq<u8>) -> Parsed<MemIdx> {
    match u32::grammar(s) {
        Err(e) => Err(e),
        Ok((index, a)) => Ok((MemIdx(index), a)),
    }
}

impl WasmBinaryGrammar for MemIdx {
    open spec fn grammar(s: Seq<u8>) -> Parsed<MemIdx> {
        mem_idx_grammar(s)
    }
}

impl WasmBinaryParse for MemIdx {
    fn parse(bin: &mut Source) -> (r: Result<Self, Error>) {
        let index = u32::parse(bin)?;
        Ok(MemIdx(index))
    }
}

/// An index into the globals of a module.
#[derive(Debug, Clone, Copy, PartialEq, Eq, Structural)]
pub struct GlobalIdx(pub u32);

impl DeepView for GlobalIdx {
    type V = GlobalIdx;

    open spec fn deep_view(&self) -> GlobalIdx {
        *self
    }
}

/// The grammar of a global index: a `u32`.
pub open spec fn global_idx_grammar(s: Seq<u8>) -> Parsed<GlobalIdx> {
    match u32::grammar(s) {
        Err(e) => Err(e),
        Ok((index, a)) => Ok((GlobalIdx(index), a)),
    }
}

impl WasmBinaryGrammar for GlobalIdx {
    open spec fn grammar(s: Seq<u8>) -> Parsed<GlobalIdx> {
        global_idx_grammar(s)
    }
}

impl WasmBinaryParse for GlobalIdx {
    fn parse(bin: &mut Source) -> (r: Result<Self, Error>) {
        let index = u32::parse(bin)?;
        Ok(GlobalIdx(index))
    }
}

/// An index into the locals of a function.
#[derive(Debug, Clone, Copy, PartialEq, Eq, Structural)]
pub struct LocalIdx(pub u32);

impl DeepView for LocalIdx {
    type V = LocalIdx;

    open spec fn deep_view(&self) -> LocalIdx {
        *self
    }
}

/// The grammar of a local index: a `u32`.
pub open spec fn local_idx_grammar(s: Seq<u8>) -> Parsed<LocalIdx> {
    match u32::grammar(s) {
        Err(e) => Err(e),
        Ok((index, a)) => Ok((LocalIdx(index), a)),
    }
}

impl WasmBinaryGrammar for LocalIdx {
    open spec fn grammar(s: Seq<u8>) -> Parsed<LocalIdx> {
        local_idx_grammar(s)
    }
}

impl WasmBinaryParse for LocalIdx {
    fn parse(bin: &mut Source) -> (r: Result<Self, Error>) {
        let index = u32::parse(bin)?;
        Ok(LocalIdx(index))
    }
}

/// The number of enclosing blocks to leave, less one.
#[derive(Debug, Clone, Copy, PartialEq, Eq, Structural)]
pub struct LabelIdx(pub u32);

impl DeepView for LabelIdx {
    type V = LabelIdx;

    open spec fn deep_view(&self) -> LabelIdx {
        *self
    }
}

/// The grammar of a label index: a `u32`.
pub open spec fn label_idx_grammar(s: Seq<u8>) -> Parsed<LabelIdx> {
    match u32::grammar(s) {
        Err(e) => Err(e),
        Ok((index, a)) => Ok((LabelIdx(index), a)),
    }
}

impl WasmBinaryGrammar for LabelIdx {
    open spec fn grammar(s: Seq<u8>) -> Parsed<LabelIdx> {
        label_idx_grammar(s)
    }
}

impl WasmBinaryParse for LabelIdx {
    fn parse(bin: &mut Source) -> (r: Result<Self, Error>) {
        let index = u32::parse(bin)?;
        Ok(LabelIdx(index))
    }
}

} // verus!
