//! The types of a module's parts.

use vstd::prelude::*;
use crate::binary::error::Error;
use crate::binary::primitive::byte::{byte_grammar, Byte};
use crate::binary::primitive::traits::{Parsed, WasmBinaryGrammar, WasmBinaryParse};
use crate::source::Source;

verus! {

broadcast use vstd::seq_lib::lemma_seq_skip_of_skip;

/// The type of a value.
#[derive(Debug, Clone, Copy, PartialEq, Eq, Structural)]
pub enum ValType {
    I32,
    I64,
    F32,
    F64,
}

impl DeepView for ValType {
    type V = ValType;

    open spec fn deep_view(&self) -> ValType {
        *self
    }
}

/// The grammar of a value type: one byte.
pub open spec fn val_type_grammar(s: Seq<u8>) -> Parsed<ValType> {
    match byte_grammar(s) {
        Err(e) => Err(e),
        Ok((id, n)) => if id == 0x7F {
            Ok((ValType::I32, n))
        } else if id == 0x7E {
            Ok((ValType::I64, n))
        } else if id == 0x7D {
            Ok((ValType::F32, n))
        } else if id == 0x7C {
            Ok((ValType::F64, n))
        } else {
            Err(Error::InvalidVariantId { id, ty: "ValType" })
        },
    }
}

impl WasmBinaryGrammar for ValType {
    open spec fn grammar(s: Seq<u8>) -> Parsed<ValType> {
        val_type_grammar(s)
    }
}

impl WasmBinaryParse for ValType {
    fn parse(bin: &mut Source) -> (r: Result<Self, Error>) {
        let Byte(id) = Byte::parse(bin)?;
        match id {
            0x7F => Ok(ValType::I32),
            0x7E => Ok(ValType::I64),
            0x7D => Ok(ValType::F32),
            0x7C => Ok(ValType::F64),
            id => Err(Error::InvalidVariantId { id, ty: "ValType" }),
        }
    }
}

/// The type of a function: what it takes and what it returns.
#[derive(Debug, PartialEq)]
pub enum FuncType {
    Func { params: Vec<ValType>, results: Vec<ValType> },
}

/// A function type as a mathematical value.
pub enum FuncTypeView {
    Func { params: Seq<ValType>, results: Seq<ValType> },
}

impl DeepView for FuncType {
    type V = FuncTypeView;

    open spec fn deep_view(&self) -> FuncTypeView {
        match self {
            FuncType::Func { params, results } => FuncTypeView::Func {
                params: params.deep_view(),
                results: results.deep_view(),
            },
        }
    }
}

/// The grammar of a function type: the byte `0x60`, the parameters and the
/// results.
pub open spec fn func_type_grammar(s: Seq<u8>) -> Parsed<FuncTypeView> {
    match byte_grammar(s) {
        Err(e) => Err(e),
        Ok((id, n)) => if id == 0x60 {
            match Vec::<ValType>::grammar(s.skip(n as int)) {
                Err(e) => Err(e),
                Ok((params, a)) => match Vec::<ValType>::grammar(s.skip(n as int).skip(a as int)) {
                    Err(e) => Err(e),
                    Ok((results, b)) => Ok((FuncTypeView::Func { params, results }, n + a + b)),
                },
            }
        } else {
            Err(Error::InvalidVariantId { id, ty: "FuncType" })
        },
    }
}

impl WasmBinaryGrammar for FuncType {
    open spec fn grammar(s: Seq<u8>) -> Parsed<FuncTypeView> {
        func_type_grammar(s)
    }
}

impl WasmBinaryParse for FuncType {
    fn parse(bin: &mut Source) -> (r: Result<Self, Error>) {
        let Byte(id) = Byte::parse(bin)?;
        match id {
            0x60 => {
                let params = Vec::<ValType>::parse(bin)?;
                let results = Vec::<ValType>::parse(bin)?;
                Ok(FuncType::Func { params, results })
            },
            id => Err(Error::InvalidVariantId { id, ty: "FuncType" }),
        }
    }
}

/// The size of a table or a memory: at least a minimum, and at most a maximum
/// where there is one.
#[derive(Debug, Clone, Copy, PartialEq, Eq, Structural)]
pub enum Limits {
    Min(u32),
    MinMax(u32, u32),
}

impl DeepView for Limits {
    type V = Limits;

    open spec fn deep_view(&self) -> Limits {
        *self
    }
}

/// The grammar of limits: `0x00` and the minimum, or `0x01`, the minimum and
/// the maximum.
pub open spec fn limits_grammar(s: Seq<u8>) -> Parsed<Limits> {
    match byte_grammar(s) {
        Err(e) => Err(e),
        Ok((id, n)) => if id == 0x00 {
            match u32::grammar(s.skip(n as int)) {
                Err(e) => Err(e),
                Ok((field0, a)) => Ok((Limits::Min(field0), n + a)),
            }
        } else if id == 0x01 {
            match u32::grammar(s.skip(n as int)) {
                Err(e) => Err(e),
                Ok((field0, a)) => match u32::grammar(s.skip(n as int).skip(a as int)) {
                    Err(e) => Err(e),
                    Ok((field1, b)) => Ok((Limits::MinMax(field0, field1), n + a + b)),
                },
            }
        } else {
            Err(Error::InvalidVariantId { id, ty: "Limits" })
        },
    }
}

impl WasmBinaryGrammar for Limits {
    open spec fn grammar(s: Seq<u8>) -> Parsed<Limits> {
        limits_grammar(s)
    }
}

impl WasmBinaryParse for Limits {
    fn parse(bin: &mut Source) -> (r: Result<Self, Error>) {
        let Byte(id) = Byte::parse(bin)?;
        match id {
            0x00 => {
                let field0 = u32::parse(bin)?;
                Ok(Limits::Min(field0))
            },
            0x01 => {
                let field0 = u32::parse(bin)?;
                let field1 = u32::parse(bin)?;
                Ok(Limits::MinMax(field0, field1))
            },
            id => Err(Error::InvalidVariantId { id, ty: "Limits" }),
        }
    }
}

/// The type of a memory, its limits counted in pages.
#[derive(Debug, Clone, Copy, PartialEq, Eq, Structural)]
pub struct MemType {
    pub lim: Limits,
}

impl DeepView for MemType {
    type V = MemType;

    open spec fn deep_view(&self) -> MemType {
        *self
    }
}

/// The grammar of a memory type: its limits.
pub open spec fn mem_type_grammar(s: Seq<u8>) -> Parsed<MemType> {
    match Limits::grammar(s) {
        Err(e) => Err(e),
        Ok((lim, a)) => Ok((MemType { lim }, a)),
    }
}

impl WasmBinaryGrammar for MemType {
    open spec fn grammar(s: Seq<u8>) -> Parsed<MemType> {
        mem_type_grammar(s)
    }
}

impl WasmBinaryParse for MemType {
    fn parse(bin: &mut Source) -> (r: Result<Self, Error>) {
        let lim = Limits::parse(bin)?;
        Ok(MemType { lim })
    }
}

/// The type of a table's elements.
#[derive(Debug, Clone, Copy, PartialEq, Eq, Structural)]
pub enum ElemType {
    FuncRef,
}

impl DeepView for ElemType {
    type V = ElemType;

    open spec fn deep_view(&self) -> ElemType {
        *self
    }
}

/// The grammar of an element type: the byte `0x70`.
pub open spec fn elem_type_grammar(s: Seq<u8>) -> Parsed<ElemType> {
    match byte_grammar(s) {
        Err(e) => Err(e),
        Ok((id, n)) => if id == 0x70 {
            Ok((ElemType::FuncRef, n))
        } else {
            Err(Error::InvalidVariantId { id, ty: "ElemType" })
        },
    }
}

impl WasmBinaryGrammar for ElemType {
    open spec fn grammar(s: Seq<u8>) -> Parsed<ElemType> {
        elem_type_grammar(s)
    }
}

impl WasmBinaryParse for ElemType {
    fn parse(bin: &mut Source) -> (r: Result<Self, Error>) {
        let Byte(id) = Byte::parse(bin)?;
        match id {
            0x70 => Ok(ElemType::FuncRef),
            id => Err(Error::InvalidVariantId { id, ty: "ElemType" }),
        }
    }
}

/// The type of a table.
#[derive(Debug, Clone, Copy, PartialEq, Eq, Structural)]
pub struct TableType {
    pub et: ElemType,
    pub lim: Limits,
}

impl DeepView for TableType {
    type V = TableType;

    open spec fn deep_view(&self) -> TableType {
        *self
    }
}

/// The grammar of a table type: the element type, then the limits.
pub open spec fn table_type_grammar(s: Seq<u8>) -> Parsed<TableType> {
    match ElemType::grammar(s) {
        Err(e) => Err(e),
        Ok((et, a)) => match Limits::grammar(s.skip(a as int)) {
            Err(e) => Err(e),
            Ok((lim, b)) => Ok((TableType { et, lim }, a + b)),
        },
    }
}

impl WasmBinaryGrammar for TableType {
    open spec fn grammar(s: Seq<u8>) -> Parsed<TableType> {
        table_type_grammar(s)
    }
}

impl WasmBinaryParse for TableType {
    fn parse(bin: &mut Source) -> (r: Result<Self, Error>) {
        let et = ElemType::parse(bin)?;
        let lim = Limits::parse(bin)?;
        Ok(TableType { et, lim })
    }
}

/// Whether a global can be assigned to.
#[derive(Debug, Clone, Copy, PartialEq, Eq, Structural)]
pub enum Mut {
    Const,
    Var,
}

impl DeepView for Mut {
    type V = Mut;

    open spec fn deep_view(&self) -> Mut {
        *self
    }
}

/// The grammar of a mutability: `0x00` for a constant, `0x01` for a variable.
pub open spec fn mut_grammar(s: Seq<u8>) -> Parsed<Mut> {
    match byte_grammar(s) {
        Err(e) => Err(e),
        Ok((id, n)) => if id == 0x00 {
            Ok((Mut::Const, n))
        } else if id == 0x01 {
            Ok((Mut::Var, n))
        } else {
            Err(Error::InvalidVariantId { id, ty: "Mut" })
        },
    }
}

impl WasmBinaryGrammar for Mut {
    open spec fn grammar(s: Seq<u8>) -> Parsed<Mut> {
        mut_grammar(s)
    }
}

impl WasmBinaryParse for Mut {
    fn parse(bin: &mut Source) -> (r: Result<Self, Error>) {
        let Byte(id) = Byte::parse(bin)?;
        match id {
            0x00 => Ok(Mut::Const),
            0x01 => Ok(Mut::Var),
            id => Err(Error::InvalidVariantId { id, ty: "Mut" }),
        }
    }
}

/// The type of a global.
#[derive(Debug, Clone, Copy, PartialEq, Eq, Structural)]
pub struct GlobalType {
    pub t: ValType,
    pub m: Mut,
}

impl DeepView for GlobalType {
    type V = GlobalType;

    open spec fn deep_view(&self) -> GlobalType {
        *self
    }
}

/// The grammar of a global's type: the value type, then the mutability.
pub open spec fn global_type_grammar(s: Seq<u8>) -> Parsed<GlobalType> {
    match ValType::grammar(s) {
        Err(e) => Err(e),
        Ok((t, a)) => match Mut::grammar(s.skip(a as int)) {
            Err(e) => Err(e),
            Ok((m, b)) => Ok((GlobalType { t, m }, a + b)),
        },
    }
}

impl WasmBinaryGrammar for GlobalType {
    open spec fn grammar(s: Seq<u8>) -> Parsed<GlobalType> {
        global_type_grammar(s)
    }
}

impl WasmBinaryParse for GlobalType {
    fn parse(bin: &mut Source) -> (r: Result<Self, Error>) {
        let t = ValType::parse(bin)?;
        let m = Mut::parse(bin)?;
        Ok(GlobalType { t, m })
    }
}

/// The type of what a block leaves on the stack: nothing, or one value.
#[derive(Debug, Clone, Copy, PartialEq, Eq, Structural)]
pub enum BlockType {
    Empty,
    Value(ValType),
}

impl DeepView for BlockType {
    type V = BlockType;

    open spec fn deep_view(&self) -> BlockType {
        *self
    }
}

/// The grammar of a block's type: the byte `0x40` for no result, or a value
/// type, which that byte is not.
pub open spec fn block_type_grammar(s: Seq<u8>) -> Parsed<BlockType> {
    match byte_grammar(s) {
        Err(e) => Err(e),
        Ok((id, n)) => if id == 0x40 {
            Ok((BlockType::Empty, n))
        } else {
            match val_type_grammar(s) {
                Err(e) => Err(e),
                Ok((value, a)) => Ok((BlockType::Value(value), a)),
            }
        },
    }
}

impl WasmBinaryGrammar for BlockType {
    open spec fn grammar(s: Seq<u8>) -> Parsed<BlockType> {
        block_type_grammar(s)
    }
}

impl WasmBinaryParse for BlockType {
    fn parse(bin: &mut Source) -> (r: Result<Self, Error>) {
        match bin.peek() {
            None => Err(Error::UnexpectedEndOfFile),
            Some(0x40) => {
                let _ = bin.next();
                Ok(BlockType::Empty)
            },
            Some(_) => Ok(BlockType::Value(ValType::parse(bin)?)),
        }
    }
}

} // verus!
