//! Decoding of types.

use vstd::prelude::*;
use crate::source::Source;
use crate::binary::error::Error;
use crate::binary::primitive::byte::{byte_grammar, lemma_byte_local, Byte};
use crate::binary::primitive::traits::{
    lemma_agree, local, reads_its_bytes, Parsed, WasmBinaryGrammar, WasmBinaryParse,
};
use crate::binary::primitive::unsigned::{lemma_u32_local, u32_grammar};
use crate::binary::primitive::vec::{lemma_vec_local, vec_grammar};
use crate::structure::ty;

verus! {

broadcast use vstd::seq_lib::lemma_seq_skip_of_skip;

/// The grammar of limits: `0x00` and the minimum, or `0x01`, the minimum and
/// the maximum.
pub open spec fn limits_grammar(s: Seq<u8>) -> Parsed<ty::Limits> {
    match byte_grammar(s) {
        Err(e) => Err(e),
        Ok((id, n)) => if id == 0x00 {
            match u32_grammar(s.skip(n as int)) {
                Err(e) => Err(e),
                Ok((min, a)) => Ok((ty::Limits { min, max: None }, n + a)),
            }
        } else if id == 0x01 {
            match u32_grammar(s.skip(n as int)) {
                Err(e) => Err(e),
                Ok((min, a)) => match u32_grammar(s.skip(n as int).skip(a as int)) {
                    Err(e) => Err(e),
                    Ok((max, b)) => Ok((ty::Limits { min, max: Some(max) }, n + a + b)),
                },
            }
        } else {
            Err(Error::InvalidVariantId { id, ty: "ty::Limits" })
        },
    }
}

impl WasmBinaryGrammar for ty::Limits {
    open spec fn grammar(s: Seq<u8>) -> Parsed<ty::Limits> {
        limits_grammar(s)
    }
}

impl WasmBinaryParse for ty::Limits {
    fn parse(bin: &mut Source) -> (r: Result<Self, Error>) {
        let Byte(byte) = Byte::parse(bin)?;
        match byte {
            0x00 => Ok(ty::Limits { min: u32::parse(bin)?, max: None }),
            0x01 => {
                let min = u32::parse(bin)?;
                let max = u32::parse(bin)?;
                Ok(ty::Limits { min, max: Some(max) })
            },
            id => Err(Error::InvalidVariantId { id, ty: "ty::Limits" }),
        }
    }
}

/// The value type that the byte `id` stands for.
pub open spec fn val_of(id: u8) -> Option<ty::Val> {
    match id {
        0x7F => Some(ty::Val::I32),
        0x7E => Some(ty::Val::I64),
        0x7D => Some(ty::Val::F32),
        0x7C => Some(ty::Val::F64),
        _ => None,
    }
}

/// The grammar of a value type: one byte.
pub open spec fn val_grammar(s: Seq<u8>) -> Parsed<ty::Val> {
    match byte_grammar(s) {
        Err(e) => Err(e),
        Ok((id, n)) => match val_of(id) {
            Some(val) => Ok((val, n)),
            None => Err(Error::InvalidVariantId { id, ty: "ty::Val" }),
        },
    }
}

/// The value type that the byte `id` stands for, or the failure that it gives.
fn val_from(id: u8) -> (r: Result<ty::Val, Error>)
    ensures
        r == match val_of(id) {
            Some(val) => Ok::<ty::Val, Error>(val),
            None => Err(Error::InvalidVariantId { id, ty: "ty::Val" }),
        },
{
    match id {
        0x7F => Ok(ty::Val::I32),
        0x7E => Ok(ty::Val::I64),
        0x7D => Ok(ty::Val::F32),
        0x7C => Ok(ty::Val::F64),
        id => Err(Error::InvalidVariantId { id, ty: "ty::Val" }),
    }
}

impl WasmBinaryGrammar for ty::Val {
    open spec fn grammar(s: Seq<u8>) -> Parsed<ty::Val> {
        val_grammar(s)
    }
}

impl WasmBinaryParse for ty::Val {
    fn parse(bin: &mut Source) -> (r: Result<Self, Error>) {
        let Byte(byte) = Byte::parse(bin)?;
        val_from(byte)
    }
}

/// The grammar of an element type: the byte `0x70`.
pub open spec fn elem_grammar(s: Seq<u8>) -> Parsed<ty::Elem> {
    match byte_grammar(s) {
        Err(e) => Err(e),
        Ok((id, n)) => if id == 0x70 {
            Ok((ty::Elem::FuncRef, n))
        } else {
            Err(Error::InvalidVariantId { id, ty: "ty::Elem" })
        },
    }
}

impl WasmBinaryGrammar for ty::Elem {
    open spec fn grammar(s: Seq<u8>) -> Parsed<ty::Elem> {
        elem_grammar(s)
    }
}

impl WasmBinaryParse for ty::Elem {
    fn parse(bin: &mut Source) -> (r: Result<Self, Error>) {
        let Byte(byte) = Byte::parse(bin)?;
        match byte {
            0x70 => Ok(ty::Elem::FuncRef),
            id => Err(Error::InvalidVariantId { id, ty: "ty::Elem" }),
        }
    }
}

/// The grammar of a block's type: the byte `0x40` for no result, or the value
/// type of the one result.
pub open spec fn ret_val_grammar(s: Seq<u8>) -> Parsed<Seq<ty::Val>> {
    match byte_grammar(s) {
        Err(e) => Err(e),
        Ok((id, n)) => if id == 0x40 {
            Ok((Seq::empty(), n))
        } else {
            match val_of(id) {
                Some(val) => Ok((seq![val], n)),
                None => Err(Error::InvalidVariantId { id, ty: "ty::Val" }),
            }
        },
    }
}

impl WasmBinaryGrammar for ty::RetVal {
    open spec fn grammar(s: Seq<u8>) -> Parsed<Seq<ty::Val>> {
        ret_val_grammar(s)
    }
}

impl WasmBinaryParse for ty::RetVal {
    fn parse(bin: &mut Source) -> (r: Result<Self, Error>) {
        let Byte(byte) = Byte::parse(bin)?;
        match byte {
            0x40 => {
                let none: Vec<ty::Val> = Vec::new();
                assert(none@ =~= Seq::<ty::Val>::empty());
                Ok(ty::RetVal(none))
            },
            _ => {
                let val = val_from(byte)?;
                let mut one: Vec<ty::Val> = Vec::new();
                one.push(val);
                assert(one@ =~= seq![val]);
                Ok(ty::RetVal(one))
            },
        }
    }
}

/// The grammar of a function type: the byte `0x60`, the parameters and the
/// results.
pub open spec fn func_grammar(s: Seq<u8>) -> Parsed<ty::FuncView> {
    match byte_grammar(s) {
        Err(e) => Err(e),
        Ok((id, n)) => if id == 0x60 {
            match vec_grammar::<ty::Val>(s.skip(n as int)) {
                Err(e) => Err(e),
                Ok((params, a)) => match vec_grammar::<ty::Val>(s.skip(n as int).skip(a as int)) {
                    Err(e) => Err(e),
                    Ok((results, b)) => Ok((ty::FuncView { params, results }, n + a + b)),
                },
            }
        } else {
            Err(Error::InvalidVariantId { id, ty: "ty::Func" })
        },
    }
}

impl WasmBinaryGrammar for ty::Func {
    open spec fn grammar(s: Seq<u8>) -> Parsed<ty::FuncView> {
        func_grammar(s)
    }
}

impl WasmBinaryParse for ty::Func {
    fn parse(bin: &mut Source) -> (r: Result<Self, Error>) {
        let Byte(byte) = Byte::parse(bin)?;
        match byte {
            0x60 => {
                let params = Vec::<ty::Val>::parse(bin)?;
                let results = Vec::<ty::Val>::parse(bin)?;
                assert(params.deep_view() =~= params@);
                assert(results.deep_view() =~= results@);
                Ok(ty::Func { params, results })
            },
            id => Err(Error::InvalidVariantId { id, ty: "ty::Func" }),
        }
    }
}

/// The grammar of a table type: the element type, then the limits.
pub open spec fn table_grammar(s: Seq<u8>) -> Parsed<ty::Table> {
    match elem_grammar(s) {
        Err(e) => Err(e),
        Ok((elem, n)) => match limits_grammar(s.skip(n as int)) {
            Err(e) => Err(e),
            Ok((lim, a)) => Ok((ty::Table { lim, elem }, n + a)),
        },
    }
}

impl WasmBinaryGrammar for ty::Table {
    open spec fn grammar(s: Seq<u8>) -> Parsed<ty::Table> {
        table_grammar(s)
    }
}

impl WasmBinaryParse for ty::Table {
    fn parse(bin: &mut Source) -> (r: Result<Self, Error>) {
        let elem = ty::Elem::parse(bin)?;
        let lim = ty::Limits::parse(bin)?;
        Ok(ty::Table { lim, elem })
    }
}

/// The grammar of a memory type: its limits.
pub open spec fn mem_grammar(s: Seq<u8>) -> Parsed<ty::Mem> {
    match limits_grammar(s) {
        Err(e) => Err(e),
        Ok((lim, n)) => Ok((ty::Mem { lim }, n)),
    }
}

impl WasmBinaryGrammar for ty::Mem {
    open spec fn grammar(s: Seq<u8>) -> Parsed<ty::Mem> {
        mem_grammar(s)
    }
}

impl WasmBinaryParse for ty::Mem {
    fn parse(bin: &mut Source) -> (r: Result<Self, Error>) {
        Ok(ty::Mem { lim: ty::Limits::parse(bin)? })
    }
}

/// The grammar of a mutability: `0x00` for a constant, `0x01` for a variable.
pub open spec fn mut_grammar(s: Seq<u8>) -> Parsed<ty::Mut> {
    match byte_grammar(s) {
        Err(e) => Err(e),
        Ok((id, n)) => if id == 0x00 {
            Ok((ty::Mut::Const, n))
        } else if id == 0x01 {
            Ok((ty::Mut::Var, n))
        } else {
            Err(Error::InvalidVariantId { id, ty: "ty::Mut" })
        },
    }
}

impl WasmBinaryGrammar for ty::Mut {
    open spec fn grammar(s: Seq<u8>) -> Parsed<ty::Mut> {
        mut_grammar(s)
    }
}

impl WasmBinaryParse for ty::Mut {
    fn parse(bin: &mut Source) -> (r: Result<Self, Error>) {
        let Byte(byte) = Byte::parse(bin)?;
        match byte {
            0x00 => Ok(ty::Mut::Const),
            0x01 => Ok(ty::Mut::Var),
            id => Err(Error::InvalidVariantId { id, ty: "ty::Mut" }),
        }
    }
}

/// The grammar of a global's type: the value type, then the mutability.
pub open spec fn global_grammar(s: Seq<u8>) -> Parsed<ty::Global> {
    match val_grammar(s) {
        Err(e) => Err(e),
        Ok((val, n)) => match mut_grammar(s.skip(n as int)) {
            Err(e) => Err(e),
            Ok((mt, a)) => Ok((ty::Global { mt, val }, n + a)),
        },
    }
}

impl WasmBinaryGrammar for ty::Global {
    open spec fn grammar(s: Seq<u8>) -> Parsed<ty::Global> {
        global_grammar(s)
    }
}

impl WasmBinaryParse for ty::Global {
    fn parse(bin: &mut Source) -> (r: Result<Self, Error>) {
        let val = ty::Val::parse(bin)?;
        let mt = ty::Mut::parse(bin)?;
        Ok(ty::Global { mt, val })
    }
}

/// Limits are read from their own bytes.
pub proof fn lemma_limits_local(s: Seq<u8>, t: Seq<u8>)
    ensures
        local(s, t, limits_grammar(s), limits_grammar(t)),
{
    lemma_byte_local(s, t);
    if limits_grammar(s) is Ok {
        let n = limits_grammar(s)->Ok_0.1;
        lemma_u32_local(s.skip(1), t.skip(1));
        let a = u32_grammar(s.skip(1))->Ok_0.1;
        lemma_u32_local(s.skip(1).skip(a as int), t.skip(1).skip(a as int));
        if n <= t.len() && t.take(n as int) == s.take(n as int) {
            lemma_agree(s, t, 1, n);
            if s[0] == 0x01 {
                lemma_agree(s.skip(1), t.skip(1), a, (n - 1) as nat);
            }
        }
    }
}

/// A value type is read from its own byte.
pub proof fn lemma_val_local(s: Seq<u8>, t: Seq<u8>)
    ensures
        local(s, t, val_grammar(s), val_grammar(t)),
{
    lemma_byte_local(s, t);
}

/// A value type is read from its own byte.
pub proof fn lemma_val_reads_its_bytes()
    ensures
        reads_its_bytes::<ty::Val>(),
{
    assert forall|s: Seq<u8>, t: Seq<u8>|
        #![trigger ty::Val::grammar(s), ty::Val::grammar(t)]
        local(s, t, ty::Val::grammar(s), ty::Val::grammar(t)) by {
        lemma_val_local(s, t);
    }
}

/// An element type is read from its own byte.
pub proof fn lemma_elem_local(s: Seq<u8>, t: Seq<u8>)
    ensures
        local(s, t, elem_grammar(s), elem_grammar(t)),
{
    lemma_byte_local(s, t);
}

/// A block's type is read from its own byte.
pub proof fn lemma_ret_val_local(s: Seq<u8>, t: Seq<u8>)
    ensures
        local(s, t, ret_val_grammar(s), ret_val_grammar(t)),
{
    lemma_byte_local(s, t);
}

/// A function type is read from its own bytes.
pub proof fn lemma_func_local(s: Seq<u8>, t: Seq<u8>)
    ensures
        local(s, t, func_grammar(s), func_grammar(t)),
{
    lemma_byte_local(s, t);
    lemma_val_reads_its_bytes();
    if func_grammar(s) is Ok {
        let n = func_grammar(s)->Ok_0.1;
        lemma_vec_local::<ty::Val>(s.skip(1), t.skip(1));
        let a = vec_grammar::<ty::Val>(s.skip(1))->Ok_0.1;
        lemma_vec_local::<ty::Val>(s.skip(1).skip(a as int), t.skip(1).skip(a as int));
        if n <= t.len() && t.take(n as int) == s.take(n as int) {
            lemma_agree(s, t, 1, n);
            lemma_agree(s.skip(1), t.skip(1), a, (n - 1) as nat);
        }
    }
}

/// A function type is read from its own bytes.
pub proof fn lemma_func_reads_its_bytes()
    ensures
        reads_its_bytes::<ty::Func>(),
{
    assert forall|s: Seq<u8>, t: Seq<u8>|
        #![trigger ty::Func::grammar(s), ty::Func::grammar(t)]
        local(s, t, ty::Func::grammar(s), ty::Func::grammar(t)) by {
        lemma_func_local(s, t);
    }
}

/// A table type is read from its own bytes.
pub proof fn lemma_table_local(s: Seq<u8>, t: Seq<u8>)
    ensures
        local(s, t, table_grammar(s), table_grammar(t)),
{
    lemma_elem_local(s, t);
    if table_grammar(s) is Ok {
        let n = table_grammar(s)->Ok_0.1;
        lemma_limits_local(s.skip(1), t.skip(1));
        if n <= t.len() && t.take(n as int) == s.take(n as int) {
            lemma_agree(s, t, 1, n);
        }
    }
}

/// A memory type is read from its own bytes.
pub proof fn lemma_mem_local(s: Seq<u8>, t: Seq<u8>)
    ensures
        local(s, t, mem_grammar(s), mem_grammar(t)),
{
    lemma_limits_local(s, t);
}

/// A mutability is read from its own byte.
pub proof fn lemma_mut_local(s: Seq<u8>, t: Seq<u8>)
    ensures
        local(s, t, mut_grammar(s), mut_grammar(t)),
{
    lemma_byte_local(s, t);
}

/// A global's type is read from its own bytes.
pub proof fn lemma_global_local(s: Seq<u8>, t: Seq<u8>)
    ensures
        local(s, t, global_grammar(s), global_grammar(t)),
{
    lemma_val_local(s, t);
    if global_grammar(s) is Ok {
        let n = global_grammar(s)->Ok_0.1;
        lemma_mut_local(s.skip(1), t.skip(1));
        if n <= t.len() && t.take(n as int) == s.take(n as int) {
            lemma_agree(s, t, 1, n);
        }
    }
}

} // verus!
