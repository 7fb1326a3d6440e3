//! Decoding of instructions and expressions.
//!
//! An instruction is stored as its opcode, one byte, and then its immediate
//! arguments.  An expression is stored as its instructions in a row and the
//! opcode `end`; the two branches of an `if` are separated by the opcode
//! `else`.

use vstd::prelude::*;
use crate::source::Source;
use crate::binary::error::Error;
use crate::binary::primitive::byte::{byte_grammar, lemma_byte_local, Byte};
use crate::binary::primitive::float::{f32_grammar, f64_grammar, lemma_f32_local, lemma_f64_local};
use crate::binary::primitive::signed::{i32_grammar, i64_grammar, lemma_i32_local, lemma_i64_local};
use crate::binary::primitive::traits::{
    lemma_agree, local, parses, Parsed, WasmBinaryGrammar, WasmBinaryParse,
};
use crate::binary::primitive::unsigned::{lemma_u32_local, u32_grammar};
use crate::binary::primitive::vec::{lemma_vec_local, vec_grammar};
use crate::binary::idx::lemma_label_reads_its_bytes;
use crate::binary::ty::{lemma_ret_val_local, ret_val_grammar};
use crate::structure::idx;
use crate::structure::instr::{instr_view, instrs_view, lemma_instr_view_nested, Expr, Instr, InstrView, F32, F64};
use crate::structure::ty::RetVal;

verus! {

broadcast use vstd::seq_lib::lemma_seq_skip_of_skip;

/// The instruction without immediate arguments that the opcode `op` stands
/// for.
pub open spec fn plain(op: u8) -> Option<Instr> {
    match op {
        0x00 => Some(Instr::Unreachable),
        0x01 => Some(Instr::Nop),
        0x05 => Some(Instr::Else),
        0x0B => Some(Instr::End),
        0x0F => Some(Instr::Return),
        0x1A => Some(Instr::Drop),
        0x1B => Some(Instr::Select),
        0x45 => Some(Instr::I32Eqz),
        0x46 => Some(Instr::I32Eq),
        0x47 => Some(Instr::I32Ne),
        0x48 => Some(Instr::I32LtS),
        0x49 => Some(Instr::I32LtU),
        0x4A => Some(Instr::I32GtS),
        0x4B => Some(Instr::I32GtU),
        0x4C => Some(Instr::I32LeS),
        0x4D => Some(Instr::I32LeU),
        0x4E => Some(Instr::I32GeS),
        0x4F => Some(Instr::I32GeU),
        0x50 => Some(Instr::I64Eqz),
        0x51 => Some(Instr::I64Eq),
        0x52 => Some(Instr::I64Ne),
        0x53 => Some(Instr::I64LtS),
        0x54 => Some(Instr::I64LtU),
        0x55 => Some(Instr::I64GtS),
        0x56 => Some(Instr::I64GtU),
        0x57 => Some(Instr::I64LeS),
        0x58 => Some(Instr::I64LeU),
        0x59 => Some(Instr::I64GeS),
        0x5A => Some(Instr::I64GeU),
        0x5B => Some(Instr::F32Eq),
        0x5C => Some(Instr::F32Ne),
        0x5D => Some(Instr::F32Lt),
        0x5E => Some(Instr::F32Gt),
        0x5F => Some(Instr::F32Le),
        0x60 => Some(Instr::F32Ge),
        0x61 => Some(Instr::F64Eq),
        0x62 => Some(Instr::F64Ne),
        0x63 => Some(Instr::F64Lt),
        0x64 => Some(Instr::F64Gt),
        0x65 => Some(Instr::F64Le),
        0x66 => Some(Instr::F64Ge),
        0x67 => Some(Instr::I32Clz),
        0x68 => Some(Instr::I32Ctz),
        0x69 => Some(Instr::I32Popcnt),
        0x6A => Some(Instr::I32Add),
        0x6B => Some(Instr::I32Sub),
        0x6C => Some(Instr::I32Mul),
        0x6D => Some(Instr::I32DivS),
        0x6E => Some(Instr::I32DivU),
        0x6F => Some(Instr::I32RemS),
        0x70 => Some(Instr::I32RemU),
        0x71 => Some(Instr::I32And),
        0x72 => Some(Instr::I32Or),
        0x73 => Some(Instr::I32Xor),
        0x74 => Some(Instr::I32Shl),
        0x75 => Some(Instr::I32ShrS),
        0x76 => Some(Instr::I32ShrU),
        0x77 => Some(Instr::I32Rotl),
        0x78 => Some(Instr::I32Rotr),
        0x79 => Some(Instr::I64Clz),
        0x7A => Some(Instr::I64Ctz),
        0x7B => Some(Instr::I64Popcnt),
        0x7C => Some(Instr::I64Add),
        0x7D => Some(Instr::I64Sub),
        0x7E => Some(Instr::I64Mul),
        0x7F => Some(Instr::I64DivS),
        0x80 => Some(Instr::I64DivU),
        0x81 => Some(Instr::I64RemS),
        0x82 => Some(Instr::I64RemU),
        0x83 => Some(Instr::I64And),
        0x84 => Some(Instr::I64Or),
        0x85 => Some(Instr::I64Xor),
        0x86 => Some(Instr::I64Shl),
        0x87 => Some(Instr::I64ShrS),
        0x88 => Some(Instr::I64ShrU),
        0x89 => Some(Instr::I64Rotl),
        0x8A => Some(Instr::I64Rotr),
        0x8B => Some(Instr::F32Abs),
        0x8C => Some(Instr::F32Neg),
        0x8D => Some(Instr::F32Ceil),
        0x8E => Some(Instr::F32Floor),
        0x8F => Some(Instr::F32Trunc),
        0x90 => Some(Instr::F32Nearest),
        0x91 => Some(Instr::F32Sqrt),
        0x92 => Some(Instr::F32Add),
        0x93 => Some(Instr::F32Sub),
        0x94 => Some(Instr::F32Mul),
        0x95 => Some(Instr::F32Div),
        0x96 => Some(Instr::F32Min),
        0x97 => Some(Instr::F32Max),
        0x98 => Some(Instr::F32Copysign),
        0x99 => Some(Instr::F64Abs),
        0x9A => Some(Instr::F64Neg),
        0x9B => Some(Instr::F64Ceil),
        0x9C => Some(Instr::F64Floor),
        0x9D => Some(Instr::F64Trunc),
        0x9E => Some(Instr::F64Nearest),
        0x9F => Some(Instr::F64Sqrt),
        0xA0 => Some(Instr::F64Add),
        0xA1 => Some(Instr::F64Sub),
        0xA2 => Some(Instr::F64Mul),
        0xA3 => Some(Instr::F64Div),
        0xA4 => Some(Instr::F64Min),
        0xA5 => Some(Instr::F64Max),
        0xA6 => Some(Instr::F64Copysign),
        0xA7 => Some(Instr::I32WrapI64),
        0xA8 => Some(Instr::I32TruncF32S),
        0xA9 => Some(Instr::I32TruncF32U),
        0xAA => Some(Instr::I32TruncF64S),
        0xAB => Some(Instr::I32TruncF64U),
        0xAC => Some(Instr::I64ExtendI32S),
        0xAD => Some(Instr::I64ExtendI32U),
        0xAE => Some(Instr::I64TruncF32S),
        0xAF => Some(Instr::I64TruncF32U),
        0xB0 => Some(Instr::I64TruncF64S),
        0xB1 => Some(Instr::I64TruncF64U),
        0xB2 => Some(Instr::F32ConvertI32S),
        0xB3 => Some(Instr::F32ConvertI32U),
        0xB4 => Some(Instr::F32ConvertI64S),
        0xB5 => Some(Instr::F32ConvertI64U),
        0xB6 => Some(Instr::F32DemoteF64),
        0xB7 => Some(Instr::F64ConvertI32S),
        0xB8 => Some(Instr::F64ConvertI32U),
        0xB9 => Some(Instr::F64ConvertI64S),
        0xBA => Some(Instr::F64ConvertI64U),
        0xBB => Some(Instr::F64PromoteF32),
        0xBC => Some(Instr::I32ReinterpretF32),
        0xBD => Some(Instr::I64ReinterpretF64),
        0xBE => Some(Instr::F32ReinterpretI32),
        0xBF => Some(Instr::F64ReinterpretI64),
        _ => None,
    }
}

/// The instruction with one index as its argument that the opcode `op` stands
/// for.
pub open spec fn indexed(op: u8, index: u32) -> Option<Instr> {
    match op {
        0x0C => Some(Instr::Br(idx::Label(index))),
        0x0D => Some(Instr::BrIf(idx::Label(index))),
        0x10 => Some(Instr::Call(idx::Func(index))),
        0x20 => Some(Instr::LocalGet(idx::Local(index))),
        0x21 => Some(Instr::LocalSet(idx::Local(index))),
        0x22 => Some(Instr::LocalTee(idx::Local(index))),
        0x23 => Some(Instr::GlobalGet(idx::Global(index))),
        0x24 => Some(Instr::GlobalSet(idx::Global(index))),
        0x3F => Some(Instr::MemSize(idx::Mem(index))),
        0x40 => Some(Instr::MemGrow(idx::Mem(index))),
        _ => None,
    }
}

/// The load or store that the opcode `op` stands for, with its alignment and
/// its offset.
pub open spec fn memory(op: u8, align: u32, offset: u32) -> Option<Instr> {
    match op {
        0x28 => Some(Instr::I32Load(align, offset)),
        0x29 => Some(Instr::I64Load(align, offset)),
        0x2A => Some(Instr::F32Load(align, offset)),
        0x2B => Some(Instr::F64Load(align, offset)),
        0x2C => Some(Instr::I32Load8S(align, offset)),
        0x2D => Some(Instr::I32Load8U(align, offset)),
        0x2E => Some(Instr::I32Load16S(align, offset)),
        0x2F => Some(Instr::I32Load16U(align, offset)),
        0x30 => Some(Instr::I64Load8S(align, offset)),
        0x31 => Some(Instr::I64Load8U(align, offset)),
        0x32 => Some(Instr::I64Load16S(align, offset)),
        0x33 => Some(Instr::I64Load16U(align, offset)),
        0x34 => Some(Instr::I64Load32S(align, offset)),
        0x35 => Some(Instr::I64Load32U(align, offset)),
        0x36 => Some(Instr::I32Store(align, offset)),
        0x37 => Some(Instr::I64Store(align, offset)),
        0x38 => Some(Instr::F32Store(align, offset)),
        0x39 => Some(Instr::F64Store(align, offset)),
        0x3A => Some(Instr::I32Store8(align, offset)),
        0x3B => Some(Instr::I32Store16(align, offset)),
        0x3C => Some(Instr::I64Store8(align, offset)),
        0x3D => Some(Instr::I64Store16(align, offset)),
        0x3E => Some(Instr::I64Store32(align, offset)),
        _ => None,
    }
}

/// Whether an instruction holds no vector, so that it is its own view.
pub open spec fn flat(instr: Instr) -> bool {
    !(instr is Block) && !(instr is Loop) && !(instr is If) && !(instr is BrTable)
}

/// What ends a sequence of instructions.
#[derive(Debug, Clone, Copy, PartialEq, Eq, Structural)]
pub enum Terminator {
    /// The opcode `end`.
    End,
    /// The opcode `else`.
    Else,
}

/// A sequence of instructions and what ended it.
#[derive(Debug, PartialEq)]
pub struct SubExpr(pub Expr, pub Terminator);

impl DeepView for SubExpr {
    type V = (Seq<InstrView>, Terminator);

    open spec fn deep_view(&self) -> (Seq<InstrView>, Terminator) {
        (self.0.deep_view(), self.1)
    }
}

/// `s` without its first `n` bytes, and empty where `s` is shorter.
pub open spec fn after(s: Seq<u8>, n: nat) -> Seq<u8> {
    if n <= s.len() {
        s.skip(n as int)
    } else {
        Seq::empty()
    }
}

/// The grammar of an instruction that holds no expression, after its opcode
/// `op`: what the opcode asks for.
#[verifier::opaque]
pub open spec fn flat_grammar(op: u8, rest: Seq<u8>) -> Parsed<InstrView> {
    if op == 0x0E {
        match vec_grammar::<idx::Label>(rest) {
            Err(e) => Err(e),
            Ok((labels, a)) => match u32_grammar(rest.skip(a as int)) {
                Err(e) => Err(e),
                Ok((default, b)) => Ok((InstrView::BrTable(labels, idx::Label(default)), 1 + a + b)),
            },
        }
    } else if op == 0x11 {
        match u32_grammar(rest) {
            Err(e) => Err(e),
            Ok((func, a)) => match u32_grammar(rest.skip(a as int)) {
                Err(e) => Err(e),
                Ok((table, b)) => Ok(
                    (InstrView::Plain(Instr::CallIndirect(idx::Func(func), idx::Table(table))), 1 + a + b),
                ),
            },
        }
    } else if op == 0x41 {
        match i32_grammar(rest) {
            Err(e) => Err(e),
            Ok((value, a)) => Ok((InstrView::Plain(Instr::ConstI32(value)), 1 + a)),
        }
    } else if op == 0x42 {
        match i64_grammar(rest) {
            Err(e) => Err(e),
            Ok((value, a)) => Ok((InstrView::Plain(Instr::ConstI64(value)), 1 + a)),
        }
    } else if op == 0x43 {
        match f32_grammar(rest) {
            Err(e) => Err(e),
            Ok((value, a)) => Ok((InstrView::Plain(Instr::ConstF32(value)), 1 + a)),
        }
    } else if op == 0x44 {
        match f64_grammar(rest) {
            Err(e) => Err(e),
            Ok((value, a)) => Ok((InstrView::Plain(Instr::ConstF64(value)), 1 + a)),
        }
    } else if memory(op, 0, 0) is Some {
        match u32_grammar(rest) {
            Err(e) => Err(e),
            Ok((align, a)) => match u32_grammar(rest.skip(a as int)) {
                Err(e) => Err(e),
                Ok((offset, b)) => Ok((InstrView::Plain(memory(op, align, offset)->Some_0), 1 + a + b)),
            },
        }
    } else if indexed(op, 0) is Some {
        match u32_grammar(rest) {
            Err(e) => Err(e),
            Ok((index, a)) => Ok((InstrView::Plain(indexed(op, index)->Some_0), 1 + a)),
        }
    } else {
        match plain(op) {
            Some(instr) => Ok((InstrView::Plain(instr), 1)),
            None => Err(Error::InvalidVariantId { id: op, ty: "instr::Instr" }),
        }
    }
}

/// The grammar of an instruction: the opcode, then what the opcode asks for.
pub open spec fn instr_grammar(s: Seq<u8>) -> Parsed<InstrView>
    decreases s.len(), 0nat,
{
    match byte_grammar(s) {
        Err(e) => Err(e),
        Ok((op, _)) => {
            let rest = s.skip(1);
            if op == 0x02 || op == 0x03 {
                match ret_val_grammar(rest) {
                    Err(e) => Err(e),
                    Ok((ret, a)) => match expr_grammar(rest.skip(a as int)) {
                        Err(e) => Err(e),
                        Ok((body, b)) => Ok(
                            (
                                if op == 0x02 {
                                    InstrView::Block(ret, body)
                                } else {
                                    InstrView::Loop(ret, body)
                                },
                                1 + a + b,
                            ),
                        ),
                    },
                }
            } else if op == 0x04 {
                match if_grammar(rest) {
                    Err(e) => Err(e),
                    Ok((instr, a)) => Ok((instr, 1 + a)),
                }
            } else {
                flat_grammar(op, rest)
            }
        },
    }
}

/// The grammar of an `if` after its opcode: the type, the first branch, and,
/// where `else` ended that, the second branch, which `end` must end.
pub open spec fn if_grammar(s: Seq<u8>) -> Parsed<InstrView>
    decreases s.len(), 2nat,
{
    match ret_val_grammar(s) {
        Err(e) => Err(e),
        Ok((ret, a)) => match sub_expr_grammar(after(s, a)) {
            Err(e) => Err(e),
            Ok(((then, Terminator::End), b)) => Ok((InstrView::If(ret, then, Seq::empty()), a + b)),
            Ok(((then, Terminator::Else), b)) => match sub_expr_grammar(after(after(s, a), b)) {
                Err(e) => Err(e),
                Ok(((els, Terminator::End), c)) => Ok((InstrView::If(ret, then, els), a + b + c)),
                Ok(((_, Terminator::Else), _)) => Err(Error::UnexpectedOpcode { instr: "Unknown" }),
            },
        },
    }
}

/// The grammar of a sequence of instructions: instructions up to the first
/// `end` or `else`, which is read and not made part of the sequence.
pub open spec fn sub_expr_grammar(s: Seq<u8>) -> Parsed<(Seq<InstrView>, Terminator)>
    decreases s.len(), 1nat,
{
    match instr_grammar(s) {
        Err(e) => Err(e),
        Ok((first, n)) => if first == InstrView::Plain(Instr::End) {
            Ok(((Seq::empty(), Terminator::End), n))
        } else if first == InstrView::Plain(Instr::Else) {
            Ok(((Seq::empty(), Terminator::Else), n))
        } else if n == 0 || s.len() == 0 {
            Err(Error::UnexpectedEndOfFile)
        } else {
            match sub_expr_grammar(after(s, n)) {
                Err(e) => Err(e),
                Ok(((others, end), m)) => Ok(((seq![first] + others, end), n + m)),
            }
        },
    }
}

/// The grammar of an expression: a sequence of instructions that `end` ends.
pub open spec fn expr_grammar(s: Seq<u8>) -> Parsed<Seq<InstrView>>
    decreases s.len(), 2nat,
{
    match sub_expr_grammar(s) {
        Err(e) => Err(e),
        Ok(((body, Terminator::End), n)) => Ok((body, n)),
        Ok(((_, Terminator::Else), _)) => Err(Error::UnexpectedOpcode { instr: "Else" }),
    }
}

/// The byte of the opcode that ends a sequence of instructions.
pub open spec fn opcode_of(end: Terminator) -> u8 {
    match end {
        Terminator::End => 0x0B,
        Terminator::Else => 0x05,
    }
}

/// An instruction that is decoded to `end` or `else` is that opcode and
/// nothing more.
pub proof fn lemma_terminator_is_one_byte(s: Seq<u8>)
    ensures
        instr_grammar(s) matches Ok((instr, n)) ==> (instr == InstrView::Plain(Instr::End) ==> n == 1 && s.len() >= 1
            && s[0] == 0x0B),
        instr_grammar(s) matches Ok((instr, n)) ==> (instr == InstrView::Plain(Instr::Else) ==> n == 1 && s.len()
            >= 1 && s[0] == 0x05),
{
    reveal(flat_grammar);
}

/// An instruction takes up at least its opcode.
pub proof fn lemma_instr_takes_a_byte(s: Seq<u8>)
    ensures
        instr_grammar(s) matches Ok((_, n)) ==> n >= 1 && s.len() >= 1,
{
    reveal(flat_grammar);
}

/// A sequence of instructions ends where its terminator stands: the last byte
/// that it takes up is the opcode of the terminator, and neither `end` nor
/// `else` is among its instructions.
pub proof fn lemma_sub_expr_ends(s: Seq<u8>)
    ensures
        sub_expr_grammar(s) matches Ok(((body, end), n)) ==> {
            &&& 1 <= n <= s.len()
            &&& s[n - 1] == opcode_of(end)
            &&& forall|k: int|
                0 <= k < body.len() ==> #[trigger] body[k] != InstrView::Plain(Instr::End) && body[k]
                    != InstrView::Plain(Instr::Else)
        },
    decreases s.len(),
{
    lemma_terminator_is_one_byte(s);
    if let Ok((first, n)) = instr_grammar(s) {
        if first != InstrView::Plain(Instr::End) && first != InstrView::Plain(Instr::Else) && n != 0 && s.len() != 0 {
            lemma_sub_expr_ends(after(s, n));
            if let Ok(((others, end), m)) = sub_expr_grammar(after(s, n)) {
                let body = seq![first] + others;
                assert(n <= s.len());
                assert(after(s, n)[m - 1] == s[n + m - 1]);
                assert forall|k: int| 0 <= k < body.len() implies #[trigger] body[k] != InstrView::Plain(Instr::End)
                    && body[k] != InstrView::Plain(Instr::Else) by {
                    if k > 0 {
                        assert(body[k] == others[k - 1]);
                    }
                }
            }
        }
    }
}

/// Every expression ends at an `end`: the last byte that it takes up is that
/// opcode, and neither `end` nor `else` is among its instructions.
pub proof fn lemma_expr_ends_at_end(s: Seq<u8>)
    ensures
        expr_grammar(s) matches Ok((body, n)) ==> {
            &&& 1 <= n <= s.len()
            &&& s[n - 1] == 0x0B
            &&& forall|k: int|
                0 <= k < body.len() ==> #[trigger] body[k] != InstrView::Plain(Instr::End) && body[k]
                    != InstrView::Plain(Instr::Else)
        },
{
    lemma_sub_expr_ends(s);
}

/// An `else` where an expression should end makes the expression fail.
pub proof fn lemma_expr_with_else_fails(s: Seq<u8>)
    requires
        sub_expr_grammar(s) is Ok,
        sub_expr_grammar(s)->Ok_0.0.1 == Terminator::Else,
    ensures
        expr_grammar(s) == Err::<(Seq<InstrView>, nat), Error>(Error::UnexpectedOpcode { instr: "Else" }),
{
}

/// An instruction that holds no expression is read from its own bytes: what
/// follows its opcode and its arguments does not change it.
pub proof fn lemma_flat_local(op: u8, s: Seq<u8>, t: Seq<u8>)
    ensures
        flat_grammar(op, s) matches Ok((_, n)) ==> {
            &&& 1 <= n <= s.len() + 1
            &&& (n <= t.len() + 1 && t.take(n - 1) == s.take(n - 1) ==> flat_grammar(op, t) == flat_grammar(op, s))
        },
{
    reveal(flat_grammar);
    lemma_label_reads_its_bytes();
    if let Ok((_, n)) = flat_grammar(op, s) {
        let agree = n <= t.len() + 1 && t.take(n - 1) == s.take(n - 1);
        if op == 0x0E {
            lemma_vec_local::<idx::Label>(s, t);
            let a = vec_grammar::<idx::Label>(s)->Ok_0.1;
            lemma_u32_local(s.skip(a as int), t.skip(a as int));
            if agree {
                lemma_agree(s, t, a, (n - 1) as nat);
            }
        } else if op == 0x11 || memory(op, 0, 0) is Some {
            lemma_u32_local(s, t);
            let a = u32_grammar(s)->Ok_0.1;
            lemma_u32_local(s.skip(a as int), t.skip(a as int));
            if agree {
                lemma_agree(s, t, a, (n - 1) as nat);
            }
        } else if op == 0x41 {
            lemma_i32_local(s, t);
        } else if op == 0x42 {
            lemma_i64_local(s, t);
        } else if op == 0x43 {
            lemma_f32_local(s, t);
        } else if op == 0x44 {
            lemma_f64_local(s, t);
        } else if indexed(op, 0) is Some {
            lemma_u32_local(s, t);
        } else {
            assert(t.take(0) =~= s.take(0));
        }
    }
}

/// An instruction is read from its own bytes.
pub proof fn lemma_instr_local(s: Seq<u8>, t: Seq<u8>)
    ensures
        local(s, t, instr_grammar(s), instr_grammar(t)),
    decreases s.len(), 0nat,
{
    lemma_byte_local(s, t);
    if let Ok((_, n)) = instr_grammar(s) {
        let op = s[0];
        let rest = s.skip(1);
        let other = t.skip(1);
        let agree = n <= t.len() && t.take(n as int) == s.take(n as int);
        lemma_instr_takes_a_byte(s);
        if op == 0x02 || op == 0x03 {
            lemma_ret_val_local(rest, other);
            let a = ret_val_grammar(rest)->Ok_0.1;
            lemma_expr_local(rest.skip(a as int), other.skip(a as int));
            if agree {
                lemma_agree(s, t, 1, n);
                lemma_agree(rest, other, a, (n - 1) as nat);
            }
        } else if op == 0x04 {
            lemma_if_local(rest, other);
            if agree {
                lemma_agree(s, t, 1, n);
            }
        } else {
            lemma_flat_local(op, rest, other);
            if agree {
                lemma_agree(s, t, 1, n);
            }
        }
    }
}

/// An `if` is read from its own bytes.
pub proof fn lemma_if_local(s: Seq<u8>, t: Seq<u8>)
    ensures
        local(s, t, if_grammar(s), if_grammar(t)),
    decreases s.len(), 2nat,
{
    lemma_ret_val_local(s, t);
    if let Ok((_, n)) = if_grammar(s) {
        let agree = n <= t.len() && t.take(n as int) == s.take(n as int);
        let a = ret_val_grammar(s)->Ok_0.1;
        lemma_sub_expr_local(after(s, a), after(t, a));
        let ((_, end), b) = sub_expr_grammar(after(s, a))->Ok_0;
        if end == Terminator::Else {
            lemma_sub_expr_ends(after(s, a));
            lemma_sub_expr_local(after(after(s, a), b), after(after(t, a), b));
        }
        if agree {
            lemma_agree(s, t, a, n);
            lemma_agree(s.skip(a as int), t.skip(a as int), b, (n - a) as nat);
        }
    }
}

/// A sequence of instructions is read from its own bytes.
pub proof fn lemma_sub_expr_local(s: Seq<u8>, t: Seq<u8>)
    ensures
        local(s, t, sub_expr_grammar(s), sub_expr_grammar(t)),
    decreases s.len(), 1nat,
{
    lemma_instr_local(s, t);
    if let Ok((_, total)) = sub_expr_grammar(s) {
        let (first, n) = instr_grammar(s)->Ok_0;
        let agree = total <= t.len() && t.take(total as int) == s.take(total as int);
        lemma_instr_takes_a_byte(s);
        if first != InstrView::Plain(Instr::End) && first != InstrView::Plain(Instr::Else) {
            lemma_sub_expr_local(after(s, n), after(t, n));
            if agree {
                lemma_agree(s, t, n, total);
            }
        }
    }
}

/// An expression is read from its own bytes.
pub proof fn lemma_expr_local(s: Seq<u8>, t: Seq<u8>)
    ensures
        local(s, t, expr_grammar(s), expr_grammar(t)),
    decreases s.len(), 2nat,
{
    lemma_sub_expr_local(s, t);
}

/// The instruction without immediate arguments that the opcode `op` stands
/// for.
fn plain_of(op: u8) -> (r: Option<Instr>)
    ensures
        r == plain(op),
        r matches Some(instr) ==> flat(instr),
{
    match op {
        0x00 => Some(Instr::Unreachable),
        0x01 => Some(Instr::Nop),
        0x05 => Some(Instr::Else),
        0x0B => Some(Instr::End),
        0x0F => Some(Instr::Return),
        0x1A => Some(Instr::Drop),
        0x1B => Some(Instr::Select),
        0x45 => Some(Instr::I32Eqz),
        0x46 => Some(Instr::I32Eq),
        0x47 => Some(Instr::I32Ne),
        0x48 => Some(Instr::I32LtS),
        0x49 => Some(Instr::I32LtU),
        0x4A => Some(Instr::I32GtS),
        0x4B => Some(Instr::I32GtU),
        0x4C => Some(Instr::I32LeS),
        0x4D => Some(Instr::I32LeU),
        0x4E => Some(Instr::I32GeS),
        0x4F => Some(Instr::I32GeU),
        0x50 => Some(Instr::I64Eqz),
        0x51 => Some(Instr::I64Eq),
        0x52 => Some(Instr::I64Ne),
        0x53 => Some(Instr::I64LtS),
        0x54 => Some(Instr::I64LtU),
        0x55 => Some(Instr::I64GtS),
        0x56 => Some(Instr::I64GtU),
        0x57 => Some(Instr::I64LeS),
        0x58 => Some(Instr::I64LeU),
        0x59 => Some(Instr::I64GeS),
        0x5A => Some(Instr::I64GeU),
        0x5B => Some(Instr::F32Eq),
        0x5C => Some(Instr::F32Ne),
        0x5D => Some(Instr::F32Lt),
        0x5E => Some(Instr::F32Gt),
        0x5F => Some(Instr::F32Le),
        0x60 => Some(Instr::F32Ge),
        0x61 => Some(Instr::F64Eq),
        0x62 => Some(Instr::F64Ne),
        0x63 => Some(Instr::F64Lt),
        0x64 => Some(Instr::F64Gt),
        0x65 => Some(Instr::F64Le),
        0x66 => Some(Instr::F64Ge),
        0x67 => Some(Instr::I32Clz),
        0x68 => Some(Instr::I32Ctz),
        0x69 => Some(Instr::I32Popcnt),
        0x6A => Some(Instr::I32Add),
        0x6B => Some(Instr::I32Sub),
        0x6C => Some(Instr::I32Mul),
        0x6D => Some(Instr::I32DivS),
        0x6E => Some(Instr::I32DivU),
        0x6F => Some(Instr::I32RemS),
        0x70 => Some(Instr::I32RemU),
        0x71 => Some(Instr::I32And),
        0x72 => Some(Instr::I32Or),
        0x73 => Some(Instr::I32Xor),
        0x74 => Some(Instr::I32Shl),
        0x75 => Some(Instr::I32ShrS),
        0x76 => Some(Instr::I32ShrU),
        0x77 => Some(Instr::I32Rotl),
        0x78 => Some(Instr::I32Rotr),
        0x79 => Some(Instr::I64Clz),
        0x7A => Some(Instr::I64Ctz),
        0x7B => Some(Instr::I64Popcnt),
        0x7C => Some(Instr::I64Add),
        0x7D => Some(Instr::I64Sub),
        0x7E => Some(Instr::I64Mul),
        0x7F => Some(Instr::I64DivS),
        0x80 => Some(Instr::I64DivU),
        0x81 => Some(Instr::I64RemS),
        0x82 => Some(Instr::I64RemU),
        0x83 => Some(Instr::I64And),
        0x84 => Some(Instr::I64Or),
        0x85 => Some(Instr::I64Xor),
        0x86 => Some(Instr::I64Shl),
        0x87 => Some(Instr::I64ShrS),
        0x88 => Some(Instr::I64ShrU),
        0x89 => Some(Instr::I64Rotl),
        0x8A => Some(Instr::I64Rotr),
        0x8B => Some(Instr::F32Abs),
        0x8C => Some(Instr::F32Neg),
        0x8D => Some(Instr::F32Ceil),
        0x8E => Some(Instr::F32Floor),
        0x8F => Some(Instr::F32Trunc),
        0x90 => Some(Instr::F32Nearest),
        0x91 => Some(Instr::F32Sqrt),
        0x92 => Some(Instr::F32Add),
        0x93 => Some(Instr::F32Sub),
        0x94 => Some(Instr::F32Mul),
        0x95 => Some(Instr::F32Div),
        0x96 => Some(Instr::F32Min),
        0x97 => Some(Instr::F32Max),
        0x98 => Some(Instr::F32Copysign),
        0x99 => Some(Instr::F64Abs),
        0x9A => Some(Instr::F64Neg),
        0x9B => Some(Instr::F64Ceil),
        0x9C => Some(Instr::F64Floor),
        0x9D => Some(Instr::F64Trunc),
        0x9E => Some(Instr::F64Nearest),
        0x9F => Some(Instr::F64Sqrt),
        0xA0 => Some(Instr::F64Add),
        0xA1 => Some(Instr::F64Sub),
        0xA2 => Some(Instr::F64Mul),
        0xA3 => Some(Instr::F64Div),
        0xA4 => Some(Instr::F64Min),
        0xA5 => Some(Instr::F64Max),
        0xA6 => Some(Instr::F64Copysign),
        0xA7 => Some(Instr::I32WrapI64),
        0xA8 => Some(Instr::I32TruncF32S),
        0xA9 => Some(Instr::I32TruncF32U),
        0xAA => Some(Instr::I32TruncF64S),
        0xAB => Some(Instr::I32TruncF64U),
        0xAC => Some(Instr::I64ExtendI32S),
        0xAD => Some(Instr::I64ExtendI32U),
        0xAE => Some(Instr::I64TruncF32S),
        0xAF => Some(Instr::I64TruncF32U),
        0xB0 => Some(Instr::I64TruncF64S),
        0xB1 => Some(Instr::I64TruncF64U),
        0xB2 => Some(Instr::F32ConvertI32S),
        0xB3 => Some(Instr::F32ConvertI32U),
        0xB4 => Some(Instr::F32ConvertI64S),
        0xB5 => Some(Instr::F32ConvertI64U),
        0xB6 => Some(Instr::F32DemoteF64),
        0xB7 => Some(Instr::F64ConvertI32S),
        0xB8 => Some(Instr::F64ConvertI32U),
        0xB9 => Some(Instr::F64ConvertI64S),
        0xBA => Some(Instr::F64ConvertI64U),
        0xBB => Some(Instr::F64PromoteF32),
        0xBC => Some(Instr::I32ReinterpretF32),
        0xBD => Some(Instr::I64ReinterpretF64),
        0xBE => Some(Instr::F32ReinterpretI32),
        0xBF => Some(Instr::F64ReinterpretI64),
        _ => None,
    }
}

/// The instruction with one index as its argument that the opcode `op` stands
/// for.
fn indexed_of(op: u8, index: u32) -> (r: Option<Instr>)
    ensures
        r == indexed(op, index),
        r matches Some(instr) ==> flat(instr),
        r is Some <==> indexed(op, 0) is Some,
{
    match op {
        0x0C => Some(Instr::Br(idx::Label(index))),
        0x0D => Some(Instr::BrIf(idx::Label(index))),
        0x10 => Some(Instr::Call(idx::Func(index))),
        0x20 => Some(Instr::LocalGet(idx::Local(index))),
        0x21 => Some(Instr::LocalSet(idx::Local(index))),
        0x22 => Some(Instr::LocalTee(idx::Local(index))),
        0x23 => Some(Instr::GlobalGet(idx::Global(index))),
        0x24 => Some(Instr::GlobalSet(idx::Global(index))),
        0x3F => Some(Instr::MemSize(idx::Mem(index))),
        0x40 => Some(Instr::MemGrow(idx::Mem(index))),
        _ => None,
    }
}

/// The load or store that the opcode `op` stands for, with its alignment and
/// its offset.
fn memory_of(op: u8, align: u32, offset: u32) -> (r: Option<Instr>)
    ensures
        r == memory(op, align, offset),
        r matches Some(instr) ==> flat(instr),
        r is Some <==> memory(op, 0, 0) is Some,
{
    match op {
        0x28 => Some(Instr::I32Load(align, offset)),
        0x29 => Some(Instr::I64Load(align, offset)),
        0x2A => Some(Instr::F32Load(align, offset)),
        0x2B => Some(Instr::F64Load(align, offset)),
        0x2C => Some(Instr::I32Load8S(align, offset)),
        0x2D => Some(Instr::I32Load8U(align, offset)),
        0x2E => Some(Instr::I32Load16S(align, offset)),
        0x2F => Some(Instr::I32Load16U(align, offset)),
        0x30 => Some(Instr::I64Load8S(align, offset)),
        0x31 => Some(Instr::I64Load8U(align, offset)),
        0x32 => Some(Instr::I64Load16S(align, offset)),
        0x33 => Some(Instr::I64Load16U(align, offset)),
        0x34 => Some(Instr::I64Load32S(align, offset)),
        0x35 => Some(Instr::I64Load32U(align, offset)),
        0x36 => Some(Instr::I32Store(align, offset)),
        0x37 => Some(Instr::I64Store(align, offset)),
        0x38 => Some(Instr::F32Store(align, offset)),
        0x39 => Some(Instr::F64Store(align, offset)),
        0x3A => Some(Instr::I32Store8(align, offset)),
        0x3B => Some(Instr::I32Store16(align, offset)),
        0x3C => Some(Instr::I64Store8(align, offset)),
        0x3D => Some(Instr::I64Store16(align, offset)),
        0x3E => Some(Instr::I64Store32(align, offset)),
        _ => None,
    }
}

/// `p` behind `front` and the `taken` bytes that `front` was decoded from.
pub open spec fn behind(
    front: Seq<InstrView>,
    taken: nat,
    p: Parsed<(Seq<InstrView>, Terminator)>,
) -> Parsed<(Seq<InstrView>, Terminator)> {
    match p {
        Err(e) => Err(e),
        Ok(((others, end), m)) => Ok(((front + others, end), taken + m)),
    }
}

/// Decodes one instruction.
pub fn parse_instr(bin: &mut Source) -> (r: Result<Instr, Error>)
    ensures
        parses(*old(bin), *final(bin), r, instr_grammar(old(bin)@)),
    decreases old(bin)@.len(), 0nat,
{
    proof {
        reveal(flat_grammar);
    }
    let Byte(op) = Byte::parse(bin)?;
    match op {
        0x02 => {
            let ret = RetVal::parse(bin)?;
            let body = parse_expr(bin)?;
            let instr = Instr::Block(ret, body);
            proof {
                lemma_instr_view_nested(instr);
            }
            Ok(instr)
        },
        0x03 => {
            let ret = RetVal::parse(bin)?;
            let body = parse_expr(bin)?;
            let instr = Instr::Loop(ret, body);
            proof {
                lemma_instr_view_nested(instr);
            }
            Ok(instr)
        },
        0x04 => parse_if(bin),
        0x0E => {
            let labels = Vec::<idx::Label>::parse(bin)?;
            let default = idx::Label::parse(bin)?;
            assert(labels.deep_view() =~= labels@);
            Ok(Instr::BrTable(labels, default))
        },
        0x11 => {
            let func = idx::Func::parse(bin)?;
            let table = idx::Table::parse(bin)?;
            Ok(Instr::CallIndirect(func, table))
        },
        0x41 => Ok(Instr::ConstI32(i32::parse(bin)?)),
        0x42 => Ok(Instr::ConstI64(i64::parse(bin)?)),
        0x43 => Ok(Instr::ConstF32(F32::parse(bin)?)),
        0x44 => Ok(Instr::ConstF64(F64::parse(bin)?)),
        _ => {
            if memory_of(op, 0, 0).is_some() {
                let align = u32::parse(bin)?;
                let offset = u32::parse(bin)?;
                match memory_of(op, align, offset) {
                    Some(instr) => Ok(instr),
                    None => Err(Error::InvalidVariantId { id: op, ty: "instr::Instr" }),
                }
            } else if indexed_of(op, 0).is_some() {
                let index = u32::parse(bin)?;
                match indexed_of(op, index) {
                    Some(instr) => Ok(instr),
                    None => Err(Error::InvalidVariantId { id: op, ty: "instr::Instr" }),
                }
            } else {
                match plain_of(op) {
                    Some(instr) => Ok(instr),
                    None => Err(Error::InvalidVariantId { id: op, ty: "instr::Instr" }),
                }
            }
        },
    }
}

/// Decodes an `if` whose opcode has been read.
pub fn parse_if(bin: &mut Source) -> (r: Result<Instr, Error>)
    ensures
        parses(*old(bin), *final(bin), r, if_grammar(old(bin)@)),
    decreases old(bin)@.len(), 2nat,
{
    let ret = RetVal::parse(bin)?;
    let SubExpr(then, end) = parse_sub_expr(bin)?;
    match end {
        Terminator::End => {
            let none: Vec<Instr> = Vec::new();
            assert(instrs_view(none@) =~= Seq::<InstrView>::empty());
            let instr = Instr::If(ret, then, Expr(none));
            proof {
                lemma_instr_view_nested(instr);
            }
            Ok(instr)
        },
        Terminator::Else => {
            let SubExpr(els, end) = parse_sub_expr(bin)?;
            match end {
                Terminator::End => {
                    let instr = Instr::If(ret, then, els);
                    proof {
                        lemma_instr_view_nested(instr);
                    }
                    Ok(instr)
                },
                Terminator::Else => Err(Error::UnexpectedOpcode { instr: "Unknown" }),
            }
        },
    }
}

/// Decodes instructions up to the first `end` or `else`.
pub fn parse_sub_expr(bin: &mut Source) -> (r: Result<SubExpr, Error>)
    ensures
        parses(*old(bin), *final(bin), r, sub_expr_grammar(old(bin)@)),
    decreases old(bin)@.len(), 1nat,
{
    let mut body: Vec<Instr> = Vec::new();
    let ghost s = bin@;
    let ghost mut taken: nat = 0;
    assert(instrs_view(body@) =~= Seq::<InstrView>::empty());
    assert(s.skip(0) =~= s);
    loop
        invariant
            s == old(bin)@,
            bin.beyond() == old(bin).beyond(),
            taken <= s.len(),
            bin@ == s.skip(taken as int),
            sub_expr_grammar(s) == behind(instrs_view(body@), taken, sub_expr_grammar(s.skip(taken as int))),
        decreases s.len() - taken,
    {
        let ghost front = instrs_view(body@);
        let ghost here = s.skip(taken as int);
        let next = parse_instr(bin)?;
        let ghost n = instr_grammar(here)->Ok_0.1;
        match next {
            Instr::End => {
                assert(front + Seq::<InstrView>::empty() =~= front);
                return Ok(SubExpr(Expr(body), Terminator::End));
            },
            Instr::Else => {
                assert(front + Seq::<InstrView>::empty() =~= front);
                return Ok(SubExpr(Expr(body), Terminator::Else));
            },
            _ => {
                proof {
                    let view = instr_view(next);
                    assert(view != InstrView::Plain(Instr::End));
                    assert(view != InstrView::Plain(Instr::Else));
                    lemma_instr_takes_a_byte(here);
                    let tail = sub_expr_grammar(here.skip(n as int));
                    if let Ok(((others, end), m)) = tail {
                        assert(front + (seq![view] + others) =~= front.push(view) + others);
                    }
                    taken = taken + n;
                }
                body.push(next);
                assert(instrs_view(body@) =~= front.push(instr_view(next)));
            },
        }
    }
}

/// Decodes an expression.
pub fn parse_expr(bin: &mut Source) -> (r: Result<Expr, Error>)
    ensures
        parses(*old(bin), *final(bin), r, expr_grammar(old(bin)@)),
    decreases old(bin)@.len(), 2nat,
{
    let SubExpr(body, end) = parse_sub_expr(bin)?;
    match end {
        Terminator::End => Ok(body),
        Terminator::Else => Err(Error::UnexpectedOpcode { instr: "Else" }),
    }
}

impl WasmBinaryGrammar for Instr {
    open spec fn grammar(s: Seq<u8>) -> Parsed<InstrView> {
        instr_grammar(s)
    }
}

impl WasmBinaryParse for Instr {
    fn parse(bin: &mut Source) -> (r: Result<Self, Error>) {
        parse_instr(bin)
    }
}

impl WasmBinaryGrammar for SubExpr {
    open spec fn grammar(s: Seq<u8>) -> Parsed<(Seq<InstrView>, Terminator)> {
        sub_expr_grammar(s)
    }
}

impl WasmBinaryParse for SubExpr {
    fn parse(bin: &mut Source) -> (r: Result<Self, Error>) {
        parse_sub_expr(bin)
    }
}

impl WasmBinaryGrammar for Expr {
    open spec fn grammar(s: Seq<u8>) -> Parsed<Seq<InstrView>> {
        expr_grammar(s)
    }
}

impl WasmBinaryParse for Expr {
    fn parse(bin: &mut Source) -> (r: Result<Self, Error>) {
        parse_expr(bin)
    }
}

} // verus!
