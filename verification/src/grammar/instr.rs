//! Instructions and expressions.
//!
//! An instruction is stored as its opcode, one byte, and then its immediate
//! arguments.  An expression is stored as its instructions in a row and the
//! opcode `end`; the two branches of an `if` are separated by the opcode
//! `else`.

use vstd::prelude::*;
use crate::binary::error::Error;
use crate::binary::instr::after;
use crate::binary::primitive::byte::{byte_grammar, Byte};
use crate::binary::primitive::float::{f32_grammar, f64_grammar};
use crate::binary::primitive::signed::{i32_grammar, i64_grammar};
use crate::binary::primitive::traits::{parses, Parsed, WasmBinaryGrammar, WasmBinaryParse};
use crate::binary::primitive::unsigned::u32_grammar;
use crate::binary::primitive::vec::vec_grammar;
use crate::grammar::idx::{FuncIdx, GlobalIdx, LabelIdx, LocalIdx, MemIdx, TableIdx};
use crate::grammar::ty::{block_type_grammar, BlockType};
use crate::source::Source;
use crate::structure::instr::{F32, F64};

verus! {

broadcast use vstd::seq_lib::lemma_seq_skip_of_skip;

/// The immediate arguments of a load or store: the alignment, as the exponent
/// of a power of 2, and the offset.
#[derive(Debug, Clone, Copy, PartialEq, Eq, Structural)]
pub struct MemArg {
    pub align: u32,
    pub offset: u32,
}

impl DeepView for MemArg {
    type V = MemArg;

    open spec fn deep_view(&self) -> MemArg {
        *self
    }
}

/// The grammar of the arguments of a load or store: the alignment, then the
/// offset.
pub open spec fn mem_arg_grammar(s: Seq<u8>) -> Parsed<MemArg> {
    match u32::grammar(s) {
        Err(e) => Err(e),
        Ok((align, a)) => match u32::grammar(s.skip(a as int)) {
            Err(e) => Err(e),
            Ok((offset, b)) => Ok((MemArg { align, offset }, a + b)),
        },
    }
}

impl WasmBinaryGrammar for MemArg {
    open spec fn grammar(s: Seq<u8>) -> Parsed<MemArg> {
        mem_arg_grammar(s)
    }
}

impl WasmBinaryParse for MemArg {
    fn parse(bin: &mut Source) -> (r: Result<Self, Error>) {
        let align = u32::parse(bin)?;
        let offset = u32::parse(bin)?;
        Ok(MemArg { align, offset })
    }
}

/// A load of a whole value of one of the four types.
#[derive(Debug, Clone, Copy, PartialEq, Eq, Structural)]
pub enum LoadInstr {
    I32(MemArg),
    I64(MemArg),
    F32(MemArg),
    F64(MemArg),
}

impl DeepView for LoadInstr {
    type V = LoadInstr;

    open spec fn deep_view(&self) -> LoadInstr {
        *self
    }
}

/// The grammar of a load of a whole value: its opcode, then its arguments.
pub open spec fn load_instr_grammar(s: Seq<u8>) -> Parsed<LoadInstr> {
    match byte_grammar(s) {
        Err(e) => Err(e),
        Ok((id, n)) => if id == 0x28 {
            match MemArg::grammar(s.skip(n as int)) {
                Err(e) => Err(e),
                Ok((arg, a)) => Ok((LoadInstr::I32(arg), n + a)),
            }
        } else if id == 0x29 {
            match MemArg::grammar(s.skip(n as int)) {
                Err(e) => Err(e),
                Ok((arg, a)) => Ok((LoadInstr::I64(arg), n + a)),
            }
        } else if id == 0x2A {
            match MemArg::grammar(s.skip(n as int)) {
                Err(e) => Err(e),
                Ok((arg, a)) => Ok((LoadInstr::F32(arg), n + a)),
            }
        } else if id == 0x2B {
            match MemArg::grammar(s.skip(n as int)) {
                Err(e) => Err(e),
                Ok((arg, a)) => Ok((LoadInstr::F64(arg), n + a)),
            }
        } else {
            Err(Error::InvalidVariantId { id, ty: "LoadInstr" })
        },
    }
}

impl WasmBinaryGrammar for LoadInstr {
    open spec fn grammar(s: Seq<u8>) -> Parsed<LoadInstr> {
        load_instr_grammar(s)
    }
}

impl WasmBinaryParse for LoadInstr {
    fn parse(bin: &mut Source) -> (r: Result<Self, Error>) {
        let Byte(id) = Byte::parse(bin)?;
        match id {
            0x28 => {
                let arg = MemArg::parse(bin)?;
                Ok(LoadInstr::I32(arg))
            },
            0x29 => {
                let arg = MemArg::parse(bin)?;
                Ok(LoadInstr::I64(arg))
            },
            0x2A => {
                let arg = MemArg::parse(bin)?;
                Ok(LoadInstr::F32(arg))
            },
            0x2B => {
                let arg = MemArg::parse(bin)?;
                Ok(LoadInstr::F64(arg))
            },
            id => Err(Error::InvalidVariantId { id, ty: "LoadInstr" }),
        }
    }
}

/// An instruction, with its immediate arguments.
#[derive(Debug, PartialEq)]
pub enum Instruction {
    /* 0x00 */ Unreachable,
    /* 0x01 */ Nop,
    /* 0x02 */ Block(BlockInstr),
    /* 0x03 */ Loop(BlockInstr),
    /* 0x04 */ If(IfInstr),
    /* 0x05 */ Else,
    /* 0x0B */ End,
    /* 0x0C */ Br(LabelIdx),
    /* 0x0D */ BrIf(LabelIdx),
    /* 0x0E */ BrTable(Vec<LabelIdx>, LabelIdx),
    /* 0x0F */ Return,
    /* 0x10 */ Call(FuncIdx),
    /* 0x11 */ CallIndirect(FuncIdx, TableIdx),
    /* 0x1A */ Drop,
    /* 0x1B */ Select,
    /* 0x20 */ LocalGet(LocalIdx),
    /* 0x21 */ LocalSet(LocalIdx),
    /* 0x22 */ LocalTee(LocalIdx),
    /* 0x23 */ GlobalGet(GlobalIdx),
    /* 0x24 */ GlobalSet(GlobalIdx),
    /* 0x28 */ I32Load(MemArg),
    /* 0x29 */ I64Load(MemArg),
    /* 0x2A */ F32Load(MemArg),
    /* 0x2B */ F64Load(MemArg),
    /* 0x2C */ I32Load8S(MemArg),
    /* 0x2D */ I32Load8U(MemArg),
    /* 0x2E */ I32Load16S(MemArg),
    /* 0x2F */ I32Load16U(MemArg),
    /* 0x30 */ I64Load8S(MemArg),
    /* 0x31 */ I64Load8U(MemArg),
    /* 0x32 */ I64Load16S(MemArg),
    /* 0x33 */ I64Load16U(MemArg),
    /* 0x34 */ I64Load32S(MemArg),
    /* 0x35 */ I64Load32U(MemArg),
    /* 0x36 */ I32Store(MemArg),
    /* 0x37 */ I64Store(MemArg),
    /* 0x38 */ F32Store(MemArg),
    /* 0x39 */ F64Store(MemArg),
    /* 0x3A */ I32Store8(MemArg),
    /* 0x3B */ I32Store16(MemArg),
    /* 0x3C */ I64Store8(MemArg),
    /* 0x3D */ I64Store16(MemArg),
    /* 0x3E */ I64Store32(MemArg),
    /* 0x3F */ MemSize(MemIdx),
    /* 0x40 */ MemGrow(MemIdx),
    /* 0x41 */ ConstI32(i32),
    /* 0x42 */ ConstI64(i64),
    /* 0x43 */ ConstF32(F32),
    /* 0x44 */ ConstF64(F64),
    /* 0x45 */ I32Eqz,
    /* 0x46 */ I32Eq,
    /* 0x47 */ I32Ne,
    /* 0x48 */ I32LtS,
    /* 0x49 */ I32LtU,
    /* 0x4A */ I32GtS,
    /* 0x4B */ I32GtU,
    /* 0x4C */ I32LeS,
    /* 0x4D */ I32LeU,
    /* 0x4E */ I32GeS,
    /* 0x4F */ I32GeU,
    /* 0x50 */ I64Eqz,
    /* 0x51 */ I64Eq,
    /* 0x52 */ I64Ne,
    /* 0x53 */ I64LtS,
    /* 0x54 */ I64LtU,
    /* 0x55 */ I64GtS,
    /* 0x56 */ I64GtU,
    /* 0x57 */ I64LeS,
    /* 0x58 */ I64LeU,
    /* 0x59 */ I64GeS,
    /* 0x5A */ I64GeU,
    /* 0x5B */ F32Eq,
    /* 0x5C */ F32Ne,
    /* 0x5D */ F32Lt,
    /* 0x5E */ F32Gt,
    /* 0x5F */ F32Le,
    /* 0x60 */ F32Ge,
    /* 0x61 */ F64Eq,
    /* 0x62 */ F64Ne,
    /* 0x63 */ F64Lt,
    /* 0x64 */ F64Gt,
    /* 0x65 */ F64Le,
    /* 0x66 */ F64Ge,
    /* 0x67 */ I32Clz,
    /* 0x68 */ I32Ctz,
    /* 0x69 */ I32Popcnt,
    /* 0x6A */ I32Add,
    /* 0x6B */ I32Sub,
    /* 0x6C */ I32Mul,
    /* 0x6D */ I32DivS,
    /* 0x6E */ I32DivU,
    /* 0x6F */ I32RemS,
    /* 0x70 */ I32RemU,
    /* 0x71 */ I32And,
    /* 0x72 */ I32Or,
    /* 0x73 */ I32Xor,
    /* 0x74 */ I32Shl,
    /* 0x75 */ I32ShrS,
    /* 0x76 */ I32ShrU,
    /* 0x77 */ I32Rotl,
    /* 0x78 */ I32Rotr,
    /* 0x79 */ I64Clz,
    /* 0x7A */ I64Ctz,
    /* 0x7B */ I64Popcnt,
    /* 0x7C */ I64Add,
    /* 0x7D */ I64Sub,
    /* 0x7E */ I64Mul,
    /* 0x7F */ I64DivS,
    /* 0x80 */ I64DivU,
    /* 0x81 */ I64RemS,
    /* 0x82 */ I64RemU,
    /* 0x83 */ I64And,
    /* 0x84 */ I64Or,
    /* 0x85 */ I64Xor,
    /* 0x86 */ I64Shl,
    /* 0x87 */ I64ShrS,
    /* 0x88 */ I64ShrU,
    /* 0x89 */ I64Rotl,
    /* 0x8A */ I64Rotr,
    /* 0x8B */ F32Abs,
    /* 0x8C */ F32Neg,
    /* 0x8D */ F32Ceil,
    /* 0x8E */ F32Floor,
    /* 0x8F */ F32Trunc,
    /* 0x90 */ F32Nearest,
    /* 0x91 */ F32Sqrt,
    /* 0x92 */ F32Add,
    /* 0x93 */ F32Sub,
    /* 0x94 */ F32Mul,
    /* 0x95 */ F32Div,
    /* 0x96 */ F32Min,
    /* 0x97 */ F32Max,
    /* 0x98 */ F32Copysign,
    /* 0x99 */ F64Abs,
    /* 0x9A */ F64Neg,
    /* 0x9B */ F64Ceil,
    /* 0x9C */ F64Floor,
    /* 0x9D */ F64Trunc,
    /* 0x9E */ F64Nearest,
    /* 0x9F */ F64Sqrt,
    /* 0xA0 */ F64Add,
    /* 0xA1 */ F64Sub,
    /* 0xA2 */ F64Mul,
    /* 0xA3 */ F64Div,
    /* 0xA4 */ F64Min,
    /* 0xA5 */ F64Max,
    /* 0xA6 */ F64Copysign,
    /* 0xA7 */ I32WrapI64,
    /* 0xA8 */ I32TruncF32S,
    /* 0xA9 */ I32TruncF32U,
    /* 0xAA */ I32TruncF64S,
    /* 0xAB */ I32TruncF64U,
    /* 0xAC */ I64ExtendI32S,
    /* 0xAD */ I64ExtendI32U,
    /* 0xAE */ I64TruncF32S,
    /* 0xAF */ I64TruncF32U,
    /* 0xB0 */ I64TruncF64S,
    /* 0xB1 */ I64TruncF64U,
    /* 0xB2 */ F32ConvertI32S,
    /* 0xB3 */ F32ConvertI32U,
    /* 0xB4 */ F32ConvertI64S,
    /* 0xB5 */ F32ConvertI64U,
    /* 0xB6 */ F32DemoteF64,
    /* 0xB7 */ F64ConvertI32S,
    /* 0xB8 */ F64ConvertI32U,
    /* 0xB9 */ F64ConvertI64S,
    /* 0xBA */ F64ConvertI64U,
    /* 0xBB */ F64PromoteF32,
    /* 0xBC */ I32ReinterpretF32,
    /* 0xBD */ I64ReinterpretF64,
    /* 0xBE */ F32ReinterpretI32,
    /* 0xBF */ F64ReinterpretI64,
}

/// A block or a loop: the type of what it leaves, and its body.
#[derive(Debug, PartialEq)]
pub struct BlockInstr {
    pub ty: BlockType,
    pub instr: Expression,
}

/// An `if`: the type of what it leaves, and its two branches, the second of
/// which is empty where the `if` has no `else`.
#[derive(Debug, PartialEq)]
pub struct IfInstr {
    pub ty: BlockType,
    pub then_instr: Expression,
    pub else_instr: Expression,
}

/// A sequence of instructions.  `End` and `Else` do not occur in it: in the
/// binary format they mark where an expression stops.
#[derive(Debug, PartialEq)]
pub struct Expression(pub Vec<Instruction>);

/// A sequence of instructions and the instruction that ended it, which is
/// `End` or `Else`.
#[derive(Debug, PartialEq)]
pub struct InstrList(pub Vec<Instruction>, pub Instruction);

/// A block or a loop as a mathematical value.
pub struct BlockInstrView {
    pub ty: BlockType,
    pub instr: Seq<InstructionView>,
}

/// An `if` as a mathematical value.
pub struct IfInstrView {
    pub ty: BlockType,
    pub then_instr: Seq<InstructionView>,
    pub else_instr: Seq<InstructionView>,
}

/// An instruction as a mathematical value.  The instructions that hold a
/// vector are spelled out with sequences in its place; every other one stands
/// for itself.
pub enum InstructionView {
    Block(BlockInstrView),
    Loop(BlockInstrView),
    If(IfInstrView),
    BrTable(Seq<LabelIdx>, LabelIdx),
    Plain(Instruction),
}

/// The view of an instruction.
pub open spec fn instruction_view(instr: Instruction) -> InstructionView
    decreases instr,
{
    match instr {
        Instruction::Block(block) => InstructionView::Block(
            BlockInstrView {
                ty: block.ty,
                instr: Seq::new(
                    block.instr.0.len() as nat,
                    |k: int|
                        if 0 <= k < block.instr.0.len() {
                            instruction_view(block.instr.0[k])
                        } else {
                            InstructionView::Plain(Instruction::Nop)
                        },
                ),
            },
        ),
        Instruction::Loop(block) => InstructionView::Loop(
            BlockInstrView {
                ty: block.ty,
                instr: Seq::new(
                    block.instr.0.len() as nat,
                    |k: int|
                        if 0 <= k < block.instr.0.len() {
                            instruction_view(block.instr.0[k])
                        } else {
                            InstructionView::Plain(Instruction::Nop)
                        },
                ),
            },
        ),
        Instruction::If(branches) => InstructionView::If(
            IfInstrView {
                ty: branches.ty,
                then_instr: Seq::new(
                    branches.then_instr.0.len() as nat,
                    |k: int|
                        if 0 <= k < branches.then_instr.0.len() {
                            instruction_view(branches.then_instr.0[k])
                        } else {
                            InstructionView::Plain(Instruction::Nop)
                        },
                ),
                else_instr: Seq::new(
                    branches.else_instr.0.len() as nat,
                    |k: int|
                        if 0 <= k < branches.else_instr.0.len() {
                            instruction_view(branches.else_instr.0[k])
                        } else {
                            InstructionView::Plain(Instruction::Nop)
                        },
                ),
            },
        ),
        Instruction::BrTable(labels, default) => InstructionView::BrTable(labels@, default),
        _ => InstructionView::Plain(instr),
    }
}

/// The views of the instructions of `instrs`, in order.
pub open spec fn instructions_view(instrs: Seq<Instruction>) -> Seq<InstructionView> {
    Seq::new(instrs.len(), |k: int| instruction_view(instrs[k]))
}

/// The view of an instruction that holds expressions holds their views.
pub proof fn lemma_instruction_view_nested(instr: Instruction)
    ensures
        instr matches Instruction::Block(block) ==> instruction_view(instr) == InstructionView::Block(
            BlockInstrView { ty: block.ty, instr: instructions_view(block.instr.0@) },
        ),
        instr matches Instruction::Loop(block) ==> instruction_view(instr) == InstructionView::Loop(
            BlockInstrView { ty: block.ty, instr: instructions_view(block.instr.0@) },
        ),
        instr matches Instruction::If(branches) ==> instruction_view(instr) == InstructionView::If(
            IfInstrView {
                ty: branches.ty,
                then_instr: instructions_view(branches.then_instr.0@),
                else_instr: instructions_view(branches.else_instr.0@),
            },
        ),
{
    match instr {
        Instruction::Block(block) => {
            assert(instruction_view(instr)->Block_0.instr =~= instructions_view(block.instr.0@));
        },
        Instruction::Loop(block) => {
            assert(instruction_view(instr)->Loop_0.instr =~= instructions_view(block.instr.0@));
        },
        Instruction::If(branches) => {
            assert(instruction_view(instr)->If_0.then_instr =~= instructions_view(branches.then_instr.0@));
            assert(instruction_view(instr)->If_0.else_instr =~= instructions_view(branches.else_instr.0@));
        },
        _ => {},
    }
}

impl DeepView for Instruction {
    type V = InstructionView;

    open spec fn deep_view(&self) -> InstructionView {
        instruction_view(*self)
    }
}

impl DeepView for Expression {
    type V = Seq<InstructionView>;

    open spec fn deep_view(&self) -> Seq<InstructionView> {
        instructions_view(self.0@)
    }
}

impl DeepView for BlockInstr {
    type V = BlockInstrView;

    open spec fn deep_view(&self) -> BlockInstrView {
        BlockInstrView { ty: self.ty, instr: self.instr.deep_view() }
    }
}

impl DeepView for IfInstr {
    type V = IfInstrView;

    open spec fn deep_view(&self) -> IfInstrView {
        IfInstrView {
            ty: self.ty,
            then_instr: self.then_instr.deep_view(),
            else_instr: self.else_instr.deep_view(),
        }
    }
}

impl DeepView for InstrList {
    type V = (Seq<InstructionView>, InstructionView);

    open spec fn deep_view(&self) -> (Seq<InstructionView>, InstructionView) {
        (instructions_view(self.0@), instruction_view(self.1))
    }
}

/// The instruction without immediate arguments that the opcode `op` stands
/// for.
pub open spec fn plain(op: u8) -> Option<Instruction> {
    match op {
        0x00 => Some(Instruction::Unreachable),
        0x01 => Some(Instruction::Nop),
        0x05 => Some(Instruction::Else),
        0x0B => Some(Instruction::End),
        0x0F => Some(Instruction::Return),
        0x1A => Some(Instruction::Drop),
        0x1B => Some(Instruction::Select),
        0x45 => Some(Instruction::I32Eqz),
        0x46 => Some(Instruction::I32Eq),
        0x47 => Some(Instruction::I32Ne),
        0x48 => Some(Instruction::I32LtS),
        0x49 => Some(Instruction::I32LtU),
        0x4A => Some(Instruction::I32GtS),
        0x4B => Some(Instruction::I32GtU),
        0x4C => Some(Instruction::I32LeS),
        0x4D => Some(Instruction::I32LeU),
        0x4E => Some(Instruction::I32GeS),
        0x4F => Some(Instruction::I32GeU),
        0x50 => Some(Instruction::I64Eqz),
        0x51 => Some(Instruction::I64Eq),
        0x52 => Some(Instruction::I64Ne),
        0x53 => Some(Instruction::I64LtS),
        0x54 => Some(Instruction::I64LtU),
        0x55 => Some(Instruction::I64GtS),
        0x56 => Some(Instruction::I64GtU),
        0x57 => Some(Instruction::I64LeS),
        0x58 => Some(Instruction::I64LeU),
        0x59 => Some(Instruction::I64GeS),
        0x5A => Some(Instruction::I64GeU),
        0x5B => Some(Instruction::F32Eq),
        0x5C => Some(Instruction::F32Ne),
        0x5D => Some(Instruction::F32Lt),
        0x5E => Some(Instruction::F32Gt),
        0x5F => Some(Instruction::F32Le),
        0x60 => Some(Instruction::F32Ge),
        0x61 => Some(Instruction::F64Eq),
        0x62 => Some(Instruction::F64Ne),
        0x63 => Some(Instruction::F64Lt),
        0x64 => Some(Instruction::F64Gt),
        0x65 => Some(Instruction::F64Le),
        0x66 => Some(Instruction::F64Ge),
        0x67 => Some(Instruction::I32Clz),
        0x68 => Some(Instruction::I32Ctz),
        0x69 => Some(Instruction::I32Popcnt),
        0x6A => Some(Instruction::I32Add),
        0x6B => Some(Instruction::I32Sub),
        0x6C => Some(Instruction::I32Mul),
        0x6D => Some(Instruction::I32DivS),
        0x6E => Some(Instruction::I32DivU),
        0x6F => Some(Instruction::I32RemS),
        0x70 => Some(Instruction::I32RemU),
        0x71 => Some(Instruction::I32And),
        0x72 => Some(Instruction::I32Or),
        0x73 => Some(Instruction::I32Xor),
        0x74 => Some(Instruction::I32Shl),
        0x75 => Some(Instruction::I32ShrS),
        0x76 => Some(Instruction::I32ShrU),
        0x77 => Some(Instruction::I32Rotl),
        0x78 => Some(Instruction::I32Rotr),
        0x79 => Some(Instruction::I64Clz),
        0x7A => Some(Instruction::I64Ctz),
        0x7B => Some(Instruction::I64Popcnt),
        0x7C => Some(Instruction::I64Add),
        0x7D => Some(Instruction::I64Sub),
        0x7E => Some(Instruction::I64Mul),
        0x7F => Some(Instruction::I64DivS),
        0x80 => Some(Instruction::I64DivU),
        0x81 => Some(Instruction::I64RemS),
        0x82 => Some(Instruction::I64RemU),
        0x83 => Some(Instruction::I64And),
        0x84 => Some(Instruction::I64Or),
        0x85 => Some(Instruction::I64Xor),
        0x86 => Some(Instruction::I64Shl),
        0x87 => Some(Instruction::I64ShrS),
        0x88 => Some(Instruction::I64ShrU),
        0x89 => Some(Instruction::I64Rotl),
        0x8A => Some(Instruction::I64Rotr),
        0x8B => Some(Instruction::F32Abs),
        0x8C => Some(Instruction::F32Neg),
        0x8D => Some(Instruction::F32Ceil),
        0x8E => Some(Instruction::F32Floor),
        0x8F => Some(Instruction::F32Trunc),
        0x90 => Some(Instruction::F32Nearest),
        0x91 => Some(Instruction::F32Sqrt),
        0x92 => Some(Instruction::F32Add),
        0x93 => Some(Instruction::F32Sub),
        0x94 => Some(Instruction::F32Mul),
        0x95 => Some(Instruction::F32Div),
        0x96 => Some(Instruction::F32Min),
        0x97 => Some(Instruction::F32Max),
        0x98 => Some(Instruction::F32Copysign),
        0x99 => Some(Instruction::F64Abs),
        0x9A => Some(Instruction::F64Neg),
        0x9B => Some(Instruction::F64Ceil),
        0x9C => Some(Instruction::F64Floor),
        0x9D => Some(Instruction::F64Trunc),
        0x9E => Some(Instruction::F64Nearest),
        0x9F => Some(Instruction::F64Sqrt),
        0xA0 => Some(Instruction::F64Add),
        0xA1 => Some(Instruction::F64Sub),
        0xA2 => Some(Instruction::F64Mul),
        0xA3 => Some(Instruction::F64Div),
        0xA4 => Some(Instruction::F64Min),
        0xA5 => Some(Instruction::F64Max),
        0xA6 => Some(Instruction::F64Copysign),
        0xA7 => Some(Instruction::I32WrapI64),
        0xA8 => Some(Instruction::I32TruncF32S),
        0xA9 => Some(Instruction::I32TruncF32U),
        0xAA => Some(Instruction::I32TruncF64S),
        0xAB => Some(Instruction::I32TruncF64U),
        0xAC => Some(Instruction::I64ExtendI32S),
        0xAD => Some(Instruction::I64ExtendI32U),
        0xAE => Some(Instruction::I64TruncF32S),
        0xAF => Some(Instruction::I64TruncF32U),
        0xB0 => Some(Instruction::I64TruncF64S),
        0xB1 => Some(Instruction::I64TruncF64U),
        0xB2 => Some(Instruction::F32ConvertI32S),
        0xB3 => Some(Instruction::F32ConvertI32U),
        0xB4 => Some(Instruction::F32ConvertI64S),
        0xB5 => Some(Instruction::F32ConvertI64U),
        0xB6 => Some(Instruction::F32DemoteF64),
        0xB7 => Some(Instruction::F64ConvertI32S),
        0xB8 => Some(Instruction::F64ConvertI32U),
        0xB9 => Some(Instruction::F64ConvertI64S),
        0xBA => Some(Instruction::F64ConvertI64U),
        0xBB => Some(Instruction::F64PromoteF32),
        0xBC => Some(Instruction::I32ReinterpretF32),
        0xBD => Some(Instruction::I64ReinterpretF64),
        0xBE => Some(Instruction::F32ReinterpretI32),
        0xBF => Some(Instruction::F64ReinterpretI64),
        _ => None,
    }
}

/// The instruction with one index as its argument that the opcode `op` stands
/// for.
pub open spec fn indexed(op: u8, index: u32) -> Option<Instruction> {
    match op {
        0x0C => Some(Instruction::Br(LabelIdx(index))),
        0x0D => Some(Instruction::BrIf(LabelIdx(index))),
        0x10 => Some(Instruction::Call(FuncIdx(index))),
        0x20 => Some(Instruction::LocalGet(LocalIdx(index))),
        0x21 => Some(Instruction::LocalSet(LocalIdx(index))),
        0x22 => Some(Instruction::LocalTee(LocalIdx(index))),
        0x23 => Some(Instruction::GlobalGet(GlobalIdx(index))),
        0x24 => Some(Instruction::GlobalSet(GlobalIdx(index))),
        0x3F => Some(Instruction::MemSize(MemIdx(index))),
        0x40 => Some(Instruction::MemGrow(MemIdx(index))),
        _ => None,
    }
}

/// The load or store that the opcode `op` stands for, with its arguments.
pub open spec fn memory(op: u8, arg: MemArg) -> Option<Instruction> {
    match op {
        0x28 => Some(Instruction::I32Load(arg)),
        0x29 => Some(Instruction::I64Load(arg)),
        0x2A => Some(Instruction::F32Load(arg)),
        0x2B => Some(Instruction::F64Load(arg)),
        0x2C => Some(Instruction::I32Load8S(arg)),
        0x2D => Some(Instruction::I32Load8U(arg)),
        0x2E => Some(Instruction::I32Load16S(arg)),
        0x2F => Some(Instruction::I32Load16U(arg)),
        0x30 => Some(Instruction::I64Load8S(arg)),
        0x31 => Some(Instruction::I64Load8U(arg)),
        0x32 => Some(Instruction::I64Load16S(arg)),
        0x33 => Some(Instruction::I64Load16U(arg)),
        0x34 => Some(Instruction::I64Load32S(arg)),
        0x35 => Some(Instruction::I64Load32U(arg)),
        0x36 => Some(Instruction::I32Store(arg)),
        0x37 => Some(Instruction::I64Store(arg)),
        0x38 => Some(Instruction::F32Store(arg)),
        0x39 => Some(Instruction::F64Store(arg)),
        0x3A => Some(Instruction::I32Store8(arg)),
        0x3B => Some(Instruction::I32Store16(arg)),
        0x3C => Some(Instruction::I64Store8(arg)),
        0x3D => Some(Instruction::I64Store16(arg)),
        0x3E => Some(Instruction::I64Store32(arg)),
        _ => None,
    }
}

/// Whether an instruction holds no vector, so that it is its own view.
pub open spec fn flat(instr: Instruction) -> bool {
    !(instr is Block) && !(instr is Loop) && !(instr is If) && !(instr is BrTable)
}

/// The view of the instruction that ends a sequence of instructions.
pub open spec fn end() -> InstructionView {
    InstructionView::Plain(Instruction::End)
}

/// The view of the instruction that separates the branches of an `if`.
pub open spec fn otherwise() -> InstructionView {
    InstructionView::Plain(Instruction::Else)
}

/// The grammar of an instruction that holds no expression, after its opcode
/// `op`: what the opcode asks for.
#[verifier::opaque]
pub open spec fn flat_grammar(op: u8, rest: Seq<u8>) -> Parsed<InstructionView> {
    if op == 0x0E {
        match vec_grammar::<LabelIdx>(rest) {
            Err(e) => Err(e),
            Ok((labels, a)) => match u32_grammar(rest.skip(a as int)) {
                Err(e) => Err(e),
                Ok((default, b)) => Ok((InstructionView::BrTable(labels, LabelIdx(default)), 1 + a + b)),
            },
        }
    } else if op == 0x11 {
        match u32_grammar(rest) {
            Err(e) => Err(e),
            Ok((func, a)) => match u32_grammar(rest.skip(a as int)) {
                Err(e) => Err(e),
                Ok((table, b)) => Ok(
                    (InstructionView::Plain(Instruction::CallIndirect(FuncIdx(func), TableIdx(table))), 1 + a + b),
                ),
            },
        }
    } else if op == 0x41 {
        match i32_grammar(rest) {
            Err(e) => Err(e),
            Ok((value, a)) => Ok((InstructionView::Plain(Instruction::ConstI32(value)), 1 + a)),
        }
    } else if op == 0x42 {
        match i64_grammar(rest) {
            Err(e) => Err(e),
            Ok((value, a)) => Ok((InstructionView::Plain(Instruction::ConstI64(value)), 1 + a)),
        }
    } else if op == 0x43 {
        match f32_grammar(rest) {
            Err(e) => Err(e),
            Ok((value, a)) => Ok((InstructionView::Plain(Instruction::ConstF32(value)), 1 + a)),
        }
    } else if op == 0x44 {
        match f64_grammar(rest) {
            Err(e) => Err(e),
            Ok((value, a)) => Ok((InstructionView::Plain(Instruction::ConstF64(value)), 1 + a)),
        }
    } else if memory(op, MemArg { align: 0, offset: 0 }) is Some {
        match mem_arg_grammar(rest) {
            Err(e) => Err(e),
            Ok((arg, a)) => Ok((InstructionView::Plain(memory(op, arg)->Some_0), 1 + a)),
        }
    } else if indexed(op, 0) is Some {
        match u32_grammar(rest) {
            Err(e) => Err(e),
            Ok((index, a)) => Ok((InstructionView::Plain(indexed(op, index)->Some_0), 1 + a)),
        }
    } else {
        match plain(op) {
            Some(instr) => Ok((InstructionView::Plain(instr), 1)),
            None => Err(Error::InvalidVariantId { id: op, ty: "Instruction" }),
        }
    }
}

/// The grammar of an instruction: the opcode, then what the opcode asks for.
pub open spec fn instruction_grammar(s: Seq<u8>) -> Parsed<InstructionView>
    decreases s.len(), 0nat,
{
    match byte_grammar(s) {
        Err(e) => Err(e),
        Ok((op, _)) => {
            let rest = s.skip(1);
            if op == 0x02 || op == 0x03 {
                match block_instr_grammar(rest) {
                    Err(e) => Err(e),
                    Ok((block, a)) => Ok(
                        (
                            if op == 0x02 {
                                InstructionView::Block(block)
                            } else {
                                InstructionView::Loop(block)
                            },
                            1 + a,
                        ),
                    ),
                }
            } else if op == 0x04 {
                match if_instr_grammar(rest) {
                    Err(e) => Err(e),
                    Ok((branches, a)) => Ok((InstructionView::If(branches), 1 + a)),
                }
            } else {
                flat_grammar(op, rest)
            }
        },
    }
}

/// The grammar of a block or a loop after its opcode: the type, then the
/// body.
pub open spec fn block_instr_grammar(s: Seq<u8>) -> Parsed<BlockInstrView>
    decreases s.len(), 3nat,
{
    match block_type_grammar(s) {
        Err(e) => Err(e),
        Ok((ty, a)) => match expression_grammar(after(s, a)) {
            Err(e) => Err(e),
            Ok((instr, b)) => Ok((BlockInstrView { ty, instr }, a + b)),
        },
    }
}

/// The grammar of an `if` after its opcode: the type, the first branch, and,
/// where `else` ended that, the second branch, which `end` must end.
pub open spec fn if_instr_grammar(s: Seq<u8>) -> Parsed<IfInstrView>
    decreases s.len(), 2nat,
{
    match block_type_grammar(s) {
        Err(e) => Err(e),
        Ok((ty, a)) => match instr_list_grammar(after(s, a)) {
            Err(e) => Err(e),
            Ok(((then_instr, last), b)) => if last == end() {
                Ok((IfInstrView { ty, then_instr, else_instr: Seq::empty() }, a + b))
            } else {
                match instr_list_grammar(after(after(s, a), b)) {
                    Err(e) => Err(e),
                    Ok(((else_instr, last), c)) => if last == end() {
                        Ok((IfInstrView { ty, then_instr, else_instr }, a + b + c))
                    } else {
                        Err(Error::UnexpectedOpcode { instr: "Else" })
                    },
                }
            },
        },
    }
}

/// The grammar of a sequence of instructions: instructions up to the first
/// `end` or `else`, which is read and not made part of the sequence.
pub open spec fn instr_list_grammar(s: Seq<u8>) -> Parsed<(Seq<InstructionView>, InstructionView)>
    decreases s.len(), 1nat,
{
    match instruction_grammar(s) {
        Err(e) => Err(e),
        Ok((first, n)) => if first == end() || first == otherwise() {
            Ok(((Seq::empty(), first), n))
        } else if n == 0 || s.len() == 0 {
            Err(Error::UnexpectedEndOfFile)
        } else {
            match instr_list_grammar(after(s, n)) {
                Err(e) => Err(e),
                Ok(((others, last), m)) => Ok(((seq![first] + others, last), n + m)),
            }
        },
    }
}

/// The grammar of an expression: a sequence of instructions that `end` ends.
pub open spec fn expression_grammar(s: Seq<u8>) -> Parsed<Seq<InstructionView>>
    decreases s.len(), 2nat,
{
    match instr_list_grammar(s) {
        Err(e) => Err(e),
        Ok(((body, last), n)) => if last == end() {
            Ok((body, n))
        } else {
            Err(Error::UnexpectedOpcode { instr: "Else" })
        },
    }
}

/// An instruction takes up at least its opcode.
pub proof fn lemma_instruction_takes_a_byte(s: Seq<u8>)
    ensures
        instruction_grammar(s) matches Ok((_, n)) ==> n >= 1 && s.len() >= 1,
{
    reveal(flat_grammar);
}

/// The instruction without immediate arguments that the opcode `op` stands
/// for.
fn plain_of(op: u8) -> (r: Option<Instruction>)
    ensures
        r == plain(op),
        r matches Some(instr) ==> flat(instr),
{
    match op {
        0x00 => Some(Instruction::Unreachable),
        0x01 => Some(Instruction::Nop),
        0x05 => Some(Instruction::Else),
        0x0B => Some(Instruction::End),
        0x0F => Some(Instruction::Return),
        0x1A => Some(Instruction::Drop),
        0x1B => Some(Instruction::Select),
        0x45 => Some(Instruction::I32Eqz),
        0x46 => Some(Instruction::I32Eq),
        0x47 => Some(Instruction::I32Ne),
        0x48 => Some(Instruction::I32LtS),
        0x49 => Some(Instruction::I32LtU),
        0x4A => Some(Instruction::I32GtS),
        0x4B => Some(Instruction::I32GtU),
        0x4C => Some(Instruction::I32LeS),
        0x4D => Some(Instruction::I32LeU),
        0x4E => Some(Instruction::I32GeS),
        0x4F => Some(Instruction::I32GeU),
        0x50 => Some(Instruction::I64Eqz),
        0x51 => Some(Instruction::I64Eq),
        0x52 => Some(Instruction::I64Ne),
        0x53 => Some(Instruction::I64LtS),
        0x54 => Some(Instruction::I64LtU),
        0x55 => Some(Instruction::I64GtS),
        0x56 => Some(Instruction::I64GtU),
        0x57 => Some(Instruction::I64LeS),
        0x58 => Some(Instruction::I64LeU),
        0x59 => Some(Instruction::I64GeS),
        0x5A => Some(Instruction::I64GeU),
        0x5B => Some(Instruction::F32Eq),
        0x5C => Some(Instruction::F32Ne),
        0x5D => Some(Instruction::F32Lt),
        0x5E => Some(Instruction::F32Gt),
        0x5F => Some(Instruction::F32Le),
        0x60 => Some(Instruction::F32Ge),
        0x61 => Some(Instruction::F64Eq),
        0x62 => Some(Instruction::F64Ne),
        0x63 => Some(Instruction::F64Lt),
        0x64 => Some(Instruction::F64Gt),
        0x65 => Some(Instruction::F64Le),
        0x66 => Some(Instruction::F64Ge),
        0x67 => Some(Instruction::I32Clz),
        0x68 => Some(Instruction::I32Ctz),
        0x69 => Some(Instruction::I32Popcnt),
        0x6A => Some(Instruction::I32Add),
        0x6B => Some(Instruction::I32Sub),
        0x6C => Some(Instruction::I32Mul),
        0x6D => Some(Instruction::I32DivS),
        0x6E => Some(Instruction::I32DivU),
        0x6F => Some(Instruction::I32RemS),
        0x70 => Some(Instruction::I32RemU),
        0x71 => Some(Instruction::I32And),
        0x72 => Some(Instruction::I32Or),
        0x73 => Some(Instruction::I32Xor),
        0x74 => Some(Instruction::I32Shl),
        0x75 => Some(Instruction::I32ShrS),
        0x76 => Some(Instruction::I32ShrU),
        0x77 => Some(Instruction::I32Rotl),
        0x78 => Some(Instruction::I32Rotr),
        0x79 => Some(Instruction::I64Clz),
        0x7A => Some(Instruction::I64Ctz),
        0x7B => Some(Instruction::I64Popcnt),
        0x7C => Some(Instruction::I64Add),
        0x7D => Some(Instruction::I64Sub),
        0x7E => Some(Instruction::I64Mul),
        0x7F => Some(Instruction::I64DivS),
        0x80 => Some(Instruction::I64DivU),
        0x81 => Some(Instruction::I64RemS),
        0x82 => Some(Instruction::I64RemU),
        0x83 => Some(Instruction::I64And),
        0x84 => Some(Instruction::I64Or),
        0x85 => Some(Instruction::I64Xor),
        0x86 => Some(Instruction::I64Shl),
        0x87 => Some(Instruction::I64ShrS),
        0x88 => Some(Instruction::I64ShrU),
        0x89 => Some(Instruction::I64Rotl),
        0x8A => Some(Instruction::I64Rotr),
        0x8B => Some(Instruction::F32Abs),
        0x8C => Some(Instruction::F32Neg),
        0x8D => Some(Instruction::F32Ceil),
        0x8E => Some(Instruction::F32Floor),
        0x8F => Some(Instruction::F32Trunc),
        0x90 => Some(Instruction::F32Nearest),
        0x91 => Some(Instruction::F32Sqrt),
        0x92 => Some(Instruction::F32Add),
        0x93 => Some(Instruction::F32Sub),
        0x94 => Some(Instruction::F32Mul),
        0x95 => Some(Instruction::F32Div),
        0x96 => Some(Instruction::F32Min),
        0x97 => Some(Instruction::F32Max),
        0x98 => Some(Instruction::F32Copysign),
        0x99 => Some(Instruction::F64Abs),
        0x9A => Some(Instruction::F64Neg),
        0x9B => Some(Instruction::F64Ceil),
        0x9C => Some(Instruction::F64Floor),
        0x9D => Some(Instruction::F64Trunc),
        0x9E => Some(Instruction::F64Nearest),
        0x9F => Some(Instruction::F64Sqrt),
        0xA0 => Some(Instruction::F64Add),
        0xA1 => Some(Instruction::F64Sub),
        0xA2 => Some(Instruction::F64Mul),
        0xA3 => Some(Instruction::F64Div),
        0xA4 => Some(Instruction::F64Min),
        0xA5 => Some(Instruction::F64Max),
        0xA6 => Some(Instruction::F64Copysign),
        0xA7 => Some(Instruction::I32WrapI64),
        0xA8 => Some(Instruction::I32TruncF32S),
        0xA9 => Some(Instruction::I32TruncF32U),
        0xAA => Some(Instruction::I32TruncF64S),
        0xAB => Some(Instruction::I32TruncF64U),
        0xAC => Some(Instruction::I64ExtendI32S),
        0xAD => Some(Instruction::I64ExtendI32U),
        0xAE => Some(Instruction::I64TruncF32S),
        0xAF => Some(Instruction::I64TruncF32U),
        0xB0 => Some(Instruction::I64TruncF64S),
        0xB1 => Some(Instruction::I64TruncF64U),
        0xB2 => Some(Instruction::F32ConvertI32S),
        0xB3 => Some(Instruction::F32ConvertI32U),
        0xB4 => Some(Instruction::F32ConvertI64S),
        0xB5 => Some(Instruction::F32ConvertI64U),
        0xB6 => Some(Instruction::F32DemoteF64),
        0xB7 => Some(Instruction::F64ConvertI32S),
        0xB8 => Some(Instruction::F64ConvertI32U),
        0xB9 => Some(Instruction::F64ConvertI64S),
        0xBA => Some(Instruction::F64ConvertI64U),
        0xBB => Some(Instruction::F64PromoteF32),
        0xBC => Some(Instruction::I32ReinterpretF32),
        0xBD => Some(Instruction::I64ReinterpretF64),
        0xBE => Some(Instruction::F32ReinterpretI32),
        0xBF => Some(Instruction::F64ReinterpretI64),
        _ => None,
    }
}

/// The instruction with one index as its argument that the opcode `op` stands
/// for.
fn indexed_of(op: u8, index: u32) -> (r: Option<Instruction>)
    ensures
        r == indexed(op, index),
        r matches Some(instr) ==> flat(instr),
        r is Some <==> indexed(op, 0) is Some,
{
    match op {
        0x0C => Some(Instruction::Br(LabelIdx(index))),
        0x0D => Some(Instruction::BrIf(LabelIdx(index))),
        0x10 => Some(Instruction::Call(FuncIdx(index))),
        0x20 => Some(Instruction::LocalGet(LocalIdx(index))),
        0x21 => Some(Instruction::LocalSet(LocalIdx(index))),
        0x22 => Some(Instruction::LocalTee(LocalIdx(index))),
        0x23 => Some(Instruction::GlobalGet(GlobalIdx(index))),
        0x24 => Some(Instruction::GlobalSet(GlobalIdx(index))),
        0x3F => Some(Instruction::MemSize(MemIdx(index))),
        0x40 => Some(Instruction::MemGrow(MemIdx(index))),
        _ => None,
    }
}

/// The load or store that the opcode `op` stands for, with its arguments.
fn memory_of(op: u8, arg: MemArg) -> (r: Option<Instruction>)
    ensures
        r == memory(op, arg),
        r matches Some(instr) ==> flat(instr),
        r is Some <==> memory(op, MemArg { align: 0, offset: 0 }) is Some,
{
    match op {
        0x28 => Some(Instruction::I32Load(arg)),
        0x29 => Some(Instruction::I64Load(arg)),
        0x2A => Some(Instruction::F32Load(arg)),
        0x2B => Some(Instruction::F64Load(arg)),
        0x2C => Some(Instruction::I32Load8S(arg)),
        0x2D => Some(Instruction::I32Load8U(arg)),
        0x2E => Some(Instruction::I32Load16S(arg)),
        0x2F => Some(Instruction::I32Load16U(arg)),
        0x30 => Some(Instruction::I64Load8S(arg)),
        0x31 => Some(Instruction::I64Load8U(arg)),
        0x32 => Some(Instruction::I64Load16S(arg)),
        0x33 => Some(Instruction::I64Load16U(arg)),
        0x34 => Some(Instruction::I64Load32S(arg)),
        0x35 => Some(Instruction::I64Load32U(arg)),
        0x36 => Some(Instruction::I32Store(arg)),
        0x37 => Some(Instruction::I64Store(arg)),
        0x38 => Some(Instruction::F32Store(arg)),
        0x39 => Some(Instruction::F64Store(arg)),
        0x3A => Some(Instruction::I32Store8(arg)),
        0x3B => Some(Instruction::I32Store16(arg)),
        0x3C => Some(Instruction::I64Store8(arg)),
        0x3D => Some(Instruction::I64Store16(arg)),
        0x3E => Some(Instruction::I64Store32(arg)),
        _ => None,
    }
}

/// `p` behind `front` and the `taken` bytes that `front` was decoded from.
pub open spec fn behind(
    front: Seq<InstructionView>,
    taken: nat,
    p: Parsed<(Seq<InstructionView>, InstructionView)>,
) -> Parsed<(Seq<InstructionView>, InstructionView)> {
    match p {
        Err(e) => Err(e),
        Ok(((others, last), m)) => Ok(((front + others, last), taken + m)),
    }
}

/// Decodes one instruction.
pub fn deserialize_instruction(bin: &mut Source) -> (r: Result<Instruction, Error>)
    ensures
        parses(*old(bin), *final(bin), r, instruction_grammar(old(bin)@)),
    decreases old(bin)@.len(), 0nat,
{
    proof {
        reveal(flat_grammar);
    }
    let Byte(op) = Byte::parse(bin)?;
    match op {
        0x02 => {
            let instr = Instruction::Block(deserialize_block(bin)?);
            proof {
                lemma_instruction_view_nested(instr);
            }
            Ok(instr)
        },
        0x03 => {
            let instr = Instruction::Loop(deserialize_block(bin)?);
            proof {
                lemma_instruction_view_nested(instr);
            }
            Ok(instr)
        },
        0x04 => {
            let instr = Instruction::If(deserialize_if(bin)?);
            proof {
                lemma_instruction_view_nested(instr);
            }
            Ok(instr)
        },
        0x0E => {
            let labels = Vec::<LabelIdx>::parse(bin)?;
            let default = LabelIdx::parse(bin)?;
            assert(labels.deep_view() =~= labels@);
            Ok(Instruction::BrTable(labels, default))
        },
        0x11 => {
            let func = FuncIdx::parse(bin)?;
            let table = TableIdx::parse(bin)?;
            Ok(Instruction::CallIndirect(func, table))
        },
        0x41 => Ok(Instruction::ConstI32(i32::parse(bin)?)),
        0x42 => Ok(Instruction::ConstI64(i64::parse(bin)?)),
        0x43 => Ok(Instruction::ConstF32(F32::parse(bin)?)),
        0x44 => Ok(Instruction::ConstF64(F64::parse(bin)?)),
        _ => {
            if memory_of(op, MemArg { align: 0, offset: 0 }).is_some() {
                let arg = MemArg::parse(bin)?;
                match memory_of(op, arg) {
                    Some(instr) => Ok(instr),
                    None => Err(Error::InvalidVariantId { id: op, ty: "Instruction" }),
                }
            } else if indexed_of(op, 0).is_some() {
                let index = u32::parse(bin)?;
                match indexed_of(op, index) {
                    Some(instr) => Ok(instr),
                    None => Err(Error::InvalidVariantId { id: op, ty: "Instruction" }),
                }
            } else {
                match plain_of(op) {
                    Some(instr) => Ok(instr),
                    None => Err(Error::InvalidVariantId { id: op, ty: "Instruction" }),
                }
            }
        },
    }
}

/// Decodes a block or a loop whose opcode has been read.
pub fn deserialize_block(bin: &mut Source) -> (r: Result<BlockInstr, Error>)
    ensures
        parses(*old(bin), *final(bin), r, block_instr_grammar(old(bin)@)),
    decreases old(bin)@.len(), 3nat,
{
    let ty = BlockType::parse(bin)?;
    let instr = deserialize_expression(bin)?;
    Ok(BlockInstr { ty, instr })
}

/// Decodes an `if` whose opcode has been read.
pub fn deserialize_if(bin: &mut Source) -> (r: Result<IfInstr, Error>)
    ensures
        parses(*old(bin), *final(bin), r, if_instr_grammar(old(bin)@)),
    decreases old(bin)@.len(), 2nat,
{
    let ty = BlockType::parse(bin)?;
    let InstrList(then_instr, last) = deserialize_instr_list(bin)?;
    match last {
        Instruction::End => {
            let none: Vec<Instruction> = Vec::new();
            assert(instructions_view(none@) =~= Seq::<InstructionView>::empty());
            Ok(IfInstr { ty, then_instr: Expression(then_instr), else_instr: Expression(none) })
        },
        _ => {
            let InstrList(else_instr, last) = deserialize_instr_list(bin)?;
            match last {
                Instruction::End => Ok(
                    IfInstr { ty, then_instr: Expression(then_instr), else_instr: Expression(else_instr) },
                ),
                _ => Err(Error::UnexpectedOpcode { instr: "Else" }),
            }
        },
    }
}

/// Decodes instructions up to the first `end` or `else`.
pub fn deserialize_instr_list(bin: &mut Source) -> (r: Result<InstrList, Error>)
    ensures
        parses(*old(bin), *final(bin), r, instr_list_grammar(old(bin)@)),
        r matches Ok(list) ==> list.1 is End || list.1 is Else,
    decreases old(bin)@.len(), 1nat,
{
    let mut body: Vec<Instruction> = Vec::new();
    let ghost s = bin@;
    let ghost mut taken: nat = 0;
    assert(instructions_view(body@) =~= Seq::<InstructionView>::empty());
    assert(s.skip(0) =~= s);
    loop
        invariant
            s == old(bin)@,
            bin.beyond() == old(bin).beyond(),
            taken <= s.len(),
            bin@ == s.skip(taken as int),
            instr_list_grammar(s) == behind(instructions_view(body@), taken, instr_list_grammar(s.skip(taken as int))),
        decreases s.len() - taken,
    {
        let ghost front = instructions_view(body@);
        let ghost here = s.skip(taken as int);
        let next = deserialize_instruction(bin)?;
        let ghost n = instruction_grammar(here)->Ok_0.1;
        match next {
            Instruction::End => {
                assert(front + Seq::<InstructionView>::empty() =~= front);
                return Ok(InstrList(body, Instruction::End));
            },
            Instruction::Else => {
                assert(front + Seq::<InstructionView>::empty() =~= front);
                return Ok(InstrList(body, Instruction::Else));
            },
            _ => {
                proof {
                    let view = instruction_view(next);
                    assert(view != end());
                    assert(view != otherwise());
                    lemma_instruction_takes_a_byte(here);
                    let tail = instr_list_grammar(here.skip(n as int));
                    if let Ok(((others, last), m)) = tail {
                        assert(front + (seq![view] + others) =~= front.push(view) + others);
                    }
                    taken = taken + n;
                }
                body.push(next);
                assert(instructions_view(body@) =~= front.push(instruction_view(next)));
            },
        }
    }
}

/// Decodes an expression.
pub fn deserialize_expression(bin: &mut Source) -> (r: Result<Expression, Error>)
    ensures
        parses(*old(bin), *final(bin), r, expression_grammar(old(bin)@)),
    decreases old(bin)@.len(), 2nat,
{
    let InstrList(body, last) = deserialize_instr_list(bin)?;
    match last {
        Instruction::End => Ok(Expression(body)),
        _ => Err(Error::UnexpectedOpcode { instr: "Else" }),
    }
}

impl WasmBinaryGrammar for Instruction {
    open spec fn grammar(s: Seq<u8>) -> Parsed<InstructionView> {
        instruction_grammar(s)
    }
}

impl WasmBinaryParse for Instruction {
    fn parse(bin: &mut Source) -> (r: Result<Self, Error>) {
        deserialize_instruction(bin)
    }
}

impl WasmBinaryGrammar for BlockInstr {
    open spec fn grammar(s: Seq<u8>) -> Parsed<BlockInstrView> {
        block_instr_grammar(s)
    }
}

impl WasmBinaryParse for BlockInstr {
    fn parse(bin: &mut Source) -> (r: Result<Self, Error>) {
        deserialize_block(bin)
    }
}

impl WasmBinaryGrammar for IfInstr {
    open spec fn grammar(s: Seq<u8>) -> Parsed<IfInstrView> {
        if_instr_grammar(s)
    }
}

impl WasmBinaryParse for IfInstr {
    fn parse(bin: &mut Source) -> (r: Result<Self, Error>) {
        deserialize_if(bin)
    }
}

impl WasmBinaryGrammar for InstrList {
    open spec fn grammar(s: Seq<u8>) -> Parsed<(Seq<InstructionView>, InstructionView)> {
        instr_list_grammar(s)
    }
}

impl WasmBinaryParse for InstrList {
    fn parse(bin: &mut Source) -> (r: Result<Self, Error>) {
        deserialize_instr_list(bin)
    }
}

impl WasmBinaryGrammar for Expression {
    open spec fn grammar(s: Seq<u8>) -> Parsed<Seq<InstructionView>> {
        expression_grammar(s)
    }
}

impl WasmBinaryParse for Expression {
    fn parse(bin: &mut Source) -> (r: Result<Self, Error>) {
        deserialize_expression(bin)
    }
}

} // verus!
