//! Validation of instructions and expressions.
//!
//! An instruction is valid if the operands that it takes are on the stack with
//! the right types; validating it leaves the stacks as the instruction does.

use vstd::prelude::*;
use vstd::arithmetic::power2::{lemma2_to64, lemma_pow2_strictly_increases, pow2};
use crate::structure::idx;
use crate::structure::instr::{Expr, Instr};
use crate::structure::ty;
use crate::structure::ty::Val;
use crate::validation::context::{Context, ContextView};
use crate::validation::error::Error;
use crate::validation::idx::{label_types, lookup};
use crate::validation::stacks::{dead, lemma_dead_code_has_any_operands, Operand, StacksView};
use crate::validation::Validate;

verus! {

/// What a numeric instruction does to the stack.
#[derive(Debug, Clone, Copy, PartialEq, Eq, Structural)]
pub enum Operator {
    /// Takes one operand of the first type and leaves one of the second.
    Unary(Val, Val),
    /// Takes two operands of the first type and leaves one of the second.
    Binary(Val, Val),
}

/// What a load or store does.
#[derive(Debug, Clone, Copy, PartialEq, Eq, Structural)]
pub struct Access {
    /// Whether it stores.
    pub store: bool,
    /// The alignment that it asks for, as the exponent of a power of 2.
    pub align: u32,
    /// How many bits it reads or writes.
    pub width: u32,
    /// The type of the value that it loads or stores.
    pub val: Val,
}

/// What the numeric instruction `instr` does to the stack.
pub open spec fn operator(instr: Instr) -> Option<Operator> {
    match instr {
        Instr::I32Eqz | Instr::I32Clz | Instr::I32Ctz | Instr::I32Popcnt => Some(
            Operator::Unary(Val::I32, Val::I32),
        ),
        Instr::I32Eq | Instr::I32Ne | Instr::I32LtS | Instr::I32LtU | Instr::I32GtS
        | Instr::I32GtU | Instr::I32LeS | Instr::I32LeU | Instr::I32GeS | Instr::I32GeU
        | Instr::I32Add | Instr::I32Sub | Instr::I32Mul | Instr::I32DivS | Instr::I32DivU
        | Instr::I32RemS | Instr::I32RemU | Instr::I32And | Instr::I32Or | Instr::I32Xor
        | Instr::I32Shl | Instr::I32ShrS | Instr::I32ShrU | Instr::I32Rotl | Instr::I32Rotr => Some(
            Operator::Binary(Val::I32, Val::I32),
        ),
        Instr::I64Eqz | Instr::I32WrapI64 => Some(
            Operator::Unary(Val::I64, Val::I32),
        ),
        Instr::I64Eq | Instr::I64Ne | Instr::I64LtS | Instr::I64LtU | Instr::I64GtS
        | Instr::I64GtU | Instr::I64LeS | Instr::I64LeU | Instr::I64GeS | Instr::I64GeU => Some(
            Operator::Binary(Val::I64, Val::I32),
        ),
        Instr::F32Eq | Instr::F32Ne | Instr::F32Lt | Instr::F32Gt | Instr::F32Le | Instr::F32Ge => Some(
            Operator::Binary(Val::F32, Val::I32),
        ),
        Instr::F64Eq | Instr::F64Ne | Instr::F64Lt | Instr::F64Gt | Instr::F64Le | Instr::F64Ge => Some(
            Operator::Binary(Val::F64, Val::I32),
        ),
        Instr::I64Clz | Instr::I64Ctz | Instr::I64Popcnt => Some(
            Operator::Unary(Val::I64, Val::I64),
        ),
        Instr::I64Add | Instr::I64Sub | Instr::I64Mul | Instr::I64DivS | Instr::I64DivU
        | Instr::I64RemS | Instr::I64RemU | Instr::I64And | Instr::I64Or | Instr::I64Xor
        | Instr::I64Shl | Instr::I64ShrS | Instr::I64ShrU | Instr::I64Rotl | Instr::I64Rotr => Some(
            Operator::Binary(Val::I64, Val::I64),
        ),
        Instr::F32Abs | Instr::F32Neg | Instr::F32Ceil | Instr::F32Floor | Instr::F32Trunc
        | Instr::F32Nearest | Instr::F32Sqrt => Some(
            Operator::Unary(Val::F32, Val::F32),
        ),
        Instr::F32Add | Instr::F32Sub | Instr::F32Mul | Instr::F32Div | Instr::F32Min
        | Instr::F32Max | Instr::F32Copysign => Some(
            Operator::Binary(Val::F32, Val::F32),
        ),
        Instr::F64Abs | Instr::F64Neg | Instr::F64Ceil | Instr::F64Floor | Instr::F64Trunc
        | Instr::F64Nearest | Instr::F64Sqrt => Some(
            Operator::Unary(Val::F64, Val::F64),
        ),
        Instr::F64Add | Instr::F64Sub | Instr::F64Mul | Instr::F64Div | Instr::F64Min
        | Instr::F64Max | Instr::F64Copysign => Some(
            Operator::Binary(Val::F64, Val::F64),
        ),
        Instr::I32TruncF32S | Instr::I32TruncF32U | Instr::I32ReinterpretF32 => Some(
            Operator::Unary(Val::F32, Val::I32),
        ),
        Instr::I32TruncF64S | Instr::I32TruncF64U => Some(
            Operator::Unary(Val::F64, Val::I32),
        ),
        Instr::I64ExtendI32S | Instr::I64ExtendI32U => Some(
            Operator::Unary(Val::I32, Val::I64),
        ),
        Instr::I64TruncF32S | Instr::I64TruncF32U => Some(
            Operator::Unary(Val::F32, Val::I64),
        ),
        Instr::I64TruncF64S | Instr::I64TruncF64U | Instr::I64ReinterpretF64 => Some(
            Operator::Unary(Val::F64, Val::I64),
        ),
        Instr::F32ConvertI32S | Instr::F32ConvertI32U | Instr::F32ReinterpretI32 => Some(
            Operator::Unary(Val::I32, Val::F32),
        ),
        Instr::F32ConvertI64S | Instr::F32ConvertI64U => Some(
            Operator::Unary(Val::I64, Val::F32),
        ),
        Instr::F32DemoteF64 => Some(
            Operator::Unary(Val::F64, Val::F32),
        ),
        Instr::F64ConvertI32S | Instr::F64ConvertI32U => Some(
            Operator::Unary(Val::I32, Val::F64),
        ),
        Instr::F64ConvertI64S | Instr::F64ConvertI64U | Instr::F64ReinterpretI64 => Some(
            Operator::Unary(Val::I64, Val::F64),
        ),
        Instr::F64PromoteF32 => Some(
            Operator::Unary(Val::F32, Val::F64),
        ),
        _ => None,
    }
}

/// What the load or store `instr` does.
pub open spec fn access(instr: Instr) -> Option<Access> {
    match instr {
        Instr::I32Load(align, _) => Some(Access { store: false, align, width: 32, val: Val::I32 }),
        Instr::I64Load(align, _) => Some(Access { store: false, align, width: 64, val: Val::I64 }),
        Instr::F32Load(align, _) => Some(Access { store: false, align, width: 32, val: Val::F32 }),
        Instr::F64Load(align, _) => Some(Access { store: false, align, width: 64, val: Val::F64 }),
        Instr::I32Load8S(align, _) => Some(Access { store: false, align, width: 8, val: Val::I32 }),
        Instr::I32Load8U(align, _) => Some(Access { store: false, align, width: 8, val: Val::I32 }),
        Instr::I32Load16S(align, _) => Some(Access { store: false, align, width: 16, val: Val::I32 }),
        Instr::I32Load16U(align, _) => Some(Access { store: false, align, width: 16, val: Val::I32 }),
        Instr::I64Load8S(align, _) => Some(Access { store: false, align, width: 8, val: Val::I64 }),
        Instr::I64Load8U(align, _) => Some(Access { store: false, align, width: 8, val: Val::I64 }),
        Instr::I64Load16S(align, _) => Some(Access { store: false, align, width: 16, val: Val::I64 }),
        Instr::I64Load16U(align, _) => Some(Access { store: false, align, width: 16, val: Val::I64 }),
        Instr::I64Load32S(align, _) => Some(Access { store: false, align, width: 32, val: Val::I64 }),
        Instr::I64Load32U(align, _) => Some(Access { store: false, align, width: 32, val: Val::I64 }),
        Instr::I32Store(align, _) => Some(Access { store: true, align, width: 32, val: Val::I32 }),
        Instr::I64Store(align, _) => Some(Access { store: true, align, width: 64, val: Val::I64 }),
        Instr::F32Store(align, _) => Some(Access { store: true, align, width: 32, val: Val::F32 }),
        Instr::F64Store(align, _) => Some(Access { store: true, align, width: 64, val: Val::F64 }),
        Instr::I32Store8(align, _) => Some(Access { store: true, align, width: 8, val: Val::I32 }),
        Instr::I32Store16(align, _) => Some(Access { store: true, align, width: 16, val: Val::I32 }),
        Instr::I64Store8(align, _) => Some(Access { store: true, align, width: 8, val: Val::I64 }),
        Instr::I64Store16(align, _) => Some(Access { store: true, align, width: 16, val: Val::I64 }),
        Instr::I64Store32(align, _) => Some(Access { store: true, align, width: 32, val: Val::I64 }),
        _ => None,
    }
}

/// What the numeric instruction `instr` does to the stack.
pub fn operator_of(instr: &Instr) -> (r: Option<Operator>)
    ensures
        r == operator(*instr),
{
    match instr {
        Instr::I32Eqz | Instr::I32Clz | Instr::I32Ctz | Instr::I32Popcnt => Some(
            Operator::Unary(Val::I32, Val::I32),
        ),
        Instr::I32Eq | Instr::I32Ne | Instr::I32LtS | Instr::I32LtU | Instr::I32GtS
        | Instr::I32GtU | Instr::I32LeS | Instr::I32LeU | Instr::I32GeS | Instr::I32GeU
        | Instr::I32Add | Instr::I32Sub | Instr::I32Mul | Instr::I32DivS | Instr::I32DivU
        | Instr::I32RemS | Instr::I32RemU | Instr::I32And | Instr::I32Or | Instr::I32Xor
        | Instr::I32Shl | Instr::I32ShrS | Instr::I32ShrU | Instr::I32Rotl | Instr::I32Rotr => Some(
            Operator::Binary(Val::I32, Val::I32),
        ),
        Instr::I64Eqz | Instr::I32WrapI64 => Some(
            Operator::Unary(Val::I64, Val::I32),
        ),
        Instr::I64Eq | Instr::I64Ne | Instr::I64LtS | Instr::I64LtU | Instr::I64GtS
        | Instr::I64GtU | Instr::I64LeS | Instr::I64LeU | Instr::I64GeS | Instr::I64GeU => Some(
            Operator::Binary(Val::I64, Val::I32),
        ),
        Instr::F32Eq | Instr::F32Ne | Instr::F32Lt | Instr::F32Gt | Instr::F32Le | Instr::F32Ge => Some(
            Operator::Binary(Val::F32, Val::I32),
        ),
        Instr::F64Eq | Instr::F64Ne | Instr::F64Lt | Instr::F64Gt | Instr::F64Le | Instr::F64Ge => Some(
            Operator::Binary(Val::F64, Val::I32),
        ),
        Instr::I64Clz | Instr::I64Ctz | Instr::I64Popcnt => Some(
            Operator::Unary(Val::I64, Val::I64),
        ),
        Instr::I64Add | Instr::I64Sub | Instr::I64Mul | Instr::I64DivS | Instr::I64DivU
        | Instr::I64RemS | Instr::I64RemU | Instr::I64And | Instr::I64Or | Instr::I64Xor
        | Instr::I64Shl | Instr::I64ShrS | Instr::I64ShrU | Instr::I64Rotl | Instr::I64Rotr => Some(
            Operator::Binary(Val::I64, Val::I64),
        ),
        Instr::F32Abs | Instr::F32Neg | Instr::F32Ceil | Instr::F32Floor | Instr::F32Trunc
        | Instr::F32Nearest | Instr::F32Sqrt => Some(
            Operator::Unary(Val::F32, Val::F32),
        ),
        Instr::F32Add | Instr::F32Sub | Instr::F32Mul | Instr::F32Div | Instr::F32Min
        | Instr::F32Max | Instr::F32Copysign => Some(
            Operator::Binary(Val::F32, Val::F32),
        ),
        Instr::F64Abs | Instr::F64Neg | Instr::F64Ceil | Instr::F64Floor | Instr::F64Trunc
        | Instr::F64Nearest | Instr::F64Sqrt => Some(
            Operator::Unary(Val::F64, Val::F64),
        ),
        Instr::F64Add | Instr::F64Sub | Instr::F64Mul | Instr::F64Div | Instr::F64Min
        | Instr::F64Max | Instr::F64Copysign => Some(
            Operator::Binary(Val::F64, Val::F64),
        ),
        Instr::I32TruncF32S | Instr::I32TruncF32U | Instr::I32ReinterpretF32 => Some(
            Operator::Unary(Val::F32, Val::I32),
        ),
        Instr::I32TruncF64S | Instr::I32TruncF64U => Some(
            Operator::Unary(Val::F64, Val::I32),
        ),
        Instr::I64ExtendI32S | Instr::I64ExtendI32U => Some(
            Operator::Unary(Val::I32, Val::I64),
        ),
        Instr::I64TruncF32S | Instr::I64TruncF32U => Some(
            Operator::Unary(Val::F32, Val::I64),
        ),
        Instr::I64TruncF64S | Instr::I64TruncF64U | Instr::I64ReinterpretF64 => Some(
            Operator::Unary(Val::F64, Val::I64),
        ),
        Instr::F32ConvertI32S | Instr::F32ConvertI32U | Instr::F32ReinterpretI32 => Some(
            Operator::Unary(Val::I32, Val::F32),
        ),
        Instr::F32ConvertI64S | Instr::F32ConvertI64U => Some(
            Operator::Unary(Val::I64, Val::F32),
        ),
        Instr::F32DemoteF64 => Some(
            Operator::Unary(Val::F64, Val::F32),
        ),
        Instr::F64ConvertI32S | Instr::F64ConvertI32U => Some(
            Operator::Unary(Val::I32, Val::F64),
        ),
        Instr::F64ConvertI64S | Instr::F64ConvertI64U | Instr::F64ReinterpretI64 => Some(
            Operator::Unary(Val::I64, Val::F64),
        ),
        Instr::F64PromoteF32 => Some(
            Operator::Unary(Val::F32, Val::F64),
        ),
        _ => None,
    }
}

/// What the load or store `instr` does.
pub fn access_of(instr: &Instr) -> (r: Option<Access>)
    ensures
        r == access(*instr),
{
    match instr {
        Instr::I32Load(align, _) => Some(Access { store: false, align: *align, width: 32, val: Val::I32 }),
        Instr::I64Load(align, _) => Some(Access { store: false, align: *align, width: 64, val: Val::I64 }),
        Instr::F32Load(align, _) => Some(Access { store: false, align: *align, width: 32, val: Val::F32 }),
        Instr::F64Load(align, _) => Some(Access { store: false, align: *align, width: 64, val: Val::F64 }),
        Instr::I32Load8S(align, _) => Some(Access { store: false, align: *align, width: 8, val: Val::I32 }),
        Instr::I32Load8U(align, _) => Some(Access { store: false, align: *align, width: 8, val: Val::I32 }),
        Instr::I32Load16S(align, _) => Some(Access { store: false, align: *align, width: 16, val: Val::I32 }),
        Instr::I32Load16U(align, _) => Some(Access { store: false, align: *align, width: 16, val: Val::I32 }),
        Instr::I64Load8S(align, _) => Some(Access { store: false, align: *align, width: 8, val: Val::I64 }),
        Instr::I64Load8U(align, _) => Some(Access { store: false, align: *align, width: 8, val: Val::I64 }),
        Instr::I64Load16S(align, _) => Some(Access { store: false, align: *align, width: 16, val: Val::I64 }),
        Instr::I64Load16U(align, _) => Some(Access { store: false, align: *align, width: 16, val: Val::I64 }),
        Instr::I64Load32S(align, _) => Some(Access { store: false, align: *align, width: 32, val: Val::I64 }),
        Instr::I64Load32U(align, _) => Some(Access { store: false, align: *align, width: 32, val: Val::I64 }),
        Instr::I32Store(align, _) => Some(Access { store: true, align: *align, width: 32, val: Val::I32 }),
        Instr::I64Store(align, _) => Some(Access { store: true, align: *align, width: 64, val: Val::I64 }),
        Instr::F32Store(align, _) => Some(Access { store: true, align: *align, width: 32, val: Val::F32 }),
        Instr::F64Store(align, _) => Some(Access { store: true, align: *align, width: 64, val: Val::F64 }),
        Instr::I32Store8(align, _) => Some(Access { store: true, align: *align, width: 8, val: Val::I32 }),
        Instr::I32Store16(align, _) => Some(Access { store: true, align: *align, width: 16, val: Val::I32 }),
        Instr::I64Store8(align, _) => Some(Access { store: true, align: *align, width: 8, val: Val::I64 }),
        Instr::I64Store16(align, _) => Some(Access { store: true, align: *align, width: 16, val: Val::I64 }),
        Instr::I64Store32(align, _) => Some(Access { store: true, align: *align, width: 32, val: Val::I64 }),
        _ => None,
    }
}

/// Applies `f` to the stacks in `r`, if there are any.
pub open spec fn then(r: Result<StacksView, Error>, f: spec_fn(StacksView) -> Result<StacksView, Error>) -> Result<
    StacksView,
    Error,
> {
    match r {
        Ok(stacks) => f(stacks),
        Err(e) => Err(e),
    }
}

/// The rule for the end of a block: the frame ends, and what it leaves is
/// pushed.
pub open spec fn end_rule(stacks: StacksView) -> Result<StacksView, Error> {
    match stacks.pop_frame() {
        Ok((rest, out)) => Ok(rest.push_many(out)),
        Err(e) => Err(e),
    }
}

/// The rule for the `else` of an `if`: the frame of the first branch ends, and
/// one like it is opened for the second branch.
pub open spec fn else_rule(stacks: StacksView) -> Result<StacksView, Error> {
    match stacks.pop_frame() {
        Ok((rest, out)) => Ok(rest.push_frame(out, out)),
        Err(e) => Err(e),
    }
}

/// The rule for a numeric instruction.
pub open spec fn operator_rule(stacks: StacksView, op: Operator) -> Result<StacksView, Error> {
    match op {
        Operator::Unary(from, to) => then(stacks.pop_many(seq![from]), |s: StacksView| Ok(s.push_many(seq![to]))),
        Operator::Binary(from, to) => then(
            stacks.pop_many(seq![from, from]),
            |s: StacksView| Ok(s.push_many(seq![to])),
        ),
    }
}

/// The rule for a load or store: there is a memory, the alignment is not above
/// the width, the address is an `i32`, and the value has the right type.
pub open spec fn access_rule(ctx: ContextView, stacks: StacksView, access: Access) -> Result<StacksView, Error> {
    if access.store {
        store_rule(ctx, stacks, access.align, access.width, access.val)
    } else {
        load_rule(ctx, stacks, access.align, access.width, access.val)
    }
}

/// Whether an access of `width` bits may ask for the alignment 2 to the
/// `align`: that is at most the width in bytes.
pub open spec fn aligned(align: u32, width: u32) -> bool {
    pow2(align as nat) <= width / 8
}

/// The rule for a load of `width` bits as a `val`.
pub open spec fn load_rule(ctx: ContextView, stacks: StacksView, align: u32, width: u32, val: Val) -> Result<
    StacksView,
    Error,
> {
    if ctx.mems.len() == 0 {
        Err(Error::IndexOutOfRange)
    } else if !aligned(align, width) {
        Err(Error::InvalidAlignment)
    } else {
        then(stacks.pop_many(seq![Val::I32]), |s: StacksView| Ok(s.push_many(seq![val])))
    }
}

/// The rule for a store of `width` bits of a `val`.
pub open spec fn store_rule(ctx: ContextView, stacks: StacksView, align: u32, width: u32, val: Val) -> Result<
    StacksView,
    Error,
> {
    if ctx.mems.len() == 0 {
        Err(Error::IndexOutOfRange)
    } else if !aligned(align, width) {
        Err(Error::InvalidAlignment)
    } else {
        stacks.pop_many(seq![Val::I32, val])
    }
}

/// The rule for a branch table: every target expects what the default target
/// expects; the index and those operands are popped, and the rest of the block
/// is out of reach.
pub open spec fn br_table_rule(stacks: StacksView, labels: Seq<idx::Label>, default: idx::Label) -> Result<
    StacksView,
    Error,
> {
    match label_types(stacks, default) {
        Err(e) => Err(e),
        Ok(types) => match targets_rule(stacks, labels, types) {
            Err(e) => Err(e),
            Ok(()) => then(
                then(stacks.pop_many(seq![Val::I32]), |s: StacksView| s.pop_many(types)),
                |s: StacksView| s.unreachable(),
            ),
        },
    }
}

/// The rule for the targets of a branch table: each is a label that expects
/// `types`.  The first that is not decides the failure.
pub open spec fn targets_rule(stacks: StacksView, labels: Seq<idx::Label>, types: Seq<Val>) -> Result<(), Error>
    decreases labels.len(),
{
    if labels.len() == 0 {
        Ok(())
    } else {
        match targets_rule(stacks, labels.drop_last(), types) {
            Err(e) => Err(e),
            Ok(()) => match label_types(stacks, labels.last()) {
                Err(e) => Err(e),
                Ok(found) => if found == types {
                    Ok(())
                } else {
                    Err(Error::LabelMismatch)
                },
            },
        }
    }
}

/// The rule for `br`: the operands that the label expects are popped, and the
/// rest of the block is out of reach.
pub open spec fn br_rule(stacks: StacksView, label: idx::Label) -> Result<StacksView, Error> {
    match label_types(stacks, label) {
        Err(e) => Err(e),
        Ok(types) => then(stacks.pop_many(types), |s: StacksView| s.unreachable()),
    }
}

/// The rule for `br_if`: the condition is popped, and the operands that the
/// label expects are there.
pub open spec fn br_if_rule(stacks: StacksView, label: idx::Label) -> Result<StacksView, Error> {
    match label_types(stacks, label) {
        Err(e) => Err(e),
        Ok(types) => then(
            then(stacks.pop_many(seq![Val::I32]), |s: StacksView| s.pop_many(types)),
            |s: StacksView| Ok(s.push_many(types)),
        ),
    }
}

/// The rule for `return`: the results of the function are popped, and the
/// rest of the block is out of reach.
pub open spec fn return_rule(ctx: ContextView, stacks: StacksView) -> Result<StacksView, Error> {
    match ctx.ret {
        None => Err(Error::MissingReturn),
        Some(types) => then(stacks.pop_many(types), |s: StacksView| s.unreachable()),
    }
}

/// The rule for `call`: the parameters of the function are popped and its
/// results pushed.
pub open spec fn call_rule(ctx: ContextView, stacks: StacksView, func: idx::Func) -> Result<StacksView, Error> {
    match lookup(ctx.funcs, func.0) {
        Err(e) => Err(e),
        Ok(ty) => then(stacks.pop_many(ty.params), |s: StacksView| Ok(s.push_many(ty.results))),
    }
}

/// The rule for `call_indirect`: there is such a table and such a type; the
/// index into the table is popped, then the parameters of the type, and its
/// results are pushed.
pub open spec fn call_indirect_rule(ctx: ContextView, stacks: StacksView, ty: idx::Func, table: idx::Table) -> Result<
    StacksView,
    Error,
> {
    match lookup(ctx.tables, table.0) {
        Err(e) => Err(e),
        Ok(_) => match lookup(ctx.types, ty.0) {
            Err(e) => Err(e),
            Ok(ty) => then(
                then(stacks.pop_many(seq![Val::I32]), |s: StacksView| s.pop_many(ty.params)),
                |s: StacksView| Ok(s.push_many(ty.results)),
            ),
        },
    }
}

/// The rule for `drop`: one operand of any type is popped.
pub open spec fn drop_rule(stacks: StacksView) -> Result<StacksView, Error> {
    match stacks.pop(Operand::Unknown) {
        Ok((rest, _)) => Ok(rest),
        Err(e) => Err(e),
    }
}

/// The rule for `select`: the condition is popped, then two operands of one
/// type, and one of that type is pushed.
pub open spec fn select_rule(stacks: StacksView) -> Result<StacksView, Error> {
    match stacks.pop_many(seq![Val::I32]) {
        Err(e) => Err(e),
        Ok(rest) => match rest.pop(Operand::Unknown) {
            Err(e) => Err(e),
            Ok((rest, first)) => match rest.pop(first) {
                Err(e) => Err(e),
                Ok((rest, second)) => Ok(rest.push(second)),
            },
        },
    }
}

/// The rule for the instructions that read or write a local.
pub open spec fn local_rule(
    ctx: ContextView,
    stacks: StacksView,
    local: idx::Local,
    takes: bool,
    leaves: bool,
) -> Result<StacksView, Error> {
    match lookup(ctx.locals, local.0) {
        Err(e) => Err(e),
        Ok(ty) => match if takes {
            stacks.pop_many(seq![ty])
        } else {
            Ok(stacks)
        } {
            Err(e) => Err(e),
            Ok(rest) => Ok(
                if leaves {
                    rest.push_many(seq![ty])
                } else {
                    rest
                },
            ),
        },
    }
}

/// The rule for `global.get`: the type of the global is pushed.
pub open spec fn global_get_rule(ctx: ContextView, stacks: StacksView, global: idx::Global) -> Result<
    StacksView,
    Error,
> {
    match lookup(ctx.globals, global.0) {
        Err(e) => Err(e),
        Ok(ty) => Ok(stacks.push_many(seq![ty.val])),
    }
}

/// The rule for `global.set`: the global can be assigned to, and its type is
/// popped.
pub open spec fn global_set_rule(ctx: ContextView, stacks: StacksView, global: idx::Global) -> Result<
    StacksView,
    Error,
> {
    match lookup(ctx.globals, global.0) {
        Err(e) => Err(e),
        Ok(ty) => if ty.mt != ty::Mut::Var {
            Err(Error::ImmutableGlobal)
        } else {
            stacks.pop_many(seq![ty.val])
        },
    }
}

/// The rule for `memory.size` and `memory.grow`: there is such a memory;
/// `memory.grow` pops an `i32`; both push one.
pub open spec fn mem_rule(ctx: ContextView, stacks: StacksView, mem: idx::Mem, grow: bool) -> Result<
    StacksView,
    Error,
> {
    match lookup(ctx.mems, mem.0) {
        Err(e) => Err(e),
        Ok(_) => match if grow {
            stacks.pop_many(seq![Val::I32])
        } else {
            Ok(stacks)
        } {
            Err(e) => Err(e),
            Ok(rest) => Ok(rest.push_many(seq![Val::I32])),
        },
    }
}

/// The typing rule of an instruction: what it makes of the stacks in the
/// context `ctx`.
pub open spec fn rule(ctx: ContextView, stacks: StacksView, instr: Instr) -> Result<StacksView, Error>
    decreases instr, 0nat,
{
    match instr {
        Instr::Unreachable => stacks.unreachable(),
        Instr::Nop => Ok(stacks),
        Instr::Block(ret, body) => match body_rule(ctx, stacks.push_frame(ret.0@, ret.0@), body.0@, 0) {
            Ok(inner) => end_rule(inner),
            Err(e) => Err(e),
        },
        Instr::Loop(ret, body) => match body_rule(ctx, stacks.push_frame(Seq::empty(), ret.0@), body.0@, 0) {
            Ok(inner) => end_rule(inner),
            Err(e) => Err(e),
        },
        Instr::If(ret, first, second) => match stacks.pop_many(seq![Val::I32]) {
            Err(e) => Err(e),
            Ok(rest) => match body_rule(ctx, rest.push_frame(ret.0@, ret.0@), first.0@, 0) {
                Err(e) => Err(e),
                Ok(inner) => match else_rule(inner) {
                    Err(e) => Err(e),
                    Ok(between) => match body_rule(ctx, between, second.0@, 0) {
                        Ok(inner) => end_rule(inner),
                        Err(e) => Err(e),
                    },
                },
            },
        },
        Instr::Else => else_rule(stacks),
        Instr::End => end_rule(stacks),
        Instr::Br(label) => br_rule(stacks, label),
        Instr::BrIf(label) => br_if_rule(stacks, label),
        Instr::BrTable(labels, default) => br_table_rule(stacks, labels@, default),
        Instr::Return => return_rule(ctx, stacks),
        Instr::Call(func) => call_rule(ctx, stacks, func),
        Instr::CallIndirect(ty, table) => call_indirect_rule(ctx, stacks, ty, table),
        Instr::Drop => drop_rule(stacks),
        Instr::Select => select_rule(stacks),
        Instr::LocalGet(local) => local_rule(ctx, stacks, local, false, true),
        Instr::LocalSet(local) => local_rule(ctx, stacks, local, true, false),
        Instr::LocalTee(local) => local_rule(ctx, stacks, local, true, true),
        Instr::GlobalGet(global) => global_get_rule(ctx, stacks, global),
        Instr::GlobalSet(global) => global_set_rule(ctx, stacks, global),
        Instr::MemSize(mem) => mem_rule(ctx, stacks, mem, false),
        Instr::MemGrow(mem) => mem_rule(ctx, stacks, mem, true),
        Instr::ConstI32(_) => Ok(stacks.push_many(seq![Val::I32])),
        Instr::ConstI64(_) => Ok(stacks.push_many(seq![Val::I64])),
        Instr::ConstF32(_) => Ok(stacks.push_many(seq![Val::F32])),
        Instr::ConstF64(_) => Ok(stacks.push_many(seq![Val::F64])),
        _ => match access(instr) {
            Some(access) => access_rule(ctx, stacks, access),
            None => match operator(instr) {
                Some(op) => operator_rule(stacks, op),
                None => Ok(stacks),
            },
        },
    }
}

/// The typing rule of the instructions of `body` from the one at `from` on,
/// one after the other.
pub open spec fn body_rule(ctx: ContextView, stacks: StacksView, body: Seq<Instr>, from: nat) -> Result<
    StacksView,
    Error,
>
    decreases body, body.len() - from,
{
    if from >= body.len() {
        Ok(stacks)
    } else {
        match rule(ctx, stacks, body[from as int]) {
            Ok(next) => body_rule(ctx, next, body, from + 1),
            Err(e) => Err(e),
        }
    }
}

/// Holds when a call that found the context as `before`, left it as `after`
/// and returned `r` did to the stacks what `spec` says, and nothing else.
pub open spec fn steps(
    before: ContextView,
    after: ContextView,
    r: Result<(), Error>,
    spec: Result<StacksView, Error>,
) -> bool {
    match spec {
        Ok(stacks) => r is Ok && after == (ContextView { stacks, ..before }),
        Err(e) => r == Err::<(), Error>(e),
    }
}

/// Dead code is typed: where the code cannot be reached, every numeric
/// instruction is valid, whatever operands it takes.
pub proof fn lemma_dead_code_is_typed(stacks: StacksView, op: Operator)
    requires
        dead(stacks),
    ensures
        operator_rule(stacks, op) is Ok,
{
    match op {
        Operator::Unary(from, to) => {
            lemma_dead_code_has_any_operands(stacks, seq![from]);
        },
        Operator::Binary(from, to) => {
            lemma_dead_code_has_any_operands(stacks, seq![from, from]);
        },
    }
}

/// Whether an access of `width` bits may ask for the alignment 2 to the
/// `align`.
pub fn is_aligned(align: u32, width: u32) -> (r: bool)
    ensures
        r == aligned(align, width),
{
    proof {
        lemma2_to64();
    }
    if align >= 32 {
        proof {
            if align > 32 {
                lemma_pow2_strictly_increases(32, align as nat);
            }
        }
        return false;
    }
    let mut unit: u64 = 1;
    let mut k: u32 = 0;
    while k < align
        invariant
            k <= align < 32,
            unit == pow2(k as nat),
            unit <= 0x8000_0000,
        decreases align - k,
    {
        proof {
            vstd::arithmetic::power2::lemma_pow2_unfold((k + 1) as nat);
            lemma2_to64();
            if k + 1 < 31 {
                lemma_pow2_strictly_increases((k + 1) as nat, 31);
            }
        }
        unit = unit * 2;
        k = k + 1;
    }
    unit <= (width / 8) as u64
}

/// Validates the end of a block.
pub fn validate_end(ctx: &mut Context) -> (r: Result<(), Error>)
    ensures
        steps(old(ctx)@, final(ctx)@, r, end_rule(old(ctx)@.stacks)),
{
    let out = match ctx.stacks.pop_frame() {
        Ok(out) => out,
        Err(e) => {
            return Err(e);
        },
    };
    ctx.stacks.push_operands(out.as_slice());
    Ok(())
}

/// Validates the `else` of an `if`.
pub fn validate_else(ctx: &mut Context) -> (r: Result<(), Error>)
    ensures
        steps(old(ctx)@, final(ctx)@, r, else_rule(old(ctx)@.stacks)),
{
    let out = match ctx.stacks.pop_frame() {
        Ok(out) => out,
        Err(e) => {
            return Err(e);
        },
    };
    ctx.stacks.push_frame(out.as_slice(), out.as_slice());
    Ok(())
}

/// Validates a numeric instruction that does `op`.
pub fn validate_operator(ctx: &mut Context, op: Operator) -> (r: Result<(), Error>)
    ensures
        steps(old(ctx)@, final(ctx)@, r, operator_rule(old(ctx)@.stacks, op)),
{
    match op {
        Operator::Unary(from, to) => {
            let takes = [from];
            let leaves = [to];
            assert(takes@ =~= seq![from]);
            assert(leaves@ =~= seq![to]);
            match ctx.stacks.pop_operands(takes.as_slice()) {
                Ok(()) => {},
                Err(e) => {
                    return Err(e);
                },
            }
            ctx.stacks.push_operands(leaves.as_slice());
        },
        Operator::Binary(from, to) => {
            let takes = [from, from];
            let leaves = [to];
            assert(takes@ =~= seq![from, from]);
            assert(leaves@ =~= seq![to]);
            match ctx.stacks.pop_operands(takes.as_slice()) {
                Ok(()) => {},
                Err(e) => {
                    return Err(e);
                },
            }
            ctx.stacks.push_operands(leaves.as_slice());
        },
    }
    Ok(())
}

/// Validates a load of `size` bits as a `val`, with the alignment 2 to the
/// `align`.
pub fn validate_load(ctx: &mut Context, align: u32, size: u32, val: Val) -> (r: Result<(), Error>)
    ensures
        steps(old(ctx)@, final(ctx)@, r, load_rule(old(ctx)@.env(), old(ctx)@.stacks, align, size, val)),
{
    if ctx.mems.len() == 0 {
        return Err(Error::IndexOutOfRange);
    }
    if !is_aligned(align, size) {
        return Err(Error::InvalidAlignment);
    }
    let takes = [Val::I32];
    let leaves = [val];
    assert(takes@ =~= seq![Val::I32]);
    assert(leaves@ =~= seq![val]);
    match ctx.stacks.pop_operands(takes.as_slice()) {
        Ok(()) => {},
        Err(e) => {
            return Err(e);
        },
    }
    ctx.stacks.push_operands(leaves.as_slice());
    Ok(())
}

/// Validates a store of `size` bits of a `val`, with the alignment 2 to the
/// `align`.
pub fn validate_store(ctx: &mut Context, align: u32, size: u32, val: Val) -> (r: Result<(), Error>)
    ensures
        steps(old(ctx)@, final(ctx)@, r, store_rule(old(ctx)@.env(), old(ctx)@.stacks, align, size, val)),
{
    if ctx.mems.len() == 0 {
        return Err(Error::IndexOutOfRange);
    }
    if !is_aligned(align, size) {
        return Err(Error::InvalidAlignment);
    }
    let takes = [Val::I32, val];
    assert(takes@ =~= seq![Val::I32, val]);
    ctx.stacks.pop_operands(takes.as_slice())
}

/// Validates the targets of a branch table against the types that its default
/// target expects.
fn validate_targets<'a>(ctx: &mut Context<'a>, labels: &'a Vec<idx::Label>, types: &Vec<Val>) -> (r: Result<
    (),
    Error,
>)
    ensures
        *final(ctx) == *old(ctx),
        r == targets_rule(old(ctx)@.stacks, labels@, types@),
{
    let mut i: usize = 0;
    assert(labels@.take(0) =~= Seq::empty());
    while i < labels.len()
        invariant
            i <= labels.len(),
            *ctx == *old(ctx),
            targets_rule(ctx@.stacks, labels@.take(i as int), types@) is Ok,
        decreases labels.len() - i,
    {
        assert(labels@.take(i + 1).drop_last() =~= labels@.take(i as int));
        let found = match labels[i].validate(ctx) {
            Ok(found) => found,
            Err(e) => {
                proof {
                    lemma_targets_fails(ctx@.stacks, labels@, types@, i + 1);
                }
                return Err(e);
            },
        };
        if !same_types(&found, types) {
            proof {
                lemma_targets_fails(ctx@.stacks, labels@, types@, i + 1);
            }
            return Err(Error::LabelMismatch);
        }
        i = i + 1;
    }
    assert(labels@.take(labels.len() as int) =~= labels@);
    Ok(())
}

/// Where the first targets of a branch table fail, all of them fail in the
/// same way.
pub proof fn lemma_targets_fails(stacks: StacksView, labels: Seq<idx::Label>, types: Seq<Val>, n: int)
    requires
        0 <= n <= labels.len(),
        targets_rule(stacks, labels.take(n), types) is Err,
    ensures
        targets_rule(stacks, labels, types) == targets_rule(stacks, labels.take(n), types),
    decreases labels.len() - n,
{
    if n < labels.len() {
        assert(labels.take(n + 1).drop_last() =~= labels.take(n));
        lemma_targets_fails(stacks, labels, types, n + 1);
    } else {
        assert(labels.take(n) =~= labels);
    }
}

/// Whether two lists of types are the same.
pub fn same_types(a: &Vec<Val>, b: &Vec<Val>) -> (r: bool)
    ensures
        r == (a@ == b@),
{
    if a.len() != b.len() {
        return false;
    }
    let mut i: usize = 0;
    while i < a.len()
        invariant
            i <= a.len(),
            a.len() == b.len(),
            a@.take(i as int) == b@.take(i as int),
        decreases a.len() - i,
    {
        if a[i] != b[i] {
            assert(a@[i as int] != b@[i as int]);
            return false;
        }
        i = i + 1;
        assert(a@.take(i as int) =~= a@.take(i - 1).push(a@[i - 1]));
        assert(b@.take(i as int) =~= b@.take(i - 1).push(b@[i - 1]));
    }
    assert(a@.take(a.len() as int) =~= a@);
    assert(b@.take(b.len() as int) =~= b@);
    true
}

/// Pushes one operand of the type `ty`.
pub fn push_one(ctx: &mut Context, ty: Val)
    ensures
        final(ctx)@ == (ContextView { stacks: old(ctx)@.stacks.push_many(seq![ty]), ..old(ctx)@ }),
{
    let leaves = [ty];
    assert(leaves@ =~= seq![ty]);
    ctx.stacks.push_operands(leaves.as_slice());
}

/// Pops one operand of the type `ty`.
pub fn pop_one(ctx: &mut Context, ty: Val) -> (r: Result<(), Error>)
    ensures
        steps(old(ctx)@, final(ctx)@, r, old(ctx)@.stacks.pop_many(seq![ty])),
{
    let takes = [ty];
    assert(takes@ =~= seq![ty]);
    ctx.stacks.pop_operands(takes.as_slice())
}

/// Validates a `br` to `label`.
pub fn validate_br<'a>(ctx: &mut Context<'a>, label: &'a idx::Label) -> (r: Result<(), Error>)
    ensures
        steps(old(ctx)@, final(ctx)@, r, br_rule(old(ctx)@.stacks, *label)),
{
    let types = match label.validate(ctx) {
        Ok(types) => types,
        Err(e) => {
            return Err(e);
        },
    };
    match ctx.stacks.pop_operands(types.as_slice()) {
        Ok(()) => ctx.stacks.unreachable(),
        Err(e) => Err(e),
    }
}

/// Validates a `br_if` to `label`.
pub fn validate_br_if<'a>(ctx: &mut Context<'a>, label: &'a idx::Label) -> (r: Result<(), Error>)
    ensures
        steps(old(ctx)@, final(ctx)@, r, br_if_rule(old(ctx)@.stacks, *label)),
{
    let types = match label.validate(ctx) {
        Ok(types) => types,
        Err(e) => {
            return Err(e);
        },
    };
    match pop_one(ctx, Val::I32) {
        Ok(()) => {},
        Err(e) => {
            return Err(e);
        },
    }
    match ctx.stacks.pop_operands(types.as_slice()) {
        Ok(()) => {},
        Err(e) => {
            return Err(e);
        },
    }
    ctx.stacks.push_operands(types.as_slice());
    Ok(())
}

/// Validates a `br_table` to `labels`, or else to `default`.
pub fn validate_br_table<'a>(ctx: &mut Context<'a>, labels: &'a Vec<idx::Label>, default: &'a idx::Label) -> (r: Result<
    (),
    Error,
>)
    ensures
        steps(old(ctx)@, final(ctx)@, r, br_table_rule(old(ctx)@.stacks, labels@, *default)),
{
    let types = match default.validate(ctx) {
        Ok(types) => types,
        Err(e) => {
            return Err(e);
        },
    };
    match validate_targets(ctx, labels, &types) {
        Ok(()) => {},
        Err(e) => {
            return Err(e);
        },
    }
    match pop_one(ctx, Val::I32) {
        Ok(()) => {},
        Err(e) => {
            return Err(e);
        },
    }
    match ctx.stacks.pop_operands(types.as_slice()) {
        Ok(()) => ctx.stacks.unreachable(),
        Err(e) => Err(e),
    }
}

/// Validates a `return`.
pub fn validate_return(ctx: &mut Context) -> (r: Result<(), Error>)
    ensures
        steps(old(ctx)@, final(ctx)@, r, return_rule(old(ctx)@.env(), old(ctx)@.stacks)),
{
    let types = match &ctx.ret {
        Some(types) => crate::validation::stacks::copy_types(types.as_slice()),
        None => {
            return Err(Error::MissingReturn);
        },
    };
    match ctx.stacks.pop_operands(types.as_slice()) {
        Ok(()) => ctx.stacks.unreachable(),
        Err(e) => Err(e),
    }
}

/// Validates a `call` of `func`.
pub fn validate_call<'a>(ctx: &mut Context<'a>, func: &'a idx::Func) -> (r: Result<(), Error>)
    ensures
        steps(old(ctx)@, final(ctx)@, r, call_rule(old(ctx)@.env(), old(ctx)@.stacks, *func)),
{
    let ty = match func.validate(ctx) {
        Ok(ty) => ty,
        Err(e) => {
            return Err(e);
        },
    };
    match ctx.stacks.pop_operands(ty.params.as_slice()) {
        Ok(()) => {},
        Err(e) => {
            return Err(e);
        },
    }
    ctx.stacks.push_operands(ty.results.as_slice());
    Ok(())
}

/// Validates a `call_indirect` of a function of the type `ty` through
/// `table`.
pub fn validate_call_indirect<'a>(ctx: &mut Context<'a>, ty: &'a idx::Func, table: &'a idx::Table) -> (r: Result<
    (),
    Error,
>)
    ensures
        steps(old(ctx)@, final(ctx)@, r, call_indirect_rule(old(ctx)@.env(), old(ctx)@.stacks, *ty, *table)),
{
    match table.validate(ctx) {
        Ok(_) => {},
        Err(e) => {
            return Err(e);
        },
    }
    let at = ty.0 as usize;
    if at >= ctx.types.len() {
        return Err(Error::IndexOutOfRange);
    }
    let ty = ctx.types[at];
    match pop_one(ctx, Val::I32) {
        Ok(()) => {},
        Err(e) => {
            return Err(e);
        },
    }
    match ctx.stacks.pop_operands(ty.params.as_slice()) {
        Ok(()) => {},
        Err(e) => {
            return Err(e);
        },
    }
    ctx.stacks.push_operands(ty.results.as_slice());
    Ok(())
}

/// Validates a `drop`.
pub fn validate_drop(ctx: &mut Context) -> (r: Result<(), Error>)
    ensures
        steps(old(ctx)@, final(ctx)@, r, drop_rule(old(ctx)@.stacks)),
{
    match ctx.stacks.pop_operand(Operand::Unknown) {
        Ok(_) => Ok(()),
        Err(e) => Err(e),
    }
}

/// Validates a `select`.
pub fn validate_select(ctx: &mut Context) -> (r: Result<(), Error>)
    ensures
        steps(old(ctx)@, final(ctx)@, r, select_rule(old(ctx)@.stacks)),
{
    match pop_one(ctx, Val::I32) {
        Ok(()) => {},
        Err(e) => {
            return Err(e);
        },
    }
    let first = match ctx.stacks.pop_operand(Operand::Unknown) {
        Ok(first) => first,
        Err(e) => {
            return Err(e);
        },
    };
    let second = match ctx.stacks.pop_operand(first) {
        Ok(second) => second,
        Err(e) => {
            return Err(e);
        },
    };
    ctx.stacks.push_operand(second);
    Ok(())
}

/// Validates an instruction that reads or writes `local`: one that takes its
/// value from the stack, leaves it there, or both.
pub fn validate_local<'a>(ctx: &mut Context<'a>, local: &'a idx::Local, takes: bool, leaves: bool) -> (r: Result<
    (),
    Error,
>)
    ensures
        steps(old(ctx)@, final(ctx)@, r, local_rule(old(ctx)@.env(), old(ctx)@.stacks, *local, takes, leaves)),
{
    let ty = match local.validate(ctx) {
        Ok(ty) => ty,
        Err(e) => {
            return Err(e);
        },
    };
    if takes {
        match pop_one(ctx, ty) {
            Ok(()) => {},
            Err(e) => {
                return Err(e);
            },
        }
    }
    if leaves {
        push_one(ctx, ty);
    }
    Ok(())
}

/// Validates a `global.get` of `global`.
pub fn validate_global_get<'a>(ctx: &mut Context<'a>, global: &'a idx::Global) -> (r: Result<(), Error>)
    ensures
        steps(old(ctx)@, final(ctx)@, r, global_get_rule(old(ctx)@.env(), old(ctx)@.stacks, *global)),
{
    let ty = match global.validate(ctx) {
        Ok(ty) => ty,
        Err(e) => {
            return Err(e);
        },
    };
    push_one(ctx, ty.val);
    Ok(())
}

/// Validates a `global.set` of `global`.
pub fn validate_global_set<'a>(ctx: &mut Context<'a>, global: &'a idx::Global) -> (r: Result<(), Error>)
    ensures
        steps(old(ctx)@, final(ctx)@, r, global_set_rule(old(ctx)@.env(), old(ctx)@.stacks, *global)),
{
    let ty = match global.validate(ctx) {
        Ok(ty) => ty,
        Err(e) => {
            return Err(e);
        },
    };
    if ty.mt != ty::Mut::Var {
        return Err(Error::ImmutableGlobal);
    }
    pop_one(ctx, ty.val)
}

/// Validates a `memory.size` or, where `grow` holds, a `memory.grow` of `mem`.
pub fn validate_mem<'a>(ctx: &mut Context<'a>, mem: &'a idx::Mem, grow: bool) -> (r: Result<(), Error>)
    ensures
        steps(old(ctx)@, final(ctx)@, r, mem_rule(old(ctx)@.env(), old(ctx)@.stacks, *mem, grow)),
{
    match mem.validate(ctx) {
        Ok(_) => {},
        Err(e) => {
            return Err(e);
        },
    }
    if grow {
        match pop_one(ctx, Val::I32) {
            Ok(()) => {},
            Err(e) => {
                return Err(e);
            },
        }
    }
    push_one(ctx, Val::I32);
    Ok(())
}

/// Validates an instruction: checks it against the stacks and leaves the
/// stacks as the instruction does.
pub fn validate_instr<'a>(instr: &'a Instr, ctx: &mut Context<'a>) -> (r: Result<(), Error>)
    ensures
        steps(old(ctx)@, final(ctx)@, r, rule(old(ctx)@.env(), old(ctx)@.stacks, *instr)),
    decreases instr, 0nat,
{
    match instr {
        Instr::Unreachable => ctx.stacks.unreachable(),
        Instr::Nop => Ok(()),
        Instr::Block(ret, body) => {
            ctx.stacks.push_frame(ret.0.as_slice(), ret.0.as_slice());
            match validate_body(body, ctx) {
                Ok(()) => validate_end(ctx),
                Err(e) => Err(e),
            }
        },
        Instr::Loop(ret, body) => {
            let none: [Val; 0] = [];
            assert(none@ =~= Seq::<Val>::empty());
            ctx.stacks.push_frame(none.as_slice(), ret.0.as_slice());
            match validate_body(body, ctx) {
                Ok(()) => validate_end(ctx),
                Err(e) => Err(e),
            }
        },
        Instr::If(ret, first, second) => {
            match pop_one(ctx, Val::I32) {
                Ok(()) => {},
                Err(e) => {
                    return Err(e);
                },
            }
            ctx.stacks.push_frame(ret.0.as_slice(), ret.0.as_slice());
            match validate_body(first, ctx) {
                Ok(()) => {},
                Err(e) => {
                    return Err(e);
                },
            }
            match validate_else(ctx) {
                Ok(()) => {},
                Err(e) => {
                    return Err(e);
                },
            }
            match validate_body(second, ctx) {
                Ok(()) => validate_end(ctx),
                Err(e) => Err(e),
            }
        },
        Instr::Else => validate_else(ctx),
        Instr::End => validate_end(ctx),
        Instr::Br(label) => validate_br(ctx, label),
        Instr::BrIf(label) => validate_br_if(ctx, label),
        Instr::BrTable(labels, default) => validate_br_table(ctx, labels, default),
        Instr::Return => validate_return(ctx),
        Instr::Call(func) => validate_call(ctx, func),
        Instr::CallIndirect(ty, table) => validate_call_indirect(ctx, ty, table),
        Instr::Drop => validate_drop(ctx),
        Instr::Select => validate_select(ctx),
        Instr::LocalGet(local) => validate_local(ctx, local, false, true),
        Instr::LocalSet(local) => validate_local(ctx, local, true, false),
        Instr::LocalTee(local) => validate_local(ctx, local, true, true),
        Instr::GlobalGet(global) => validate_global_get(ctx, global),
        Instr::GlobalSet(global) => validate_global_set(ctx, global),
        Instr::MemSize(mem) => validate_mem(ctx, mem, false),
        Instr::MemGrow(mem) => validate_mem(ctx, mem, true),
        Instr::ConstI32(_) => {
            push_one(ctx, Val::I32);
            Ok(())
        },
        Instr::ConstI64(_) => {
            push_one(ctx, Val::I64);
            Ok(())
        },
        Instr::ConstF32(_) => {
            push_one(ctx, Val::F32);
            Ok(())
        },
        Instr::ConstF64(_) => {
            push_one(ctx, Val::F64);
            Ok(())
        },
        _ => match access_of(instr) {
            Some(access) => if access.store {
                validate_store(ctx, access.align, access.width, access.val)
            } else {
                validate_load(ctx, access.align, access.width, access.val)
            },
            None => match operator_of(instr) {
                Some(op) => validate_operator(ctx, op),
                None => Ok(()),
            },
        },
    }
}

/// Validates the instructions of `body`, one after the other.
pub fn validate_body<'a>(body: &'a Expr, ctx: &mut Context<'a>) -> (r: Result<(), Error>)
    ensures
        steps(old(ctx)@, final(ctx)@, r, body_rule(old(ctx)@.env(), old(ctx)@.stacks, body.0@, 0)),
    decreases body, 1nat,
{
    let mut i: usize = 0;
    while i < body.0.len()
        invariant
            i <= body.0.len(),
            ctx@ == (ContextView { stacks: ctx@.stacks, ..old(ctx)@ }),
            body_rule(old(ctx)@.env(), old(ctx)@.stacks, body.0@, 0) == body_rule(
                old(ctx)@.env(),
                ctx@.stacks,
                body.0@,
                i as nat,
            ),
        decreases body.0.len() - i,
    {
        match validate_instr(&body.0[i], ctx) {
            Ok(()) => {},
            Err(e) => {
                return Err(e);
            },
        }
        i = i + 1;
    }
    Ok(())
}

impl<'a> Validate<'a> for Instr {
    type ValidationResult = ();

    /// Validates the instruction.
    fn validate(&'a self, ctx: &mut Context<'a>) -> (r: Result<(), Error>)
        ensures
            steps(old(ctx)@, final(ctx)@, r, rule(old(ctx)@.env(), old(ctx)@.stacks, *self)),
    {
        validate_instr(self, ctx)
    }
}

impl<'a> Validate<'a> for Expr {
    type ValidationResult = ();

    /// Validates the instructions of the expression, one after the other.
    fn validate(&'a self, ctx: &mut Context<'a>) -> (r: Result<(), Error>)
        ensures
            steps(old(ctx)@, final(ctx)@, r, body_rule(old(ctx)@.env(), old(ctx)@.stacks, self.0@, 0)),
    {
        validate_body(self, ctx)
    }
}

} // verus!
