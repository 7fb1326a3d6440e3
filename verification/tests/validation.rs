use whasm::structure::instr::{ConstExpr, Expr, Instr, F32, F64};
use whasm::structure::{idx, module, ty};
use whasm::validation::context::Context;
use whasm::validation::instr::{validate_load, validate_store};
use whasm::validation::module::result::External;
use whasm::validation::module::validate;
use whasm::validation::stacks::{Frame, Operand, Stacks};
use whasm::validation::{Error, Validate, ValidationEntry};
use whasm::binary::module::decode;

use ty::Val::{F32 as F32Type, F64 as F64Type, I32, I64};

/// A module with one function of the given type and body.
fn with_function(params: Vec<ty::Val>, results: Vec<ty::Val>, locals: Vec<ty::Val>, body: Vec<Instr>) -> module::Module {
    let mut m = module::Module::default();
    m.types = vec![ty::Func { params, results }];
    m.funcs = vec![module::Func { ty: idx::Type(0), locals, body: Expr(body) }];
    m
}

/// What validation makes of a function without parameters or locals.
fn check(results: Vec<ty::Val>, body: Vec<Instr>) -> Result<(), Error> {
    validate(&with_function(vec![], results, vec![], body)).map(|_| ())
}

fn block(results: Vec<ty::Val>, body: Vec<Instr>) -> Instr {
    Instr::Block(ty::RetVal(results), Expr(body))
}

fn repeat(results: Vec<ty::Val>, body: Vec<Instr>) -> Instr {
    Instr::Loop(ty::RetVal(results), Expr(body))
}

fn either(results: Vec<ty::Val>, first: Vec<Instr>, second: Vec<Instr>) -> Instr {
    Instr::If(ty::RetVal(results), Expr(first), Expr(second))
}

// the stacks

#[test]
fn operands_are_pushed_and_popped() {
    let mut stacks = Stacks::new();
    assert_eq!(stacks.pop_operand(Operand::Unknown), Err(Error::MissingFrame));
    stacks.push_frame(&[], &[I32]);
    assert_eq!(stacks.frames.len(), 1);
    assert_eq!(stacks.frames[0].height, 0);
    assert!(!stacks.frames[0].unreachable);
    assert_eq!(stacks.pop_operand(Operand::Unknown), Err(Error::StackUnderflow));
    stacks.push_operand(Operand::Val(I32));
    stacks.push_operands(&[I64, F32Type]);
    assert_eq!(stacks.operands, vec![Operand::Val(I32), Operand::Val(I64), Operand::Val(F32Type)]);
    assert_eq!(stacks.pop_operand(Operand::Val(F32Type)), Ok(Operand::Val(F32Type)));
    assert_eq!(stacks.pop_operand(Operand::Unknown), Ok(Operand::Val(I64)));
    assert_eq!(stacks.pop_operand(Operand::Val(I64)), Err(Error::TypeMismatch));
    assert_eq!(stacks.operands, vec![]);
}

#[test]
fn operands_are_popped_last_first() {
    let mut stacks = Stacks::new();
    stacks.push_frame(&[], &[]);
    stacks.push_operands(&[I32, I64, F64Type]);
    assert_eq!(stacks.pop_operands(&[I64, F64Type]), Ok(()));
    assert_eq!(stacks.operands, vec![Operand::Val(I32)]);
    stacks.push_operands(&[I64]);
    assert_eq!(stacks.pop_operands(&[I64, I32]), Err(Error::TypeMismatch));
    let mut stacks = Stacks::new();
    stacks.push_frame(&[], &[]);
    stacks.push_operands(&[I32]);
    assert_eq!(stacks.pop_operands(&[I32, I32]), Err(Error::StackUnderflow));
    assert_eq!(stacks.pop_operands(&[]), Ok(()));
}

#[test]
fn unknown_operand_fits_any_expectation() {
    let mut stacks = Stacks::new();
    stacks.push_frame(&[], &[]);
    stacks.push_operand(Operand::Unknown);
    assert_eq!(stacks.pop_operand(Operand::Val(F64Type)), Ok(Operand::Val(F64Type)));
    stacks.push_operand(Operand::Unknown);
    assert_eq!(stacks.pop_operand(Operand::Unknown), Ok(Operand::Unknown));
}

#[test]
fn frames_hold_the_operands_below_them() {
    let mut stacks = Stacks::new();
    stacks.push_frame(&[], &[]);
    stacks.push_operands(&[I32]);
    stacks.push_frame(&[I64], &[F32Type]);
    assert_eq!(stacks.frames[1].height, 1);
    assert_eq!(stacks.frames[1].label, vec![I64]);
    assert_eq!(stacks.frames[1].out, vec![F32Type]);
    // the operand below the frame is out of reach
    assert_eq!(stacks.pop_operand(Operand::Val(I32)), Err(Error::StackUnderflow));
    stacks.push_operands(&[F32Type]);
    assert_eq!(stacks.pop_frame(), Ok(vec![F32Type]));
    assert_eq!(stacks.frames.len(), 1);
    assert_eq!(stacks.operands, vec![Operand::Val(I32)]);
    // the frame was to leave nothing, and an operand is left
    assert_eq!(stacks.pop_frame(), Err(Error::UnbalancedStack));
    assert_eq!(stacks.pop_operand(Operand::Val(I32)), Ok(Operand::Val(I32)));
    assert_eq!(stacks.pop_frame(), Ok(vec![]));
    assert_eq!(stacks.pop_frame(), Err(Error::MissingFrame));
}

#[test]
fn frame_must_leave_what_it_says() {
    let mut stacks = Stacks::new();
    stacks.push_frame(&[], &[I32]);
    assert_eq!(stacks.pop_frame(), Err(Error::StackUnderflow));
    let mut stacks = Stacks::new();
    stacks.push_frame(&[], &[I32]);
    stacks.push_operands(&[I64]);
    assert_eq!(stacks.pop_frame(), Err(Error::TypeMismatch));
}

#[test]
fn unreachable_cuts_the_operands_back() {
    let mut stacks = Stacks::new();
    assert_eq!(stacks.unreachable(), Err(Error::MissingFrame));
    stacks.push_frame(&[], &[I32]);
    stacks.push_operands(&[I32]);
    stacks.push_frame(&[], &[I64]);
    stacks.push_operands(&[F32Type, F64Type]);
    assert_eq!(stacks.unreachable(), Ok(()));
    assert!(stacks.frames[1].unreachable);
    assert!(!stacks.frames[0].unreachable);
    assert_eq!(stacks.operands, vec![Operand::Val(I32)]);
    // operands come out of nowhere, typed as expected, and the stack stays as it is
    assert_eq!(stacks.pop_operand(Operand::Val(F64Type)), Ok(Operand::Val(F64Type)));
    assert_eq!(stacks.pop_operand(Operand::Unknown), Ok(Operand::Unknown));
    assert_eq!(stacks.operands, vec![Operand::Val(I32)]);
    assert_eq!(stacks.pop_frame(), Ok(vec![I64]));
    // the frame below can be reached
    assert_eq!(stacks.pop_operand(Operand::Val(I32)), Ok(Operand::Val(I32)));
    assert_eq!(stacks.pop_operand(Operand::Val(I32)), Err(Error::StackUnderflow));
}

#[test]
fn frame_is_built_from_its_parts() {
    let frame = Frame { label: vec![I32], out: vec![], height: 3, unreachable: true };
    let mut stacks = Stacks { operands: vec![Operand::Unknown; 3], frames: vec![frame] };
    assert_eq!(stacks.pop_operand(Operand::Val(I32)), Ok(Operand::Val(I32)));
    assert_eq!(stacks.operands.len(), 3);
}

// the context

#[test]
fn context_lists_imports_before_definitions() {
    let mut m = with_function(vec![I32], vec![], vec![], vec![]);
    m.types.push(ty::Func { params: vec![], results: vec![I64] });
    m.imports = vec![
        module::Import { module: "a".into(), name: "f".into(), desc: module::desc::Import::Func(idx::Type(1)) },
        module::Import {
            module: "a".into(),
            name: "t".into(),
            desc: module::desc::Import::Table(ty::Table { lim: ty::Limits { min: 1, max: None }, elem: ty::Elem::FuncRef }),
        },
        module::Import {
            module: "a".into(),
            name: "m".into(),
            desc: module::desc::Import::Mem(ty::Mem { lim: ty::Limits { min: 2, max: None } }),
        },
        module::Import {
            module: "a".into(),
            name: "g".into(),
            desc: module::desc::Import::Global(ty::Global { mt: ty::Mut::Var, val: F32Type }),
        },
    ];
    m.tables = vec![module::Table { ty: ty::Table { lim: ty::Limits { min: 3, max: None }, elem: ty::Elem::FuncRef } }];
    m.mems = vec![module::Mem { ty: ty::Mem { lim: ty::Limits { min: 4, max: None } } }];
    m.globals = vec![module::Global {
        ty: ty::Global { mt: ty::Mut::Const, val: I32 },
        init: ConstExpr(vec![Instr::ConstI32(0)]),
    }];
    let ctx = Context::from(&m).unwrap();
    assert_eq!(ctx.types, vec![&m.types[0], &m.types[1]]);
    assert_eq!(ctx.funcs, vec![&m.types[1], &m.types[0]]);
    assert_eq!(ctx.tables.iter().map(|t| t.lim.min).collect::<Vec<_>>(), vec![1, 3]);
    assert_eq!(ctx.mems.iter().map(|t| t.lim.min).collect::<Vec<_>>(), vec![2, 4]);
    assert_eq!(ctx.globals.iter().map(|t| t.val).collect::<Vec<_>>(), vec![F32Type, I32]);
    assert_eq!(ctx.imported_globals, 1);
    assert!(ctx.locals.is_empty() && ctx.ret.is_none());
    assert!(ctx.stacks.operands.is_empty() && ctx.stacks.frames.is_empty());
}

#[test]
fn context_is_filled_part_by_part() {
    let m = with_function(vec![I32], vec![], vec![], vec![]);
    let mut ctx = Context::new();
    assert_eq!(ctx.use_funcs(&m.funcs), Err(Error::IndexOutOfRange));
    let mut ctx = Context::new();
    ctx.use_types(&m.types);
    assert_eq!(ctx.use_funcs(&m.funcs), Ok(()));
    assert_eq!(ctx.use_funcs(&m.funcs), Ok(()));
    assert_eq!(ctx.funcs.len(), 2);
    ctx.use_tables(&m.tables);
    ctx.use_mems(&m.mems);
    ctx.use_globals(&m.globals);
    ctx.use_imported_tables(&m.imports);
    ctx.use_imported_mems(&m.imports);
    ctx.use_imported_globals(&m.imports);
    assert_eq!(ctx.use_imported_funcs(&m.imports), Ok(()));
    assert!(ctx.tables.is_empty() && ctx.mems.is_empty() && ctx.globals.is_empty());
}

#[test]
fn function_must_have_a_type() {
    let mut m = with_function(vec![], vec![], vec![], vec![]);
    m.funcs[0].ty = idx::Type(1);
    assert_eq!(validate(&m).err(), Some(Error::IndexOutOfRange));
    let mut m = with_function(vec![], vec![], vec![], vec![]);
    m.imports =
        vec![module::Import { module: "a".into(), name: "f".into(), desc: module::desc::Import::Func(idx::Type(7)) }];
    assert_eq!(validate(&m).err(), Some(Error::IndexOutOfRange));
}

// what must fail

#[test]
fn popping_from_an_empty_stack_fails() {
    assert_eq!(check(vec![], vec![Instr::Drop]), Err(Error::StackUnderflow));
    assert_eq!(check(vec![], vec![Instr::I32Add]), Err(Error::StackUnderflow));
    assert_eq!(check(vec![], vec![Instr::ConstI32(1), Instr::I32Add]), Err(Error::StackUnderflow));
    assert_eq!(check(vec![I32], vec![]), Err(Error::StackUnderflow));
    // a block cannot reach the operands below it
    assert_eq!(
        check(vec![], vec![Instr::ConstI32(1), block(vec![], vec![Instr::Drop])]),
        Err(Error::StackUnderflow)
    );
}

#[test]
fn mismatched_select_operands_fail() {
    assert_eq!(
        check(vec![], vec![Instr::ConstI32(0), Instr::ConstI64(0), Instr::ConstI32(1), Instr::Select, Instr::Drop]),
        Err(Error::TypeMismatch)
    );
    assert_eq!(
        check(vec![], vec![Instr::ConstI32(0), Instr::ConstI32(0), Instr::ConstI64(1), Instr::Select, Instr::Drop]),
        Err(Error::TypeMismatch)
    );
    assert_eq!(
        check(
            vec![F32Type],
            vec![Instr::ConstF32(F32(0)), Instr::ConstF32(F32(1)), Instr::ConstI32(1), Instr::Select]
        ),
        Ok(())
    );
}

#[test]
fn branch_beyond_the_frames_fails() {
    assert_eq!(check(vec![], vec![Instr::Br(idx::Label(0))]), Err(Error::IndexOutOfRange));
    assert_eq!(check(vec![], vec![Instr::Br(idx::Label(5))]), Err(Error::IndexOutOfRange));
    assert_eq!(check(vec![], vec![block(vec![], vec![Instr::Br(idx::Label(0))])]), Ok(()));
    assert_eq!(check(vec![], vec![block(vec![], vec![Instr::Br(idx::Label(1))])]), Err(Error::IndexOutOfRange));
    assert_eq!(
        check(vec![], vec![block(vec![], vec![repeat(vec![], vec![Instr::Br(idx::Label(1))])])]),
        Ok(())
    );
    assert_eq!(
        check(vec![], vec![block(vec![], vec![Instr::ConstI32(0), Instr::BrIf(idx::Label(2))])]),
        Err(Error::IndexOutOfRange)
    );
}

fn with_global(ty: ty::Global, init: Vec<Instr>) -> module::Module {
    let mut m = module::Module::default();
    m.globals = vec![module::Global { ty, init: ConstExpr(init) }];
    m
}

#[test]
fn constant_expression_must_be_constant() {
    let constant = ty::Global { mt: ty::Mut::Const, val: I32 };
    assert_eq!(validate(&with_global(constant, vec![Instr::ConstI32(1)])).err(), None);
    assert_eq!(validate(&with_global(constant, vec![Instr::Nop, Instr::ConstI32(1)])).err(), Some(Error::NonConstantExpression));
    assert_eq!(
        validate(&with_global(constant, vec![Instr::ConstI32(1), Instr::ConstI32(1), Instr::I32Add])).err(),
        Some(Error::NonConstantExpression)
    );
    assert_eq!(validate(&with_global(constant, vec![Instr::ConstI64(1)])).err(), Some(Error::TypeMismatch));
    assert_eq!(validate(&with_global(constant, vec![])).err(), Some(Error::StackUnderflow));
    assert_eq!(
        validate(&with_global(constant, vec![Instr::ConstI32(1), Instr::ConstI32(2)])).err(),
        Some(Error::UnbalancedStack)
    );
    let mut m = module::Module::default();
    m.mems = vec![module::Mem { ty: ty::Mem { lim: ty::Limits { min: 1, max: None } } }];
    m.data = vec![module::Data { mem: idx::Mem(0), offset: ConstExpr(vec![Instr::Unreachable]), init: vec![] }];
    assert_eq!(validate(&m).err(), Some(Error::NonConstantExpression));
}

#[test]
fn constant_expression_cannot_read_a_mutable_or_imported_global() {
    let constant = ty::Global { mt: ty::Mut::Const, val: I32 };
    let variable = ty::Global { mt: ty::Mut::Var, val: I32 };
    let read = |global: u32| ConstExpr(vec![Instr::GlobalGet(idx::Global(global))]);
    // a constant global of the module itself can be read
    let mut m = with_global(constant, vec![Instr::ConstI32(1)]);
    m.globals.push(module::Global { ty: constant, init: read(0) });
    assert_eq!(validate(&m).err(), None);
    // a mutable one cannot
    let mut m = with_global(variable, vec![Instr::ConstI32(1)]);
    m.globals.push(module::Global { ty: constant, init: read(0) });
    assert_eq!(validate(&m).err(), Some(Error::NonConstantExpression));
    // an imported one cannot, constant or not
    for imported in [constant, variable] {
        let mut m = with_global(constant, vec![Instr::GlobalGet(idx::Global(0))]);
        m.imports = vec![module::Import {
            module: "a".into(),
            name: "g".into(),
            desc: module::desc::Import::Global(imported),
        }];
        assert_eq!(validate(&m).err(), Some(Error::NonConstantExpression));
    }
    // one that does not exist cannot
    let m = with_global(constant, vec![Instr::GlobalGet(idx::Global(3))]);
    assert_eq!(validate(&m).err(), Some(Error::IndexOutOfRange));
}

#[test]
fn exports_must_have_different_names() {
    let mut m = with_function(vec![], vec![], vec![], vec![]);
    m.exports = vec![
        module::Export { name: "a".into(), desc: module::desc::Export::Func(idx::Func(0)) },
        module::Export { name: "b".into(), desc: module::desc::Export::Func(idx::Func(0)) },
    ];
    assert_eq!(validate(&m).err(), None);
    m.exports.push(module::Export { name: "a".into(), desc: module::desc::Export::Func(idx::Func(0)) });
    assert_eq!(validate(&m).err(), Some(Error::DuplicateExport));
    m.exports[2].name = "c".into();
    m.exports[1].name = "c".into();
    assert_eq!(validate(&m).err(), Some(Error::DuplicateExport));
}

#[test]
fn module_can_have_one_memory_and_one_table() {
    let mem = module::Mem { ty: ty::Mem { lim: ty::Limits { min: 1, max: None } } };
    let table = module::Table { ty: ty::Table { lim: ty::Limits { min: 1, max: None }, elem: ty::Elem::FuncRef } };
    let mut m = module::Module::default();
    m.mems = vec![mem];
    m.tables = vec![table];
    assert_eq!(validate(&m).err(), None);
    m.mems = vec![mem, mem];
    assert_eq!(validate(&m).err(), Some(Error::MultipleMemories));
    m.tables = vec![table, table];
    assert_eq!(validate(&m).err(), Some(Error::MultipleTables));
    m.mems = vec![mem];
    assert_eq!(validate(&m).err(), Some(Error::MultipleTables));
}

#[test]
fn start_function_takes_and_returns_nothing() {
    let mut m = with_function(vec![], vec![], vec![], vec![]);
    m.start = Some(module::Start { func: idx::Func(0) });
    assert_eq!(validate(&m).err(), None);
    let mut m = with_function(vec![], vec![I32], vec![], vec![Instr::ConstI32(1)]);
    m.start = Some(module::Start { func: idx::Func(0) });
    assert_eq!(validate(&m).err(), Some(Error::InvalidStartFunction));
    let mut m = with_function(vec![I32], vec![], vec![], vec![]);
    m.start = Some(module::Start { func: idx::Func(0) });
    assert_eq!(validate(&m).err(), Some(Error::InvalidStartFunction));
    let mut m = with_function(vec![], vec![], vec![], vec![]);
    m.start = Some(module::Start { func: idx::Func(1) });
    assert_eq!(validate(&m).err(), Some(Error::IndexOutOfRange));
}

// what must pass

#[test]
fn dead_code_is_typed() {
    assert_eq!(check(vec![I32], vec![Instr::Unreachable, Instr::I32Add]), Ok(()));
    assert_eq!(check(vec![], vec![Instr::Unreachable, Instr::I32Add, Instr::Drop]), Ok(()));
    assert_eq!(check(vec![I32], vec![block(vec![I32], vec![Instr::Unreachable])]), Ok(()));
    assert_eq!(check(vec![], vec![block(vec![I32], vec![Instr::Unreachable]), Instr::Drop]), Ok(()));
    assert_eq!(check(vec![F64Type], vec![Instr::Unreachable]), Ok(()));
    assert_eq!(check(vec![], vec![Instr::Unreachable, Instr::Select, Instr::Drop]), Ok(()));
    assert_eq!(check(vec![], vec![Instr::Return, Instr::I64Eqz, Instr::Drop]), Ok(()));
    // but what is pushed after the dead code is typed
    assert_eq!(check(vec![I32], vec![Instr::Unreachable, Instr::ConstI64(0)]), Err(Error::TypeMismatch));
    assert_eq!(check(vec![], vec![Instr::Unreachable, Instr::ConstI64(0)]), Err(Error::UnbalancedStack));
    assert_eq!(check(vec![], vec![Instr::Unreachable, Instr::ConstI64(0), Instr::I32Eqz]), Err(Error::TypeMismatch));
}

#[test]
fn blocks_leave_their_results() {
    assert_eq!(check(vec![I32], vec![block(vec![I32], vec![Instr::ConstI32(1)])]), Ok(()));
    assert_eq!(check(vec![I32], vec![block(vec![I32], vec![])]), Err(Error::StackUnderflow));
    assert_eq!(check(vec![I32], vec![block(vec![I64], vec![Instr::ConstI64(1)])]), Err(Error::TypeMismatch));
    assert_eq!(check(vec![], vec![block(vec![], vec![Instr::ConstI32(1)])]), Err(Error::UnbalancedStack));
    assert_eq!(check(vec![I32], vec![repeat(vec![I32], vec![Instr::ConstI32(1)])]), Ok(()));
    assert_eq!(
        check(vec![I32], vec![Instr::ConstI32(0), either(vec![I32], vec![Instr::ConstI32(1)], vec![Instr::ConstI32(2)])]),
        Ok(())
    );
    assert_eq!(
        check(vec![I32], vec![Instr::ConstI32(0), either(vec![I32], vec![Instr::ConstI32(1)], vec![])]),
        Err(Error::StackUnderflow)
    );
    assert_eq!(
        check(vec![I32], vec![Instr::ConstI64(0), either(vec![I32], vec![Instr::ConstI32(1)], vec![Instr::ConstI32(2)])]),
        Err(Error::TypeMismatch)
    );
    assert_eq!(check(vec![], vec![Instr::ConstI32(0), either(vec![], vec![], vec![])]), Ok(()));
    // a stray `end` ends the frame of the function, which then has none to end
    assert_eq!(check(vec![], vec![Instr::End]), Err(Error::MissingFrame));
    // a stray `else` ends it and opens one like it
    assert_eq!(check(vec![], vec![Instr::Else]), Ok(()));
    assert_eq!(check(vec![I32], vec![Instr::Else]), Err(Error::StackUnderflow));
}

#[test]
fn branches_take_what_their_label_expects() {
    // a branch to a block takes the block's result, one to a loop takes nothing
    assert_eq!(
        check(vec![I32], vec![block(vec![I32], vec![Instr::ConstI32(1), Instr::Br(idx::Label(0))])]),
        Ok(())
    );
    assert_eq!(check(vec![I32], vec![block(vec![I32], vec![Instr::Br(idx::Label(0))])]), Err(Error::StackUnderflow));
    assert_eq!(check(vec![I32], vec![repeat(vec![I32], vec![Instr::Br(idx::Label(0))])]), Ok(()));
    assert_eq!(
        check(
            vec![I32],
            vec![block(vec![I32], vec![Instr::ConstI32(1), Instr::ConstI32(0), Instr::BrIf(idx::Label(0))])]
        ),
        Ok(())
    );
    assert_eq!(
        check(vec![I32], vec![block(vec![I32], vec![Instr::ConstI32(0), Instr::BrIf(idx::Label(0))])]),
        Err(Error::StackUnderflow)
    );
    let table = |labels: Vec<u32>, default: u32| {
        Instr::BrTable(labels.into_iter().map(idx::Label).collect(), idx::Label(default))
    };
    assert_eq!(
        check(vec![], vec![block(vec![], vec![block(vec![], vec![Instr::ConstI32(0), table(vec![0, 1, 0], 1)])])]),
        Ok(())
    );
    assert_eq!(
        check(
            vec![],
            vec![block(vec![], vec![block(vec![I32], vec![Instr::ConstI32(0), table(vec![0, 1], 0)]), Instr::Drop])]
        ),
        Err(Error::LabelMismatch)
    );
    assert_eq!(
        check(vec![], vec![block(vec![], vec![Instr::ConstI32(0), table(vec![0, 4], 0)])]),
        Err(Error::IndexOutOfRange)
    );
    assert_eq!(
        check(vec![], vec![block(vec![], vec![Instr::ConstI32(0), table(vec![], 4)])]),
        Err(Error::IndexOutOfRange)
    );
    assert_eq!(check(vec![I64], vec![Instr::ConstI64(1), Instr::Return]), Ok(()));
    assert_eq!(check(vec![I64], vec![Instr::ConstI32(1), Instr::Return]), Err(Error::TypeMismatch));
}

#[test]
fn locals_are_the_parameters_and_then_the_locals() {
    let get = |local: u32| Instr::LocalGet(idx::Local(local));
    let m = with_function(vec![I32, I64], vec![F32Type], vec![F32Type], vec![get(2)]);
    assert_eq!(validate(&m).err(), None);
    let m = with_function(vec![I32, I64], vec![I64], vec![F32Type], vec![get(1)]);
    assert_eq!(validate(&m).err(), None);
    let m = with_function(vec![I32, I64], vec![I64], vec![F32Type], vec![get(0)]);
    assert_eq!(validate(&m).err(), Some(Error::TypeMismatch));
    let m = with_function(vec![I32, I64], vec![I64], vec![F32Type], vec![get(3)]);
    assert_eq!(validate(&m).err(), Some(Error::IndexOutOfRange));
    let m = with_function(
        vec![I32],
        vec![I32],
        vec![],
        vec![Instr::ConstI32(1), Instr::LocalTee(idx::Local(0)), Instr::LocalSet(idx::Local(0)), get(0)],
    );
    assert_eq!(validate(&m).err(), None);
    let m = with_function(vec![I32], vec![], vec![], vec![Instr::ConstI64(1), Instr::LocalSet(idx::Local(0))]);
    assert_eq!(validate(&m).err(), Some(Error::TypeMismatch));
}

#[test]
fn globals_are_read_and_variables_written() {
    let mut m = with_function(vec![], vec![], vec![], vec![Instr::GlobalGet(idx::Global(0)), Instr::GlobalSet(idx::Global(1))]);
    m.globals = vec![
        module::Global { ty: ty::Global { mt: ty::Mut::Const, val: I64 }, init: ConstExpr(vec![Instr::ConstI64(1)]) },
        module::Global { ty: ty::Global { mt: ty::Mut::Var, val: I64 }, init: ConstExpr(vec![Instr::ConstI64(2)]) },
    ];
    assert_eq!(validate(&m).err(), None);
    m.funcs[0].body = Expr(vec![Instr::GlobalGet(idx::Global(1)), Instr::GlobalSet(idx::Global(0))]);
    assert_eq!(validate(&m).err(), Some(Error::ImmutableGlobal));
    m.funcs[0].body = Expr(vec![Instr::GlobalGet(idx::Global(2)), Instr::Drop]);
    assert_eq!(validate(&m).err(), Some(Error::IndexOutOfRange));
    m.funcs[0].body = Expr(vec![Instr::ConstI32(1), Instr::GlobalSet(idx::Global(1))]);
    assert_eq!(validate(&m).err(), Some(Error::TypeMismatch));
}

#[test]
fn calls_take_parameters_and_leave_results() {
    let mut m = with_function(vec![I32, I64], vec![F64Type], vec![], vec![Instr::Unreachable]);
    m.types.push(ty::Func { params: vec![], results: vec![F64Type] });
    m.funcs.push(module::Func {
        ty: idx::Type(1),
        locals: vec![],
        body: Expr(vec![Instr::ConstI32(1), Instr::ConstI64(2), Instr::Call(idx::Func(0))]),
    });
    assert_eq!(validate(&m).err(), None);
    m.funcs[1].body = Expr(vec![Instr::ConstI64(2), Instr::ConstI32(1), Instr::Call(idx::Func(0))]);
    assert_eq!(validate(&m).err(), Some(Error::TypeMismatch));
    m.funcs[1].body = Expr(vec![Instr::Call(idx::Func(2)), Instr::Unreachable]);
    assert_eq!(validate(&m).err(), Some(Error::IndexOutOfRange));
    // an indirect call names a type and needs a table
    m.funcs[1].body =
        Expr(vec![Instr::ConstI32(1), Instr::ConstI64(2), Instr::ConstI32(0), Instr::CallIndirect(idx::Func(0), idx::Table(0))]);
    assert_eq!(validate(&m).err(), Some(Error::IndexOutOfRange));
    m.tables = vec![module::Table { ty: ty::Table { lim: ty::Limits { min: 1, max: None }, elem: ty::Elem::FuncRef } }];
    assert_eq!(validate(&m).err(), None);
    m.funcs[1].body = Expr(vec![Instr::ConstI32(0), Instr::CallIndirect(idx::Func(1), idx::Table(0))]);
    assert_eq!(validate(&m).err(), None);
    m.funcs[1].body = Expr(vec![Instr::ConstI32(0), Instr::CallIndirect(idx::Func(2), idx::Table(0))]);
    assert_eq!(validate(&m).err(), Some(Error::IndexOutOfRange));
}

#[test]
fn memory_instructions_need_a_memory() {
    let load = vec![Instr::ConstI32(0), Instr::I64Load(3, 0)];
    let mut m = with_function(vec![], vec![I64], vec![], load);
    assert_eq!(validate(&m).err(), Some(Error::IndexOutOfRange));
    m.mems = vec![module::Mem { ty: ty::Mem { lim: ty::Limits { min: 1, max: None } } }];
    assert_eq!(validate(&m).err(), None);
    m.funcs[0].body = Expr(vec![Instr::ConstI32(0), Instr::I64Load(4, 0)]);
    assert_eq!(validate(&m).err(), Some(Error::InvalidAlignment));
    m.funcs[0].body = Expr(vec![Instr::ConstI32(0), Instr::I64Load8U(0, 0xFFFF_FFFF)]);
    assert_eq!(validate(&m).err(), None);
    m.funcs[0].body = Expr(vec![Instr::ConstI32(0), Instr::I64Load8U(1, 0)]);
    assert_eq!(validate(&m).err(), Some(Error::InvalidAlignment));
    m.funcs[0].body = Expr(vec![Instr::ConstI32(0), Instr::I64Load(40, 0)]);
    assert_eq!(validate(&m).err(), Some(Error::InvalidAlignment));
    m.funcs[0].body = Expr(vec![Instr::ConstI32(0), Instr::ConstF32(F32(0)), Instr::F32Store(2, 8), Instr::ConstI64(0)]);
    assert_eq!(validate(&m).err(), None);
    m.funcs[0].body = Expr(vec![Instr::ConstF32(F32(0)), Instr::ConstI32(0), Instr::F32Store(2, 8), Instr::ConstI64(0)]);
    assert_eq!(validate(&m).err(), Some(Error::TypeMismatch));
    m.funcs[0].body = Expr(vec![Instr::MemSize(idx::Mem(0)), Instr::MemGrow(idx::Mem(0)), Instr::I64ExtendI32U]);
    assert_eq!(validate(&m).err(), None);
    m.funcs[0].body = Expr(vec![Instr::MemSize(idx::Mem(1)), Instr::I64ExtendI32U]);
    assert_eq!(validate(&m).err(), Some(Error::IndexOutOfRange));
}

#[test]
fn loads_and_stores_are_checked_by_width() {
    let mut m = module::Module::default();
    m.mems = vec![module::Mem { ty: ty::Mem { lim: ty::Limits { min: 1, max: None } } }];
    let mut ctx = Context::from(&m).unwrap();
    ctx.stacks.push_frame(&[], &[]);
    ctx.stacks.push_operands(&[I32]);
    assert_eq!(validate_load(&mut ctx, 2, 32, F32Type), Ok(()));
    assert_eq!(ctx.stacks.operands, vec![Operand::Val(F32Type)]);
    assert_eq!(validate_load(&mut ctx, 0, 8, I32), Err(Error::TypeMismatch));
    ctx.stacks.push_operands(&[I32, I64]);
    assert_eq!(validate_store(&mut ctx, 3, 64, I64), Ok(()));
    assert_eq!(ctx.stacks.operands, vec![]);
    assert_eq!(validate_store(&mut ctx, 4, 64, I64), Err(Error::InvalidAlignment));
    assert_eq!(validate_store(&mut ctx, 1, 8, I64), Err(Error::InvalidAlignment));
    assert_eq!(validate_load(&mut ctx, 0, 0, I64), Err(Error::InvalidAlignment));
    assert_eq!(validate_load(&mut Context::new(), 0, 8, I64), Err(Error::IndexOutOfRange));
}

#[test]
fn numeric_instructions_take_and_leave_their_types() {
    assert_eq!(check(vec![I32], vec![Instr::ConstI32(1), Instr::ConstI32(2), Instr::I32Add]), Ok(()));
    assert_eq!(check(vec![I32], vec![Instr::ConstI64(1), Instr::ConstI64(2), Instr::I64LtU]), Ok(()));
    assert_eq!(check(vec![I32], vec![Instr::ConstI64(1), Instr::I64Eqz]), Ok(()));
    assert_eq!(check(vec![I64], vec![Instr::ConstI64(1), Instr::I64Popcnt]), Ok(()));
    assert_eq!(check(vec![F32Type], vec![Instr::ConstF32(F32(0)), Instr::F32Sqrt]), Ok(()));
    assert_eq!(check(vec![F64Type], vec![Instr::ConstF64(F64(0)), Instr::ConstF64(F64(0)), Instr::F64Copysign]), Ok(()));
    assert_eq!(check(vec![I32], vec![Instr::ConstF64(F64(0)), Instr::ConstF64(F64(0)), Instr::F64Ge]), Ok(()));
    assert_eq!(check(vec![I32], vec![Instr::ConstI64(1), Instr::I32WrapI64]), Ok(()));
    assert_eq!(check(vec![I64], vec![Instr::ConstF32(F32(0)), Instr::I64TruncF32S]), Ok(()));
    assert_eq!(check(vec![F32Type], vec![Instr::ConstF64(F64(0)), Instr::F32DemoteF64]), Ok(()));
    assert_eq!(check(vec![F64Type], vec![Instr::ConstI64(0), Instr::F64ReinterpretI64]), Ok(()));
    assert_eq!(check(vec![F64Type], vec![Instr::ConstI32(0), Instr::F64ReinterpretI64]), Err(Error::TypeMismatch));
    assert_eq!(check(vec![I64], vec![Instr::ConstI64(1), Instr::ConstI64(2), Instr::I64LtU]), Err(Error::TypeMismatch));
    assert_eq!(check(vec![I32], vec![Instr::ConstI32(1), Instr::ConstI64(2), Instr::I32Add]), Err(Error::TypeMismatch));
    assert_eq!(check(vec![], vec![Instr::Nop]), Ok(()));
}

#[test]
fn types_and_limits_are_checked() {
    let mut m = module::Module::default();
    m.types = vec![ty::Func { params: vec![], results: vec![I32, I32] }];
    assert_eq!(validate(&m).err(), Some(Error::TooManyResults));
    let mut m = module::Module::default();
    m.mems = vec![module::Mem { ty: ty::Mem { lim: ty::Limits { min: 2, max: Some(1) } } }];
    assert_eq!(validate(&m).err(), Some(Error::InvalidLimits));
    m.mems = vec![module::Mem { ty: ty::Mem { lim: ty::Limits { min: 0, max: Some(65536) } } }];
    assert_eq!(validate(&m).err(), None);
    m.mems = vec![module::Mem { ty: ty::Mem { lim: ty::Limits { min: 0, max: Some(65537) } } }];
    assert_eq!(validate(&m).err(), Some(Error::InvalidLimits));
    m.mems = vec![module::Mem { ty: ty::Mem { lim: ty::Limits { min: 65537, max: None } } }];
    assert_eq!(validate(&m).err(), Some(Error::InvalidLimits));
    m.mems = vec![];
    m.tables = vec![module::Table { ty: ty::Table { lim: ty::Limits { min: 0, max: Some(u32::MAX) }, elem: ty::Elem::FuncRef } }];
    assert_eq!(validate(&m).err(), None);
    m.tables = vec![module::Table { ty: ty::Table { lim: ty::Limits { min: 5, max: Some(4) }, elem: ty::Elem::FuncRef } }];
    assert_eq!(validate(&m).err(), Some(Error::InvalidLimits));
    let mut ctx = Context::new();
    assert_eq!(ty::Limits { min: 3, max: None }.validate(&mut ctx), Ok(3));
    assert_eq!(ty::Limits { min: 3, max: Some(9) }.validate(&mut ctx), Ok(9));
    assert_eq!(ty::Limits { min: 3, max: Some(2) }.validate(&mut ctx), Err(Error::InvalidLimits));
}

#[test]
fn segments_are_checked() {
    let mut m = with_function(vec![], vec![], vec![], vec![]);
    m.elem = vec![module::Elem { table: idx::Table(0), offset: ConstExpr(vec![Instr::ConstI32(0)]), init: vec![idx::Func(0)] }];
    assert_eq!(validate(&m).err(), Some(Error::IndexOutOfRange));
    m.tables = vec![module::Table { ty: ty::Table { lim: ty::Limits { min: 1, max: None }, elem: ty::Elem::FuncRef } }];
    assert_eq!(validate(&m).err(), None);
    m.elem[0].init.push(idx::Func(1));
    assert_eq!(validate(&m).err(), Some(Error::IndexOutOfRange));
    m.elem[0].init.clear();
    m.elem[0].offset = ConstExpr(vec![Instr::ConstI64(0)]);
    assert_eq!(validate(&m).err(), Some(Error::TypeMismatch));
    m.elem.clear();
    m.data = vec![module::Data { mem: idx::Mem(0), offset: ConstExpr(vec![Instr::ConstI32(0)]), init: vec![1, 2] }];
    assert_eq!(validate(&m).err(), Some(Error::IndexOutOfRange));
    m.mems = vec![module::Mem { ty: ty::Mem { lim: ty::Limits { min: 1, max: None } } }];
    assert_eq!(validate(&m).err(), None);
    m.data[0].offset = ConstExpr(vec![Instr::ConstF32(F32(0))]);
    assert_eq!(validate(&m).err(), Some(Error::TypeMismatch));
}

#[test]
fn valid_module_gives_the_types_of_its_imports_and_exports() {
    let mut m = with_function(vec![I32], vec![], vec![], vec![]);
    m.types.push(ty::Func { params: vec![], results: vec![I64] });
    m.imports = vec![
        module::Import { module: "a".into(), name: "f".into(), desc: module::desc::Import::Func(idx::Type(1)) },
        module::Import {
            module: "a".into(),
            name: "g".into(),
            desc: module::desc::Import::Global(ty::Global { mt: ty::Mut::Var, val: F32Type }),
        },
    ];
    m.mems = vec![module::Mem { ty: ty::Mem { lim: ty::Limits { min: 4, max: None } } }];
    m.exports = vec![
        module::Export { name: "own".into(), desc: module::desc::Export::Func(idx::Func(1)) },
        module::Export { name: "again".into(), desc: module::desc::Export::Func(idx::Func(0)) },
        module::Export { name: "memory".into(), desc: module::desc::Export::Mem(idx::Mem(0)) },
        module::Export { name: "global".into(), desc: module::desc::Export::Global(idx::Global(0)) },
    ];
    let types = validate(&m).unwrap();
    assert_eq!(types.imports.len(), 2);
    assert!(matches!(types.imports[0], External::Func(f) if *f == m.types[1]));
    assert!(matches!(types.imports[1], External::Global(g) if g.val == F32Type && g.mt == ty::Mut::Var));
    assert_eq!(types.exports.len(), 4);
    assert!(matches!(types.exports[0], External::Func(f) if *f == m.types[0]));
    assert!(matches!(types.exports[1], External::Func(f) if *f == m.types[1]));
    assert!(matches!(types.exports[2], External::Mem(t) if t.lim.min == 4));
    assert!(matches!(types.exports[3], External::Global(g) if g.val == F32Type));
    let same = ValidationEntry::validate(&m).unwrap();
    assert_eq!(same.exports.len(), 4);
    m.exports.push(module::Export { name: "table".into(), desc: module::desc::Export::Table(idx::Table(0)) });
    assert_eq!(validate(&m).err(), Some(Error::IndexOutOfRange));
}

#[test]
fn decoded_module_is_validated() {
    let m = decode(vec![
        0x00, 0x61, 0x73, 0x6D, 0x01, 0x00, 0x00, 0x00, 0x01, 0x05, 0x01, 0x60, 0x00, 0x01, 0x7F, 0x03, 0x02, 0x01,
        0x00, 0x07, 0x08, 0x01, 0x04, 0x6D, 0x61, 0x69, 0x6E, 0x00, 0x00, 0x0A, 0x06, 0x01, 0x04, 0x00, 0x41, 0x2A,
        0x0B,
    ])
    .unwrap();
    let types = validate(&m).unwrap();
    assert!(types.imports.is_empty());
    assert!(matches!(types.exports[..], [External::Func(f)] if f.params.is_empty() && f.results == vec![I32]));
    // the same function with a body that leaves an i64
    let m = decode(vec![
        0x00, 0x61, 0x73, 0x6D, 0x01, 0x00, 0x00, 0x00, 0x01, 0x05, 0x01, 0x60, 0x00, 0x01, 0x7F, 0x03, 0x02, 0x01,
        0x00, 0x0A, 0x06, 0x01, 0x04, 0x00, 0x42, 0x2A, 0x0B,
    ])
    .unwrap();
    assert_eq!(validate(&m).err(), Some(Error::TypeMismatch));
}
