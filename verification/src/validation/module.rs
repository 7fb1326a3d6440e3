//! Validation of a module and its parts.

use vstd::prelude::*;
use crate::structure::instr::{ConstExpr, Instr};
use crate::structure::module;
use crate::structure::module::desc;
use crate::structure::ty;
use crate::structure::ty::Val;
use crate::validation::context::{context_of, Context, ContextView};
use crate::validation::error::Error;
use crate::validation::idx::lookup;
use crate::validation::instr::{body_rule, rule, steps, validate_body, validate_instr};
use crate::validation::stacks::{copy_types, StacksView};
use crate::validation::ty::{func_rule, mem_rule, table_rule};
use crate::validation::{Validate, ValidationEntry};

pub mod result;

use self::result::{external_views, External, ExternalView};

verus! {

/// Whether an instruction may stand in a constant expression: it is a
/// constant, or it reads a global of the module itself that cannot be
/// assigned to.
pub open spec fn constant(ctx: ContextView, instr: Instr) -> Result<(), Error> {
    match instr {
        Instr::ConstI32(_) | Instr::ConstI64(_) | Instr::ConstF32(_) | Instr::ConstF64(_) => Ok(()),
        Instr::GlobalGet(global) => match lookup(ctx.globals, global.0) {
            Err(e) => Err(e),
            Ok(ty) => if global.0 < ctx.imported_globals || ty.mt != ty::Mut::Const {
                Err(Error::NonConstantExpression)
            } else {
                Ok(())
            },
        },
        _ => Err(Error::NonConstantExpression),
    }
}

/// The typing rule of the instructions of a constant expression from the one
/// at `from` on: each may stand in a constant expression and follows its
/// rule.
pub open spec fn const_body_rule(ctx: ContextView, stacks: StacksView, body: Seq<Instr>, from: nat) -> Result<
    StacksView,
    Error,
>
    decreases body.len() - from,
{
    if from >= body.len() {
        Ok(stacks)
    } else {
        match constant(ctx, body[from as int]) {
            Err(e) => Err(e),
            Ok(()) => match rule(ctx, stacks, body[from as int]) {
                Err(e) => Err(e),
                Ok(next) => const_body_rule(ctx, next, body, from + 1),
            },
        }
    }
}

/// The stacks after a frame that started on them has ended: both must be
/// empty.
pub open spec fn settled(r: Result<StacksView, Error>) -> Result<StacksView, Error> {
    match r {
        Err(e) => Err(e),
        Ok(inner) => match inner.pop_frame() {
            Err(e) => Err(e),
            Ok((rest, _)) => if rest.frames.len() != 0 || rest.operands.len() != 0 {
                Err(Error::UnbalancedStack)
            } else {
                Ok(rest)
            },
        },
    }
}

/// The rule for an initializer: a constant expression that leaves one value
/// of the type `ty`, and nothing else, on stacks that hold nothing else.
pub open spec fn initializer_rule(ctx: ContextView, init: Seq<Instr>, ty: Val) -> Result<StacksView, Error> {
    settled(const_body_rule(ctx.env(), ctx.stacks.push_frame(seq![ty], seq![ty]), init, 0))
}

/// The context while the function `func` of the type `ty` is validated.
pub open spec fn inside(ctx: ContextView, ty: ty::FuncView, func: module::Func) -> ContextView {
    ContextView { locals: ty.params + func.locals@, ret: Some(ty.results), ..ctx }
}

/// The rule for a function: its type exists, and its body leaves the results
/// of that type, and nothing else, on stacks that hold nothing else.
pub open spec fn function_rule(ctx: ContextView, func: module::Func) -> Result<StacksView, Error> {
    match lookup(ctx.types, func.ty.0) {
        Err(e) => Err(e),
        Ok(ty) => settled(
            body_rule(inside(ctx, ty, func).env(), ctx.stacks.push_frame(ty.results, ty.results), func.body.0@, 0),
        ),
    }
}

/// The rule for a global: its initializer gives a value of its type.
pub open spec fn global_rule(ctx: ContextView, global: module::Global) -> Result<StacksView, Error> {
    initializer_rule(ctx, global.init.0@, global.ty.val)
}

/// The first failure among the functions `funcs`, looked up in `all`.
pub open spec fn funcs_exist(all: Seq<ty::FuncView>, funcs: Seq<crate::structure::idx::Func>) -> Result<(), Error>
    decreases funcs.len(),
{
    if funcs.len() == 0 {
        Ok(())
    } else {
        match funcs_exist(all, funcs.drop_last()) {
            Err(e) => Err(e),
            Ok(()) => match lookup(all, funcs.last().0) {
                Err(e) => Err(e),
                Ok(_) => Ok(()),
            },
        }
    }
}

/// The rule for a table segment: its table exists, its offset is an `i32`
/// initializer, and its functions exist.
pub open spec fn elem_rule(ctx: ContextView, elem: module::Elem) -> Result<StacksView, Error> {
    match lookup(ctx.tables, elem.table.0) {
        Err(e) => Err(e),
        Ok(_) => match initializer_rule(ctx, elem.offset.0@, Val::I32) {
            Err(e) => Err(e),
            Ok(stacks) => match funcs_exist(ctx.funcs, elem.init@) {
                Err(e) => Err(e),
                Ok(()) => Ok(stacks),
            },
        },
    }
}

/// The rule for a memory segment: its memory exists, and its offset is an
/// `i32` initializer.
pub open spec fn data_rule(ctx: ContextView, data: module::Data) -> Result<StacksView, Error> {
    match lookup(ctx.mems, data.mem.0) {
        Err(e) => Err(e),
        Ok(_) => initializer_rule(ctx, data.offset.0@, Val::I32),
    }
}

/// The rule for the start function: it exists, and takes and returns nothing.
pub open spec fn start_rule(ctx: ContextView, start: module::Start) -> Result<(), Error> {
    match lookup(ctx.funcs, start.func.0) {
        Err(e) => Err(e),
        Ok(ty) => if ty.params.len() != 0 || ty.results.len() != 0 {
            Err(Error::InvalidStartFunction)
        } else {
            Ok(())
        },
    }
}

/// The rule for what is imported, and the type that it has.
pub open spec fn import_rule(ctx: ContextView, import: desc::Import) -> Result<ExternalView, Error> {
    match import {
        desc::Import::Func(index) => match lookup(ctx.types, index.0) {
            Err(e) => Err(e),
            Ok(ty) => Ok(ExternalView::Func(ty)),
        },
        desc::Import::Table(ty) => match table_rule(ty) {
            Err(e) => Err(e),
            Ok(()) => Ok(ExternalView::Table(ty)),
        },
        desc::Import::Mem(ty) => match mem_rule(ty) {
            Err(e) => Err(e),
            Ok(()) => Ok(ExternalView::Mem(ty)),
        },
        desc::Import::Global(ty) => Ok(ExternalView::Global(ty)),
    }
}

/// The rule for what is exported, and the type that it has.
pub open spec fn export_rule(ctx: ContextView, export: desc::Export) -> Result<ExternalView, Error> {
    match export {
        desc::Export::Func(index) => match lookup(ctx.funcs, index.0) {
            Err(e) => Err(e),
            Ok(ty) => Ok(ExternalView::Func(ty)),
        },
        desc::Export::Table(index) => match lookup(ctx.tables, index.0) {
            Err(e) => Err(e),
            Ok(ty) => Ok(ExternalView::Table(ty)),
        },
        desc::Export::Mem(index) => match lookup(ctx.mems, index.0) {
            Err(e) => Err(e),
            Ok(ty) => Ok(ExternalView::Mem(ty)),
        },
        desc::Export::Global(index) => match lookup(ctx.globals, index.0) {
            Err(e) => Err(e),
            Ok(ty) => Ok(ExternalView::Global(ty)),
        },
    }
}

/// Validates the instructions of a constant expression, one after the other.
pub fn validate_const_body<'a>(body: &'a ConstExpr, ctx: &mut Context<'a>) -> (r: Result<(), Error>)
    ensures
        steps(old(ctx)@, final(ctx)@, r, const_body_rule(old(ctx)@.env(), old(ctx)@.stacks, body.0@, 0)),
{
    let mut i: usize = 0;
    while i < body.0.len()
        invariant
            i <= body.0.len(),
            ctx@ == (ContextView { stacks: ctx@.stacks, ..old(ctx)@ }),
            const_body_rule(old(ctx)@.env(), old(ctx)@.stacks, body.0@, 0) == const_body_rule(
                old(ctx)@.env(),
                ctx@.stacks,
                body.0@,
                i as nat,
            ),
        decreases body.0.len() - i,
    {
        match &body.0[i] {
            Instr::ConstI32(_) | Instr::ConstI64(_) | Instr::ConstF32(_) | Instr::ConstF64(_) => {},
            Instr::GlobalGet(global) => {
                let ty = match global.validate(ctx) {
                    Ok(ty) => ty,
                    Err(e) => {
                        return Err(e);
                    },
                };
                if (global.0 as usize) < ctx.imported_globals || ty.mt != ty::Mut::Const {
                    return Err(Error::NonConstantExpression);
                }
            },
            _ => {
                return Err(Error::NonConstantExpression);
            },
        }
        match validate_instr(&body.0[i], ctx) {
            Ok(()) => {},
            Err(e) => {
                return Err(e);
            },
        }
        i = i + 1;
    }
    Ok(())
}

impl<'a> Validate<'a> for ConstExpr {
    type ValidationResult = ();

    /// Validates the instructions of the constant expression.
    fn validate(&'a self, ctx: &mut Context<'a>) -> (r: Result<(), Error>)
        ensures
            steps(old(ctx)@, final(ctx)@, r, const_body_rule(old(ctx)@.env(), old(ctx)@.stacks, self.0@, 0)),
    {
        validate_const_body(self, ctx)
    }
}

/// Ends the frame that a function or an initializer was validated in, and
/// checks that the stacks are empty.
fn settle(ctx: &mut Context, body: Result<(), Error>, Ghost(spec): Ghost<Result<StacksView, Error>>) -> (r: Result<
    (),
    Error,
>)
    requires
        spec matches Ok(stacks) ==> body is Ok && old(ctx)@.stacks == stacks,
        spec matches Err(e) ==> body == Err::<(), Error>(e),
    ensures
        steps(old(ctx)@, final(ctx)@, r, settled(spec)),
{
    match body {
        Ok(()) => {},
        Err(e) => {
            return Err(e);
        },
    }
    match ctx.stacks.pop_frame() {
        Ok(_) => {},
        Err(e) => {
            return Err(e);
        },
    }
    if ctx.stacks.frames.len() != 0 || ctx.stacks.operands.len() != 0 {
        return Err(Error::UnbalancedStack);
    }
    Ok(())
}

/// Validates an initializer that gives a value of the type `ty`.
pub fn validate_initializer<'a>(init: &'a ConstExpr, ctx: &mut Context<'a>, ty: Val) -> (r: Result<(), Error>)
    ensures
        steps(old(ctx)@, final(ctx)@, r, initializer_rule(old(ctx)@, init.0@, ty)),
{
    let leaves = [ty];
    assert(leaves@ =~= seq![ty]);
    ctx.stacks.push_frame(leaves.as_slice(), leaves.as_slice());
    let ghost spec = const_body_rule(ctx@.env(), ctx@.stacks, init.0@, 0);
    let body = validate_const_body(init, ctx);
    settle(ctx, body, Ghost(spec))
}

impl<'a> Validate<'a> for module::Func {
    type ValidationResult = &'a ty::Func;

    /// Validates the function and gives its type.
    fn validate(&'a self, ctx: &mut Context<'a>) -> (r: Result<&'a ty::Func, Error>)
        ensures
            match function_rule(old(ctx)@, *self) {
                Ok(stacks) => {
                    &&& r is Ok
                    &&& lookup(old(ctx)@.types, self.ty.0) == Ok::<ty::FuncView, Error>(r->Ok_0.deep_view())
                    &&& final(ctx)@ == (ContextView { locals: Seq::empty(), ret: None, stacks, ..old(ctx)@ })
                },
                Err(e) => r is Err && r->Err_0 == e,
            },
    {
        let ty = match self.ty.validate(ctx) {
            Ok(ty) => ty,
            Err(e) => {
                return Err(e);
            },
        };
        let ghost before = ctx@;
        ctx.ret = Some(copy_types(ty.results.as_slice()));
        let mut locals = copy_types(ty.params.as_slice());
        let mut i: usize = 0;
        while i < self.locals.len()
            invariant
                i <= self.locals.len(),
                locals@ == ty.params@ + self.locals@.take(i as int),
            decreases self.locals.len() - i,
        {
            locals.push(self.locals[i]);
            i = i + 1;
            assert(locals@ =~= ty.params@ + self.locals@.take(i as int));
        }
        assert(self.locals@.take(self.locals.len() as int) =~= self.locals@);
        ctx.locals = locals;
        ctx.stacks.push_frame(ty.results.as_slice(), ty.results.as_slice());
        assert(ctx@.env() == inside(before, ty.deep_view(), *self).env());
        let ghost spec = body_rule(ctx@.env(), ctx@.stacks, self.body.0@, 0);
        let body = validate_body(&self.body, ctx);
        match settle(ctx, body, Ghost(spec)) {
            Ok(()) => {},
            Err(e) => {
                return Err(e);
            },
        }
        ctx.locals = Vec::new();
        ctx.ret = None;
        assert(ctx@.locals =~= Seq::<Val>::empty());
        Ok(ty)
    }
}

impl<'a> Validate<'a> for module::Table {
    type ValidationResult = &'a ty::Table;

    /// Validates the table and gives its type.
    fn validate(&'a self, ctx: &mut Context<'a>) -> (r: Result<&'a ty::Table, Error>)
        ensures
            *final(ctx) == *old(ctx),
            match table_rule(self.ty) {
                Ok(()) => r is Ok && *r->Ok_0 == self.ty,
                Err(e) => r is Err && r->Err_0 == e,
            },
    {
        match self.ty.validate(ctx) {
            Ok(()) => Ok(&self.ty),
            Err(e) => Err(e),
        }
    }
}

impl<'a> Validate<'a> for module::Mem {
    type ValidationResult = &'a ty::Mem;

    /// Validates the memory and gives its type.
    fn validate(&'a self, ctx: &mut Context<'a>) -> (r: Result<&'a ty::Mem, Error>)
        ensures
            *final(ctx) == *old(ctx),
            match mem_rule(self.ty) {
                Ok(()) => r is Ok && *r->Ok_0 == self.ty,
                Err(e) => r is Err && r->Err_0 == e,
            },
    {
        match self.ty.validate(ctx) {
            Ok(()) => Ok(&self.ty),
            Err(e) => Err(e),
        }
    }
}

impl<'a> Validate<'a> for module::Global {
    type ValidationResult = &'a ty::Global;

    /// Validates the global and gives its type.
    fn validate(&'a self, ctx: &mut Context<'a>) -> (r: Result<&'a ty::Global, Error>)
        ensures
            match global_rule(old(ctx)@, *self) {
                Ok(stacks) => r is Ok && *r->Ok_0 == self.ty && final(ctx)@ == (ContextView { stacks, ..old(ctx)@ }),
                Err(e) => r is Err && r->Err_0 == e,
            },
    {
        match validate_initializer(&self.init, ctx, self.ty.val) {
            Ok(()) => Ok(&self.ty),
            Err(e) => Err(e),
        }
    }
}

/// Where the first functions of a segment fail, all of them fail in the same
/// way.
pub proof fn lemma_funcs_exist_fails(all: Seq<ty::FuncView>, funcs: Seq<crate::structure::idx::Func>, n: int)
    requires
        0 <= n <= funcs.len(),
        funcs_exist(all, funcs.take(n)) is Err,
    ensures
        funcs_exist(all, funcs) == funcs_exist(all, funcs.take(n)),
    decreases funcs.len() - n,
{
    if n < funcs.len() {
        assert(funcs.take(n + 1).drop_last() =~= funcs.take(n));
        lemma_funcs_exist_fails(all, funcs, n + 1);
    } else {
        assert(funcs.take(n) =~= funcs);
    }
}

impl<'a> Validate<'a> for module::Elem {
    type ValidationResult = ();

    /// Validates the table segment.
    fn validate(&'a self, ctx: &mut Context<'a>) -> (r: Result<(), Error>)
        ensures
            steps(old(ctx)@, final(ctx)@, r, elem_rule(old(ctx)@, *self)),
    {
        let table = match self.table.validate(ctx) {
            Ok(table) => table,
            Err(e) => {
                return Err(e);
            },
        };
        match table.elem {
            ty::Elem::FuncRef => {},
        }
        match validate_initializer(&self.offset, ctx, Val::I32) {
            Ok(()) => {},
            Err(e) => {
                return Err(e);
            },
        }
        let mut i: usize = 0;
        assert(self.init@.take(0) =~= Seq::empty());
        while i < self.init.len()
            invariant
                i <= self.init.len(),
                ctx@.funcs == old(ctx)@.funcs,
                lookup(old(ctx)@.tables, self.table.0) is Ok,
                initializer_rule(old(ctx)@, self.offset.0@, Val::I32) is Ok,
                funcs_exist(ctx@.funcs, self.init@.take(i as int)) is Ok,
            decreases self.init.len() - i,
        {
            assert(self.init@.take(i + 1).drop_last() =~= self.init@.take(i as int));
            if self.init[i].0 as usize >= ctx.funcs.len() {
                proof {
                    lemma_funcs_exist_fails(ctx@.funcs, self.init@, i + 1);
                }
                return Err(Error::IndexOutOfRange);
            }
            i = i + 1;
        }
        assert(self.init@.take(self.init.len() as int) =~= self.init@);
        Ok(())
    }
}

impl<'a> Validate<'a> for module::Data {
    type ValidationResult = ();

    /// Validates the memory segment.
    fn validate(&'a self, ctx: &mut Context<'a>) -> (r: Result<(), Error>)
        ensures
            steps(old(ctx)@, final(ctx)@, r, data_rule(old(ctx)@, *self)),
    {
        match self.mem.validate(ctx) {
            Ok(_) => {},
            Err(e) => {
                return Err(e);
            },
        }
        validate_initializer(&self.offset, ctx, Val::I32)
    }
}

impl<'a> Validate<'a> for module::Start {
    type ValidationResult = ();

    /// Validates the start function.
    fn validate(&'a self, ctx: &mut Context<'a>) -> (r: Result<(), Error>)
        ensures
            *final(ctx) == *old(ctx),
            r == start_rule(old(ctx)@, *self),
    {
        let ty = match self.func.validate(ctx) {
            Ok(ty) => ty,
            Err(e) => {
                return Err(e);
            },
        };
        if ty.params.len() != 0 || ty.results.len() != 0 {
            return Err(Error::InvalidStartFunction);
        }
        Ok(())
    }
}

impl<'a> Validate<'a> for desc::Import {
    type ValidationResult = External<'a>;

    /// Validates what is imported and gives its type.
    fn validate(&'a self, ctx: &mut Context<'a>) -> (r: Result<External<'a>, Error>)
        ensures
            *final(ctx) == *old(ctx),
            match import_rule(old(ctx)@, *self) {
                Ok(external) => r is Ok && r->Ok_0@ == external,
                Err(e) => r is Err && r->Err_0 == e,
            },
    {
        match self {
            desc::Import::Func(index) => match index.validate(ctx) {
                Ok(ty) => Ok(External::Func(ty)),
                Err(e) => Err(e),
            },
            desc::Import::Table(ty) => match ty.validate(ctx) {
                Ok(()) => Ok(External::Table(ty)),
                Err(e) => Err(e),
            },
            desc::Import::Mem(ty) => match ty.validate(ctx) {
                Ok(()) => Ok(External::Mem(ty)),
                Err(e) => Err(e),
            },
            desc::Import::Global(ty) => match ty.validate(ctx) {
                Ok(()) => Ok(External::Global(ty)),
                Err(e) => Err(e),
            },
        }
    }
}

impl<'a> Validate<'a> for desc::Export {
    type ValidationResult = External<'a>;

    /// Validates what is exported and gives its type.
    fn validate(&'a self, ctx: &mut Context<'a>) -> (r: Result<External<'a>, Error>)
        ensures
            *final(ctx) == *old(ctx),
            match export_rule(old(ctx)@, *self) {
                Ok(external) => r is Ok && r->Ok_0@ == external,
                Err(e) => r is Err && r->Err_0 == e,
            },
    {
        match self {
            desc::Export::Func(index) => match index.validate(ctx) {
                Ok(ty) => Ok(External::Func(ty)),
                Err(e) => Err(e),
            },
            desc::Export::Table(index) => match index.validate(ctx) {
                Ok(ty) => Ok(External::Table(ty)),
                Err(e) => Err(e),
            },
            desc::Export::Mem(index) => match index.validate(ctx) {
                Ok(ty) => Ok(External::Mem(ty)),
                Err(e) => Err(e),
            },
            desc::Export::Global(index) => match index.validate(ctx) {
                Ok(ty) => Ok(External::Global(ty)),
                Err(e) => Err(e),
            },
        }
    }
}

impl<'a> Validate<'a> for module::Import {
    type ValidationResult = External<'a>;

    /// Validates the import and gives the type of what is imported.
    fn validate(&'a self, ctx: &mut Context<'a>) -> (r: Result<External<'a>, Error>)
        ensures
            *final(ctx) == *old(ctx),
            match import_rule(old(ctx)@, self.desc) {
                Ok(external) => r is Ok && r->Ok_0@ == external,
                Err(e) => r is Err && r->Err_0 == e,
            },
    {
        self.desc.validate(ctx)
    }
}

impl<'a> Validate<'a> for module::Export {
    type ValidationResult = External<'a>;

    /// Validates the export and gives the type of what is exported.
    fn validate(&'a self, ctx: &mut Context<'a>) -> (r: Result<External<'a>, Error>)
        ensures
            *final(ctx) == *old(ctx),
            match export_rule(old(ctx)@, self.desc) {
                Ok(external) => r is Ok && r->Ok_0@ == external,
                Err(e) => r is Err && r->Err_0 == e,
            },
    {
        self.desc.validate(ctx)
    }
}

/// The first failure of `check` among `items`, in their order.
pub open spec fn each<T>(items: Seq<T>, check: spec_fn(T) -> Result<(), Error>) -> Result<(), Error>
    decreases items.len(),
{
    if items.len() == 0 {
        Ok(())
    } else {
        match each(items.drop_last(), check) {
            Err(e) => Err(e),
            Ok(()) => check(items.last()),
        }
    }
}

/// What `of` gives for each of `items`, or its first failure among them.
pub open spec fn collect<T>(items: Seq<T>, of: spec_fn(T) -> Result<ExternalView, Error>) -> Result<
    Seq<ExternalView>,
    Error,
>
    decreases items.len(),
{
    if items.len() == 0 {
        Ok(Seq::empty())
    } else {
        match collect(items.drop_last(), of) {
            Err(e) => Err(e),
            Ok(front) => match of(items.last()) {
                Err(e) => Err(e),
                Ok(last) => Ok(front.push(last)),
            },
        }
    }
}

/// Where a check fails among the first items, it fails in the same way among
/// all of them.
pub proof fn lemma_each_fails<T>(items: Seq<T>, check: spec_fn(T) -> Result<(), Error>, n: int)
    requires
        0 <= n <= items.len(),
        each(items.take(n), check) is Err,
    ensures
        each(items, check) == each(items.take(n), check),
    decreases items.len() - n,
{
    if n < items.len() {
        assert(items.take(n + 1).drop_last() =~= items.take(n));
        lemma_each_fails(items, check, n + 1);
    } else {
        assert(items.take(n) =~= items);
    }
}

/// Where collecting fails among the first items, it fails in the same way
/// among all of them.
pub proof fn lemma_collect_fails<T>(items: Seq<T>, of: spec_fn(T) -> Result<ExternalView, Error>, n: int)
    requires
        0 <= n <= items.len(),
        collect(items.take(n), of) is Err,
    ensures
        collect(items, of) is Err,
        collect(items, of)->Err_0 == collect(items.take(n), of)->Err_0,
    decreases items.len() - n,
{
    if n < items.len() {
        assert(items.take(n + 1).drop_last() =~= items.take(n));
        lemma_collect_fails(items, of, n + 1);
    } else {
        assert(items.take(n) =~= items);
    }
}

/// `b`, unless `a` fails.
pub open spec fn and_then(a: Result<(), Error>, b: Result<(), Error>) -> Result<(), Error> {
    match a {
        Err(e) => Err(e),
        Ok(()) => b,
    }
}

/// Whether a rule that leaves stacks holds.
pub open spec fn holds(r: Result<StacksView, Error>) -> Result<(), Error> {
    match r {
        Err(e) => Err(e),
        Ok(_) => Ok(()),
    }
}

/// The check of a function type.
pub open spec fn type_check() -> spec_fn(ty::Func) -> Result<(), Error> {
    |ty: ty::Func| func_rule(ty.deep_view())
}

/// The check of a function in the context `ctx`.
pub open spec fn function_check(ctx: ContextView) -> spec_fn(module::Func) -> Result<(), Error> {
    |func: module::Func| holds(function_rule(ctx, func))
}

/// The check of a table.
pub open spec fn table_check() -> spec_fn(module::Table) -> Result<(), Error> {
    |table: module::Table| table_rule(table.ty)
}

/// The check of a memory.
pub open spec fn mem_check() -> spec_fn(module::Mem) -> Result<(), Error> {
    |mem: module::Mem| mem_rule(mem.ty)
}

/// The check of a global in the context `ctx`.
pub open spec fn global_check(ctx: ContextView) -> spec_fn(module::Global) -> Result<(), Error> {
    |global: module::Global| holds(global_rule(ctx, global))
}

/// The check of a table segment in the context `ctx`.
pub open spec fn elem_check(ctx: ContextView) -> spec_fn(module::Elem) -> Result<(), Error> {
    |elem: module::Elem| holds(elem_rule(ctx, elem))
}

/// The check of a memory segment in the context `ctx`.
pub open spec fn data_check(ctx: ContextView) -> spec_fn(module::Data) -> Result<(), Error> {
    |data: module::Data| holds(data_rule(ctx, data))
}

/// The type of an import in the context `ctx`.
pub open spec fn import_type(ctx: ContextView) -> spec_fn(module::Import) -> Result<ExternalView, Error> {
    |import: module::Import| import_rule(ctx, import.desc)
}

/// The type of an export in the context `ctx`.
pub open spec fn export_type(ctx: ContextView) -> spec_fn(module::Export) -> Result<ExternalView, Error> {
    |export: module::Export| export_rule(ctx, export.desc)
}

/// Whether no two of `exports` have the same name.
pub open spec fn distinct_names(exports: Seq<module::Export>) -> bool {
    forall|i: int, j: int| 0 <= i < j < exports.len() ==> exports[i].name@ != exports[j].name@
}

/// The rules for the parts of a module in its context `ctx`: the types, the
/// functions, the tables, the memories, the globals, the segments and the
/// start function, in this order.
pub open spec fn parts_rule(ctx: ContextView, m: module::Module) -> Result<(), Error> {
    and_then(
        each(m.types@, type_check()),
        and_then(
            each(m.funcs@, function_check(ctx)),
            and_then(
                each(m.tables@, table_check()),
                and_then(
                    each(m.mems@, mem_check()),
                    and_then(
                        each(m.globals@, global_check(ctx)),
                        and_then(
                            each(m.elem@, elem_check(ctx)),
                            and_then(
                                each(m.data@, data_check(ctx)),
                                match m.start {
                                    Some(start) => start_rule(ctx, start),
                                    None => Ok(()),
                                },
                            ),
                        ),
                    ),
                ),
            ),
        ),
    )
}

/// The rules that hold of a module as a whole: at most one table and one
/// memory of its own, and no two exports of one name.
pub open spec fn whole_rule(m: module::Module) -> Result<(), Error> {
    if m.tables.len() > 1 {
        Err(Error::MultipleTables)
    } else if m.mems.len() > 1 {
        Err(Error::MultipleMemories)
    } else if !distinct_names(m.exports@) {
        Err(Error::DuplicateExport)
    } else {
        Ok(())
    }
}

/// The rule for a module: it has a context; its parts are valid in it; its
/// imports and exports have types; and the rules for the whole hold.  Gives
/// the types of the imports and of the exports.
pub open spec fn module_rule(m: module::Module) -> Result<(Seq<ExternalView>, Seq<ExternalView>), Error> {
    match context_of(m.deep_view()) {
        Err(e) => Err(e),
        Ok(ctx) => match parts_rule(ctx, m) {
            Err(e) => Err(e),
            Ok(()) => match collect(m.imports@, import_type(ctx)) {
                Err(e) => Err(e),
                Ok(imports) => match collect(m.exports@, export_type(ctx)) {
                    Err(e) => Err(e),
                    Ok(exports) => match whole_rule(m) {
                        Err(e) => Err(e),
                        Ok(()) => Ok((imports, exports)),
                    },
                },
            },
        },
    }
}

/// Whether a context is as a module's context is between its parts: without
/// locals, with nothing to return and with empty stacks.
pub open spec fn idle(ctx: ContextView) -> bool {
    ctx.locals.len() == 0 && ctx.ret is None && ctx.stacks.operands.len() == 0 && ctx.stacks.frames.len() == 0
}

/// An idle context is the one context with its other parts.
pub proof fn lemma_idle(a: ContextView, b: ContextView)
    requires
        idle(a),
        idle(b),
        a.env() == (ContextView { locals: a.locals, ret: a.ret, ..b.env() }),
    ensures
        a == b,
{
    assert(a.locals =~= b.locals);
    assert(a.stacks.operands =~= b.stacks.operands);
    assert(a.stacks.frames =~= b.stacks.frames);
}

/// Validates the function types `types`.
fn validate_types<'a>(ctx: &mut Context<'a>, types: &'a Vec<ty::Func>) -> (r: Result<(), Error>)
    ensures
        *final(ctx) == *old(ctx),
        r == each(types@, type_check()),
{
    let mut i: usize = 0;
    assert(types@.take(0) =~= Seq::empty());
    while i < types.len()
        invariant
            i <= types.len(),
            *ctx == *old(ctx),
            each(types@.take(i as int), type_check()) is Ok,
        decreases types.len() - i,
    {
        assert(types@.take(i + 1).drop_last() =~= types@.take(i as int));
        match types[i].validate(ctx) {
            Ok(()) => {},
            Err(e) => {
                proof {
                    lemma_each_fails(types@, type_check(), i + 1);
                }
                return Err(e);
            },
        }
        i = i + 1;
    }
    assert(types@.take(types.len() as int) =~= types@);
    Ok(())
}

/// Validates the functions `funcs`.
fn validate_funcs<'a>(ctx: &mut Context<'a>, funcs: &'a Vec<module::Func>) -> (r: Result<(), Error>)
    requires
        idle(old(ctx)@),
    ensures
        r == each(funcs@, function_check(old(ctx)@)),
        r is Ok ==> final(ctx)@ == old(ctx)@,
{
    let mut i: usize = 0;
    assert(funcs@.take(0) =~= Seq::empty());
    while i < funcs.len()
        invariant
            i <= funcs.len(),
            idle(old(ctx)@),
            ctx@ == old(ctx)@,
            each(funcs@.take(i as int), function_check(old(ctx)@)) is Ok,
        decreases funcs.len() - i,
    {
        assert(funcs@.take(i + 1).drop_last() =~= funcs@.take(i as int));
        match funcs[i].validate(ctx) {
            Ok(_) => {},
            Err(e) => {
                proof {
                    lemma_each_fails(funcs@, function_check(old(ctx)@), i + 1);
                }
                return Err(e);
            },
        }
        proof {
            lemma_idle(ctx@, old(ctx)@);
        }
        i = i + 1;
    }
    assert(funcs@.take(funcs.len() as int) =~= funcs@);
    Ok(())
}

/// Validates the tables `tables`.
fn validate_tables<'a>(ctx: &mut Context<'a>, tables: &'a Vec<module::Table>) -> (r: Result<(), Error>)
    ensures
        *final(ctx) == *old(ctx),
        r == each(tables@, table_check()),
{
    let mut i: usize = 0;
    assert(tables@.take(0) =~= Seq::empty());
    while i < tables.len()
        invariant
            i <= tables.len(),
            *ctx == *old(ctx),
            each(tables@.take(i as int), table_check()) is Ok,
        decreases tables.len() - i,
    {
        assert(tables@.take(i + 1).drop_last() =~= tables@.take(i as int));
        match tables[i].validate(ctx) {
            Ok(_) => {},
            Err(e) => {
                proof {
                    lemma_each_fails(tables@, table_check(), i + 1);
                }
                return Err(e);
            },
        }
        i = i + 1;
    }
    assert(tables@.take(tables.len() as int) =~= tables@);
    Ok(())
}

/// Validates the memories `mems`.
fn validate_mems<'a>(ctx: &mut Context<'a>, mems: &'a Vec<module::Mem>) -> (r: Result<(), Error>)
    ensures
        *final(ctx) == *old(ctx),
        r == each(mems@, mem_check()),
{
    let mut i: usize = 0;
    assert(mems@.take(0) =~= Seq::empty());
    while i < mems.len()
        invariant
            i <= mems.len(),
            *ctx == *old(ctx),
            each(mems@.take(i as int), mem_check()) is Ok,
        decreases mems.len() - i,
    {
        assert(mems@.take(i + 1).drop_last() =~= mems@.take(i as int));
        match mems[i].validate(ctx) {
            Ok(_) => {},
            Err(e) => {
                proof {
                    lemma_each_fails(mems@, mem_check(), i + 1);
                }
                return Err(e);
            },
        }
        i = i + 1;
    }
    assert(mems@.take(mems.len() as int) =~= mems@);
    Ok(())
}

/// Validates the globals `globals`.
fn validate_globals<'a>(ctx: &mut Context<'a>, globals: &'a Vec<module::Global>) -> (r: Result<(), Error>)
    requires
        idle(old(ctx)@),
    ensures
        r == each(globals@, global_check(old(ctx)@)),
        r is Ok ==> final(ctx)@ == old(ctx)@,
{
    let mut i: usize = 0;
    assert(globals@.take(0) =~= Seq::empty());
    while i < globals.len()
        invariant
            i <= globals.len(),
            idle(old(ctx)@),
            ctx@ == old(ctx)@,
            each(globals@.take(i as int), global_check(old(ctx)@)) is Ok,
        decreases globals.len() - i,
    {
        assert(globals@.take(i + 1).drop_last() =~= globals@.take(i as int));
        match globals[i].validate(ctx) {
            Ok(_) => {},
            Err(e) => {
                proof {
                    lemma_each_fails(globals@, global_check(old(ctx)@), i + 1);
                }
                return Err(e);
            },
        }
        proof {
            lemma_idle(ctx@, old(ctx)@);
        }
        i = i + 1;
    }
    assert(globals@.take(globals.len() as int) =~= globals@);
    Ok(())
}

/// Validates the table segments `elem`.
fn validate_elems<'a>(ctx: &mut Context<'a>, elem: &'a Vec<module::Elem>) -> (r: Result<(), Error>)
    requires
        idle(old(ctx)@),
    ensures
        r == each(elem@, elem_check(old(ctx)@)),
        r is Ok ==> final(ctx)@ == old(ctx)@,
{
    let mut i: usize = 0;
    assert(elem@.take(0) =~= Seq::empty());
    while i < elem.len()
        invariant
            i <= elem.len(),
            idle(old(ctx)@),
            ctx@ == old(ctx)@,
            each(elem@.take(i as int), elem_check(old(ctx)@)) is Ok,
        decreases elem.len() - i,
    {
        assert(elem@.take(i + 1).drop_last() =~= elem@.take(i as int));
        match elem[i].validate(ctx) {
            Ok(()) => {},
            Err(e) => {
                proof {
                    lemma_each_fails(elem@, elem_check(old(ctx)@), i + 1);
                }
                return Err(e);
            },
        }
        proof {
            lemma_idle(ctx@, old(ctx)@);
        }
        i = i + 1;
    }
    assert(elem@.take(elem.len() as int) =~= elem@);
    Ok(())
}

/// Validates the memory segments `data`.
fn validate_datas<'a>(ctx: &mut Context<'a>, data: &'a Vec<module::Data>) -> (r: Result<(), Error>)
    requires
        idle(old(ctx)@),
    ensures
        r == each(data@, data_check(old(ctx)@)),
        r is Ok ==> final(ctx)@ == old(ctx)@,
{
    let mut i: usize = 0;
    assert(data@.take(0) =~= Seq::empty());
    while i < data.len()
        invariant
            i <= data.len(),
            idle(old(ctx)@),
            ctx@ == old(ctx)@,
            each(data@.take(i as int), data_check(old(ctx)@)) is Ok,
        decreases data.len() - i,
    {
        assert(data@.take(i + 1).drop_last() =~= data@.take(i as int));
        match data[i].validate(ctx) {
            Ok(()) => {},
            Err(e) => {
                proof {
                    lemma_each_fails(data@, data_check(old(ctx)@), i + 1);
                }
                return Err(e);
            },
        }
        proof {
            lemma_idle(ctx@, old(ctx)@);
        }
        i = i + 1;
    }
    assert(data@.take(data.len() as int) =~= data@);
    Ok(())
}

/// Validates the parts of the module `m` in its context.
fn validate_parts<'a>(ctx: &mut Context<'a>, m: &'a module::Module) -> (r: Result<(), Error>)
    requires
        idle(old(ctx)@),
    ensures
        r == parts_rule(old(ctx)@, *m),
        r is Ok ==> final(ctx)@ == old(ctx)@,
{
    match validate_types(ctx, &m.types) {
        Ok(()) => {},
        Err(e) => {
            return Err(e);
        },
    }
    match validate_funcs(ctx, &m.funcs) {
        Ok(()) => {},
        Err(e) => {
            return Err(e);
        },
    }
    match validate_tables(ctx, &m.tables) {
        Ok(()) => {},
        Err(e) => {
            return Err(e);
        },
    }
    match validate_mems(ctx, &m.mems) {
        Ok(()) => {},
        Err(e) => {
            return Err(e);
        },
    }
    match validate_globals(ctx, &m.globals) {
        Ok(()) => {},
        Err(e) => {
            return Err(e);
        },
    }
    match validate_elems(ctx, &m.elem) {
        Ok(()) => {},
        Err(e) => {
            return Err(e);
        },
    }
    match validate_datas(ctx, &m.data) {
        Ok(()) => {},
        Err(e) => {
            return Err(e);
        },
    }
    match &m.start {
        Some(start) => start.validate(ctx),
        None => Ok(()),
    }
}

/// Validates the imports `imports` and gives their types.
fn validate_imports<'a>(ctx: &mut Context<'a>, imports: &'a Vec<module::Import>) -> (r: Result<
    Vec<External<'a>>,
    Error,
>)
    ensures
        *final(ctx) == *old(ctx),
        match collect(imports@, import_type(old(ctx)@)) {
            Ok(types) => r is Ok && external_views(r->Ok_0@) == types,
            Err(e) => r is Err && r->Err_0 == e,
        },
{
    let mut types: Vec<External<'a>> = Vec::new();
    let mut i: usize = 0;
    assert(imports@.take(0) =~= Seq::empty());
    assert(external_views(types@) =~= Seq::empty());
    while i < imports.len()
        invariant
            i <= imports.len(),
            *ctx == *old(ctx),
            collect(imports@.take(i as int), import_type(old(ctx)@)) == Ok::<Seq<ExternalView>, Error>(
                external_views(types@),
            ),
        decreases imports.len() - i,
    {
        assert(imports@.take(i + 1).drop_last() =~= imports@.take(i as int));
        let ghost front = external_views(types@);
        match imports[i].validate(ctx) {
            Ok(ty) => {
                types.push(ty);
                assert(external_views(types@) =~= front.push(ty@));
            },
            Err(e) => {
                proof {
                    lemma_collect_fails(imports@, import_type(old(ctx)@), i + 1);
                }
                return Err(e);
            },
        }
        i = i + 1;
    }
    assert(imports@.take(imports.len() as int) =~= imports@);
    Ok(types)
}

/// Validates the exports `exports` and gives their types.
fn validate_exports<'a>(ctx: &mut Context<'a>, exports: &'a Vec<module::Export>) -> (r: Result<
    Vec<External<'a>>,
    Error,
>)
    ensures
        *final(ctx) == *old(ctx),
        match collect(exports@, export_type(old(ctx)@)) {
            Ok(types) => r is Ok && external_views(r->Ok_0@) == types,
            Err(e) => r is Err && r->Err_0 == e,
        },
{
    let mut types: Vec<External<'a>> = Vec::new();
    let mut i: usize = 0;
    assert(exports@.take(0) =~= Seq::empty());
    assert(external_views(types@) =~= Seq::empty());
    while i < exports.len()
        invariant
            i <= exports.len(),
            *ctx == *old(ctx),
            collect(exports@.take(i as int), export_type(old(ctx)@)) == Ok::<Seq<ExternalView>, Error>(
                external_views(types@),
            ),
        decreases exports.len() - i,
    {
        assert(exports@.take(i + 1).drop_last() =~= exports@.take(i as int));
        let ghost front = external_views(types@);
        match exports[i].validate(ctx) {
            Ok(ty) => {
                types.push(ty);
                assert(external_views(types@) =~= front.push(ty@));
            },
            Err(e) => {
                proof {
                    lemma_collect_fails(exports@, export_type(old(ctx)@), i + 1);
                }
                return Err(e);
            },
        }
        i = i + 1;
    }
    assert(exports@.take(exports.len() as int) =~= exports@);
    Ok(types)
}

/// Whether no two of `exports` have the same name.
pub fn has_distinct_names(exports: &Vec<module::Export>) -> (r: bool)
    ensures
        r == distinct_names(exports@),
{
    let mut j: usize = 0;
    while j < exports.len()
        invariant
            j <= exports.len(),
            forall|a: int, b: int| 0 <= a < b < j ==> exports[a].name@ != exports[b].name@,
        decreases exports.len() - j,
    {
        let mut i: usize = 0;
        while i < j
            invariant
                i <= j < exports.len(),
                forall|a: int| 0 <= a < i ==> exports[a].name@ != exports[j as int].name@,
            decreases j - i,
        {
            if exports[i].name == exports[j].name {
                return false;
            }
            i = i + 1;
        }
        j = j + 1;
    }
    true
}

impl<'a> ValidationEntry<'a> for module::Module {
    type ValidationResult = result::Module<'a>;

    /// Validates the module and gives the types of its imports and exports,
    /// or the first reason why it is not valid.
    fn validate(&'a self) -> (r: Result<result::Module<'a>, Error>)
        ensures
            match module_rule(*self) {
                Ok((imports, exports)) => {
                    &&& r is Ok
                    &&& external_views(r->Ok_0.imports@) == imports
                    &&& external_views(r->Ok_0.exports@) == exports
                },
                Err(e) => r is Err && r->Err_0 == e,
            },
    {
        validate(self)
    }
}

/// Validates the module `module` and gives the types of its imports and
/// exports, or the first reason why it is not valid.
pub fn validate<'a>(module: &'a module::Module) -> (r: Result<result::Module<'a>, Error>)
    ensures
        match module_rule(*module) {
            Ok((imports, exports)) => {
                &&& r is Ok
                &&& external_views(r->Ok_0.imports@) == imports
                &&& external_views(r->Ok_0.exports@) == exports
            },
            Err(e) => r is Err && r->Err_0 == e,
        },
{
    let mut ctx = match Context::from(module) {
        Ok(ctx) => ctx,
        Err(e) => {
            return Err(e);
        },
    };
    match validate_parts(&mut ctx, module) {
        Ok(()) => {},
        Err(e) => {
            return Err(e);
        },
    }
    let imports = match validate_imports(&mut ctx, &module.imports) {
        Ok(imports) => imports,
        Err(e) => {
            return Err(e);
        },
    };
    let exports = match validate_exports(&mut ctx, &module.exports) {
        Ok(exports) => exports,
        Err(e) => {
            return Err(e);
        },
    };
    if !(module.tables.len() <= 1) {
        return Err(Error::MultipleTables);
    }
    if !(module.mems.len() <= 1) {
        return Err(Error::MultipleMemories);
    }
    if !has_distinct_names(&module.exports) {
        return Err(Error::DuplicateExport);
    }
    Ok(result::Module { imports, exports })
}

} // verus!
