//! The typing context.
//!
//! The context lists the types of everything that an index can refer to: the
//! module's types, and its functions, tables, memories and globals, the
//! imported ones before the module's own.  While a function is validated it
//! also holds the types of the function's locals and results, and the stacks.

use vstd::prelude::*;
use crate::structure::module;
use crate::structure::module::desc;
use crate::structure::ty;
use crate::validation::error::Error;
use crate::validation::stacks::{Stacks, StacksView};

verus! {

/// The typing context of a module.
pub struct Context<'a> {
    pub types: Vec<&'a ty::Func>,
    pub funcs: Vec<&'a ty::Func>,
    pub tables: Vec<&'a ty::Table>,
    pub mems: Vec<&'a ty::Mem>,
    pub globals: Vec<&'a ty::Global>,
    /// How many of the globals are imported: the first ones.
    pub imported_globals: usize,
    pub locals: Vec<ty::Val>,
    pub ret: Option<Vec<ty::Val>>,
    pub stacks: Stacks,
}

/// The typing context as a mathematical value.
pub struct ContextView {
    pub types: Seq<ty::FuncView>,
    pub funcs: Seq<ty::FuncView>,
    pub tables: Seq<ty::Table>,
    pub mems: Seq<ty::Mem>,
    pub globals: Seq<ty::Global>,
    pub imported_globals: nat,
    pub locals: Seq<ty::Val>,
    pub ret: Option<Seq<ty::Val>>,
    pub stacks: StacksView,
}

impl ContextView {
    /// The context without its stacks: what the rules read of it besides the
    /// stacks.
    pub open spec fn env(self) -> ContextView {
        ContextView { stacks: StacksView { operands: Seq::empty(), frames: Seq::empty() }, ..self }
    }
}

/// The function types that `refs` refer to.
pub open spec fn func_views(refs: Seq<&ty::Func>) -> Seq<ty::FuncView> {
    Seq::new(refs.len(), |i: int| refs[i].deep_view())
}

/// The values that `refs` refer to.
pub open spec fn values<T>(refs: Seq<&T>) -> Seq<T> {
    Seq::new(refs.len(), |i: int| *refs[i])
}

/// One more reference adds the view of what it refers to.
pub proof fn lemma_func_views_push(refs: Seq<&ty::Func>, last: &ty::Func)
    ensures
        func_views(refs.push(last)) == func_views(refs).push(last.deep_view()),
{
    assert(func_views(refs.push(last)) =~= func_views(refs).push(last.deep_view()));
}

/// One more reference adds what it refers to.
pub proof fn lemma_values_push<T>(refs: Seq<&T>, last: &T)
    ensures
        values(refs.push(last)) == values(refs).push(*last),
{
    assert(values(refs.push(last)) =~= values(refs).push(*last));
}

impl<'a> View for Context<'a> {
    type V = ContextView;

    open spec fn view(&self) -> ContextView {
        ContextView {
            types: func_views(self.types@),
            funcs: func_views(self.funcs@),
            tables: values(self.tables@),
            mems: values(self.mems@),
            globals: values(self.globals@),
            imported_globals: self.imported_globals as nat,
            locals: self.locals@,
            ret: match self.ret {
                Some(types) => Some(types@),
                None => None,
            },
            stacks: self.stacks@,
        }
    }
}

/// The types of the functions that `imports` import, in order, looked up in
/// `types`.
pub open spec fn imported_funcs(types: Seq<ty::FuncView>, imports: Seq<module::ImportView>) -> Result<
    Seq<ty::FuncView>,
    Error,
>
    decreases imports.len(),
{
    if imports.len() == 0 {
        Ok(Seq::empty())
    } else {
        match imported_funcs(types, imports.drop_last()) {
            Err(e) => Err(e),
            Ok(front) => match imports.last().desc {
                desc::Import::Func(index) => if index.0 < types.len() {
                    Ok(front.push(types[index.0 as int]))
                } else {
                    Err(Error::IndexOutOfRange)
                },
                _ => Ok(front),
            },
        }
    }
}

/// The types of the tables that `imports` import, in order.
pub open spec fn imported_tables(imports: Seq<module::ImportView>) -> Seq<ty::Table>
    decreases imports.len(),
{
    if imports.len() == 0 {
        Seq::empty()
    } else {
        match imports.last().desc {
            desc::Import::Table(table) => imported_tables(imports.drop_last()).push(table),
            _ => imported_tables(imports.drop_last()),
        }
    }
}

/// The types of the memories that `imports` import, in order.
pub open spec fn imported_mems(imports: Seq<module::ImportView>) -> Seq<ty::Mem>
    decreases imports.len(),
{
    if imports.len() == 0 {
        Seq::empty()
    } else {
        match imports.last().desc {
            desc::Import::Mem(mem) => imported_mems(imports.drop_last()).push(mem),
            _ => imported_mems(imports.drop_last()),
        }
    }
}

/// The types of the globals that `imports` import, in order.
pub open spec fn imported_globals(imports: Seq<module::ImportView>) -> Seq<ty::Global>
    decreases imports.len(),
{
    if imports.len() == 0 {
        Seq::empty()
    } else {
        match imports.last().desc {
            desc::Import::Global(global) => imported_globals(imports.drop_last()).push(global),
            _ => imported_globals(imports.drop_last()),
        }
    }
}

/// The types of the functions `funcs`, in order, looked up in `types`.
pub open spec fn func_types(types: Seq<ty::FuncView>, funcs: Seq<module::FuncView>) -> Result<
    Seq<ty::FuncView>,
    Error,
>
    decreases funcs.len(),
{
    if funcs.len() == 0 {
        Ok(Seq::empty())
    } else {
        match func_types(types, funcs.drop_last()) {
            Err(e) => Err(e),
            Ok(front) => if funcs.last().ty.0 < types.len() {
                Ok(front.push(types[funcs.last().ty.0 as int]))
            } else {
                Err(Error::IndexOutOfRange)
            },
        }
    }
}

/// Where a shorter list of imports fails, every longer one fails in the same
/// way.
pub proof fn lemma_imported_funcs_fails(
    types: Seq<ty::FuncView>,
    imports: Seq<module::ImportView>,
    n: int,
)
    requires
        0 <= n <= imports.len(),
        imported_funcs(types, imports.take(n)) is Err,
    ensures
        imported_funcs(types, imports) == imported_funcs(types, imports.take(n)),
    decreases imports.len() - n,
{
    if n < imports.len() {
        assert(imports.take(n + 1).drop_last() =~= imports.take(n));
        lemma_imported_funcs_fails(types, imports, n + 1);
    } else {
        assert(imports.take(n) =~= imports);
    }
}

/// Where a shorter list of functions fails, every longer one fails in the
/// same way.
pub proof fn lemma_func_types_fails(types: Seq<ty::FuncView>, funcs: Seq<module::FuncView>, n: int)
    requires
        0 <= n <= funcs.len(),
        func_types(types, funcs.take(n)) is Err,
    ensures
        func_types(types, funcs) == func_types(types, funcs.take(n)),
    decreases funcs.len() - n,
{
    if n < funcs.len() {
        assert(funcs.take(n + 1).drop_last() =~= funcs.take(n));
        lemma_func_types_fails(types, funcs, n + 1);
    } else {
        assert(funcs.take(n) =~= funcs);
    }
}

/// No operands and no frames.
pub open spec fn no_stacks() -> StacksView {
    StacksView { operands: Seq::empty(), frames: Seq::empty() }
}

/// The context of a module: its types; its functions, tables, memories and
/// globals, the imported ones first; no locals, nothing to return, and empty
/// stacks.  There is none where an imported function or a function refers to
/// no type.
pub open spec fn context_of(module: module::ModuleView) -> Result<ContextView, Error> {
    match imported_funcs(module.types, module.imports) {
        Err(e) => Err(e),
        Ok(imported) => match func_types(module.types, module.funcs) {
            Err(e) => Err(e),
            Ok(own) => Ok(
                ContextView {
                    types: module.types,
                    funcs: imported + own,
                    tables: imported_tables(module.imports) + Seq::new(
                        module.tables.len(),
                        |i: int| module.tables[i].ty,
                    ),
                    mems: imported_mems(module.imports) + Seq::new(module.mems.len(), |i: int| module.mems[i].ty),
                    globals: imported_globals(module.imports) + Seq::new(
                        module.globals.len(),
                        |i: int| module.globals[i].ty,
                    ),
                    imported_globals: imported_globals(module.imports).len(),
                    locals: Seq::empty(),
                    ret: None,
                    stacks: no_stacks(),
                },
            ),
        },
    }
}

impl<'a> Default for Context<'a> {
    /// The context of nothing.
    fn default() -> (r: Context<'a>)
        ensures
            r@.types.len() == 0,
            r@.funcs.len() == 0,
            r@.tables.len() == 0,
            r@.mems.len() == 0,
            r@.globals.len() == 0,
            r@.imported_globals == 0,
            r@.locals.len() == 0,
            r@.ret is None,
            r@.stacks.operands.len() == 0,
            r@.stacks.frames.len() == 0,
    {
        Context::new()
    }
}

impl<'a> Context<'a> {
    /// The context of nothing.
    pub fn new() -> (r: Context<'a>)
        ensures
            r@.types.len() == 0,
            r@.funcs.len() == 0,
            r@.tables.len() == 0,
            r@.mems.len() == 0,
            r@.globals.len() == 0,
            r@.imported_globals == 0,
            r@.locals.len() == 0,
            r@.ret is None,
            r@.stacks.operands.len() == 0,
            r@.stacks.frames.len() == 0,
            r.types.len() == 0,
            r.funcs.len() == 0,
            r.tables.len() == 0,
            r.mems.len() == 0,
            r.globals.len() == 0,
    {
        Context {
            types: Vec::new(),
            funcs: Vec::new(),
            tables: Vec::new(),
            mems: Vec::new(),
            globals: Vec::new(),
            imported_globals: 0,
            locals: Vec::new(),
            ret: None,
            stacks: Stacks::new(),
        }
    }

    /// The context of the module `mdl`.
    pub fn from(mdl: &'a module::Module) -> (r: Result<Context<'a>, Error>)
        ensures
            match context_of(mdl.deep_view()) {
                Ok(ctx) => r is Ok && r->Ok_0@ == ctx,
                Err(e) => r is Err && r->Err_0 == e,
            },
    {
        let mut ctx = Context::new();
        let ghost view = mdl.deep_view();
        ctx.use_types(&mdl.types);
        assert(ctx@.types =~= view.types);
        match ctx.use_imported_funcs(&mdl.imports) {
            Ok(()) => {},
            Err(e) => {
                return Err(e);
            },
        }
        ctx.use_imported_tables(&mdl.imports);
        ctx.use_imported_mems(&mdl.imports);
        ctx.use_imported_globals(&mdl.imports);
        match ctx.use_funcs(&mdl.funcs) {
            Ok(()) => {},
            Err(e) => {
                return Err(e);
            },
        }
        ctx.use_tables(&mdl.tables);
        ctx.use_mems(&mdl.mems);
        ctx.use_globals(&mdl.globals);
        proof {
            let expected = context_of(view)->Ok_0;
            assert(ctx@.funcs =~= expected.funcs);
            assert(ctx@.tables =~= expected.tables);
            assert(ctx@.mems =~= expected.mems);
            assert(ctx@.globals =~= expected.globals);
            assert(ctx@.locals =~= expected.locals);
            assert(ctx@.stacks.operands =~= expected.stacks.operands);
            assert(ctx@.stacks.frames =~= expected.stacks.frames);
        }
        Ok(ctx)
    }

    /// Adds the types `types`.
    pub fn use_types(&mut self, types: &'a Vec<ty::Func>)
        ensures
            final(self)@ == (ContextView { types: old(self)@.types + types.deep_view(), ..old(self)@ }),
    {
        let mut i: usize = 0;
        assert(types.deep_view().take(0) =~= Seq::empty());
        assert(old(self)@.types + Seq::empty() =~= old(self)@.types);
        while i < types.len()
            invariant
                i <= types.len(),
                self@ == (ContextView { types: old(self)@.types + types.deep_view().take(i as int), ..old(self)@ }),
            decreases types.len() - i,
        {
            proof {
                lemma_func_views_push(self.types@, &types[i as int]);
                assert(types.deep_view().take(i + 1) =~= types.deep_view().take(i as int).push(
                    types[i as int].deep_view(),
                ));
            }
            self.types.push(&types[i]);
            i = i + 1;
            assert(self@.types =~= old(self)@.types + types.deep_view().take(i as int));
        }
        assert(types.deep_view().take(types.len() as int) =~= types.deep_view());
    }

    /// Adds the functions that `imports` import.  Fails at the first whose type
    /// index refers to no type.
    pub fn use_imported_funcs(&mut self, imports: &'a Vec<module::Import>) -> (r: Result<(), Error>)
        ensures
            match imported_funcs(old(self)@.types, imports.deep_view()) {
                Ok(funcs) => r is Ok && final(self)@ == (ContextView {
                    funcs: old(self)@.funcs + funcs,
                    ..old(self)@
                }),
                Err(e) => r == Err::<(), Error>(e),
            },
    {
        let mut i: usize = 0;
        let ghost all = imports.deep_view();
        let ghost mut added: Seq<ty::FuncView> = Seq::empty();
        assert(all.take(0) =~= Seq::empty());
        assert(old(self)@.funcs + Seq::empty() =~= old(self)@.funcs);
        while i < imports.len()
            invariant
                i <= imports.len(),
                all == imports.deep_view(),
                imported_funcs(old(self)@.types, all.take(i as int)) == Ok::<Seq<ty::FuncView>, Error>(added),
                self@ == (ContextView { funcs: old(self)@.funcs + added, ..old(self)@ }),
            decreases imports.len() - i,
        {
            assert(all.take(i + 1).drop_last() =~= all.take(i as int));
            assert(all.take(i + 1).last() == imports[i as int].deep_view());
            match &imports[i].desc {
                desc::Import::Func(index) => {
                    let at = index.0 as usize;
                    if at >= self.types.len() {
                        proof {
                            lemma_imported_funcs_fails(old(self)@.types, all, i + 1);
                        }
                        return Err(Error::IndexOutOfRange);
                    }
                    let ty = self.types[at];
                    proof {
                        lemma_func_views_push(self.funcs@, ty);
                    }
                    self.funcs.push(ty);
                    proof {
                        added = added.push(ty.deep_view());
                    }
                    assert(self@.funcs =~= old(self)@.funcs + added);
                },
                _ => {},
            }
            i = i + 1;
        }
        assert(all.take(imports.len() as int) =~= all);
        Ok(())
    }

    /// Adds the tables that `imports` import.
    pub fn use_imported_tables(&mut self, imports: &'a Vec<module::Import>)
        ensures
            final(self)@ == (ContextView {
                tables: old(self)@.tables + imported_tables(imports.deep_view()),
                ..old(self)@
            }),
    {
        let mut i: usize = 0;
        let ghost all = imports.deep_view();
        assert(all.take(0) =~= Seq::empty());
        assert(old(self)@.tables + Seq::empty() =~= old(self)@.tables);
        while i < imports.len()
            invariant
                i <= imports.len(),
                all == imports.deep_view(),
                self@ == (ContextView {
                    tables: old(self)@.tables + imported_tables(all.take(i as int)),
                    ..old(self)@
                }),
            decreases imports.len() - i,
        {
            assert(all.take(i + 1).drop_last() =~= all.take(i as int));
            assert(all.take(i + 1).last() == imports[i as int].deep_view());
            match &imports[i].desc {
                desc::Import::Table(ty) => {
                    proof {
                        lemma_values_push(self.tables@, ty);
                    }
                    self.tables.push(ty);
                    assert(self@.tables =~= old(self)@.tables + imported_tables(all.take(i + 1)));
                },
                _ => {},
            }
            i = i + 1;
        }
        assert(all.take(imports.len() as int) =~= all);
    }

    /// Adds the memories that `imports` import.
    pub fn use_imported_mems(&mut self, imports: &'a Vec<module::Import>)
        ensures
            final(self)@ == (ContextView {
                mems: old(self)@.mems + imported_mems(imports.deep_view()),
                ..old(self)@
            }),
    {
        let mut i: usize = 0;
        let ghost all = imports.deep_view();
        assert(all.take(0) =~= Seq::empty());
        assert(old(self)@.mems + Seq::empty() =~= old(self)@.mems);
        while i < imports.len()
            invariant
                i <= imports.len(),
                all == imports.deep_view(),
                self@ == (ContextView { mems: old(self)@.mems + imported_mems(all.take(i as int)), ..old(self)@ }),
            decreases imports.len() - i,
        {
            assert(all.take(i + 1).drop_last() =~= all.take(i as int));
            assert(all.take(i + 1).last() == imports[i as int].deep_view());
            match &imports[i].desc {
                desc::Import::Mem(ty) => {
                    proof {
                        lemma_values_push(self.mems@, ty);
                    }
                    self.mems.push(ty);
                    assert(self@.mems =~= old(self)@.mems + imported_mems(all.take(i + 1)));
                },
                _ => {},
            }
            i = i + 1;
        }
        assert(all.take(imports.len() as int) =~= all);
    }

    /// Adds the globals that `imports` import.  They must be the first globals
    /// to be added.
    pub fn use_imported_globals(&mut self, imports: &'a Vec<module::Import>)
        ensures
            final(self)@ == (ContextView {
                globals: old(self)@.globals + imported_globals(imports.deep_view()),
                imported_globals: final(self)@.globals.len(),
                ..old(self)@
            }),
    {
        let mut i: usize = 0;
        let ghost all = imports.deep_view();
        assert(all.take(0) =~= Seq::empty());
        assert(old(self)@.globals + Seq::empty() =~= old(self)@.globals);
        while i < imports.len()
            invariant
                i <= imports.len(),
                all == imports.deep_view(),
                self@ == (ContextView {
                    globals: old(self)@.globals + imported_globals(all.take(i as int)),
                    ..old(self)@
                }),
            decreases imports.len() - i,
        {
            assert(all.take(i + 1).drop_last() =~= all.take(i as int));
            assert(all.take(i + 1).last() == imports[i as int].deep_view());
            match &imports[i].desc {
                desc::Import::Global(ty) => {
                    proof {
                        lemma_values_push(self.globals@, ty);
                    }
                    self.globals.push(ty);
                    assert(self@.globals =~= old(self)@.globals + imported_globals(all.take(i + 1)));
                },
                _ => {},
            }
            i = i + 1;
        }
        assert(all.take(imports.len() as int) =~= all);
        self.imported_globals = self.globals.len();
    }

    /// Adds the functions `funcs`.  Fails at the first whose type index refers
    /// to no type.
    pub fn use_funcs(&mut self, funcs: &'a Vec<module::Func>) -> (r: Result<(), Error>)
        ensures
            match func_types(old(self)@.types, funcs.deep_view()) {
                Ok(types) => r is Ok && final(self)@ == (ContextView {
                    funcs: old(self)@.funcs + types,
                    ..old(self)@
                }),
                Err(e) => r == Err::<(), Error>(e),
            },
    {
        let mut i: usize = 0;
        let ghost all = funcs.deep_view();
        let ghost mut added: Seq<ty::FuncView> = Seq::empty();
        assert(all.take(0) =~= Seq::empty());
        assert(old(self)@.funcs + Seq::empty() =~= old(self)@.funcs);
        while i < funcs.len()
            invariant
                i <= funcs.len(),
                all == funcs.deep_view(),
                func_types(old(self)@.types, all.take(i as int)) == Ok::<Seq<ty::FuncView>, Error>(added),
                self@ == (ContextView { funcs: old(self)@.funcs + added, ..old(self)@ }),
            decreases funcs.len() - i,
        {
            assert(all.take(i + 1).drop_last() =~= all.take(i as int));
            assert(all.take(i + 1).last() == funcs[i as int].deep_view());
            let at = funcs[i].ty.0 as usize;
            if at >= self.types.len() {
                proof {
                    lemma_func_types_fails(old(self)@.types, all, i + 1);
                }
                return Err(Error::IndexOutOfRange);
            }
            let ty = self.types[at];
            proof {
                lemma_func_views_push(self.funcs@, ty);
            }
            self.funcs.push(ty);
            proof {
                added = added.push(ty.deep_view());
            }
            assert(self@.funcs =~= old(self)@.funcs + added);
            i = i + 1;
        }
        assert(all.take(funcs.len() as int) =~= all);
        Ok(())
    }

    /// Adds the tables `tables`.
    pub fn use_tables(&mut self, tables: &'a Vec<module::Table>)
        ensures
            final(self)@ == (ContextView {
                tables: old(self)@.tables + Seq::new(tables.len() as nat, |i: int| tables[i].ty),
                ..old(self)@
            }),
    {
        let mut i: usize = 0;
        while i < tables.len()
            invariant
                i <= tables.len(),
                self@ == (ContextView {
                    tables: old(self)@.tables + Seq::new(i as nat, |k: int| tables[k].ty),
                    ..old(self)@
                }),
            decreases tables.len() - i,
        {
            proof {
                lemma_values_push(self.tables@, &tables[i as int].ty);
            }
            self.tables.push(&tables[i].ty);
            i = i + 1;
            assert(self@.tables =~= old(self)@.tables + Seq::new(i as nat, |k: int| tables[k].ty));
        }
        assert(old(self)@.tables + Seq::new(0 as nat, |k: int| tables[k].ty) =~= old(self)@.tables);
    }

    /// Adds the memories `mems`.
    pub fn use_mems(&mut self, mems: &'a Vec<module::Mem>)
        ensures
            final(self)@ == (ContextView {
                mems: old(self)@.mems + Seq::new(mems.len() as nat, |i: int| mems[i].ty),
                ..old(self)@
            }),
    {
        let mut i: usize = 0;
        while i < mems.len()
            invariant
                i <= mems.len(),
                self@ == (ContextView {
                    mems: old(self)@.mems + Seq::new(i as nat, |k: int| mems[k].ty),
                    ..old(self)@
                }),
            decreases mems.len() - i,
        {
            proof {
                lemma_values_push(self.mems@, &mems[i as int].ty);
            }
            self.mems.push(&mems[i].ty);
            i = i + 1;
            assert(self@.mems =~= old(self)@.mems + Seq::new(i as nat, |k: int| mems[k].ty));
        }
        assert(old(self)@.mems + Seq::new(0 as nat, |k: int| mems[k].ty) =~= old(self)@.mems);
    }

    /// Adds the globals `globals`.
    pub fn use_globals(&mut self, globals: &'a Vec<module::Global>)
        ensures
            final(self)@ == (ContextView {
                globals: old(self)@.globals + Seq::new(globals.len() as nat, |i: int| globals[i].ty),
                ..old(self)@
            }),
    {
        let mut i: usize = 0;
        while i < globals.len()
            invariant
                i <= globals.len(),
                self@ == (ContextView {
                    globals: old(self)@.globals + Seq::new(i as nat, |k: int| globals[k].ty),
                    ..old(self)@
                }),
            decreases globals.len() - i,
        {
            proof {
                lemma_values_push(self.globals@, &globals[i as int].ty);
            }
            self.globals.push(&globals[i].ty);
            i = i + 1;
            assert(self@.globals =~= old(self)@.globals + Seq::new(i as nat, |k: int| globals[k].ty));
        }
        assert(old(self)@.globals + Seq::new(0 as nat, |k: int| globals[k].ty) =~= old(self)@.globals);
    }
}

} // verus!
