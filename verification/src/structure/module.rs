//! A module and its parts.

use vstd::prelude::*;
use crate::structure::idx;
use crate::structure::instr::{ConstExpr, Expr, InstrView};
use crate::structure::ty;

pub mod desc;

verus! {

/// A WebAssembly module.
#[derive(Debug, PartialEq)]
pub struct Module {
    pub types: Vec<ty::Func>,
    pub funcs: Vec<Func>,
    pub tables: Vec<Table>,
    pub mems: Vec<Mem>,
    pub globals: Vec<Global>,
    pub elem: Vec<Elem>,
    pub data: Vec<Data>,
    pub start: Option<Start>,
    pub imports: Vec<Import>,
    pub exports: Vec<Export>,
}

/// A function: its type, the types of its locals, and its body.
#[derive(Debug, PartialEq)]
pub struct Func {
    pub ty: idx::Type,
    pub locals: Vec<ty::Val>,
    pub body: Expr,
}

/// A table.
#[derive(Debug, Clone, Copy, PartialEq, Eq, Structural)]
pub struct Table {
    pub ty: ty::Table,
}

/// A memory.
#[derive(Debug, Clone, Copy, PartialEq, Eq, Structural)]
pub struct Mem {
    pub ty: ty::Mem,
}

/// A global: its type, and the constant expression that gives its first
/// value.
#[derive(Debug, PartialEq)]
pub struct Global {
    pub ty: ty::Global,
    pub init: ConstExpr,
}

/// A segment of a table: the functions `init`, placed from `offset` on.
#[derive(Debug, PartialEq)]
pub struct Elem {
    pub table: idx::Table,
    pub offset: ConstExpr,
    pub init: Vec<idx::Func>,
}

/// A segment of a memory: the bytes `init`, placed from `offset` on.
#[derive(Debug, PartialEq)]
pub struct Data {
    pub mem: idx::Mem,
    pub offset: ConstExpr,
    pub init: Vec<u8>,
}

/// The function that runs when the module is instantiated.
#[derive(Debug, Clone, Copy, PartialEq, Eq, Structural)]
pub struct Start {
    pub func: idx::Func,
}

/// Something that the module takes from another module.
#[derive(Debug, PartialEq)]
pub struct Import {
    pub module: String,
    pub name: String,
    pub desc: desc::Import,
}

/// Something that the module offers to other modules.
#[derive(Debug, PartialEq)]
pub struct Export {
    pub name: String,
    pub desc: desc::Export,
}

/// A function as a mathematical value.
pub struct FuncView {
    pub ty: idx::Type,
    pub locals: Seq<ty::Val>,
    pub body: Seq<InstrView>,
}

/// A global as a mathematical value.
pub struct GlobalView {
    pub ty: ty::Global,
    pub init: Seq<InstrView>,
}

/// A table segment as a mathematical value.
pub struct ElemView {
    pub table: idx::Table,
    pub offset: Seq<InstrView>,
    pub init: Seq<idx::Func>,
}

/// A memory segment as a mathematical value.
pub struct DataView {
    pub mem: idx::Mem,
    pub offset: Seq<InstrView>,
    pub init: Seq<u8>,
}

/// An import as a mathematical value.
pub struct ImportView {
    pub module: Seq<char>,
    pub name: Seq<char>,
    pub desc: desc::Import,
}

/// An export as a mathematical value.
pub struct ExportView {
    pub name: Seq<char>,
    pub desc: desc::Export,
}

/// A module as a mathematical value.
pub struct ModuleView {
    pub types: Seq<ty::FuncView>,
    pub funcs: Seq<FuncView>,
    pub tables: Seq<Table>,
    pub mems: Seq<Mem>,
    pub globals: Seq<GlobalView>,
    pub elem: Seq<ElemView>,
    pub data: Seq<DataView>,
    pub start: Option<Start>,
    pub imports: Seq<ImportView>,
    pub exports: Seq<ExportView>,
}

impl DeepView for Func {
    type V = FuncView;

    open spec fn deep_view(&self) -> FuncView {
        FuncView { ty: self.ty, locals: self.locals@, body: self.body.deep_view() }
    }
}

impl DeepView for Table {
    type V = Table;

    open spec fn deep_view(&self) -> Table {
        *self
    }
}

impl DeepView for Mem {
    type V = Mem;

    open spec fn deep_view(&self) -> Mem {
        *self
    }
}

impl DeepView for Global {
    type V = GlobalView;

    open spec fn deep_view(&self) -> GlobalView {
        GlobalView { ty: self.ty, init: self.init.deep_view() }
    }
}

impl DeepView for Elem {
    type V = ElemView;

    open spec fn deep_view(&self) -> ElemView {
        ElemView { table: self.table, offset: self.offset.deep_view(), init: self.init@ }
    }
}

impl DeepView for Data {
    type V = DataView;

    open spec fn deep_view(&self) -> DataView {
        DataView { mem: self.mem, offset: self.offset.deep_view(), init: self.init@ }
    }
}

impl DeepView for Start {
    type V = Start;

    open spec fn deep_view(&self) -> Start {
        *self
    }
}

impl DeepView for Import {
    type V = ImportView;

    open spec fn deep_view(&self) -> ImportView {
        ImportView { module: self.module@, name: self.name@, desc: self.desc }
    }
}

impl DeepView for Export {
    type V = ExportView;

    open spec fn deep_view(&self) -> ExportView {
        ExportView { name: self.name@, desc: self.desc }
    }
}

impl DeepView for Module {
    type V = ModuleView;

    open spec fn deep_view(&self) -> ModuleView {
        ModuleView {
            types: self.types.deep_view(),
            funcs: self.funcs.deep_view(),
            tables: self.tables.deep_view(),
            mems: self.mems.deep_view(),
            globals: self.globals.deep_view(),
            elem: self.elem.deep_view(),
            data: self.data.deep_view(),
            start: self.start,
            imports: self.imports.deep_view(),
            exports: self.exports.deep_view(),
        }
    }
}

/// The module without anything in it.
pub open spec fn empty_module() -> ModuleView {
    ModuleView {
        types: Seq::empty(),
        funcs: Seq::empty(),
        tables: Seq::empty(),
        mems: Seq::empty(),
        globals: Seq::empty(),
        elem: Seq::empty(),
        data: Seq::empty(),
        start: None,
        imports: Seq::empty(),
        exports: Seq::empty(),
    }
}

impl Default for Module {
    fn default() -> (r: Module)
        ensures
            r.deep_view() == empty_module(),
    {
        let r = Module {
            types: Vec::new(),
            funcs: Vec::new(),
            tables: Vec::new(),
            mems: Vec::new(),
            globals: Vec::new(),
            elem: Vec::new(),
            data: Vec::new(),
            start: None,
            imports: Vec::new(),
            exports: Vec::new(),
        };
        assert(r.types.deep_view() =~= Seq::empty());
        assert(r.funcs.deep_view() =~= Seq::empty());
        assert(r.tables.deep_view() =~= Seq::empty());
        assert(r.mems.deep_view() =~= Seq::empty());
        assert(r.globals.deep_view() =~= Seq::empty());
        assert(r.elem.deep_view() =~= Seq::empty());
        assert(r.data.deep_view() =~= Seq::empty());
        assert(r.imports.deep_view() =~= Seq::empty());
        assert(r.exports.deep_view() =~= Seq::empty());
        r
    }
}

} // verus!
