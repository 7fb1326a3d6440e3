//! The types of a module's parts.

use vstd::prelude::*;

verus! {

/// The size of a table or a memory: at least `min`, and at most `max` where
/// there is one.
#[derive(Debug, Clone, Copy, PartialEq, Eq, Structural)]
pub struct Limits {
    pub min: u32,
    pub max: Option<u32>,
}

/// The type of a value.
#[derive(Debug, Clone, Copy, PartialEq, Eq, Structural)]
pub enum Val {
    I32,
    I64,
    F32,
    F64,
}

/// The type of a table's elements.
#[derive(Debug, Clone, Copy, PartialEq, Eq, Structural)]
pub enum Elem {
    FuncRef,
}

/// The type of what a block leaves on the stack: nothing, or one value.
#[derive(Debug, PartialEq)]
pub struct RetVal(pub Vec<Val>);

/// The type of a function: what it takes and what it returns.
#[derive(Debug, PartialEq)]
pub struct Func {
    pub params: Vec<Val>,
    pub results: Vec<Val>,
}

/// What a function type is made of, as sequences.
pub struct FuncView {
    pub params: Seq<Val>,
    pub results: Seq<Val>,
}

/// The type of a table.
#[derive(Debug, Clone, Copy, PartialEq, Eq, Structural)]
pub struct Table {
    pub lim: Limits,
    pub elem: Elem,
}

/// The type of a memory, its limits counted in pages.
#[derive(Debug, Clone, Copy, PartialEq, Eq, Structural)]
pub struct Mem {
    pub lim: Limits,
}

/// Whether a global can be assigned to.
#[derive(Debug, Clone, Copy, PartialEq, Eq, Structural)]
pub enum Mut {
    Const,
    Var,
}

/// The type of a global.
#[derive(Debug, Clone, Copy, PartialEq, Eq, Structural)]
pub struct Global {
    pub mt: Mut,
    pub val: Val,
}

impl DeepView for Limits {
    type V = Limits;

    open spec fn deep_view(&self) -> Limits {
        *self
    }
}

impl DeepView for Val {
    type V = Val;

    open spec fn deep_view(&self) -> Val {
        *self
    }
}

impl DeepView for Elem {
    type V = Elem;

    open spec fn deep_view(&self) -> Elem {
        *self
    }
}

impl DeepView for Table {
    type V = Table;

    open spec fn deep_view(&self) -> Table {
        *self
    }
}

impl DeepView for Mem {
    type V = Mem;

    open spec fn deep_view(&self) -> Mem {
        *self
    }
}

impl DeepView for Mut {
    type V = Mut;

    open spec fn deep_view(&self) -> Mut {
        *self
    }
}

impl DeepView for Global {
    type V = Global;

    open spec fn deep_view(&self) -> Global {
        *self
    }
}

impl DeepView for RetVal {
    type V = Seq<Val>;

    open spec fn deep_view(&self) -> Seq<Val> {
        self.0@
    }
}

impl DeepView for Func {
    type V = FuncView;

    open spec fn deep_view(&self) -> FuncView {
        FuncView { params: self.params@, results: self.results@ }
    }
}

} // verus!
