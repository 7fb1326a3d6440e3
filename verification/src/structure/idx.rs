//! The indices by which a module refers to its parts.
//!
//! There is one type per index space, so that an index into one space cannot
//! be used in another.

use vstd::prelude::*;

verus! {

/// An index into the types of a module.
#[derive(Debug, Clone, Copy, PartialEq, Eq, Structural)]
pub struct Type(pub u32);

impl DeepView for Type {
    type V = Type;

    open spec fn deep_view(&self) -> Type {
        *self
    }
}

/// An index into the functions of a module, the imported ones first.
#[derive(Debug, Clone, Copy, PartialEq, Eq, Structural)]
pub struct Func(pub u32);

impl DeepView for Func {
    type V = Func;

    open spec fn deep_view(&self) -> Func {
        *self
    }
}

/// An index into the tables of a module, the imported ones first.
#[derive(Debug, Clone, Copy, PartialEq, Eq, Structural)]
pub struct Table(pub u32);

impl DeepView for Table {
    type V = Table;

    open spec fn deep_view(&self) -> Table {
        *self
    }
}

/// An index into the memories of a module, the imported ones first.
#[derive(Debug, Clone, Copy, PartialEq, Eq, Structural)]
pub struct Mem(pub u32);

impl DeepView for Mem {
    type V = Mem;

    open spec fn deep_view(&self) -> Mem {
        *self
    }
}

/// An index into the globals of a module, the imported ones first.
#[derive(Debug, Clone, Copy, PartialEq, Eq, Structural)]
pub struct Global(pub u32);

impl DeepView for Global {
    type V = Global;

    open spec fn deep_view(&self) -> Global {
        *self
    }
}

/// An index into the locals of a function, its parameters first.
#[derive(Debug, Clone, Copy, PartialEq, Eq, Structural)]
pub struct Local(pub u32);

impl DeepView for Local {
    type V = Local;

    open spec fn deep_view(&self) -> Local {
        *self
    }
}

/// The number of enclosing blocks to leave, less one.
#[derive(Debug, Clone, Copy, PartialEq, Eq, Structural)]
pub struct Label(pub u32);

impl DeepView for Label {
    type V = Label;

    open spec fn deep_view(&self) -> Label {
        *self
    }
}

} // verus!
