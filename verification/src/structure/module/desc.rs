//! What an import or an export is.

use vstd::prelude::*;
use crate::structure::idx;
use crate::structure::ty;

verus! {

/// What is imported: a function of a given type, or a table, a memory or a
/// global of a given type.
#[derive(Debug, Clone, Copy, PartialEq, Eq, Structural)]
pub enum Import {
    Func(idx::Type),
    Table(ty::Table),
    Mem(ty::Mem),
    Global(ty::Global),
}

/// What is exported: one of the module's functions, tables, memories or
/// globals.
#[derive(Debug, Clone, Copy, PartialEq, Eq, Structural)]
pub enum Export {
    Func(idx::Func),
    Table(idx::Table),
    Mem(idx::Mem),
    Global(idx::Global),
}

impl DeepView for Import {
    type V = Import;

    open spec fn deep_view(&self) -> Import {
        *self
    }
}

impl DeepView for Export {
    type V = Export;

    open spec fn deep_view(&self) -> Export {
        *self
    }
}

} // verus!
