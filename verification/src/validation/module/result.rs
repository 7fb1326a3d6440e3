//! What a valid module takes and offers.

use vstd::prelude::*;
use crate::structure::ty;

verus! {

/// The types of what a valid module imports and exports, in the order of the
/// imports and of the exports.
#[derive(Debug)]
pub struct Module<'a> {
    pub imports: Vec<External<'a>>,
    pub exports: Vec<External<'a>>,
}

/// The type of something that a module imports or exports.
#[derive(Debug)]
pub enum External<'a> {
    Func(&'a ty::Func),
    Table(&'a ty::Table),
    Mem(&'a ty::Mem),
    Global(&'a ty::Global),
}

/// The type of an import or export as a mathematical value.
pub enum ExternalView {
    Func(ty::FuncView),
    Table(ty::Table),
    Mem(ty::Mem),
    Global(ty::Global),
}

impl<'a> View for External<'a> {
    type V = ExternalView;

    open spec fn view(&self) -> ExternalView {
        match self {
            External::Func(ty) => ExternalView::Func(ty.deep_view()),
            External::Table(ty) => ExternalView::Table(**ty),
            External::Mem(ty) => ExternalView::Mem(**ty),
            External::Global(ty) => ExternalView::Global(**ty),
        }
    }
}

/// The views of the externals `externals`.
pub open spec fn external_views(externals: Seq<External>) -> Seq<ExternalView> {
    Seq::new(externals.len(), |i: int| externals[i]@)
}

} // verus!
