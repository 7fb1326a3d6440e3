//! Validation of indices.
//!
//! An index is valid if it refers to something in the context, and validating
//! it gives the type of what it refers to.

use vstd::prelude::*;
use crate::structure::idx;
use crate::structure::ty;
use crate::validation::context::Context;
use crate::validation::error::Error;
use crate::validation::stacks::{copy_types, StacksView};
use crate::validation::Validate;

verus! {

/// The element of `s` that the index `i` refers to.
pub open spec fn lookup<T>(s: Seq<T>, i: u32) -> Result<T, Error> {
    if i < s.len() {
        Ok(s[i as int])
    } else {
        Err(Error::IndexOutOfRange)
    }
}

/// The types that a branch to the label `label` expects: those of the frame
/// that many frames below the top.  The lowest frame has no label.
pub open spec fn label_types(stacks: StacksView, label: idx::Label) -> Result<Seq<ty::Val>, Error> {
    if label.0 + 1 < stacks.frames.len() {
        Ok(stacks.frames[stacks.frames.len() - label.0 - 1].label)
    } else {
        Err(Error::IndexOutOfRange)
    }
}

impl<'a> Validate<'a> for idx::Type {
    type ValidationResult = &'a ty::Func;

    /// The type that the index refers to.
    fn validate(&'a self, ctx: &mut Context<'a>) -> (r: Result<&'a ty::Func, Error>)
        ensures
            *final(ctx) == *old(ctx),
            match lookup(old(ctx)@.types, self.0) {
                Ok(found) => r is Ok && r->Ok_0.deep_view() == found,
                Err(e) => r is Err && r->Err_0 == e,
            },
    {
        let index = self.0 as usize;
        if index >= ctx.types.len() {
            return Err(Error::IndexOutOfRange);
        }
        Ok(ctx.types[index])
    }
}

impl<'a> Validate<'a> for idx::Func {
    type ValidationResult = &'a ty::Func;

    /// The type that the index refers to.
    fn validate(&'a self, ctx: &mut Context<'a>) -> (r: Result<&'a ty::Func, Error>)
        ensures
            *final(ctx) == *old(ctx),
            match lookup(old(ctx)@.funcs, self.0) {
                Ok(found) => r is Ok && r->Ok_0.deep_view() == found,
                Err(e) => r is Err && r->Err_0 == e,
            },
    {
        let index = self.0 as usize;
        if index >= ctx.funcs.len() {
            return Err(Error::IndexOutOfRange);
        }
        Ok(ctx.funcs[index])
    }
}

impl<'a> Validate<'a> for idx::Table {
    type ValidationResult = &'a ty::Table;

    /// The type that the index refers to.
    fn validate(&'a self, ctx: &mut Context<'a>) -> (r: Result<&'a ty::Table, Error>)
        ensures
            *final(ctx) == *old(ctx),
            match lookup(old(ctx)@.tables, self.0) {
                Ok(found) => r is Ok && *r->Ok_0 == found,
                Err(e) => r is Err && r->Err_0 == e,
            },
    {
        let index = self.0 as usize;
        if index >= ctx.tables.len() {
            return Err(Error::IndexOutOfRange);
        }
        Ok(ctx.tables[index])
    }
}

impl<'a> Validate<'a> for idx::Mem {
    type ValidationResult = &'a ty::Mem;

    /// The type that the index refers to.
    fn validate(&'a self, ctx: &mut Context<'a>) -> (r: Result<&'a ty::Mem, Error>)
        ensures
            *final(ctx) == *old(ctx),
            match lookup(old(ctx)@.mems, self.0) {
                Ok(found) => r is Ok && *r->Ok_0 == found,
                Err(e) => r is Err && r->Err_0 == e,
            },
    {
        let index = self.0 as usize;
        if index >= ctx.mems.len() {
            return Err(Error::IndexOutOfRange);
        }
        Ok(ctx.mems[index])
    }
}

impl<'a> Validate<'a> for idx::Global {
    type ValidationResult = &'a ty::Global;

    /// The type that the index refers to.
    fn validate(&'a self, ctx: &mut Context<'a>) -> (r: Result<&'a ty::Global, Error>)
        ensures
            *final(ctx) == *old(ctx),
            match lookup(old(ctx)@.globals, self.0) {
                Ok(found) => r is Ok && *r->Ok_0 == found,
                Err(e) => r is Err && r->Err_0 == e,
            },
    {
        let index = self.0 as usize;
        if index >= ctx.globals.len() {
            return Err(Error::IndexOutOfRange);
        }
        Ok(ctx.globals[index])
    }
}

impl<'a> Validate<'a> for idx::Local {
    type ValidationResult = ty::Val;

    /// The type of the local that the index refers to.
    fn validate(&'a self, ctx: &mut Context<'a>) -> (r: Result<ty::Val, Error>)
        ensures
            *final(ctx) == *old(ctx),
            r == lookup(old(ctx)@.locals, self.0),
    {
        let index = self.0 as usize;
        if index >= ctx.locals.len() {
            return Err(Error::IndexOutOfRange);
        }
        Ok(ctx.locals[index])
    }
}

impl<'a> Validate<'a> for idx::Label {
    type ValidationResult = Vec<ty::Val>;

    /// The types that a branch to the label expects.
    fn validate(&'a self, ctx: &mut Context<'a>) -> (r: Result<Vec<ty::Val>, Error>)
        ensures
            *final(ctx) == *old(ctx),
            match label_types(old(ctx)@.stacks, *self) {
                Ok(types) => r is Ok && r->Ok_0@ == types,
                Err(e) => r is Err && r->Err_0 == e,
            },
    {
        let index = self.0 as usize;
        let depth = ctx.stacks.frames.len();
        if depth == 0 || index >= depth - 1 {
            return Err(Error::IndexOutOfRange);
        }
        Ok(copy_types(ctx.stacks.frames[depth - index - 1].label.as_slice()))
    }
}

} // verus!
