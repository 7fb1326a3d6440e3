//! Validation of types.

use vstd::prelude::*;
use crate::structure::ty;
use crate::validation::context::Context;
use crate::validation::error::Error;
use crate::validation::stacks::copy_types;
use crate::validation::Validate;

verus! {

/// The greatest size that limits allow: their maximum, or their minimum where
/// they have no maximum.
pub open spec fn range(lim: ty::Limits) -> u32 {
    match lim.max {
        Some(max) => max,
        None => lim.min,
    }
}

/// The rule for limits: the minimum is not above the maximum.
pub open spec fn limits_rule(lim: ty::Limits) -> Result<u32, Error> {
    if lim.min <= range(lim) {
        Ok(range(lim))
    } else {
        Err(Error::InvalidLimits)
    }
}

/// The rule for function types: at most one result.
pub open spec fn func_rule(func: ty::FuncView) -> Result<(), Error> {
    if func.results.len() <= 1 {
        Ok(())
    } else {
        Err(Error::TooManyResults)
    }
}

/// The rule for table types: valid limits.  Any `u32` is a size that a table
/// can have.
pub open spec fn table_rule(table: ty::Table) -> Result<(), Error> {
    match limits_rule(table.lim) {
        Ok(_) => Ok(()),
        Err(e) => Err(e),
    }
}

/// The most pages that a memory can have: 2 to the 16.
pub const MAX_PAGES: u32 = 65536;

/// The rule for memory types: valid limits that allow no more than
/// [`MAX_PAGES`] pages.
pub open spec fn mem_rule(mem: ty::Mem) -> Result<(), Error> {
    match limits_rule(mem.lim) {
        Ok(range) => if range <= MAX_PAGES {
            Ok(())
        } else {
            Err(Error::InvalidLimits)
        },
        Err(e) => Err(e),
    }
}

impl<'a> Validate<'a> for ty::Limits {
    type ValidationResult = u32;

    /// Checks the limits and gives the greatest size that they allow.
    fn validate(&'a self, ctx: &mut Context<'a>) -> (r: Result<u32, Error>)
        ensures
            *final(ctx) == *old(ctx),
            r == limits_rule(*self),
    {
        let min = self.min;
        let max = match self.max {
            Some(max) => max,
            None => self.min,
        };
        if !(min <= max) {
            return Err(Error::InvalidLimits);
        }
        Ok(max)
    }
}

impl<'a> Validate<'a> for ty::Func {
    type ValidationResult = ();

    /// Checks that the function type has at most one result.
    fn validate(&'a self, ctx: &mut Context<'a>) -> (r: Result<(), Error>)
        ensures
            *final(ctx) == *old(ctx),
            r == func_rule(self.deep_view()),
    {
        if !(self.results.len() <= 1) {
            return Err(Error::TooManyResults);
        }
        Ok(())
    }
}

impl<'a> Validate<'a> for ty::Table {
    type ValidationResult = ();

    /// Checks the limits of the table type.
    fn validate(&'a self, ctx: &mut Context<'a>) -> (r: Result<(), Error>)
        ensures
            *final(ctx) == *old(ctx),
            r == table_rule(*self),
    {
        match self.lim.validate(ctx) {
            Ok(_) => Ok(()),
            Err(e) => Err(e),
        }
    }
}

impl<'a> Validate<'a> for ty::Mem {
    type ValidationResult = ();

    /// Checks the limits of the memory type.
    fn validate(&'a self, ctx: &mut Context<'a>) -> (r: Result<(), Error>)
        ensures
            *final(ctx) == *old(ctx),
            r == mem_rule(*self),
    {
        let range = match self.lim.validate(ctx) {
            Ok(range) => range,
            Err(e) => {
                return Err(e);
            },
        };
        if !(range <= MAX_PAGES) {
            return Err(Error::InvalidLimits);
        }
        Ok(())
    }
}

impl<'a> Validate<'a> for ty::Global {
    type ValidationResult = ();

    /// Every global type is valid.
    fn validate(&'a self, ctx: &mut Context<'a>) -> (r: Result<(), Error>)
        ensures
            *final(ctx) == *old(ctx),
            r is Ok,
    {
        Ok(())
    }
}

impl<'a> Validate<'a> for ty::RetVal {
    type ValidationResult = Vec<ty::Val>;

    /// Every block type is valid; gives the types that the block leaves.
    fn validate(&'a self, ctx: &mut Context<'a>) -> (r: Result<Vec<ty::Val>, Error>)
        ensures
            *final(ctx) == *old(ctx),
            r is Ok,
            r->Ok_0@ == self.0@,
    {
        Ok(copy_types(self.0.as_slice()))
    }
}

} // verus!
