//! The rules by which settings are left out of a written `.luarc.json` and the values
//! that a missing setting takes when one is read.

use vstd::prelude::*;

verus! {

/// A flag that is on by default is left out while it is on.
#[verifier::allow_in_spec]
pub fn enabled(ctx: &bool) -> bool
    returns
        *ctx,
{
    *ctx
}

/// A flag that is off by default is left out while it is off.
#[verifier::allow_in_spec]
pub fn disabled(ctx: &bool) -> bool
    returns
        !*ctx,
{
    !*ctx
}

/// A count that is zero by default is left out while it is zero.
#[verifier::allow_in_spec]
pub fn zero(ctx: &usize) -> bool
    returns
        *ctx == 0,
{
    *ctx == 0
}

/// The value of a missing flag that is on by default.
#[verifier::allow_in_spec]
pub fn default_true() -> bool
    returns
        true,
{
    true
}

} // verus!
