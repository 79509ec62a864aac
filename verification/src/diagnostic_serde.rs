//! Defaults of the numeric settings of the `diagnostics` section.

use vstd::prelude::*;

verus! {

/// The value of a missing `diagnostics.workspaceDelay`, in milliseconds.
#[verifier::allow_in_spec]
pub fn workspace_delay() -> usize
    returns
        3000usize,
{
    3000
}

/// The value of a missing `diagnostics.workspaceRate`, in percent.
#[verifier::allow_in_spec]
pub fn workspace_rate() -> usize
    returns
        100usize,
{
    100
}

/// `diagnostics.workspaceDelay` is left out while it holds its default.
#[verifier::allow_in_spec]
pub fn three_minute_validate(ctx: &usize) -> bool
    returns
        *ctx == 3000,
{
    *ctx == 3000
}

/// `diagnostics.workspaceRate` is left out while it holds its default.
#[verifier::allow_in_spec]
pub fn full_percent_validate(ctx: &usize) -> bool
    returns
        *ctx == 100,
{
    *ctx == 100
}

/// Law: a missing workspace delay or rate is read as the very value that is left out
/// when written.
pub proof fn law_defaults_are_left_out()
    ensures
        three_minute_validate(&workspace_delay()),
        full_percent_validate(&workspace_rate()),
{
}

} // verus!
