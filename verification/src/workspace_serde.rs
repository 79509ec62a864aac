//! Defaults of the numeric settings of the `workspace` section.

use vstd::prelude::*;

verus! {

/// The value of a missing `workspace.maxPreload`, in files.
#[verifier::allow_in_spec]
pub fn max_preload() -> usize
    returns
        5000usize,
{
    5000
}

/// The value of a missing `workspace.preloadFileSize`, in KB.
#[verifier::allow_in_spec]
pub fn preload_file_size() -> usize
    returns
        500usize,
{
    500
}

/// `workspace.maxPreload` is left out while it holds its default.
#[verifier::allow_in_spec]
pub fn max_preload_validate(ctx: &usize) -> bool
    returns
        *ctx == 5000,
{
    *ctx == 5000
}

/// `workspace.preloadFileSize` is left out while it holds its default.
#[verifier::allow_in_spec]
pub fn preload_file_size_validate(ctx: &usize) -> bool
    returns
        *ctx == 500,
{
    *ctx == 500
}

/// Law: a missing `maxPreload` or `preloadFileSize` is read as the very value that is
/// left out when written.
pub proof fn law_defaults_are_left_out()
    ensures
        max_preload_validate(&max_preload()),
        preload_file_size_validate(&preload_file_size()),
{
}

} // verus!
