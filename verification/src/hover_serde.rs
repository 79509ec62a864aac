//! The defaults of the numeric settings of the `hover` section, and the rules by which
//! they are left out when written.

use vstd::prelude::*;

verus! {

/// The value of a missing `hover.enumsLimit`.
#[verifier::allow_in_spec]
pub fn enums_limit() -> usize
    returns
        5usize,
{
    5
}

/// The value of a missing `hover.previewFields`.
#[verifier::allow_in_spec]
pub fn preview_fields() -> usize
    returns
        50usize,
{
    50
}

/// The value of a missing `hover.viewStringMax`.
#[verifier::allow_in_spec]
pub fn view_string_max() -> usize
    returns
        1000usize,
{
    1000
}

/// `hover.enumsLimit` is left out while it is 5.
#[verifier::allow_in_spec]
pub fn enum_limit_validate(ctx: &usize) -> bool
    returns
        *ctx == 5,
{
    *ctx == 5
}

/// `hover.previewFields` is left out while it is 50.
#[verifier::allow_in_spec]
pub fn preview_fields_validate(ctx: &usize) -> bool
    returns
        *ctx == 50,
{
    *ctx == 50
}

/// `hover.viewStringMax` is left out while it is 1000.
#[verifier::allow_in_spec]
pub fn view_string_max_validate(ctx: &usize) -> bool
    returns
        *ctx == 1000,
{
    *ctx == 1000
}

/// Law: a missing `enumsLimit`, `previewFields` or `viewStringMax` is read as the very
/// value that is left out when written.
pub proof fn law_defaults_are_left_out()
    ensures
        enum_limit_validate(&enums_limit()),
        preview_fields_validate(&preview_fields()),
        view_string_max_validate(&view_string_max()),
{
}

} // verus!
