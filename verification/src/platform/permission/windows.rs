//! Accessibility permission on Windows, where typing needs none.

use vstd::prelude::*;

use crate::error::{ClipTypeError, Result};
use crate::services::permission::PermissionInfo;

verus! {

/// The permission status: nothing is required and nothing can be asked.
pub fn info() -> (r: PermissionInfo)
    ensures
        r == (PermissionInfo {
            accessibility_required: false,
            accessibility_granted: true,
            can_prompt: false,
        }),
{
    PermissionInfo { accessibility_required: false, accessibility_granted: true, can_prompt: false }
}

/// The answer to a request for permission: the status, unchanged.
pub fn request() -> (r: Result<PermissionInfo>)
    ensures
        r == Ok::<PermissionInfo, ClipTypeError>(
            PermissionInfo {
                accessibility_required: false,
                accessibility_granted: true,
                can_prompt: false,
            },
        ),
{
    Ok(info())
}

} // verus!
