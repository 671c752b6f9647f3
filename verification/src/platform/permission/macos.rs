//! Accessibility permission on macOS, where typing needs it.

use vstd::prelude::*;

use crate::error::{ClipTypeError, Result};
use crate::services::permission::PermissionInfo;

verus! {

/// The permission status, where the accessibility check of the system
/// answered `accessibility_trusted`.
pub fn info(accessibility_trusted: bool) -> (r: PermissionInfo)
    ensures
        r == (PermissionInfo {
            accessibility_required: true,
            accessibility_granted: accessibility_trusted,
            can_prompt: true,
        }),
{
    PermissionInfo {
        accessibility_required: true,
        accessibility_granted: accessibility_trusted,
        can_prompt: true,
    }
}

/// What a request for permission answers: an error when the system
/// settings could not be opened, else the permission status.
pub open spec fn request_outcome(
    r: Result<PermissionInfo>,
    settings_opened: std::result::Result<(), String>,
    accessibility_trusted: bool,
) -> bool {
    match settings_opened {
        Ok(()) => r == Ok::<PermissionInfo, ClipTypeError>(
            PermissionInfo {
                accessibility_required: true,
                accessibility_granted: accessibility_trusted,
                can_prompt: true,
            },
        ),
        Err(e) => r matches Err(ClipTypeError::Platform(m)) && m@
            == "failed to open system settings: "@ + e@,
    }
}

/// The answer to a request for permission, once the accessibility prompt
/// was shown and the system settings were opened (`settings_opened`,
/// with the system's message on failure); `accessibility_trusted` is the
/// answer of the accessibility check made afterwards.
pub fn request(settings_opened: std::result::Result<(), String>, accessibility_trusted: bool) -> (r:
    Result<PermissionInfo>)
    ensures
        request_outcome(r, settings_opened, accessibility_trusted),
{
    match settings_opened {
        Ok(()) => Ok(info(accessibility_trusted)),
        Err(e) => {
            let mut m = "failed to open system settings: ".to_owned();
            m.append(e.as_str());
            Err(ClipTypeError::Platform(m))
        },
    }
}

} // verus!
