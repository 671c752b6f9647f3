//! Accessibility permission, per platform.

pub mod macos;
pub mod other;
pub mod windows;

use vstd::prelude::*;

use crate::error::{ClipTypeError, Result};
use crate::platform::Platform;
use crate::services::permission::PermissionInfo;

verus! {

/// What the permission status is on `target`, where the accessibility
/// check of the system answered `accessibility_trusted` (only macOS asks).
pub open spec fn permission_info(target: Platform, accessibility_trusted: bool) -> PermissionInfo {
    match target {
        Platform::MacOs => PermissionInfo {
            accessibility_required: true,
            accessibility_granted: accessibility_trusted,
            can_prompt: true,
        },
        Platform::Windows => PermissionInfo {
            accessibility_required: false,
            accessibility_granted: true,
            can_prompt: false,
        },
        Platform::Other => PermissionInfo {
            accessibility_required: false,
            accessibility_granted: false,
            can_prompt: false,
        },
    }
}

/// The permission status on `target`.
pub fn info(target: Platform, accessibility_trusted: bool) -> (r: PermissionInfo)
    ensures
        r == permission_info(target, accessibility_trusted),
{
    match target {
        Platform::MacOs => macos::info(accessibility_trusted),
        Platform::Windows => windows::info(),
        Platform::Other => other::info(),
    }
}

/// The answer to a request for permission on `target`.
///
/// On macOS the request opens the accessibility pane of the system
/// settings; `settings_opened` tells how that went (its error is the
/// system's message), and `accessibility_trusted` is the answer of the
/// accessibility check made afterwards. Elsewhere nothing is opened and
/// `settings_opened` is not read.
pub fn request(
    target: Platform,
    settings_opened: std::result::Result<(), String>,
    accessibility_trusted: bool,
) -> (r: Result<PermissionInfo>)
    ensures
        target == Platform::MacOs ==> macos::request_outcome(r, settings_opened, accessibility_trusted),
        target != Platform::MacOs ==> r == Ok::<PermissionInfo, ClipTypeError>(
            permission_info(target, accessibility_trusted),
        ),
{
    match target {
        Platform::MacOs => macos::request(settings_opened, accessibility_trusted),
        Platform::Windows => windows::request(),
        Platform::Other => other::request(),
    }
}

} // verus!
