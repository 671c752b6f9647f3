//! The permission service.

use vstd::prelude::*;

use crate::error::Result;
use crate::platform::permission::permission_info;
use crate::platform::{self, Platform};

verus! {

/// Whether typing needs the accessibility permission, whether it is
/// granted, and whether the user can be asked for it.
#[derive(Debug, Clone, Copy, PartialEq, Eq, Structural)]
pub struct PermissionInfo {
    pub accessibility_required: bool,
    pub accessibility_granted: bool,
    pub can_prompt: bool,
}

/// Reports and requests the accessibility permission of the platform the
/// application was built for.
#[derive(Debug, Clone, Copy)]
pub struct PermissionService {
    pub target: Platform,
}

impl PermissionService {
    /// The service for `target`.
    pub fn new(target: Platform) -> (r: Self)
        ensures
            r.target == target,
    {
        PermissionService { target }
    }

    /// The permission status, where the accessibility check of the system
    /// answered `accessibility_trusted` (only macOS asks).
    pub fn info(&self, accessibility_trusted: bool) -> (r: PermissionInfo)
        ensures
            r == permission_info(self.target, accessibility_trusted),
    {
        platform::permission::info(self.target, accessibility_trusted)
    }

    /// The answer to a request for permission (see
    /// `platform::permission::request`).
    pub fn request(
        &self,
        settings_opened: std::result::Result<(), String>,
        accessibility_trusted: bool,
    ) -> (r: Result<PermissionInfo>)
        ensures
            self.target == Platform::MacOs ==> platform::permission::macos::request_outcome(
                r,
                settings_opened,
                accessibility_trusted,
            ),
            self.target != Platform::MacOs ==> r == Ok::<PermissionInfo, crate::error::ClipTypeError>(
                permission_info(self.target, accessibility_trusted),
            ),
    {
        platform::permission::request(self.target, settings_opened, accessibility_trusted)
    }
}

} // verus!
