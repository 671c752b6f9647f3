//! Simulated typing, per platform: the key events that type a text.

pub mod macos;
pub mod other;
pub mod windows;

use std::time::Duration;

use vstd::prelude::*;

use crate::error::{ClipTypeError, Result};
use crate::platform::Platform;

verus! {

/// The key events that type a text, in the form of the platform's input API.
#[derive(Debug, Clone, PartialEq, Eq)]
pub enum InputPlan {
    MacOs(Vec<macos::MacKeyEvent>),
    Windows(Vec<windows::WindowsKeyEvent>),
}

/// What typing `text` on `target` comes to: `r` is the plan of key events
/// or the error that stops typing before any key is pressed.
pub open spec fn typing_outcome(
    target: Platform,
    text: Seq<char>,
    delay: Duration,
    append_enter: bool,
    accessibility_trusted: bool,
    r: Result<InputPlan>,
) -> bool {
    match target {
        Platform::MacOs => if accessibility_trusted {
            r matches Ok(InputPlan::MacOs(events)) && events@ == macos::mac_events(
                text,
                delay,
                append_enter,
            )
        } else {
            r matches Err(ClipTypeError::Permission(m)) && m@ == macos::PERMISSION_REQUIRED@
        },
        Platform::Windows => r matches Ok(InputPlan::Windows(events)) && events@
            == windows::windows_events(text, delay, append_enter),
        Platform::Other => r matches Err(ClipTypeError::Platform(m)) && m@
            == other::INPUT_UNSUPPORTED@,
    }
}

/// The key events that type `text` on `target`, each character followed by
/// a pause of `delay`, and Enter at the end when `append_enter` holds.
/// `accessibility_trusted` is the answer of the system's accessibility check
/// (only macOS asks).
pub fn type_text(
    target: Platform,
    text: &str,
    delay: Duration,
    append_enter: bool,
    accessibility_trusted: bool,
) -> (r: Result<InputPlan>)
    ensures
        typing_outcome(target, text@, delay, append_enter, accessibility_trusted, r),
{
    match target {
        Platform::MacOs => match macos::type_text(text, delay, append_enter, accessibility_trusted) {
            Ok(events) => Ok(InputPlan::MacOs(events)),
            Err(e) => Err(e),
        },
        Platform::Windows => Ok(InputPlan::Windows(windows::type_text(text, delay, append_enter))),
        Platform::Other => match other::type_text(text, delay, append_enter) {
            Err(e) => Err(e),
            Ok(()) => Err(ClipTypeError::Platform(other::INPUT_UNSUPPORTED.to_owned())),
        },
    }
}

} // verus!
