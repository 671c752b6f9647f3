//! Simulated typing on the platforms where ClipType cannot type.

use std::time::Duration;

use vstd::prelude::*;

use crate::error::{ClipTypeError, Result};

verus! {

/// Why typing fails here.
pub const INPUT_UNSUPPORTED: &'static str =
    "input simulation is currently implemented for macOS and Windows";

/// Typing is not available: always the platform error.
pub fn type_text(_text: &str, _delay: Duration, _append_enter: bool) -> (r: Result<()>)
    ensures
        r matches Err(ClipTypeError::Platform(m)) && m@ == INPUT_UNSUPPORTED@,
{
    Err(ClipTypeError::Platform(INPUT_UNSUPPORTED.to_owned()))
}

} // verus!
