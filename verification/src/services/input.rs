//! The input simulation service.

use vstd::prelude::*;

use crate::config::TypingSettings;
use crate::error::Result;
use crate::platform::input::{typing_outcome, InputPlan};
use crate::platform::{self, Platform};

verus! {

/// Types text through simulated key presses on the platform the
/// application was built for.
#[derive(Debug, Clone, Copy)]
pub struct InputSimulationService {
    pub target: Platform,
}

impl InputSimulationService {
    /// The service for `target`.
    pub fn new(target: Platform) -> (r: Self)
        ensures
            r.target == target,
    {
        InputSimulationService { target }
    }

    /// The key events that type `text` with `settings`
    /// (see `platform::input::type_text`).
    pub fn type_text(&self, text: &str, settings: TypingSettings, accessibility_trusted: bool) -> (r:
        Result<InputPlan>)
        ensures
            typing_outcome(
                self.target,
                text@,
                settings.delay,
                settings.append_enter,
                accessibility_trusted,
                r,
            ),
    {
        platform::input::type_text(
            self.target,
            text,
            settings.delay,
            settings.append_enter,
            accessibility_trusted,
        )
    }
}

} // verus!
