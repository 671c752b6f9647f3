//! What the commands of the settings window decide.

use vstd::prelude::*;

use crate::config::{AppConfig, AppConfigView};
use crate::error::{error_message, ClipTypeError};
use crate::state::{AppState, AppStatus};

verus! {

/// The text that a command returns for an error.
pub fn format_error(error: ClipTypeError) -> (r: String)
    ensures
        r@ == error_message(error),
{
    error.message()
}

/// The settings in force with ClipType enabled or disabled as `enabled`
/// asks.
pub fn settings_with_enabled(state: &AppState, enabled: bool) -> (r: AppConfig)
    ensures
        r@ == (AppConfigView { enabled, ..state.current_config() }),
{
    let mut config = state.config();
    config.enabled = enabled;
    config
}

/// Whether the tray's toggle enables ClipType: it does when ClipType is
/// disabled.
pub fn toggled_enabled(state: &AppState) -> (r: bool)
    ensures
        r == !state.current_config().enabled,
{
    !state.config.enabled
}

/// Puts settings in force once they were saved and the hotkey brought in
/// line with them, and returns the status to show (`accessibility_trusted`
/// is the answer of the system's accessibility check).
pub fn commit_settings(state: &mut AppState, config: AppConfig, accessibility_trusted: bool) -> (r:
    AppStatus)
    ensures
        *final(state) == old(state).with_config(config),
        (r.config@, r.permission, r.last_result, r.hotkey_registered) == final(state).status_of(
            accessibility_trusted,
        ),
{
    state.replace_config(config);
    state.status(accessibility_trusted)
}

} // verus!
