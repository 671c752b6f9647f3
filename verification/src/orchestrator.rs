//! The flow of typing the clipboard, as decisions taken between the steps
//! that the desktop shell performs.
//!
//! The shell starts with `start_type_clipboard`; on `ReadClipboard` it reads
//! the clipboard and hands the text to `clipboard_read`; on `Type` it sends
//! the key events of the plan and hands the outcome to `typing_done`. Every
//! path ends in one `ExecutionResult`, recorded as the last result.

use vstd::prelude::*;

use crate::config::{millis_duration, TypingSettings};
use crate::error::{error_message, ClipTypeError, Result};
use crate::platform::input::macos::PERMISSION_REQUIRED;
use crate::platform::input::other::INPUT_UNSUPPORTED;
use crate::platform::input::{typing_outcome, InputPlan};
use crate::platform::permission::permission_info;
use crate::platform::Platform;
use crate::state::{is_skip, is_success, AppState, ExecutionResult};

verus! {

/// Why nothing is typed while ClipType is disabled.
pub const DISABLED: &'static str = "ClipType is disabled";

/// Why nothing is typed when the clipboard holds no text.
pub const CLIPBOARD_EMPTY: &'static str = "clipboard text is empty";

/// What the shell is to do next.
#[derive(Debug)]
pub enum TypeClipboardAction {
    /// Read the text on the clipboard and hand it to `clipboard_read` with
    /// these settings.
    ReadClipboard(TypingSettings),
    /// Send these key events, then hand the outcome to `typing_done` with
    /// the number of characters typed.
    Type(InputPlan, usize),
    /// The request ended with this result, now recorded.
    Done(ExecutionResult),
}

/// Why typing is refused before any key is pressed on `target`, where the
/// accessibility check answered `accessibility_trusted`.
pub open spec fn typing_refusal(target: Platform, accessibility_trusted: bool) -> Option<Seq<char>> {
    match target {
        Platform::MacOs => if accessibility_trusted {
            None
        } else {
            Some("permission error: "@ + PERMISSION_REQUIRED@)
        },
        Platform::Windows => None,
        Platform::Other => Some("platform error: "@ + INPUT_UNSUPPORTED@),
    }
}

/// `state` ended the request with `r`: it is recorded as the last result
/// and nothing else changed.
pub open spec fn ended(old_state: AppState, new_state: AppState, r: ExecutionResult) -> bool {
    new_state == old_state.recording(r)
}

/// Records how a request to type the clipboard ended: the result itself, or
/// a skip carrying the error's message.
pub fn record_outcome(state: &mut AppState, outcome: Result<ExecutionResult>) -> (r: ExecutionResult)
    ensures
        match outcome {
            Ok(result) => r == result,
            Err(e) => is_skip(r, error_message(e)),
        },
        ended(*old(state), *final(state), r),
{
    let result = match outcome {
        Ok(result) => result,
        Err(error) => ExecutionResult::skipped(error.message()),
    };
    state.set_last_result(result.duplicate());
    result
}

/// The first decision: nothing is typed while ClipType is disabled, nor on
/// macOS without the accessibility permission (`accessibility_trusted` is
/// the system's answer); otherwise the clipboard is to be read.
pub fn start_type_clipboard(state: &mut AppState, accessibility_trusted: bool) -> (r:
    TypeClipboardAction)
    ensures
        !old(state).current_config().enabled ==> (r matches TypeClipboardAction::Done(res)
            && is_skip(res, DISABLED@) && ended(*old(state), *final(state), res)),
        old(state).current_config().enabled && permission_info(
            old(state).permission_service.target,
            accessibility_trusted,
        ).accessibility_required && !permission_info(
            old(state).permission_service.target,
            accessibility_trusted,
        ).accessibility_granted ==> (r matches TypeClipboardAction::Done(res) && is_skip(
            res,
            "permission error: "@ + PERMISSION_REQUIRED@,
        ) && ended(*old(state), *final(state), res)),
        old(state).current_config().enabled && !(permission_info(
            old(state).permission_service.target,
            accessibility_trusted,
        ).accessibility_required && !permission_info(
            old(state).permission_service.target,
            accessibility_trusted,
        ).accessibility_granted) ==> (r matches TypeClipboardAction::ReadClipboard(settings)
            && settings.delay == millis_duration(old(state).current_config().input_delay_ms)
            && settings.append_enter == old(state).current_config().append_enter && *final(state)
            == *old(state)),
{
    let config = state.config();
    if !config.enabled {
        return TypeClipboardAction::Done(
            record_outcome(state, Ok(ExecutionResult::skipped(DISABLED.to_owned()))),
        );
    }
    let permission = state.permission_service.info(accessibility_trusted);
    if permission.accessibility_required && !permission.accessibility_granted {
        let error = ClipTypeError::Permission(PERMISSION_REQUIRED.to_owned());
        return TypeClipboardAction::Done(record_outcome(state, Err(error)));
    }
    TypeClipboardAction::ReadClipboard(config.typing_settings())
}

/// The decision once the clipboard was read (`clipboard`: its text or the
/// error of reading it): nothing is typed on an error or an empty text, nor
/// when the platform refuses; otherwise the key events that type the text
/// are to be sent.
pub fn clipboard_read(
    state: &mut AppState,
    settings: TypingSettings,
    clipboard: Result<String>,
    accessibility_trusted: bool,
) -> (r: TypeClipboardAction)
    ensures
        match clipboard {
            Err(e) => r matches TypeClipboardAction::Done(res) && is_skip(res, error_message(e))
                && ended(*old(state), *final(state), res),
            Ok(text) => if text@.len() == 0 {
                r matches TypeClipboardAction::Done(res) && is_skip(res, CLIPBOARD_EMPTY@)
                    && ended(*old(state), *final(state), res)
            } else {
                match typing_refusal(old(state).input_service.target, accessibility_trusted) {
                    Some(reason) => r matches TypeClipboardAction::Done(res) && is_skip(
                        res,
                        reason,
                    ) && ended(*old(state), *final(state), res),
                    None => r matches TypeClipboardAction::Type(plan, typed_chars) && typed_chars
                        == text@.len() && typing_outcome(
                        old(state).input_service.target,
                        text@,
                        settings.delay,
                        settings.append_enter,
                        accessibility_trusted,
                        Ok(plan),
                    ) && *final(state) == *old(state),
                }
            },
        },
{
    let text = match clipboard {
        Ok(text) => text,
        Err(error) => return TypeClipboardAction::Done(record_outcome(state, Err(error))),
    };
    if text.as_str().is_empty() {
        return TypeClipboardAction::Done(
            record_outcome(state, Ok(ExecutionResult::skipped(CLIPBOARD_EMPTY.to_owned()))),
        );
    }
    let typed_chars = text.as_str().unicode_len();
    match state.input_service.type_text(text.as_str(), settings, accessibility_trusted) {
        Ok(plan) => TypeClipboardAction::Type(plan, typed_chars),
        Err(error) => TypeClipboardAction::Done(record_outcome(state, Err(error))),
    }
}

/// The end of a request once the key events were sent (`outcome`: success
/// or the error that stopped the sending): a success of `typed_chars`
/// characters, or a skip carrying the error's message.
pub fn typing_done(state: &mut AppState, outcome: Result<()>, typed_chars: usize) -> (r:
    ExecutionResult)
    ensures
        outcome is Ok ==> is_success(r, typed_chars),
        outcome matches Err(e) ==> is_skip(r, error_message(e)),
        ended(*old(state), *final(state), r),
{
    let result = match outcome {
        Ok(()) => Ok(ExecutionResult::success(typed_chars)),
        Err(error) => Err(error),
    };
    record_outcome(state, result)
}


/// Typing is refused exactly where the platform cannot type or the
/// permission status says the accessibility permission is required but not
/// granted: never on Windows, on macOS exactly without the permission,
/// always elsewhere. Where it is refused, every outcome of typing is the
/// error with that message; where it is not, every outcome is a plan.
pub proof fn law_typing_refusal_agrees_with_platform(
    target: Platform,
    accessibility_trusted: bool,
    text: Seq<char>,
    delay: std::time::Duration,
    append_enter: bool,
    r: Result<InputPlan>,
)
    ensures
        typing_refusal(Platform::Windows, accessibility_trusted) is None,
        typing_refusal(target, accessibility_trusted) is None <==> (target != Platform::Other && !(
        permission_info(target, accessibility_trusted).accessibility_required && !permission_info(
            target,
            accessibility_trusted,
        ).accessibility_granted)),
        typing_outcome(target, text, delay, append_enter, accessibility_trusted, r) ==> (
        typing_refusal(target, accessibility_trusted) is None <==> r is Ok),
        typing_outcome(target, text, delay, append_enter, accessibility_trusted, r) && r is Err
            ==> typing_refusal(target, accessibility_trusted) == Some(error_message(r->Err_0)),
{
}

} // verus!
