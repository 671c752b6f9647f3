//! The application state: settings, services and the last typing result.

use std::time::{Duration, SystemTime, SystemTimeError};

use vstd::prelude::*;

use crate::config::{AppConfig, AppConfigView, ConfigService};
use crate::platform::permission::permission_info;
use crate::platform::Platform;
use crate::services::clipboard::ClipboardService;
use crate::services::hotkey::HotkeyService;
use crate::services::input::InputSimulationService;
use crate::services::permission::{PermissionInfo, PermissionService};

verus! {

/// The message of a typing that went through.
pub const INPUT_COMPLETED: &'static str = "input completed";

/// How a request to type the clipboard ended.
#[derive(Debug, Clone, PartialEq, Eq)]
pub struct ExecutionResult {
    pub ok: bool,
    pub message: String,
    pub typed_chars: usize,
    pub timestamp_unix_ms: u128,
}

/// A time stamp taken from the clock: the Unix milliseconds of some clock
/// reading.
pub open spec fn is_clock_stamp(ms: u128) -> bool {
    exists|t: SystemTime| ms == #[trigger] unix_ms_at(t)
}

/// A typing that went through, of `typed_chars` characters, stamped with
/// the clock.
pub open spec fn is_success(r: ExecutionResult, typed_chars: usize) -> bool {
    &&& r.ok
    &&& r.message@ == INPUT_COMPLETED@
    &&& r.typed_chars == typed_chars
    &&& is_clock_stamp(r.timestamp_unix_ms)
}

/// A request that typed nothing, for the reason `message`, stamped with the
/// clock.
pub open spec fn is_skip(r: ExecutionResult, message: Seq<char>) -> bool {
    &&& !r.ok
    &&& r.message@ == message
    &&& r.typed_chars == 0
    &&& is_clock_stamp(r.timestamp_unix_ms)
}

impl ExecutionResult {
    /// A typing that went through, of `typed_chars` characters, stamped
    /// with the current time.
    pub fn success(typed_chars: usize) -> (r: Self)
        ensures
            is_success(r, typed_chars),
    {
        ExecutionResult {
            ok: true,
            message: INPUT_COMPLETED.to_owned(),
            typed_chars,
            timestamp_unix_ms: now_unix_ms(),
        }
    }

    /// A request that typed nothing, for the reason `message`, stamped with
    /// the current time.
    pub fn skipped(message: String) -> (r: Self)
        ensures
            is_skip(r, message@),
    {
        ExecutionResult { ok: false, message, typed_chars: 0, timestamp_unix_ms: now_unix_ms() }
    }

    /// A copy of this result.
    pub fn duplicate(&self) -> (r: Self)
        ensures
            r == *self,
    {
        ExecutionResult {
            ok: self.ok,
            message: self.message.clone(),
            typed_chars: self.typed_chars,
            timestamp_unix_ms: self.timestamp_unix_ms,
        }
    }
}

/// What the settings window shows.
#[derive(Debug, Clone, PartialEq, Eq)]
pub struct AppStatus {
    pub config: AppConfig,
    pub permission: PermissionInfo,
    pub last_result: Option<ExecutionResult>,
    pub hotkey_registered: bool,
}

/// The state of the running application.
#[derive(Debug)]
pub struct AppState {
    pub config_service: ConfigService,
    pub hotkey_service: HotkeyService,
    pub clipboard_service: ClipboardService,
    pub input_service: InputSimulationService,
    pub permission_service: PermissionService,
    pub config: AppConfig,
    pub last_result: Option<ExecutionResult>,
}

impl AppState {
    /// The settings in force.
    pub open spec fn current_config(&self) -> AppConfigView {
        self.config@
    }

    /// The result of the last request to type the clipboard.
    pub open spec fn recorded_result(&self) -> Option<ExecutionResult> {
        self.last_result
    }

    /// This state with `config` in force.
    pub open spec fn with_config(self, config: AppConfig) -> AppState {
        AppState { config, ..self }
    }

    /// This state with `result` recorded as the last result.
    pub open spec fn recording(self, result: ExecutionResult) -> AppState {
        AppState { last_result: Some(result), ..self }
    }

    /// The status this state shows, where the accessibility check of the
    /// system answered `accessibility_trusted`.
    pub open spec fn status_of(self, accessibility_trusted: bool) -> (AppConfigView, PermissionInfo, Option<ExecutionResult>, bool) {
        (
            self.config@,
            permission_info(self.permission_service.target, accessibility_trusted),
            self.last_result,
            self.hotkey_service@ is Some,
        )
    }

    /// The state at start-up: `config` in force, no hotkey registered and
    /// no result yet, with the services of `target`.
    pub fn new(config_service: ConfigService, config: AppConfig, target: Platform) -> (r: Self)
        ensures
            r.config_service == config_service,
            r.hotkey_service@ == None::<Seq<char>>,
            r.input_service.target == target,
            r.permission_service.target == target,
            r.current_config() == config@,
            r.recorded_result() == None::<ExecutionResult>,
    {
        AppState {
            config_service,
            hotkey_service: HotkeyService::default(),
            clipboard_service: ClipboardService,
            input_service: InputSimulationService::new(target),
            permission_service: PermissionService::new(target),
            config,
            last_result: None,
        }
    }

    /// A copy of the settings in force.
    pub fn config(&self) -> (r: AppConfig)
        ensures
            r == self.config,
            r@ == self.current_config(),
    {
        self.config.duplicate()
    }

    /// Puts `config` in force.
    pub fn replace_config(&mut self, config: AppConfig)
        ensures
            *final(self) == old(self).with_config(config),
            final(self).current_config() == config@,
    {
        self.config = config;
    }

    /// A copy of the result of the last request to type the clipboard.
    pub fn last_result(&self) -> (r: Option<ExecutionResult>)
        ensures
            r == self.recorded_result(),
    {
        match &self.last_result {
            Some(result) => Some(result.duplicate()),
            None => None,
        }
    }

    /// Records `result` as the last result.
    pub fn set_last_result(&mut self, result: ExecutionResult)
        ensures
            *final(self) == old(self).recording(result),
            final(self).recorded_result() == Some(result),
    {
        self.last_result = Some(result);
    }

    /// The status to show, where the accessibility check of the system
    /// answered `accessibility_trusted` (only macOS asks).
    pub fn status(&self, accessibility_trusted: bool) -> (r: AppStatus)
        ensures
            r.config == self.config,
            r.permission == permission_info(self.permission_service.target, accessibility_trusted),
            r.last_result == self.last_result,
            r.hotkey_registered == self.hotkey_service@ is Some,
            (r.config@, r.permission, r.last_result, r.hotkey_registered) == self.status_of(
                accessibility_trusted,
            ),
    {
        AppStatus {
            config: self.config(),
            permission: self.permission_service.info(accessibility_trusted),
            last_result: self.last_result(),
            hotkey_registered: self.hotkey_service.is_registered(),
        }
    }
}

/// The settings put in force are the settings read back, and only the
/// settings change.
pub proof fn law_config_reads_back(state: AppState, config: AppConfig, accessibility_trusted: bool)
    ensures
        state.with_config(config).current_config() == config@,
        state.with_config(config).recorded_result() == state.recorded_result(),
        state.with_config(config).status_of(accessibility_trusted).0 == config@,
{
}

/// The status shows the settings in force, the permission status that the
/// system's accessibility answer gives on the state's platform (on macOS,
/// granted exactly when the system answered yes; on Windows always granted;
/// elsewhere never), the last result and whether a hotkey is registered.
pub proof fn law_status_reports_state(state: AppState, accessibility_trusted: bool)
    ensures
        state.status_of(accessibility_trusted).0 == state.config@,
        state.status_of(accessibility_trusted).1 == permission_info(
            state.permission_service.target,
            accessibility_trusted,
        ),
        state.permission_service.target == Platform::MacOs ==> state.status_of(
            accessibility_trusted,
        ).1 == (PermissionInfo {
            accessibility_required: true,
            accessibility_granted: accessibility_trusted,
            can_prompt: true,
        }),
        state.permission_service.target == Platform::Windows ==> state.status_of(
            accessibility_trusted,
        ).1.accessibility_granted && !state.status_of(accessibility_trusted).1.accessibility_required,
        state.permission_service.target == Platform::Other ==> !state.status_of(
            accessibility_trusted,
        ).1.accessibility_granted,
        state.status_of(accessibility_trusted).2 == state.last_result,
        state.status_of(accessibility_trusted).3 == state.hotkey_service@ is Some,
{
}

/// The result recorded last is the result read back and shown by the
/// status, and recording it changes nothing else that the status shows.
pub proof fn law_result_reads_back(state: AppState, result: ExecutionResult, accessibility_trusted: bool)
    ensures
        state.recording(result).recorded_result() == Some(result),
        state.recording(result).status_of(accessibility_trusted).2 == Some(result),
        state.recording(result).status_of(accessibility_trusted).0 == state.status_of(
            accessibility_trusted,
        ).0,
        state.recording(result).status_of(accessibility_trusted).1 == state.status_of(
            accessibility_trusted,
        ).1,
        state.recording(result).status_of(accessibility_trusted).3 == state.status_of(
            accessibility_trusted,
        ).3,
{
}

#[verifier::external_type_specification]
#[verifier::external_body]
pub struct ExSystemTime(SystemTime);

#[verifier::external_type_specification]
#[verifier::external_body]
pub struct ExSystemTimeError(SystemTimeError);

/// Calls `std::time::SystemTime::now`; the clock is read, so nothing is
/// stated of the result.
#[verifier::external_body]
fn system_time_now() -> SystemTime {
    SystemTime::now()
}

/// What `SystemTime::duration_since(UNIX_EPOCH)` gives for the time `t`.
pub uninterp spec fn elapsed_since_epoch(t: SystemTime) -> std::result::Result<Duration, SystemTimeError>;

/// What `Duration::as_millis` gives for the duration `d`.
pub uninterp spec fn duration_millis(d: Duration) -> u128;

/// The milliseconds from the Unix epoch to the time `t`; zero when `t` lies
/// before the epoch.
pub open spec fn unix_ms_at(t: SystemTime) -> u128 {
    match elapsed_since_epoch(t) {
        Ok(d) => duration_millis(d),
        Err(_) => 0,
    }
}

/// Calls `SystemTime::duration_since` with `UNIX_EPOCH`: the time elapsed
/// from the epoch to `t`, or an error when `t` lies before it. Its result
/// is named `elapsed_since_epoch(t)`: it depends on the time `t` alone.
#[verifier::external_body]
fn elapsed_since_unix_epoch(t: &SystemTime) -> (r: std::result::Result<Duration, SystemTimeError>)
    ensures
        r == elapsed_since_epoch(*t),
{
    t.duration_since(std::time::UNIX_EPOCH)
}

/// Calls `Duration::as_millis`; its result is named `duration_millis(d)`:
/// it depends on the duration `d` alone.
#[verifier::external_body]
fn duration_as_millis(d: &Duration) -> (ms: u128)
    ensures
        ms == duration_millis(*d),
{
    d.as_millis()
}

/// The milliseconds since the Unix epoch at the time the clock reads; zero
/// when it reads a time before the epoch.
fn now_unix_ms() -> (ms: u128)
    ensures
        is_clock_stamp(ms),
{
    let now = system_time_now();
    let ms = match elapsed_since_unix_epoch(&now) {
        Ok(elapsed) => duration_as_millis(&elapsed),
        Err(_) => 0,
    };
    assert(ms == unix_ms_at(now));
    ms
}

} // verus!
