use std::path::PathBuf;
use std::time::Duration;

use cliptype::commands::{commit_settings, settings_with_enabled, toggled_enabled};
use cliptype::config::{AppConfig, ConfigService};
use cliptype::error::ClipTypeError;
use cliptype::orchestrator::{
    clipboard_read, record_outcome, start_type_clipboard, typing_done, TypeClipboardAction,
};
use cliptype::platform::input::macos::MacKeyEvent;
use cliptype::platform::input::InputPlan;
use cliptype::platform::Platform;
use cliptype::services::hotkey::{HotkeyChange, HotkeyService};
use cliptype::services::permission::PermissionInfo;
use cliptype::state::{AppState, ExecutionResult};

fn config(enabled: bool) -> AppConfig {
    AppConfig { enabled, hotkey: "Ctrl+Shift+V".to_owned(), input_delay_ms: 8, append_enter: false }
}

fn state(target: Platform, enabled: bool) -> AppState {
    AppState::new(ConfigService::new(PathBuf::from("settings.toml")), config(enabled), target)
}

fn done(action: TypeClipboardAction) -> ExecutionResult {
    match action {
        TypeClipboardAction::Done(result) => result,
        other => panic!("expected the end of the request, got {other:?}"),
    }
}

#[test]
fn execution_results() {
    let ok = ExecutionResult::success(5);
    assert!(ok.ok);
    assert_eq!(ok.message, "input completed");
    assert_eq!(ok.typed_chars, 5);
    let skipped = ExecutionResult::skipped("nothing to do".to_owned());
    assert!(!skipped.ok);
    assert_eq!(skipped.message, "nothing to do");
    assert_eq!(skipped.typed_chars, 0);
    assert_eq!(skipped.duplicate(), skipped);
}

#[test]
fn disabled_clip_type_skips_and_records() {
    let mut s = state(Platform::Windows, false);
    let result = done(start_type_clipboard(&mut s, true));
    assert!(!result.ok);
    assert_eq!(result.message, "ClipType is disabled");
    assert_eq!(s.last_result(), Some(result));
}

#[test]
fn missing_accessibility_on_macos_skips_with_the_error() {
    let mut s = state(Platform::MacOs, true);
    let result = done(start_type_clipboard(&mut s, false));
    assert_eq!(
        result.message,
        "permission error: accessibility permission is required before typing"
    );
    assert_eq!(result.typed_chars, 0);
    assert_eq!(s.last_result(), Some(result));
}

#[test]
fn full_flow_on_macos() {
    let mut s = state(Platform::MacOs, true);
    let settings = match start_type_clipboard(&mut s, true) {
        TypeClipboardAction::ReadClipboard(settings) => settings,
        other => panic!("expected a clipboard read, got {other:?}"),
    };
    assert_eq!(settings.delay, Duration::from_millis(8));
    assert_eq!(s.last_result(), None);
    let (plan, typed) = match clipboard_read(&mut s, settings, Ok("hé".to_owned()), true) {
        TypeClipboardAction::Type(plan, typed) => (plan, typed),
        other => panic!("expected typing, got {other:?}"),
    };
    assert_eq!(typed, 2);
    assert_eq!(
        plan,
        InputPlan::MacOs(vec![
            MacKeyEvent::Character('h'),
            MacKeyEvent::Pause(Duration::from_millis(8)),
            MacKeyEvent::Character('é'),
            MacKeyEvent::Pause(Duration::from_millis(8)),
        ])
    );
    let result = typing_done(&mut s, Ok(()), typed);
    assert!(result.ok);
    assert_eq!(result.typed_chars, 2);
    assert_eq!(s.last_result(), Some(result));
}

#[test]
fn clipboard_errors_and_empty_text_are_skips() {
    let mut s = state(Platform::Windows, true);
    let settings = config(true).typing_settings();
    let result = done(clipboard_read(
        &mut s,
        settings,
        Err(ClipTypeError::Clipboard("no text".to_owned())),
        true,
    ));
    assert_eq!(result.message, "clipboard error: no text");
    let result = done(clipboard_read(&mut s, settings, Ok(String::new()), true));
    assert_eq!(result.message, "clipboard text is empty");
    assert_eq!(s.last_result(), Some(result));
}

#[test]
fn unsupported_platform_is_a_skip() {
    let mut s = state(Platform::Other, true);
    let settings = match start_type_clipboard(&mut s, false) {
        TypeClipboardAction::ReadClipboard(settings) => settings,
        other => panic!("expected a clipboard read, got {other:?}"),
    };
    let result = done(clipboard_read(&mut s, settings, Ok("abc".to_owned()), false));
    assert_eq!(
        result.message,
        "platform error: input simulation is currently implemented for macOS and Windows"
    );
}

#[test]
fn failed_typing_is_a_skip() {
    let mut s = state(Platform::Windows, true);
    let result = typing_done(&mut s, Err(ClipTypeError::Input("SendInput sent 0 of 2 input events".to_owned())), 3);
    assert!(!result.ok);
    assert_eq!(result.typed_chars, 0);
    assert_eq!(result.message, "input error: SendInput sent 0 of 2 input events");
    let recorded = record_outcome(&mut s, Ok(ExecutionResult::success(1)));
    assert_eq!(s.last_result(), Some(recorded));
}

#[test]
fn status_reflects_state() {
    let mut s = state(Platform::Windows, true);
    let status = s.status(false);
    assert_eq!(status.config, config(true));
    assert_eq!(
        status.permission,
        PermissionInfo { accessibility_required: false, accessibility_granted: true, can_prompt: false }
    );
    assert_eq!(status.last_result, None);
    assert!(!status.hotkey_registered);
    s.hotkey_service.mark_registered("Ctrl+Shift+V".to_owned());
    assert!(s.status(false).hotkey_registered);
}

#[test]
fn commands_change_settings() {
    let mut s = state(Platform::Windows, true);
    assert!(!toggled_enabled(&s));
    let disabled = settings_with_enabled(&s, false);
    assert_eq!(disabled, config(false));
    let status = commit_settings(&mut s, disabled, true);
    assert!(!status.config.enabled);
    assert_eq!(s.config(), config(false));
    assert!(toggled_enabled(&s));
    s.replace_config(config(true));
    assert_eq!(s.config(), config(true));
}

#[test]
fn hotkey_sync_plans_the_registration() {
    let mut hotkeys = HotkeyService::default();
    assert!(!hotkeys.is_registered());
    let change = hotkeys.sync(&config(true));
    assert_eq!(change, HotkeyChange { unregister: None, register: Some("Ctrl+Shift+V".to_owned()) });
    hotkeys.mark_registered(change.register.unwrap());
    assert!(hotkeys.is_registered());
    let change = hotkeys.sync(&config(false));
    assert_eq!(change, HotkeyChange { unregister: Some("Ctrl+Shift+V".to_owned()), register: None });
    assert!(!hotkeys.is_registered());
    assert_eq!(hotkeys.unregister_current(), None);
}

#[test]
fn results_are_stamped_with_the_clock() {
    let before = std::time::SystemTime::now()
        .duration_since(std::time::UNIX_EPOCH)
        .unwrap()
        .as_millis();
    let result = ExecutionResult::success(0);
    assert!(result.timestamp_unix_ms >= before);
    assert!(result.timestamp_unix_ms < before + 60_000);
}

#[test]
fn registration_counts_only_when_it_succeeded() {
    let mut hotkeys = HotkeyService::default();
    let failed = hotkeys.finish_register(
        "Ctrl+K".to_owned(),
        Err(ClipTypeError::Hotkey("taken".to_owned())),
    );
    assert_eq!(failed, Err(ClipTypeError::Hotkey("taken".to_owned())));
    assert!(!hotkeys.is_registered());
    assert_eq!(hotkeys.finish_register("Ctrl+K".to_owned(), Ok(())), Ok(()));
    assert_eq!(hotkeys.unregister_current(), Some("Ctrl+K".to_owned()));
}

#[test]
fn config_service_clones_its_path() {
    let service = ConfigService::new(PathBuf::from("a/settings.toml"));
    assert_eq!(service.clone().path(), &PathBuf::from("a/settings.toml"));
}
