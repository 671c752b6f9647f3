use std::path::PathBuf;
use std::time::Duration;

use cliptype::config::{
    AppConfig, ConfigService, DEFAULT_HOTKEY, DEFAULT_INPUT_DELAY_MS, MAX_INPUT_DELAY_MS,
};

#[test]
fn normalizes_empty_hotkey_and_clamps_delay() {
    let config = AppConfig {
        enabled: true,
        hotkey: "   ".to_owned(),
        input_delay_ms: 2000,
        append_enter: true,
    }
    .normalized();

    assert_eq!(config.hotkey, DEFAULT_HOTKEY);
    assert_eq!(config.input_delay_ms, MAX_INPUT_DELAY_MS);
    assert!(config.append_enter);
}

#[test]
fn default_typing_settings_use_millisecond_delay() {
    let settings = AppConfig::default().typing_settings();

    assert_eq!(
        settings.delay,
        Duration::from_millis(DEFAULT_INPUT_DELAY_MS)
    );
    assert!(!settings.append_enter);
}

#[test]
fn default_config_values() {
    let config = AppConfig::default();
    assert!(config.enabled);
    assert_eq!(config.hotkey, "CommandOrControl+Shift+V");
    assert_eq!(config.input_delay_ms, 8);
    assert!(!config.append_enter);
}

#[test]
fn normalized_trims_hotkey_and_keeps_flags() {
    let config = AppConfig {
        enabled: false,
        hotkey: " \t Alt+K \n".to_owned(),
        input_delay_ms: 1000,
        append_enter: false,
    }
    .normalized();
    assert_eq!(config.hotkey, "Alt+K");
    assert_eq!(config.input_delay_ms, 1000);
    assert!(!config.enabled);
    assert!(!config.append_enter);
}

#[test]
fn normalized_trims_unicode_white_space() {
    let config = AppConfig {
        enabled: true,
        hotkey: "\u{3000}\u{a0}Ctrl+\u{a0}J\u{2029}\u{85}".to_owned(),
        input_delay_ms: 0,
        append_enter: true,
    }
    .normalized();
    assert_eq!(config.hotkey, "Ctrl+\u{a0}J");
    assert_eq!(config.hotkey, "\u{3000}\u{a0}Ctrl+\u{a0}J\u{2029}\u{85}".trim());
    assert_eq!(config.input_delay_ms, 0);
}

#[test]
fn normalized_is_idempotent() {
    let once = AppConfig {
        enabled: true,
        hotkey: "  Shift+F1  ".to_owned(),
        input_delay_ms: 5000,
        append_enter: true,
    }
    .normalized();
    let twice = once.clone().normalized();
    assert_eq!(once, twice);
}

#[test]
fn delay_just_over_the_cap_is_capped() {
    let config = AppConfig {
        enabled: true,
        hotkey: "X".to_owned(),
        input_delay_ms: 1001,
        append_enter: false,
    }
    .normalized();
    assert_eq!(config.input_delay_ms, 1000);
    assert_eq!(config.hotkey, "X");
}

#[test]
fn typing_settings_follow_config() {
    let config = AppConfig {
        enabled: true,
        hotkey: "X".to_owned(),
        input_delay_ms: 250,
        append_enter: true,
    };
    let settings = config.typing_settings();
    assert_eq!(settings.delay, Duration::from_millis(250));
    assert!(settings.append_enter);
}

#[test]
fn missing_settings_file_gives_defaults() {
    assert_eq!(ConfigService::resolve_loaded(None), AppConfig::default());
}

#[test]
fn stored_settings_are_normalized_on_load() {
    let stored = AppConfig {
        enabled: false,
        hotkey: "  ".to_owned(),
        input_delay_ms: 99999,
        append_enter: true,
    };
    let loaded = ConfigService::resolve_loaded(Some(stored));
    assert_eq!(
        loaded,
        AppConfig {
            enabled: false,
            hotkey: DEFAULT_HOTKEY.to_owned(),
            input_delay_ms: MAX_INPUT_DELAY_MS,
            append_enter: true,
        }
    );
}

#[test]
fn saved_settings_load_back() {
    let saved = AppConfig {
        enabled: true,
        hotkey: " Ctrl+Y ".to_owned(),
        input_delay_ms: 20,
        append_enter: false,
    }
    .normalized();
    assert_eq!(ConfigService::resolve_loaded(Some(saved.clone())), saved);
}

#[test]
fn config_service_keeps_its_path() {
    let service = ConfigService::new(PathBuf::from("/tmp/cliptype/settings.toml"));
    assert_eq!(service.path(), &PathBuf::from("/tmp/cliptype/settings.toml"));
}

#[test]
fn duplicate_copies_settings() {
    let config = AppConfig {
        enabled: false,
        hotkey: "Q".to_owned(),
        input_delay_ms: 3,
        append_enter: true,
    };
    assert_eq!(config.duplicate(), config);
}
