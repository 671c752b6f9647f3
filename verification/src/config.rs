//! Settings: their defaults, their normalisation and the typing settings
//! derived from them.

use std::path::PathBuf;
use std::time::Duration;

use vstd::prelude::*;

use crate::text::{
    is_trimmed, law_white_space_excludes_key_names, lemma_trim_is_trimmed, lemma_trimmed_fixed, trim,
    trim_str,
};

verus! {

/// The hotkey used when the settings name none.
pub const DEFAULT_HOTKEY: &'static str = "CommandOrControl+Shift+V";

/// The pause after each typed character, in milliseconds, by default.
pub const DEFAULT_INPUT_DELAY_MS: u64 = 8;

/// The longest pause after a typed character, in milliseconds.
pub const MAX_INPUT_DELAY_MS: u64 = 1000;

/// The user's settings.
#[derive(Debug, Clone, PartialEq, Eq)]
pub struct AppConfig {
    pub enabled: bool,
    pub hotkey: String,
    pub input_delay_ms: u64,
    pub append_enter: bool,
}

/// The settings as mathematical values.
pub struct AppConfigView {
    pub enabled: bool,
    pub hotkey: Seq<char>,
    pub input_delay_ms: u64,
    pub append_enter: bool,
}

impl View for AppConfig {
    type V = AppConfigView;

    open spec fn view(&self) -> AppConfigView {
        AppConfigView {
            enabled: self.enabled,
            hotkey: self.hotkey@,
            input_delay_ms: self.input_delay_ms,
            append_enter: self.append_enter,
        }
    }
}

/// The settings of a fresh installation.
pub open spec fn default_config() -> AppConfigView {
    AppConfigView {
        enabled: true,
        hotkey: DEFAULT_HOTKEY@,
        input_delay_ms: DEFAULT_INPUT_DELAY_MS,
        append_enter: false,
    }
}

/// The settings as ClipType keeps them: the hotkey trimmed, falling back to
/// the default hotkey when nothing is left, and the delay capped.
pub open spec fn normalize(c: AppConfigView) -> AppConfigView {
    let t = trim(c.hotkey);
    AppConfigView {
        enabled: c.enabled,
        hotkey: if t.len() == 0 {
            DEFAULT_HOTKEY@
        } else {
            t
        },
        input_delay_ms: if c.input_delay_ms <= MAX_INPUT_DELAY_MS {
            c.input_delay_ms
        } else {
            MAX_INPUT_DELAY_MS
        },
        append_enter: c.append_enter,
    }
}

/// Settings that normalisation leaves as they are.
pub open spec fn is_normal(c: AppConfigView) -> bool {
    &&& c.hotkey.len() > 0
    &&& is_trimmed(c.hotkey)
    &&& c.input_delay_ms <= MAX_INPUT_DELAY_MS
}

/// The settings that loading yields from what the settings file held
/// (`None` when there is no file).
pub open spec fn loaded_config(stored: Option<AppConfigView>) -> AppConfigView {
    match stored {
        None => default_config(),
        Some(c) => normalize(c),
    }
}

impl Default for AppConfig {
    fn default() -> (r: Self)
        ensures
            r@ == default_config(),
    {
        AppConfig {
            enabled: true,
            hotkey: DEFAULT_HOTKEY.to_owned(),
            input_delay_ms: DEFAULT_INPUT_DELAY_MS,
            append_enter: false,
        }
    }
}

impl AppConfig {
    /// The settings with the hotkey trimmed (the default hotkey when it is
    /// blank) and the delay capped at `MAX_INPUT_DELAY_MS`.
    pub fn normalized(self) -> (r: Self)
        ensures
            r@ == normalize(self@),
    {
        let mut c = self;
        c.hotkey = trim_str(c.hotkey.as_str());
        if c.hotkey.as_str().is_empty() {
            c.hotkey = DEFAULT_HOTKEY.to_owned();
        }
        if c.input_delay_ms > MAX_INPUT_DELAY_MS {
            c.input_delay_ms = MAX_INPUT_DELAY_MS;
        }
        c
    }

    /// The typing settings these settings call for.
    pub fn typing_settings(&self) -> (r: TypingSettings)
        ensures
            r.delay == millis_duration(self.input_delay_ms),
            r.append_enter == self.append_enter,
    {
        TypingSettings { delay: duration_from_millis(self.input_delay_ms), append_enter: self.append_enter }
    }

    /// A copy of these settings.
    pub fn duplicate(&self) -> (r: Self)
        ensures
            r == *self,
    {
        AppConfig {
            enabled: self.enabled,
            hotkey: self.hotkey.clone(),
            input_delay_ms: self.input_delay_ms,
            append_enter: self.append_enter,
        }
    }
}

/// How text is typed: the pause after each character and whether Enter is
/// pressed at the end.
#[derive(Debug, Clone, Copy, PartialEq, Eq)]
pub struct TypingSettings {
    pub delay: Duration,
    pub append_enter: bool,
}

/// The duration that `Duration::from_millis` gives for a number of
/// milliseconds.
pub uninterp spec fn millis_duration(ms: u64) -> Duration;

/// Calls `std::time::Duration::from_millis`; its result is named
/// `millis_duration(ms)`, so equal inputs give equal durations.
#[verifier::external_body]
fn duration_from_millis(ms: u64) -> (d: Duration)
    ensures
        d == millis_duration(ms),
{
    Duration::from_millis(ms)
}

#[verifier::external_type_specification]
#[verifier::external_body]
pub struct ExPathBuf(PathBuf);

/// `PathBuf::clone` gives a path equal to the one it copies.
pub assume_specification[ <PathBuf as Clone>::clone ](p: &PathBuf) -> (r: PathBuf)
    ensures
        r == *p,
;

/// Where the settings live.
#[derive(Debug, Clone)]
pub struct ConfigService {
    path: PathBuf,
}

impl ConfigService {
    /// The path of the settings file.
    pub closed spec fn settings_path(&self) -> PathBuf {
        self.path
    }

    /// A service for the settings file at `path`.
    pub fn new(path: PathBuf) -> (r: Self)
        ensures
            r.settings_path() == path,
    {
        ConfigService { path }
    }

    /// The path of the settings file.
    pub fn path(&self) -> (p: &PathBuf)
        ensures
            *p == self.settings_path(),
    {
        &self.path
    }

    /// The settings that loading yields: the defaults when there was no
    /// settings file (`None`), else what the file held, normalised.
    pub fn resolve_loaded(stored: Option<AppConfig>) -> (r: AppConfig)
        ensures
            r@ == loaded_config(
                match stored {
                    None => None,
                    Some(c) => Some(c@),
                },
            ),
    {
        match stored {
            None => AppConfig::default(),
            Some(c) => c.normalized(),
        }
    }
}

proof fn lemma_default_hotkey_is_normal()
    ensures
        DEFAULT_HOTKEY@.len() > 0,
        is_trimmed(DEFAULT_HOTKEY@),
{
    reveal_strlit("CommandOrControl+Shift+V");
}

/// Normalised settings have a non-empty hotkey without white space at
/// either end and a delay of at most `MAX_INPUT_DELAY_MS`; whether ClipType
/// is enabled and whether Enter is appended are left unchanged.
pub proof fn law_normalize_yields_normal(c: AppConfigView)
    ensures
        is_normal(normalize(c)),
        normalize(c).enabled == c.enabled,
        normalize(c).append_enter == c.append_enter,
{
    lemma_trim_is_trimmed(c.hotkey);
    lemma_default_hotkey_is_normal();
}

/// Normalisation leaves settings that are already normal unchanged.
pub proof fn law_normal_is_fixed(c: AppConfigView)
    requires
        is_normal(c),
    ensures
        normalize(c) == c,
{
    lemma_trimmed_fixed(c.hotkey);
}

/// Normalising twice is normalising once.
pub proof fn law_normalize_idempotent(c: AppConfigView)
    ensures
        normalize(normalize(c)) == normalize(c),
{
    law_normalize_yields_normal(c);
    law_normal_is_fixed(normalize(c));
}

/// The default settings are normal.
pub proof fn law_default_is_normal()
    ensures
        is_normal(default_config()),
        normalize(default_config()) == default_config(),
{
    lemma_default_hotkey_is_normal();
    law_normal_is_fixed(default_config());
}

/// Settings are saved normalised, so loading what was saved gives back the
/// normalised settings.
pub proof fn law_saved_settings_load_back(c: AppConfigView)
    ensures
        loaded_config(Some(normalize(c))) == normalize(c),
{
    law_normalize_idempotent(c);
}


/// A character that key names are written with: an ASCII letter or digit,
/// or `+`.
pub open spec fn is_key_name_char(c: char) -> bool {
    '0' <= c <= '9' || 'A' <= c <= 'Z' || 'a' <= c <= 'z' || c == '+'
}

/// Settings whose hotkey starts and ends with a letter, a digit or `+` and
/// whose delay is within the cap are kept as they are by normalisation: the
/// hotkey `Ctrl+Shift+Z` stays `Ctrl+Shift+Z`.
pub proof fn law_plain_hotkey_kept(c: AppConfigView)
    requires
        c.hotkey.len() > 0,
        is_key_name_char(c.hotkey[0]),
        is_key_name_char(c.hotkey.last()),
        c.input_delay_ms <= MAX_INPUT_DELAY_MS,
    ensures
        normalize(c) == c,
        trim(c.hotkey) == c.hotkey,
{
    law_white_space_excludes_key_names(c.hotkey[0]);
    law_white_space_excludes_key_names(c.hotkey.last());
    law_normal_is_fixed(c);
    lemma_trimmed_fixed(c.hotkey);
}

} // verus!
