//! The library's error type.

use vstd::prelude::*;

verus! {

/// Everything that can go wrong in ClipType.
///
/// The last four variants carry the message of an error raised by the file
/// system, the desktop shell or the settings format; that message is shown
/// as it is.
#[derive(Debug, Clone, PartialEq, Eq)]
pub enum ClipTypeError {
    Clipboard(String),
    Hotkey(String),
    Input(String),
    Permission(String),
    State(String),
    Platform(String),
    Io(String),
    Tauri(String),
    TomlDeserialize(String),
    TomlSerialize(String),
}

/// Results of ClipType operations.
pub type Result<T> = std::result::Result<T, ClipTypeError>;

/// The text shown for an error.
pub open spec fn error_message(e: ClipTypeError) -> Seq<char> {
    match e {
        ClipTypeError::Clipboard(m) => "clipboard error: "@ + m@,
        ClipTypeError::Hotkey(m) => "hotkey error: "@ + m@,
        ClipTypeError::Input(m) => "input error: "@ + m@,
        ClipTypeError::Permission(m) => "permission error: "@ + m@,
        ClipTypeError::State(m) => "application state error: "@ + m@,
        ClipTypeError::Platform(m) => "platform error: "@ + m@,
        ClipTypeError::Io(m) => m@,
        ClipTypeError::Tauri(m) => m@,
        ClipTypeError::TomlDeserialize(m) => m@,
        ClipTypeError::TomlSerialize(m) => m@,
    }
}

fn prefixed(prefix: &str, detail: &String) -> (r: String)
    ensures
        r@ == prefix@ + detail@,
{
    let mut r = prefix.to_owned();
    r.append(detail.as_str());
    r
}

impl ClipTypeError {
    /// The text shown for this error.
    pub fn message(&self) -> (r: String)
        ensures
            r@ == error_message(*self),
    {
        match self {
            ClipTypeError::Clipboard(m) => prefixed("clipboard error: ", m),
            ClipTypeError::Hotkey(m) => prefixed("hotkey error: ", m),
            ClipTypeError::Input(m) => prefixed("input error: ", m),
            ClipTypeError::Permission(m) => prefixed("permission error: ", m),
            ClipTypeError::State(m) => prefixed("application state error: ", m),
            ClipTypeError::Platform(m) => prefixed("platform error: ", m),
            ClipTypeError::Io(m) => m.clone(),
            ClipTypeError::Tauri(m) => m.clone(),
            ClipTypeError::TomlDeserialize(m) => m.clone(),
            ClipTypeError::TomlSerialize(m) => m.clone(),
        }
    }
}

} // verus!
