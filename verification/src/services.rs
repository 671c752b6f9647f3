//! The services that the application state holds.

pub mod clipboard;
pub mod hotkey;
pub mod input;
pub mod permission;
