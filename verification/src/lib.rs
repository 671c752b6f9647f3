//! ClipType: types the clipboard text through simulated key presses when a
//! global hotkey is released.
//!
//! The library holds the settings model and its normalisation, the decisions
//! of the typing and hotkey flows, the per-platform key event plans and the
//! application state; the desktop shell around it performs the actions.

pub mod commands;
pub mod config;
pub mod error;
pub mod orchestrator;
pub mod platform;
pub mod services;
pub mod state;
pub mod text;
