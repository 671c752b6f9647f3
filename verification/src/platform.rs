//! What differs between the operating systems ClipType runs on.

pub mod input;
pub mod permission;

use vstd::prelude::*;

verus! {

/// The operating system the application was built for.
#[derive(Debug, Clone, Copy, PartialEq, Eq, Structural)]
pub enum Platform {
    MacOs,
    Windows,
    Other,
}

} // verus!
