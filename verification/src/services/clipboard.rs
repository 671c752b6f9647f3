//! The clipboard service.

use vstd::prelude::*;

verus! {

/// Reads the text on the clipboard; the desktop shell does the reading.
#[derive(Debug, Clone, Copy)]
pub struct ClipboardService;

} // verus!
