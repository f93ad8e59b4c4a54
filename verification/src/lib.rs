//! Core logic of a clipboard-history tool: clipboard-change detection and
//! deduplication, the double-tap hotkey state machine, the paste-injection
//! protocol with its bounded retry policy, image payload encoding and
//! decoding, the clipboard byte formats for raster and file-drop pastes, and
//! the save-location fallback rules.
//!
//! Everything here is pure decision and data logic. The platform edges —
//! reading and writing the OS clipboard, installing the global keyboard hook,
//! synthesizing input events, touching the filesystem — live outside the
//! library and hand plain values in and out.

pub mod clipfmt;
pub mod codec;
pub mod hotkey;
pub mod monitor;
pub mod paste;
pub mod raster;
pub mod save;

use vstd::prelude::*;

verus! {

/// Duration in milliseconds within which a second modifier release counts as
/// a double tap.
pub const DOUBLE_TAP_WINDOW_MS: i64 = 400;

} // verus!
