//! Flags that may be set in `EmbedDrawInfo::flags`.
use vstd::prelude::*;

verus! {

/// If set, the paint is optional: return `false` from `paint()` if nothing changed.
pub const PAINT_OPTIONAL: u32 = 1;

/// Retina/HiDPI display: width/height and mouse coordinates are doubled.
pub const IS_RETINA: u32 = 0x00100;

/// Left mouse button is currently captured.
pub const LBUTTON_CAPTURED: u32 = 0x10000;

/// Right mouse button is currently captured.
pub const RBUTTON_CAPTURED: u32 = 0x20000;

} // verus!
