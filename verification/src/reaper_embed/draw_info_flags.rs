//! REAPER FX embed draw info flags, as the host stores them.
use vstd::prelude::*;

verus! {

pub const PAINT_OPTIONAL: i32 = 1;

pub const IS_RETINA: i32 = 0x00100;

pub const LBUTTON_CAPTURED: i32 = 0x10000;

pub const RBUTTON_CAPTURED: i32 = 0x20000;

} // verus!
