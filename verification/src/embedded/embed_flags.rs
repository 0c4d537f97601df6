//! Flags that can be returned from mouse event handlers.
use vstd::prelude::*;

verus! {

/// Indicates that the handler processed the event (e.g., set a cursor).
pub const HANDLED: u32 = 0x0000001;

/// Request an immediate (non-optional) redraw after this event.
pub const INVALIDATE: u32 = 0x1000000;

} // verus!
