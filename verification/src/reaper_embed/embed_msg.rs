//! REAPER FX embed message codes.
use vstd::prelude::*;

verus! {

/// Return 1 if embedding is supported and available, -1 if supported but unavailable, 0 if not supported.
pub const IS_SUPPORTED: isize = 0x0000;

/// Called when embedding begins (return value ignored).
pub const CREATE: isize = 0x0001;

/// Called when embedding ends (return value ignored).
pub const DESTROY: isize = 0x0002;

/// Draw embedded UI. parm1 = bitmap ptr, parm2 = draw info ptr.
pub const PAINT: isize = 0x000F;

/// Set mouse cursor. parm2 = draw info ptr.
pub const SETCURSOR: isize = 0x0020;

/// Get size hints. parm2 = size hints ptr.
pub const GETMINMAXINFO: isize = 0x0024;

/// Mouse move. parm2 = draw info ptr.
pub const MOUSEMOVE: isize = 0x0200;

/// Left button down. parm2 = draw info ptr.
pub const LBUTTONDOWN: isize = 0x0201;

/// Left button up. parm2 = draw info ptr.
pub const LBUTTONUP: isize = 0x0202;

/// Left button double-click. parm2 = draw info ptr.
pub const LBUTTONDBLCLK: isize = 0x0203;

/// Right button down. parm2 = draw info ptr.
pub const RBUTTONDOWN: isize = 0x0204;

/// Right button up. parm2 = draw info ptr.
pub const RBUTTONUP: isize = 0x0205;

/// Right button double-click. parm2 = draw info ptr.
pub const RBUTTONDBLCLK: isize = 0x0206;

/// Mouse wheel. parm2 = draw info ptr (mousewheel_amt field has amount).
pub const MOUSEWHEEL: isize = 0x020A;

/// Border query: return 0 to use the default border, 1 to request no border.
pub const NOBORDER: isize = 0x100001;

/// Hit test: return 1 if a click should pass through.
pub const HITTEST: isize = 0x100002;

} // verus!
