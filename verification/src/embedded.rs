//! Types and traits for REAPER's embedded/inline FX UI.
//!
//! This allows plugins to render a small inline UI directly in REAPER's track control panel (TCP)
//! or mixer control panel (MCP), without creating a separate window.
//!
//! Fractional quantities that the host exchanges as fixed-point numbers are kept in that form
//! here: a DPI of `256` means 100%, an aspect ratio of `65536` means 1:1.
use vstd::prelude::*;

pub mod draw_info_flags;
pub mod embed_flags;
mod bitmap;

pub use bitmap::{
    alpha_of, blue_of, color_of, green_of, lemma_color_channels, lemma_color_recompose, line_in_range,
    non_negative, red_of, span_end, BitmapLayout, EmbedBitmap,
};

verus! {

/// The context in which the embedded UI is being displayed.
#[derive(Debug, Clone, Copy, PartialEq, Eq, Structural)]
pub enum EmbedContext {
    /// Unknown context (REAPER v6.23 and earlier).
    Unknown,
    /// Track Control Panel.
    Tcp,
    /// Mixer Control Panel.
    Mcp,
}

impl EmbedContext {
    /// The context that the host's integer code stands for.
    pub open spec fn from_code(value: i32) -> EmbedContext {
        if value == 1 {
            EmbedContext::Tcp
        } else if value == 2 {
            EmbedContext::Mcp
        } else {
            EmbedContext::Unknown
        }
    }
}

impl From<i32> for EmbedContext {
    fn from(value: i32) -> (r: EmbedContext) {
        match value {
            1 => EmbedContext::Tcp,
            2 => EmbedContext::Mcp,
            _ => EmbedContext::Unknown,
        }
    }
}

impl vstd::std_specs::convert::FromSpecImpl<i32> for EmbedContext {
    open spec fn obeys_from_spec() -> bool {
        true
    }

    open spec fn from_spec(v: i32) -> EmbedContext {
        EmbedContext::from_code(v)
    }
}

/// Mouse event types for embedded UI interaction.
#[derive(Debug, Clone, Copy)]
pub enum EmbedMouseEvent {
    /// Mouse moved.
    Move,
    /// Left button pressed.
    LeftDown,
    /// Left button released.
    LeftUp,
    /// Left button double-clicked.
    LeftDoubleClick,
    /// Right button pressed.
    RightDown,
    /// Right button released.
    RightUp,
    /// Right button double-clicked.
    RightDoubleClick,
    /// Mouse wheel scrolled. The amount is typically 120 per "step".
    Wheel { amount: i32 },
}

/// Information provided during paint and mouse events.
#[derive(Debug, Clone)]
pub struct EmbedDrawInfo {
    /// The context (TCP, MCP, or Unknown).
    pub context: EmbedContext,
    /// DPI scaling factor in 24.8 fixed point (256 = 100%).
    pub dpi: i32,
    /// Width of the drawing area in pixels.
    pub width: i32,
    /// Height of the drawing area in pixels.
    pub height: i32,
    /// Mouse X coordinate relative to the drawing area.
    pub mouse_x: i32,
    /// Mouse Y coordinate relative to the drawing area.
    pub mouse_y: i32,
    /// Various flags, see [`draw_info_flags`].
    pub flags: u32,
    /// Mouse wheel amount (for wheel events). Typically 120 per step.
    pub mousewheel_amt: i32,
}

impl EmbedDrawInfo {
    /// Returns true if this is an optional paint (no change since last draw is acceptable).
    pub fn is_paint_optional(&self) -> (r: bool)
        ensures
            r == (self.flags & draw_info_flags::PAINT_OPTIONAL != 0),
    {
        self.flags & draw_info_flags::PAINT_OPTIONAL != 0
    }

    /// Returns true if the left mouse button is currently captured.
    pub fn is_left_button_captured(&self) -> (r: bool)
        ensures
            r == (self.flags & draw_info_flags::LBUTTON_CAPTURED != 0),
    {
        self.flags & draw_info_flags::LBUTTON_CAPTURED != 0
    }

    /// Returns true if the right mouse button is currently captured.
    pub fn is_right_button_captured(&self) -> (r: bool)
        ensures
            r == (self.flags & draw_info_flags::RBUTTON_CAPTURED != 0),
    {
        self.flags & draw_info_flags::RBUTTON_CAPTURED != 0
    }

    /// Returns true if this is a Retina/HiDPI display where coordinates are doubled.
    pub fn is_retina(&self) -> (r: bool)
        ensures
            r == (self.flags & draw_info_flags::IS_RETINA != 0),
    {
        self.flags & draw_info_flags::IS_RETINA != 0
    }
}

/// Size hints for the embedded UI.
#[derive(Debug, Clone)]
pub struct EmbedSizeHints {
    /// Preferred aspect ratio as width/height in 16.16 fixed point (65536 = square,
    /// 131072 = twice as wide as tall). Use 0 for no preference.
    pub preferred_aspect: i32,
    /// Minimum aspect ratio in 16.16 fixed point. Use 0 for no preference.
    pub minimum_aspect: i32,
    /// Minimum width in pixels, or 0 for no minimum.
    pub min_width: i32,
    /// Minimum height in pixels, or 0 for no minimum.
    pub min_height: i32,
    /// Maximum width in pixels, or 0 for no maximum.
    pub max_width: i32,
    /// Maximum height in pixels, or 0 for no maximum.
    pub max_height: i32,
}

impl Default for EmbedSizeHints {
    fn default() -> (r: Self)
        ensures
            r.preferred_aspect == 0,
            r.minimum_aspect == 0,
            r.min_width == 0,
            r.min_height == 0,
            r.max_width == 0,
            r.max_height == 0,
    {
        Self {
            preferred_aspect: 0,
            minimum_aspect: 0,
            min_width: 0,
            min_height: 0,
            max_width: 0,
            max_height: 0,
        }
    }
}

/// An embedded (inline) editor for REAPER's TCP/MCP panel.
///
/// Unlike a windowed editor, this trait renders directly to a bitmap buffer provided by REAPER.
/// This is suitable for simple visualizations and controls that fit in the track/mixer panel.
///
/// # Thread Safety
///
/// All methods may be called from any thread (the GUI thread in practice), so the implementation
/// must be `Send + Sync`.
pub trait EmbeddedEditor: Send + Sync {
    /// Returns whether the embedded UI is currently available.
    ///
    /// The default implementation returns `true`.
    fn is_available(&self) -> (r: bool)
        default_ensures
            r,
    {
        true
    }

    /// Called when embedding begins.
    fn create(&self) {
    }

    /// Called when embedding ends.
    fn destroy(&self) {
    }

    /// Report size hints to the host, or `None` to not provide hints.
    ///
    /// `dpi` is in 24.8 fixed point (256 = 100%).
    fn size_hints(&self, context: EmbedContext, dpi: i32) -> (r: Option<EmbedSizeHints>)
        default_ensures
            r is None,
    {
        None
    }

    /// Render the embedded UI to the provided bitmap buffer.
    ///
    /// If [`EmbedDrawInfo::is_paint_optional()`] returns `true` and nothing has changed since
    /// the last draw, you may return `false` to skip rendering.
    ///
    /// Returns `true` if rendering occurred, `false` if skipped.
    fn paint(&self, bitmap: &mut EmbedBitmap<'_>, info: &EmbedDrawInfo) -> bool;

    /// Handle a mouse event and return a combination of [`embed_flags`].
    ///
    /// The default implementation returns 0 (not handled).
    fn mouse_event(&self, event: EmbedMouseEvent, info: &EmbedDrawInfo) -> (r: u32)
        default_ensures
            r == 0,
    {
        0
    }

    /// Set the cursor for the current mouse position; return `false` to use the default cursor.
    ///
    /// The default implementation returns `false`.
    fn set_cursor(&self, info: &EmbedDrawInfo) -> (r: bool)
        default_ensures
            !r,
    {
        false
    }
}

} // verus!
