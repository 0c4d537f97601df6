//! Verified core of a Dioxus-based GUI layer for audio plugins: the inline
//! (embedded) editor protocol, bitmap drawing, editor window state, overlay
//! bookkeeping, input handling and pixel-buffer conversions.
pub mod assets;
pub mod custom_paint;
pub mod embedded;
pub mod embedded_editor;
pub mod events;
pub mod readback;
pub mod reaper_embed;
pub mod state;
pub mod window;
