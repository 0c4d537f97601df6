//! Asset loading and font registration.
use vstd::prelude::*;

verus! {

/// Register the default theme stylesheet with a Dioxus document.
///
/// The theme is loaded through the document's stylesheet component in the widgets, so this
/// function has nothing to do yet; it is the hook for future font registration and other
/// asset loading.
pub fn register_default_theme() {
}

} // verus!
