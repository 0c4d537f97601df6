//! Editor state management for Dioxus editors: window size, open flag and the two resize
//! queues (UI-requested and host-driven).
//!
//! The user scale factor and persistence live with the windowing layer; this type holds the
//! integer bookkeeping that the window handler and the widgets agree on.
use vstd::prelude::*;

verus! {

/// The observable contents of a [`DioxusState`].
pub struct DioxusStateView {
    /// Stored window width in logical pixels (0 means "use the default size").
    pub width: u32,
    /// Stored window height in logical pixels (0 means "use the default size").
    pub height: u32,
    /// Whether the editor window is currently open.
    pub open: bool,
    /// Pending resize requested by the UI (plugin → host).
    pub pending_resize: Option<(u32, u32)>,
    /// Pending resize requested by the host (host → plugin).
    pub pending_host_resize: Option<(u32, u32)>,
}

impl DioxusStateView {
    /// Whether an explicit size has been stored (both dimensions non-zero).
    pub open spec fn has_size(self) -> bool {
        self.width != 0 && self.height != 0
    }

    /// The state after `set_size(width, height)`.
    pub open spec fn with_size(self, width: u32, height: u32) -> DioxusStateView {
        DioxusStateView { width, height, ..self }
    }

    /// The state after `request_resize(width, height)`.
    pub open spec fn with_resize_request(self, width: u32, height: u32) -> DioxusStateView {
        DioxusStateView { pending_resize: Some((width, height)), ..self }
    }

    /// The state after `take_pending_resize()`.
    pub open spec fn without_resize_request(self) -> DioxusStateView {
        DioxusStateView { pending_resize: None, ..self }
    }

    /// The state after `host_set_size(width, height)`.
    pub open spec fn with_host_resize(self, width: u32, height: u32) -> DioxusStateView {
        DioxusStateView { pending_host_resize: Some((width, height)), ..self }
    }

    /// The state after `take_pending_host_resize()`.
    pub open spec fn without_host_resize(self) -> DioxusStateView {
        DioxusStateView { pending_host_resize: None, ..self }
    }

    /// The state after `set_open(open)`.
    pub open spec fn with_open(self, open: bool) -> DioxusStateView {
        DioxusStateView { open, ..self }
    }
}

/// State for a Dioxus editor.
///
/// This tracks the window size and whether the editor is currently open, plus the pending
/// resize requests flowing between the UI, the window handler and the host.
pub struct DioxusState<F: Fn() -> (u32, u32)> {
    /// Default size function (used when size hasn't been explicitly set).
    default_size_fn: F,
    width: u32,
    height: u32,
    open: bool,
    pending_resize: Option<(u32, u32)>,
    pending_host_resize: Option<(u32, u32)>,
}

impl<F: Fn() -> (u32, u32)> View for DioxusState<F> {
    type V = DioxusStateView;

    closed spec fn view(&self) -> DioxusStateView {
        DioxusStateView {
            width: self.width,
            height: self.height,
            open: self.open,
            pending_resize: self.pending_resize,
            pending_host_resize: self.pending_host_resize,
        }
    }
}

impl<F: Fn() -> (u32, u32)> DioxusState<F> {
    /// The function that provides the default size.
    pub closed spec fn default_size_fn(&self) -> F {
        self.default_size_fn
    }

    #[verifier::type_invariant]
    closed spec fn default_size_callable(&self) -> bool {
        call_requires(self.default_size_fn, ())
    }

    /// Create a new editor state with a default size function.
    ///
    /// The size function provides the initial/default window size in logical pixels.
    pub fn new(default_size_fn: F) -> (r: Self)
        requires
            call_requires(default_size_fn, ()),
        ensures
            r.default_size_fn() == default_size_fn,
            r@ == (DioxusStateView {
                width: 0,
                height: 0,
                open: false,
                pending_resize: None,
                pending_host_resize: None,
            }),
    {
        Self {
            default_size_fn,
            width: 0,
            height: 0,
            open: false,
            pending_resize: None,
            pending_host_resize: None,
        }
    }

    /// Returns the current window size in logical pixels.
    /// If the size hasn't been explicitly set, returns the default size.
    pub fn size(&self) -> (r: (u32, u32))
        ensures
            self@.has_size() ==> r == (self@.width, self@.height),
            !self@.has_size() ==> call_ensures(self.default_size_fn(), (), r),
    {
        proof {
            use_type_invariant(self);
        }
        let w = self.width;
        let h = self.height;
        if w == 0 || h == 0 {
            (self.default_size_fn)()
        } else {
            (w, h)
        }
    }

    /// The stored size as it is persisted: `(0, 0)` until a size has been set.
    pub fn stored_size(&self) -> (r: (u32, u32))
        ensures
            r == (self@.width, self@.height),
    {
        (self.width, self.height)
    }

    /// Set the window size. This updates the stored size but doesn't resize the window directly.
    /// Call `request_resize` to actually resize the window.
    pub fn set_size(&mut self, width: u32, height: u32)
        ensures
            final(self)@ == old(self)@.with_size(width, height),
            final(self).default_size_fn() == old(self).default_size_fn(),
    {
        proof {
            use_type_invariant(&*self);
        }
        self.width = width;
        self.height = height;
    }

    /// Request a window resize. The window handler will pick this up and resize the window.
    /// This overwrites any pending resize, so rapid calls will only process the latest.
    pub fn request_resize(&mut self, width: u32, height: u32)
        ensures
            final(self)@.pending_resize == Some((width, height)),
            final(self)@ == old(self)@.with_resize_request(width, height),
            final(self).default_size_fn() == old(self).default_size_fn(),
    {
        proof {
            use_type_invariant(&*self);
        }
        // Only store if size actually changed to reduce unnecessary updates
        let changed = match self.pending_resize {
            Some((w, h)) => w != width || h != height,
            None => true,
        };
        if changed {
            self.pending_resize = Some((width, height));
        }
    }

    /// Take the pending resize request, if any. Used by the window handler.
    pub fn take_pending_resize(&mut self) -> (r: Option<(u32, u32)>)
        ensures
            r == old(self)@.pending_resize,
            final(self)@ == old(self)@.without_resize_request(),
            final(self).default_size_fn() == old(self).default_size_fn(),
    {
        proof {
            use_type_invariant(&*self);
        }
        let r = self.pending_resize;
        self.pending_resize = None;
        r
    }

    /// Queue a host-driven resize. The window handler updates the viewport and surface
    /// but does not call `window.resize()` or `gui_context.request_resize()`.
    pub fn host_set_size(&mut self, width: u32, height: u32)
        ensures
            final(self)@.pending_host_resize == Some((width, height)),
            final(self)@ == old(self)@.with_host_resize(width, height),
            final(self).default_size_fn() == old(self).default_size_fn(),
    {
        proof {
            use_type_invariant(&*self);
        }
        self.pending_host_resize = Some((width, height));
    }

    /// Take the pending host-driven resize, if any.
    pub fn take_pending_host_resize(&mut self) -> (r: Option<(u32, u32)>)
        ensures
            r == old(self)@.pending_host_resize,
            final(self)@ == old(self)@.without_host_resize(),
            final(self).default_size_fn() == old(self).default_size_fn(),
    {
        proof {
            use_type_invariant(&*self);
        }
        let r = self.pending_host_resize;
        self.pending_host_resize = None;
        r
    }

    /// Returns the window size in logical pixels before applying the user scale factor.
    /// Alias for `size()`.
    pub fn inner_logical_size(&self) -> (r: (u32, u32))
        ensures
            self@.has_size() ==> r == (self@.width, self@.height),
            !self@.has_size() ==> call_ensures(self.default_size_fn(), (), r),
    {
        self.size()
    }

    /// Returns whether the editor window is currently open.
    pub fn is_open(&self) -> (r: bool)
        ensures
            r == self@.open,
    {
        self.open
    }

    /// Set the open state.
    pub fn set_open(&mut self, open: bool)
        ensures
            final(self)@ == old(self)@.with_open(open),
            final(self).default_size_fn() == old(self).default_size_fn(),
    {
        proof {
            use_type_invariant(&*self);
        }
        self.open = open;
    }
}

/// A resize the UI requested is handed to the window handler exactly once: the first take
/// returns it, a second take returns nothing.
pub proof fn lemma_resize_request_taken_once(s: DioxusStateView, width: u32, height: u32)
    ensures
        s.with_resize_request(width, height).pending_resize == Some((width, height)),
        s.with_resize_request(width, height).without_resize_request().pending_resize is None,
{
}

/// Repeating a resize request leaves the same state as making it once; a later request
/// replaces an earlier one.
pub proof fn lemma_resize_request_latest_wins(s: DioxusStateView, w1: u32, h1: u32, w2: u32, h2: u32)
    ensures
        s.with_resize_request(w1, h1).with_resize_request(w1, h1) == s.with_resize_request(w1, h1),
        s.with_resize_request(w1, h1).with_resize_request(w2, h2) == s.with_resize_request(w2, h2),
{
}

/// The UI resize queue and the host resize queue are independent: operating on one leaves the
/// other, the stored size and the open flag untouched.
pub proof fn lemma_resize_queues_independent(s: DioxusStateView, width: u32, height: u32)
    ensures
        s.with_resize_request(width, height).pending_host_resize == s.pending_host_resize,
        s.without_resize_request().pending_host_resize == s.pending_host_resize,
        s.with_host_resize(width, height).pending_resize == s.pending_resize,
        s.without_host_resize().pending_resize == s.pending_resize,
        s.with_resize_request(width, height).width == s.width && s.with_resize_request(
            width,
            height,
        ).height == s.height && s.with_resize_request(width, height).open == s.open,
        s.with_host_resize(width, height).width == s.width && s.with_host_resize(
            width,
            height,
        ).height == s.height && s.with_host_resize(width, height).open == s.open,
{
}

/// A host resize is always queued, whatever was pending: the latest host size is the one
/// taken, and it is taken once.
pub proof fn lemma_host_resize_latest_wins(s: DioxusStateView, w1: u32, h1: u32, w2: u32, h2: u32)
    ensures
        s.with_host_resize(w1, h1).pending_host_resize == Some((w1, h1)),
        s.with_host_resize(w1, h1).with_host_resize(w2, h2).pending_host_resize == Some((w2, h2)),
        s.with_host_resize(w1, h1).without_host_resize().pending_host_resize is None,
{
}

/// After storing a non-zero size, that size is what `size()` reports; storing a zero
/// dimension makes `size()` fall back to the default size again.
pub proof fn lemma_stored_size_reported(s: DioxusStateView, width: u32, height: u32)
    ensures
        width != 0 && height != 0 ==> s.with_size(width, height).has_size() && (s.with_size(
            width,
            height,
        ).width, s.with_size(width, height).height) == (width, height),
        width == 0 || height == 0 ==> !s.with_size(width, height).has_size(),
{
}

/// The size function used when no default size was given: it always reports `(0, 0)`, so
/// the stored size decides.
pub fn empty_size_fn() -> (f: impl Fn() -> (u32, u32))
    ensures
        call_requires(f, ()),
        forall|r: (u32, u32)| call_ensures(f, (), r) ==> r == (0u32, 0u32),
{
    || -> (r: (u32, u32)) ensures r == (0u32, 0u32) { (0, 0) }
}

/// A fresh editor state whose default size is [`empty_size_fn`]: until a size is stored,
/// `size()` reports `(0, 0)`. This is the state a restored editor starts from before its
/// persisted size is set.
pub fn state_without_default_size() -> (r: DioxusState<impl Fn() -> (u32, u32)>)
    ensures
        r@ == (DioxusStateView {
            width: 0,
            height: 0,
            open: false,
            pending_resize: None,
            pending_host_resize: None,
        }),
        forall|v: (u32, u32)| call_ensures(r.default_size_fn(), (), v) ==> v == (0u32, 0u32),
{
    DioxusState::new(empty_size_fn())
}

} // verus!
