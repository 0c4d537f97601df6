//! Size decisions of the editor window and its render targets: which UI resize requests
//! are honoured, how large a frame is rendered, how the resize handle constrains a dragged
//! size, and when GPU targets are rebuilt.
use vstd::prelude::*;

verus! {

/// Largest frame edge that is rendered (larger windows render a cropped frame).
pub const MAX_RENDER_SIZE: u32 = 4096;

/// Smallest logical window edge a UI resize request may ask for.
pub const MIN_REQUESTED_SIZE: u32 = 100;

/// Largest logical window edge a UI resize request may ask for.
pub const MAX_REQUESTED_SIZE: u32 = 4096;

/// Whether a UI resize request for a `width × height` logical window is honoured: both edges
/// must lie in `[100, 4096]`; other requests are ignored.
pub fn pending_resize_accepted(width: u32, height: u32) -> (r: bool)
    ensures
        r == (MIN_REQUESTED_SIZE <= width <= MAX_REQUESTED_SIZE && MIN_REQUESTED_SIZE <= height
            <= MAX_REQUESTED_SIZE),
{
    !(width > MAX_REQUESTED_SIZE || height > MAX_REQUESTED_SIZE || width < MIN_REQUESTED_SIZE
        || height < MIN_REQUESTED_SIZE)
}

/// Who asked for a window resize.
#[derive(Debug, Clone, Copy, PartialEq, Eq, Structural)]
pub enum ResizeSource {
    /// The UI asked (plugin → host).
    Ui,
    /// The host drives the resize (host → plugin).
    Host,
}

/// What the window handler does for one pending resize.
#[derive(Debug, Clone, Copy, PartialEq, Eq, Structural)]
pub struct ResizeActions {
    /// Resize the platform window to the logical size.
    pub resize_window: bool,
    /// Store the logical size in the editor state.
    pub store_size: bool,
    /// Ask the host to resize its window to match.
    pub notify_host: bool,
    /// Resize the viewport and render surface to the matching physical size.
    pub apply_size: bool,
}

/// The steps for a pending resize of `width × height` from `source`: a UI request is carried
/// out, host included, only when [`pending_resize_accepted`] honours it; a host resize only
/// stores the size and updates the viewport and render surface. It neither resizes the
/// window nor calls back to the host, which is already driving it.
pub fn resize_actions(source: ResizeSource, width: u32, height: u32) -> (r: ResizeActions)
    ensures
        source == ResizeSource::Ui ==> r == (if MIN_REQUESTED_SIZE <= width <= MAX_REQUESTED_SIZE
            && MIN_REQUESTED_SIZE <= height <= MAX_REQUESTED_SIZE {
            ResizeActions { resize_window: true, store_size: true, notify_host: true, apply_size: true }
        } else {
            ResizeActions {
                resize_window: false,
                store_size: false,
                notify_host: false,
                apply_size: false,
            }
        }),
        source == ResizeSource::Host ==> r == (ResizeActions {
            resize_window: false,
            store_size: true,
            notify_host: false,
            apply_size: true,
        }),
{
    match source {
        ResizeSource::Ui => {
            let accepted = pending_resize_accepted(width, height);
            ResizeActions {
                resize_window: accepted,
                store_size: accepted,
                notify_host: accepted,
                apply_size: accepted,
            }
        },
        ResizeSource::Host => ResizeActions {
            resize_window: false,
            store_size: true,
            notify_host: false,
            apply_size: true,
        },
    }
}

/// The frame size rendered for a `width × height` physical window: each edge capped at
/// [`MAX_RENDER_SIZE`].
pub fn render_extent(width: u32, height: u32) -> (r: (u32, u32))
    ensures
        r.0 == (if width < MAX_RENDER_SIZE {
            width
        } else {
            MAX_RENDER_SIZE
        }),
        r.1 == (if height < MAX_RENDER_SIZE {
            height
        } else {
            MAX_RENDER_SIZE
        }),
{
    let w = if width < MAX_RENDER_SIZE {
        width
    } else {
        MAX_RENDER_SIZE
    };
    let h = if height < MAX_RENDER_SIZE {
        height
    } else {
        MAX_RENDER_SIZE
    };
    (w, h)
}

/// One edge of a dragged window size after the resize handle's constraints: raised to the
/// minimum, then lowered to the maximum when there is one (0 means no maximum).
pub open spec fn constrained_edge(v: u32, min: u32, max: u32) -> u32 {
    let raised = if v < min {
        min
    } else {
        v
    };
    if max > 0 && raised > max {
        max
    } else {
        raised
    }
}

fn constrain_edge(v: u32, min: u32, max: u32) -> (r: u32)
    ensures
        r == constrained_edge(v, min, max),
{
    let mut r = if v < min {
        min
    } else {
        v
    };
    if max > 0 && r > max {
        r = max;
    }
    r
}

/// Apply the resize handle's constraints to a dragged `width × height` size.
pub fn constrain_size(
    width: u32,
    height: u32,
    min_width: u32,
    min_height: u32,
    max_width: u32,
    max_height: u32,
) -> (r: (u32, u32))
    ensures
        width < min_width && (max_width == 0 || min_width <= max_width) ==> r.0 == min_width,
        height < min_height && (max_height == 0 || min_height <= max_height) ==> r.1 == min_height,
        max_width > 0 && min_width <= max_width && max_width < width ==> r.0 == max_width,
        max_height > 0 && min_height <= max_height && max_height < height ==> r.1 == max_height,
        r == (constrained_edge(width, min_width, max_width), constrained_edge(
            height,
            min_height,
            max_height,
        )),
{
    (constrain_edge(width, min_width, max_width), constrain_edge(height, min_height, max_height))
}

/// A constrained size respects both bounds whenever they are consistent, and constraining
/// it again changes nothing.
pub proof fn lemma_constrained_edge_bounds(v: u32, min: u32, max: u32)
    ensures
        max == 0 || min <= max ==> min <= constrained_edge(v, min, max),
        max > 0 ==> constrained_edge(v, min, max) <= max,
        constrained_edge(constrained_edge(v, min, max), min, max) == constrained_edge(v, min, max),
        min <= v && (max == 0 || v <= max) ==> constrained_edge(v, min, max) == v,
{
}

/// A drag below the minimum is raised to exactly the minimum, a drag above a (consistent)
/// maximum is lowered to exactly the maximum, and with a maximum below the minimum the
/// maximum wins.
pub proof fn lemma_constrained_edge_clamps(v: u32, min: u32, max: u32)
    ensures
        v < min && (max == 0 || min <= max) ==> constrained_edge(v, min, max) == min,
        max > 0 && min <= max && max < v ==> constrained_edge(v, min, max) == max,
        max > 0 && max < min ==> constrained_edge(v, min, max) == max,
        constrained_edge(v, min, max) == v || constrained_edge(v, min, max) == min
            || constrained_edge(v, min, max) == max,
{
}

/// The intermediate render target's bookkeeping: the size it was made for, if it exists.
#[derive(Debug, Clone, Copy, PartialEq, Eq, Structural)]
pub struct RenderTargetCache {
    pub last_width: u32,
    pub last_height: u32,
    pub has_target: bool,
}

impl RenderTargetCache {
    /// No target yet.
    pub fn new() -> (r: Self)
        ensures
            r == (RenderTargetCache { last_width: 0, last_height: 0, has_target: false }),
    {
        RenderTargetCache { last_width: 0, last_height: 0, has_target: false }
    }

    /// Make sure a `width × height` target exists; returns whether it has to be (re)built.
    pub fn ensure(&mut self, width: u32, height: u32) -> (rebuild: bool)
        ensures
            rebuild == (old(self).last_width != width || old(self).last_height != height
                || !old(self).has_target),
            *final(self) == (RenderTargetCache {
                last_width: width,
                last_height: height,
                has_target: true,
            }),
    {
        let rebuild = self.last_width != width || self.last_height != height || !self.has_target;
        if rebuild {
            self.last_width = width;
            self.last_height = height;
            self.has_target = true;
        }
        rebuild
    }
}

/// The configured size of a window surface.
#[derive(Debug, Clone, Copy, PartialEq, Eq, Structural)]
pub struct SurfaceExtent {
    pub width: u32,
    pub height: u32,
}

impl SurfaceExtent {
    /// The initial surface size for a window: each edge at least 1.
    pub fn new(width: u32, height: u32) -> (r: Self)
        ensures
            r.width == (if width > 0 {
                width
            } else {
                1
            }),
            r.height == (if height > 0 {
                height
            } else {
                1
            }),
    {
        SurfaceExtent {
            width: if width > 0 {
                width
            } else {
                1
            },
            height: if height > 0 {
                height
            } else {
                1
            },
        }
    }

    /// Resize the surface; a size with an empty edge is ignored. Returns whether the surface
    /// has to be reconfigured.
    pub fn resize(&mut self, width: u32, height: u32) -> (changed: bool)
        ensures
            changed == (width > 0 && height > 0),
            *final(self) == (if changed {
                SurfaceExtent { width, height }
            } else {
                *old(self)
            }),
    {
        if width > 0 && height > 0 {
            self.width = width;
            self.height = height;
            true
        } else {
            false
        }
    }

    /// Resize an offscreen target, clamping each edge to at least 1; returns whether the
    /// target has to be rebuilt (its size changed).
    pub fn resize_offscreen(&mut self, width: u32, height: u32) -> (rebuild: bool)
        ensures
            final(self).width == (if width > 0 {
                width
            } else {
                1
            }),
            final(self).height == (if height > 0 {
                height
            } else {
                1
            }),
            rebuild == (final(self).width != old(self).width || final(self).height != old(
                self,
            ).height),
    {
        let width = if width > 0 {
            width
        } else {
            1
        };
        let height = if height > 0 {
            height
        } else {
            1
        };
        if width == self.width && height == self.height {
            return false;
        }
        self.width = width;
        self.height = height;
        true
    }
}

} // verus!
