//! Decisions of the embedded (REAPER TCP/MCP) Dioxus editor: the size hints it reports, when
//! it asks its render thread for a new frame, how mouse input is forwarded, which cached frame a
//! paint uses, and what the render thread does for each command.
//!
//! The render thread itself, its channels and the CPU rasterizer run at the application layer,
//! which carries out the plans computed here.
use vstd::prelude::*;

use crate::embedded::{
    alpha_of, blue_of, color_of, embed_flags, green_of, lemma_color_channels, red_of, BitmapLayout,
    EmbedBitmap, EmbedContext, EmbedMouseEvent, EmbedSizeHints,
};
use crate::events::{PointerButton, PointerEvent, PointerEventKind};

verus! {

/// 16.16 fixed-point aspect ratio of 2:1 (wider than tall).
pub const ASPECT_WIDE: i32 = 131072;

/// 16.16 fixed-point aspect ratio of 1:2 (taller than wide).
pub const ASPECT_TALL: i32 = 32768;

/// 16.16 fixed-point aspect ratio of 0.1 (truncated).
pub const ASPECT_MIN: i32 = 6553;

/// The size hints the embedded editor reports for `context`: mixer strips prefer a tall
/// area, track panels a wide one; both allow 60–2000 pixels in each direction.
pub open spec fn spec_size_hints(context: EmbedContext) -> EmbedSizeHints {
    EmbedSizeHints {
        preferred_aspect: if context == EmbedContext::Mcp {
            ASPECT_TALL
        } else {
            ASPECT_WIDE
        },
        minimum_aspect: ASPECT_MIN,
        min_width: 60,
        min_height: 60,
        max_width: 2000,
        max_height: 2000,
    }
}

/// The size hints the embedded editor reports for `context`.
pub fn size_hints(context: EmbedContext) -> (r: Option<EmbedSizeHints>)
    ensures
        r == Some(spec_size_hints(context)),
        r matches Some(h) && h.min_width == 60 && h.min_height == 60 && h.max_width == 2000
            && h.max_height == 2000 && h.minimum_aspect == ASPECT_MIN,
{
    match context {
        EmbedContext::Mcp => Some(
            EmbedSizeHints {
                preferred_aspect: ASPECT_TALL,  // MCP: prefer taller for vertical mixer strips
                minimum_aspect: ASPECT_MIN,
                min_width: 60,
                min_height: 60,
                max_width: 2000,
                max_height: 2000,
            },
        ),
        _ => Some(
            EmbedSizeHints {
                preferred_aspect: ASPECT_WIDE,  // TCP: prefer wider
                minimum_aspect: ASPECT_MIN,
                min_width: 60,
                min_height: 60,
                max_width: 2000,
                max_height: 2000,
            },
        ),
    }
}

/// In every context the hints allow 60 to 2000 pixels each way with the same minimum aspect;
/// only the preferred aspect depends on the context: tall for mixer strips, wide for track
/// panels and unknown panels.
pub proof fn lemma_size_hints_per_context(context: EmbedContext)
    ensures
        spec_size_hints(context).min_width == 60,
        spec_size_hints(context).min_height == 60,
        spec_size_hints(context).max_width == 2000,
        spec_size_hints(context).max_height == 2000,
        spec_size_hints(context).minimum_aspect == 6553,
        context == EmbedContext::Mcp ==> spec_size_hints(context).preferred_aspect == 32768,
        context != EmbedContext::Mcp ==> spec_size_hints(context).preferred_aspect == 131072,
        spec_size_hints(context).preferred_aspect > 65536 <==> context != EmbedContext::Mcp,
{
}

/// Mouse event kinds forwarded to the render thread.
#[derive(Debug, Clone, Copy, PartialEq, Eq, Structural)]
pub enum MouseEventType {
    Move,
    Down,
    Up,
}

/// A mouse event to forward to the render thread, with the area size it refers to.
#[derive(Debug, Clone, Copy, PartialEq, Eq, Structural)]
pub struct MouseCommand {
    pub event_type: MouseEventType,
    pub width: u32,
    pub height: u32,
}

/// The forwarded kind of an embedded mouse event, if it is forwarded at all.
pub open spec fn forwarded_kind(event: EmbedMouseEvent) -> Option<MouseEventType> {
    match event {
        EmbedMouseEvent::Move => Some(MouseEventType::Move),
        EmbedMouseEvent::LeftDown => Some(MouseEventType::Down),
        EmbedMouseEvent::LeftUp => Some(MouseEventType::Up),
        _ => None,
    }
}

/// Only pointer moves and the left (main) button reach the UI: a move becomes a move, a left
/// press a press and a left release a release; right-button, double-click and wheel events
/// are not forwarded.
pub proof fn lemma_forwarded_events(event: EmbedMouseEvent)
    ensures
        forwarded_kind(event) is Some <==> (event is Move || event is LeftDown || event is LeftUp),
        event is Move ==> forwarded_kind(event) == Some(MouseEventType::Move),
        event is LeftDown ==> forwarded_kind(event) == Some(MouseEventType::Down),
        event is LeftUp ==> forwarded_kind(event) == Some(MouseEventType::Up),
{
}

/// Request bookkeeping on the host side of the embedded editor: the size last asked for and
/// whether a fresh frame is owed regardless of size.
#[derive(Debug, Clone, Copy, PartialEq, Eq, Structural)]
pub struct RenderRequests {
    /// Current requested width.
    pub current_width: u32,
    /// Current requested height.
    pub current_height: u32,
    /// A fresh render is needed (e.g. after a parameter change or mouse input).
    pub needs_render: bool,
}

impl RenderRequests {
    /// No size requested yet; the first paint asks for a frame.
    pub fn new() -> (r: Self)
        ensures
            r == (RenderRequests { current_width: 0, current_height: 0, needs_render: true }),
    {
        RenderRequests { current_width: 0, current_height: 0, needs_render: true }
    }

    /// Whether a paint of `width × height` asks the render thread for a frame: yes when the
    /// size changed or a fresh render was owed.
    pub open spec fn sends_render(self, width: u32, height: u32) -> bool {
        self.current_width != width || self.current_height != height || self.needs_render
    }

    /// The bookkeeping after a paint of `width × height`. The owed flag is consumed only when
    /// the size is unchanged.
    pub open spec fn after_request(self, width: u32, height: u32) -> RenderRequests {
        RenderRequests {
            current_width: width,
            current_height: height,
            needs_render: if self.current_width != width || self.current_height != height {
                self.needs_render
            } else {
                false
            },
        }
    }

    /// Record a paint of `width × height` and decide whether to ask the render thread for a frame.
    pub fn request_render(&mut self, width: u32, height: u32) -> (send: bool)
        ensures
            send == old(self).sends_render(width, height),
            *final(self) == old(self).after_request(width, height),
    {
        let old_width = self.current_width;
        let old_height = self.current_height;
        self.current_width = width;
        self.current_height = height;
        if old_width != width || old_height != height {
            true
        } else {
            let owed = self.needs_render;
            self.needs_render = false;
            owed
        }
    }

    /// Mark that we need a fresh render (e.g., after parameter changes).
    pub fn invalidate(&mut self)
        ensures
            *final(self) == (RenderRequests { needs_render: true, ..*old(self) }),
    {
        self.needs_render = true;
    }

    /// Handle an embedded mouse event: the command to forward (if any) and the flags to answer.
    ///
    /// Only moves and left-button presses/releases are forwarded, and only once a size is known;
    /// a forwarded event owes a fresh render and is answered `HANDLED | INVALIDATE`.
    pub fn mouse_event(&mut self, event: EmbedMouseEvent) -> (r: (Option<MouseCommand>, u32))
        ensures
            !(event is Move || event is LeftDown || event is LeftUp) ==> r == (None::<MouseCommand>, 0u32)
                && *final(self) == *old(self),
            match forwarded_kind(event) {
                Some(k) => if old(self).current_width != 0 && old(self).current_height != 0 {
                    &&& r == (Some(
                        MouseCommand {
                            event_type: k,
                            width: old(self).current_width,
                            height: old(self).current_height,
                        },
                    ), embed_flags::HANDLED | embed_flags::INVALIDATE)
                    &&& *final(self) == RenderRequests { needs_render: true, ..*old(self) }
                } else {
                    r == (None::<MouseCommand>, 0u32) && *final(self) == *old(self)
                },
                None => r == (None::<MouseCommand>, 0u32) && *final(self) == *old(self),
            },
    {
        let event_type = match event {
            EmbedMouseEvent::Move => MouseEventType::Move,
            EmbedMouseEvent::LeftDown => MouseEventType::Down,
            EmbedMouseEvent::LeftUp => MouseEventType::Up,
            _ => {
                return (None, 0);
            },
        };
        let width = self.current_width;
        let height = self.current_height;
        if width == 0 || height == 0 {
            return (None, 0);
        }
        // Request a re-render after mouse events
        self.needs_render = true;
        (
            Some(MouseCommand { event_type, width, height }),
            embed_flags::HANDLED | embed_flags::INVALIDATE,
        )
    }
}

/// Frames are not requested over and over for one size: once a paint of a size has found
/// nothing owed, repainting that size sends nothing until the editor is invalidated; an
/// invalidation is answered by exactly one request; a size change always sends.
pub proof fn lemma_render_requests_not_repeated(
    r: RenderRequests,
    width: u32,
    height: u32,
    w2: u32,
    h2: u32,
)
    ensures
        !r.after_request(width, height).needs_render ==> !r.after_request(width, height).sends_render(
            width,
            height,
        ),
        !r.after_request(width, height).after_request(width, height).sends_render(width, height),
        (RenderRequests { needs_render: true, ..r.after_request(width, height) }).sends_render(
            width,
            height,
        ),
        !(RenderRequests { needs_render: true, ..r.after_request(width, height) }).after_request(
            width,
            height,
        ).sends_render(width, height),
        (w2 != width || h2 != height) ==> r.after_request(width, height).sends_render(w2, h2),
{
}

/// Where a paint takes its pixels from.
#[derive(Debug, Clone, Copy, PartialEq, Eq, Structural)]
pub enum FrameSource {
    /// The cached frame has the bitmap's size: copy it.
    Copy,
    /// The cached frame has another size: scale it (nearest neighbour) while a new one renders.
    Scale,
    /// No frame yet: clear to the placeholder color.
    Placeholder,
}

/// Choose the source of a `width × height` paint given the size of the cached frame, if any.
pub fn choose_frame_source(cached: Option<(u32, u32)>, width: u32, height: u32) -> (r: FrameSource)
    ensures
        r == (match cached {
            None => FrameSource::Placeholder,
            Some((w, h)) => if w == width && h == height {
                FrameSource::Copy
            } else {
                FrameSource::Scale
            },
        }),
{
    match cached {
        None => FrameSource::Placeholder,
        Some((w, h)) => if w == width && h == height {
            FrameSource::Copy
        } else {
            FrameSource::Scale
        },
    }
}

/// A command to the render thread, without its (fractional) scale.
#[derive(Debug, Clone, Copy, PartialEq, Eq, Structural)]
pub enum RenderCommandKind {
    Render { width: u32, height: u32 },
    MouseEvent { event_type: MouseEventType, width: u32, height: u32 },
    Shutdown,
}

/// What the render thread knows between commands.
#[derive(Debug, Clone, Copy, PartialEq, Eq)]
pub struct RenderThreadState {
    /// Size of the current rasterizer (0×0 before the first).
    pub last_size: (u32, u32),
    /// Pointer buttons currently held.
    pub buttons: u8,
    /// A document has been built.
    pub has_document: bool,
    /// A rasterizer has been created.
    pub has_renderer: bool,
}

/// The steps the render thread takes for one command.
#[derive(Debug, Clone, Copy, PartialEq, Eq)]
pub struct RenderPlan {
    /// Leave the command loop.
    pub stop: bool,
    /// Skip the rest of this iteration (including the idle refresh).
    pub skip: bool,
    /// Build the document with a viewport of this size.
    pub create_document: Option<(u32, u32)>,
    /// Create a rasterizer of this size.
    pub create_renderer: Option<(u32, u32)>,
    /// Update the document's viewport to this size.
    pub set_viewport: Option<(u32, u32)>,
    /// Dispatch this pointer event to the document (then poll it).
    pub ui_event: Option<PointerEvent>,
    /// Render a frame of this size.
    pub render: Option<(u32, u32)>,
}

impl RenderThreadState {
    /// Nothing built yet, no buttons held.
    pub fn new() -> (r: Self)
        ensures
            r == (RenderThreadState {
                last_size: (0, 0),
                buttons: 0,
                has_document: false,
                has_renderer: false,
            }),
    {
        RenderThreadState { last_size: (0, 0), buttons: 0, has_document: false, has_renderer: false }
    }

    /// Plan the handling of one command and advance the state accordingly.
    pub fn plan(&mut self, cmd: RenderCommandKind) -> (p: RenderPlan)
        ensures
            *final(self) == next_render_state(*old(self), cmd),
            p.render == planned_render(*old(self), cmd),
            match cmd {
                RenderCommandKind::Shutdown => p.stop && *final(self) == *old(self),
                RenderCommandKind::Render { width, height } => if width == 0 || height == 0 {
                    !p.stop && p.skip && p.create_document is None && p.create_renderer is None
                        && p.set_viewport is None && p.ui_event is None && p.render is None
                        && *final(self) == *old(self)
                } else {
                    let resized = old(self).last_size != (width, height);
                    &&& !p.stop
                    &&& p.skip == (p.render is None)
                    &&& p.create_document == (if old(self).has_document {
                        None
                    } else {
                        Some((width, height))
                    })
                    &&& p.create_renderer == (if resized {
                        Some((width, height))
                    } else {
                        None
                    })
                    &&& p.set_viewport == p.create_renderer
                    &&& p.ui_event is None
                    &&& p.render == (if resized || old(self).has_renderer {
                        Some((width, height))
                    } else {
                        None
                    })
                    &&& *final(self) == RenderThreadState {
                        last_size: (width, height),
                        has_document: true,
                        has_renderer: old(self).has_renderer || resized,
                        ..*old(self)
                    }
                },
                RenderCommandKind::MouseEvent { event_type, width, height } => {
                    let fresh = !old(self).has_document;
                    let size = if fresh {
                        (width, height)
                    } else {
                        old(self).last_size
                    };
                    let buttons = match event_type {
                        MouseEventType::Move => old(self).buttons,
                        MouseEventType::Down => old(self).buttons | 1u8,
                        MouseEventType::Up => old(self).buttons & !1u8,
                    };
                    let kind = match event_type {
                        MouseEventType::Move => PointerEventKind::Move,
                        MouseEventType::Down => PointerEventKind::Down,
                        MouseEventType::Up => PointerEventKind::Up,
                    };
                    &&& !p.stop && !p.skip
                    &&& p.create_document == (if fresh {
                        Some((width, height))
                    } else {
                        None
                    })
                    &&& p.create_renderer == p.create_document
                    &&& p.set_viewport is None
                    &&& p.ui_event == Some(
                        PointerEvent { kind, button: PointerButton::Main, buttons },
                    )
                    &&& p.render == (if fresh || old(self).has_renderer {
                        Some(size)
                    } else {
                        None
                    })
                    &&& *final(self) == RenderThreadState {
                        last_size: size,
                        buttons,
                        has_document: true,
                        has_renderer: old(self).has_renderer || fresh,
                    }
                },
            },
    {
        let none = RenderPlan {
            stop: false,
            skip: false,
            create_document: None,
            create_renderer: None,
            set_viewport: None,
            ui_event: None,
            render: None,
        };
        match cmd {
            RenderCommandKind::Shutdown => RenderPlan { stop: true, ..none },
            RenderCommandKind::Render { width, height } => {
                if width == 0 || height == 0 {
                    return RenderPlan { skip: true, ..none };
                }
                // Initialize document on first render
                let create_document = if self.has_document {
                    None
                } else {
                    Some((width, height))
                };
                self.has_document = true;
                // Update or create renderer if size changed
                let resized = self.last_size.0 != width || self.last_size.1 != height;
                let create_renderer = if resized {
                    Some((width, height))
                } else {
                    None
                };
                if resized {
                    self.has_renderer = true;
                    self.last_size = (width, height);
                }
                let render = if self.has_renderer {
                    Some((width, height))
                } else {
                    None
                };
                // Without a rasterizer the iteration ends here
                RenderPlan {
                    skip: render.is_none(),
                    create_document,
                    create_renderer,
                    set_viewport: create_renderer,
                    render,
                    ..none
                }
            },
            RenderCommandKind::MouseEvent { event_type, width, height } => {
                // Ensure document exists
                let fresh = !self.has_document;
                if fresh {
                    self.has_document = true;
                    self.has_renderer = true;
                    self.last_size = (width, height);
                }
                let create_document = if fresh {
                    Some((width, height))
                } else {
                    None
                };
                let (kind, buttons) = match event_type {
                    MouseEventType::Move => (PointerEventKind::Move, self.buttons),
                    MouseEventType::Down => (PointerEventKind::Down, self.buttons | 1u8),
                    MouseEventType::Up => (PointerEventKind::Up, self.buttons & !1u8),
                };
                self.buttons = buttons;
                let render = if self.has_renderer {
                    Some(self.last_size)
                } else {
                    None
                };
                RenderPlan {
                    create_document,
                    create_renderer: create_document,
                    ui_event: Some(PointerEvent { kind, button: PointerButton::Main, buttons }),
                    render,
                    ..none
                }
            },
        }
    }

    /// The frame size of the periodic refresh between commands, if there is one to render.
    pub fn idle_render(&self) -> (r: Option<(u32, u32)>)
        ensures
            r == (if self.has_document && self.has_renderer && self.last_size.0 > 0
                && self.last_size.1 > 0 {
                Some(self.last_size)
            } else {
                None
            }),
    {
        if self.has_document && self.has_renderer && self.last_size.0 > 0 && self.last_size.1 > 0 {
            Some(self.last_size)
        } else {
            None
        }
    }
}


/// The render thread's state after it has planned command `cmd` in state `s`.
pub open spec fn next_render_state(s: RenderThreadState, cmd: RenderCommandKind) -> RenderThreadState {
    match cmd {
        RenderCommandKind::Shutdown => s,
        RenderCommandKind::Render { width, height } => if width == 0 || height == 0 {
            s
        } else {
            RenderThreadState {
                last_size: (width, height),
                has_document: true,
                has_renderer: s.has_renderer || s.last_size != (width, height),
                ..s
            }
        },
        RenderCommandKind::MouseEvent { event_type, width, height } => {
            let fresh = !s.has_document;
            RenderThreadState {
                last_size: if fresh {
                    (width, height)
                } else {
                    s.last_size
                },
                buttons: match event_type {
                    MouseEventType::Move => s.buttons,
                    MouseEventType::Down => s.buttons | 1u8,
                    MouseEventType::Up => s.buttons & !1u8,
                },
                has_document: true,
                has_renderer: s.has_renderer || fresh,
            }
        },
    }
}

/// The size of the frame that command `cmd` renders in state `s`, if it renders one.
pub open spec fn planned_render(s: RenderThreadState, cmd: RenderCommandKind) -> Option<(u32, u32)> {
    match cmd {
        RenderCommandKind::Shutdown => None,
        RenderCommandKind::Render { width, height } => if width == 0 || height == 0 {
            None
        } else if s.last_size != (width, height) || s.has_renderer {
            Some((width, height))
        } else {
            None
        },
        RenderCommandKind::MouseEvent { width, height, .. } => if !s.has_document {
            Some((width, height))
        } else if s.has_renderer {
            Some(s.last_size)
        } else {
            None
        },
    }
}

/// The render thread's state after planning `cmds` in order, starting from `s`.
pub open spec fn render_state_after(s: RenderThreadState, cmds: Seq<RenderCommandKind>) -> RenderThreadState
    decreases cmds.len(),
{
    if cmds.len() == 0 {
        s
    } else {
        next_render_state(render_state_after(s, cmds.drop_last()), cmds.last())
    }
}

/// The render thread's state before its first command.
pub open spec fn initial_render_state() -> RenderThreadState {
    RenderThreadState { last_size: (0, 0), buttons: 0, has_document: false, has_renderer: false }
}

/// A mouse command carries a non-zero size (other commands need none).
pub open spec fn command_has_size(cmd: RenderCommandKind) -> bool {
    match cmd {
        RenderCommandKind::MouseEvent { width, height, .. } => width > 0 && height > 0,
        _ => true,
    }
}

/// Once a rasterizer exists, it has a non-zero size.
pub open spec fn renderer_has_size(s: RenderThreadState) -> bool {
    s.has_renderer ==> s.last_size.0 > 0 && s.last_size.1 > 0
}

/// Over any sequence of commands whose mouse commands carry a non-zero size, every frame the
/// render thread renders, for a command or as the idle refresh, has a non-zero size.
pub proof fn lemma_rendered_frames_have_size(cmds: Seq<RenderCommandKind>, i: int)
    requires
        0 <= i < cmds.len(),
        forall|j: int| 0 <= j < cmds.len() ==> command_has_size(#[trigger] cmds[j]),
    ensures
        planned_render(render_state_after(initial_render_state(), cmds.take(i)), cmds[i]) matches Some((w, h)) ==> w > 0 && h > 0,
        renderer_has_size(render_state_after(initial_render_state(), cmds.take(i + 1))),
{
    lemma_renderer_keeps_size(cmds, i);
    lemma_renderer_keeps_size(cmds, i + 1);
}

/// Planning commands that carry sizes keeps every rasterizer sized.
proof fn lemma_renderer_keeps_size(cmds: Seq<RenderCommandKind>, i: int)
    requires
        0 <= i <= cmds.len(),
        forall|j: int| 0 <= j < cmds.len() ==> command_has_size(#[trigger] cmds[j]),
    ensures
        renderer_has_size(render_state_after(initial_render_state(), cmds.take(i))),
    decreases i,
{
    if i > 0 {
        lemma_renderer_keeps_size(cmds, i - 1);
        assert(cmds.take(i).drop_last() == cmds.take(i - 1));
        assert(cmds.take(i).last() == cmds[i - 1]);
        assert(command_has_size(cmds[i - 1]));
    } else {
        assert(cmds.take(0).len() == 0);
    }
}

/// How destination pixel number `k` of a paint finds its source pixel.
pub enum FrameMapping {
    /// Same size: pixel `k` reads source pixel `k`.
    Direct,
    /// Nearest-neighbour scaling from a `src_width × src_height` frame to a
    /// `dst_width × dst_height` area.
    Scaled { src_width: u32, src_height: u32, dst_width: u32, dst_height: u32 },
}

/// Nearest source coordinate for destination coordinate `d` when `src` source pixels span
/// `dst` destination pixels.
pub open spec fn nearest_source(d: int, src: int, dst: int) -> int {
    let s = d * src / dst;
    if s < src - 1 {
        s
    } else {
        src - 1
    }
}

/// Byte offset in the source frame of the pixel that destination pixel `k` (row-major over a
/// `w`-wide area) takes its color from.
pub open spec fn source_offset(mapping: FrameMapping, w: int, k: int) -> int {
    match mapping {
        FrameMapping::Direct => 4 * k,
        FrameMapping::Scaled { src_width, src_height, dst_width, dst_height } => 4 * (
        nearest_source(k / w, src_height as int, dst_height as int) * src_width + nearest_source(
            k % w,
            src_width as int,
            dst_width as int,
        )),
    }
}

/// Gamma-corrected color of the RGBA quadruple at byte offset `o` of `frame`; the color
/// channels go through `gamma`, alpha is kept.
pub open spec fn corrected_color(frame: Seq<u8>, gamma: Seq<u8>, o: int) -> u32 {
    color_of(
        gamma[frame[o] as int],
        gamma[frame[o + 1] as int],
        gamma[frame[o + 2] as int],
        frame[o + 3],
    )
}

/// Whether destination pixel `k` of a `w`-wide area writes buffer position `i`: it lies inside
/// the bitmap, is stored at `i`, and its source pixel is a whole quadruple of `frame`.
pub open spec fn paints_position(
    lay: BitmapLayout,
    frame: Seq<u8>,
    mapping: FrameMapping,
    w: int,
    k: int,
    i: int,
) -> bool {
    lay.in_bounds(k % w, k / w) && lay.address(k % w, k / w) == i && source_offset(mapping, w, k) + 3
        < frame.len()
}

/// The value at buffer position `i` of a bitmap (layout `lay`, initial contents `s`) after
/// the first `n` pixels of a `w`-wide area were painted in row-major order: pixel `k` is
/// written with the corrected color of its source pixel, provided that source pixel is a
/// whole quadruple of `frame`; a position keeps the value of its last write.
pub open spec fn painted_value(
    lay: BitmapLayout,
    s: Seq<u32>,
    frame: Seq<u8>,
    gamma: Seq<u8>,
    mapping: FrameMapping,
    w: int,
    n: int,
    i: int,
) -> u32
    decreases n,
{
    if n <= 0 {
        s[i]
    } else {
        let k = n - 1;
        if paints_position(lay, frame, mapping, w, k, i) {
            corrected_color(frame, gamma, source_offset(mapping, w, k))
        } else {
            painted_value(lay, s, frame, gamma, mapping, w, k, i)
        }
    }
}

/// The bitmap contents after painting a `w × h` area from `frame`.
pub open spec fn painted(
    lay: BitmapLayout,
    s: Seq<u32>,
    frame: Seq<u8>,
    gamma: Seq<u8>,
    mapping: FrameMapping,
    w: int,
    h: int,
) -> Seq<u32> {
    Seq::new(s.len(), |i: int| painted_value(lay, s, frame, gamma, mapping, w, w * h, i))
}

proof fn lemma_row_major(w: int, y: int, x: int)
    requires
        0 <= x < w,
        0 <= y,
    ensures
        (y * w + x) % w == x,
        (y * w + x) / w == y,
        (y * w + x) + 1 == (if x + 1 == w {
            (y + 1) * w
        } else {
            y * w + (x + 1)
        }),
{
    assert((y * w + x) % w == x && (y * w + x) / w == y) by (nonlinear_arith)
        requires
            0 <= x < w,
            0 <= y,
    ;
    assert((y + 1) * w == y * w + w) by (nonlinear_arith);
}

proof fn lemma_painted_value_settles(
    lay: BitmapLayout,
    s: Seq<u32>,
    frame: Seq<u8>,
    gamma: Seq<u8>,
    mapping: FrameMapping,
    w: int,
    x: int,
    y: int,
    n: int,
)
    requires
        lay.row_span >= lay.width,
        0 <= x < w,
        0 <= y,
        lay.in_bounds(x, y),
        source_offset(mapping, w, y * w + x) + 3 < frame.len(),
        n > y * w + x,
    ensures
        painted_value(lay, s, frame, gamma, mapping, w, n, lay.address(x, y)) == corrected_color(
            frame,
            gamma,
            source_offset(mapping, w, y * w + x),
        ),
    decreases n,
{
    let k0 = y * w + x;
    lemma_row_major(w, y, x);
    let k = n - 1;
    if k == k0 {
    } else {
        assert(k > k0);
        assert(k == (k / w) * w + k % w && 0 <= k % w < w && k / w >= 0) by (nonlinear_arith)
            requires
                k > k0,
                k0 >= 0,
                w > 0,
        ;
        if lay.in_bounds(k % w, k / w) && lay.address(k % w, k / w) == lay.address(x, y) {
            lay.lemma_address_injective(k % w, k / w, x, y);
            assert(false);
        }
        lemma_painted_value_settles(lay, s, frame, gamma, mapping, w, x, y, n - 1);
    }
}

/// When the bitmap's rows are at least as long as it is wide, every readable pixel of the
/// painted area shows the gamma-corrected color of its source pixel, provided that source
/// pixel lies inside the frame.
pub proof fn lemma_painted_pixel_reads(
    lay: BitmapLayout,
    s: Seq<u32>,
    frame: Seq<u8>,
    gamma: Seq<u8>,
    mapping: FrameMapping,
    w: int,
    h: int,
    x: int,
    y: int,
)
    requires
        lay.row_span >= lay.width,
        0 <= x < w,
        0 <= y < h,
        lay.read(s, x, y) is Some,
        source_offset(mapping, w, y * w + x) + 3 < frame.len(),
    ensures
        lay.read(painted(lay, s, frame, gamma, mapping, w, h), x, y) == Some(
            corrected_color(frame, gamma, source_offset(mapping, w, y * w + x)),
        ),
{
    assert(w * h > y * w + x) by (nonlinear_arith)
        requires
            0 <= x < w,
            0 <= y < h,
    ;
    lemma_painted_value_settles(lay, s, frame, gamma, mapping, w, x, y, w * h);
}

/// Every readable pixel that a paint writes shows each colour channel of its source pixel
/// through the gamma table (red, green and blue alike) and keeps the source's alpha. A
/// same-size copy takes pixel `k` from bytes `4k .. 4k + 4` of the frame.
pub proof fn lemma_painted_channels(
    lay: BitmapLayout,
    s: Seq<u32>,
    frame: Seq<u8>,
    gamma: Seq<u8>,
    mapping: FrameMapping,
    w: int,
    h: int,
    x: int,
    y: int,
)
    requires
        lay.row_span >= lay.width,
        0 <= x < w,
        0 <= y < h,
        lay.read(s, x, y) is Some,
        source_offset(mapping, w, y * w + x) + 3 < frame.len(),
    ensures
        lay.read(painted(lay, s, frame, gamma, mapping, w, h), x, y) matches Some(p) && {
            let o = source_offset(mapping, w, y * w + x);
            &&& red_of(p) == gamma[frame[o] as int]
            &&& green_of(p) == gamma[frame[o + 1] as int]
            &&& blue_of(p) == gamma[frame[o + 2] as int]
            &&& alpha_of(p) == frame[o + 3]
        },
        mapping == FrameMapping::Direct ==> source_offset(mapping, w, y * w + x) == 4 * (y * w + x),
{
    lemma_painted_pixel_reads(lay, s, frame, gamma, mapping, w, h, x, y);
    let o = source_offset(mapping, w, y * w + x);
    lemma_color_channels(
        gamma[frame[o] as int],
        gamma[frame[o + 1] as int],
        gamma[frame[o + 2] as int],
        frame[o + 3],
    );
}

/// A bitmap position that no pixel of the painted area writes keeps its value.
pub proof fn lemma_unpainted_position_kept(
    lay: BitmapLayout,
    s: Seq<u32>,
    frame: Seq<u8>,
    gamma: Seq<u8>,
    mapping: FrameMapping,
    w: int,
    n: int,
    i: int,
)
    requires
        forall|k: int| 0 <= k < n ==> !#[trigger] paints_position(lay, frame, mapping, w, k, i),
    ensures
        painted_value(lay, s, frame, gamma, mapping, w, n, i) == s[i],
    decreases n,
{
    if n > 0 {
        assert(!paints_position(lay, frame, mapping, w, n - 1, i));
        lemma_unpainted_position_kept(lay, s, frame, gamma, mapping, w, n - 1, i);
    }
}

/// Gamma-correct a byte through the lookup table.
fn corrected(gamma: &[u8; 256], v: u8) -> (r: u8)
    ensures
        r == gamma@[v as int],
{
    gamma[v as usize]
}

/// Copy an RGBA frame of the bitmap's size into the bitmap, gamma-correcting the color
/// channels through `gamma` (the frame's alpha is kept).
///
/// Pixels whose quadruple lies past the end of the frame are left as they are.
pub fn copy_rgba_to_bitmap(
    buffer: &[u8],
    bitmap: &mut EmbedBitmap<'_>,
    width: u32,
    height: u32,
    gamma: &[u8; 256],
)
    requires
        width == 0 || height == 0 || ((width * height - 1) * 4 <= u32::MAX && (width * height - 1)
            * 4 + 3 <= usize::MAX),
        old(bitmap).layout().addresses_fit(0, width as int, 0, height as int),
    ensures
        final(bitmap).layout() == old(bitmap).layout(),
        final(bitmap).pixels() == painted(
            old(bitmap).layout(),
            old(bitmap).pixels(),
            buffer@,
            gamma@,
            FrameMapping::Direct,
            width as int,
            height as int,
        ),
{
    let ghost lay = bitmap.layout();
    let ghost start = bitmap.pixels();
    let ghost w = width as int;
    let mut y: u32 = 0;
    while y < height
        invariant
            y <= height,
            bitmap.layout() == lay,
            lay.addresses_fit(0, w, 0, height as int),
            w == width,
            width == 0 || height == 0 || ((width * height - 1) * 4 <= u32::MAX && (width * height
                - 1) * 4 + 3 <= usize::MAX),
            bitmap.pixels().len() == start.len(),
            forall|i: int|
                0 <= i < start.len() ==> #[trigger] bitmap.pixels()[i] == painted_value(
                    lay,
                    start,
                    buffer@,
                    gamma@,
                    FrameMapping::Direct,
                    w,
                    y * w,
                    i,
                ),
        decreases height - y,
    {
        let mut x: u32 = 0;
        while x < width
            invariant
                y < height,
                x <= width,
                bitmap.layout() == lay,
                lay.addresses_fit(0, w, 0, height as int),
                w == width,
                (width * height - 1) * 4 <= u32::MAX && (width * height - 1) * 4 + 3 <= usize::MAX,
                bitmap.pixels().len() == start.len(),
                forall|i: int|
                    0 <= i < start.len() ==> #[trigger] bitmap.pixels()[i] == painted_value(
                        lay,
                        start,
                        buffer@,
                        gamma@,
                        FrameMapping::Direct,
                        w,
                        y * w + x,
                        i,
                    ),
            decreases width - x,
        {
            proof {
                lemma_row_major(w, y as int, x as int);
                assert((y * w + x) * 4 <= (width * height - 1) * 4) by (nonlinear_arith)
                    requires
                        x < width,
                        y < height,
                        w == width,
                ;
            }
            let idx = ((y * width + x) * 4) as usize;
            assert(buffer@.len() == buffer.len());
            if idx + 3 < buffer.len() {
                let r = corrected(gamma, buffer[idx]);
                let g = corrected(gamma, buffer[idx + 1]);
                let b = corrected(gamma, buffer[idx + 2]);
                let a = buffer[idx + 3];  // Alpha doesn't need gamma
                let color = EmbedBitmap::rgba(r, g, b, a);
                assert(lay.in_bounds(x as int, y as int) ==> lay.address(x as int, y as int)
                    <= u32::MAX);
                bitmap.set_pixel(x, y, color);
            }
            proof {
                assert forall|i: int| 0 <= i < start.len() implies #[trigger] bitmap.pixels()[i]
                    == painted_value(
                    lay,
                    start,
                    buffer@,
                    gamma@,
                    FrameMapping::Direct,
                    w,
                    y * w + x + 1,
                    i,
                ) by {
                    if lay.in_bounds(x as int, y as int) {
                        lay.lemma_address_nonneg(x as int, y as int);
                    }
                }
            }
            x = x + 1;
        }
        proof {
            assert((y + 1) * w == y * w + w) by (nonlinear_arith);
        }
        y = y + 1;
    }
    assert(y * w == w * height) by (nonlinear_arith)
        requires
            y == height,
    ;
    assert(bitmap.pixels() =~= painted(
        lay,
        start,
        buffer@,
        gamma@,
        FrameMapping::Direct,
        w,
        height as int,
    ));
}

/// Nearest source coordinate (exec form of [`nearest_source`]).
fn nearest(d: u32, src: u32, dst: u32) -> (r: u32)
    requires
        src > 0,
        dst > 0,
        d * src <= u32::MAX,
    ensures
        r == nearest_source(d as int, src as int, dst as int),
        r < src,
{
    assert(d * src / (dst as int) >= 0) by (nonlinear_arith)
        requires
            d >= 0,
            src > 0,
            dst > 0,
    ;
    let s = d * src / dst;
    if s < src - 1 {
        s
    } else {
        src - 1
    }
}

/// Scale an RGBA frame to fit a different-sized bitmap using nearest-neighbor interpolation,
/// gamma-correcting the color channels through `gamma`.
///
/// This displays a cached frame while a re-render at the new size is pending. Nothing is
/// painted when either size is empty.
pub fn scale_rgba_to_bitmap(
    src_buffer: &[u8],
    src_width: u32,
    src_height: u32,
    bitmap: &mut EmbedBitmap<'_>,
    dst_width: u32,
    dst_height: u32,
    gamma: &[u8; 256],
)
    requires
        src_width > 0 && src_height > 0 && dst_width > 0 && dst_height > 0 ==> {
            &&& (dst_width - 1) * src_width <= u32::MAX
            &&& (dst_height - 1) * src_height <= u32::MAX
            &&& (src_width * src_height - 1) * 4 <= u32::MAX
            &&& (src_width * src_height - 1) * 4 + 3 <= usize::MAX
            &&& old(bitmap).layout().addresses_fit(0, dst_width as int, 0, dst_height as int)
        },
    ensures
        final(bitmap).layout() == old(bitmap).layout(),
        src_width == 0 || src_height == 0 || dst_width == 0 || dst_height == 0 ==> final(bitmap).pixels()
            == old(bitmap).pixels(),
        src_width > 0 && src_height > 0 && dst_width > 0 && dst_height > 0 ==> final(bitmap).pixels()
            == painted(
            old(bitmap).layout(),
            old(bitmap).pixels(),
            src_buffer@,
            gamma@,
            FrameMapping::Scaled { src_width, src_height, dst_width, dst_height },
            dst_width as int,
            dst_height as int,
        ),
{
    if src_width == 0 || src_height == 0 || dst_width == 0 || dst_height == 0 {
        return ;
    }
    let ghost lay = bitmap.layout();
    let ghost start = bitmap.pixels();
    let ghost w = dst_width as int;
    let ghost mapping = FrameMapping::Scaled { src_width, src_height, dst_width, dst_height };
    let mut dst_y: u32 = 0;
    while dst_y < dst_height
        invariant
            dst_y <= dst_height,
            src_width > 0 && src_height > 0 && dst_width > 0 && dst_height > 0,
            (dst_width - 1) * src_width <= u32::MAX,
            (dst_height - 1) * src_height <= u32::MAX,
            (src_width * src_height - 1) * 4 <= u32::MAX,
            (src_width * src_height - 1) * 4 + 3 <= usize::MAX,
            bitmap.layout() == lay,
            lay.addresses_fit(0, w, 0, dst_height as int),
            w == dst_width,
            mapping == (FrameMapping::Scaled { src_width, src_height, dst_width, dst_height }),
            bitmap.pixels().len() == start.len(),
            forall|i: int|
                0 <= i < start.len() ==> #[trigger] bitmap.pixels()[i] == painted_value(
                    lay,
                    start,
                    src_buffer@,
                    gamma@,
                    mapping,
                    w,
                    dst_y * w,
                    i,
                ),
        decreases dst_height - dst_y,
    {
        let mut dst_x: u32 = 0;
        while dst_x < dst_width
            invariant
                dst_y < dst_height,
                dst_x <= dst_width,
                src_width > 0 && src_height > 0 && dst_width > 0 && dst_height > 0,
                (dst_width - 1) * src_width <= u32::MAX,
                (dst_height - 1) * src_height <= u32::MAX,
                (src_width * src_height - 1) * 4 <= u32::MAX,
                (src_width * src_height - 1) * 4 + 3 <= usize::MAX,
                bitmap.layout() == lay,
                lay.addresses_fit(0, w, 0, dst_height as int),
                w == dst_width,
                mapping == (FrameMapping::Scaled { src_width, src_height, dst_width, dst_height }),
                bitmap.pixels().len() == start.len(),
                forall|i: int|
                    0 <= i < start.len() ==> #[trigger] bitmap.pixels()[i] == painted_value(
                        lay,
                        start,
                        src_buffer@,
                        gamma@,
                        mapping,
                        w,
                        dst_y * w + dst_x,
                        i,
                    ),
            decreases dst_width - dst_x,
        {
            proof {
                lemma_row_major(w, dst_y as int, dst_x as int);
                assert(dst_x * src_width <= (dst_width - 1) * src_width) by (nonlinear_arith)
                    requires
                        dst_x < dst_width,
                        src_width > 0,
                ;
                assert(dst_y * src_height <= (dst_height - 1) * src_height) by (nonlinear_arith)
                    requires
                        dst_y < dst_height,
                        src_height > 0,
                ;
            }
            // Map destination pixel to source pixel (nearest neighbor)
            let src_x = nearest(dst_x, src_width, dst_width);
            let src_y = nearest(dst_y, src_height, dst_height);
            proof {
                assert(src_y * src_width + src_x <= src_width * src_height - 1) by (nonlinear_arith)
                    requires
                        src_x < src_width,
                        src_y < src_height,
                ;
            }
            let idx = ((src_y * src_width + src_x) * 4) as usize;
            assert(src_buffer@.len() == src_buffer.len());
            if idx + 3 < src_buffer.len() {
                let r = corrected(gamma, src_buffer[idx]);
                let g = corrected(gamma, src_buffer[idx + 1]);
                let b = corrected(gamma, src_buffer[idx + 2]);
                let a = src_buffer[idx + 3];
                let color = EmbedBitmap::rgba(r, g, b, a);
                assert(lay.in_bounds(dst_x as int, dst_y as int) ==> lay.address(
                    dst_x as int,
                    dst_y as int,
                ) <= u32::MAX);
                bitmap.set_pixel(dst_x, dst_y, color);
            }
            proof {
                assert(source_offset(mapping, w, dst_y * w + dst_x) == idx);
                assert forall|i: int| 0 <= i < start.len() implies #[trigger] bitmap.pixels()[i]
                    == painted_value(
                    lay,
                    start,
                    src_buffer@,
                    gamma@,
                    mapping,
                    w,
                    dst_y * w + dst_x + 1,
                    i,
                ) by {
                    if lay.in_bounds(dst_x as int, dst_y as int) {
                        lay.lemma_address_nonneg(dst_x as int, dst_y as int);
                    }
                }
            }
            dst_x = dst_x + 1;
        }
        proof {
            assert((dst_y + 1) * w == dst_y * w + w) by (nonlinear_arith);
        }
        dst_y = dst_y + 1;
    }
    assert(dst_y * w == w * dst_height) by (nonlinear_arith)
        requires
            dst_y == dst_height,
    ;
    assert(bitmap.pixels() =~= painted(
        lay,
        start,
        src_buffer@,
        gamma@,
        mapping,
        w,
        dst_height as int,
    ));
}

/// The color painted while no frame has been rendered yet.
pub open spec fn placeholder_color() -> u32 {
    color_of(26u8, 26u8, 30u8, 255u8)
}

/// Whether painting a non-empty bitmap of layout `lay` from `frame` stays within the index
/// ranges that the copy and the scaling use.
pub open spec fn frame_paint_fits(lay: BitmapLayout, frame: Option<(&[u8], u32, u32)>) -> bool {
    let w = lay.width as int;
    let h = lay.height as int;
    &&& lay.addresses_fit(0, w, 0, h)
    &&& match frame {
        None => true,
        Some((_, fw, fh)) => if fw == lay.width && fh == lay.height {
            (w * h - 1) * 4 <= u32::MAX && (w * h - 1) * 4 + 3 <= usize::MAX
        } else if fw > 0 && fh > 0 {
            &&& (w - 1) * fw <= u32::MAX
            &&& (h - 1) * fh <= u32::MAX
            &&& (fw * fh - 1) * 4 <= u32::MAX
            &&& (fw * fh - 1) * 4 + 3 <= usize::MAX
        } else {
            true
        },
    }
}

/// The pixels of a non-empty bitmap of layout `lay`, holding `s`, after a paint from `frame`:
/// a frame of the bitmap's size is copied, a frame of another size is scaled to it, and with
/// no frame the whole bitmap shows the placeholder color.
pub open spec fn painted_from_frame(
    lay: BitmapLayout,
    s: Seq<u32>,
    frame: Option<(&[u8], u32, u32)>,
    gamma: Seq<u8>,
) -> Seq<u32> {
    let w = lay.width as int;
    let h = lay.height as int;
    match frame {
        None => lay.filled(s, 0, w, 0, h, placeholder_color()),
        Some((buffer, fw, fh)) => if fw == lay.width && fh == lay.height {
            painted(lay, s, buffer@, gamma, FrameMapping::Direct, w, h)
        } else if fw > 0 && fh > 0 {
            painted(
                lay,
                s,
                buffer@,
                gamma,
                FrameMapping::Scaled {
                    src_width: fw,
                    src_height: fh,
                    dst_width: lay.width,
                    dst_height: lay.height,
                },
                w,
                h,
            )
        } else {
            s
        },
    }
}

/// Paint `bitmap` from the cached frame (its RGBA bytes, width and height), if there is one,
/// and answer whether a paint happened: an empty bitmap is left untouched and answers `false`.
pub fn paint_from_frame(
    bitmap: &mut EmbedBitmap<'_>,
    frame: Option<(&[u8], u32, u32)>,
    gamma: &[u8; 256],
) -> (r: bool)
    requires
        old(bitmap).width > 0 && old(bitmap).height > 0 ==> frame_paint_fits(
            old(bitmap).layout(),
            frame,
        ),
    ensures
        final(bitmap).layout() == old(bitmap).layout(),
        r == (old(bitmap).width > 0 && old(bitmap).height > 0),
        !r ==> final(bitmap).pixels() == old(bitmap).pixels(),
        r ==> final(bitmap).pixels() == painted_from_frame(
            old(bitmap).layout(),
            old(bitmap).pixels(),
            frame,
            gamma@,
        ),
{
    let width = bitmap.width;
    let height = bitmap.height;
    if width == 0 || height == 0 {
        return false;
    }
    match frame {
        Some((buffer, fw, fh)) => match choose_frame_source(Some((fw, fh)), width, height) {
            FrameSource::Copy => copy_rgba_to_bitmap(buffer, bitmap, width, height, gamma),
            _ => scale_rgba_to_bitmap(buffer, fw, fh, bitmap, width, height, gamma),
        },
        None => bitmap.clear(EmbedBitmap::rgba(26, 26, 30, 255)),
    }
    true
}

/// A zeroed RGBA buffer for one rendered frame of `width × height` pixels: four bytes a pixel.
pub fn frame_buffer(width: u32, height: u32) -> (r: Vec<u8>)
    requires
        width * height * 4 <= u32::MAX,
    ensures
        r@.len() == width * height * 4,
        forall|i: int| 0 <= i < r@.len() ==> r@[i] == 0u8,
{
    assert(width * height * 4 <= u32::MAX);
    let n = (width * height * 4) as usize;
    vec![0u8; n]
}

} // verus!
