//! REAPER embedded UI extension support.
//!
//! REAPER's `cockos.reaper_embedui` extension lets a plugin render an inline UI directly in
//! REAPER's track/mixer panel. The host calls a single entry point with a message code and two
//! pointers; this module decides what each message means and what is answered, while the
//! pointer reads themselves happen at the FFI boundary.
use vstd::prelude::*;

use crate::embedded::{
    EmbedBitmap, EmbedContext, EmbedDrawInfo, EmbedMouseEvent, EmbedSizeHints, EmbeddedEditor,
};

pub mod draw_info_flags;
pub mod embed_msg;

verus! {

/// The readable fields of REAPER's draw-info record (`REAPER_FXEMBED_DrawInfo`).
#[derive(Debug, Clone, Copy)]
pub struct RawEmbedDrawInfo {
    pub context: i32,
    /// 24.8 fixed point (256 = 100%).
    pub dpi: i32,
    pub mousewheel_amt: i32,
    pub width: i32,
    pub height: i32,
    pub mouse_x: i32,
    pub mouse_y: i32,
    pub flags: i32,
}

/// REAPER's size-hints record (`REAPER_FXEMBED_SizeHints`).
#[derive(Debug, Clone, Copy)]
pub struct RawEmbedSizeHints {
    /// 16.16 fixed point.
    pub preferred_aspect: i32,
    /// 16.16 fixed point.
    pub minimum_aspect: i32,
    /// `flags & 15` is the context.
    pub flags: i32,
    /// 256 = 100%.
    pub dpi: i32,
    pub _res3: i32,
    pub _res4: i32,
    pub min_width: i32,
    pub min_height: i32,
    pub max_width: i32,
    pub max_height: i32,
}

/// The DPI the host reports, with non-positive values standing for 100%.
pub open spec fn effective_dpi(dpi: i32) -> i32 {
    if dpi > 0 {
        dpi
    } else {
        256
    }
}

/// An aspect ratio as the host record holds it: non-positive values mean "no preference".
pub open spec fn host_aspect(aspect: i32) -> i32 {
    if aspect > 0 {
        aspect
    } else {
        0
    }
}

impl RawEmbedDrawInfo {
    /// The high-level draw info that this record stands for.
    pub open spec fn spec_draw_info(&self) -> EmbedDrawInfo {
        EmbedDrawInfo {
            context: EmbedContext::from_code(self.context),
            dpi: effective_dpi(self.dpi),
            width: self.width,
            height: self.height,
            mouse_x: self.mouse_x,
            mouse_y: self.mouse_y,
            flags: self.flags as u32,
            mousewheel_amt: self.mousewheel_amt,
        }
    }

    /// Convert to the high-level EmbedDrawInfo.
    pub fn to_draw_info(&self) -> (r: EmbedDrawInfo)
        ensures
            r == self.spec_draw_info(),
    {
        // DPI is 24.8 fixed point, so 256 = 1.0
        let dpi = if self.dpi > 0 {
            self.dpi
        } else {
            256
        };
        EmbedDrawInfo {
            context: EmbedContext::from(self.context),
            dpi,
            width: self.width,
            height: self.height,
            mouse_x: self.mouse_x,
            mouse_y: self.mouse_y,
            flags: self.flags as u32,
            mousewheel_amt: self.mousewheel_amt,
        }
    }
}

impl RawEmbedSizeHints {
    /// This record after being filled from `hints`: the aspects (non-positive ones as "no
    /// preference") and the size bounds are taken from `hints`, everything else is kept.
    pub open spec fn filled_from(self, hints: EmbedSizeHints) -> RawEmbedSizeHints {
        RawEmbedSizeHints {
            preferred_aspect: host_aspect(hints.preferred_aspect),
            minimum_aspect: host_aspect(hints.minimum_aspect),
            min_width: hints.min_width,
            min_height: hints.min_height,
            max_width: hints.max_width,
            max_height: hints.max_height,
            ..self
        }
    }

    /// Fill from high-level EmbedSizeHints.
    pub fn from_size_hints(&mut self, hints: &EmbedSizeHints)
        ensures
            *final(self) == old(self).filled_from(*hints),
    {
        self.preferred_aspect = if hints.preferred_aspect > 0 {
            hints.preferred_aspect
        } else {
            0
        };
        self.minimum_aspect = if hints.minimum_aspect > 0 {
            hints.minimum_aspect
        } else {
            0
        };
        self.min_width = hints.min_width;
        self.min_height = hints.min_height;
        self.max_width = hints.max_width;
        self.max_height = hints.max_height;
    }

    /// The context and DPI that a size-hints query asks about.
    pub fn query(&self) -> (r: (EmbedContext, i32))
        ensures
            r.0 == EmbedContext::from_code(self.flags & 0xf),
            r.1 == effective_dpi(self.dpi),
    {
        let context = EmbedContext::from(self.flags & 0xf);
        let dpi = if self.dpi > 0 {
            self.dpi
        } else {
            256
        };
        (context, dpi)
    }
}

/// What a host message asks for.
#[derive(Debug, Clone, Copy, PartialEq, Eq, Structural)]
pub enum EmbedMessage {
    IsSupported,
    Create,
    Destroy,
    Paint,
    SetCursor,
    GetMinMaxInfo,
    Mouse,
    NoBorder,
    HitTest,
    Other,
}

/// The meaning of message code `msg`.
pub open spec fn message_kind(msg: int) -> EmbedMessage {
    if msg == embed_msg::IS_SUPPORTED {
        EmbedMessage::IsSupported
    } else if msg == embed_msg::CREATE {
        EmbedMessage::Create
    } else if msg == embed_msg::DESTROY {
        EmbedMessage::Destroy
    } else if msg == embed_msg::PAINT {
        EmbedMessage::Paint
    } else if msg == embed_msg::SETCURSOR {
        EmbedMessage::SetCursor
    } else if msg == embed_msg::GETMINMAXINFO {
        EmbedMessage::GetMinMaxInfo
    } else if embed_msg::MOUSEMOVE <= msg <= embed_msg::RBUTTONDBLCLK || msg
        == embed_msg::MOUSEWHEEL {
        EmbedMessage::Mouse
    } else if msg == embed_msg::NOBORDER {
        EmbedMessage::NoBorder
    } else if msg == embed_msg::HITTEST {
        EmbedMessage::HitTest
    } else {
        EmbedMessage::Other
    }
}

/// The mouse event that message code `msg` reports, with `amount` as the wheel amount.
pub open spec fn mouse_event_of(msg: int, amount: i32) -> Option<EmbedMouseEvent> {
    if msg == embed_msg::MOUSEMOVE {
        Some(EmbedMouseEvent::Move)
    } else if msg == embed_msg::LBUTTONDOWN {
        Some(EmbedMouseEvent::LeftDown)
    } else if msg == embed_msg::LBUTTONUP {
        Some(EmbedMouseEvent::LeftUp)
    } else if msg == embed_msg::LBUTTONDBLCLK {
        Some(EmbedMouseEvent::LeftDoubleClick)
    } else if msg == embed_msg::RBUTTONDOWN {
        Some(EmbedMouseEvent::RightDown)
    } else if msg == embed_msg::RBUTTONUP {
        Some(EmbedMouseEvent::RightUp)
    } else if msg == embed_msg::RBUTTONDBLCLK {
        Some(EmbedMouseEvent::RightDoubleClick)
    } else if msg == embed_msg::MOUSEWHEEL {
        Some(EmbedMouseEvent::Wheel { amount })
    } else {
        None
    }
}

/// Classify a host message code.
pub fn classify_embed_message(msg: i32) -> (r: EmbedMessage)
    ensures
        r == message_kind(msg as int),
{
    let msg = msg as isize;
    if msg == embed_msg::IS_SUPPORTED {
        EmbedMessage::IsSupported
    } else if msg == embed_msg::CREATE {
        EmbedMessage::Create
    } else if msg == embed_msg::DESTROY {
        EmbedMessage::Destroy
    } else if msg == embed_msg::PAINT {
        EmbedMessage::Paint
    } else if msg == embed_msg::SETCURSOR {
        EmbedMessage::SetCursor
    } else if msg == embed_msg::GETMINMAXINFO {
        EmbedMessage::GetMinMaxInfo
    } else if (embed_msg::MOUSEMOVE <= msg && msg <= embed_msg::RBUTTONDBLCLK) || msg
        == embed_msg::MOUSEWHEEL {
        EmbedMessage::Mouse
    } else if msg == embed_msg::NOBORDER {
        EmbedMessage::NoBorder
    } else if msg == embed_msg::HITTEST {
        EmbedMessage::HitTest
    } else {
        EmbedMessage::Other
    }
}

/// The mouse event that a mouse message reports, taking the wheel amount from the draw-info record.
pub fn mouse_event_for(msg: i32, raw_info: &RawEmbedDrawInfo) -> (r: Option<EmbedMouseEvent>)
    ensures
        r == mouse_event_of(msg as int, raw_info.mousewheel_amt),
{
    let msg = msg as isize;
    if msg == embed_msg::MOUSEMOVE {
        Some(EmbedMouseEvent::Move)
    } else if msg == embed_msg::LBUTTONDOWN {
        Some(EmbedMouseEvent::LeftDown)
    } else if msg == embed_msg::LBUTTONUP {
        Some(EmbedMouseEvent::LeftUp)
    } else if msg == embed_msg::LBUTTONDBLCLK {
        Some(EmbedMouseEvent::LeftDoubleClick)
    } else if msg == embed_msg::RBUTTONDOWN {
        Some(EmbedMouseEvent::RightDown)
    } else if msg == embed_msg::RBUTTONUP {
        Some(EmbedMouseEvent::RightUp)
    } else if msg == embed_msg::RBUTTONDBLCLK {
        Some(EmbedMouseEvent::RightDoubleClick)
    } else if msg == embed_msg::MOUSEWHEEL {
        Some(EmbedMouseEvent::Wheel { amount: raw_info.mousewheel_amt })
    } else {
        None
    }
}

/// The shape of the host bitmap that a paint message maps.
#[derive(Debug, Clone, Copy, PartialEq, Eq, Structural)]
pub struct PaintGeometry {
    pub width: u32,
    pub height: u32,
    pub row_span: u32,
    /// Number of `u32` pixels to map: `row_span * height`.
    pub buffer_len: usize,
}

/// The row span that a paint uses: the bitmap's own, unless it is shorter than the drawing width.
pub open spec fn effective_row_span(reported: i32, width: i32) -> i32 {
    if reported >= width {
        reported
    } else {
        width
    }
}

/// The row span that a paint uses (exec form of [`effective_row_span`]).
pub fn effective_row_span_of(reported: i32, width: i32) -> (r: i32)
    ensures
        r == effective_row_span(reported, width),
{
    // A reported span narrower than the width means tightly packed rows.
    if reported >= width {
        reported
    } else {
        width
    }
}

/// Whether a paint with these dimensions maps a buffer.
pub open spec fn paint_maps_buffer(has_bits: bool, width: i32, height: i32, reported_span: i32) -> bool {
    has_bits && width > 0 && height > 0 && effective_row_span(reported_span, width) > 0
}

/// Decide the bitmap shape for a paint message from the draw info, the row span the bitmap
/// reports and whether it has a pixel buffer; `None` means nothing is painted.
pub fn paint_geometry(info: &EmbedDrawInfo, reported_row_span: i32, has_bits: bool) -> (r: Option<
    PaintGeometry,
>)
    requires
        paint_maps_buffer(has_bits, info.width, info.height, reported_row_span) ==> effective_row_span(
            reported_row_span,
            info.width,
        ) * info.height <= i32::MAX,
    ensures
        paint_maps_buffer(has_bits, info.width, info.height, reported_row_span) <==> r is Some,
        r matches Some(g) ==> {
            &&& g.width == info.width
            &&& g.height == info.height
            &&& g.row_span == effective_row_span(reported_row_span, info.width)
            &&& g.buffer_len == g.row_span * g.height
        },
{
    let width = info.width;
    let height = info.height;
    let row_span = effective_row_span_of(reported_row_span, width);
    if !has_bits || width <= 0 || height <= 0 || row_span <= 0 {
        return None;
    }
    let buffer_len = (row_span * height) as usize;
    Some(PaintGeometry {
        width: width as u32,
        height: height as u32,
        row_span: row_span as u32,
        buffer_len,
    })
}

/// The host's reply for a yes/no answer: 1 for yes, 0 for no.
pub fn reply_for(answer: bool) -> (r: isize)
    ensures
        r == (if answer {
            1isize
        } else {
            0isize
        }),
{
    if answer {
        1
    } else {
        0
    }
}

/// What the host passed along with a message, read from its pointer arguments.
pub enum EmbedPayload<'a> {
    /// Nothing readable: the message carries no record, or its pointers were null.
    Nothing,
    /// A draw-info record, for cursor and mouse messages.
    DrawInfo(RawEmbedDrawInfo),
    /// The size-hints record that the plugin fills in.
    SizeHints(&'a mut RawEmbedSizeHints),
    /// A paint request: the draw-info record, and the bitmap when one could be mapped.
    Paint(RawEmbedDrawInfo, Option<EmbedBitmap<'a>>),
}

/// The host's reply to an "is supported" message: 1 when embedding is available, -1 when it
/// is supported but currently unavailable.
pub fn supported_reply(available: bool) -> (r: isize)
    ensures
        r == (if available {
            1isize
        } else {
            -1isize
        }),
{
    if available {
        1
    } else {
        -1
    }
}

/// What answering a host message takes: a fixed reply, or a call on the editor with the
/// arguments given here.
#[derive(Debug)]
pub enum EmbedAction {
    /// Answer with this value; the editor is not asked.
    Reply(isize),
    /// Ask the editor whether the embedded UI is available.
    AskAvailable,
    /// Tell the editor that embedding begins.
    Create,
    /// Tell the editor that embedding ends.
    Destroy,
    /// Ask the editor to paint into the mapped bitmap with this draw info.
    Paint(EmbedDrawInfo),
    /// Ask the editor to set the cursor for this draw info.
    SetCursor(EmbedDrawInfo),
    /// Ask the editor for size hints in this context at this DPI.
    SizeHints(EmbedContext, i32),
    /// Hand the editor this mouse event with this draw info.
    Mouse(EmbedMouseEvent, EmbedDrawInfo),
}

/// The action that message `msg` with `payload` calls for.
pub open spec fn embed_action_of(msg: int, payload: &EmbedPayload) -> EmbedAction {
    match message_kind(msg) {
        EmbedMessage::IsSupported => EmbedAction::AskAvailable,
        EmbedMessage::Create => EmbedAction::Create,
        EmbedMessage::Destroy => EmbedAction::Destroy,
        EmbedMessage::Paint => match payload {
            EmbedPayload::Paint(raw, Some(_)) => EmbedAction::Paint(raw.spec_draw_info()),
            _ => EmbedAction::Reply(0),
        },
        EmbedMessage::SetCursor => match payload {
            EmbedPayload::DrawInfo(raw) => EmbedAction::SetCursor(raw.spec_draw_info()),
            _ => EmbedAction::Reply(0),
        },
        EmbedMessage::GetMinMaxInfo => match payload {
            EmbedPayload::SizeHints(h) => EmbedAction::SizeHints(
                EmbedContext::from_code(h.flags & 0xf),
                effective_dpi(h.dpi),
            ),
            _ => EmbedAction::Reply(0),
        },
        EmbedMessage::Mouse => match payload {
            EmbedPayload::DrawInfo(raw) => match mouse_event_of(msg, raw.mousewheel_amt) {
                Some(event) => EmbedAction::Mouse(event, raw.spec_draw_info()),
                None => EmbedAction::Reply(0),
            },
            _ => EmbedAction::Reply(0),
        },
        _ => EmbedAction::Reply(0),
    }
}

/// Decide what answering message `msg` with `payload` takes.
pub fn embed_action(msg: i32, payload: &EmbedPayload) -> (r: EmbedAction)
    ensures
        r == embed_action_of(msg as int, payload),
{
    match classify_embed_message(msg) {
        EmbedMessage::IsSupported => EmbedAction::AskAvailable,
        EmbedMessage::Create => EmbedAction::Create,
        EmbedMessage::Destroy => EmbedAction::Destroy,
        EmbedMessage::Paint => match payload {
            EmbedPayload::Paint(raw, Some(_)) => EmbedAction::Paint(raw.to_draw_info()),
            _ => EmbedAction::Reply(0),
        },
        EmbedMessage::SetCursor => match payload {
            EmbedPayload::DrawInfo(raw) => EmbedAction::SetCursor(raw.to_draw_info()),
            _ => EmbedAction::Reply(0),
        },
        EmbedMessage::GetMinMaxInfo => match payload {
            EmbedPayload::SizeHints(h) => {
                let (context, dpi) = h.query();
                EmbedAction::SizeHints(context, dpi)
            },
            _ => EmbedAction::Reply(0),
        },
        EmbedMessage::Mouse => match payload {
            EmbedPayload::DrawInfo(raw) => match mouse_event_for(msg, raw) {
                Some(event) => EmbedAction::Mouse(event, raw.to_draw_info()),
                None => EmbedAction::Reply(0),
            },
            _ => EmbedAction::Reply(0),
        },
        EmbedMessage::NoBorder => EmbedAction::Reply(0),
        EmbedMessage::HitTest => EmbedAction::Reply(0),
        EmbedMessage::Other => EmbedAction::Reply(0),
    }
}

/// Handle one host message for `editor`, returning the value the host gets back.
///
/// What is asked of the editor is decided by [`embed_action`]; the editor's answer is turned
/// into the reply by [`supported_reply`], [`reply_for`] and [`RawEmbedSizeHints::from_size_hints`].
pub fn handle_embed_message<E: EmbeddedEditor + ?Sized>(
    editor: &E,
    msg: i32,
    payload: EmbedPayload<'_>,
) -> (r: isize)
    ensures
        embed_action_of(msg as int, &payload) matches EmbedAction::Reply(v) ==> r == v,
        embed_action_of(msg as int, &payload) is Create || embed_action_of(
            msg as int,
            &payload,
        ) is Destroy ==> r == 0,
        embed_action_of(msg as int, &payload) is AskAvailable ==> r == 1 || r == -1,
        embed_action_of(msg as int, &payload) is Paint || embed_action_of(
            msg as int,
            &payload,
        ) is SetCursor || embed_action_of(msg as int, &payload) is SizeHints ==> r == 0 || r == 1,
        payload matches EmbedPayload::SizeHints(h) ==> (r == 1 && embed_action_of(
            msg as int,
            &payload,
        ) is SizeHints && exists|hints: EmbedSizeHints| *final(h) == (*h).filled_from(hints)) || (r
            != 1 || !(embed_action_of(msg as int, &payload) is SizeHints)) && *final(h) == *h,
        embed_action_of(msg as int, &payload) is AskAvailable ==> exists|b: bool|
            call_ensures(E::is_available, (editor,), b) && r == (if b {
                1isize
            } else {
                -1isize
            }),
        embed_action_of(msg as int, &payload) matches EmbedAction::SetCursor(info) ==> exists|b: bool|
            call_ensures(E::set_cursor, (editor, &info), b) && r == (if b {
                1isize
            } else {
                0isize
            }),
        embed_action_of(msg as int, &payload) matches EmbedAction::SizeHints(context, dpi) ==> exists|
            o: Option<EmbedSizeHints>,
        |
            call_ensures(E::size_hints, (editor, context, dpi), o) && r == (if o is Some {
                1isize
            } else {
                0isize
            }) && (payload matches EmbedPayload::SizeHints(h) ==> *final(h) == (match o {
                Some(hints) => (*h).filled_from(hints),
                None => *h,
            })),
        embed_action_of(msg as int, &payload) is Create ==> call_ensures(E::create, (editor,), ()),
        embed_action_of(msg as int, &payload) is Destroy ==> call_ensures(E::destroy, (editor,), ()),
        embed_action_of(msg as int, &payload) matches EmbedAction::Paint(info) ==> (payload matches EmbedPayload::Paint(
            _,
            Some(bitmap),
        ) && exists|m: &mut EmbedBitmap<'_>, b: bool|
            *m == bitmap && call_ensures(E::paint, (editor, m, &info), b) && r == (if b {
                1isize
            } else {
                0isize
            })),
        embed_action_of(msg as int, &payload) matches EmbedAction::Mouse(event, info) ==> exists|
            v: u32,
        | call_ensures(E::mouse_event, (editor, event, &info), v) && r == v as isize,
{
    let action = embed_action(msg, &payload);
    match action {
        EmbedAction::Reply(v) => v,
        EmbedAction::AskAvailable => supported_reply(editor.is_available()),
        EmbedAction::Create => {
            editor.create();
            0
        },
        EmbedAction::Destroy => {
            editor.destroy();
            0
        },
        EmbedAction::Paint(info) => match payload {
            EmbedPayload::Paint(_, Some(mut bitmap)) => reply_for(editor.paint(&mut bitmap, &info)),
            _ => 0,
        },
        EmbedAction::SetCursor(info) => reply_for(editor.set_cursor(&info)),
        EmbedAction::SizeHints(context, dpi) => match payload {
            EmbedPayload::SizeHints(raw_hints) => match editor.size_hints(context, dpi) {
                Some(hints) => {
                    raw_hints.from_size_hints(&hints);
                    1
                },
                None => 0,
            },
            _ => 0,
        },
        EmbedAction::Mouse(event, info) => editor.mouse_event(event, &info) as isize,
    }
}

} // verus!
