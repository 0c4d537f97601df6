use std::sync::atomic::{AtomicU32, Ordering};
use std::sync::Mutex;

use nih_plug_dioxus::embedded::{
    EmbedBitmap, EmbedContext, EmbedDrawInfo, EmbedMouseEvent, EmbedSizeHints, EmbeddedEditor,
};
use nih_plug_dioxus::reaper_embed::{
    classify_embed_message, embed_msg, handle_embed_message, mouse_event_for, paint_geometry,
    embed_action, reply_for, supported_reply, EmbedAction, EmbedMessage, EmbedPayload, PaintGeometry, RawEmbedDrawInfo, RawEmbedSizeHints,
};

fn raw_info(dpi: i32, width: i32, height: i32) -> RawEmbedDrawInfo {
    RawEmbedDrawInfo {
        context: 2,
        dpi,
        mousewheel_amt: 240,
        width,
        height,
        mouse_x: 5,
        mouse_y: 6,
        flags: 0x10001,
    }
}

fn raw_hints(flags: i32, dpi: i32) -> RawEmbedSizeHints {
    RawEmbedSizeHints {
        preferred_aspect: 11,
        minimum_aspect: 12,
        flags,
        dpi,
        _res3: 13,
        _res4: 14,
        min_width: 15,
        min_height: 16,
        max_width: 17,
        max_height: 18,
    }
}

#[test]
fn draw_info_conversion() {
    let info = raw_info(512, 100, 40).to_draw_info();
    assert_eq!(info.context, EmbedContext::Mcp);
    assert_eq!(info.dpi, 512);
    assert_eq!((info.width, info.height, info.mouse_x, info.mouse_y), (100, 40, 5, 6));
    assert_eq!(info.flags, 0x10001);
    assert_eq!(info.mousewheel_amt, 240);
    assert!(info.is_paint_optional() && info.is_left_button_captured());
}

#[test]
fn non_positive_dpi_means_one_hundred_percent() {
    assert_eq!(raw_info(0, 1, 1).to_draw_info().dpi, 256);
    assert_eq!(raw_info(-3, 1, 1).to_draw_info().dpi, 256);
}

#[test]
fn negative_flags_keep_their_bits() {
    let mut raw = raw_info(256, 1, 1);
    raw.flags = -1;
    assert_eq!(raw.to_draw_info().flags, u32::MAX);
}

#[test]
fn size_hints_fill_the_host_record() {
    let mut raw = raw_hints(1, 256);
    let hints = EmbedSizeHints {
        preferred_aspect: 131072,
        minimum_aspect: -5,
        min_width: 60,
        min_height: 61,
        max_width: 2000,
        max_height: 2001,
    };
    raw.from_size_hints(&hints);
    assert_eq!(raw.preferred_aspect, 131072);
    assert_eq!(raw.minimum_aspect, 0);
    assert_eq!((raw.min_width, raw.min_height, raw.max_width, raw.max_height), (60, 61, 2000, 2001));
    assert_eq!((raw.flags, raw.dpi, raw._res3, raw._res4), (1, 256, 13, 14));
}

#[test]
fn size_hint_query_reads_context_and_dpi() {
    assert_eq!(raw_hints(0x21, 384).query(), (EmbedContext::Tcp, 384));
    assert_eq!(raw_hints(0x12, 0).query(), (EmbedContext::Mcp, 256));
    assert_eq!(raw_hints(0x3, -1).query(), (EmbedContext::Unknown, 256));
}

#[test]
fn message_classification() {
    assert_eq!(classify_embed_message(0), EmbedMessage::IsSupported);
    assert_eq!(classify_embed_message(1), EmbedMessage::Create);
    assert_eq!(classify_embed_message(2), EmbedMessage::Destroy);
    assert_eq!(classify_embed_message(0x0F), EmbedMessage::Paint);
    assert_eq!(classify_embed_message(0x20), EmbedMessage::SetCursor);
    assert_eq!(classify_embed_message(0x24), EmbedMessage::GetMinMaxInfo);
    for m in [0x200, 0x201, 0x202, 0x203, 0x204, 0x205, 0x206, 0x20A] {
        assert_eq!(classify_embed_message(m), EmbedMessage::Mouse);
    }
    assert_eq!(classify_embed_message(0x207), EmbedMessage::Other);
    assert_eq!(classify_embed_message(0x100001), EmbedMessage::NoBorder);
    assert_eq!(classify_embed_message(0x100002), EmbedMessage::HitTest);
    assert_eq!(classify_embed_message(-1), EmbedMessage::Other);
    assert_eq!(embed_msg::MOUSEWHEEL, 0x20A);
}

#[test]
fn mouse_messages_map_to_events() {
    let raw = raw_info(256, 1, 1);
    assert!(matches!(mouse_event_for(0x200, &raw), Some(EmbedMouseEvent::Move)));
    assert!(matches!(mouse_event_for(0x201, &raw), Some(EmbedMouseEvent::LeftDown)));
    assert!(matches!(mouse_event_for(0x202, &raw), Some(EmbedMouseEvent::LeftUp)));
    assert!(matches!(mouse_event_for(0x203, &raw), Some(EmbedMouseEvent::LeftDoubleClick)));
    assert!(matches!(mouse_event_for(0x204, &raw), Some(EmbedMouseEvent::RightDown)));
    assert!(matches!(mouse_event_for(0x205, &raw), Some(EmbedMouseEvent::RightUp)));
    assert!(matches!(mouse_event_for(0x206, &raw), Some(EmbedMouseEvent::RightDoubleClick)));
    assert!(matches!(mouse_event_for(0x20A, &raw), Some(EmbedMouseEvent::Wheel { amount: 240 })));
    assert!(mouse_event_for(0x0F, &raw).is_none());
}

#[test]
fn paint_geometry_decisions() {
    let info = raw_info(256, 10, 4).to_draw_info();
    assert_eq!(
        paint_geometry(&info, 16, true),
        Some(PaintGeometry { width: 10, height: 4, row_span: 16, buffer_len: 64 })
    );
    // A row span shorter than the width is taken as tightly packed.
    assert_eq!(
        paint_geometry(&info, 3, true),
        Some(PaintGeometry { width: 10, height: 4, row_span: 10, buffer_len: 40 })
    );
    assert_eq!(paint_geometry(&info, 16, false), None);
    let empty = raw_info(256, 0, 4).to_draw_info();
    assert_eq!(paint_geometry(&empty, 16, true), None);
    let flat = raw_info(256, 4, -1).to_draw_info();
    assert_eq!(paint_geometry(&flat, 16, true), None);
}

#[test]
fn yes_no_replies() {
    assert_eq!(reply_for(true), 1);
    assert_eq!(reply_for(false), 0);
}

struct Probe {
    available: bool,
    created: AtomicU32,
    destroyed: AtomicU32,
    last_mouse: Mutex<Option<(String, i32)>>,
}

impl Probe {
    fn new(available: bool) -> Self {
        Probe {
            available,
            created: AtomicU32::new(0),
            destroyed: AtomicU32::new(0),
            last_mouse: Mutex::new(None),
        }
    }
}

impl EmbeddedEditor for Probe {
    fn is_available(&self) -> bool {
        self.available
    }
    fn create(&self) {
        self.created.fetch_add(1, Ordering::SeqCst);
    }
    fn destroy(&self) {
        self.destroyed.fetch_add(1, Ordering::SeqCst);
    }
    fn size_hints(&self, context: EmbedContext, dpi: i32) -> Option<EmbedSizeHints> {
        if context == EmbedContext::Mcp {
            Some(EmbedSizeHints { preferred_aspect: dpi, ..EmbedSizeHints::default() })
        } else {
            None
        }
    }
    fn paint(&self, bitmap: &mut EmbedBitmap<'_>, info: &EmbedDrawInfo) -> bool {
        if info.is_paint_optional() {
            return false;
        }
        bitmap.clear(0xABCD);
        true
    }
    fn mouse_event(&self, event: EmbedMouseEvent, info: &EmbedDrawInfo) -> u32 {
        let name = format!("{:?}", event);
        *self.last_mouse.lock().unwrap() = Some((name, info.mouse_x));
        0x1000001
    }
    fn set_cursor(&self, info: &EmbedDrawInfo) -> bool {
        info.mouse_x > 0
    }
}

struct Defaults;

impl EmbeddedEditor for Defaults {
    fn paint(&self, _bitmap: &mut EmbedBitmap<'_>, _info: &EmbedDrawInfo) -> bool {
        true
    }
}

#[test]
fn dispatch_lifecycle_messages() {
    let p = Probe::new(true);
    assert_eq!(handle_embed_message(&p, 0, EmbedPayload::Nothing), 1);
    assert_eq!(handle_embed_message(&Probe::new(false), 0, EmbedPayload::Nothing), -1);
    assert_eq!(handle_embed_message(&p, 1, EmbedPayload::Nothing), 0);
    assert_eq!(handle_embed_message(&p, 2, EmbedPayload::Nothing), 0);
    assert_eq!(p.created.load(Ordering::SeqCst), 1);
    assert_eq!(p.destroyed.load(Ordering::SeqCst), 1);
    assert_eq!(handle_embed_message(&p, 0x100001, EmbedPayload::Nothing), 0);
    assert_eq!(handle_embed_message(&p, 0x100002, EmbedPayload::Nothing), 0);
    assert_eq!(handle_embed_message(&p, 0x7777, EmbedPayload::Nothing), 0);
}

#[test]
fn dispatch_paint() {
    let p = Probe::new(true);
    let mut bits = vec![0u32; 4];
    let mut raw = raw_info(256, 2, 2);
    raw.flags = 0;
    let bitmap = EmbedBitmap::new(&mut bits, 2, 2, 2, false);
    assert_eq!(handle_embed_message(&p, 0x0F, EmbedPayload::Paint(raw, Some(bitmap))), 1);
    assert_eq!(bits, vec![0xABCD; 4]);
    // Optional paint skipped by the editor.
    let mut bits2 = vec![0u32; 4];
    let optional = raw_info(256, 2, 2);
    let bitmap2 = EmbedBitmap::new(&mut bits2, 2, 2, 2, false);
    assert_eq!(handle_embed_message(&p, 0x0F, EmbedPayload::Paint(optional, Some(bitmap2))), 0);
    assert_eq!(bits2, vec![0; 4]);
    // Nothing mapped: nothing painted.
    assert_eq!(handle_embed_message(&p, 0x0F, EmbedPayload::Paint(raw, None)), 0);
    assert_eq!(handle_embed_message(&p, 0x0F, EmbedPayload::Nothing), 0);
}

#[test]
fn dispatch_cursor_and_mouse() {
    let p = Probe::new(true);
    assert_eq!(handle_embed_message(&p, 0x20, EmbedPayload::DrawInfo(raw_info(256, 1, 1))), 1);
    let mut left = raw_info(256, 1, 1);
    left.mouse_x = 0;
    assert_eq!(handle_embed_message(&p, 0x20, EmbedPayload::DrawInfo(left)), 0);
    assert_eq!(handle_embed_message(&p, 0x20, EmbedPayload::Nothing), 0);
    assert_eq!(handle_embed_message(&p, 0x20A, EmbedPayload::DrawInfo(raw_info(256, 1, 1))), 0x1000001);
    assert_eq!(
        p.last_mouse.lock().unwrap().clone(),
        Some(("Wheel { amount: 240 }".to_string(), 5))
    );
    assert_eq!(handle_embed_message(&p, 0x201, EmbedPayload::Nothing), 0);
}

#[test]
fn dispatch_size_hints() {
    let p = Probe::new(true);
    let mut raw = raw_hints(2, 300);
    assert_eq!(handle_embed_message(&p, 0x24, EmbedPayload::SizeHints(&mut raw)), 1);
    assert_eq!(raw.preferred_aspect, 300);
    assert_eq!((raw.minimum_aspect, raw.min_width, raw.max_height), (0, 0, 0));
    let mut tcp = raw_hints(1, 300);
    assert_eq!(handle_embed_message(&p, 0x24, EmbedPayload::SizeHints(&mut tcp)), 0);
    assert_eq!(tcp.preferred_aspect, 11);
    assert_eq!(handle_embed_message(&p, 0x24, EmbedPayload::Nothing), 0);
}

#[test]
fn trait_defaults() {
    let d = Defaults;
    assert!(d.is_available());
    assert!(d.size_hints(EmbedContext::Tcp, 256).is_none());
    let info = raw_info(256, 1, 1).to_draw_info();
    assert_eq!(d.mouse_event(EmbedMouseEvent::Move, &info), 0);
    assert!(!d.set_cursor(&info));
    assert_eq!(handle_embed_message(&d, 0x24, EmbedPayload::SizeHints(&mut raw_hints(2, 256))), 0);
    assert_eq!(handle_embed_message(&d, 0x200, EmbedPayload::DrawInfo(info_raw())), 0);
}

fn info_raw() -> RawEmbedDrawInfo {
    raw_info(256, 1, 1)
}

#[test]
fn supported_reply_distinguishes_unavailable() {
    assert_eq!(supported_reply(true), 1);
    assert_eq!(supported_reply(false), -1);
}

#[test]
fn actions_carry_what_the_host_sent() {
    let mut hints = raw_hints(0x12, 0);
    match embed_action(0x24, &EmbedPayload::SizeHints(&mut hints)) {
        EmbedAction::SizeHints(context, dpi) => {
            assert_eq!(context, EmbedContext::Mcp);
            assert_eq!(dpi, 256);
        }
        other => panic!("unexpected action {:?}", other),
    }
    match embed_action(0x20, &EmbedPayload::DrawInfo(raw_info(384, 5, 6))) {
        EmbedAction::SetCursor(info) => assert_eq!((info.dpi, info.width, info.height), (384, 5, 6)),
        other => panic!("unexpected action {:?}", other),
    }
    match embed_action(0x20A, &EmbedPayload::DrawInfo(raw_info(256, 1, 1))) {
        EmbedAction::Mouse(EmbedMouseEvent::Wheel { .. }, _) => {}
        other => panic!("unexpected action {:?}", other),
    }
    assert!(matches!(embed_action(0x24, &EmbedPayload::Nothing), EmbedAction::Reply(0)));
    assert!(matches!(embed_action(0, &EmbedPayload::Nothing), EmbedAction::AskAvailable));
    assert!(matches!(embed_action(0x7777, &EmbedPayload::Nothing), EmbedAction::Reply(0)));
}
