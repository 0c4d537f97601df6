use nih_plug_dioxus::embedded::{embed_flags, EmbedBitmap, EmbedContext, EmbedMouseEvent};
use nih_plug_dioxus::embedded_editor::{
    choose_frame_source, copy_rgba_to_bitmap, frame_buffer, paint_from_frame, scale_rgba_to_bitmap, size_hints,
    FrameSource,
    MouseCommand, MouseEventType, RenderCommandKind, RenderRequests, RenderThreadState,
};
use nih_plug_dioxus::events::{PointerButton, PointerEvent, PointerEventKind};

fn identity_gamma() -> [u8; 256] {
    let mut g = [0u8; 256];
    for (i, v) in g.iter_mut().enumerate() {
        *v = i as u8;
    }
    g
}

#[test]
fn size_hints_per_context() {
    let mcp = size_hints(EmbedContext::Mcp).unwrap();
    assert_eq!(mcp.preferred_aspect, 32768);
    assert_eq!(mcp.minimum_aspect, 6553);
    assert_eq!((mcp.min_width, mcp.min_height, mcp.max_width, mcp.max_height), (60, 60, 2000, 2000));
    let tcp = size_hints(EmbedContext::Tcp).unwrap();
    assert_eq!(tcp.preferred_aspect, 131072);
    assert_eq!(size_hints(EmbedContext::Unknown).unwrap().preferred_aspect, 131072);
}

#[test]
fn render_requests_follow_size_and_invalidation() {
    let mut r = RenderRequests::new();
    assert!(r.request_render(100, 50));
    assert!(r.needs_render);
    // Same size: the owed render is sent once.
    assert!(r.request_render(100, 50));
    assert!(!r.needs_render);
    assert!(!r.request_render(100, 50));
    r.invalidate();
    assert!(r.request_render(100, 50));
    assert!(!r.request_render(100, 50));
    assert!(r.request_render(120, 50));
}

#[test]
fn mouse_events_forwarded_once_sized() {
    let mut r = RenderRequests::new();
    r.needs_render = false;
    assert_eq!(r.mouse_event(EmbedMouseEvent::LeftDown), (None, 0));
    r.request_render(30, 20);
    assert_eq!(
        r.mouse_event(EmbedMouseEvent::LeftDown),
        (
            Some(MouseCommand { event_type: MouseEventType::Down, width: 30, height: 20 }),
            embed_flags::HANDLED | embed_flags::INVALIDATE
        )
    );
    assert!(r.needs_render);
    r.request_render(30, 20);
    assert_eq!(r.mouse_event(EmbedMouseEvent::RightDown), (None, 0));
    assert!(!r.needs_render);
    assert_eq!(r.mouse_event(EmbedMouseEvent::Move).0.unwrap().event_type, MouseEventType::Move);
    assert_eq!(r.mouse_event(EmbedMouseEvent::LeftUp).0.unwrap().event_type, MouseEventType::Up);
    assert_eq!(r.mouse_event(EmbedMouseEvent::Wheel { amount: 120 }).1, 0);
}

#[test]
fn frame_source_choice() {
    assert_eq!(choose_frame_source(None, 10, 10), FrameSource::Placeholder);
    assert_eq!(choose_frame_source(Some((10, 10)), 10, 10), FrameSource::Copy);
    assert_eq!(choose_frame_source(Some((10, 12)), 10, 10), FrameSource::Scale);
}

#[test]
fn copy_applies_gamma_and_keeps_alpha() {
    let mut gamma = identity_gamma();
    gamma[10] = 1;
    let frame = [10u8, 20, 30, 40, 50, 60, 70, 80];
    let mut bits = vec![0u32; 2];
    let mut bm = EmbedBitmap::new(&mut bits, 2, 1, 2, false);
    copy_rgba_to_bitmap(&frame, &mut bm, 2, 1, &gamma);
    drop(bm);
    assert_eq!(bits, vec![EmbedBitmap::rgba(1, 20, 30, 40), EmbedBitmap::rgba(50, 60, 70, 80)]);
}

#[test]
fn copy_skips_pixels_past_the_frame() {
    let gamma = identity_gamma();
    let frame = [1u8, 2, 3, 4, 5, 6];
    let mut bits = vec![9u32; 2];
    let mut bm = EmbedBitmap::new(&mut bits, 2, 1, 2, false);
    copy_rgba_to_bitmap(&frame, &mut bm, 2, 1, &gamma);
    drop(bm);
    assert_eq!(bits, vec![EmbedBitmap::rgba(1, 2, 3, 4), 9]);
}

#[test]
fn scale_uses_nearest_neighbour() {
    let gamma = identity_gamma();
    // 2x1 source: red-ish then blue-ish.
    let frame = [100u8, 0, 0, 255, 0, 0, 200, 255];
    let mut bits = vec![0u32; 8];
    let mut bm = EmbedBitmap::new(&mut bits, 4, 2, 4, false);
    scale_rgba_to_bitmap(&frame, 2, 1, &mut bm, 4, 2, &gamma);
    drop(bm);
    let a = EmbedBitmap::rgba(100, 0, 0, 255);
    let b = EmbedBitmap::rgba(0, 0, 200, 255);
    assert_eq!(bits, vec![a, a, b, b, a, a, b, b]);
}

#[test]
fn scale_with_empty_size_paints_nothing() {
    let gamma = identity_gamma();
    let mut bits = vec![3u32; 4];
    let mut bm = EmbedBitmap::new(&mut bits, 2, 2, 2, false);
    scale_rgba_to_bitmap(&[], 0, 0, &mut bm, 2, 2, &gamma);
    drop(bm);
    assert_eq!(bits, vec![3; 4]);
}

#[test]
fn render_thread_plans_first_render() {
    let mut st = RenderThreadState::new();
    let p = st.plan(RenderCommandKind::Render { width: 0, height: 5 });
    assert!(p.skip && p.render.is_none());
    let p = st.plan(RenderCommandKind::Render { width: 40, height: 30 });
    assert_eq!(p.create_document, Some((40, 30)));
    assert_eq!(p.create_renderer, Some((40, 30)));
    assert_eq!(p.set_viewport, Some((40, 30)));
    assert_eq!(p.render, Some((40, 30)));
    assert!(!p.skip && !p.stop);
    let p = st.plan(RenderCommandKind::Render { width: 40, height: 30 });
    assert_eq!((p.create_document, p.create_renderer, p.render), (None, None, Some((40, 30))));
    assert_eq!(st.idle_render(), Some((40, 30)));
}

#[test]
fn render_thread_mouse_tracks_main_button() {
    let mut st = RenderThreadState::new();
    assert_eq!(st.idle_render(), None);
    let p = st.plan(RenderCommandKind::MouseEvent { event_type: MouseEventType::Down, width: 8, height: 6 });
    assert_eq!(p.create_document, Some((8, 6)));
    assert_eq!(p.create_renderer, Some((8, 6)));
    assert_eq!(
        p.ui_event,
        Some(PointerEvent { kind: PointerEventKind::Down, button: PointerButton::Main, buttons: 1 })
    );
    assert_eq!(p.render, Some((8, 6)));
    let p = st.plan(RenderCommandKind::MouseEvent { event_type: MouseEventType::Up, width: 99, height: 99 });
    assert_eq!(p.create_document, None);
    assert_eq!(p.ui_event.unwrap().buttons, 0);
    assert_eq!(p.render, Some((8, 6)));
    let p = st.plan(RenderCommandKind::Shutdown);
    assert!(p.stop);
}

#[test]
fn render_thread_only_renders_sized_frames() {
    let mut st = RenderThreadState::new();
    let cmds = [
        RenderCommandKind::Render { width: 0, height: 0 },
        RenderCommandKind::Render { width: 0, height: 7 },
        RenderCommandKind::MouseEvent { event_type: MouseEventType::Move, width: 3, height: 2 },
        RenderCommandKind::Render { width: 5, height: 0 },
        RenderCommandKind::Render { width: 9, height: 4 },
        RenderCommandKind::MouseEvent { event_type: MouseEventType::Down, width: 1, height: 1 },
        RenderCommandKind::Shutdown,
    ];
    let mut rendered = Vec::new();
    for cmd in cmds {
        if let Some(size) = st.plan(cmd).render {
            rendered.push(size);
        }
        if let Some(size) = st.idle_render() {
            rendered.push(size);
        }
    }
    assert!(!rendered.is_empty());
    assert!(rendered.iter().all(|&(w, h)| w > 0 && h > 0));
    assert_eq!(rendered[0], (3, 2));
    assert_eq!(*rendered.last().unwrap(), (9, 4));
}

#[test]
fn paint_from_frame_guards_and_chooses_source() {
    let gamma = identity_gamma();
    // An empty bitmap is not painted.
    let mut bits = vec![7u32; 4];
    let mut bm = EmbedBitmap::new(&mut bits, 0, 2, 2, false);
    assert!(!paint_from_frame(&mut bm, None, &gamma));
    drop(bm);
    assert_eq!(bits, vec![7; 4]);
    // No frame yet: placeholder color everywhere.
    let mut bits = vec![7u32; 4];
    let mut bm = EmbedBitmap::new(&mut bits, 2, 2, 2, false);
    assert!(paint_from_frame(&mut bm, None, &gamma));
    drop(bm);
    assert_eq!(bits, vec![0xFF1A1A1E; 4]);
    // A frame of the bitmap's size is copied.
    let frame = [1u8, 2, 3, 4, 5, 6, 7, 8];
    let mut bits = vec![0u32; 2];
    let mut bm = EmbedBitmap::new(&mut bits, 2, 1, 2, false);
    assert!(paint_from_frame(&mut bm, Some((&frame[..], 2, 1)), &gamma));
    drop(bm);
    assert_eq!(bits, vec![EmbedBitmap::rgba(1, 2, 3, 4), EmbedBitmap::rgba(5, 6, 7, 8)]);
    // A frame of another size is scaled (1x1 to 2x1 repeats the pixel).
    let small = [9u8, 8, 7, 6];
    let mut bits = vec![0u32; 2];
    let mut bm = EmbedBitmap::new(&mut bits, 2, 1, 2, false);
    assert!(paint_from_frame(&mut bm, Some((&small[..], 1, 1)), &gamma));
    drop(bm);
    assert_eq!(bits, vec![EmbedBitmap::rgba(9, 8, 7, 6); 2]);
}

#[test]
fn frame_buffers_hold_four_bytes_a_pixel() {
    let b = frame_buffer(3, 2);
    assert_eq!(b.len(), 24);
    assert!(b.iter().all(|&x| x == 0));
    assert!(frame_buffer(0, 5).is_empty());
}
