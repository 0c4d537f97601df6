use nih_plug_dioxus::window::{
    constrain_size, pending_resize_accepted, render_extent, resize_actions, RenderTargetCache,
    ResizeActions, ResizeSource, SurfaceExtent,
};

#[test]
fn resize_requests_within_limits_are_accepted() {
    assert!(pending_resize_accepted(100, 100));
    assert!(pending_resize_accepted(4096, 4096));
    assert!(pending_resize_accepted(800, 600));
    assert!(!pending_resize_accepted(99, 600));
    assert!(!pending_resize_accepted(800, 4097));
    assert!(!pending_resize_accepted(0, 0));
}

#[test]
fn render_size_is_capped() {
    assert_eq!(render_extent(5000, 300), (4096, 300));
    assert_eq!(render_extent(4096, 9000), (4096, 4096));
    assert_eq!(render_extent(0, 1), (0, 1));
}

#[test]
fn resize_handle_constraints() {
    assert_eq!(constrain_size(150, 100, 200, 150, 0, 0), (200, 150));
    assert_eq!(constrain_size(900, 700, 200, 150, 800, 600), (800, 600));
    assert_eq!(constrain_size(500, 400, 200, 150, 800, 600), (500, 400));
    // A minimum above the maximum ends at the maximum.
    assert_eq!(constrain_size(10, 10, 300, 300, 250, 0), (250, 300));
}

#[test]
fn render_target_rebuilt_on_size_change() {
    let mut cache = RenderTargetCache::new();
    assert!(cache.ensure(800, 600));
    assert!(!cache.ensure(800, 600));
    assert!(cache.ensure(801, 600));
    assert_eq!(cache, RenderTargetCache { last_width: 801, last_height: 600, has_target: true });
    let mut zero = RenderTargetCache::new();
    assert!(zero.ensure(0, 0));
    assert!(!zero.ensure(0, 0));
}

#[test]
fn surface_ignores_empty_sizes() {
    let mut s = SurfaceExtent::new(0, 480);
    assert_eq!(s, SurfaceExtent { width: 1, height: 480 });
    assert!(s.resize(640, 480));
    assert!(!s.resize(0, 100));
    assert_eq!(s, SurfaceExtent { width: 640, height: 480 });
}

#[test]
fn offscreen_target_clamps_and_skips_same_size() {
    let mut s = SurfaceExtent::new(10, 10);
    assert!(!s.resize_offscreen(10, 10));
    assert!(s.resize_offscreen(0, 20));
    assert_eq!(s, SurfaceExtent { width: 1, height: 20 });
    assert!(!s.resize_offscreen(1, 20));
}

#[test]
fn host_resizes_neither_resize_the_window_nor_notify_the_host() {
    let all = ResizeActions { resize_window: true, store_size: true, notify_host: true, apply_size: true };
    let none = ResizeActions { resize_window: false, store_size: false, notify_host: false, apply_size: false };
    assert_eq!(resize_actions(ResizeSource::Ui, 800, 600), all);
    assert_eq!(resize_actions(ResizeSource::Ui, 50, 600), none);
    let host = resize_actions(ResizeSource::Host, 50, 600);
    assert!(host.store_size && host.apply_size);
    assert!(!host.resize_window && !host.notify_host);
    assert!(!resize_actions(ResizeSource::Host, 800, 600).notify_host);
}
