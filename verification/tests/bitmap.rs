use nih_plug_dioxus::embedded::{EmbedBitmap, EmbedDrawInfo, EmbedContext, EmbedSizeHints};
use nih_plug_dioxus::embedded::draw_info_flags;

#[test]
fn rgba_packs_bgra_layout() {
    assert_eq!(EmbedBitmap::rgba(0x11, 0x22, 0x33, 0x44), 0x4411_2233);
    assert_eq!(EmbedBitmap::rgba(26, 26, 30, 255), 0xFF1A_1A1E);
    assert_eq!(EmbedBitmap::rgba(0, 0, 0, 0), 0);
}

#[test]
fn channels_of_rgba_round_trip() {
    let c = EmbedBitmap::rgba(200, 100, 50, 25);
    assert_eq!(EmbedBitmap::get_r(c), 200);
    assert_eq!(EmbedBitmap::get_g(c), 100);
    assert_eq!(EmbedBitmap::get_b(c), 50);
    assert_eq!(EmbedBitmap::get_a(c), 25);
    let p = 0xDEAD_BEEFu32;
    let back = EmbedBitmap::rgba(
        EmbedBitmap::get_r(p),
        EmbedBitmap::get_g(p),
        EmbedBitmap::get_b(p),
        EmbedBitmap::get_a(p),
    );
    assert_eq!(back, p);
}

#[test]
fn pixel_read_after_write() {
    let mut bits = vec![0u32; 6];
    let mut bm = EmbedBitmap::new(&mut bits, 3, 2, 3, false);
    bm.set_pixel(2, 1, 7);
    assert_eq!(bm.pixel(2, 1), Some(7));
    assert_eq!(bm.pixel(1, 1), Some(0));
    assert_eq!(bm.pixel(3, 0), None);
    assert_eq!(bm.pixel(0, 2), None);
    drop(bm);
    assert_eq!(bits, vec![0, 0, 0, 0, 0, 7]);
}

#[test]
fn out_of_bounds_write_is_ignored() {
    let mut bits = vec![1u32; 4];
    let mut bm = EmbedBitmap::new(&mut bits, 2, 2, 2, false);
    bm.set_pixel(2, 0, 9);
    bm.set_pixel(0, 2, 9);
    drop(bm);
    assert_eq!(bits, vec![1, 1, 1, 1]);
}

#[test]
fn short_buffer_skips_missing_pixels() {
    let mut bits = vec![0u32; 3];
    let mut bm = EmbedBitmap::new(&mut bits, 2, 2, 2, false);
    bm.set_pixel(1, 1, 5);
    assert_eq!(bm.pixel(1, 1), None);
    bm.set_pixel(0, 1, 4);
    assert_eq!(bm.pixel(0, 1), Some(4));
}

#[test]
fn flipped_rows_count_from_the_bottom() {
    let mut bits = vec![0u32; 6];
    let mut bm = EmbedBitmap::new(&mut bits, 2, 3, 2, true);
    bm.set_pixel(1, 0, 8);
    assert_eq!(bm.pixel(1, 0), Some(8));
    drop(bm);
    assert_eq!(bits, vec![0, 0, 0, 0, 0, 8]);
}

#[test]
fn row_span_wider_than_width() {
    let mut bits = vec![0u32; 8];
    let mut bm = EmbedBitmap::new(&mut bits, 2, 2, 4, false);
    bm.clear(3);
    drop(bm);
    assert_eq!(bits, vec![3, 3, 0, 0, 3, 3, 0, 0]);
}

#[test]
fn clear_fills_every_pixel() {
    let mut bits = vec![0u32; 9];
    let mut bm = EmbedBitmap::new(&mut bits, 3, 3, 3, false);
    bm.clear(0xFF00FF00);
    for y in 0..3 {
        for x in 0..3 {
            assert_eq!(bm.pixel(x, y), Some(0xFF00FF00));
        }
    }
}

#[test]
fn fill_rect_clips_to_bitmap() {
    let mut bits = vec![0u32; 16];
    let mut bm = EmbedBitmap::new(&mut bits, 4, 4, 4, false);
    bm.fill_rect(-1, 2, 3, 5, 1);
    drop(bm);
    assert_eq!(
        bits,
        vec![0, 0, 0, 0, 0, 0, 0, 0, 1, 1, 0, 0, 1, 1, 0, 0]
    );
}

#[test]
fn fill_rect_with_negative_size_draws_nothing() {
    let mut bits = vec![0u32; 4];
    let mut bm = EmbedBitmap::new(&mut bits, 2, 2, 2, false);
    bm.fill_rect(1, 1, -3, 2, 5);
    drop(bm);
    assert_eq!(bits, vec![0, 0, 0, 0]);
}

#[test]
fn hline_and_vline_respect_bounds() {
    let mut bits = vec![0u32; 9];
    let mut bm = EmbedBitmap::new(&mut bits, 3, 3, 3, false);
    bm.hline(-1, 1, 10, 2);
    bm.hline(0, 3, 3, 9);
    bm.hline(0, -1, 3, 9);
    bm.vline(2, -5, 7, 4);
    bm.vline(3, 0, 3, 9);
    drop(bm);
    assert_eq!(bits, vec![0, 0, 4, 2, 2, 4, 0, 0, 0]);
}

#[test]
fn draw_rect_outlines() {
    let mut bits = vec![0u32; 16];
    let mut bm = EmbedBitmap::new(&mut bits, 4, 4, 4, false);
    bm.draw_rect(0, 0, 4, 4, 1);
    drop(bm);
    assert_eq!(
        bits,
        vec![1, 1, 1, 1, 1, 0, 0, 1, 1, 0, 0, 1, 1, 1, 1, 1]
    );
}

#[test]
fn draw_info_flags_are_decoded() {
    let info = EmbedDrawInfo {
        context: EmbedContext::Tcp,
        dpi: 256,
        width: 10,
        height: 10,
        mouse_x: 0,
        mouse_y: 0,
        flags: draw_info_flags::PAINT_OPTIONAL | draw_info_flags::RBUTTON_CAPTURED,
        mousewheel_amt: 0,
    };
    assert!(info.is_paint_optional());
    assert!(!info.is_left_button_captured());
    assert!(info.is_right_button_captured());
    assert!(!info.is_retina());
    let retina = EmbedDrawInfo { flags: draw_info_flags::IS_RETINA | draw_info_flags::LBUTTON_CAPTURED, ..info };
    assert!(retina.is_retina());
    assert!(retina.is_left_button_captured());
    assert!(!retina.is_paint_optional());
}

#[test]
fn size_hints_default_is_all_zero() {
    let h = EmbedSizeHints::default();
    assert_eq!(
        (h.preferred_aspect, h.minimum_aspect, h.min_width, h.min_height, h.max_width, h.max_height),
        (0, 0, 0, 0, 0, 0)
    );
}

#[test]
fn context_from_host_code() {
    assert_eq!(EmbedContext::from(1), EmbedContext::Tcp);
    assert_eq!(EmbedContext::from(2), EmbedContext::Mcp);
    assert_eq!(EmbedContext::from(0), EmbedContext::Unknown);
    assert_eq!(EmbedContext::from(-7), EmbedContext::Unknown);
}

#[test]
fn register_default_theme_is_a_no_op() {
    nih_plug_dioxus::assets::register_default_theme();
}
