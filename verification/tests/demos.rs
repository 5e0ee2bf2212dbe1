use board_drivers::font_demo::{cell_sizes, glyph_positions, scaled_cell_width, Extent, PixelScale};
use board_drivers::geometry::{Point, Rect};
use board_drivers::qmi8658::Vec3i16;
use board_drivers::qr_demo::{
    module_origin, payload_picture, qr_layout, qr_picture, trim_payload, PayloadUpdate, QrLayout, QrPayload,
    DEFAULT_PAYLOAD, QR_TEXT_MAX,
};
use embedded_qr::{EccLevel, QrBuilder, Version7};
use board_drivers::axs5106::TouchPoint;
use board_drivers::touch_demo::{
    ball_bounds, clamp_ball_center, content_bounds, erase_area, level_target_from_accel, moved_enough,
    smooth_step, DemoState, Redraw, TouchDemo, TouchReading, CIRCLE_DIAMETER, LEVEL_DIAMETER,
};

fn p(x: i32, y: i32) -> Point {
    Point { x, y }
}

fn accel(x: i16, y: i16) -> Vec3i16 {
    Vec3i16 { x, y, z: 0 }
}

#[test]
fn clamp_moves_ball_into_content_area() {
    assert_eq!(clamp_ball_center(p(0, 0), CIRCLE_DIAMETER), p(21, 77));
    assert_eq!(clamp_ball_center(p(500, 500), CIRCLE_DIAMETER), p(150, 298));
    assert_eq!(clamp_ball_center(p(-40, 1000), CIRCLE_DIAMETER), p(21, 298));
}

#[test]
fn clamp_keeps_ball_that_fits() {
    assert_eq!(clamp_ball_center(p(100, 200), CIRCLE_DIAMETER), p(100, 200));
    let once = clamp_ball_center(p(3, 9), CIRCLE_DIAMETER);
    assert_eq!(clamp_ball_center(once, CIRCLE_DIAMETER), once);
}

#[test]
fn ball_bounds_includes_margin() {
    assert_eq!(ball_bounds(p(100, 200), CIRCLE_DIAMETER), Rect { x: 79, y: 179, width: 42, height: 42 });
    assert_eq!(ball_bounds(p(20, 80), LEVEL_DIAMETER), Rect { x: 5, y: 65, width: 30, height: 30 });
}

#[test]
fn content_area_is_below_header() {
    assert_eq!(content_bounds(), Rect { x: 0, y: 56, width: 172, height: 264 });
}

#[test]
fn erase_area_inside_content() {
    assert_eq!(erase_area(p(100, 200), CIRCLE_DIAMETER), Some(Rect { x: 79, y: 179, width: 42, height: 42 }));
}

#[test]
fn erase_area_clipped_by_header() {
    assert_eq!(erase_area(p(100, 40), CIRCLE_DIAMETER), Some(Rect { x: 79, y: 56, width: 42, height: 5 }));
}

#[test]
fn erase_area_none_outside_content() {
    assert_eq!(erase_area(p(100, 0), CIRCLE_DIAMETER), None);
    assert_eq!(erase_area(p(400, 200), CIRCLE_DIAMETER), None);
}

#[test]
fn moved_enough_uses_threshold() {
    assert!(!moved_enough(p(10, 10), p(12, 10)));
    assert!(moved_enough(p(10, 10), p(13, 10)));
    assert!(moved_enough(p(10, 10), p(10, 7)));
    assert!(!moved_enough(p(10, 10), p(8, 12)));
    assert_eq!(moved_enough(p(10, 7), p(10, 10)), moved_enough(p(10, 10), p(10, 7)));
}

#[test]
fn level_target_centres_when_flat() {
    assert_eq!(level_target_from_accel(accel(0, 0)), p(86, 188));
    assert_eq!(level_target_from_accel(Vec3i16 { x: 0, y: 0, z: 16000 }), p(86, 188));
}

#[test]
fn level_target_moves_against_tilt() {
    assert_eq!(level_target_from_accel(accel(12000, 0)), p(17, 188));
    assert_eq!(level_target_from_accel(accel(-12000, 0)), p(155, 188));
    assert_eq!(level_target_from_accel(accel(0, -12000)), p(86, 303));
    assert_eq!(level_target_from_accel(accel(0, 12000)), p(86, 73));
}

#[test]
fn level_target_saturates_and_rounds_toward_zero() {
    assert_eq!(level_target_from_accel(accel(32767, -32768)), p(17, 303));
    assert_eq!(level_target_from_accel(accel(6000, 0)), p(52, 188));
    assert_eq!(level_target_from_accel(accel(-6000, 0)), p(120, 188));
}

#[test]
fn smooth_step_moves_a_quarter() {
    assert_eq!(smooth_step(p(0, 0), p(10, -10)), p(2, -2));
    assert_eq!(smooth_step(p(100, 100), p(20, 180)), p(80, 120));
    assert_eq!(smooth_step(p(5, 5), p(5, 5)), p(5, 5));
    assert_eq!(smooth_step(p(5, 5), p(8, 2)), p(5, 5));
}

#[test]
fn cell_sizes_for_common_fonts() {
    assert_eq!(cell_sizes(16), (Extent { width: 14, height: 16 }, Extent { width: 16, height: 16 }));
    assert_eq!(cell_sizes(24), (Extent { width: 22, height: 24 }, Extent { width: 24, height: 24 }));
}

#[test]
fn cell_sizes_keep_minimum_width() {
    assert_eq!(cell_sizes(8).0, Extent { width: 6, height: 8 });
    assert_eq!(cell_sizes(4).0, Extent { width: 6, height: 4 });
    assert_eq!(cell_sizes(0).0, Extent { width: 6, height: 0 });
}

#[test]
fn scaled_cell_width_rounds_to_nearest() {
    assert_eq!(scaled_cell_width('A', 16), 8);
    assert_eq!(scaled_cell_width('\u{4e2d}', 16), 16);
    assert_eq!(scaled_cell_width('A', 24), 12);
    assert_eq!(scaled_cell_width('\u{4e2d}', 24), 24);
    assert_eq!(scaled_cell_width('A', 20), 10);
    assert_eq!(scaled_cell_width('A', 12), 6);
    assert_eq!(scaled_cell_width('\u{7f}', 32), 16);
    assert_eq!(scaled_cell_width('\u{80}', 32), 32);
}

#[test]
fn pixel_scale_rounds_toward_zero() {
    let scale = PixelScale::new(p(10, 20), 3, 2);
    assert_eq!(scale.scale_coord(5), 7);
    assert_eq!(scale.scale_coord(-5), -7);
    assert_eq!(scale.scale_span(0, 4), 6);
}

#[test]
fn pixel_scale_blocks_cover_scaled_pixels() {
    let scale = PixelScale::new(p(10, 20), 3, 2);
    assert_eq!(scale.pixel_rect(p(0, 0)), Some(Rect { x: 10, y: 20, width: 1, height: 1 }));
    assert_eq!(scale.pixel_rect(p(1, 1)), Some(Rect { x: 11, y: 21, width: 2, height: 2 }));
}

#[test]
fn pixel_scale_down_skips_pixels() {
    let half = PixelScale::new(p(10, 20), 1, 2);
    assert_eq!(half.pixel_rect(p(0, 0)), None);
    assert_eq!(half.pixel_rect(p(1, 1)), Some(Rect { x: 10, y: 20, width: 1, height: 1 }));
}

#[test]
fn unit_scale_translates() {
    let unit = PixelScale::new(p(-3, 7), 5, 5);
    assert_eq!(unit.pixel_rect(p(4, -2)), Some(Rect { x: 1, y: 5, width: 1, height: 1 }));
}

#[test]
fn qr_layout_of_small_symbol() {
    let layout = qr_layout(21);
    assert_eq!(layout, QrLayout { scale: 5, side: 145, origin_x: 13, origin_y: 115 });
    assert_eq!(module_origin(layout, 0, 0), p(33, 135));
    assert_eq!(module_origin(layout, 20, 1), p(133, 140));
}

#[test]
fn qr_layout_never_below_one_pixel() {
    assert_eq!(qr_layout(200), QrLayout { scale: 1, side: 208, origin_x: -18, origin_y: 84 });
}

#[test]
fn trim_payload_drops_trailing_padding() {
    assert_eq!(trim_payload(b"abc\r\n\0"), b"abc");
    assert_eq!(trim_payload(b"\0\0\n"), b"");
    assert_eq!(trim_payload(b"a\0b"), b"a\0b");
    assert_eq!(trim_payload(b""), b"");
}

#[test]
fn payload_starts_with_default_text() {
    let payload = QrPayload::new(DEFAULT_PAYLOAD.as_bytes());
    assert_eq!(payload.text(), b"hello embassy");
}

#[test]
fn payload_rejects_empty_long_and_invalid_text() {
    let mut payload = QrPayload::new(DEFAULT_PAYLOAD.as_bytes());
    assert_eq!(payload.apply(b"\r\n\0"), PayloadUpdate::Empty);
    let long = vec![b'a'; QR_TEXT_MAX + 1];
    assert_eq!(payload.apply(&long), PayloadUpdate::TooLong);
    assert_eq!(payload.apply(&[0xff, 0xfe]), PayloadUpdate::NotUtf8);
    assert_eq!(payload.text(), b"hello embassy");
}

#[test]
fn payload_accepts_new_text_once() {
    let mut payload = QrPayload::new(DEFAULT_PAYLOAD.as_bytes());
    assert_eq!(payload.apply(b"hello embassy\n"), PayloadUpdate::Unchanged);
    assert_eq!(payload.apply(b"hi\0"), PayloadUpdate::Changed);
    assert_eq!(payload.text(), b"hi");
    assert_eq!(payload.apply(b"hi\0"), PayloadUpdate::Unchanged);
    let longest = vec![b'z'; QR_TEXT_MAX];
    assert_eq!(payload.apply(&longest), PayloadUpdate::Changed);
    assert_eq!(payload.text(), &longest[..]);
}

#[test]
fn payload_accepts_multibyte_utf8() {
    let mut payload = QrPayload::new(b"x");
    assert_eq!(payload.apply("\u{4e2d}\u{6587}".as_bytes()), PayloadUpdate::Changed);
    assert_eq!(payload.text(), "\u{4e2d}\u{6587}".as_bytes());
}

fn pressed(x: u16, y: u16) -> TouchReading {
    TouchReading::Pressed(TouchPoint { x, y, strength: None })
}

#[test]
fn touch_demo_starts_below_middle() {
    let demo = TouchDemo::new();
    assert_eq!(
        demo.state(),
        DemoState { touch_circle: p(86, 180), touch_visible: false, level_circle: p(86, 180) }
    );
}

#[test]
fn touch_demo_round_without_readings_changes_nothing() {
    let mut demo = TouchDemo::new();
    let before = demo.state();
    assert_eq!(demo.step(TouchReading::Failed, None), None);
    assert_eq!(demo.state(), before);
}

#[test]
fn touch_demo_shows_and_hides_touch_ball() {
    let mut demo = TouchDemo::new();
    assert_eq!(
        demo.step(pressed(10, 10), None),
        Some(Redraw { erase_level: p(86, 180), erase_touch: None, draw_level: p(86, 180), draw_touch: Some(p(21, 77)) })
    );
    assert_eq!(demo.state().touch_circle, p(21, 77));
    assert!(demo.state().touch_visible);

    // A small move of the finger is not redrawn.
    assert_eq!(demo.step(pressed(22, 78), None), None);
    assert_eq!(demo.state().touch_circle, p(21, 77));

    assert_eq!(
        demo.step(TouchReading::Released, None),
        Some(Redraw {
            erase_level: p(86, 180),
            erase_touch: Some(p(21, 77)),
            draw_level: p(86, 180),
            draw_touch: None,
        })
    );
    assert!(!demo.state().touch_visible);
}

#[test]
fn touch_demo_failed_touch_read_keeps_ball() {
    let mut demo = TouchDemo::new();
    let _ = demo.step(pressed(100, 200), None);
    assert_eq!(demo.step(TouchReading::Failed, None), None);
    assert_eq!(demo.state().touch_circle, p(100, 200));
    assert!(demo.state().touch_visible);
}

#[test]
fn touch_demo_tilt_moves_level_ball() {
    let mut demo = TouchDemo::new();
    assert_eq!(
        demo.step(TouchReading::Failed, Some(accel(12000, 0))),
        Some(Redraw { erase_level: p(86, 180), erase_touch: None, draw_level: p(69, 182), draw_touch: None })
    );
    assert_eq!(demo.state().level_circle, p(69, 182));
}

#[test]
fn glyph_positions_follow_advances() {
    let text: Vec<char> = "ru\u{725b}!".chars().collect();
    assert_eq!(glyph_positions(&text, 44, 24), vec![44, 56, 68, 92]);
    assert_eq!(glyph_positions(&text, 44, 16), vec![44, 52, 60, 76]);
    assert_eq!(glyph_positions(&[], 44, 16), Vec::<i32>::new());
}

#[test]
fn qr_picture_of_single_module() {
    let picture = qr_picture(1, &[true]);
    assert_eq!(picture.background, Rect { x: 9, y: 111, width: 153, height: 153 });
    assert_eq!(picture.dark_modules, vec![Rect { x: 77, y: 179, width: 17, height: 17 }]);
}

#[test]
fn qr_picture_lists_dark_modules_row_by_row() {
    let picture = qr_picture(2, &[true, false, false, true]);
    assert_eq!(picture.background, Rect { x: 11, y: 113, width: 150, height: 150 });
    assert_eq!(
        picture.dark_modules,
        vec![Rect { x: 71, y: 173, width: 15, height: 15 }, Rect { x: 86, y: 188, width: 15, height: 15 }]
    );
    assert!(qr_picture(2, &[false; 4]).dark_modules.is_empty());
}

#[test]
fn qr_picture_of_version4_symbol() {
    let dark = vec![true; 33 * 33];
    let picture = qr_picture(33, &dark);
    let layout = qr_layout(33);
    assert_eq!(layout, QrLayout { scale: 3, side: 123, origin_x: 24, origin_y: 126 });
    assert_eq!(picture.dark_modules.len(), 33 * 33);
    assert_eq!(picture.dark_modules[0], Rect { x: 36, y: 138, width: 3, height: 3 });
    assert_eq!(picture.dark_modules[33 * 33 - 1], Rect { x: 132, y: 234, width: 3, height: 3 });
}

#[test]
fn payload_picture_draws_the_encoded_symbol() {
    let picture = payload_picture(DEFAULT_PAYLOAD.as_bytes()).unwrap();
    assert_eq!(picture.background, Rect { x: 33, y: 135, width: 106, height: 106 });
    let matrix = QrBuilder::<Version7>::new().with_ecc_level(EccLevel::M).build(DEFAULT_PAYLOAD.as_bytes()).unwrap();
    let expected: Vec<Rect> = matrix
        .iter()
        .filter(|module| module.2)
        .map(|(x, y, _)| Rect { x: 33 + (x as i32 + 4) * 2, y: 135 + (y as i32 + 4) * 2, width: 2, height: 2 })
        .collect();
    assert!(!expected.is_empty());
    assert_eq!(picture.dark_modules, expected);
}

#[test]
fn payload_picture_of_longest_text() {
    let text = vec![b'q'; QR_TEXT_MAX];
    assert!(payload_picture(&text).is_some());
}

#[test]
fn payload_picture_none_when_text_does_not_fit() {
    let text = vec![b'q'; 400];
    assert_eq!(payload_picture(&text), None);
}

#[test]
fn scaled_cell_width_of_ascii_at_large_heights() {
    assert_eq!(scaled_cell_width('A', 536_870_910), 268_435_455);
}
