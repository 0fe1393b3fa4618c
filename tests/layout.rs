use krab_kart::display::{calculate_texture_rect, cmp_aspect, TextureRect};
use krab_kart::sprite::{frame_offset, kart_rotation_frame, Turn};

#[test]
fn aspect_of_tall_canvas() {
    // 600 * 480 / 270 = 1066 > 800: the buffer overflows the sides.
    assert!(cmp_aspect((800, 600), 480, 270));
    assert!(!cmp_aspect((960, 540), 480, 270));
    assert!(!cmp_aspect((1920, 540), 480, 270));
}

#[test]
fn texture_rect_fits_height() {
    let r = calculate_texture_rect((800, 600), 480, 270);
    assert_eq!(r, TextureRect { center_x: 400, center_y: 300, width: 1066, height: 600 });
}

#[test]
fn texture_rect_fits_width() {
    let r = calculate_texture_rect((960, 540), 480, 270);
    assert_eq!(r, TextureRect { center_x: 480, center_y: 270, width: 960, height: 540 });
    let wide = calculate_texture_rect((1920, 540), 480, 270);
    assert_eq!(wide, TextureRect { center_x: 960, center_y: 270, width: 1920, height: 1080 });
}

#[test]
fn followed_kart_frames() {
    assert_eq!(kart_rotation_frame(Turn::Left, 8), 6);
    assert_eq!(kart_rotation_frame(Turn::Right, 8), 1);
    assert_eq!(kart_rotation_frame(Turn::Straight, 8), 0);
}

#[test]
fn frame_cells() {
    assert_eq!(frame_offset(0), 0);
    assert_eq!(frame_offset(3), 96);
}

#[test]
fn texture_rect_origin() {
    let tall = calculate_texture_rect((800, 600), 480, 270);
    assert_eq!(tall.origin(), (400 - 533, 0));
    let wide = calculate_texture_rect((1920, 540), 480, 270);
    assert_eq!(wide.origin(), (0, 270 - 540));
}
