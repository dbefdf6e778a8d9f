use chip8::display::Display;
use chip8::settings::{ColorSettings, DisplaySettings};

fn lit_count(d: &Display) -> usize {
    let mut n = 0;
    for y in 0..32u8 {
        for x in 0..64u8 {
            if d.get_pixel(x, y) {
                n += 1;
            }
        }
    }
    n
}

fn green_of(frame: &[u8], x: usize, y: usize) -> u8 {
    frame[(y * 64 + x) * 4 + 1]
}

#[test]
fn full_row_drawn_twice_collides_and_clears() {
    let mut d = Display::new();
    assert!(!d.draw_sprite(0, 0, &[0xFF]));
    assert_eq!(lit_count(&d), 8);
    for x in 0..8 {
        assert!(d.get_pixel(x, 0));
    }
    assert!(!d.get_pixel(8, 0));
    assert!(d.draw_sprite(0, 0, &[0xFF]));
    assert_eq!(lit_count(&d), 0);
}

#[test]
fn sprite_wraps_around_right_edge() {
    let mut d = Display::new();
    assert!(!d.draw_sprite(60, 0, &[0xFF]));
    for x in 60..64 {
        assert!(d.get_pixel(x, 0));
    }
    for x in 0..4 {
        assert!(d.get_pixel(x, 0));
    }
    assert!(!d.get_pixel(4, 0));
    assert!(!d.get_pixel(59, 0));
    assert_eq!(lit_count(&d), 8);
}

#[test]
fn sprite_wraps_around_bottom_edge() {
    let mut d = Display::new();
    assert!(!d.draw_sprite(0, 31, &[0x80, 0x80]));
    assert!(d.get_pixel(0, 31));
    assert!(d.get_pixel(0, 0));
    assert_eq!(lit_count(&d), 2);
}

#[test]
fn sprite_coordinates_wrap_beyond_the_screen() {
    let mut d = Display::new();
    assert!(!d.draw_sprite(200, 100, &[0x80]));
    assert!(d.get_pixel(200 % 64, 100 % 32));
}

#[test]
fn collision_anywhere_in_sprite_is_reported() {
    let mut d = Display::new();
    d.toggle_pixel(3, 1);
    assert!(d.draw_sprite(0, 0, &[0x00, 0x10, 0x00]));
    assert!(!d.get_pixel(3, 1));
    assert!(!d.draw_sprite(0, 0, &[0x01, 0x00]));
}

#[test]
fn clear_turns_pixels_off_but_keeps_phosphor() {
    let mut d = Display::new();
    d.draw_sprite(0, 0, &[0x80]);
    d.clear();
    assert_eq!(lit_count(&d), 0);
    let mut frame = vec![0u8; 8192];
    d.render_to_buffer(&mut frame);
    // 255 decayed once by 15
    assert_eq!(green_of(&frame, 0, 0), 240);
}

#[test]
fn render_decays_unlit_pixels_and_maps_colour() {
    let mut d = Display::new();
    d.draw_sprite(0, 0, &[0xC0]);
    d.toggle_pixel(1, 0);
    let mut frame = vec![7u8; 8200];
    d.render_to_buffer(&mut frame);
    assert_eq!(&frame[0..4], &[255 / 4, 255, 255 / 8, 255]);
    assert_eq!(&frame[4..8], &[240 / 4, 240, 240 / 8, 255]);
    assert_eq!(&frame[8..12], &[0, 0, 0, 255]);
    assert_eq!(&frame[8192..], &[7u8; 8]);
    for _ in 0..20 {
        d.render_to_buffer(&mut frame);
    }
    assert_eq!(green_of(&frame, 0, 0), 255);
    assert_eq!(green_of(&frame, 1, 0), 0);
}

#[test]
fn custom_settings_are_used() {
    let settings = DisplaySettings {
        phosphor_decay_rate: 100,
        max_phosphor_value: 200,
        default_scale_factor: 4,
        color: ColorSettings { red_divisor: 1, green_divisor: 2, blue_divisor: 1, background: [0, 0, 0, 255] },
    };
    let mut d = Display::with_settings(settings);
    d.draw_sprite(5, 5, &[0x80]);
    d.clear();
    let mut frame = vec![0u8; 8192];
    d.render_to_buffer(&mut frame);
    let i = (5 * 64 + 5) * 4;
    assert_eq!(&frame[i..i + 4], &[100, 50, 100, 255]);
    d.render_to_buffer(&mut frame);
    d.render_to_buffer(&mut frame);
    assert_eq!(&frame[i..i + 4], &[0, 0, 0, 255]);
}

#[test]
fn dimensions_are_64_by_32() {
    assert_eq!(Display::get_dimensions(), (64, 32));
}
