use chip8::font::{char_to_sprite_data, font_set, get_character_sprite};

#[test]
fn glyph_of_a() {
    assert_eq!(get_character_sprite(0xA), vec![0xF0, 0x90, 0xF0, 0x90, 0x90]);
}

#[test]
fn glyph_of_zero_and_f() {
    assert_eq!(get_character_sprite(0), vec![0xF0, 0x90, 0x90, 0x90, 0xF0]);
    assert_eq!(get_character_sprite(0xF), vec![0xF0, 0x80, 0xF0, 0x80, 0x80]);
}

#[test]
fn characters_map_to_glyphs() {
    assert_eq!(char_to_sprite_data('7'), get_character_sprite(7));
    assert_eq!(char_to_sprite_data('b'), get_character_sprite(0xB));
    assert_eq!(char_to_sprite_data('D'), get_character_sprite(0xD));
    assert_eq!(char_to_sprite_data('z'), get_character_sprite(0));
}

#[test]
fn font_has_eighty_bytes() {
    let f = font_set();
    assert_eq!(f.len(), 80);
    assert_eq!(f[5], 0x20);
    assert_eq!(f[79], 0x80);
}
