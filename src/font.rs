//! The built-in hexadecimal font: sixteen glyphs, 0 to F, each four pixels
//! wide and five rows tall, one byte per row with the upper four bits used.

use vstd::prelude::*;

use crate::constants::FONT_CHAR_SIZE;

verus! {

/// Number of bytes in the font.
pub const FONT_SET_SIZE: usize = 80;

/// The glyph bytes, glyph after glyph.
pub open spec fn font_glyphs() -> Seq<u8> {
    seq![
        // '0'
        0xF0u8, 0x90u8, 0x90u8, 0x90u8, 0xF0u8,
        // '1'
        0x20u8, 0x60u8, 0x20u8, 0x20u8, 0x70u8,
        // '2'
        0xF0u8, 0x10u8, 0xF0u8, 0x80u8, 0xF0u8,
        // '3'
        0xF0u8, 0x10u8, 0xF0u8, 0x10u8, 0xF0u8,
        // '4'
        0x90u8, 0x90u8, 0xF0u8, 0x10u8, 0x10u8,
        // '5'
        0xF0u8, 0x80u8, 0xF0u8, 0x10u8, 0xF0u8,
        // '6'
        0xF0u8, 0x80u8, 0xF0u8, 0x90u8, 0xF0u8,
        // '7'
        0xF0u8, 0x10u8, 0x20u8, 0x40u8, 0x40u8,
        // '8'
        0xF0u8, 0x90u8, 0xF0u8, 0x90u8, 0xF0u8,
        // '9'
        0xF0u8, 0x90u8, 0xF0u8, 0x10u8, 0xF0u8,
        // 'A'
        0xF0u8, 0x90u8, 0xF0u8, 0x90u8, 0x90u8,
        // 'B'
        0xE0u8, 0x90u8, 0xE0u8, 0x90u8, 0xE0u8,
        // 'C'
        0xF0u8, 0x80u8, 0x80u8, 0x80u8, 0xF0u8,
        // 'D'
        0xE0u8, 0x90u8, 0x90u8, 0x90u8, 0xE0u8,
        // 'E'
        0xF0u8, 0x80u8, 0xF0u8, 0x80u8, 0xF0u8,
        // 'F'
        0xF0u8, 0x80u8, 0xF0u8, 0x80u8, 0x80u8,
    ]
}

/// The glyph of hex digit `d`.
pub open spec fn glyph(d: int) -> Seq<u8> {
    font_glyphs().subrange(d * 5, d * 5 + 5)
}

/// The value of a hex digit character in either case; any other
/// character counts as `0`.
pub open spec fn hex_value(c: char) -> u8 {
    if '0' <= c && c <= '9' {
        (c as u32 - '0' as u32) as u8
    } else if 'A' <= c && c <= 'F' {
        (c as u32 - 'A' as u32 + 10) as u8
    } else if 'a' <= c && c <= 'f' {
        (c as u32 - 'a' as u32 + 10) as u8
    } else {
        0
    }
}

/// The whole font, as it is placed in memory.
pub fn font_set() -> (r: [u8; FONT_SET_SIZE])
    ensures
        r@ == font_glyphs(),
{
    let r: [u8; FONT_SET_SIZE] = [
        // '0'
        0xF0, 0x90, 0x90, 0x90, 0xF0,
        // '1'
        0x20, 0x60, 0x20, 0x20, 0x70,
        // '2'
        0xF0, 0x10, 0xF0, 0x80, 0xF0,
        // '3'
        0xF0, 0x10, 0xF0, 0x10, 0xF0,
        // '4'
        0x90, 0x90, 0xF0, 0x10, 0x10,
        // '5'
        0xF0, 0x80, 0xF0, 0x10, 0xF0,
        // '6'
        0xF0, 0x80, 0xF0, 0x90, 0xF0,
        // '7'
        0xF0, 0x10, 0x20, 0x40, 0x40,
        // '8'
        0xF0, 0x90, 0xF0, 0x90, 0xF0,
        // '9'
        0xF0, 0x90, 0xF0, 0x10, 0xF0,
        // 'A'
        0xF0, 0x90, 0xF0, 0x90, 0x90,
        // 'B'
        0xE0, 0x90, 0xE0, 0x90, 0xE0,
        // 'C'
        0xF0, 0x80, 0x80, 0x80, 0xF0,
        // 'D'
        0xE0, 0x90, 0x90, 0x90, 0xE0,
        // 'E'
        0xF0, 0x80, 0xF0, 0x80, 0xF0,
        // 'F'
        0xF0, 0x80, 0xF0, 0x80, 0x80,
    ];
    assert(r@ =~= font_glyphs());
    r
}

/// The five rows of the glyph of hex digit `character`.
pub fn get_character_sprite(character: u8) -> (r: Vec<u8>)
    requires
        character < 16,
    ensures
        r@ == glyph(character as int),
{
    let font = font_set();
    let start = (character as usize) * (FONT_CHAR_SIZE as usize);
    let mut r: Vec<u8> = Vec::new();
    let mut i: usize = 0;
    while i < FONT_CHAR_SIZE as usize
        invariant
            i <= 5,
            start == character * 5,
            character < 16,
            font@ == font_glyphs(),
            r@ == font_glyphs().subrange(start as int, start + i),
        decreases 5 - i,
    {
        r.push(font[start + i]);
        i += 1;
        assert(r@ =~= font_glyphs().subrange(start as int, start + i));
    }
    r
}

/// The glyph of a hex digit character, `0`-`9`, `A`-`F` or `a`-`f`; any
/// other character gets the glyph of `0`.
pub fn char_to_sprite_data(character: char) -> (r: Vec<u8>)
    ensures
        r@ == glyph(hex_value(character) as int),
{
    let hex_value: u8 = if '0' <= character && character <= '9' {
        (character as u32 - '0' as u32) as u8
    } else if 'A' <= character && character <= 'F' {
        (character as u32 - 'A' as u32 + 10) as u8
    } else if 'a' <= character && character <= 'f' {
        (character as u32 - 'a' as u32 + 10) as u8
    } else {
        0
    };
    get_character_sprite(hex_value)
}

} // verus!
