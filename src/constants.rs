//! Architectural constants of the CHIP-8 machine.

use vstd::prelude::*;

verus! {

/// Width of the display in pixels.
pub const DISPLAY_WIDTH: usize = 64;

/// Height of the display in pixels.
pub const DISPLAY_HEIGHT: usize = 32;

/// Number of pixels on the display.
pub const DISPLAY_PIXELS: usize = 2048;

/// Programs are loaded starting at this address.
pub const PROGRAM_START_ADDRESS: u16 = 0x200;

/// The font glyphs are stored starting at this address.
pub const FONT_START_ADDRESS: u16 = 0x50;

/// Each instruction is two bytes wide.
pub const INSTRUCTION_SIZE: u16 = 2;

/// Number of addressable bytes.
pub const MEMORY_SIZE: usize = 4096;

/// Number of general-purpose data registers.
pub const DATA_REGISTERS_SIZE: usize = 16;

/// Index of VF, the register that doubles as a flag.
pub const VF_REGISTER_INDEX: u8 = 0xF;

/// Largest value the address register may hold.
pub const MAX_ADDRESS: u16 = 0xFFF;

/// Number of nesting levels of the return-address stack.
pub const STACK_SIZE: usize = 12;

/// Sprites are eight pixels wide.
pub const SPRITE_WIDTH: usize = 8;

/// Bytes per glyph of the built-in font.
pub const FONT_CHAR_SIZE: u16 = 5;

/// Number of keys on the keypad.
pub const KEY_COUNT: usize = 16;

} // verus!
