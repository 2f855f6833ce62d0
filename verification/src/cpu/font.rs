//! The built-in hexadecimal font.

use super::memory::overlay;
use vstd::prelude::*;

verus! {

/// Address of the first font byte.
pub const FONT_START_ADDR: usize = 0x050;

/// Bytes in one glyph: five rows of eight pixels, of which the left four
/// are used.
pub const FONT_SPRITE_SIZE: usize = 5;

/// Glyphs in the font, one for each hexadecimal digit.
pub const FONT_SPRITE_COUNT: usize = 16;

/// Bytes in the whole font.
pub const FONT_BLOCK_SIZE: usize = 80;

/// The glyphs for `0` to `F`, in order.
pub const FONT: [u8; 80] = [
    0xF0, 0x90, 0x90, 0x90, 0xF0,
    0x20, 0x60, 0x20, 0x20, 0x70,
    0xF0, 0x10, 0xF0, 0x80, 0xF0,
    0xF0, 0x10, 0xF0, 0x10, 0xF0,
    0x90, 0x90, 0xF0, 0x10, 0x10,
    0xF0, 0x80, 0xF0, 0x10, 0xF0,
    0xF0, 0x80, 0xF0, 0x90, 0xF0,
    0xF0, 0x10, 0x20, 0x40, 0x40,
    0xF0, 0x90, 0xF0, 0x90, 0xF0,
    0xF0, 0x90, 0xF0, 0x10, 0xF0,
    0xF0, 0x90, 0xF0, 0x90, 0x90,
    0xE0, 0x90, 0xE0, 0x90, 0xE0,
    0xF0, 0x80, 0x80, 0x80, 0xF0,
    0xE0, 0x90, 0x90, 0x90, 0xE0,
    0xF0, 0x80, 0xF0, 0x80, 0xF0,
    0xF0, 0x80, 0xF0, 0x80, 0x80,
];

/// The memory `memory` with the font written over the 80 bytes from
/// `FONT_START_ADDR`.
pub open spec fn with_font(memory: Seq<u8>) -> Seq<u8> {
    overlay(memory, 0x050, FONT@)
}

} // verus!
