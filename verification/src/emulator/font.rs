//! The built-in fonts: the glyphs of the sixteen hexadecimal digits.

use vstd::prelude::*;

verus! {

/// The number of rows of a low-resolution glyph.
pub const GLYPH_ROWS: usize = 5;

/// The number of rows of a high-resolution glyph.
pub const LARGE_GLYPH_ROWS: usize = 10;

/// The number of bytes of the low-resolution font.
pub const FONT_SIZE: usize = 80;

/// The number of bytes that both fonts take in memory.
pub const FONTS_SIZE: usize = 240;

/// The low-resolution font: sixteen glyphs of five rows, a byte for each
/// row, the glyph in its high nibble.
pub const FONT: [u8; 80] = [
    0xF0, 0x90, 0x90, 0x90, 0xF0,
    0x20, 0x60, 0x20, 0x20, 0x70,
    0xF0, 0x10, 0xF0, 0x80, 0xF0,
    0xF0, 0x10, 0xF0, 0x10, 0xF0,
    0x90, 0x90, 0xF0, 0x10, 0x10,
    0xF0, 0x80, 0xF0, 0x10, 0xF0,
    0xF0, 0x80, 0xF0, 0x90, 0xF0,
    0xF0, 0x10, 0x20, 0x40, 0x40,
    0xF0, 0x90, 0xF0, 0x90, 0xF0,
    0xF0, 0x90, 0xF0, 0x10, 0xF0,
    0xF0, 0x90, 0xF0, 0x90, 0x90,
    0xE0, 0x90, 0xE0, 0x90, 0xE0,
    0xF0, 0x80, 0x80, 0x80, 0xF0,
    0xE0, 0x90, 0x90, 0x90, 0xE0,
    0xF0, 0x80, 0xF0, 0x80, 0xF0,
    0xF0, 0x80, 0xF0, 0x80, 0x80,
];

/// The byte that memory holds at `address` once the fonts are loaded, for an
/// address below 240: the low-resolution font lies at address 0; the
/// high-resolution font follows it and shows each of its rows twice.
pub open spec fn font_byte(address: int) -> u8 {
    if address < FONT_SIZE {
        FONT@[address]
    } else {
        FONT@[(address - FONT_SIZE) / 2]
    }
}

/// Memory after the fonts were loaded.
pub open spec fn with_fonts(memory: Seq<u8>) -> Seq<u8> {
    Seq::new(
        memory.len(),
        |address: int|
            if address < FONTS_SIZE {
                font_byte(address)
            } else {
                memory[address]
            },
    )
}

} // verus!
