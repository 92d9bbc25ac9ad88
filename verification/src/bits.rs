//! Bit-level helpers: the row mask a sprite byte contributes to a
//! framebuffer row, pixel extraction, and keypad bit tests.

use vstd::prelude::*;

verus! {

/// The 64-bit row mask contributed by sprite byte `b` drawn at column `col`:
/// the byte's most-significant bit lands at column `col`, and the span wraps
/// circularly past the right edge of the row.  Column `c` of a row is bit
/// `63 - c` of the row word, so the byte is placed in the top eight bits and
/// rotated right by `col`.
pub open spec fn sprite_mask(b: u8, col: u64) -> u64
    recommends
        col < 64,
{
    let w = (b as u64) << 56u64;
    if col == 0 {
        w
    } else {
        (w >> col) | (w << (64 - col) as u64)
    }
}

/// Whether the pixel at column `col` of row word `row` is lit.
pub open spec fn row_pixel(row: u64, col: u64) -> bool
    recommends
        col < 64,
{
    (row >> (63 - col) as u64) & 1 == 1
}

/// Compute `sprite_mask(b, col)`.
pub fn sprite_row_mask(b: u8, col: u64) -> (m: u64)
    requires
        col < 64,
    ensures
        m == sprite_mask(b, col),
{
    let w: u64 = (b as u64) << 56u64;
    if col == 0 {
        w
    } else {
        (w >> col) | (w << (64 - col))
    }
}

/// Whether the sprite byte `b`, drawn with its most-significant bit at
/// column `col`, lights column `c`: the column must lie within the eight
/// columns starting at `col`, wrapping circularly past the right edge, and
/// the corresponding bit of the byte must be set.
pub open spec fn mask_bit_at(b: u8, col: u64, c: u64) -> bool
    recommends
        col < 64,
        c < 64,
{
    let d = (c + 64 - col) % 64;
    d < 8 && (b >> (7 - d) as u8) & 1 == 1
}

/// The mask a sprite byte contributes lights exactly the columns that
/// `mask_bit_at` describes: the byte's bits appear left to right starting
/// at its column, wrapping circularly, and no other column is lit.
pub proof fn law_mask_pixels(b: u8, col: u64, c: u64)
    by (bit_vector)
    requires
        col < 64,
        c < 64,
    ensures
        row_pixel(sprite_mask(b, col), c) == mask_bit_at(b, col, c),
{
}

/// Whether key `key` is pressed in the 16-bit keypad mask `keypad`.
/// Key numbers outside the 16-key device are never pressed.
pub open spec fn key_pressed(keypad: u16, key: u8) -> bool {
    key < 16 && (keypad >> (key as u16)) & 1 == 1
}

/// Compute `key_pressed(keypad, key)`.
pub fn is_key_pressed(keypad: u16, key: u8) -> (r: bool)
    ensures
        r == key_pressed(keypad, key),
{
    key < 16 && (keypad >> (key as u16)) & 1 == 1
}

/// The lowest key index at or above `j` whose keypad bit is set, or 16 if
/// no bit at or above `j` is set.
pub open spec fn lowest_set_from(keypad: u16, j: u16) -> u16
    recommends
        j <= 16,
    decreases 16 - j,
{
    if j >= 16 {
        16
    } else if (keypad >> j) & 1 == 1 {
        j
    } else {
        lowest_set_from(keypad, (j + 1) as u16)
    }
}

/// The lowest set key index of a keypad mask, or 16 if the mask is zero.
pub open spec fn lowest_set_bit(keypad: u16) -> u16 {
    lowest_set_from(keypad, 0)
}

/// If no key at or above `j` is set, the whole mask above `j` is zero.
proof fn lemma_no_bit_from(keypad: u16, j: u16)
    requires
        j <= 16,
        lowest_set_from(keypad, j) == 16,
    ensures
        keypad >> j == 0,
    decreases 16 - j,
{
    if j >= 16 {
        assert(keypad >> j == 0) by (bit_vector)
            requires
                j >= 16,
        ;
    } else {
        lemma_no_bit_from(keypad, (j + 1) as u16);
        assert((keypad >> j) & 1 != 1 && keypad >> ((j + 1) as u16) == 0 ==> keypad >> j == 0)
            by (bit_vector)
            requires
                j < 16,
        ;
    }
}

/// Find the lowest set key index of a nonzero keypad mask.
pub fn find_lowest_key(keypad: u16) -> (r: u8)
    requires
        keypad != 0,
    ensures
        r < 16,
        r as u16 == lowest_set_bit(keypad),
{
    let mut j: u16 = 0;
    while j < 16
        invariant
            keypad != 0,
            j <= 16,
            lowest_set_bit(keypad) == lowest_set_from(keypad, j),
        decreases 16 - j,
    {
        if (keypad >> j) & 1 == 1 {
            return j as u8;
        }
        j = j + 1;
    }
    proof {
        lemma_no_bit_from(keypad, 0);
        assert(keypad >> 0u16 == keypad) by (bit_vector);
    }
    0
}

} // verus!
