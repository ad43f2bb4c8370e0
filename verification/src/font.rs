//! Glyph renderer: a small fixed bitmap font of the ten decimal digits,
//! rasterized column by column into the display framebuffer.

use vstd::prelude::*;
use crate::screen::{Screen, SCREEN_PAGES, SCREEN_WIDTH};

verus! {

/// Column width of the one glyph variant the font defines.
pub const GLYPH_WIDTH: usize = 4;

/// The column bytes of a digit glyph: a three-column five-row digit shape
/// with a blank spacing column, least significant bit on top.
pub open spec fn spec_glyph_column(digit: u8, col: int) -> u8 {
    if digit == 0 {
        if col == 0 { 0x1f } else if col == 1 { 0x11 } else if col == 2 { 0x1f } else { 0x00 }
    } else if digit == 1 {
        if col == 0 { 0x12 } else if col == 1 { 0x1f } else if col == 2 { 0x10 } else { 0x00 }
    } else if digit == 2 {
        if col == 0 { 0x1d } else if col == 1 { 0x15 } else if col == 2 { 0x17 } else { 0x00 }
    } else if digit == 3 {
        if col == 0 { 0x15 } else if col == 1 { 0x15 } else if col == 2 { 0x1f } else { 0x00 }
    } else if digit == 4 {
        if col == 0 { 0x07 } else if col == 1 { 0x04 } else if col == 2 { 0x1f } else { 0x00 }
    } else if digit == 5 {
        if col == 0 { 0x17 } else if col == 1 { 0x15 } else if col == 2 { 0x1d } else { 0x00 }
    } else if digit == 6 {
        if col == 0 { 0x1f } else if col == 1 { 0x15 } else if col == 2 { 0x1d } else { 0x00 }
    } else if digit == 7 {
        if col == 0 { 0x01 } else if col == 1 { 0x01 } else if col == 2 { 0x1f } else { 0x00 }
    } else if digit == 8 {
        if col == 0 { 0x1f } else if col == 1 { 0x15 } else if col == 2 { 0x1f } else { 0x00 }
    } else {
        if col == 0 { 0x17 } else if col == 1 { 0x15 } else if col == 2 { 0x1f } else { 0x00 }
    }
}

pub fn glyph_column(digit: u8, col: usize) -> (r: u8)
    requires
        digit < 10,
        col < GLYPH_WIDTH,
    ensures
        r == spec_glyph_column(digit, col as int),
{
    if col == 3 {
        0x00
    } else if digit == 0 {
        if col == 0 { 0x1f } else if col == 1 { 0x11 } else { 0x1f }
    } else if digit == 1 {
        if col == 0 { 0x12 } else if col == 1 { 0x1f } else { 0x10 }
    } else if digit == 2 {
        if col == 0 { 0x1d } else if col == 1 { 0x15 } else { 0x17 }
    } else if digit == 3 {
        if col == 0 { 0x15 } else if col == 1 { 0x15 } else { 0x1f }
    } else if digit == 4 {
        if col == 0 { 0x07 } else if col == 1 { 0x04 } else { 0x1f }
    } else if digit == 5 {
        if col == 0 { 0x17 } else if col == 1 { 0x15 } else { 0x1d }
    } else if digit == 6 {
        if col == 0 { 0x1f } else if col == 1 { 0x15 } else { 0x1d }
    } else if digit == 7 {
        if col == 0 { 0x01 } else if col == 1 { 0x01 } else { 0x1f }
    } else if digit == 8 {
        if col == 0 { 0x1f } else if col == 1 { 0x15 } else { 0x1f }
    } else {
        if col == 0 { 0x17 } else if col == 1 { 0x15 } else { 0x1f }
    }
}

/// The glyph renderer; it owns nothing and pokes columns into a framebuffer.
pub struct Font {}

impl Font {
    /// Rasterize one digit glyph into the framebuffer at the given page and
    /// column offset. Columns outside `x_offset .. x_offset + width` and
    /// other pages are untouched. The font defines the `GLYPH_WIDTH`-column
    /// variant.
    pub fn write_digit(screen: &mut Screen, page: usize, x_offset: usize, digit: u8, width: usize)
        requires
            old(screen).wf(),
            page < SCREEN_PAGES,
            digit < 10,
            width == GLYPH_WIDTH,
            x_offset + width <= SCREEN_WIDTH,
        ensures
            final(screen).wf(),
            final(screen).pixels@.len() == old(screen).pixels@.len(),
            forall|c: int| 0 <= c < width ==> final(screen).pixels@[page * SCREEN_WIDTH
                + x_offset + c] == spec_glyph_column(digit, c),
            forall|i: int| 0 <= i < old(screen).pixels@.len()
                && !(page * SCREEN_WIDTH + x_offset <= i < page * SCREEN_WIDTH + x_offset
                + width) ==> final(screen).pixels@[i] == old(screen).pixels@[i],
    {
        let mut c: usize = 0;
        while c < width
            invariant
                screen.wf(),
                width == GLYPH_WIDTH,
                page < SCREEN_PAGES,
                digit < 10,
                x_offset + width <= SCREEN_WIDTH,
                c <= width,
                screen.pixels@.len() == old(screen).pixels@.len(),
                forall|j: int| 0 <= j < c ==> screen.pixels@[page * SCREEN_WIDTH + x_offset
                    + j] == spec_glyph_column(digit, j),
                forall|i: int| 0 <= i < old(screen).pixels@.len()
                    && !(page * SCREEN_WIDTH + x_offset <= i < page * SCREEN_WIDTH + x_offset
                    + c) ==> screen.pixels@[i] == old(screen).pixels@[i],
            decreases width - c,
        {
            let bits = glyph_column(digit, c);
            screen.set_column(page, x_offset + c, bits);
            c += 1;
        }
    }
}

} // verus!
