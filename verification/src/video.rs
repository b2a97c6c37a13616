//! The video sampler: a read-only projection of the video region of memory
//! into a pixel grid.
//!
//! The arcade hardware stores the picture column-major in 32-byte strips,
//! rotated 90° counterclockwise relative to the screen: bit `j` of the byte
//! at offset `VIDEO_BASE + i` drives the pixel at display column `i / 32`,
//! display row `255 - ((i % 32) * 8 + j)`.

use vstd::prelude::*;
use crate::state::I8080;

verus! {

/// Display columns.
pub const DISPLAY_WIDTH: usize = 224;

/// Display rows.
pub const DISPLAY_HEIGHT: usize = 256;

/// Pixels of the display, row-major with a row stride of `DISPLAY_WIDTH`.
pub const DISPLAY_SIZE: usize = 224 * 256;

/// First byte of the video region of memory.
pub const VIDEO_BASE: usize = 0x2400;

/// The video-memory bit that drives the pixel at display column `x`,
/// row `y`.
pub open spec fn vram_bit(m: Seq<u8>, x: int, y: int) -> bool {
    (m[0x2400 + x * 32 + (255 - y) / 8] >> ((255 - y) % 8)) & 1 != 0
}

/// A byte-and-bit position of the video region maps to a column and a row
/// of the display, and the map sends position `i * 8 + j` to the cell
/// whose own position is the same number.
proof fn lemma_cell_of_byte(i: int, j: int)
    requires
        0 <= i < 7168,
        0 <= j < 8,
    ensures
        0 <= i / 32 < 224,
        0 <= 255 - ((i % 32) * 8 + j) < 256,
        (i / 32) * 256 + (255 - (255 - ((i % 32) * 8 + j))) == i * 8 + j,
        0x2400 + (i / 32) * 32 + (255 - (255 - ((i % 32) * 8 + j))) / 8 == 0x2400 + i,
        (255 - (255 - ((i % 32) * 8 + j))) % 8 == j,
{
    vstd::arithmetic::div_mod::lemma_fundamental_div_mod(i, 32);
    vstd::arithmetic::div_mod::lemma_fundamental_div_mod_converse((i % 32) * 8 + j, 8, i % 32, j);
    assert(i / 32 < 224) by (nonlinear_arith)
        requires
            0 <= i < 7168,
    ;
}

/// Distinct display cells have distinct buffer indexes.
proof fn lemma_cell_unique(x1: int, y1: int, x2: int, y2: int)
    requires
        0 <= x1 < 224,
        0 <= x2 < 224,
        0 <= y1 < 256,
        0 <= y2 < 256,
        y1 * 224 + x1 == y2 * 224 + x2,
    ensures
        x1 == x2,
        y1 == y2,
{
    vstd::arithmetic::div_mod::lemma_fundamental_div_mod_converse(y1 * 224 + x1, 224, y1, x1);
    vstd::arithmetic::div_mod::lemma_fundamental_div_mod_converse(y2 * 224 + x2, 224, y2, x2);
}

/// Distinct display cells have distinct byte-and-bit positions.
proof fn lemma_pos_unique(x1: int, y1: int, x2: int, y2: int)
    requires
        0 <= x1 < 224,
        0 <= x2 < 224,
        0 <= y1 < 256,
        0 <= y2 < 256,
        x1 * 256 + (255 - y1) == x2 * 256 + (255 - y2),
    ensures
        x1 == x2,
        y1 == y2,
{
    vstd::arithmetic::div_mod::lemma_fundamental_div_mod_converse(
        x1 * 256 + (255 - y1),
        256,
        x1,
        255 - y1,
    );
    vstd::arithmetic::div_mod::lemma_fundamental_div_mod_converse(
        x2 * 256 + (255 - y2),
        256,
        x2,
        255 - y2,
    );
}

impl I8080 {
    /// Projects the video region of memory into a caller-supplied pixel
    /// buffer of 224 columns by 256 rows, row-major: each pixel takes `fg`
    /// where its video-memory bit is set and `bg` where it is clear. The
    /// machine is not touched.
    pub fn sample_display(&self, pixels: &mut Vec<u32>, fg: u32, bg: u32)
        requires
            self@.mem.len() >= 0x4000,
            old(pixels)@.len() == DISPLAY_SIZE,
        ensures
            final(pixels)@.len() == DISPLAY_SIZE,
            forall|x: int, y: int|
                0 <= x < 224 && 0 <= y < 256 ==> final(pixels)@[y * 224 + x] == (
                if vram_bit(self@.mem, x, y) {
                    fg
                } else {
                    bg
                }),
    {
        let mut i: usize = 0;
        while i < 7168
            invariant
                self@.mem.len() >= 0x4000,
                pixels@.len() == DISPLAY_SIZE,
                i <= 7168,
                forall|x: int, y: int|
                    0 <= x < 224 && 0 <= y < 256 && x * 256 + (255 - y) < i * 8
                        ==> pixels@[y * 224 + x] == (if vram_bit(self@.mem, x, y) {
                        fg
                    } else {
                        bg
                    }),
            decreases 7168 - i,
        {
            let byte = self.memory[0x2400 + i];
            let mut j: usize = 0;
            while j < 8
                invariant
                    self@.mem.len() >= 0x4000,
                    pixels@.len() == DISPLAY_SIZE,
                    i < 7168,
                    j <= 8,
                    byte == self@.mem[0x2400 + i],
                    forall|x: int, y: int|
                        0 <= x < 224 && 0 <= y < 256 && x * 256 + (255 - y) < i * 8 + j
                            ==> pixels@[y * 224 + x] == (if vram_bit(self@.mem, x, y) {
                            fg
                        } else {
                            bg
                        }),
                decreases 8 - j,
            {
                proof {
                    lemma_cell_of_byte(i as int, j as int);
                }
                let x = i / 0x20;
                let y = DISPLAY_HEIGHT - ((i % 0x20) * 8 + j) - 1;
                let index = y * DISPLAY_WIDTH + x;
                if (byte >> j) & 0x1 != 0 {
                    pixels[index] = fg;
                } else {
                    pixels[index] = bg;
                }
                proof {
                    let xi = i as int / 32;
                    let yi = 255 - ((i as int % 32) * 8 + j as int);
                    assert(vram_bit(self@.mem, xi, yi) == ((byte >> j as int) & 1 != 0));
                    assert forall|x2: int, y2: int|
                        0 <= x2 < 224 && 0 <= y2 < 256 && x2 * 256 + (255 - y2) < i * 8 + j
                            + 1 implies pixels@[y2 * 224 + x2] == (if vram_bit(
                        self@.mem,
                        x2,
                        y2,
                    ) {
                        fg
                    } else {
                        bg
                    }) by {
                        if x2 * 256 + (255 - y2) == i * 8 + j {
                            lemma_pos_unique(x2, y2, xi, yi);
                        } else {
                            if y2 * 224 + x2 == index {
                                lemma_cell_unique(x2, y2, xi, yi);
                                assert(false);
                            }
                        }
                    }
                }
                j = j + 1;
            }
            i = i + 1;
        }
    }
}

} // verus!
