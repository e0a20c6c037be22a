//! The state of the minifb front end: the colours of its two windows, and the pattern
//! viewer that draws the cartridge's pattern memory with a fixed palette.
use vstd::prelude::*;
use vstd::bits::lemma_u8_shr_is_div;
use vstd::arithmetic::div_mod::lemma_fundamental_div_mod;
use crate::bit_facts::lemma_byte_bits;
use crate::file_loading::INesFile;
use crate::ppu::debug_view::{
    in_pattern_view,
    in_tile_view,
    lemma_tile_place,
    lemma_tile_step,
    lemma_view_coordinates,
    lemma_view_position,
    view_x,
    view_y,
};
use crate::rendering::{MiniFBScreenBuffer, PatternTable, pattern_pixel, temp_palette};

verus! {

/// The colour the pattern viewer shows at screen index `i`: the table is the half of
/// the screen row that `i` lies in.
pub open spec fn pattern_viewer_color(pattern: Seq<u8>, i: int) -> u8 {
    let side = (i % 256) / 128;
    temp_palette(pattern_pixel(pattern, side, view_x(side, i), view_y(i)))
}

/// The colour of pattern pixel value `index` in the viewer's fixed palette.
fn temp_pallette(index: u8) -> (r: u8)
    requires
        index < 4,
    ensures
        r == temp_palette(index as int),
{
    if index == 0 {
        0x3F
    } else if index == 1 {
        0x06
    } else if index == 2 {
        0x09
    } else {
        0x02
    }
}

/// The minifb front end: the colours of its emulator window and of its pattern viewer.
pub struct MiniFBEMulator {
    pub buffer: MiniFBScreenBuffer,
}

impl MiniFBEMulator {
    pub fn new() -> (r: Self)
        ensures
            r.buffer.main_screen@ == Seq::new(61440, |i: int| 0u8),
            r.buffer.pattern_screen@ == Seq::new(32768, |i: int| 0u8),
    {
        Self { buffer: MiniFBScreenBuffer::new() }
    }

    /// Draws tile (col, row) of one table of the pattern memory, which starts at byte
    /// `current`, into the pattern viewer.
    fn load_tile(&mut self, plane: PatternTable, row: usize, col: usize, pattern: &Vec<u8>, current: usize)
        requires
            row < 16,
            col < 16,
            pattern@.len() == 8192,
            current == 16 * (plane.spec_index() * 256 + row * 16 + col),
        ensures
            final(self).buffer.main_screen@ == old(self).buffer.main_screen@,
            final(self).buffer.pattern_screen@.len() == 32768,
            forall|i: int|
                0 <= i < 32768 ==> #[trigger] final(self).buffer.pattern_screen@[i] == (if in_tile_view(
                    plane.spec_index() as int,
                    i,
                    col as int,
                    row as int,
                ) {
                    pattern_viewer_color(pattern@, i)
                } else {
                    old(self).buffer.pattern_screen@[i]
                }),
    {
        let ghost start = self.buffer.pattern_screen@;
        let ghost s = plane.spec_index() as int;
        let ghost value = |i: int| pattern_viewer_color(pattern@, i);
        let row_offset = row * 8;
        let x_offset = 8 * col;
        let mut i: usize = 0;
        while i < 8
            invariant
                i <= 8,
                row < 16,
                col < 16,
                row_offset == row * 8,
                x_offset == 8 * col,
                s == plane.spec_index(),
                0 <= s < 2,
                pattern@.len() == 8192,
                current == 16 * (s * 256 + row * 16 + col),
                start.len() == 32768,
                value == (|i: int| pattern_viewer_color(pattern@, i)),
                self.buffer.main_screen@ == old(self).buffer.main_screen@,
                forall|k: int|
                    0 <= k < 32768 ==> #[trigger] self.buffer.pattern_screen@[k] == (if in_tile_view(
                        s,
                        k,
                        col as int,
                        row as int,
                    ) && view_y(k) % 8 < i {
                        value(k)
                    } else {
                        start[k]
                    }),
            decreases 8 - i,
        {
            let lbp_byte = pattern[current + i];
            let mbp_byte = pattern[current + 8 + i];
            let mut j: u8 = 0;
            while j < 8
                invariant
                    i < 8,
                    j <= 8,
                    row < 16,
                    col < 16,
                    row_offset == row * 8,
                    x_offset == 8 * col,
                    s == plane.spec_index(),
                    0 <= s < 2,
                    pattern@.len() == 8192,
                    current == 16 * (s * 256 + row * 16 + col),
                    lbp_byte == pattern@[current + i],
                    mbp_byte == pattern@[current + 8 + i],
                    start.len() == 32768,
                    value == (|i: int| pattern_viewer_color(pattern@, i)),
                    self.buffer.main_screen@ == old(self).buffer.main_screen@,
                    forall|k: int|
                        0 <= k < 32768 ==> #[trigger] self.buffer.pattern_screen@[k] == (if in_tile_view(
                            s,
                            k,
                            col as int,
                            row as int,
                        ) && (view_y(k) % 8 < i || (view_y(k) % 8 == i && 7 - view_x(s, k) % 8
                            < j)) {
                            value(k)
                        } else {
                            start[k]
                        }),
                decreases 8 - j,
            {
                proof {
                    lemma_byte_bits(lbp_byte >> j);
                    lemma_byte_bits(mbp_byte >> j);
                }
                let palette_index = ((lbp_byte >> j) & 0x01) + ((mbp_byte >> j << 1) & 0x02);
                let x = x_offset + (7 - j as usize);
                let y = i + row_offset;
                proof {
                    lemma_u8_shr_is_div(lbp_byte, j);
                    lemma_u8_shr_is_div(mbp_byte, j);
                    lemma_byte_bits(lbp_byte >> j);
                    lemma_byte_bits(mbp_byte >> j);
                    lemma_tile_place(col as int, 7 - j);
                    lemma_tile_place(row as int, i as int);
                    lemma_view_position(s, x as int, y as int);
                    assert(palette_index == pattern_pixel(pattern@, s, x as int, y as int));
                    lemma_tile_step(
                        self.buffer.pattern_screen@,
                        start,
                        value,
                        s,
                        col as int,
                        row as int,
                        i as int,
                        j as int,
                    );
                }
                self.buffer.set_pixel_pattern_table(plane, x, y, temp_pallette(palette_index));
                j = j + 1;
            }
            i = i + 1;
        }
    }

    /// Draws both tables of the file's pattern memory into the pattern viewer, tile by
    /// tile, each pixel in the fixed palette's colour for its two bits. The pattern memory
    /// must hold exactly the two tables.
    pub fn load_pattern(&mut self, file: &INesFile)
        requires
            file.chr_rom_data@.len() * 8 == 32768 * 2,
        ensures
            final(self).buffer.main_screen@ == old(self).buffer.main_screen@,
            final(self).buffer.pattern_screen@ == Seq::new(
                32768,
                |i: int| pattern_viewer_color(file.chr_rom_data@, i),
            ),
    {
        let pattern = &file.chr_rom_data;
        let ghost start = self.buffer.pattern_screen@;
        let mut current: usize = 0;
        let mut plane_index: usize = 0;
        while plane_index < 2
            invariant
                plane_index <= 2,
                current == 16 * 256 * plane_index,
                pattern@.len() == 8192,
                start.len() == 32768,
                self.buffer.main_screen@ == old(self).buffer.main_screen@,
                forall|k: int|
                    0 <= k < 32768 ==> #[trigger] self.buffer.pattern_screen@[k] == (if (k % 256)
                        / 128 < plane_index {
                        pattern_viewer_color(pattern@, k)
                    } else {
                        start[k]
                    }),
            decreases 2 - plane_index,
        {
            let plane = if plane_index == 0 {
                PatternTable::Left
            } else {
                PatternTable::Right
            };
            let mut row: usize = 0;
            while row < 16
                invariant
                    plane_index < 2,
                    plane.spec_index() == plane_index,
                    row <= 16,
                    current == 16 * (256 * plane_index + 16 * row),
                    pattern@.len() == 8192,
                    start.len() == 32768,
                    self.buffer.main_screen@ == old(self).buffer.main_screen@,
                    forall|k: int|
                        0 <= k < 32768 ==> #[trigger] self.buffer.pattern_screen@[k] == (if (k % 256)
                            / 128 < plane_index || (in_pattern_view(plane_index as int, k) && view_y(k)
                            / 8 < row) {
                            pattern_viewer_color(pattern@, k)
                        } else {
                            start[k]
                        }),
                decreases 16 - row,
            {
                let mut col: usize = 0;
                while col < 16
                    invariant
                        plane_index < 2,
                        plane.spec_index() == plane_index,
                        row < 16,
                        col <= 16,
                        current == 16 * (256 * plane_index + 16 * row + col),
                        pattern@.len() == 8192,
                        start.len() == 32768,
                        self.buffer.main_screen@ == old(self).buffer.main_screen@,
                        forall|k: int|
                            0 <= k < 32768 ==> #[trigger] self.buffer.pattern_screen@[k] == (if (k
                                % 256) / 128 < plane_index || (in_pattern_view(plane_index as int, k)
                                && (view_y(k) / 8 < row || (view_y(k) / 8 == row && view_x(
                                plane_index as int,
                                k,
                            ) / 8 < col))) {
                                pattern_viewer_color(pattern@, k)
                            } else {
                                start[k]
                            }),
                    decreases 16 - col,
                {
                    self.load_tile(plane, row, col, pattern, current);
                    current = current + 16;
                    col = col + 1;
                }
                row = row + 1;
            }
            proof {
                assert forall|k: int| 0 <= k < 32768 && in_pattern_view(plane_index as int, k) implies view_y(k) / 8 < 16 by {
                    lemma_view_coordinates(plane_index as int, k);
                }
            }
            plane_index = plane_index + 1;
        }
        proof {
            assert forall|k: int| 0 <= k < 32768 implies #[trigger] self.buffer.pattern_screen@[k]
                == pattern_viewer_color(pattern@, k) by {
                lemma_fundamental_div_mod(k % 256, 128);
            }
            assert(self.buffer.pattern_screen@ =~= Seq::new(
                32768,
                |i: int| pattern_viewer_color(file.chr_rom_data@, i),
            ));
        }
    }
}

} // verus!
