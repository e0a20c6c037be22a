//! The debug view of the pattern tables: every tile of one table drawn with one palette
//! into the pattern table screen, the two tables side by side.
use vstd::prelude::*;
use vstd::arithmetic::power2::{pow2, lemma_pow2_unfold, lemma_pow2_pos};
use vstd::arithmetic::div_mod::{
    lemma_div_denominator,
    lemma_fundamental_div_mod,
    lemma_fundamental_div_mod_converse,
};
use crate::bit_facts::{lemma_byte_bits, lemma_shift_in_low_bits};
use crate::bit_operations::bit_of;
use crate::cartridge::{Cartridge, CartridgeState};
use crate::rendering::{NesColor, PatternTable, PixelGrid};
use super::{PPU, PpuState};

verus! {

/// The index in the pattern table screen of pixel (x, y) of table `side`: the two tables
/// lie side by side, 128 pixels wide each, 256 pixels to a screen row.
pub open spec fn pattern_screen_index(side: int, x: int, y: int) -> int {
    x + 128 * side + 256 * y
}

/// Whether screen index `i` shows a pixel of pattern table `side`.
pub open spec fn in_pattern_view(side: int, i: int) -> bool {
    0 <= i < 32768 && (i % 256) / 128 == side
}

/// The horizontal position, within its table, of the pixel at screen index `i`.
pub open spec fn view_x(side: int, i: int) -> int {
    i % 256 - 128 * side
}

/// The vertical position of the pixel at screen index `i`.
pub open spec fn view_y(i: int) -> int {
    i / 256
}

/// Whether screen index `i` shows a pixel of tile (tile_x, tile_y) of table `side`.
pub open spec fn in_tile_view(side: int, i: int, tile_x: int, tile_y: int) -> bool {
    in_pattern_view(side, i) && view_x(side, i) / 8 == tile_x && view_y(i) / 8 == tile_y
}

/// The pattern address of row `row` of tile (tile_x, tile_y) of table `side`, in the low
/// bit plane; the high bit plane of the row lies 8 bytes further.
pub open spec fn tile_row_address(side: int, tile_x: int, tile_y: int, row: int) -> int {
    side * 0x1000 + tile_y * 256 + tile_x * 16 + row
}

/// The two-bit pixel at (x, y) of table `side`: bit `7 - x % 8` of both planes of row
/// `y % 8` of tile (x / 8, y / 8), the high plane giving the high bit.
pub open spec fn pattern_view_pixel(cartridge: CartridgeState, side: int, x: int, y: int) -> int {
    let address = tile_row_address(side, x / 8, y / 8, y % 8);
    let bit = (7 - x % 8) as nat;
    bit_of(cartridge.ppu_read_value(address as u16) as nat, bit) as int + 2 * bit_of(
        cartridge.ppu_read_value((address + 8) as u16) as nat,
        bit,
    ) as int
}

/// Whether every byte of pattern table `side` can be read from the cartridge.
pub open spec fn pattern_table_readable(cartridge: CartridgeState, side: int) -> bool {
    forall|a: u16|
        side * 0x1000 <= a < side * 0x1000 + 0x1000 ==> #[trigger] cartridge.ppu_read_ok(a)
}

impl PpuState {
    /// The colour that the debug view shows at (x, y) of table `side`.
    pub open spec fn pattern_view_color(
        self,
        cartridge: CartridgeState,
        side: int,
        pallete_id: u8,
        x: int,
        y: int,
    ) -> u8 {
        self.color_value(pallete_id, pattern_view_pixel(cartridge, side, x, y) as u8)
    }

    /// The PPU with table `side` drawn into the pattern table screen: every pixel of the
    /// table shows its colour, every other pixel keeps its own.
    pub open spec fn pattern_table_drawn(
        self,
        cartridge: CartridgeState,
        side: int,
        pallete_id: u8,
    ) -> PpuState {
        let old = self.pattern_table_screen.pixels;
        PpuState {
            pattern_table_screen: PixelGrid {
                pixels: Seq::new(
                    old.len(),
                    |i: int|
                        if in_pattern_view(side, i) {
                            self.pattern_view_color(cartridge, side, pallete_id, view_x(side, i), view_y(i))
                        } else {
                            old[i]
                        },
                ),
                ..self.pattern_table_screen
            },
            ..self
        }
    }
}

/// Pixel (x, y) of a table lands on a screen index of that table, from which its
/// position is read back.
pub proof fn lemma_view_position(side: int, x: int, y: int)
    requires
        0 <= side < 2,
        0 <= x < 128,
        0 <= y < 128,
    ensures
        in_pattern_view(side, pattern_screen_index(side, x, y)),
        view_x(side, pattern_screen_index(side, x, y)) == x,
        view_y(pattern_screen_index(side, x, y)) == y,
{
    let i = pattern_screen_index(side, x, y);
    lemma_fundamental_div_mod_converse(i, 256, y, x + 128 * side);
    lemma_fundamental_div_mod_converse(x + 128 * side, 128, side, x);
}

/// A screen index of a table is the index of its own position.
pub proof fn lemma_view_coordinates(side: int, i: int)
    requires
        0 <= side < 2,
        in_pattern_view(side, i),
    ensures
        0 <= view_x(side, i) < 128,
        0 <= view_y(i) < 128,
        i == pattern_screen_index(side, view_x(side, i), view_y(i)),
{
    lemma_fundamental_div_mod(i, 256);
    lemma_fundamental_div_mod(i % 256, 128);
}

/// A position splits into its tile and its place in the tile.
pub proof fn lemma_tile_split(v: int)
    requires
        0 <= v,
    ensures
        v == 8 * (v / 8) + v % 8,
        0 <= v % 8 < 8,
{
    lemma_fundamental_div_mod(v, 8);
}

/// Place `c` of tile `t` has tile `t` and place `c`.
pub proof fn lemma_tile_place(t: int, c: int)
    requires
        0 <= t,
        0 <= c < 8,
    ensures
        (8 * t + c) / 8 == t,
        (8 * t + c) % 8 == c,
{
    lemma_fundamental_div_mod_converse(8 * t + c, 8, t, c);
}

/// Drawing the next pixel of a tile, row by row and within a row from the right,
/// extends the drawn part of the tile by that pixel.
pub proof fn lemma_tile_step(
    before: Seq<u8>,
    start: Seq<u8>,
    value: spec_fn(int) -> u8,
    s: int,
    tile_x: int,
    tile_y: int,
    row: int,
    col: int,
)
    requires
        before.len() == start.len(),
        start.len() >= 32768,
        0 <= s < 2,
        0 <= tile_x < 16,
        0 <= tile_y < 16,
        0 <= row < 8,
        0 <= col < 8,
        forall|i: int|
            0 <= i < start.len() ==> #[trigger] before[i] == (if in_tile_view(s, i, tile_x, tile_y)
                && (view_y(i) % 8 < row || (view_y(i) % 8 == row && 7 - view_x(s, i) % 8 < col)) {
                value(i)
            } else {
                start[i]
            }),
    ensures
        ({
            let w = pattern_screen_index(s, 8 * tile_x + 7 - col, 8 * tile_y + row);
            let after = before.update(w, value(w));
            &&& 0 <= w < start.len()
            &&& forall|i: int|
                0 <= i < start.len() ==> #[trigger] after[i] == (if in_tile_view(s, i, tile_x, tile_y)
                    && (view_y(i) % 8 < row || (view_y(i) % 8 == row && 7 - view_x(s, i) % 8 < col
                    + 1)) {
                    value(i)
                } else {
                    start[i]
                })
        }),
{
    let x = 8 * tile_x + 7 - col;
    let y = 8 * tile_y + row;
    let w = pattern_screen_index(s, x, y);
    lemma_view_position(s, x, y);
    lemma_tile_place(tile_x, 7 - col);
    lemma_tile_place(tile_y, row);
    let after = before.update(w, value(w));
    assert forall|i: int| 0 <= i < start.len() implies #[trigger] after[i] == (if in_tile_view(
        s,
        i,
        tile_x,
        tile_y,
    ) && (view_y(i) % 8 < row || (view_y(i) % 8 == row && 7 - view_x(s, i) % 8 < col + 1)) {
        value(i)
    } else {
        start[i]
    }) by {
        if i != w && in_tile_view(s, i, tile_x, tile_y) && view_y(i) % 8 == row && 7 - view_x(s, i)
            % 8 == col {
            lemma_view_coordinates(s, i);
            lemma_tile_split(view_x(s, i));
            lemma_tile_split(view_y(i));
        }
    }
}

/// The two-bit pixel in place `7 - col` of row `row` of a tile is made of bit `col` of the
/// row's two bytes.
proof fn lemma_tile_pixel(cartridge: CartridgeState, s: int, tile_x: int, tile_y: int, row: int, col: int)
    requires
        0 <= tile_x < 16,
        0 <= tile_y < 16,
        0 <= row < 8,
        0 <= col < 8,
    ensures
        pattern_view_pixel(cartridge, s, 8 * tile_x + 7 - col, 8 * tile_y + row) == bit_of(
            cartridge.ppu_read_value(tile_row_address(s, tile_x, tile_y, row) as u16) as nat,
            col as nat,
        ) + 2 * bit_of(
            cartridge.ppu_read_value((tile_row_address(s, tile_x, tile_y, row) + 8) as u16) as nat,
            col as nat,
        ),
{
    lemma_tile_place(tile_x, 7 - col);
    lemma_tile_place(tile_y, row);
}

/// Drawing one pattern table leaves every pixel of the other table as it was, and
/// drawing the same table again with the same palette changes nothing.
pub proof fn lemma_pattern_table_drawing(
    ppu: PpuState,
    cartridge: CartridgeState,
    side: int,
    pallete_id: u8,
    i: int,
)
    requires
        0 <= side < 2,
        0 <= i < ppu.pattern_table_screen.pixels.len(),
    ensures
        in_pattern_view(1 - side, i) ==> ppu.pattern_table_drawn(
            cartridge,
            side,
            pallete_id,
        ).pattern_table_screen.pixels[i] == ppu.pattern_table_screen.pixels[i],
        ppu.pattern_table_drawn(cartridge, side, pallete_id).pattern_table_drawn(
            cartridge,
            side,
            pallete_id,
        ) == ppu.pattern_table_drawn(cartridge, side, pallete_id),
{
    let once = ppu.pattern_table_drawn(cartridge, side, pallete_id);
    let twice = once.pattern_table_drawn(cartridge, side, pallete_id);
    assert(twice.pattern_table_screen.pixels =~= once.pattern_table_screen.pixels);
    assert(twice.pattern_table_screen =~= once.pattern_table_screen);
}

impl PPU {
    fn set_pixel_pattern_table(&mut self, pattern_table: PatternTable, x: usize, y: usize, color: NesColor)
        requires
            x + pattern_table.spec_index() * 128 + y * 256 < old(self).pattern_table_screen.buffer@.len(),
        ensures
            final(self)@ == (PpuState {
                pattern_table_screen: PixelGrid {
                    pixels: old(self)@.pattern_table_screen.pixels.update(
                        x + pattern_table.spec_index() * 128 + y * 256,
                        color,
                    ),
                    ..old(self)@.pattern_table_screen
                },
                ..old(self)@
            }),
    {
        let _len = self.pattern_table_screen.buffer.len();
        let pattern_shift = (pattern_table.index() as usize) * (256 / 2);
        self.pattern_table_screen.set(x + pattern_shift + y * 256, color);
    }

    /// Draws the 8 x 8 pixels of tile (tile_x, tile_y) of one pattern table.
    fn render_debug_tile(
        &mut self,
        pattern_table_side: PatternTable,
        tile_x: u16,
        tile_y: u16,
        pallete_id: u8,
        cartridge: &Cartridge,
    )
        requires
            tile_x < 16,
            tile_y < 16,
            old(self).pattern_table_screen.buffer@.len() >= 32768,
            pattern_table_readable(cartridge@, pattern_table_side.spec_index() as int),
        ensures
            final(self)@ == (PpuState {
                pattern_table_screen: PixelGrid {
                    pixels: final(self)@.pattern_table_screen.pixels,
                    ..old(self)@.pattern_table_screen
                },
                ..old(self)@
            }),
            final(self)@.pattern_table_screen.pixels.len() == old(self)@.pattern_table_screen.pixels.len(),
            forall|i: int|
                0 <= i < old(self)@.pattern_table_screen.pixels.len()
                    ==> #[trigger] final(self)@.pattern_table_screen.pixels[i] == (if in_tile_view(
                    pattern_table_side.spec_index() as int,
                    i,
                    tile_x as int,
                    tile_y as int,
                ) {
                    old(self)@.pattern_view_color(
                        cartridge@,
                        pattern_table_side.spec_index() as int,
                        pallete_id,
                        view_x(pattern_table_side.spec_index() as int, i),
                        view_y(i),
                    )
                } else {
                    old(self)@.pattern_table_screen.pixels[i]
                }),
    {
        let ghost start = self@;
        let ghost s = pattern_table_side.spec_index() as int;
        let ghost len = start.pattern_table_screen.pixels.len();
        let side = pattern_table_side.index();
        let offset: u16 = side * 0x1000 + tile_y * 256 + tile_x * 16;
        let mut row: u16 = 0;
        while row < 8
            invariant
                row <= 8,
                tile_x < 16,
                tile_y < 16,
                side == s,
                pattern_table_side.spec_index() == s,
                0 <= s < 2,
                offset == tile_row_address(s, tile_x as int, tile_y as int, 0),
                len >= 32768,
                self.pattern_table_screen.buffer@.len() == len,
                start.pattern_table_screen.pixels.len() == len,
                pattern_table_readable(cartridge@, s),
                self@ == (PpuState {
                    pattern_table_screen: PixelGrid {
                        pixels: self@.pattern_table_screen.pixels,
                        ..start.pattern_table_screen
                    },
                    ..start
                }),
                forall|i: int|
                    0 <= i < len ==> #[trigger] self@.pattern_table_screen.pixels[i] == (if in_tile_view(
                        s,
                        i,
                        tile_x as int,
                        tile_y as int,
                    ) && view_y(i) % 8 < row {
                        start.pattern_view_color(cartridge@, s, pallete_id, view_x(s, i), view_y(i))
                    } else {
                        start.pattern_table_screen.pixels[i]
                    }),
            decreases 8 - row,
        {
            let mut tile_lsb = self.read(offset + row, cartridge);
            let mut tile_msb = self.read(offset + row + 8, cartridge);
            let ghost lsb = tile_lsb;
            let ghost msb = tile_msb;
            proof {
                vstd::arithmetic::power2::lemma2_to64();
            }
            let mut col: u16 = 0;
            while col < 8
                invariant
                    row < 8,
                    col <= 8,
                    tile_x < 16,
                    tile_y < 16,
                    0 <= s < 2,
                    pattern_table_side.spec_index() == s,
                    len >= 32768,
                    self.pattern_table_screen.buffer@.len() == len,
                    start.pattern_table_screen.pixels.len() == len,
                start.pattern_table_screen.pixels.len() == len,
                    lsb == cartridge@.ppu_read_value(
                        tile_row_address(s, tile_x as int, tile_y as int, row as int) as u16,
                    ),
                    msb == cartridge@.ppu_read_value(
                        (tile_row_address(s, tile_x as int, tile_y as int, row as int) + 8) as u16,
                    ),
                    tile_lsb as nat == lsb as nat / pow2(col as nat),
                    tile_msb as nat == msb as nat / pow2(col as nat),
                    self@ == (PpuState {
                        pattern_table_screen: PixelGrid {
                            pixels: self@.pattern_table_screen.pixels,
                            ..start.pattern_table_screen
                        },
                        ..start
                    }),
                    forall|i: int|
                        0 <= i < len ==> #[trigger] self@.pattern_table_screen.pixels[i] == (if in_tile_view(
                            s,
                            i,
                            tile_x as int,
                            tile_y as int,
                        ) && (view_y(i) % 8 < row || (view_y(i) % 8 == row && 7 - view_x(s, i) % 8
                            < col)) {
                            start.pattern_view_color(cartridge@, s, pallete_id, view_x(s, i), view_y(i))
                        } else {
                            start.pattern_table_screen.pixels[i]
                        }),
                decreases 8 - col,
            {
                let pixel: u8 = (tile_lsb & 0x01) | ((tile_msb & 0x01) << 1);
                proof {
                    lemma_byte_bits(tile_lsb);
                    lemma_byte_bits(tile_msb);
                    lemma_shift_in_low_bits(tile_msb & 0x01, tile_lsb & 0x01);
                    lemma_pow2_pos(col as nat);
                    lemma_pow2_unfold((col + 1) as nat);
                    lemma_div_denominator(lsb as int, pow2(col as nat) as int, 2);
                    lemma_div_denominator(msb as int, pow2(col as nat) as int, 2);
                    assert(pixel == bit_of(lsb as nat, col as nat) + 2 * bit_of(msb as nat, col as nat));
                }
                tile_lsb = tile_lsb >> 1;
                tile_msb = tile_msb >> 1;
                let color = self.get_color_value_from_pallet_ram(pallete_id, pixel);
                let x = tile_x * 8 + (7 - col);
                let y = tile_y * 8 + row;
                proof {
                    lemma_tile_pixel(cartridge@, s, tile_x as int, tile_y as int, row as int, col as int);
                    lemma_tile_step(
                        self@.pattern_table_screen.pixels,
                        start.pattern_table_screen.pixels,
                        |i: int| start.pattern_view_color(cartridge@, s, pallete_id, view_x(s, i), view_y(i)),
                        s,
                        tile_x as int,
                        tile_y as int,
                        row as int,
                        col as int,
                    );
                    lemma_view_position(s, x as int, y as int);
                }
                self.set_pixel_pattern_table(pattern_table_side, x as usize, y as usize, color);
                col = col + 1;
            }
            row = row + 1;
        }
    }

    /// Draws pattern table `pattern_table_side` into the pattern table screen, tile by
    /// tile, each pixel in the colour that palette `pallete_id` gives its two bits.
    pub fn render_debug_pattern_table(
        &mut self,
        pattern_table_side: PatternTable,
        pallete_id: u8,
        cartridge: &Cartridge,
    )
        requires
            old(self).pattern_table_screen.buffer@.len() >= 32768,
            pattern_table_readable(cartridge@, pattern_table_side.spec_index() as int),
        ensures
            final(self)@ == old(self)@.pattern_table_drawn(
                cartridge@,
                pattern_table_side.spec_index() as int,
                pallete_id,
            ),
    {
        let ghost start = self@;
        let ghost s = pattern_table_side.spec_index() as int;
        let ghost len = start.pattern_table_screen.pixels.len();
        let mut tile_y: u16 = 0;
        while tile_y < 16
            invariant
                tile_y <= 16,
                0 <= s < 2,
                pattern_table_side.spec_index() == s,
                len >= 32768,
                self.pattern_table_screen.buffer@.len() == len,
                start.pattern_table_screen.pixels.len() == len,
                pattern_table_readable(cartridge@, s),
                self@ == (PpuState {
                    pattern_table_screen: PixelGrid {
                        pixels: self@.pattern_table_screen.pixels,
                        ..start.pattern_table_screen
                    },
                    ..start
                }),
                forall|i: int|
                    0 <= i < len ==> #[trigger] self@.pattern_table_screen.pixels[i] == (if in_pattern_view(s, i)
                        && view_y(i) / 8 < tile_y {
                        start.pattern_view_color(cartridge@, s, pallete_id, view_x(s, i), view_y(i))
                    } else {
                        start.pattern_table_screen.pixels[i]
                    }),
            decreases 16 - tile_y,
        {
            let mut tile_x: u16 = 0;
            while tile_x < 16
                invariant
                    tile_y < 16,
                    tile_x <= 16,
                    0 <= s < 2,
                    pattern_table_side.spec_index() == s,
                    len >= 32768,
                    self.pattern_table_screen.buffer@.len() == len,
                    start.pattern_table_screen.pixels.len() == len,
                    pattern_table_readable(cartridge@, s),
                    self@ == (PpuState {
                        pattern_table_screen: PixelGrid {
                            pixels: self@.pattern_table_screen.pixels,
                            ..start.pattern_table_screen
                        },
                        ..start
                    }),
                    forall|i: int|
                        0 <= i < len ==> #[trigger] self@.pattern_table_screen.pixels[i] == (if in_pattern_view(s, i)
                            && (view_y(i) / 8 < tile_y || (view_y(i) / 8 == tile_y && view_x(s, i) / 8
                            < tile_x)) {
                            start.pattern_view_color(cartridge@, s, pallete_id, view_x(s, i), view_y(i))
                        } else {
                            start.pattern_table_screen.pixels[i]
                        }),
                decreases 16 - tile_x,
            {
                self.render_debug_tile(pattern_table_side, tile_x, tile_y, pallete_id, cartridge);
                tile_x = tile_x + 1;
            }
            tile_y = tile_y + 1;
        }
        proof {
            assert forall|i: int| 0 <= i < len && in_pattern_view(s, i) implies view_y(i) / 8 < 16 by {
                lemma_view_coordinates(s, i);
            }
            assert(self@.pattern_table_screen.pixels =~= start.pattern_table_drawn(
                cartridge@,
                s,
                pallete_id,
            ).pattern_table_screen.pixels);
        }
    }
}

} // verus!
