//! Pixel buffers that the PPU draws into. A pixel holds a NES colour: an index
//! into the 64-entry system palette.
use vstd::prelude::*;

verus! {

pub type NesColor = u8;

/// The two 4 KB halves of pattern memory.
#[derive(Clone, Copy, PartialEq, Eq, Structural)]
pub enum PatternTable {
    Left,
    Right,
}

impl PatternTable {
    pub open spec fn spec_index(self) -> u16 {
        match self {
            PatternTable::Left => 0,
            PatternTable::Right => 1,
        }
    }

    /// 0 for the left table, 1 for the right one.
    #[verifier::when_used_as_spec(spec_index)]
    pub fn index(self) -> (r: u16)
        ensures
            r == self.spec_index(),
    {
        match self {
            PatternTable::Left => 0,
            PatternTable::Right => 1,
        }
    }
}

/// A pixel buffer as the specifications see it.
#[verifier::ext_equal]
pub struct PixelGrid {
    pub width: usize,
    pub height: usize,
    pub pixels: Seq<NesColor>,
    pub ready_to_render: bool,
}

impl View for BasicPixelBuffer {
    type V = PixelGrid;

    open spec fn view(&self) -> PixelGrid {
        PixelGrid {
            width: self.width,
            height: self.height,
            pixels: self.buffer@,
            ready_to_render: self.ready_to_render,
        }
    }
}

/// A row-major grid of `width` x `height` colours.
pub struct BasicPixelBuffer {
    pub width: usize,
    pub height: usize,
    pub buffer: Vec<NesColor>,
    pub ready_to_render: bool,
}

impl BasicPixelBuffer {
    pub open spec fn wf(&self) -> bool {
        self.buffer@.len() == self.width * self.height
    }

    pub open spec fn pixels(&self) -> Seq<u8> {
        self.buffer@
    }

    pub fn new(width: usize, height: usize) -> (r: Self)
        requires
            width * height <= usize::MAX,
        ensures
            r.wf(),
            r.width == width,
            r.height == height,
            r.buffer@ == Seq::new((width * height) as nat, |i: int| 0u8),
            !r.ready_to_render,
    {
        let n = width * height;
        let mut buffer: Vec<u8> = Vec::new();
        let mut i: usize = 0;
        while i < n
            invariant
                i <= n,
                buffer@ == Seq::new(i as nat, |k: int| 0u8),
            decreases n - i,
        {
            buffer.push(0);
            i = i + 1;
            assert(buffer@ =~= Seq::new(i as nat, |k: int| 0u8));
        }
        Self { width, height, buffer, ready_to_render: false }
    }

    /// The index of pixel (x, y): `y * width + x`.
    pub fn coor_to_index(&self, x: usize, y: usize) -> (r: usize)
        requires
            y * self.width + x <= usize::MAX,
        ensures
            r == y * self.width + x,
    {
        y * self.width + x
    }

    /// The coordinates that an index stands for, taken modulo and divided by the height.
    pub fn index_to_coor(&self, index: usize) -> (r: (usize, usize))
        requires
            self.height > 0,
        ensures
            r == (index % self.height, index / self.height),
    {
        (index % self.height, index / self.height)
    }

    pub fn get_pixel(&self, x: usize, y: usize) -> (r: NesColor)
        requires
            y * self.width + x < self.buffer@.len(),
        ensures
            r == self.buffer@[y * self.width + x],
    {
        let _len = self.buffer.len();
        self.buffer[self.coor_to_index(x, y)]
    }

    pub fn set_pixel(&mut self, x: usize, y: usize, color: NesColor)
        requires
            y * old(self).width + x < old(self).buffer@.len(),
        ensures
            final(self)@ == (PixelGrid {
                pixels: old(self)@.pixels.update(y * old(self).width + x, color),
                ..old(self)@
            }),
    {
        let _len = self.buffer.len();
        let coor = self.coor_to_index(x, y);
        self.buffer.set(coor, color);
    }

    pub fn get(&self, index: usize) -> (r: NesColor)
        requires
            index < self.buffer@.len(),
        ensures
            r == self.buffer@[index as int],
    {
        self.buffer[index]
    }

    pub fn set(&mut self, index: usize, color: NesColor)
        requires
            index < old(self).buffer@.len(),
        ensures
            final(self)@ == (PixelGrid { pixels: old(self)@.pixels.update(index as int, color), ..old(self)@ }),
    {
        self.buffer.set(index, color);
    }

    pub fn into_slice(&self) -> (r: &[NesColor])
        ensures
            r@ == self.buffer@,
    {
        self.buffer.as_slice()
    }
}

/// Writing a pixel and reading it back gives the colour written; other pixels keep theirs.
pub proof fn lemma_pixel_write_read(b: BasicPixelBuffer, index: int, other: int, color: u8)
    requires
        0 <= index < b.buffer@.len(),
        0 <= other < b.buffer@.len(),
        other != index,
    ensures
        b.buffer@.update(index, color)[index] == color,
        b.buffer@.update(index, color)[other] == b.buffer@[other],
{
}


/// The system palette: the red, green and blue of each of the 64 NES colours.
pub open spec fn pal_color_spec(index: u8) -> [u8; 3] {
    match index {
        0x00 => [84, 84, 84],
        0x01 => [0, 30, 116],
        0x02 => [8, 16, 144],
        0x03 => [48, 0, 136],
        0x04 => [68, 0, 100],
        0x05 => [92, 0, 48],
        0x06 => [84, 4, 0],
        0x07 => [60, 24, 0],
        0x08 => [32, 42, 0],
        0x09 => [8, 58, 0],
        0x0A => [0, 64, 0],
        0x0B => [0, 60, 0],
        0x0C => [0, 50, 60],
        0x0D => [0, 0, 0],
        0x0E => [0, 0, 0],
        0x0F => [0, 0, 0],
        0x10 => [152, 150, 152],
        0x11 => [8, 76, 196],
        0x12 => [48, 50, 236],
        0x13 => [92, 30, 228],
        0x14 => [136, 20, 176],
        0x15 => [160, 20, 100],
        0x16 => [152, 34, 32],
        0x17 => [120, 60, 0],
        0x18 => [84, 90, 0],
        0x19 => [40, 114, 0],
        0x1A => [8, 124, 0],
        0x1B => [0, 118, 40],
        0x1C => [0, 102, 120],
        0x1D => [0, 0, 0],
        0x1E => [0, 0, 0],
        0x1F => [0, 0, 0],
        0x20 => [236, 238, 236],
        0x21 => [76, 154, 236],
        0x22 => [120, 124, 236],
        0x23 => [176, 98, 236],
        0x24 => [228, 84, 236],
        0x25 => [236, 88, 180],
        0x26 => [236, 106, 100],
        0x27 => [212, 136, 32],
        0x28 => [160, 170, 0],
        0x29 => [116, 196, 0],
        0x2A => [76, 208, 32],
        0x2B => [56, 204, 108],
        0x2C => [56, 180, 204],
        0x2D => [60, 60, 60],
        0x2E => [0, 0, 0],
        0x2F => [0, 0, 0],
        0x30 => [236, 238, 236],
        0x31 => [168, 204, 236],
        0x32 => [188, 188, 236],
        0x33 => [212, 178, 236],
        0x34 => [236, 174, 236],
        0x35 => [236, 174, 212],
        0x36 => [236, 180, 176],
        0x37 => [228, 196, 144],
        0x38 => [204, 210, 120],
        0x39 => [180, 222, 120],
        0x3A => [168, 226, 144],
        0x3B => [152, 226, 180],
        0x3C => [160, 214, 228],
        0x3D => [160, 162, 160],
        0x3E => [0, 0, 0],
        _ => [0, 0, 0],
    }
}

/// The red, green and blue of a NES colour (only the low six bits count).
pub fn pal_color(index: NesColor) -> (r: [u8; 3])
    requires
        index < 64,
    ensures
        r == pal_color_spec(index),
{
    match index {
        0x00 => [84, 84, 84],
        0x01 => [0, 30, 116],
        0x02 => [8, 16, 144],
        0x03 => [48, 0, 136],
        0x04 => [68, 0, 100],
        0x05 => [92, 0, 48],
        0x06 => [84, 4, 0],
        0x07 => [60, 24, 0],
        0x08 => [32, 42, 0],
        0x09 => [8, 58, 0],
        0x0A => [0, 64, 0],
        0x0B => [0, 60, 0],
        0x0C => [0, 50, 60],
        0x0D => [0, 0, 0],
        0x0E => [0, 0, 0],
        0x0F => [0, 0, 0],
        0x10 => [152, 150, 152],
        0x11 => [8, 76, 196],
        0x12 => [48, 50, 236],
        0x13 => [92, 30, 228],
        0x14 => [136, 20, 176],
        0x15 => [160, 20, 100],
        0x16 => [152, 34, 32],
        0x17 => [120, 60, 0],
        0x18 => [84, 90, 0],
        0x19 => [40, 114, 0],
        0x1A => [8, 124, 0],
        0x1B => [0, 118, 40],
        0x1C => [0, 102, 120],
        0x1D => [0, 0, 0],
        0x1E => [0, 0, 0],
        0x1F => [0, 0, 0],
        0x20 => [236, 238, 236],
        0x21 => [76, 154, 236],
        0x22 => [120, 124, 236],
        0x23 => [176, 98, 236],
        0x24 => [228, 84, 236],
        0x25 => [236, 88, 180],
        0x26 => [236, 106, 100],
        0x27 => [212, 136, 32],
        0x28 => [160, 170, 0],
        0x29 => [116, 196, 0],
        0x2A => [76, 208, 32],
        0x2B => [56, 204, 108],
        0x2C => [56, 180, 204],
        0x2D => [60, 60, 60],
        0x2E => [0, 0, 0],
        0x2F => [0, 0, 0],
        0x30 => [236, 238, 236],
        0x31 => [168, 204, 236],
        0x32 => [188, 188, 236],
        0x33 => [212, 178, 236],
        0x34 => [236, 174, 236],
        0x35 => [236, 174, 212],
        0x36 => [236, 180, 176],
        0x37 => [228, 196, 144],
        0x38 => [204, 210, 120],
        0x39 => [180, 222, 120],
        0x3A => [168, 226, 144],
        0x3B => [152, 226, 180],
        0x3C => [160, 214, 228],
        0x3D => [160, 162, 160],
        0x3E => [0, 0, 0],
        _ => [0, 0, 0],
    }
}

/// A 32-bit pixel: blue in the low byte, then green, then red; the top byte is unused.
#[derive(Clone, Copy)]
pub struct Pixel {
    pub bits: u32,
}

/// The 32-bit word of a colour given by its red, green and blue.
pub open spec fn rgb_word(r: u8, g: u8, b: u8) -> u32 {
    (r as int * 65536 + g as int * 256 + b as int) as u32
}

impl Pixel {
    pub fn from_rgb(r: u8, g: u8, b: u8) -> (w: u32)
        ensures
            w == rgb_word(r, g, b),
    {
        let (r, g, b) = (r as u32, g as u32, b as u32);
        proof {
            assert((r << 16u32) | (g << 8u32) | b == r * 65536 + g * 256 + b) by (bit_vector)
                requires
                    r < 256,
                    g < 256,
                    b < 256,
            ;
        }
        (r << 16) | (g << 8) | b
    }

    /// The 32-bit word of a NES colour.
    pub fn pal_color(index: NesColor) -> (w: u32)
        requires
            index < 64,
        ensures
            w == rgb_word(pal_color_spec(index)[0], pal_color_spec(index)[1], pal_color_spec(index)[2]),
    {
        let c = pal_color(index);
        Pixel::from_rgb(c[0], c[1], c[2])
    }

    pub fn blue(&self) -> (r: u8)
        ensures
            r == self.bits % 256,
    {
        (self.bits % 256) as u8
    }

    pub fn green(&self) -> (r: u8)
        ensures
            r == (self.bits / 256) % 256,
    {
        ((self.bits / 256) % 256) as u8
    }

    pub fn red(&self) -> (r: u8)
        ensures
            r == (self.bits / 65536) % 256,
    {
        ((self.bits / 65536) % 256) as u8
    }
}

impl From<u32> for Pixel {
    fn from(bits: u32) -> (r: Self) {
        Pixel { bits }
    }
}

impl vstd::std_specs::convert::FromSpecImpl<u32> for Pixel {
    open spec fn obeys_from_spec() -> bool {
        true
    }

    open spec fn from_spec(bits: u32) -> Self {
        Pixel { bits }
    }
}

pub struct Dimensions {
    pub width: usize,
    pub height: usize,
}

impl Dimensions {
    pub fn new(width: usize, height: usize) -> (r: Self)
        ensures
            r.width == width,
            r.height == height,
    {
        Dimensions { width, height }
    }

    pub fn num_of_pixels(&self) -> (r: usize)
        requires
            self.height * self.width <= usize::MAX,
        ensures
            r == self.height * self.width,
    {
        self.height * self.width
    }
}

pub const EMULATOR_SCREEN_WIDTH: usize = 256;

pub const EMULATOR_SCREEN_HEIGHT: usize = 240;

pub const EMULATOR_SCREEN_PIXELS: usize = 61440;

pub const PATTERN_TABLES_WIDTH: usize = 256;

pub const PATTERN_TABLES_HEIGHT: usize = 128;

pub const PATTERN_TABLES_PIXELS: usize = 32768;

/// The size of the emulator's screen: 256 x 240.
pub fn emulator_screen_size() -> (r: Dimensions)
    ensures
        r.width == 256,
        r.height == 240,
{
    Dimensions::new(EMULATOR_SCREEN_WIDTH, EMULATOR_SCREEN_HEIGHT)
}

/// The size of the two pattern tables side by side: 256 x 128.
pub fn pattern_tables_size() -> (r: Dimensions)
    ensures
        r.width == 256,
        r.height == 128,
{
    Dimensions::new(PATTERN_TABLES_WIDTH, PATTERN_TABLES_HEIGHT)
}

/// The 32-bit pixels of a screen of NES colours; pixels past the end of `buffer` are 0.
pub fn render(buffer: &[NesColor]) -> (r: Vec<Pixel>)
    requires
        buffer@.len() <= 61440,
        forall|i: int| 0 <= i < buffer@.len() ==> buffer@[i] < 64,
    ensures
        r@.len() == 61440,
        forall|i: int|
            0 <= i < buffer@.len() ==> #[trigger] r@[i].bits == rgb_word(
                pal_color_spec(buffer@[i])[0],
                pal_color_spec(buffer@[i])[1],
                pal_color_spec(buffer@[i])[2],
            ),
        forall|i: int| buffer@.len() <= i < 61440 ==> #[trigger] r@[i].bits == 0,
{
    let mut new_buffer: Vec<Pixel> = Vec::new();
    let mut i: usize = 0;
    while i < 61440
        invariant
            i <= 61440,
            buffer@.len() <= 61440,
            forall|k: int| 0 <= k < buffer@.len() ==> buffer@[k] < 64,
            new_buffer@.len() == i,
            forall|k: int|
                0 <= k < i && k < buffer@.len() ==> #[trigger] new_buffer@[k].bits == rgb_word(
                    pal_color_spec(buffer@[k])[0],
                    pal_color_spec(buffer@[k])[1],
                    pal_color_spec(buffer@[k])[2],
                ),
            forall|k: int| buffer@.len() <= k < i ==> #[trigger] new_buffer@[k].bits == 0,
        decreases 61440 - i,
    {
        if i < buffer.len() {
            new_buffer.push(Pixel::from(Pixel::pal_color(buffer[i])));
        } else {
            new_buffer.push(Pixel::from(0u32));
        }
        i = i + 1;
    }
    new_buffer
}

/// The colours of the main screen and of the pattern tables, as the minifb front end keeps them.
pub struct MiniFBScreenBuffer {
    pub main_screen: [NesColor; 61440],
    pub pattern_screen: [NesColor; 32768],
}

/// The four colours the pattern viewer draws pattern pixels 0..4 in.
pub open spec fn temp_palette(pixel: int) -> u8 {
    if pixel == 0 {
        0x3F
    } else if pixel == 1 {
        0x06
    } else if pixel == 2 {
        0x09
    } else {
        0x02
    }
}

/// The 2-bit pixel at column `x`, row `y` of the pattern viewer, drawn from the
/// pattern bytes: 16 tiles of 16 bytes per tile row, each table 128 pixels wide.
pub open spec fn pattern_pixel(pattern: Seq<u8>, table: int, x: int, y: int) -> int {
    let tile = table * 256 + (y / 8) * 16 + x / 8;
    let row = y % 8;
    let bit = 7 - x % 8;
    let lsb = pattern[tile * 16 + row];
    let msb = pattern[tile * 16 + row + 8];
    (lsb as int / vstd::arithmetic::power2::pow2(bit as nat) as int) % 2 + 2 * ((msb as int
        / vstd::arithmetic::power2::pow2(bit as nat) as int) % 2)
}

impl MiniFBScreenBuffer {
    pub fn new() -> (r: Self)
        ensures
            r.main_screen@ == Seq::new(61440, |i: int| 0u8),
            r.pattern_screen@ == Seq::new(32768, |i: int| 0u8),
    {
        let r = MiniFBScreenBuffer { main_screen: [0u8; 61440], pattern_screen: [0u8; 32768] };
        assert(r.main_screen@ =~= Seq::new(61440, |i: int| 0u8));
        assert(r.pattern_screen@ =~= Seq::new(32768, |i: int| 0u8));
        r
    }

    pub fn get_pixel(&self, x: usize, y: usize) -> (r: NesColor)
        requires
            x + y * 256 < 61440,
        ensures
            r == self.main_screen@[x + y * 256],
    {
        self.main_screen[x + y * EMULATOR_SCREEN_WIDTH]
    }

    pub fn set_pixel(&mut self, x: usize, y: usize, color: NesColor)
        requires
            x + y * 256 < 61440,
        ensures
            final(self).main_screen@ == old(self).main_screen@.update(x + y * 256, color),
            final(self).pattern_screen@ == old(self).pattern_screen@,
    {
        self.main_screen[x + y * EMULATOR_SCREEN_WIDTH] = color;
    }

    pub fn get(&self, index: usize) -> (r: NesColor)
        requires
            index < 61440,
        ensures
            r == self.main_screen@[index as int],
    {
        self.main_screen[index]
    }

    pub fn set(&mut self, index: usize, color: NesColor)
        requires
            index < 61440,
        ensures
            final(self).main_screen@ == old(self).main_screen@.update(index as int, color),
            final(self).pattern_screen@ == old(self).pattern_screen@,
    {
        self.main_screen[index] = color;
    }

    /// The pattern viewer's pixel (x, y) of the given table; the right table starts 128 pixels in.
    pub fn get_pixel_pattern_table(&self, pattern_table: PatternTable, x: usize, y: usize) -> (r: NesColor)
        requires
            x + pattern_table.spec_index() * 128 + y * 256 < 32768,
        ensures
            r == self.pattern_screen@[x + pattern_table.spec_index() * 128 + y * 256],
    {
        let pattern_shift = pattern_table.index() as usize * EMULATOR_SCREEN_WIDTH / 2;
        self.pattern_screen[x + pattern_shift + y * EMULATOR_SCREEN_WIDTH]
    }

    pub fn set_pixel_pattern_table(&mut self, pattern_table: PatternTable, x: usize, y: usize, color: NesColor)
        requires
            x + pattern_table.spec_index() * 128 + y * 256 < 32768,
        ensures
            final(self).pattern_screen@ == old(self).pattern_screen@.update(
                x + pattern_table.spec_index() * 128 + y * 256,
                color,
            ),
            final(self).main_screen@ == old(self).main_screen@,
    {
        let pattern_shift = pattern_table.index() as usize * EMULATOR_SCREEN_WIDTH / 2;
        self.pattern_screen[x + pattern_shift + y * EMULATOR_SCREEN_WIDTH] = color;
    }
}

} // verus!
