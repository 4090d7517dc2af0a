//! Screen rasterisation: the interleaved pixel layout, the attribute cells
//! (ink, paper, bright, flash) and the sixteen-colour palette, rendered into
//! an ARGB framebuffer with a border.

use vstd::prelude::*;

use crate::memory::Memory;

verus! {

/// Visible screen width in pixels.
pub const SCREEN_WIDTH: usize = 256;

/// Visible screen height in pixels.
pub const SCREEN_HEIGHT: usize = 192;

/// Border thickness around the screen, in pixels.
pub const BORDER_SIZE: usize = 32;

/// Window width: screen plus borders.
pub const WINDOW_WIDTH: usize = 320;

/// Window height: screen plus borders.
pub const WINDOW_HEIGHT: usize = 256;

/// The canonical 16-entry palette in ARGB: eight basic colours followed by
/// their bright variants.
pub open spec fn spec_palette(index: int) -> u32 {
    if index == 0 {
        0xFF000000u32
    } else if index == 1 {
        0xFF0000D7u32
    } else if index == 2 {
        0xFFD70000u32
    } else if index == 3 {
        0xFFD700D7u32
    } else if index == 4 {
        0xFF00D700u32
    } else if index == 5 {
        0xFF00D7D7u32
    } else if index == 6 {
        0xFFD7D700u32
    } else if index == 7 {
        0xFFD7D7D7u32
    } else if index == 8 {
        0xFF000000u32
    } else if index == 9 {
        0xFF0000FFu32
    } else if index == 10 {
        0xFFFF0000u32
    } else if index == 11 {
        0xFFFF00FFu32
    } else if index == 12 {
        0xFF00FF00u32
    } else if index == 13 {
        0xFF00FFFFu32
    } else if index == 14 {
        0xFFFFFF00u32
    } else {
        0xFFFFFFFFu32
    }
}

/// ARGB colour of a palette index (0-15; higher indexes behave as 15).
pub fn palette_color(index: usize) -> (c: u32)
    ensures
        index < 16 ==> c == spec_palette(index as int),
{
    if index == 0 {
        0xFF000000
    } else if index == 1 {
        0xFF0000D7
    } else if index == 2 {
        0xFFD70000
    } else if index == 3 {
        0xFFD700D7
    } else if index == 4 {
        0xFF00D700
    } else if index == 5 {
        0xFF00D7D7
    } else if index == 6 {
        0xFFD7D700
    } else if index == 7 {
        0xFFD7D7D7
    } else if index == 8 {
        0xFF000000
    } else if index == 9 {
        0xFF0000FF
    } else if index == 10 {
        0xFFFF0000
    } else if index == 11 {
        0xFFFF00FF
    } else if index == 12 {
        0xFF00FF00
    } else if index == 13 {
        0xFF00FFFF
    } else if index == 14 {
        0xFFFFFF00
    } else {
        0xFFFFFFFF
    }
}

/// Byte offset of a pixel row in screen memory: within each third of the
/// screen the rows are interleaved as `y0 << 11 | y2 << 8 | y1 << 5 | x`,
/// where y = y0 y1 y2 from most to least significant.
pub open spec fn spec_screen_address(x_byte: usize, y: usize) -> usize {
    let y2 = y & 0x07;
    let y1 = (y >> 3) & 0x07;
    let y0 = (y >> 6) & 0x03;
    ((y0 << 11) | (y2 << 8) | (y1 << 5)) | x_byte
}

/// The foreground and background palette indexes of an attribute byte:
/// bits 0-2 ink, 3-5 paper, 6 bright; bit 7 swaps ink and paper in the
/// flashing half of the blink period.
pub open spec fn spec_attr_colors(attr: u8, flash_state: bool) -> (int, int) {
    let ink = (attr & 0x07) as int;
    let paper = ((attr >> 3) & 0x07) as int;
    let bright: int = if attr & 0x40 != 0 {
        8
    } else {
        0
    };
    if (attr & 0x80 != 0) && flash_state {
        (paper + bright, ink + bright)
    } else {
        (ink + bright, paper + bright)
    }
}

/// Screen rasteriser with border, producing an ARGB buffer.
pub struct Graphics {
    /// Frame buffer, `WINDOW_WIDTH * WINDOW_HEIGHT` ARGB pixels.
    pub buffer: Vec<u32>,
    /// Current border colour (0-7).
    pub border_color: u8,
    /// Whether flashing cells currently show swapped colours.
    pub flash_state: bool,
    /// Frames since the last flash toggle (flips every 16 frames).
    pub frame_count: u8,
}

impl Graphics {
    /// The buffer has exactly one pixel per window position.
    pub open spec fn wf(self) -> bool {
        self.buffer@.len() == 320 * 256
    }

    /// New renderer: black buffer, black border, flash off.
    pub fn new() -> (g: Graphics)
        ensures
            g.wf(),
            g.border_color == 0,
            !g.flash_state,
            g.frame_count == 0,
            forall|i: int| 0 <= i < 320 * 256 ==> g.buffer@[i] == 0,
    {
        Graphics {
            buffer: vec![0u32; WINDOW_WIDTH * WINDOW_HEIGHT],
            border_color: 0,
            flash_state: false,
            frame_count: 0,
        }
    }

    /// Set the border colour (low three bits).
    pub fn set_border(&mut self, color: u8)
        ensures
            *final(self) == (Graphics { border_color: color & 0x07, ..*old(self) }),
    {
        self.border_color = color & 0x07;
    }

    /// Byte offset of a pixel row in screen memory (see
    /// `spec_screen_address`).  Stays below 6144 for on-screen coordinates.
    pub fn screen_address(x_byte: usize, y: usize) -> (r: usize)
        ensures
            r == spec_screen_address(x_byte, y),
            x_byte < 32 && y < 192 ==> r < 6144,
    {
        let y2 = y & 0x07;
        let y1 = (y >> 3) & 0x07;
        let y0 = (y >> 6) & 0x03;
        proof {
            if x_byte < 32 && y < 192 {
                lemma_screen_address_bound(x_byte, y);
            }
        }
        ((y0 << 11) | (y2 << 8) | (y1 << 5)) | x_byte
    }

    /// Render the screen from memory: one frame advances the flash counter
    /// (toggling every 16 frames), paints the border, and rasterises the
    /// 192x256 pixel area from bank 5 with its attributes.
    pub fn render(&mut self, mem: &Memory)
        requires
            old(self).wf(),
            mem.wf(),
        ensures
            final(self).wf(),
            final(self).border_color == old(self).border_color,
            final(self).frame_count == (if old(self).frame_count + 1 >= 16 {
                0u8
            } else {
                (old(self).frame_count + 1) as u8
            }),
            final(self).flash_state == (if old(self).frame_count + 1 >= 16 {
                !old(self).flash_state
            } else {
                old(self).flash_state
            }),
    {
        self.frame_count = if self.frame_count >= 15 {
            0
        } else {
            self.frame_count + 1
        };
        if self.frame_count == 0 {
            self.flash_state = !self.flash_state;
        }
        let ghost fc = self.frame_count;
        let ghost fs = self.flash_state;
        let border = palette_color((self.border_color & 0x07) as usize);
        let mut i: usize = 0;
        while i < 320 * 256
            invariant
                self.buffer@.len() == 320 * 256,
                i <= 320 * 256,
                self.border_color == old(self).border_color,
                self.frame_count == fc,
                self.flash_state == fs,
            decreases 320 * 256 - i,
        {
            self.buffer.set(i, border);
            i = i + 1;
        }
        let screen_data = mem.get_screen_data();
        let mut y: usize = 0;
        while y < 192
            invariant
                self.buffer@.len() == 320 * 256,
                screen_data@.len() == 6912,
                y <= 192,
                self.border_color == old(self).border_color,
                self.frame_count == fc,
                self.flash_state == fs,
            decreases 192 - y,
        {
            let mut x_byte: usize = 0;
            while x_byte < 32
                invariant
                    self.buffer@.len() == 320 * 256,
                    screen_data@.len() == 6912,
                    y < 192,
                    x_byte <= 32,
                    self.border_color == old(self).border_color,
                    self.frame_count == fc,
                    self.flash_state == fs,
                decreases 32 - x_byte,
            {
                let pixel_addr = Self::screen_address(x_byte, y);
                let attr_addr = 6144 + (y / 8) * 32 + x_byte;
                let pixels = screen_data[pixel_addr];
                let attr = screen_data[attr_addr];
                let ink = (attr & 0x07) as usize;
                let paper = ((attr >> 3) & 0x07) as usize;
                let bright: usize = if attr & 0x40 != 0 {
                    8
                } else {
                    0
                };
                let flash = attr & 0x80 != 0;
                let (fg, bg) = if flash && self.flash_state {
                    (paper + bright, ink + bright)
                } else {
                    (ink + bright, paper + bright)
                };
                proof {
                    assert(attr & 0x07 < 8 && (attr >> 3) & 0x07 < 8) by (bit_vector);
                }
                let fg_color = palette_color(fg);
                let bg_color = palette_color(bg);
                let mut bit: usize = 0;
                while bit < 8
                    invariant
                        self.buffer@.len() == 320 * 256,
                        y < 192,
                        x_byte < 32,
                        bit <= 8,
                        self.border_color == old(self).border_color,
                        self.frame_count == fc,
                        self.flash_state == fs,
                    decreases 8 - bit,
                {
                    let px = x_byte * 8 + (7 - bit);
                    let color = if pixels & (1u8 << (bit as u8)) != 0 {
                        fg_color
                    } else {
                        bg_color
                    };
                    let buf_x = BORDER_SIZE + px;
                    let buf_y = BORDER_SIZE + y;
                    self.buffer.set(buf_y * 320 + buf_x, color);
                    bit = bit + 1;
                }
                x_byte = x_byte + 1;
            }
            y = y + 1;
        }
    }

    /// The rendered frame.
    pub fn get_buffer(&self) -> (r: &Vec<u32>)
        ensures
            r@ == self.buffer@,
    {
        &self.buffer
    }

    /// Reset: black buffer, black border, flash state cleared.
    pub fn reset(&mut self)
        requires
            old(self).wf(),
        ensures
            final(self).wf(),
            final(self).border_color == 0,
            !final(self).flash_state,
            final(self).frame_count == 0,
            forall|i: int| 0 <= i < 320 * 256 ==> final(self).buffer@[i] == 0,
    {
        self.buffer = vec![0u32; WINDOW_WIDTH * WINDOW_HEIGHT];
        self.border_color = 0;
        self.flash_state = false;
        self.frame_count = 0;
    }
}

proof fn lemma_screen_address_bound(x_byte: usize, y: usize)
    by (bit_vector)
    requires
        x_byte < 32,
        y < 192,
    ensures
        ({
            let y2 = y & 0x07;
            let y1 = (y >> 3) & 0x07;
            let y0 = (y >> 6) & 0x03;
            (((y0 << 11) | (y2 << 8) | (y1 << 5)) | x_byte) < 6144
        }),
{
}

} // verus!
