//! The window rasterizer: 32 layered windows painted back to front into the
//! framebuffer pair that is not being displayed.

use vstd::prelude::*;
use crate::bits::lemma_mask_bound_u16;
use crate::bits::lemma_mask_bound_u32;
use crate::vip::confinement::confined;
use crate::vip::confinement::lemma_rasterized_confined;
use crate::vip::regs::Eye;
use crate::vip::regs::ObjGroup;
use crate::vip::regs::VipRegisters;
use crate::vip::regs::WindowMode;

verus! {

pub const VRAM_SIZE: usize = 0x0004_0000;

pub const FRAMEBUFFER_RESOLUTION_X: u32 = 384;
pub const FRAMEBUFFER_RESOLUTION_Y: u32 = 256;

/// Bytes of one eye's framebuffer: four pixels to a byte.
pub const FRAMEBUFFER_BYTES: u32 = 0x6000;

/// Distance from a left framebuffer to the right one of the same pair.
pub const RIGHT_FRAMEBUFFER_DISTANCE: u32 = 0x0001_0000;

/// Mask that brings a halfword address into video memory.
pub const VRAM_HALFWORD_MASK: u32 = 0x0003_fffe;

/// The little-endian halfword of video memory at `addr`, which is first
/// brought into video memory and aligned.
pub open spec fn vram_halfword(vram: Seq<u8>, addr: u32) -> u16 {
    let a = (addr & VRAM_HALFWORD_MASK) as int;
    (vram[a] as u16) | ((vram[a + 1] as u16) << 8)
}

pub fn read_vram_halfword(vram: &Vec<u8>, addr: u32) -> (r: u16)
    requires
        vram.len() == VRAM_SIZE,
    ensures
        r == vram_halfword(vram@, addr),
{
    proof {
        lemma_mask_bound_u32(addr, VRAM_HALFWORD_MASK);
    }
    let a = (addr & VRAM_HALFWORD_MASK) as usize;
    (vram[a] as u16) | ((vram[a + 1] as u16) << 8)
}

/// Where the character with the given index keeps its sixteen bytes: the four
/// character tables hold 512 characters each.
pub open spec fn char_offset(char_index: u32) -> u32 {
    if char_index < 0x0200 {
        (0x0000_6000 + char_index * 16) as u32
    } else if char_index < 0x0400 {
        (0x0000_e000 + (char_index - 0x0200) * 16) as u32
    } else if char_index < 0x0600 {
        (0x0001_6000 + (char_index - 0x0400) * 16) as u32
    } else {
        (0x0001_e000 + (char_index - 0x0600) * 16) as u32
    }
}

/// The 2-bit palette index of one pixel of a character, flips applied.
pub open spec fn char_palette_index(
    vram: Seq<u8>,
    char_index: u32,
    offset_x: u32,
    offset_y: u32,
    horizontal_flip: bool,
    vertical_flip: bool,
) -> u32 {
    let ox = if horizontal_flip { (7 - offset_x) as u32 } else { offset_x };
    let oy = if vertical_flip { (7 - offset_y) as u32 } else { offset_y };
    let row = vram_halfword(vram, (char_offset(char_index) + oy * 2) as u32);
    ((row as u32) >> ((ox * 2) as u32)) & 0x03
}

/// The byte of a framebuffer that holds pixel (x, y): column-major, four
/// pixels to a byte.
pub open spec fn framebuffer_byte_index(pixel_x: u32, pixel_y: u32) -> int {
    (pixel_x * 256 + pixel_y) / 4
}

/// The position of pixel (x, y) inside its byte.
pub open spec fn framebuffer_byte_shift(pixel_y: u32) -> u32 {
    ((pixel_y & 0x03) * 2) as u32
}

/// A framebuffer byte with one of its four pixels replaced.
pub open spec fn with_pixel(byte: u8, shift: u32, color: u8) -> u8 {
    (byte & !(0x03u8 << shift)) | (color << shift)
}

/// Video memory after one pixel of a character was plotted: index 0 is
/// transparent, any other index picks two bits of the palette register.
#[verifier::opaque]
pub open spec fn plot_char_pixel(
    vram: Seq<u8>,
    framebuffer_offset: u32,
    pixel_x: u32,
    pixel_y: u32,
    offset_x: u32,
    offset_y: u32,
    char_index: u32,
    horizontal_flip: bool,
    vertical_flip: bool,
    palette: u8,
) -> Seq<u8> {
    let palette_index = char_palette_index(
        vram,
        char_index,
        offset_x,
        offset_y,
        horizontal_flip,
        vertical_flip,
    );
    if palette_index == 0 {
        vram
    } else {
        let color = (palette >> ((palette_index * 2) as u32)) & 0x03;
        let index = framebuffer_offset + framebuffer_byte_index(pixel_x, pixel_y);
        vram.update(index, with_pixel(vram[index], framebuffer_byte_shift(pixel_y), color))
    }
}

pub fn draw_char_pixel(
    vram: &mut Vec<u8>,
    framebuffer_offset: u32,
    pixel_x: u32,
    pixel_y: u32,
    offset_x: u32,
    offset_y: u32,
    char_index: u32,
    horizontal_flip: bool,
    vertical_flip: bool,
    palette: u8,
)
    requires
        old(vram).len() == VRAM_SIZE,
        framebuffer_offset + FRAMEBUFFER_BYTES <= VRAM_SIZE,
        pixel_x < FRAMEBUFFER_RESOLUTION_X,
        pixel_y < FRAMEBUFFER_RESOLUTION_Y,
        offset_x < 8,
        offset_y < 8,
        char_index < 0x0800,
    ensures
        final(vram).len() == VRAM_SIZE,
        final(vram)@ == plot_char_pixel(
            old(vram)@,
            framebuffer_offset,
            pixel_x,
            pixel_y,
            offset_x,
            offset_y,
            char_index,
            horizontal_flip,
            vertical_flip,
            palette,
        ),
{
    proof {
        reveal(plot_char_pixel);
    }
    let offset_x = if horizontal_flip { 7 - offset_x } else { offset_x };
    let offset_y = if vertical_flip { 7 - offset_y } else { offset_y };

    let char_offset: u32 = if char_index < 0x0200 {
        0x0000_6000 + char_index * 16
    } else if char_index < 0x0400 {
        0x0000_e000 + (char_index - 0x0200) * 16
    } else if char_index < 0x0600 {
        0x0001_6000 + (char_index - 0x0400) * 16
    } else {
        0x0001_e000 + (char_index - 0x0600) * 16
    };

    let char_row_offset: u32 = char_offset + offset_y * 2;
    let char_row_data = read_vram_halfword(vram, char_row_offset);
    let palette_index: u32 = ((char_row_data as u32) >> (offset_x * 2)) & 0x03;
    proof {
        lemma_mask_bound_u32((char_row_data as u32) >> ((offset_x * 2) as u32), 0x03);
    }

    if palette_index == 0 {
        return ;
    }
    let color: u8 = (palette >> (palette_index * 2)) & 0x03;

    let framebuffer_byte_index: u32 = (pixel_x * 256 + pixel_y) / 4;
    proof {
        lemma_mask_bound_u32(pixel_y, 0x03);
    }
    let framebuffer_byte_shift: u32 = (pixel_y & 0x03) * 2;
    let framebuffer_byte_mask: u8 = 0x03u8 << framebuffer_byte_shift;
    let index: usize = (framebuffer_offset + framebuffer_byte_index) as usize;
    let framebuffer_byte: u8 = vram[index];
    vram[index] = (framebuffer_byte & !framebuffer_byte_mask) | (color << framebuffer_byte_shift);
}


/// The background palette register that a 2-bit palette number selects.
pub open spec fn bg_palette(regs: VipRegisters, pal: u16) -> u8 {
    if pal == 0 {
        regs.bg_palette_0
    } else if pal == 1 {
        regs.bg_palette_1
    } else if pal == 2 {
        regs.bg_palette_2
    } else {
        regs.bg_palette_3
    }
}

/// The object palette register that a 2-bit palette number selects.
pub open spec fn obj_palette(regs: VipRegisters, pal: u16) -> u8 {
    if pal == 0 {
        regs.obj_palette_0
    } else if pal == 1 {
        regs.obj_palette_1
    } else if pal == 2 {
        regs.obj_palette_2
    } else {
        regs.obj_palette_3
    }
}

/// Video memory after framebuffer pixel (x, y) took its value from the pixel
/// (background_x, background_y) of a background map segment: the segment's
/// entry names the character, its flips and its palette.
#[verifier::opaque]
pub open spec fn plot_background_pixel(
    vram: Seq<u8>,
    regs: VipRegisters,
    segment_offset: u32,
    framebuffer_offset: u32,
    pixel_x: u32,
    pixel_y: u32,
    background_x: u32,
    background_y: u32,
) -> Seq<u8> {
    let segment_x = (background_x >> 3) & 0x3f;
    let segment_y = (background_y >> 3) & 0x3f;
    let offset_x = background_x & 0x07;
    let offset_y = background_y & 0x07;
    let segment_addr = (segment_offset + (segment_y * 64 + segment_x) * 2) as u32;
    let entry = vram_halfword(vram, segment_addr);
    let pal = (entry >> 14) & 0x03;
    let horizontal_flip = (entry & 0x2000) != 0;
    let vertical_flip = (entry & 0x1000) != 0;
    let char_index = (entry & 0x07ff) as u32;
    plot_char_pixel(
        vram,
        framebuffer_offset,
        pixel_x,
        pixel_y,
        offset_x,
        offset_y,
        char_index,
        horizontal_flip,
        vertical_flip,
        bg_palette(regs, pal),
    )
}

pub fn draw_background_pixel(
    vram: &mut Vec<u8>,
    regs: &VipRegisters,
    segment_offset: u32,
    framebuffer_offset: u32,
    pixel_x: u32,
    pixel_y: u32,
    background_x: u32,
    background_y: u32,
)
    requires
        old(vram).len() == VRAM_SIZE,
        framebuffer_offset + FRAMEBUFFER_BYTES <= VRAM_SIZE,
        segment_offset <= 0x0003_e000,
        pixel_x < FRAMEBUFFER_RESOLUTION_X,
        pixel_y < FRAMEBUFFER_RESOLUTION_Y,
    ensures
        final(vram).len() == VRAM_SIZE,
        final(vram)@ == plot_background_pixel(
            old(vram)@,
            *regs,
            segment_offset,
            framebuffer_offset,
            pixel_x,
            pixel_y,
            background_x,
            background_y,
        ),
{
    proof {
        reveal(plot_background_pixel);
    }
    proof {
        lemma_mask_bound_u32(background_x >> 3, 0x3f);
        lemma_mask_bound_u32(background_y >> 3, 0x3f);
        lemma_mask_bound_u32(background_x, 0x07);
        lemma_mask_bound_u32(background_y, 0x07);
    }
    let segment_x: u32 = (background_x >> 3) & 0x3f;
    let segment_y: u32 = (background_y >> 3) & 0x3f;
    let offset_x: u32 = background_x & 0x07;
    let offset_y: u32 = background_y & 0x07;
    let segment_addr: u32 = segment_offset + (segment_y * 64 + segment_x) * 2;
    let entry: u16 = read_vram_halfword(vram, segment_addr);
    let pal: u16 = (entry >> 14) & 0x03;
    let horizontal_flip = (entry & 0x2000) != 0;
    let vertical_flip = (entry & 0x1000) != 0;
    proof {
        lemma_mask_bound_u16(entry, 0x07ff);
    }
    let char_index: u32 = (entry & 0x07ff) as u32;

    let palette: u8 = if pal == 0 {
        regs.bg_palette_0
    } else if pal == 1 {
        regs.bg_palette_1
    } else if pal == 2 {
        regs.bg_palette_2
    } else {
        regs.bg_palette_3
    };

    draw_char_pixel(
        vram,
        framebuffer_offset,
        pixel_x,
        pixel_y,
        offset_x,
        offset_y,
        char_index,
        horizontal_flip,
        vertical_flip,
        palette,
    );
}

/// One entry of the window table.
#[derive(Clone, Copy, Debug, PartialEq, Eq, Structural)]
pub struct Window {
    /// The background map segment the window samples, 0 to 15.
    pub base: u32,
    /// Set on the entry that ends the table.
    pub stop: bool,
    pub out_of_bounds: bool,
    pub bg_height: u32,
    pub bg_width: u32,
    pub mode: WindowMode,
    pub right_on: bool,
    pub left_on: bool,
    pub x: i16,
    pub parallax: i16,
    pub y: i16,
    pub bg_x: i16,
    pub bg_parallax: i16,
    pub bg_y: i16,
    /// Columns of the window: the stored value plus one.
    pub width: u32,
    /// Rows of the window: the stored value plus one.
    pub height: u32,
    /// Where the window's parameter table starts, in halfwords.
    pub param_base: u32,
    pub out_of_bounds_char: u16,
}

pub const WINDOW_TABLE_OFFSET: u32 = 0x0003_d800;
pub const WINDOW_ENTRY_LENGTH: u32 = 32;
pub const WINDOW_COUNT: u32 = 32;
pub const BACKGROUND_SEGMENTS_OFFSET: u32 = 0x0002_0000;
pub const BACKGROUND_SEGMENT_LENGTH: u32 = 0x0000_2000;

/// The window mode that the two mode bits of a header name.
pub open spec fn window_mode(bits: u16) -> WindowMode {
    if bits == 0 {
        WindowMode::Normal
    } else if bits == 1 {
        WindowMode::LineShift
    } else if bits == 2 {
        WindowMode::Affine
    } else {
        WindowMode::Obj
    }
}

/// The entry of the window table with the given index, as video memory
/// holds it.
#[verifier::opaque]
pub open spec fn window_at(vram: Seq<u8>, index: u32) -> Window {
    let offset = (WINDOW_TABLE_OFFSET + index * WINDOW_ENTRY_LENGTH) as u32;
    let header = vram_halfword(vram, offset);
    Window {
        base: (header & 0x000f) as u32,
        stop: (header & 0x0040) != 0,
        out_of_bounds: (header & 0x0080) != 0,
        bg_height: ((header >> 8) & 0x03) as u32,
        bg_width: ((header >> 10) & 0x03) as u32,
        mode: window_mode((header >> 12) & 0x03),
        right_on: (header & 0x4000) != 0,
        left_on: (header & 0x8000) != 0,
        x: vram_halfword(vram, (offset + 2) as u32) as i16,
        parallax: vram_halfword(vram, (offset + 4) as u32) as i16,
        y: vram_halfword(vram, (offset + 6) as u32) as i16,
        bg_x: vram_halfword(vram, (offset + 8) as u32) as i16,
        bg_parallax: vram_halfword(vram, (offset + 10) as u32) as i16,
        bg_y: vram_halfword(vram, (offset + 12) as u32) as i16,
        width: (vram_halfword(vram, (offset + 14) as u32) as u32 + 1) as u32,
        height: (vram_halfword(vram, (offset + 16) as u32) as u32 + 1) as u32,
        param_base: vram_halfword(vram, (offset + 18) as u32) as u32,
        out_of_bounds_char: vram_halfword(vram, (offset + 20) as u32),
    }
}

impl Window {
    /// Field ranges that the table's layout gives every entry.
    pub open spec fn wf(self) -> bool {
        &&& self.base <= 0x0f
        &&& 1 <= self.width <= 0x1_0000
        &&& 1 <= self.height <= 0x1_0000
        &&& self.param_base <= 0xffff
    }

    /// Where the window's background map segment starts.
    pub open spec fn segment_offset(self) -> u32 {
        (BACKGROUND_SEGMENTS_OFFSET + self.base * BACKGROUND_SEGMENT_LENGTH) as u32
    }

    /// Where the window's parameter table starts.
    pub open spec fn param_offset(self) -> u32 {
        (BACKGROUND_SEGMENTS_OFFSET + self.param_base * 2) as u32
    }

    /// Whether the window is drawn for the given eye.
    pub open spec fn enabled_for(self, eye: Eye) -> bool {
        match eye {
            Eye::Left => self.left_on,
            Eye::Right => self.right_on,
        }
    }

    /// The window's left edge for the given eye: parallax moves it left for the
    /// left eye and right for the right eye.
    pub open spec fn eye_x(self, eye: Eye) -> u32 {
        match eye {
            Eye::Left => (self.x as u32).wrapping_sub(self.parallax as u32),
            Eye::Right => (self.x as u32).wrapping_add(self.parallax as u32),
        }
    }
}

pub fn read_window(vram: &Vec<u8>, index: u32) -> (w: Window)
    requires
        vram.len() == VRAM_SIZE,
        index < WINDOW_COUNT,
    ensures
        w == window_at(vram@, index),
        w.wf(),
{
    proof {
        reveal(window_at);
    }
    let offset: u32 = WINDOW_TABLE_OFFSET + index * WINDOW_ENTRY_LENGTH;
    let header: u16 = read_vram_halfword(vram, offset);
    proof {
        lemma_mask_bound_u16(header, 0x000f);
        lemma_mask_bound_u16(header >> 8, 0x03);
        lemma_mask_bound_u16(header >> 10, 0x03);
    }
    let mode_bits: u16 = (header >> 12) & 0x03;
    let mode = if mode_bits == 0 {
        WindowMode::Normal
    } else if mode_bits == 1 {
        WindowMode::LineShift
    } else if mode_bits == 2 {
        WindowMode::Affine
    } else {
        WindowMode::Obj
    };
    Window {
        base: (header & 0x000f) as u32,
        stop: (header & 0x0040) != 0,
        out_of_bounds: (header & 0x0080) != 0,
        bg_height: ((header >> 8) & 0x03) as u32,
        bg_width: ((header >> 10) & 0x03) as u32,
        mode,
        right_on: (header & 0x4000) != 0,
        left_on: (header & 0x8000) != 0,
        x: read_vram_halfword(vram, offset + 2) as i16,
        parallax: read_vram_halfword(vram, offset + 4) as i16,
        y: read_vram_halfword(vram, offset + 6) as i16,
        bg_x: read_vram_halfword(vram, offset + 8) as i16,
        bg_parallax: read_vram_halfword(vram, offset + 10) as i16,
        bg_y: read_vram_halfword(vram, offset + 12) as i16,
        width: read_vram_halfword(vram, offset + 14) as u32 + 1,
        height: read_vram_halfword(vram, offset + 16) as u32 + 1,
        param_base: read_vram_halfword(vram, offset + 18) as u32,
        out_of_bounds_char: read_vram_halfword(vram, offset + 20),
    }
}


pub const PIXELS_PER_FRAMEBUFFER: u32 = 98304;

/// Video memory after a Normal or LineShift window was asked for framebuffer
/// pixel (x, y) of one eye. Pixels outside the window's rectangle stay as they
/// are. Inside, the background is sampled at the window coordinates moved by
/// the background offsets, by the per-row shift of the eye (LineShift only),
/// and by the background parallax, to the left for the left eye.
#[verifier::opaque]
pub open spec fn plot_window_pixel(
    vram: Seq<u8>,
    regs: VipRegisters,
    w: Window,
    eye: Eye,
    framebuffer_offset: u32,
    pixel_x: u32,
    pixel_y: u32,
) -> Seq<u8> {
    let window_x = pixel_x.wrapping_sub(w.eye_x(eye));
    let window_y = pixel_y.wrapping_sub(w.y as u32);
    if window_x >= w.width || window_y >= w.height {
        vram
    } else {
        let line_shift = if w.mode == WindowMode::LineShift {
            let line_offset = (w.param_offset() + window_y * 4) as u32;
            let eye_offset = match eye {
                Eye::Left => line_offset,
                Eye::Right => (line_offset + 2) as u32,
            };
            (vram_halfword(vram, eye_offset) as i16) as u32
        } else {
            0u32
        };
        let shifted = window_x.wrapping_add(w.bg_x as u32).wrapping_add(line_shift);
        let background_x = match eye {
            Eye::Left => shifted.wrapping_sub(w.bg_parallax as u32),
            Eye::Right => shifted.wrapping_add(w.bg_parallax as u32),
        };
        let background_y = window_y.wrapping_add(w.bg_y as u32);
        plot_background_pixel(
            vram,
            regs,
            w.segment_offset(),
            framebuffer_offset,
            pixel_x,
            pixel_y,
            background_x,
            background_y,
        )
    }
}

pub fn draw_window_pixel(
    vram: &mut Vec<u8>,
    regs: &VipRegisters,
    w: &Window,
    eye: Eye,
    framebuffer_offset: u32,
    pixel_x: u32,
    pixel_y: u32,
)
    requires
        old(vram).len() == VRAM_SIZE,
        framebuffer_offset + FRAMEBUFFER_BYTES <= VRAM_SIZE,
        w.wf(),
        pixel_x < FRAMEBUFFER_RESOLUTION_X,
        pixel_y < FRAMEBUFFER_RESOLUTION_Y,
    ensures
        final(vram).len() == VRAM_SIZE,
        final(vram)@ == plot_window_pixel(
            old(vram)@,
            *regs,
            *w,
            eye,
            framebuffer_offset,
            pixel_x,
            pixel_y,
        ),
{
    proof {
        reveal(plot_window_pixel);
    }
    let x: u32 = match eye {
        Eye::Left => (w.x as u32).wrapping_sub(w.parallax as u32),
        Eye::Right => (w.x as u32).wrapping_add(w.parallax as u32),
    };
    let window_x: u32 = pixel_x.wrapping_sub(x);
    let window_y: u32 = pixel_y.wrapping_sub(w.y as u32);
    if window_x >= w.width || window_y >= w.height {
        return ;
    }
    let segment_offset: u32 = BACKGROUND_SEGMENTS_OFFSET + w.base * BACKGROUND_SEGMENT_LENGTH;
    let param_offset: u32 = BACKGROUND_SEGMENTS_OFFSET + w.param_base * 2;

    let line_shift: u32 = match w.mode {
        WindowMode::LineShift => {
            let line_offset: u32 = param_offset + window_y * 4;
            let eye_offset: u32 = match eye {
                Eye::Left => line_offset,
                Eye::Right => line_offset + 2,
            };
            (read_vram_halfword(vram, eye_offset) as i16) as u32
        },
        _ => 0,
    };

    let shifted: u32 = window_x.wrapping_add(w.bg_x as u32).wrapping_add(line_shift);
    let background_x: u32 = match eye {
        Eye::Left => shifted.wrapping_sub(w.bg_parallax as u32),
        Eye::Right => shifted.wrapping_add(w.bg_parallax as u32),
    };
    let background_y: u32 = window_y.wrapping_add(w.bg_y as u32);

    draw_background_pixel(
        vram,
        regs,
        segment_offset,
        framebuffer_offset,
        pixel_x,
        pixel_y,
        background_x,
        background_y,
    );
}

/// One row of an Affine window's parameter table.
#[derive(Clone, Copy, Debug, PartialEq, Eq, Structural)]
pub struct AffineRow {
    pub bg_x: i16,
    pub bg_parallax: i16,
    pub bg_y: i16,
    pub bg_x_inc: i16,
    pub bg_y_inc: i16,
}

/// The parameters of window row `window_y`: sixteen bytes a row.
pub open spec fn affine_row_at(vram: Seq<u8>, param_offset: u32, window_y: u32) -> AffineRow {
    let offset = (param_offset + window_y * 16) as u32;
    AffineRow {
        bg_x: vram_halfword(vram, offset) as i16,
        bg_parallax: vram_halfword(vram, (offset + 2) as u32) as i16,
        bg_y: vram_halfword(vram, (offset + 4) as u32) as i16,
        bg_x_inc: vram_halfword(vram, (offset + 6) as u32) as i16,
        bg_y_inc: vram_halfword(vram, (offset + 8) as u32) as i16,
    }
}

/// A window column moved by the row's parallax, which applies to the left eye
/// only when negative and to the right eye only when positive.
pub open spec fn affine_parallaxed_x(window_x: u32, bg_parallax: i16, eye: Eye) -> u32 {
    match eye {
        Eye::Left => if bg_parallax < 0 {
            window_x.wrapping_sub(bg_parallax as u32)
        } else {
            window_x
        },
        Eye::Right => if bg_parallax > 0 {
            window_x.wrapping_add(bg_parallax as u32)
        } else {
            window_x
        },
    }
}

/// A source coordinate of an affine row: the start, in 1/8 pixels, taken to
/// 1/512 pixels, plus the step for every column, and the whole in pixels.
/// The sum wraps at 32 bits.
pub open spec fn affine_coordinate(start: i16, step: i16, column: u32) -> u32 {
    (((start as i32) << 6).wrapping_add((step as i32).wrapping_mul(column as i32)) >> 9) as u32
}

/// Video memory after an Affine window was asked for framebuffer pixel
/// (x, y) of one eye.
#[verifier::opaque]
pub open spec fn plot_affine_pixel(
    vram: Seq<u8>,
    regs: VipRegisters,
    w: Window,
    eye: Eye,
    framebuffer_offset: u32,
    pixel_x: u32,
    pixel_y: u32,
) -> Seq<u8> {
    let window_x = pixel_x.wrapping_sub(w.eye_x(eye));
    let window_y = pixel_y.wrapping_sub(w.y as u32);
    if window_x >= w.width || window_y >= w.height {
        vram
    } else {
        let row = affine_row_at(vram, w.param_offset(), window_y);
        let column = affine_parallaxed_x(window_x, row.bg_parallax, eye);
        plot_background_pixel(
            vram,
            regs,
            w.segment_offset(),
            framebuffer_offset,
            pixel_x,
            pixel_y,
            affine_coordinate(row.bg_x, row.bg_x_inc, column),
            affine_coordinate(row.bg_y, row.bg_y_inc, column),
        )
    }
}

pub fn draw_affine_pixel(
    vram: &mut Vec<u8>,
    regs: &VipRegisters,
    w: &Window,
    eye: Eye,
    framebuffer_offset: u32,
    pixel_x: u32,
    pixel_y: u32,
)
    requires
        old(vram).len() == VRAM_SIZE,
        framebuffer_offset + FRAMEBUFFER_BYTES <= VRAM_SIZE,
        w.wf(),
        pixel_x < FRAMEBUFFER_RESOLUTION_X,
        pixel_y < FRAMEBUFFER_RESOLUTION_Y,
    ensures
        final(vram).len() == VRAM_SIZE,
        final(vram)@ == plot_affine_pixel(
            old(vram)@,
            *regs,
            *w,
            eye,
            framebuffer_offset,
            pixel_x,
            pixel_y,
        ),
{
    proof {
        reveal(plot_affine_pixel);
    }
    let x: u32 = match eye {
        Eye::Left => (w.x as u32).wrapping_sub(w.parallax as u32),
        Eye::Right => (w.x as u32).wrapping_add(w.parallax as u32),
    };
    let window_x: u32 = pixel_x.wrapping_sub(x);
    let window_y: u32 = pixel_y.wrapping_sub(w.y as u32);
    if window_x >= w.width || window_y >= w.height {
        return ;
    }
    let segment_offset: u32 = BACKGROUND_SEGMENTS_OFFSET + w.base * BACKGROUND_SEGMENT_LENGTH;
    let param_offset: u32 = BACKGROUND_SEGMENTS_OFFSET + w.param_base * 2;

    let affine_offset: u32 = param_offset + window_y * 16;
    let affine_bg_x: i16 = read_vram_halfword(vram, affine_offset) as i16;
    let affine_bg_parallax: i16 = read_vram_halfword(vram, affine_offset + 2) as i16;
    let affine_bg_y: i16 = read_vram_halfword(vram, affine_offset + 4) as i16;
    let affine_bg_x_inc: i16 = read_vram_halfword(vram, affine_offset + 6) as i16;
    let affine_bg_y_inc: i16 = read_vram_halfword(vram, affine_offset + 8) as i16;
    let parallaxed_window_x: u32 = match eye {
        Eye::Left => {
            if affine_bg_parallax < 0 {
                window_x.wrapping_sub(affine_bg_parallax as u32)
            } else {
                window_x
            }
        },
        Eye::Right => {
            if affine_bg_parallax > 0 {
                window_x.wrapping_add(affine_bg_parallax as u32)
            } else {
                window_x
            }
        },
    };
    let background_x: u32 = (((affine_bg_x as i32) << 6).wrapping_add(
        (affine_bg_x_inc as i32).wrapping_mul(parallaxed_window_x as i32),
    ) >> 9) as u32;
    let background_y: u32 = (((affine_bg_y as i32) << 6).wrapping_add(
        (affine_bg_y_inc as i32).wrapping_mul(parallaxed_window_x as i32),
    ) >> 9) as u32;

    draw_background_pixel(
        vram,
        regs,
        segment_offset,
        framebuffer_offset,
        pixel_x,
        pixel_y,
        background_x,
        background_y,
    );
}

/// Video memory after a background window (Normal, LineShift or Affine) was
/// asked for one framebuffer pixel.
pub open spec fn plot_pixel(
    vram: Seq<u8>,
    regs: VipRegisters,
    w: Window,
    eye: Eye,
    framebuffer_offset: u32,
    pixel_x: u32,
    pixel_y: u32,
) -> Seq<u8> {
    if w.mode == WindowMode::Affine {
        plot_affine_pixel(vram, regs, w, eye, framebuffer_offset, pixel_x, pixel_y)
    } else {
        plot_window_pixel(vram, regs, w, eye, framebuffer_offset, pixel_x, pixel_y)
    }
}

/// Video memory after a background window was asked for the first `n`
/// framebuffer pixels of one eye, row by row from the top, each row from the
/// left.
pub open spec fn plot_pixels(
    vram: Seq<u8>,
    regs: VipRegisters,
    w: Window,
    eye: Eye,
    framebuffer_offset: u32,
    n: nat,
) -> Seq<u8>
    decreases n,
{
    if n == 0 {
        vram
    } else {
        let k = (n - 1) as nat;
        plot_pixel(
            plot_pixels(vram, regs, w, eye, framebuffer_offset, k),
            regs,
            w,
            eye,
            framebuffer_offset,
            (k % FRAMEBUFFER_RESOLUTION_X as nat) as u32,
            (k / FRAMEBUFFER_RESOLUTION_X as nat) as u32,
        )
    }
}

pub fn draw_background_window(
    vram: &mut Vec<u8>,
    regs: &VipRegisters,
    w: &Window,
    eye: Eye,
    framebuffer_offset: u32,
)
    requires
        old(vram).len() == VRAM_SIZE,
        framebuffer_offset + FRAMEBUFFER_BYTES <= VRAM_SIZE,
        w.wf(),
        w.mode != WindowMode::Obj,
    ensures
        final(vram).len() == VRAM_SIZE,
        final(vram)@ == plot_pixels(
            old(vram)@,
            *regs,
            *w,
            eye,
            framebuffer_offset,
            PIXELS_PER_FRAMEBUFFER as nat,
        ),
{
    let ghost before = vram@;
    let affine = match w.mode {
        WindowMode::Affine => true,
        _ => false,
    };
    let mut pixel_y: u32 = 0;
    while pixel_y < FRAMEBUFFER_RESOLUTION_Y
        invariant
            vram.len() == VRAM_SIZE,
            framebuffer_offset + FRAMEBUFFER_BYTES <= VRAM_SIZE,
            w.wf(),
            affine == (w.mode == WindowMode::Affine),
            pixel_y <= FRAMEBUFFER_RESOLUTION_Y,
            vram@ == plot_pixels(
                before,
                *regs,
                *w,
                eye,
                framebuffer_offset,
                (pixel_y * FRAMEBUFFER_RESOLUTION_X) as nat,
            ),
        decreases FRAMEBUFFER_RESOLUTION_Y - pixel_y,
    {
        let mut pixel_x: u32 = 0;
        while pixel_x < FRAMEBUFFER_RESOLUTION_X
            invariant
                vram.len() == VRAM_SIZE,
                framebuffer_offset + FRAMEBUFFER_BYTES <= VRAM_SIZE,
                w.wf(),
                affine == (w.mode == WindowMode::Affine),
                pixel_y < FRAMEBUFFER_RESOLUTION_Y,
                pixel_x <= FRAMEBUFFER_RESOLUTION_X,
                vram@ == plot_pixels(
                    before,
                    *regs,
                    *w,
                    eye,
                    framebuffer_offset,
                    (pixel_y * FRAMEBUFFER_RESOLUTION_X + pixel_x) as nat,
                ),
            decreases FRAMEBUFFER_RESOLUTION_X - pixel_x,
        {
            proof {
                let k: nat = (pixel_y * FRAMEBUFFER_RESOLUTION_X + pixel_x) as nat;
                assert(k / 384 == pixel_y && k % 384 == pixel_x);
                assert(plot_pixels(before, *regs, *w, eye, framebuffer_offset, k + 1)
                    == plot_pixel(vram@, *regs, *w, eye, framebuffer_offset, pixel_x, pixel_y));
            }
            if affine {
                draw_affine_pixel(vram, regs, w, eye, framebuffer_offset, pixel_x, pixel_y);
            } else {
                draw_window_pixel(vram, regs, w, eye, framebuffer_offset, pixel_x, pixel_y);
            }
            pixel_x = pixel_x + 1;
        }
        pixel_y = pixel_y + 1;
    }
}


pub const OBJ_TABLE_OFFSET: u32 = 0x0003_e000;
pub const OBJ_ENTRY_LENGTH: u32 = 8;
pub const OBJ_COUNT: u32 = 1024;
pub const PIXELS_PER_CHAR: u32 = 64;

/// One entry of the object table.
#[derive(Clone, Copy, Debug, PartialEq, Eq, Structural)]
pub struct Obj {
    pub x: i16,
    pub left_on: bool,
    pub right_on: bool,
    /// Fourteen bits, sign-extended.
    pub parallax: i16,
    pub y: i16,
    /// Which of the four object palettes colors the object.
    pub pal: u16,
    pub horizontal_flip: bool,
    pub vertical_flip: bool,
    pub char_index: u32,
}

/// The entry of the object table with the given index, as video memory
/// holds it.
#[verifier::opaque]
pub open spec fn obj_at(vram: Seq<u8>, index: u32) -> Obj {
    let offset = (OBJ_TABLE_OFFSET + index * OBJ_ENTRY_LENGTH) as u32;
    let l_r_parallax = vram_halfword(vram, (offset + 2) as u32);
    let pal_hf_vf_char = vram_halfword(vram, (offset + 6) as u32);
    Obj {
        x: vram_halfword(vram, offset) as i16,
        left_on: (l_r_parallax & 0x8000) != 0,
        right_on: (l_r_parallax & 0x4000) != 0,
        parallax: ((l_r_parallax << 2) as i16) >> 2,
        y: vram_halfword(vram, (offset + 4) as u32) as i16,
        pal: pal_hf_vf_char >> 14,
        horizontal_flip: (pal_hf_vf_char & 0x2000) != 0,
        vertical_flip: (pal_hf_vf_char & 0x1000) != 0,
        char_index: (pal_hf_vf_char & 0x07ff) as u32,
    }
}

impl Obj {
    /// Whether the object is drawn for the given eye.
    pub open spec fn enabled_for(self, eye: Eye) -> bool {
        match eye {
            Eye::Left => self.left_on,
            Eye::Right => self.right_on,
        }
    }
}

pub fn read_obj(vram: &Vec<u8>, index: u32) -> (obj: Obj)
    requires
        vram.len() == VRAM_SIZE,
        index < OBJ_COUNT,
    ensures
        obj == obj_at(vram@, index),
        obj.char_index < 0x0800,
{
    proof {
        reveal(obj_at);
    }
    let offset: u32 = OBJ_TABLE_OFFSET + index * OBJ_ENTRY_LENGTH;
    let l_r_parallax: u16 = read_vram_halfword(vram, offset + 2);
    let pal_hf_vf_char: u16 = read_vram_halfword(vram, offset + 6);
    proof {
        lemma_mask_bound_u16(pal_hf_vf_char, 0x07ff);
    }
    Obj {
        x: read_vram_halfword(vram, offset) as i16,
        left_on: (l_r_parallax & 0x8000) != 0,
        right_on: (l_r_parallax & 0x4000) != 0,
        parallax: ((l_r_parallax << 2) as i16) >> 2,
        y: read_vram_halfword(vram, offset + 4) as i16,
        pal: pal_hf_vf_char >> 14,
        horizontal_flip: (pal_hf_vf_char & 0x2000) != 0,
        vertical_flip: (pal_hf_vf_char & 0x1000) != 0,
        char_index: (pal_hf_vf_char & 0x07ff) as u32,
    }
}

/// Video memory after pixel `k` of an object's character was plotted for one
/// eye, rows first. A pixel that falls outside the framebuffer is skipped.
#[verifier::opaque]
pub open spec fn plot_obj_pixel(
    vram: Seq<u8>,
    regs: VipRegisters,
    obj: Obj,
    eye: Eye,
    framebuffer_offset: u32,
    k: u32,
) -> Seq<u8> {
    let offset_y = k / 8;
    let offset_x = k % 8;
    let pixel_y = (obj.y as u32).wrapping_add(offset_y);
    let column = (obj.x as u32).wrapping_add(offset_x);
    let pixel_x = match eye {
        Eye::Left => column.wrapping_sub(obj.parallax as u32),
        Eye::Right => column.wrapping_add(obj.parallax as u32),
    };
    if pixel_y >= FRAMEBUFFER_RESOLUTION_Y || pixel_x >= FRAMEBUFFER_RESOLUTION_X {
        vram
    } else {
        plot_char_pixel(
            vram,
            framebuffer_offset,
            pixel_x,
            pixel_y,
            offset_x,
            offset_y,
            obj.char_index,
            obj.horizontal_flip,
            obj.vertical_flip,
            obj_palette(regs, obj.pal),
        )
    }
}

/// Video memory after the first `n` pixels of an object's character.
pub open spec fn plot_obj_pixels(
    vram: Seq<u8>,
    regs: VipRegisters,
    obj: Obj,
    eye: Eye,
    framebuffer_offset: u32,
    n: nat,
) -> Seq<u8>
    decreases n,
{
    if n == 0 {
        vram
    } else {
        let k = (n - 1) as nat;
        plot_obj_pixel(
            plot_obj_pixels(vram, regs, obj, eye, framebuffer_offset, k),
            regs,
            obj,
            eye,
            framebuffer_offset,
            k as u32,
        )
    }
}

/// Video memory after the object with the given index was drawn for one eye;
/// an object that is off for that eye leaves it as it is.
#[verifier::opaque]
pub open spec fn plot_obj(
    vram: Seq<u8>,
    regs: VipRegisters,
    index: u32,
    eye: Eye,
    framebuffer_offset: u32,
) -> Seq<u8> {
    let obj = obj_at(vram, index);
    if obj.enabled_for(eye) {
        plot_obj_pixels(vram, regs, obj, eye, framebuffer_offset, PIXELS_PER_CHAR as nat)
    } else {
        vram
    }
}

pub fn draw_obj(
    vram: &mut Vec<u8>,
    regs: &VipRegisters,
    index: u32,
    eye: Eye,
    framebuffer_offset: u32,
)
    requires
        old(vram).len() == VRAM_SIZE,
        framebuffer_offset + FRAMEBUFFER_BYTES <= VRAM_SIZE,
        index < OBJ_COUNT,
    ensures
        final(vram).len() == VRAM_SIZE,
        final(vram)@ == plot_obj(old(vram)@, *regs, index, eye, framebuffer_offset),
{
    proof {
        reveal(plot_obj);
    }
    let ghost before = vram@;
    let obj = read_obj(vram, index);
    let on = match eye {
        Eye::Left => obj.left_on,
        Eye::Right => obj.right_on,
    };
    if !on {
        return ;
    }
    let palette: u8 = if obj.pal == 0 {
        regs.obj_palette_0
    } else if obj.pal == 1 {
        regs.obj_palette_1
    } else if obj.pal == 2 {
        regs.obj_palette_2
    } else {
        regs.obj_palette_3
    };

    let mut offset_y: u32 = 0;
    while offset_y < 8
        invariant
            vram.len() == VRAM_SIZE,
            framebuffer_offset + FRAMEBUFFER_BYTES <= VRAM_SIZE,
            obj.char_index < 0x0800,
            palette == obj_palette(*regs, obj.pal),
            offset_y <= 8,
            vram@ == plot_obj_pixels(
                before,
                *regs,
                obj,
                eye,
                framebuffer_offset,
                (offset_y * 8) as nat,
            ),
        decreases 8 - offset_y,
    {
        let pixel_y: u32 = (obj.y as u32).wrapping_add(offset_y);
        let mut offset_x: u32 = 0;
        while offset_x < 8
            invariant
                vram.len() == VRAM_SIZE,
                framebuffer_offset + FRAMEBUFFER_BYTES <= VRAM_SIZE,
                obj.char_index < 0x0800,
                palette == obj_palette(*regs, obj.pal),
                offset_y < 8,
                offset_x <= 8,
                pixel_y == (obj.y as u32).wrapping_add(offset_y),
                vram@ == plot_obj_pixels(
                    before,
                    *regs,
                    obj,
                    eye,
                    framebuffer_offset,
                    (offset_y * 8 + offset_x) as nat,
                ),
            decreases 8 - offset_x,
        {
            let column: u32 = (obj.x as u32).wrapping_add(offset_x);
            let pixel_x: u32 = match eye {
                Eye::Left => column.wrapping_sub(obj.parallax as u32),
                Eye::Right => column.wrapping_add(obj.parallax as u32),
            };
            proof {
                reveal(plot_obj_pixel);
                let k: u32 = (offset_y * 8 + offset_x) as u32;
                assert(k / 8 == offset_y && k % 8 == offset_x);
                assert(plot_obj_pixels(before, *regs, obj, eye, framebuffer_offset, (k + 1) as nat)
                    == plot_obj_pixel(vram@, *regs, obj, eye, framebuffer_offset, k));
            }
            if pixel_y < FRAMEBUFFER_RESOLUTION_Y && pixel_x < FRAMEBUFFER_RESOLUTION_X {
                draw_char_pixel(
                    vram,
                    framebuffer_offset,
                    pixel_x,
                    pixel_y,
                    offset_x,
                    offset_y,
                    obj.char_index,
                    obj.horizontal_flip,
                    obj.vertical_flip,
                    palette,
                );
            }
            offset_x = offset_x + 1;
        }
        offset_y = offset_y + 1;
    }
}

/// The last object of a group, which is drawn first: the group's pointer
/// register.
pub open spec fn obj_group_start(regs: VipRegisters, group: ObjGroup) -> u16 {
    match group {
        ObjGroup::Group0 => regs.obj_group_0_ptr,
        ObjGroup::Group1 => regs.obj_group_1_ptr,
        ObjGroup::Group2 => regs.obj_group_2_ptr,
        ObjGroup::Group3 => regs.obj_group_3_ptr,
    }
}

/// The first object of a group, which is drawn last: the one after the end of
/// the group below, or object 0 where that would not lie below the group's
/// own end.
pub open spec fn obj_group_end(regs: VipRegisters, group: ObjGroup) -> u16 {
    let after_previous: int = match group {
        ObjGroup::Group0 => 0,
        ObjGroup::Group1 => regs.obj_group_0_ptr + 1,
        ObjGroup::Group2 => regs.obj_group_1_ptr + 1,
        ObjGroup::Group3 => regs.obj_group_2_ptr + 1,
    };
    if after_previous >= obj_group_start(regs, group) {
        0
    } else {
        after_previous as u16
    }
}

/// Video memory after `n` objects were drawn for one eye, from object `start`
/// downwards.
pub open spec fn plot_objs(
    vram: Seq<u8>,
    regs: VipRegisters,
    eye: Eye,
    framebuffer_offset: u32,
    start: u32,
    n: nat,
) -> Seq<u8>
    decreases n,
{
    if n == 0 {
        vram
    } else {
        let k = (n - 1) as nat;
        plot_obj(
            plot_objs(vram, regs, eye, framebuffer_offset, start, k),
            regs,
            (start - k) as u32,
            eye,
            framebuffer_offset,
        )
    }
}

/// Video memory after a whole object group was drawn for one eye.
#[verifier::opaque]
pub open spec fn plot_obj_group(
    vram: Seq<u8>,
    regs: VipRegisters,
    group: ObjGroup,
    eye: Eye,
    framebuffer_offset: u32,
) -> Seq<u8> {
    let start = obj_group_start(regs, group);
    let end = obj_group_end(regs, group);
    plot_objs(vram, regs, eye, framebuffer_offset, start as u32, (start - end + 1) as nat)
}

pub fn draw_obj_group(
    vram: &mut Vec<u8>,
    regs: &VipRegisters,
    group: ObjGroup,
    eye: Eye,
    framebuffer_offset: u32,
)
    requires
        old(vram).len() == VRAM_SIZE,
        framebuffer_offset + FRAMEBUFFER_BYTES <= VRAM_SIZE,
        regs.wf(),
    ensures
        final(vram).len() == VRAM_SIZE,
        final(vram)@ == plot_obj_group(old(vram)@, *regs, group, eye, framebuffer_offset),
{
    proof {
        reveal(plot_obj_group);
    }
    let ghost before = vram@;
    let starting_obj_index: u16 = match group {
        ObjGroup::Group0 => regs.obj_group_0_ptr,
        ObjGroup::Group1 => regs.obj_group_1_ptr,
        ObjGroup::Group2 => regs.obj_group_2_ptr,
        ObjGroup::Group3 => regs.obj_group_3_ptr,
    };
    let mut ending_obj_index: u16 = match group {
        ObjGroup::Group0 => 0,
        ObjGroup::Group1 => regs.obj_group_0_ptr + 1,
        ObjGroup::Group2 => regs.obj_group_1_ptr + 1,
        ObjGroup::Group3 => regs.obj_group_2_ptr + 1,
    };
    if ending_obj_index >= starting_obj_index {
        ending_obj_index = 0;
    }
    let start: u32 = starting_obj_index as u32;
    let count: u32 = start - ending_obj_index as u32 + 1;
    let mut drawn: u32 = 0;
    while drawn < count
        invariant
            vram.len() == VRAM_SIZE,
            framebuffer_offset + FRAMEBUFFER_BYTES <= VRAM_SIZE,
            start < OBJ_COUNT,
            count <= start + 1,
            drawn <= count,
            vram@ == plot_objs(before, *regs, eye, framebuffer_offset, start, drawn as nat),
        decreases count - drawn,
    {
        draw_obj(vram, regs, start - drawn, eye, framebuffer_offset);
        drawn = drawn + 1;
    }
}


/// Video memory after one window was drawn for one eye. A window that is off
/// for the eye draws nothing, and neither does an Obj window once all four
/// object groups are used up.
#[verifier::opaque]
pub open spec fn plot_window(
    vram: Seq<u8>,
    regs: VipRegisters,
    w: Window,
    eye: Eye,
    group: Option<ObjGroup>,
    framebuffer_offset: u32,
) -> Seq<u8> {
    if !w.enabled_for(eye) {
        vram
    } else if w.mode == WindowMode::Obj {
        match group {
            Some(g) => plot_obj_group(vram, regs, g, eye, framebuffer_offset),
            None => vram,
        }
    } else {
        plot_pixels(vram, regs, w, eye, framebuffer_offset, PIXELS_PER_FRAMEBUFFER as nat)
    }
}

pub fn draw_window(
    vram: &mut Vec<u8>,
    regs: &VipRegisters,
    w: &Window,
    eye: Eye,
    group: Option<ObjGroup>,
    framebuffer_offset: u32,
)
    requires
        old(vram).len() == VRAM_SIZE,
        framebuffer_offset + FRAMEBUFFER_BYTES <= VRAM_SIZE,
        regs.wf(),
        w.wf(),
    ensures
        final(vram).len() == VRAM_SIZE,
        final(vram)@ == plot_window(old(vram)@, *regs, *w, eye, group, framebuffer_offset),
{
    proof {
        reveal(plot_window);
    }
    let on = match eye {
        Eye::Left => w.left_on,
        Eye::Right => w.right_on,
    };
    if !on {
        return ;
    }
    match w.mode {
        WindowMode::Obj => {
            match group {
                Some(g) => draw_obj_group(vram, regs, g, eye, framebuffer_offset),
                None => {},
            }
        },
        _ => draw_background_window(vram, regs, w, eye, framebuffer_offset),
    }
}

/// The object group that the next Obj window draws, from group 3 down; none
/// after group 0.
pub open spec fn next_obj_group(group: Option<ObjGroup>) -> Option<ObjGroup> {
    match group {
        Some(ObjGroup::Group3) => Some(ObjGroup::Group2),
        Some(ObjGroup::Group2) => Some(ObjGroup::Group1),
        Some(ObjGroup::Group1) => Some(ObjGroup::Group0),
        _ => None,
    }
}

/// Where the rasterizer stands between two windows.
pub struct RasterProgress {
    pub vram: Seq<u8>,
    /// The object group that the next Obj window draws.
    pub group: Option<ObjGroup>,
    /// Whether an entry with the stop bit was met.
    pub stopped: bool,
}

/// The rasterizer after the `n` windows with the highest indices: window 31
/// first. Each window is drawn for the left eye, then for the right eye; an
/// Obj window uses up one object group; the entry with the stop bit ends the
/// table, and neither it nor any window below it is drawn.
pub open spec fn plot_windows(
    vram: Seq<u8>,
    regs: VipRegisters,
    left_framebuffer_offset: u32,
    n: nat,
) -> RasterProgress
    decreases n,
{
    if n == 0 {
        RasterProgress { vram, group: Some(ObjGroup::Group3), stopped: false }
    } else {
        let before = plot_windows(vram, regs, left_framebuffer_offset, (n - 1) as nat);
        let w = window_at(before.vram, (WINDOW_COUNT - n) as u32);
        if before.stopped {
            before
        } else if w.stop {
            RasterProgress { vram: before.vram, group: before.group, stopped: true }
        } else {
            let left = plot_window(
                before.vram,
                regs,
                w,
                Eye::Left,
                before.group,
                left_framebuffer_offset,
            );
            let both = plot_window(
                left,
                regs,
                w,
                Eye::Right,
                before.group,
                (left_framebuffer_offset + RIGHT_FRAMEBUFFER_DISTANCE) as u32,
            );
            RasterProgress {
                vram: both,
                group: if w.mode == WindowMode::Obj {
                    next_obj_group(before.group)
                } else {
                    before.group
                },
                stopped: false,
            }
        }
    }
}

/// A framebuffer byte whose four pixels all have the clear color.
pub open spec fn clear_byte(clear_color: u8) -> u8 {
    (clear_color << 6) | (clear_color << 4) | (clear_color << 2) | clear_color
}

/// Whether a byte of video memory belongs to the framebuffer pair whose left
/// framebuffer starts at the given offset.
pub open spec fn in_framebuffer_pair(left_framebuffer_offset: u32, index: int) -> bool {
    ||| left_framebuffer_offset <= index < left_framebuffer_offset + FRAMEBUFFER_BYTES
    ||| left_framebuffer_offset + RIGHT_FRAMEBUFFER_DISTANCE <= index < left_framebuffer_offset
        + RIGHT_FRAMEBUFFER_DISTANCE + FRAMEBUFFER_BYTES
}

/// Video memory with one framebuffer pair set to the clear color.
pub open spec fn cleared(vram: Seq<u8>, left_framebuffer_offset: u32, clear_color: u8) -> Seq<u8> {
    Seq::new(
        vram.len(),
        |i: int|
            if in_framebuffer_pair(left_framebuffer_offset, i) {
                clear_byte(clear_color)
            } else {
                vram[i]
            },
    )
}

/// The left framebuffer of the pair that is drawn to: the pair that is not
/// displayed.
pub open spec fn drawn_framebuffer_offset(regs: VipRegisters) -> u32 {
    if regs.display_first_framebuffers {
        0x0000_8000
    } else {
        0
    }
}

/// Video memory after a drawing period: the pair that is not displayed is
/// cleared, then the window table is painted into it back to front.
pub open spec fn rasterized(vram: Seq<u8>, regs: VipRegisters) -> Seq<u8> {
    let offset = drawn_framebuffer_offset(regs);
    plot_windows(cleared(vram, offset, regs.clear_color), regs, offset, WINDOW_COUNT as nat).vram
}

pub fn clear_framebuffers(vram: &mut Vec<u8>, left_framebuffer_offset: u32, clear_color: u8)
    requires
        old(vram).len() == VRAM_SIZE,
        left_framebuffer_offset + RIGHT_FRAMEBUFFER_DISTANCE + FRAMEBUFFER_BYTES <= VRAM_SIZE,
    ensures
        final(vram).len() == VRAM_SIZE,
        final(vram)@ == cleared(old(vram)@, left_framebuffer_offset, clear_color),
{
    let ghost before = vram@;
    let clear_pixels: u8 = (clear_color << 6) | (clear_color << 4) | (clear_color << 2)
        | clear_color;
    let right_framebuffer_offset: u32 = left_framebuffer_offset + RIGHT_FRAMEBUFFER_DISTANCE;
    let mut i: u32 = 0;
    while i < FRAMEBUFFER_BYTES
        invariant
            vram.len() == VRAM_SIZE,
            before.len() == VRAM_SIZE,
            left_framebuffer_offset + RIGHT_FRAMEBUFFER_DISTANCE + FRAMEBUFFER_BYTES <= VRAM_SIZE,
            right_framebuffer_offset == left_framebuffer_offset + RIGHT_FRAMEBUFFER_DISTANCE,
            clear_pixels == clear_byte(clear_color),
            i <= FRAMEBUFFER_BYTES,
            forall|j: int|
                0 <= j < VRAM_SIZE ==> vram@[j] == (if left_framebuffer_offset <= j
                    < left_framebuffer_offset + i || right_framebuffer_offset <= j
                    < right_framebuffer_offset + i {
                    clear_pixels
                } else {
                    before[j]
                }),
        decreases FRAMEBUFFER_BYTES - i,
    {
        vram[(left_framebuffer_offset + i) as usize] = clear_pixels;
        vram[(right_framebuffer_offset + i) as usize] = clear_pixels;
        i = i + 1;
    }
    assert(vram@ =~= cleared(before, left_framebuffer_offset, clear_color));
}

/// Paints the window table into the framebuffer pair that is not displayed.
pub fn draw(vram: &mut Vec<u8>, regs: &VipRegisters)
    requires
        old(vram).len() == VRAM_SIZE,
        regs.wf(),
    ensures
        final(vram).len() == VRAM_SIZE,
        final(vram)@ == rasterized(old(vram)@, *regs),
        confined(old(vram)@, final(vram)@, drawn_framebuffer_offset(*regs)),
{
    proof {
        lemma_rasterized_confined(vram@, *regs);
    }
    let left_framebuffer_offset: u32 = if regs.display_first_framebuffers {
        0x0000_8000
    } else {
        0
    };
    let right_framebuffer_offset: u32 = left_framebuffer_offset + RIGHT_FRAMEBUFFER_DISTANCE;

    clear_framebuffers(vram, left_framebuffer_offset, regs.clear_color);
    let ghost start = vram@;

    let mut current_obj_group: Option<ObjGroup> = Some(ObjGroup::Group3);
    let mut stopped = false;
    let mut done: u32 = 0;
    while done < WINDOW_COUNT && !stopped
        invariant
            vram.len() == VRAM_SIZE,
            regs.wf(),
            left_framebuffer_offset == drawn_framebuffer_offset(*regs),
            right_framebuffer_offset == left_framebuffer_offset + RIGHT_FRAMEBUFFER_DISTANCE,
            done <= WINDOW_COUNT,
            plot_windows(start, *regs, left_framebuffer_offset, done as nat) == (RasterProgress {
                vram: vram@,
                group: current_obj_group,
                stopped,
            }),
            stopped ==> plot_windows(start, *regs, left_framebuffer_offset, WINDOW_COUNT as nat)
                == plot_windows(start, *regs, left_framebuffer_offset, done as nat),
        decreases WINDOW_COUNT - done, if stopped { 0int } else { 1int },
    {
        let window = read_window(vram, WINDOW_COUNT - 1 - done);
        if window.stop {
            stopped = true;
            proof {
                lemma_stopped_stays(start, *regs, left_framebuffer_offset, (done + 1) as nat,
                    WINDOW_COUNT as nat);
            }
        } else {
            draw_window(vram, regs, &window, Eye::Left, current_obj_group,
                left_framebuffer_offset);
            draw_window(vram, regs, &window, Eye::Right, current_obj_group,
                right_framebuffer_offset);
            match window.mode {
                WindowMode::Obj => {
                    current_obj_group = match current_obj_group {
                        Some(ObjGroup::Group3) => Some(ObjGroup::Group2),
                        Some(ObjGroup::Group2) => Some(ObjGroup::Group1),
                        Some(ObjGroup::Group1) => Some(ObjGroup::Group0),
                        _ => None,
                    };
                },
                _ => {},
            }
        }
        done = done + 1;
    }
}

/// Once the stop bit was met, further windows change nothing.
pub proof fn lemma_stopped_stays(
    vram: Seq<u8>,
    regs: VipRegisters,
    left_framebuffer_offset: u32,
    m: nat,
    n: nat,
)
    requires
        m <= n,
        plot_windows(vram, regs, left_framebuffer_offset, m).stopped,
    ensures
        plot_windows(vram, regs, left_framebuffer_offset, n) == plot_windows(
            vram,
            regs,
            left_framebuffer_offset,
            m,
        ),
    decreases n - m,
{
    if m < n {
        lemma_stopped_stays(vram, regs, left_framebuffer_offset, m, (n - 1) as nat);
    }
}

} // verus!
