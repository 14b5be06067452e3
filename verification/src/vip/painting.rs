//! What a Normal window paints, pixel by pixel: the colour that each pixel
//! of a framebuffer has after the window was drawn, stated over the tables
//! as they were before. Drawing changes the framebuffer it draws to and no
//! table, so the order in which the pixels are visited does not show.

use vstd::prelude::*;
use crate::bits::lemma_mask_bound_u16;
use crate::bits::lemma_mask_bound_u8;
use crate::vip::display::clamped_brightness;
use crate::vip::display::displayed_plane;
use crate::vip::display::pixel_brightness;
use crate::vip::display::pixel_color;
use crate::vip::display::DISPLAY_PIXELS;
use crate::vip::display::DISPLAY_RESOLUTION_X;
use crate::vip::display::DISPLAY_RESOLUTION_Y;
use crate::vip::raster::bg_palette;
use crate::vip::raster::char_offset;
use crate::vip::raster::cleared;
use crate::vip::raster::drawn_framebuffer_offset;
use crate::vip::raster::in_framebuffer_pair;
use crate::vip::raster::char_palette_index;
use crate::vip::raster::framebuffer_byte_index;
use crate::vip::raster::framebuffer_byte_shift;
use crate::vip::raster::plot_background_pixel;
use crate::vip::raster::plot_char_pixel;
use crate::vip::raster::plot_pixels;
use crate::vip::raster::plot_window;
use crate::vip::raster::plot_windows;
use crate::vip::raster::rasterized;
use crate::vip::raster::window_at;
use crate::vip::raster::RIGHT_FRAMEBUFFER_DISTANCE;
use crate::vip::raster::WINDOW_COUNT;
use crate::vip::raster::WINDOW_ENTRY_LENGTH;
use crate::vip::raster::WINDOW_TABLE_OFFSET;
use crate::vip::raster::plot_window_pixel;
use crate::vip::raster::vram_halfword;
use crate::vip::raster::with_pixel;
use crate::vip::raster::Window;
use crate::vip::raster::BACKGROUND_SEGMENTS_OFFSET;
use crate::vip::raster::FRAMEBUFFER_BYTES;
use crate::vip::raster::FRAMEBUFFER_RESOLUTION_X;
use crate::vip::raster::FRAMEBUFFER_RESOLUTION_Y;
use crate::vip::raster::PIXELS_PER_FRAMEBUFFER;
use crate::vip::raster::VRAM_SIZE;
use crate::vip::regs::Eye;
use crate::vip::regs::ObjGroup;
use crate::vip::regs::VipRegisters;
use crate::vip::regs::WindowMode;

verus! {

/// The colour that a pixel of a character gives: none where the character
/// is transparent, else the two bits of the palette that its index picks.
pub open spec fn char_color(
    vram: Seq<u8>,
    char_index: u32,
    offset_x: u32,
    offset_y: u32,
    horizontal_flip: bool,
    vertical_flip: bool,
    palette: u8,
) -> Option<u8> {
    let palette_index = char_palette_index(
        vram,
        char_index,
        offset_x,
        offset_y,
        horizontal_flip,
        vertical_flip,
    );
    if palette_index == 0 {
        None
    } else {
        Some((palette >> ((palette_index * 2) as u32)) & 0x03)
    }
}

/// The colour that pixel (background_x, background_y) of a background map
/// segment gives.
pub open spec fn background_color(
    vram: Seq<u8>,
    regs: VipRegisters,
    segment_offset: u32,
    background_x: u32,
    background_y: u32,
) -> Option<u8> {
    let segment_x = (background_x >> 3) & 0x3f;
    let segment_y = (background_y >> 3) & 0x3f;
    let offset_x = background_x & 0x07;
    let offset_y = background_y & 0x07;
    let segment_addr = (segment_offset + (segment_y * 64 + segment_x) * 2) as u32;
    let entry = vram_halfword(vram, segment_addr);
    let pal = (entry >> 14) & 0x03;
    let horizontal_flip = (entry & 0x2000) != 0;
    let vertical_flip = (entry & 0x1000) != 0;
    let char_index = (entry & 0x07ff) as u32;
    char_color(
        vram,
        char_index,
        offset_x,
        offset_y,
        horizontal_flip,
        vertical_flip,
        bg_palette(regs, pal),
    )
}

/// The colour that a Normal window gives framebuffer pixel (x, y) of one
/// eye: none outside the window's rectangle, and none where the character
/// is transparent.
pub open spec fn window_color(
    vram: Seq<u8>,
    regs: VipRegisters,
    w: Window,
    eye: Eye,
    pixel_x: u32,
    pixel_y: u32,
) -> Option<u8> {
    let window_x = pixel_x.wrapping_sub(w.eye_x(eye));
    let window_y = pixel_y.wrapping_sub(w.y as u32);
    if window_x >= w.width || window_y >= w.height {
        None
    } else {
        let shifted = window_x.wrapping_add(w.bg_x as u32);
        let background_x = match eye {
            Eye::Left => shifted.wrapping_sub(w.bg_parallax as u32),
            Eye::Right => shifted.wrapping_add(w.bg_parallax as u32),
        };
        let background_y = window_y.wrapping_add(w.bg_y as u32);
        background_color(vram, regs, w.segment_offset(), background_x, background_y)
    }
}

/// Whether a byte of video memory belongs to the framebuffer at the given
/// offset.
pub open spec fn in_framebuffer(framebuffer_offset: u32, index: int) -> bool {
    framebuffer_offset <= index < framebuffer_offset + FRAMEBUFFER_BYTES
}

/// Whether an offset is that of one of the four framebuffers.
pub open spec fn is_framebuffer(framebuffer_offset: u32) -> bool {
    framebuffer_offset == 0 || framebuffer_offset == 0x0000_8000 || framebuffer_offset
        == 0x0001_0000 || framebuffer_offset == 0x0001_8000
}

/// Whether a byte of video memory belongs to one of the four framebuffers.
pub open spec fn in_some_framebuffer(index: int) -> bool {
    in_framebuffer(0, index) || in_framebuffer(0x0000_8000, index) || in_framebuffer(
        0x0001_0000,
        index,
    ) || in_framebuffer(0x0001_8000, index)
}

/// Whether two video memories hold the same tables: they differ at most
/// inside the framebuffers.
pub open spec fn same_tables(a: Seq<u8>, b: Seq<u8>) -> bool {
    &&& a.len() == VRAM_SIZE
    &&& b.len() == VRAM_SIZE
    &&& forall|i: int| 0 <= i < VRAM_SIZE && !in_some_framebuffer(i) ==> a[i] == b[i]
}

/// A pixel that is put into a byte is read back, and the three other pixels
/// of the byte stay.
pub proof fn lemma_with_pixel(byte: u8, shift: u32, color: u8, other: u32)
    by (bit_vector)
    requires
        shift == 0 || shift == 2 || shift == 4 || shift == 6,
        other == 0 || other == 2 || other == 4 || other == 6,
        color <= 3,
    ensures
        (((byte & !(0x03u8 << shift)) | (color << shift)) >> shift) & 0x03 == color,
        other != shift ==> (((byte & !(0x03u8 << shift)) | (color << shift)) >> other) & 0x03 == (
        byte >> other) & 0x03,
{
}

/// The position of a pixel inside its byte is 0, 2, 4 or 6, by the two low
/// bits of its row.
pub proof fn lemma_pixel_shift(pixel_y: u32)
    by (bit_vector)
    ensures
        pixel_y & 0x03 == pixel_y % 4,
        (pixel_y & 0x03) * 2 == 0 || (pixel_y & 0x03) * 2 == 2 || (pixel_y & 0x03) * 2 == 4 || (
        pixel_y & 0x03) * 2 == 6,
{
}

/// Two pixels of a framebuffer that share byte and position are one pixel.
pub proof fn lemma_pixels_apart(x: u32, y: u32, other_x: u32, other_y: u32)
    requires
        x < FRAMEBUFFER_RESOLUTION_X,
        y < FRAMEBUFFER_RESOLUTION_Y,
        other_x < FRAMEBUFFER_RESOLUTION_X,
        other_y < FRAMEBUFFER_RESOLUTION_Y,
        framebuffer_byte_index(x, y) == framebuffer_byte_index(other_x, other_y),
        framebuffer_byte_shift(y) == framebuffer_byte_shift(other_y),
    ensures
        x == other_x,
        y == other_y,
{
    lemma_pixel_shift(y);
    lemma_pixel_shift(other_y);
}

/// What plotting one pixel of a character does to the pixels of the
/// framebuffer: the pixel takes the character's colour, unless the character
/// is transparent there; every other pixel, and every byte but the pixel's
/// own, stays.
pub proof fn lemma_char_pixel(
    vram: Seq<u8>,
    framebuffer_offset: u32,
    pixel_x: u32,
    pixel_y: u32,
    offset_x: u32,
    offset_y: u32,
    char_index: u32,
    horizontal_flip: bool,
    vertical_flip: bool,
    palette: u8,
)
    requires
        vram.len() == VRAM_SIZE,
        framebuffer_offset + FRAMEBUFFER_BYTES <= VRAM_SIZE,
        pixel_x < FRAMEBUFFER_RESOLUTION_X,
        pixel_y < FRAMEBUFFER_RESOLUTION_Y,
    ensures
        ({
            let after = plot_char_pixel(
                vram,
                framebuffer_offset,
                pixel_x,
                pixel_y,
                offset_x,
                offset_y,
                char_index,
                horizontal_flip,
                vertical_flip,
                palette,
            );
            let color = char_color(
                vram,
                char_index,
                offset_x,
                offset_y,
                horizontal_flip,
                vertical_flip,
                palette,
            );
            &&& after.len() == VRAM_SIZE
            &&& forall|i: int|
                0 <= i < VRAM_SIZE && !in_framebuffer(framebuffer_offset, i) ==> after[i]
                    == vram[i]
            &&& pixel_color(after, framebuffer_offset, pixel_x, pixel_y) == (match color {
                Some(c) => c,
                None => pixel_color(vram, framebuffer_offset, pixel_x, pixel_y),
            })
            &&& forall|x: u32, y: u32|
                x < FRAMEBUFFER_RESOLUTION_X && y < FRAMEBUFFER_RESOLUTION_Y && !(x == pixel_x
                    && y == pixel_y) ==> #[trigger] pixel_color(after, framebuffer_offset, x, y)
                    == pixel_color(vram, framebuffer_offset, x, y)
        }),
{
    reveal(plot_char_pixel);
    let after = plot_char_pixel(
        vram,
        framebuffer_offset,
        pixel_x,
        pixel_y,
        offset_x,
        offset_y,
        char_index,
        horizontal_flip,
        vertical_flip,
        palette,
    );
    let palette_index = char_palette_index(
        vram,
        char_index,
        offset_x,
        offset_y,
        horizontal_flip,
        vertical_flip,
    );
    if palette_index != 0 {
        let color = (palette >> ((palette_index * 2) as u32)) & 0x03;
        let shift = framebuffer_byte_shift(pixel_y);
        let index = framebuffer_offset + framebuffer_byte_index(pixel_x, pixel_y);
        let byte = vram[index];
        assert(color <= 3) by {
            lemma_mask_bound_u8(palette >> ((palette_index * 2) as u32), 0x03);
        }
        lemma_pixel_shift(pixel_y);
        assert(0 <= framebuffer_byte_index(pixel_x, pixel_y) < FRAMEBUFFER_BYTES);
        assert(after == vram.update(index, with_pixel(byte, shift, color)));
        lemma_with_pixel(byte, shift, color, shift);
        assert(pixel_color(after, framebuffer_offset, pixel_x, pixel_y) == color);
        assert forall|x: u32, y: u32|
            x < FRAMEBUFFER_RESOLUTION_X && y < FRAMEBUFFER_RESOLUTION_Y && !(x == pixel_x && y
                == pixel_y) implies #[trigger] pixel_color(after, framebuffer_offset, x, y)
            == pixel_color(vram, framebuffer_offset, x, y) by {
            lemma_pixel_shift(y);
            if framebuffer_byte_index(x, y) == framebuffer_byte_index(pixel_x, pixel_y) {
                if framebuffer_byte_shift(y) == shift {
                    lemma_pixels_apart(x, y, pixel_x, pixel_y);
                }
                lemma_with_pixel(byte, shift, color, framebuffer_byte_shift(y));
            }
        }
    }
}

/// Whether `after` is `before` with one pixel of a framebuffer given a
/// colour, or left alone where there is none to give.
pub open spec fn pixel_painted(
    before: Seq<u8>,
    after: Seq<u8>,
    framebuffer_offset: u32,
    pixel_x: u32,
    pixel_y: u32,
    color: Option<u8>,
) -> bool {
    &&& after.len() == VRAM_SIZE
    &&& forall|i: int|
        0 <= i < VRAM_SIZE && !in_framebuffer(framebuffer_offset, i) ==> after[i] == before[i]
    &&& pixel_color(after, framebuffer_offset, pixel_x, pixel_y) == (match color {
        Some(c) => c,
        None => pixel_color(before, framebuffer_offset, pixel_x, pixel_y),
    })
    &&& forall|x: u32, y: u32|
        x < FRAMEBUFFER_RESOLUTION_X && y < FRAMEBUFFER_RESOLUTION_Y && !(x == pixel_x && y
            == pixel_y) ==> #[trigger] pixel_color(after, framebuffer_offset, x, y) == pixel_color(
            before,
            framebuffer_offset,
            x,
            y,
        )
}

/// What asking a Normal window for one framebuffer pixel does: the pixel
/// takes the colour that the window gives it, if it gives one, and nothing
/// else changes.
pub proof fn lemma_window_pixel(
    vram: Seq<u8>,
    regs: VipRegisters,
    w: Window,
    eye: Eye,
    framebuffer_offset: u32,
    pixel_x: u32,
    pixel_y: u32,
)
    requires
        vram.len() == VRAM_SIZE,
        framebuffer_offset + FRAMEBUFFER_BYTES <= VRAM_SIZE,
        pixel_x < FRAMEBUFFER_RESOLUTION_X,
        pixel_y < FRAMEBUFFER_RESOLUTION_Y,
        w.mode == WindowMode::Normal,
    ensures
        pixel_painted(
            vram,
            plot_window_pixel(vram, regs, w, eye, framebuffer_offset, pixel_x, pixel_y),
            framebuffer_offset,
            pixel_x,
            pixel_y,
            window_color(vram, regs, w, eye, pixel_x, pixel_y),
        ),
{
    reveal(plot_window_pixel);
    reveal(plot_background_pixel);
    let window_x = pixel_x.wrapping_sub(w.eye_x(eye));
    let window_y = pixel_y.wrapping_sub(w.y as u32);
    if !(window_x >= w.width || window_y >= w.height) {
        let shifted = window_x.wrapping_add(w.bg_x as u32);
        assert(shifted.wrapping_add(0u32) == shifted);
        let background_x = match eye {
            Eye::Left => shifted.wrapping_sub(w.bg_parallax as u32),
            Eye::Right => shifted.wrapping_add(w.bg_parallax as u32),
        };
        let background_y = window_y.wrapping_add(w.bg_y as u32);
        let segment_x = (background_x >> 3) & 0x3f;
        let segment_y = (background_y >> 3) & 0x3f;
        let segment_addr = (w.segment_offset() + (segment_y * 64 + segment_x) * 2) as u32;
        let entry = vram_halfword(vram, segment_addr);
        lemma_char_pixel(
            vram,
            framebuffer_offset,
            pixel_x,
            pixel_y,
            background_x & 0x07,
            background_y & 0x07,
            (entry & 0x07ff) as u32,
            (entry & 0x2000) != 0,
            (entry & 0x1000) != 0,
            bg_palette(regs, (entry >> 14) & 0x03),
        );
    }
}

/// An even address inside video memory is the address that is read.
pub proof fn lemma_vram_address(addr: u32)
    by (bit_vector)
    requires
        addr % 2 == 0,
        addr < 0x0004_0000,
    ensures
        addr & 0x0003_fffe == addr,
{
}

/// A halfword outside the framebuffers is the same in video memories that
/// hold the same tables.
pub proof fn lemma_table_halfword(a: Seq<u8>, b: Seq<u8>, addr: u32)
    requires
        same_tables(a, b),
        addr % 2 == 0,
        addr < 0x0004_0000,
        !in_some_framebuffer(addr as int),
    ensures
        vram_halfword(a, addr) == vram_halfword(b, addr),
{
    lemma_vram_address(addr);
    assert(!in_some_framebuffer(addr + 1));
}

/// The fields of a background map entry and of a background coordinate stay
/// in their ranges.
pub proof fn lemma_background_fields(coordinate: u32, entry: u16)
    by (bit_vector)
    ensures
        (coordinate >> 3) & 0x3f <= 0x3f,
        coordinate & 0x07 <= 7,
        entry & 0x07ff <= 0x07ff,
{
}

/// A Normal window gives the same colours in video memories that hold the
/// same tables: it reads its background map segment and the characters,
/// which lie outside the framebuffers.
pub proof fn lemma_same_window_color(
    a: Seq<u8>,
    b: Seq<u8>,
    regs: VipRegisters,
    w: Window,
    eye: Eye,
    pixel_x: u32,
    pixel_y: u32,
)
    requires
        same_tables(a, b),
        w.wf(),
    ensures
        window_color(a, regs, w, eye, pixel_x, pixel_y) == window_color(
            b,
            regs,
            w,
            eye,
            pixel_x,
            pixel_y,
        ),
{
    let window_x = pixel_x.wrapping_sub(w.eye_x(eye));
    let window_y = pixel_y.wrapping_sub(w.y as u32);
    if !(window_x >= w.width || window_y >= w.height) {
        let shifted = window_x.wrapping_add(w.bg_x as u32);
        let background_x = match eye {
            Eye::Left => shifted.wrapping_sub(w.bg_parallax as u32),
            Eye::Right => shifted.wrapping_add(w.bg_parallax as u32),
        };
        let background_y = window_y.wrapping_add(w.bg_y as u32);
        let segment_x = (background_x >> 3) & 0x3f;
        let segment_y = (background_y >> 3) & 0x3f;
        let segment_addr = (w.segment_offset() + (segment_y * 64 + segment_x) * 2) as u32;
        lemma_background_fields(background_x, 0);
        lemma_background_fields(background_y, 0);
        lemma_table_halfword(a, b, segment_addr);
        let entry = vram_halfword(a, segment_addr);
        lemma_background_fields(0, entry);
        let char_index = (entry & 0x07ff) as u32;
        let offset_x = background_x & 0x07;
        let offset_y = background_y & 0x07;
        let oy = if (entry & 0x1000) != 0 {
            (7 - offset_y) as u32
        } else {
            offset_y
        };
        let row_addr = (char_offset(char_index) + oy * 2) as u32;
        lemma_table_halfword(a, b, row_addr);
    }
}

/// The colour of a pixel that a window was asked for: the window's, where
/// it gives one, else the colour that was there.
pub open spec fn painted_color(
    before: Seq<u8>,
    regs: VipRegisters,
    w: Window,
    eye: Eye,
    framebuffer_offset: u32,
    x: u32,
    y: u32,
) -> u8 {
    match window_color(before, regs, w, eye, x, y) {
        Some(c) => c,
        None => pixel_color(before, framebuffer_offset, x, y),
    }
}

/// Whether `after` is `before` with the first `n` pixels of a framebuffer,
/// row by row, painted by a window, and nothing else changed.
pub open spec fn window_painted(
    before: Seq<u8>,
    after: Seq<u8>,
    regs: VipRegisters,
    w: Window,
    eye: Eye,
    framebuffer_offset: u32,
    n: nat,
) -> bool {
    &&& after.len() == VRAM_SIZE
    &&& forall|i: int|
        0 <= i < VRAM_SIZE && !in_framebuffer(framebuffer_offset, i) ==> after[i] == before[i]
    &&& forall|x: u32, y: u32|
        x < FRAMEBUFFER_RESOLUTION_X && y < FRAMEBUFFER_RESOLUTION_Y ==> #[trigger] pixel_color(
            after,
            framebuffer_offset,
            x,
            y,
        ) == (if y * FRAMEBUFFER_RESOLUTION_X + x < n {
            painted_color(before, regs, w, eye, framebuffer_offset, x, y)
        } else {
            pixel_color(before, framebuffer_offset, x, y)
        })
}

/// A Normal window that was asked for the first `n` pixels of a framebuffer
/// has painted exactly those, each with the colour that the tables give it:
/// what was painted before does not change what is painted after.
pub proof fn lemma_pixels_painted(
    vram: Seq<u8>,
    regs: VipRegisters,
    w: Window,
    eye: Eye,
    framebuffer_offset: u32,
    n: nat,
)
    requires
        vram.len() == VRAM_SIZE,
        is_framebuffer(framebuffer_offset),
        w.wf(),
        w.mode == WindowMode::Normal,
        n <= PIXELS_PER_FRAMEBUFFER,
    ensures
        window_painted(
            vram,
            plot_pixels(vram, regs, w, eye, framebuffer_offset, n),
            regs,
            w,
            eye,
            framebuffer_offset,
            n,
        ),
    decreases n,
{
    if n > 0 {
        let k = (n - 1) as nat;
        lemma_pixels_painted(vram, regs, w, eye, framebuffer_offset, k);
        let before = plot_pixels(vram, regs, w, eye, framebuffer_offset, k);
        let pixel_x = (k % FRAMEBUFFER_RESOLUTION_X as nat) as u32;
        let pixel_y = (k / FRAMEBUFFER_RESOLUTION_X as nat) as u32;
        let after = plot_window_pixel(
            before,
            regs,
            w,
            eye,
            framebuffer_offset,
            pixel_x,
            pixel_y,
        );
        assert(after == plot_pixels(vram, regs, w, eye, framebuffer_offset, n));
        assert(same_tables(before, vram));
        lemma_same_window_color(before, vram, regs, w, eye, pixel_x, pixel_y);
        lemma_window_pixel(before, regs, w, eye, framebuffer_offset, pixel_x, pixel_y);
        assert forall|x: u32, y: u32|
            x < FRAMEBUFFER_RESOLUTION_X && y < FRAMEBUFFER_RESOLUTION_Y implies #[trigger] pixel_color(
            after,
            framebuffer_offset,
            x,
            y,
        ) == (if y * FRAMEBUFFER_RESOLUTION_X + x < n {
            painted_color(vram, regs, w, eye, framebuffer_offset, x, y)
        } else {
            pixel_color(vram, framebuffer_offset, x, y)
        }) by {
            if x == pixel_x && y == pixel_y {
                assert(y * FRAMEBUFFER_RESOLUTION_X + x == k);
            } else {
                assert(y * FRAMEBUFFER_RESOLUTION_X + x != k);
                assert(pixel_color(after, framebuffer_offset, x, y) == pixel_color(
                    before,
                    framebuffer_offset,
                    x,
                    y,
                ));
            }
        }
    }
}

/// A window that is drawn for an eye in Normal mode paints every pixel of
/// the eye's framebuffer that it has a colour for and changes nothing else;
/// a window that is off for the eye draws nothing.
pub proof fn lemma_window_painted(
    vram: Seq<u8>,
    regs: VipRegisters,
    w: Window,
    eye: Eye,
    group: Option<ObjGroup>,
    framebuffer_offset: u32,
)
    requires
        vram.len() == VRAM_SIZE,
        is_framebuffer(framebuffer_offset),
        w.wf(),
        w.mode == WindowMode::Normal,
    ensures
        w.enabled_for(eye) ==> window_painted(
            vram,
            plot_window(vram, regs, w, eye, group, framebuffer_offset),
            regs,
            w,
            eye,
            framebuffer_offset,
            PIXELS_PER_FRAMEBUFFER as nat,
        ),
        !w.enabled_for(eye) ==> plot_window(vram, regs, w, eye, group, framebuffer_offset)
            == vram,
{
    reveal(plot_window);
    lemma_pixels_painted(vram, regs, w, eye, framebuffer_offset, PIXELS_PER_FRAMEBUFFER as nat);
}

/// The window table is the same in video memories that hold the same
/// tables.
pub proof fn lemma_same_window(a: Seq<u8>, b: Seq<u8>, index: u32)
    requires
        same_tables(a, b),
        index < WINDOW_COUNT,
    ensures
        window_at(a, index) == window_at(b, index),
{
    reveal(window_at);
    let offset = (WINDOW_TABLE_OFFSET + index * WINDOW_ENTRY_LENGTH) as u32;
    lemma_table_halfword(a, b, offset);
    lemma_table_halfword(a, b, (offset + 2) as u32);
    lemma_table_halfword(a, b, (offset + 4) as u32);
    lemma_table_halfword(a, b, (offset + 6) as u32);
    lemma_table_halfword(a, b, (offset + 8) as u32);
    lemma_table_halfword(a, b, (offset + 10) as u32);
    lemma_table_halfword(a, b, (offset + 12) as u32);
    lemma_table_halfword(a, b, (offset + 14) as u32);
    lemma_table_halfword(a, b, (offset + 16) as u32);
    lemma_table_halfword(a, b, (offset + 18) as u32);
    lemma_table_halfword(a, b, (offset + 20) as u32);
}

/// Every entry of the window table has its fields in their ranges.
pub proof fn lemma_window_wf(vram: Seq<u8>, index: u32)
    requires
        index < WINDOW_COUNT,
    ensures
        window_at(vram, index).wf(),
{
    reveal(window_at);
    let offset = (WINDOW_TABLE_OFFSET + index * WINDOW_ENTRY_LENGTH) as u32;
    lemma_mask_bound_u16(vram_halfword(vram, offset), 0x000f);
}

/// Whether a window is off: it is drawn for neither eye, and it does not
/// end the table.
pub open spec fn is_off(w: Window) -> bool {
    !w.left_on && !w.right_on && !w.stop
}

/// While the windows are off, the rasterizer draws nothing.
pub proof fn lemma_windows_off(vram: Seq<u8>, regs: VipRegisters, left: u32, n: nat)
    requires
        n <= WINDOW_COUNT,
        forall|index: u32|
            WINDOW_COUNT - n <= index < WINDOW_COUNT ==> is_off(#[trigger] window_at(vram, index)),
    ensures
        plot_windows(vram, regs, left, n).vram == vram,
        !plot_windows(vram, regs, left, n).stopped,
    decreases n,
{
    reveal(plot_window);
    if n > 0 {
        lemma_windows_off(vram, regs, left, (n - 1) as nat);
        let w = window_at(vram, (WINDOW_COUNT - n) as u32);
        assert(is_off(w));
    }
}

/// The colour of every pixel of a framebuffer that was cleared.
pub proof fn lemma_cleared_color(vram: Seq<u8>, left: u32, clear_color: u8, x: u32, y: u32)
    requires
        vram.len() == VRAM_SIZE,
        left == 0 || left == 0x0000_8000,
        clear_color <= 3,
        x < FRAMEBUFFER_RESOLUTION_X,
        y < FRAMEBUFFER_RESOLUTION_Y,
    ensures
        pixel_color(cleared(vram, left, clear_color), left, x, y) == clear_color,
        pixel_color(
            cleared(vram, left, clear_color),
            (left + RIGHT_FRAMEBUFFER_DISTANCE) as u32,
            x,
            y,
        ) == clear_color,
        same_tables(cleared(vram, left, clear_color), vram),
{
    lemma_pixel_shift(y);
    lemma_clear_byte(clear_color, framebuffer_byte_shift(y));
    assert(0 <= framebuffer_byte_index(x, y) < FRAMEBUFFER_BYTES);
    assert(in_framebuffer_pair(left, left + framebuffer_byte_index(x, y)));
    assert(in_framebuffer_pair(
        left,
        left + RIGHT_FRAMEBUFFER_DISTANCE + framebuffer_byte_index(x, y),
    ));
}

proof fn lemma_clear_byte(clear_color: u8, shift: u32)
    by (bit_vector)
    requires
        clear_color <= 3,
        shift == 0 || shift == 2 || shift == 4 || shift == 6,
    ensures
        (((clear_color << 6) | (clear_color << 4) | (clear_color << 2) | clear_color) >> shift)
            & 0x03 == clear_color,
{
}

/// The colour that a pixel has after a drawing period that found one
/// window on, window 0 in Normal mode: the window's colour, where it is
/// drawn for the eye and gives the pixel one, else the clear colour.
pub open spec fn single_window_color(
    vram: Seq<u8>,
    regs: VipRegisters,
    eye: Eye,
    x: u32,
    y: u32,
) -> u8 {
    let w = window_at(vram, 0);
    if w.enabled_for(eye) {
        match window_color(vram, regs, w, eye, x, y) {
            Some(c) => c,
            None => regs.clear_color,
        }
    } else {
        regs.clear_color
    }
}

/// Whether the window table has window 0 in Normal mode and every other
/// window off.
pub open spec fn single_window(vram: Seq<u8>) -> bool {
    &&& vram.len() == VRAM_SIZE
    &&& forall|index: u32| 1 <= index < WINDOW_COUNT ==> is_off(#[trigger] window_at(vram, index))
    &&& !window_at(vram, 0).stop
    &&& window_at(vram, 0).mode == WindowMode::Normal
}

/// A drawing period that finds window 0 in Normal mode and every other
/// window off leaves, in both framebuffers of the pair that is drawn to,
/// each pixel with the colour that window 0 gives it for the eye, or with
/// the clear colour.
pub proof fn lemma_single_window(vram: Seq<u8>, regs: VipRegisters, x: u32, y: u32)
    requires
        single_window(vram),
        regs.clear_color <= 3,
        x < FRAMEBUFFER_RESOLUTION_X,
        y < FRAMEBUFFER_RESOLUTION_Y,
    ensures
        pixel_color(rasterized(vram, regs), drawn_framebuffer_offset(regs), x, y)
            == single_window_color(vram, regs, Eye::Left, x, y),
        pixel_color(
            rasterized(vram, regs),
            (drawn_framebuffer_offset(regs) + RIGHT_FRAMEBUFFER_DISTANCE) as u32,
            x,
            y,
        ) == single_window_color(vram, regs, Eye::Right, x, y),
{
    let left = drawn_framebuffer_offset(regs);
    let right = (left + RIGHT_FRAMEBUFFER_DISTANCE) as u32;
    let start = cleared(vram, left, regs.clear_color);
    lemma_cleared_color(vram, left, regs.clear_color, x, y);
    assert forall|index: u32| 1 <= index < WINDOW_COUNT implies is_off(
        #[trigger] window_at(start, index),
    ) by {
        lemma_same_window(start, vram, index);
    }
    lemma_windows_off(start, regs, left, 31);
    let before = plot_windows(start, regs, left, 31);
    lemma_same_window(start, vram, 0);
    lemma_window_wf(vram, 0);
    let w = window_at(vram, 0);
    assert(window_at(before.vram, (WINDOW_COUNT - 32) as u32) == w);
    let first = plot_window(start, regs, w, Eye::Left, before.group, left);
    let both = plot_window(first, regs, w, Eye::Right, before.group, right);
    assert(rasterized(vram, regs) == both) by {
        assert(plot_windows(start, regs, left, 32).vram == both);
    }
    lemma_window_painted(start, regs, w, Eye::Left, before.group, left);
    lemma_window_painted(first, regs, w, Eye::Right, before.group, right);
    lemma_same_window_color(start, vram, regs, w, Eye::Left, x, y);
    assert(same_tables(first, vram));
    lemma_same_window_color(first, vram, regs, w, Eye::Right, x, y);
    // the right eye's pass leaves the left framebuffer alone, and the left
    // eye's pass the right one
    assert(0 <= framebuffer_byte_index(x, y) < FRAMEBUFFER_BYTES);
    assert(both[left + framebuffer_byte_index(x, y)] == first[left + framebuffer_byte_index(
        x,
        y,
    )]);
    assert(first[right + framebuffer_byte_index(x, y)] == start[right + framebuffer_byte_index(
        x,
        y,
    )]);
    assert(pixel_color(both, left, x, y) == pixel_color(first, left, x, y));
    assert(pixel_color(first, right, x, y) == pixel_color(start, right, x, y));
}

/// Where the character with index 0x10 keeps its rows.
pub const SCENE_CHAR_OFFSET: u32 = 0x0000_6100;

/// A scene with one window: window 0, in Normal mode and on for both eyes,
/// covers the 8 x 8 pixels at the top left without any offset or parallax;
/// every other window is off. The first entry of background map segment 0
/// names character 0x10 with palette 0 and no flip. Every pixel of that
/// character has index 1, which palette 0 maps to colour 3. The clear
/// colour is 0.
pub open spec fn normal_scene(vram: Seq<u8>, regs: VipRegisters) -> bool {
    let w = window_at(vram, 0);
    &&& single_window(vram)
    &&& w.left_on && w.right_on
    &&& w.base == 0
    &&& w.x == 0 && w.y == 0 && w.parallax == 0
    &&& w.bg_x == 0 && w.bg_y == 0 && w.bg_parallax == 0
    &&& w.width == 8 && w.height == 8
    &&& vram_halfword(vram, BACKGROUND_SEGMENTS_OFFSET) == 0x0010
    &&& forall|row: u32|
        row < 8 ==> #[trigger] vram_halfword(vram, (SCENE_CHAR_OFFSET + row * 2) as u32) == 0x5555
    &&& regs.bg_palette_0 == 0x0c
    &&& regs.clear_color == 0
}

proof fn lemma_scene_bits(x: u32)
    by (bit_vector)
    requires
        x < 8,
    ensures
        (x >> 3) & 0x3f == 0,
        x & 0x07 == x,
        (0x5555u32 >> ((x * 2) as u32)) & 0x03 == 1,
        (0x0010u16 >> 14) & 0x03 == 0,
        0x0010u16 & 0x2000 == 0,
        0x0010u16 & 0x1000 == 0,
        0x0010u16 & 0x07ff == 0x0010,
        (0x0cu8 >> 2u32) & 0x03 == 3,
{
}

/// In the scene, the window gives each of its 8 x 8 pixels colour 3, for
/// either eye, and no other pixel a colour.
pub proof fn lemma_scene_color(vram: Seq<u8>, regs: VipRegisters, eye: Eye, x: u32, y: u32)
    requires
        normal_scene(vram, regs),
        x < FRAMEBUFFER_RESOLUTION_X,
        y < FRAMEBUFFER_RESOLUTION_Y,
    ensures
        window_color(vram, regs, window_at(vram, 0), eye, x, y) == (if x < 8 && y < 8 {
            Some(3u8)
        } else {
            None
        }),
{
    let w = window_at(vram, 0);
    assert(w.eye_x(eye) == 0);
    assert(x.wrapping_sub(0) == x && y.wrapping_sub(0) == y);
    if x < 8 && y < 8 {
        lemma_scene_bits(x);
        lemma_scene_bits(y);
        assert(x.wrapping_add(0) == x && y.wrapping_add(0) == y);
        assert(w.segment_offset() == BACKGROUND_SEGMENTS_OFFSET);
        let entry = vram_halfword(vram, BACKGROUND_SEGMENTS_OFFSET);
        assert(entry == 0x0010);
        assert(char_offset(0x10) + y * 2 == SCENE_CHAR_OFFSET + y * 2);
        let row = vram_halfword(vram, (SCENE_CHAR_OFFSET + y * 2) as u32);
        assert(row == 0x5555);
        assert(char_palette_index(vram, 0x10, x, y, false, false) == 1);
        assert(bg_palette(regs, 0) == 0x0c);
        assert(char_color(vram, 0x10, x, y, false, false, 0x0c) == Some(3u8));
        assert(background_color(vram, regs, BACKGROUND_SEGMENTS_OFFSET, x, y) == Some(3u8));
    }
}

/// What the display shows of a pixel: the brightness of its colour.
pub proof fn lemma_displayed_pixel(
    vram: Seq<u8>,
    regs: VipRegisters,
    framebuffer_offset: u32,
    x: u32,
    y: u32,
)
    requires
        x < DISPLAY_RESOLUTION_X,
        y < DISPLAY_RESOLUTION_Y,
    ensures
        displayed_plane(vram, regs, framebuffer_offset).len() == DISPLAY_PIXELS,
        displayed_plane(vram, regs, framebuffer_offset)[y * DISPLAY_RESOLUTION_X + x]
            == pixel_brightness(regs, pixel_color(vram, framebuffer_offset, x, y)),
{
    let i = (y * DISPLAY_RESOLUTION_X + x) as int;
    assert(i % DISPLAY_RESOLUTION_X as int == x);
    assert(i / DISPLAY_RESOLUTION_X as int == y);
}

/// The scene, drawn and displayed. In both planes of the pair that was drawn
/// to, the 8 x 8 pixels of the window show the three brightness registers
/// together, doubled and held to 255, which is 255 where they add up to 128
/// or more, and every other pixel is dark; so the two planes are the same.
/// `shown` holds the brightness registers at the time of the display.
pub proof fn lemma_normal_scene(
    vram: Seq<u8>,
    regs: VipRegisters,
    shown: VipRegisters,
    x: u32,
    y: u32,
)
    requires
        normal_scene(vram, regs),
        x < DISPLAY_RESOLUTION_X,
        y < DISPLAY_RESOLUTION_Y,
    ensures
        ({
            let drawn = rasterized(vram, regs);
            let offset = drawn_framebuffer_offset(regs);
            let left = displayed_plane(drawn, shown, offset);
            let right = displayed_plane(
                drawn,
                shown,
                (offset + RIGHT_FRAMEBUFFER_DISTANCE) as u32,
            );
            let lit = clamped_brightness(
                shown.led_brightness_1 + shown.led_brightness_2 + shown.led_brightness_3,
            );
            &&& left[y * DISPLAY_RESOLUTION_X + x] == (if x < 8 && y < 8 {
                lit
            } else {
                0
            })
            &&& right[y * DISPLAY_RESOLUTION_X + x] == left[y * DISPLAY_RESOLUTION_X + x]
            &&& shown.led_brightness_1 + shown.led_brightness_2 + shown.led_brightness_3 >= 128
                ==> lit == 255
        }),
{
    let drawn = rasterized(vram, regs);
    let offset = drawn_framebuffer_offset(regs);
    lemma_single_window(vram, regs, x, y);
    lemma_scene_color(vram, regs, Eye::Left, x, y);
    lemma_scene_color(vram, regs, Eye::Right, x, y);
    lemma_displayed_pixel(drawn, shown, offset, x, y);
    lemma_displayed_pixel(drawn, shown, (offset + RIGHT_FRAMEBUFFER_DISTANCE) as u32, x, y);
}

} // verus!
