//! Display output: a framebuffer pair turned into two planes of brightness.

use vstd::prelude::*;
use crate::bits::lemma_mask_bound_u32;
use crate::vip::raster::FRAMEBUFFER_BYTES;
use crate::vip::raster::RIGHT_FRAMEBUFFER_DISTANCE;
use crate::vip::raster::VRAM_SIZE;
use crate::vip::regs::VipRegisters;

verus! {

pub const DISPLAY_RESOLUTION_X: u32 = 384;
pub const DISPLAY_RESOLUTION_Y: u32 = 224;
pub const DISPLAY_PIXELS: u32 = 86016;

/// Twice a brightness sum, at most 255.
pub open spec fn clamped_brightness(sum: int) -> u8 {
    if 2 * sum > 255 {
        255
    } else {
        (2 * sum) as u8
    }
}

/// The brightness of a 2-bit pixel value: 0 is dark, 1 and 2 have the first
/// and the second brightness register doubled, 3 has the three brightness
/// registers together, doubled; the result is at most 255.
pub open spec fn pixel_brightness(regs: VipRegisters, color: u8) -> u8 {
    if color == 0 {
        0
    } else if color == 1 {
        clamped_brightness(regs.led_brightness_1 as int)
    } else if color == 2 {
        clamped_brightness(regs.led_brightness_2 as int)
    } else {
        clamped_brightness(
            regs.led_brightness_1 + regs.led_brightness_2 + regs.led_brightness_3,
        )
    }
}

/// The 2-bit value of pixel (x, y) of the framebuffer at the given offset.
pub open spec fn pixel_color(vram: Seq<u8>, framebuffer_offset: u32, x: u32, y: u32) -> u8 {
    (vram[framebuffer_offset + (x * 256 + y) / 4] >> (((y & 0x03) * 2) as u32)) & 0x03
}

/// The plane that a framebuffer shows: rows 0 to 223, row by row.
pub open spec fn displayed_plane(
    vram: Seq<u8>,
    regs: VipRegisters,
    framebuffer_offset: u32,
) -> Seq<u8> {
    Seq::new(
        DISPLAY_PIXELS as nat,
        |i: int|
            pixel_brightness(
                regs,
                pixel_color(
                    vram,
                    framebuffer_offset,
                    (i % DISPLAY_RESOLUTION_X as int) as u32,
                    (i / DISPLAY_RESOLUTION_X as int) as u32,
                ),
            ),
    )
}

/// The left framebuffer of the pair that is displayed.
pub open spec fn displayed_framebuffer_offset(regs: VipRegisters) -> u32 {
    if regs.display_first_framebuffers {
        0
    } else {
        0x0000_8000
    }
}

/// The frame that the display shows: the left and the right plane.
pub open spec fn displayed_frame(vram: Seq<u8>, regs: VipRegisters) -> (Seq<u8>, Seq<u8>) {
    let offset = displayed_framebuffer_offset(regs);
    (
        displayed_plane(vram, regs, offset),
        displayed_plane(vram, regs, (offset + RIGHT_FRAMEBUFFER_DISTANCE) as u32),
    )
}

fn clamp_brightness(sum: u32) -> (r: u8)
    requires
        sum <= 765,
    ensures
        r == clamped_brightness(sum as int),
{
    let doubled: u32 = sum * 2;
    if doubled > 255 {
        255
    } else {
        doubled as u8
    }
}

/// Turns one framebuffer into a plane of brightness values.
pub fn display_plane(vram: &Vec<u8>, regs: &VipRegisters, framebuffer_offset: u32) -> (plane: Vec<
    u8,
>)
    requires
        vram.len() == VRAM_SIZE,
        framebuffer_offset + FRAMEBUFFER_BYTES <= VRAM_SIZE,
    ensures
        plane@ == displayed_plane(vram@, *regs, framebuffer_offset),
{
    let brightness_1: u8 = clamp_brightness(regs.led_brightness_1 as u32);
    let brightness_2: u8 = clamp_brightness(regs.led_brightness_2 as u32);
    let brightness_3: u8 = clamp_brightness(
        regs.led_brightness_1 as u32 + regs.led_brightness_2 as u32 + regs.led_brightness_3 as u32,
    );

    let mut plane: Vec<u8> = Vec::with_capacity(DISPLAY_PIXELS as usize);
    let mut pixel_y: u32 = 0;
    while pixel_y < DISPLAY_RESOLUTION_Y
        invariant
            vram.len() == VRAM_SIZE,
            framebuffer_offset + FRAMEBUFFER_BYTES <= VRAM_SIZE,
            brightness_1 == clamped_brightness(regs.led_brightness_1 as int),
            brightness_2 == clamped_brightness(regs.led_brightness_2 as int),
            brightness_3 == clamped_brightness(
                regs.led_brightness_1 + regs.led_brightness_2 + regs.led_brightness_3,
            ),
            pixel_y <= DISPLAY_RESOLUTION_Y,
            plane.len() == pixel_y * DISPLAY_RESOLUTION_X,
            forall|i: int|
                0 <= i < plane.len() ==> plane@[i] == displayed_plane(
                    vram@,
                    *regs,
                    framebuffer_offset,
                )[i],
        decreases DISPLAY_RESOLUTION_Y - pixel_y,
    {
        let mut pixel_x: u32 = 0;
        while pixel_x < DISPLAY_RESOLUTION_X
            invariant
                vram.len() == VRAM_SIZE,
                framebuffer_offset + FRAMEBUFFER_BYTES <= VRAM_SIZE,
                brightness_1 == clamped_brightness(regs.led_brightness_1 as int),
                brightness_2 == clamped_brightness(regs.led_brightness_2 as int),
                brightness_3 == clamped_brightness(
                    regs.led_brightness_1 + regs.led_brightness_2 + regs.led_brightness_3,
                ),
                pixel_y < DISPLAY_RESOLUTION_Y,
                pixel_x <= DISPLAY_RESOLUTION_X,
                plane.len() == pixel_y * DISPLAY_RESOLUTION_X + pixel_x,
                forall|i: int|
                    0 <= i < plane.len() ==> plane@[i] == displayed_plane(
                        vram@,
                        *regs,
                        framebuffer_offset,
                    )[i],
            decreases DISPLAY_RESOLUTION_X - pixel_x,
        {
            proof {
                lemma_mask_bound_u32(pixel_y, 0x03);
            }
            let framebuffer_byte_index: u32 = (pixel_x * 256 + pixel_y) / 4;
            let framebuffer_byte_shift: u32 = (pixel_y & 0x03) * 2;
            let byte: u8 = vram[(framebuffer_offset + framebuffer_byte_index) as usize];
            let color: u8 = (byte >> framebuffer_byte_shift) & 0x03;
            let brightness: u8 = if color == 0 {
                0
            } else if color == 1 {
                brightness_1
            } else if color == 2 {
                brightness_2
            } else {
                brightness_3
            };
            plane.push(brightness);
            pixel_x = pixel_x + 1;
        }
        pixel_y = pixel_y + 1;
    }
    assert(plane@ =~= displayed_plane(vram@, *regs, framebuffer_offset));
    plane
}

/// Turns the displayed framebuffer pair into a video frame.
pub fn display(vram: &Vec<u8>, regs: &VipRegisters) -> (frame: (Vec<u8>, Vec<u8>))
    requires
        vram.len() == VRAM_SIZE,
    ensures
        (frame.0@, frame.1@) == displayed_frame(vram@, *regs),
{
    let left_framebuffer_offset: u32 = if regs.display_first_framebuffers {
        0
    } else {
        0x0000_8000
    };
    let right_framebuffer_offset: u32 = left_framebuffer_offset + RIGHT_FRAMEBUFFER_DISTANCE;
    let left = display_plane(vram, regs, left_framebuffer_offset);
    let right = display_plane(vram, regs, right_framebuffer_offset);
    (left, right)
}

} // verus!
