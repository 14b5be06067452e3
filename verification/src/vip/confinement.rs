//! The rasterizer writes to the framebuffer pair it draws to and to nothing
//! else: every other byte of video memory, and so the displayed pair, the
//! characters, the background maps and the tables, stay as they are.

use vstd::prelude::*;
use crate::vip::raster::cleared;
use crate::vip::raster::drawn_framebuffer_offset;
use crate::vip::raster::in_framebuffer_pair;
use crate::vip::raster::obj_at;
use crate::vip::raster::obj_group_end;
use crate::vip::raster::obj_group_start;
use crate::vip::raster::plot_affine_pixel;
use crate::vip::raster::plot_background_pixel;
use crate::vip::raster::plot_char_pixel;
use crate::vip::raster::plot_obj;
use crate::vip::raster::plot_obj_group;
use crate::vip::raster::plot_obj_pixel;
use crate::vip::raster::plot_obj_pixels;
use crate::vip::raster::plot_objs;
use crate::vip::raster::plot_pixel;
use crate::vip::raster::plot_pixels;
use crate::vip::raster::plot_window;
use crate::vip::raster::plot_window_pixel;
use crate::vip::raster::plot_windows;
use crate::vip::raster::rasterized;
use crate::vip::raster::window_at;
use crate::vip::raster::Obj;
use crate::vip::raster::Window;
use crate::vip::raster::FRAMEBUFFER_RESOLUTION_X;
use crate::vip::raster::FRAMEBUFFER_RESOLUTION_Y;
use crate::vip::raster::PIXELS_PER_CHAR;
use crate::vip::raster::PIXELS_PER_FRAMEBUFFER;
use crate::vip::raster::RIGHT_FRAMEBUFFER_DISTANCE;
use crate::vip::raster::VRAM_SIZE;
use crate::vip::raster::WINDOW_COUNT;
use crate::vip::regs::Eye;
use crate::vip::regs::ObjGroup;
use crate::vip::regs::VipRegisters;

verus! {

/// Whether `after` is video memory of full size that differs from `before`
/// at most inside the framebuffer pair whose left framebuffer starts at the
/// given offset.
pub open spec fn confined(before: Seq<u8>, after: Seq<u8>, left_framebuffer_offset: u32) -> bool {
    &&& before.len() == VRAM_SIZE
    &&& after.len() == VRAM_SIZE
    &&& forall|i: int|
        0 <= i < VRAM_SIZE && !in_framebuffer_pair(left_framebuffer_offset, i) ==> after[i]
            == before[i]
}

/// Whether a framebuffer offset is that of the left or the right framebuffer
/// of the pair.
pub open spec fn of_pair(left_framebuffer_offset: u32, framebuffer_offset: u32) -> bool {
    &&& left_framebuffer_offset == 0 || left_framebuffer_offset == 0x0000_8000
    &&& framebuffer_offset == left_framebuffer_offset || framebuffer_offset
        == left_framebuffer_offset + RIGHT_FRAMEBUFFER_DISTANCE
}

pub proof fn lemma_pixel_confined(
    vram: Seq<u8>,
    regs: VipRegisters,
    w: Window,
    eye: Eye,
    left: u32,
    framebuffer_offset: u32,
    pixel_x: u32,
    pixel_y: u32,
)
    requires
        vram.len() == VRAM_SIZE,
        of_pair(left, framebuffer_offset),
        pixel_x < FRAMEBUFFER_RESOLUTION_X,
        pixel_y < FRAMEBUFFER_RESOLUTION_Y,
    ensures
        confined(vram, plot_pixel(vram, regs, w, eye, framebuffer_offset, pixel_x, pixel_y), left),
{
    reveal(plot_window_pixel);
    reveal(plot_affine_pixel);
    reveal(plot_background_pixel);
    reveal(plot_char_pixel);
    assert(confined(
        vram,
        plot_window_pixel(vram, regs, w, eye, framebuffer_offset, pixel_x, pixel_y),
        left,
    ));
    assert(confined(
        vram,
        plot_affine_pixel(vram, regs, w, eye, framebuffer_offset, pixel_x, pixel_y),
        left,
    ));
}

pub proof fn lemma_pixels_confined(
    vram: Seq<u8>,
    regs: VipRegisters,
    w: Window,
    eye: Eye,
    left: u32,
    framebuffer_offset: u32,
    n: nat,
)
    requires
        vram.len() == VRAM_SIZE,
        of_pair(left, framebuffer_offset),
        n <= PIXELS_PER_FRAMEBUFFER,
    ensures
        confined(vram, plot_pixels(vram, regs, w, eye, framebuffer_offset, n), left),
    decreases n,
{
    if n > 0 {
        let k = (n - 1) as nat;
        lemma_pixels_confined(vram, regs, w, eye, left, framebuffer_offset, k);
        let before = plot_pixels(vram, regs, w, eye, framebuffer_offset, k);
        lemma_pixel_confined(
            before,
            regs,
            w,
            eye,
            left,
            framebuffer_offset,
            (k % FRAMEBUFFER_RESOLUTION_X as nat) as u32,
            (k / FRAMEBUFFER_RESOLUTION_X as nat) as u32,
        );
    }
}

pub proof fn lemma_obj_pixels_confined(
    vram: Seq<u8>,
    regs: VipRegisters,
    obj: Obj,
    eye: Eye,
    left: u32,
    framebuffer_offset: u32,
    n: nat,
)
    requires
        vram.len() == VRAM_SIZE,
        of_pair(left, framebuffer_offset),
        n <= PIXELS_PER_CHAR,
    ensures
        confined(vram, plot_obj_pixels(vram, regs, obj, eye, framebuffer_offset, n), left),
    decreases n,
{
    reveal(plot_obj_pixel);
    reveal(plot_char_pixel);
    if n > 0 {
        let k = (n - 1) as nat;
        lemma_obj_pixels_confined(vram, regs, obj, eye, left, framebuffer_offset, k);
        let before = plot_obj_pixels(vram, regs, obj, eye, framebuffer_offset, k);
        assert(confined(
            before,
            plot_obj_pixel(before, regs, obj, eye, framebuffer_offset, k as u32),
            left,
        ));
    }
}

pub proof fn lemma_objs_confined(
    vram: Seq<u8>,
    regs: VipRegisters,
    eye: Eye,
    left: u32,
    framebuffer_offset: u32,
    start: u32,
    n: nat,
)
    requires
        vram.len() == VRAM_SIZE,
        of_pair(left, framebuffer_offset),
    ensures
        confined(vram, plot_objs(vram, regs, eye, framebuffer_offset, start, n), left),
    decreases n,
{
    reveal(plot_obj);
    if n > 0 {
        let k = (n - 1) as nat;
        lemma_objs_confined(vram, regs, eye, left, framebuffer_offset, start, k);
        let before = plot_objs(vram, regs, eye, framebuffer_offset, start, k);
        let index = (start - k) as u32;
        lemma_obj_pixels_confined(
            before,
            regs,
            obj_at(before, index),
            eye,
            left,
            framebuffer_offset,
            PIXELS_PER_CHAR as nat,
        );
        assert(confined(before, plot_obj(before, regs, index, eye, framebuffer_offset), left));
    }
}

pub proof fn lemma_window_confined(
    vram: Seq<u8>,
    regs: VipRegisters,
    w: Window,
    eye: Eye,
    group: Option<ObjGroup>,
    left: u32,
    framebuffer_offset: u32,
)
    requires
        vram.len() == VRAM_SIZE,
        of_pair(left, framebuffer_offset),
    ensures
        confined(vram, plot_window(vram, regs, w, eye, group, framebuffer_offset), left),
{
    reveal(plot_window);
    reveal(plot_obj_group);
    lemma_pixels_confined(
        vram,
        regs,
        w,
        eye,
        left,
        framebuffer_offset,
        PIXELS_PER_FRAMEBUFFER as nat,
    );
    match group {
        Some(g) => {
            lemma_objs_confined(
                vram,
                regs,
                eye,
                left,
                framebuffer_offset,
                obj_group_start(regs, g) as u32,
                (obj_group_start(regs, g) - obj_group_end(regs, g) + 1) as nat,
            );
            assert(confined(vram, plot_obj_group(vram, regs, g, eye, framebuffer_offset), left));
        },
        None => {},
    }
}

pub proof fn lemma_windows_confined(vram: Seq<u8>, regs: VipRegisters, left: u32, n: nat)
    requires
        vram.len() == VRAM_SIZE,
        left == 0 || left == 0x0000_8000,
        n <= WINDOW_COUNT,
    ensures
        confined(vram, plot_windows(vram, regs, left, n).vram, left),
    decreases n,
{
    if n > 0 {
        lemma_windows_confined(vram, regs, left, (n - 1) as nat);
        let before = plot_windows(vram, regs, left, (n - 1) as nat);
        let w = window_at(before.vram, (WINDOW_COUNT - n) as u32);
        let right = (left + RIGHT_FRAMEBUFFER_DISTANCE) as u32;
        lemma_window_confined(before.vram, regs, w, Eye::Left, before.group, left, left);
        let drawn = plot_window(before.vram, regs, w, Eye::Left, before.group, left);
        lemma_window_confined(drawn, regs, w, Eye::Right, before.group, left, right);
    }
}

/// A drawing period leaves video memory as it is outside the framebuffer pair
/// that is drawn to.
pub proof fn lemma_rasterized_confined(vram: Seq<u8>, regs: VipRegisters)
    requires
        vram.len() == VRAM_SIZE,
    ensures
        confined(vram, rasterized(vram, regs), drawn_framebuffer_offset(regs)),
{
    let left = drawn_framebuffer_offset(regs);
    let start = cleared(vram, left, regs.clear_color);
    assert(confined(vram, start, left));
    lemma_windows_confined(start, regs, left, WINDOW_COUNT as nat);
}

} // verus!
