//! The video image processor: 256 KiB of video memory, its registers, the
//! frame, drawing and display clocks, and the rasterizer.

pub mod confinement;
pub mod display;
pub mod mem_map;
pub mod painting;
pub mod raster;
pub mod regs;
pub mod timing;

use vstd::prelude::*;
use crate::bits::lemma_mask_bound_u16;
use crate::bits::lemma_mask_bound_u32;
use crate::sinks::frame_planes;
use crate::sinks::lemma_frame_planes_push;
use crate::sinks::Recorded;
use crate::sinks::Sink;
use crate::sinks::VideoFrame;
use crate::vip::display::display;
use crate::vip::mem_map::map_address;
use crate::vip::mem_map::mapped;
use crate::vip::mem_map::MappedAddress;
use crate::vip::raster::draw;
use crate::vip::raster::read_vram_halfword;
use crate::vip::raster::vram_halfword;
use crate::vip::raster::VRAM_HALFWORD_MASK;
use crate::vip::raster::VRAM_SIZE;
use crate::vip::regs::DisplayState;
use crate::vip::regs::DrawingState;
use crate::vip::regs::InterruptFlags;
use crate::vip::regs::VipRegisters;
use crate::vip::timing::advance_display;
use crate::vip::timing::advance_drawing;
use crate::vip::timing::advance_frame_clock;
use crate::vip::timing::cycle_events;
use crate::vip::timing::in_step;
use crate::vip::timing::VipView;

verus! {

/// The halfword that reads of the display-control register return: display
/// enable, which framebuffer is being displayed, scan ready, the frame clock
/// and sync enable.
pub open spec fn display_control(regs: VipRegisters) -> u16 {
    (if regs.display_enable { 0x0002u16 } else { 0 }) | (match regs.display_state {
        DisplayState::Idle => 0x0000u16,
        DisplayState::LeftFramebuffer => if regs.display_first_framebuffers {
            0x0004u16
        } else {
            0x0010u16
        },
        DisplayState::RightFramebuffer => if regs.display_first_framebuffers {
            0x0008u16
        } else {
            0x0020u16
        },
    }) | 0x0040u16 | (if regs.display_state is Idle { 0x0080u16 } else { 0 }) | (
    if regs.sync_enable { 0x0200u16 } else { 0 })
}

/// The halfword that reads of the drawing-control register return: drawing
/// enable and, during a drawing period, the framebuffer pair drawn to.
pub open spec fn drawing_control(regs: VipRegisters) -> u16 {
    (if regs.drawing_enable { 0x0002u16 } else { 0 }) | (
    if regs.drawing_state is Drawing && !regs.display_first_framebuffers {
        0x0004u16
    } else {
        0
    }) | (if regs.drawing_state is Drawing && regs.display_first_framebuffers {
        0x0008u16
    } else {
        0
    })
}

/// Video memory with the halfword at `addr` replaced, low byte first; the
/// address is brought into video memory and aligned as for reads.
pub open spec fn vram_with_halfword(vram: Seq<u8>, addr: u32, value: u16) -> Seq<u8> {
    let a = (addr & VRAM_HALFWORD_MASK) as int;
    vram.update(a, value as u8).update(a + 1, (value >> 8) as u8)
}

/// The registers after a halfword write to a register. Writes to
/// read-only registers change nothing. A 1 written to the interrupt-clear
/// register clears the pending bit in its place.
pub open spec fn write_register(
    regs: VipRegisters,
    register: MappedAddress,
    value: u16,
) -> VipRegisters {
    match register {
        MappedAddress::InterruptEnableReg => VipRegisters {
            interrupt_enable: InterruptFlags::of_bits(value),
            ..regs
        },
        MappedAddress::InterruptClearReg => VipRegisters {
            interrupt_pending: regs.interrupt_pending.without(InterruptFlags::of_bits(value)),
            ..regs
        },
        MappedAddress::DisplayControlWriteReg => VipRegisters {
            display_enable: (value & 0x0002) != 0,
            sync_enable: (value & 0x0020) != 0,
            ..regs
        },
        MappedAddress::LedBrightness1Reg => VipRegisters {
            led_brightness_1: value as u8,
            ..regs
        },
        MappedAddress::LedBrightness2Reg => VipRegisters {
            led_brightness_2: value as u8,
            ..regs
        },
        MappedAddress::LedBrightness3Reg => VipRegisters {
            led_brightness_3: value as u8,
            ..regs
        },
        MappedAddress::GameFrameControlReg => VipRegisters {
            game_frame_control: ((value & 0x001f) as u32 + 1) as u32,
            ..regs
        },
        MappedAddress::DrawingControlWriteReg => VipRegisters {
            drawing_enable: (value & 0x0002) != 0,
            ..regs
        },
        MappedAddress::ObjGroup0PointerReg => VipRegisters {
            obj_group_0_ptr: value & 0x03ff,
            ..regs
        },
        MappedAddress::ObjGroup1PointerReg => VipRegisters {
            obj_group_1_ptr: value & 0x03ff,
            ..regs
        },
        MappedAddress::ObjGroup2PointerReg => VipRegisters {
            obj_group_2_ptr: value & 0x03ff,
            ..regs
        },
        MappedAddress::ObjGroup3PointerReg => VipRegisters {
            obj_group_3_ptr: value & 0x03ff,
            ..regs
        },
        MappedAddress::BgPalette0Reg => VipRegisters { bg_palette_0: value as u8, ..regs },
        MappedAddress::BgPalette1Reg => VipRegisters { bg_palette_1: value as u8, ..regs },
        MappedAddress::BgPalette2Reg => VipRegisters { bg_palette_2: value as u8, ..regs },
        MappedAddress::BgPalette3Reg => VipRegisters { bg_palette_3: value as u8, ..regs },
        MappedAddress::ObjPalette0Reg => VipRegisters { obj_palette_0: value as u8, ..regs },
        MappedAddress::ObjPalette1Reg => VipRegisters { obj_palette_1: value as u8, ..regs },
        MappedAddress::ObjPalette2Reg => VipRegisters { obj_palette_2: value as u8, ..regs },
        MappedAddress::ObjPalette3Reg => VipRegisters { obj_palette_3: value as u8, ..regs },
        MappedAddress::ClearColorReg => VipRegisters {
            clear_color: (value & 0x0003) as u8,
            ..regs
        },
        _ => regs,
    }
}

pub fn write_to_register(regs: VipRegisters, register: MappedAddress, value: u16) -> (r:
    VipRegisters)
    requires
        regs.wf(),
    ensures
        r == write_register(regs, register, value),
        r.wf(),
{
    proof {
        lemma_mask_bound_u16(value, 0x03ff);
        lemma_mask_bound_u16(value, 0x001f);
        lemma_mask_bound_u16(value, 0x0003);
    }
    let mut r = regs;
    match register {
        MappedAddress::InterruptEnableReg => {
            r.interrupt_enable = InterruptFlags::from_bits(value);
        },
        MappedAddress::InterruptClearReg => {
            r.interrupt_pending = regs.interrupt_pending.clear(InterruptFlags::from_bits(value));
        },
        MappedAddress::DisplayControlWriteReg => {
            r.display_enable = (value & 0x0002) != 0;
            r.sync_enable = (value & 0x0020) != 0;
        },
        MappedAddress::LedBrightness1Reg => r.led_brightness_1 = value as u8,
        MappedAddress::LedBrightness2Reg => r.led_brightness_2 = value as u8,
        MappedAddress::LedBrightness3Reg => r.led_brightness_3 = value as u8,
        MappedAddress::GameFrameControlReg => {
            r.game_frame_control = (value & 0x001f) as u32 + 1;
        },
        MappedAddress::DrawingControlWriteReg => {
            r.drawing_enable = (value & 0x0002) != 0;
        },
        MappedAddress::ObjGroup0PointerReg => r.obj_group_0_ptr = value & 0x03ff,
        MappedAddress::ObjGroup1PointerReg => r.obj_group_1_ptr = value & 0x03ff,
        MappedAddress::ObjGroup2PointerReg => r.obj_group_2_ptr = value & 0x03ff,
        MappedAddress::ObjGroup3PointerReg => r.obj_group_3_ptr = value & 0x03ff,
        MappedAddress::BgPalette0Reg => r.bg_palette_0 = value as u8,
        MappedAddress::BgPalette1Reg => r.bg_palette_1 = value as u8,
        MappedAddress::BgPalette2Reg => r.bg_palette_2 = value as u8,
        MappedAddress::BgPalette3Reg => r.bg_palette_3 = value as u8,
        MappedAddress::ObjPalette0Reg => r.obj_palette_0 = value as u8,
        MappedAddress::ObjPalette1Reg => r.obj_palette_1 = value as u8,
        MappedAddress::ObjPalette2Reg => r.obj_palette_2 = value as u8,
        MappedAddress::ObjPalette3Reg => r.obj_palette_3 = value as u8,
        MappedAddress::ClearColorReg => r.clear_color = (value & 0x0003) as u8,
        _ => {},
    }
    r
}

impl VipView {
    /// What a halfword read returns. Bit 0 of the address is ignored;
    /// write-only registers and unmapped addresses read as 0.
    pub open spec fn read_halfword(self, addr: u32) -> u16 {
        match mapped(addr & 0xffff_fffe) {
            MappedAddress::InterruptPendingReg => self.regs.interrupt_pending.bits(),
            MappedAddress::InterruptEnableReg => self.regs.interrupt_enable.bits(),
            MappedAddress::InterruptClearReg => 0,
            MappedAddress::DisplayControlReadReg => display_control(self.regs),
            MappedAddress::DisplayControlWriteReg => 0,
            MappedAddress::LedBrightness1Reg => self.regs.led_brightness_1 as u16,
            MappedAddress::LedBrightness2Reg => self.regs.led_brightness_2 as u16,
            MappedAddress::LedBrightness3Reg => self.regs.led_brightness_3 as u16,
            MappedAddress::LedBrightnessIdleReg => 0,
            MappedAddress::GameFrameControlReg => (self.regs.game_frame_control - 1) as u16,
            MappedAddress::DrawingControlReadReg => drawing_control(self.regs),
            MappedAddress::DrawingControlWriteReg => 0,
            MappedAddress::ObjGroup0PointerReg => self.regs.obj_group_0_ptr,
            MappedAddress::ObjGroup1PointerReg => self.regs.obj_group_1_ptr,
            MappedAddress::ObjGroup2PointerReg => self.regs.obj_group_2_ptr,
            MappedAddress::ObjGroup3PointerReg => self.regs.obj_group_3_ptr,
            MappedAddress::BgPalette0Reg => self.regs.bg_palette_0 as u16,
            MappedAddress::BgPalette1Reg => self.regs.bg_palette_1 as u16,
            MappedAddress::BgPalette2Reg => self.regs.bg_palette_2 as u16,
            MappedAddress::BgPalette3Reg => self.regs.bg_palette_3 as u16,
            MappedAddress::ObjPalette0Reg => self.regs.obj_palette_0 as u16,
            MappedAddress::ObjPalette1Reg => self.regs.obj_palette_1 as u16,
            MappedAddress::ObjPalette2Reg => self.regs.obj_palette_2 as u16,
            MappedAddress::ObjPalette3Reg => self.regs.obj_palette_3 as u16,
            MappedAddress::ClearColorReg => self.regs.clear_color as u16,
            MappedAddress::Vram(offset) => vram_halfword(self.vram, offset),
            MappedAddress::Unrecognized(_) => 0,
        }
    }

    /// The state after a halfword write. Bit 0 of the address is ignored; a
    /// write to an unmapped address changes nothing.
    pub open spec fn write_halfword(self, addr: u32, value: u16) -> VipView {
        match mapped(addr & 0xffff_fffe) {
            MappedAddress::Vram(offset) => VipView {
                vram: vram_with_halfword(self.vram, offset, value),
                regs: self.regs,
            },
            register => VipView {
                vram: self.vram,
                regs: write_register(self.regs, register, value),
            },
        }
    }

    /// What a byte read returns: the byte of video memory, or the low byte of
    /// a register; unmapped addresses, and so the high bytes of registers,
    /// read as 0.
    pub open spec fn read_byte(self, addr: u32) -> u8 {
        match mapped(addr) {
            MappedAddress::Vram(offset) => self.vram[offset as int],
            MappedAddress::Unrecognized(_) => 0,
            _ => if addr & 0x01 == 0 {
                self.read_halfword(addr & 0xffff_fffe) as u8
            } else {
                (self.read_halfword(addr & 0xffff_fffe) >> 8) as u8
            },
        }
    }

    /// The state after a byte write: the byte of video memory is replaced, or
    /// the register is written with the byte as its low byte; a write to an
    /// unmapped address, and so to the high byte of a register, changes
    /// nothing.
    pub open spec fn write_byte(self, addr: u32, value: u8) -> VipView {
        match mapped(addr) {
            MappedAddress::Vram(offset) => VipView {
                vram: self.vram.update(offset as int, value),
                regs: self.regs,
            },
            MappedAddress::Unrecognized(_) => self,
            _ => self.write_halfword(
                addr & 0xffff_fffe,
                if addr & 0x01 == 0 {
                    value as u16
                } else {
                    (value as u16) << 8
                },
            ),
        }
    }

    /// The state after power-on: video memory is all ones.
    pub open spec fn initial() -> VipView {
        VipView { vram: Seq::new(VRAM_SIZE as nat, |i: int| 0xffu8), regs: VipRegisters::initial() }
    }
}

pub struct Vip {
    vram: Vec<u8>,
    regs: VipRegisters,
}

impl View for Vip {
    type V = VipView;

    closed spec fn view(&self) -> VipView {
        VipView { vram: self.vram@, regs: self.regs }
    }
}

impl Vip {
    pub fn new() -> (vip: Vip)
        ensures
            vip@ == VipView::initial(),
            vip@.wf(),
    {
        let vram = vec![0xffu8; VRAM_SIZE];
        assert(vram@ =~= VipView::initial().vram);
        Vip { vram, regs: VipRegisters::new() }
    }

    pub fn read_byte(&self, addr: u32) -> (r: u8)
        requires
            self@.wf(),
        ensures
            r == self@.read_byte(addr),
    {
        match map_address(addr) {
            MappedAddress::Vram(offset) => self.vram[offset as usize],
            MappedAddress::Unrecognized(_) => 0,
            _ => {
                let halfword = self.read_halfword(addr & 0xffff_fffe);
                if (addr & 0x01) == 0 {
                    halfword as u8
                } else {
                    (halfword >> 8) as u8
                }
            },
        }
    }

    pub fn write_byte(&mut self, addr: u32, value: u8)
        requires
            old(self)@.wf(),
        ensures
            final(self)@ == old(self)@.write_byte(addr, value),
            final(self)@.wf(),
    {
        match map_address(addr) {
            MappedAddress::Vram(offset) => {
                self.vram[offset as usize] = value;
            },
            MappedAddress::Unrecognized(_) => {},
            _ => {
                let halfword: u16 = if (addr & 0x01) == 0 {
                    value as u16
                } else {
                    (value as u16) << 8
                };
                self.write_halfword(addr & 0xffff_fffe, halfword);
            },
        }
    }

    pub fn read_halfword(&self, addr: u32) -> (r: u16)
        requires
            self@.wf(),
        ensures
            r == self@.read_halfword(addr),
    {
        let addr = addr & 0xffff_fffe;
        match map_address(addr) {
            MappedAddress::InterruptPendingReg => self.regs.interrupt_pending.to_bits(),
            MappedAddress::InterruptEnableReg => self.regs.interrupt_enable.to_bits(),
            MappedAddress::InterruptClearReg => 0,
            MappedAddress::DisplayControlReadReg => {
                let frame_clock = match self.regs.display_state {
                    DisplayState::Idle => true,
                    _ => false,
                };
                (if self.regs.display_enable { 0x0002u16 } else { 0 }) | (
                match self.regs.display_state {
                    DisplayState::Idle => 0x0000u16,
                    DisplayState::LeftFramebuffer => if self.regs.display_first_framebuffers {
                        0x0004u16
                    } else {
                        0x0010u16
                    },
                    DisplayState::RightFramebuffer => if self.regs.display_first_framebuffers {
                        0x0008u16
                    } else {
                        0x0020u16
                    },
                }) | 0x0040u16 | (if frame_clock { 0x0080u16 } else { 0 }) | (
                if self.regs.sync_enable { 0x0200u16 } else { 0 })
            },
            MappedAddress::DisplayControlWriteReg => 0,
            MappedAddress::LedBrightness1Reg => self.regs.led_brightness_1 as u16,
            MappedAddress::LedBrightness2Reg => self.regs.led_brightness_2 as u16,
            MappedAddress::LedBrightness3Reg => self.regs.led_brightness_3 as u16,
            MappedAddress::LedBrightnessIdleReg => 0,
            MappedAddress::GameFrameControlReg => (self.regs.game_frame_control - 1) as u16,
            MappedAddress::DrawingControlReadReg => {
                let drawing = match self.regs.drawing_state {
                    DrawingState::Drawing => true,
                    DrawingState::Idle => false,
                };
                let draw_to_first_framebuffers = !self.regs.display_first_framebuffers;
                (if self.regs.drawing_enable { 0x0002u16 } else { 0 }) | (
                if drawing && draw_to_first_framebuffers {
                    0x0004u16
                } else {
                    0
                }) | (if drawing && !draw_to_first_framebuffers {
                    0x0008u16
                } else {
                    0
                })
            },
            MappedAddress::DrawingControlWriteReg => 0,
            MappedAddress::ObjGroup0PointerReg => self.regs.obj_group_0_ptr,
            MappedAddress::ObjGroup1PointerReg => self.regs.obj_group_1_ptr,
            MappedAddress::ObjGroup2PointerReg => self.regs.obj_group_2_ptr,
            MappedAddress::ObjGroup3PointerReg => self.regs.obj_group_3_ptr,
            MappedAddress::BgPalette0Reg => self.regs.bg_palette_0 as u16,
            MappedAddress::BgPalette1Reg => self.regs.bg_palette_1 as u16,
            MappedAddress::BgPalette2Reg => self.regs.bg_palette_2 as u16,
            MappedAddress::BgPalette3Reg => self.regs.bg_palette_3 as u16,
            MappedAddress::ObjPalette0Reg => self.regs.obj_palette_0 as u16,
            MappedAddress::ObjPalette1Reg => self.regs.obj_palette_1 as u16,
            MappedAddress::ObjPalette2Reg => self.regs.obj_palette_2 as u16,
            MappedAddress::ObjPalette3Reg => self.regs.obj_palette_3 as u16,
            MappedAddress::ClearColorReg => self.regs.clear_color as u16,
            MappedAddress::Vram(offset) => read_vram_halfword(&self.vram, offset),
            MappedAddress::Unrecognized(_) => 0,
        }
    }

    pub fn write_halfword(&mut self, addr: u32, value: u16)
        requires
            old(self)@.wf(),
        ensures
            final(self)@ == old(self)@.write_halfword(addr, value),
            final(self)@.wf(),
    {
        let addr = addr & 0xffff_fffe;
        match map_address(addr) {
            MappedAddress::Vram(offset) => {
                proof {
                    lemma_mask_bound_u32(offset, VRAM_HALFWORD_MASK);
                }
                let a = (offset & VRAM_HALFWORD_MASK) as usize;
                self.vram[a] = value as u8;
                self.vram[a + 1] = (value >> 8) as u8;
            },
            register => {
                self.regs = write_to_register(self.regs, register, value);
            },
        }
    }

    /// Advances the processor by one CPU cycle and says whether the cycle
    /// raised the interrupt.
    fn cycle<S: Sink<VideoFrame>>(
        &mut self,
        video_frame_sink: &mut Recorded<VideoFrame, S>,
    ) -> (raise_interrupt: bool)
        requires
            old(self)@.wf(),
        ensures
            final(self)@ == old(self)@.after_cycle(),
            final(self)@.wf(),
            raise_interrupt == old(self)@.raises_in_cycle(),
            frame_planes(final(video_frame_sink).appended()) == (
            match old(self)@.frame_of_cycle() {
                Some(frame) => frame_planes(old(video_frame_sink).appended()).push(frame),
                None => frame_planes(old(video_frame_sink).appended()),
            }),
    {
        proof {
            reveal(VipView::after_cycle);
            reveal(VipView::frame_of_cycle);
            reveal(VipView::raises_in_cycle);
        }
        let clocked = advance_frame_clock(self.regs);
        let (drawn, drawing_ended) = advance_drawing(clocked);
        if drawing_ended {
            draw(&mut self.vram, &clocked);
        }
        let (shown, display_ended) = advance_display(drawn);
        if display_ended {
            let frame = display(&self.vram, &drawn);
            proof {
                lemma_frame_planes_push(video_frame_sink.appended(), frame);
            }
            video_frame_sink.append(frame);
        }
        let events = cycle_events(&self.regs, drawing_ended, display_ended);
        let raise_interrupt = events.intersects(&self.regs.interrupt_enable);
        self.regs = shown;
        raise_interrupt
    }

    /// Advances the processor by the given number of CPU cycles, pushes the
    /// frames whose display ends in them to the sink, and says whether one of
    /// the cycles raised the interrupt.
    pub fn cycles<S: Sink<VideoFrame>>(
        &mut self,
        cycles: usize,
        video_frame_sink: &mut Recorded<VideoFrame, S>,
    ) -> (raise_interrupt: bool)
        requires
            old(self)@.wf(),
        ensures
            final(self)@ == old(self)@.after_cycles(cycles as nat),
            final(self)@.wf(),
            frame_planes(final(video_frame_sink).appended()) == frame_planes(
                old(video_frame_sink).appended(),
            ) + old(self)@.frames_of_cycles(cycles as nat),
            raise_interrupt == old(self)@.raises_interrupt(cycles as nat),
    {
        let ghost start = self@;
        let ghost frames_before = frame_planes(video_frame_sink.appended());
        assert(frames_before + start.frames_of_cycles(0) =~= frames_before);
        let mut raise_interrupt = false;
        let mut done: usize = 0;
        while done < cycles
            invariant
                done <= cycles,
                self@ == start.after_cycles(done as nat),
                self@.wf(),
                frame_planes(video_frame_sink.appended()) == frames_before
                    + start.frames_of_cycles(done as nat),
                raise_interrupt == start.raises_interrupt(done as nat),
            decreases cycles - done,
        {
            let ghost frames = start.frames_of_cycles(done as nat);
            if self.cycle(video_frame_sink) {
                raise_interrupt = true;
            }
            proof {
                match start.after_cycles(done as nat).frame_of_cycle() {
                    Some(frame) => {
                        assert((frames_before + frames).push(frame) =~= frames_before
                            + frames.push(frame));
                    },
                    None => {},
                }
            }
            done = done + 1;
        }
        raise_interrupt
    }
}

/// Facts about halfword addresses of video memory.
pub proof fn lemma_vram_halfword_address(offset: u32)
    by (bit_vector)
    ensures
        (offset & 0xffff_fffe) & 0xffff_fffe == offset & 0xffff_fffe,
        ((offset & 0xffff_fffe) & 0x0007_ffff) & 0x0003_fffe == (offset & 0xffff_fffe)
            & 0x0003_fffe,
        (offset & 0xffff_fffe) & 0x0007_ffff <= 0x0003_ffff ==> ((offset & 0xffff_fffe)
            & 0x0007_ffff) & 0x0003_fffe == (offset & 0xffff_fffe) & 0x0007_ffff,
        (offset & 0x0003_fffe) + 1 <= 0x0003_ffff,
{
}

/// A halfword that was written to video memory is the halfword that is read
/// there.
pub proof fn lemma_halfword_round_trip(s: VipView, offset: u32, value: u16)
    requires
        s.wf(),
        mapped(offset & 0xffff_fffe) is Vram,
    ensures
        s.write_halfword(offset, value).read_halfword(offset) == value,
        s.write_halfword(offset, value).wf(),
        s.write_halfword(offset, value).regs == s.regs,
{
    lemma_vram_halfword_address(offset);
    crate::bits::lemma_halfword_of_bytes(value);
    let vram_offset = mapped(offset & 0xffff_fffe)->Vram_0;
    lemma_vram_halfword_address(vram_offset);
}

/// Facts about the halfword addresses of a word of video memory.
pub proof fn lemma_vram_word_address(offset: u32)
    by (bit_vector)
    requires
        offset & 0x03 == 0,
        offset <= 0x00ff_ffff,
        offset & 0x0007_ffff <= 0x0003_ffff,
    ensures
        offset & 0xffff_fffe == offset,
        ((offset + 2) as u32) & 0xffff_fffe == offset + 2,
        ((offset + 2) as u32) & 0x0007_ffff == (offset & 0x0007_ffff) + 2,
        (offset & 0x0007_ffff) + 2 <= 0x0003_fffe,
        (offset & 0x0007_ffff) & 0x0003_fffe == offset & 0x0007_ffff,
        (((offset & 0x0007_ffff) + 2) as u32) & 0x0003_fffe == (offset & 0x0007_ffff) + 2,
{
}

/// The two halfwords that were written to a word of video memory are the
/// halfwords that are read there.
pub proof fn lemma_word_round_trip(s: VipView, offset: u32, value: u32)
    requires
        s.wf(),
        offset & 0x03 == 0,
        offset <= 0x00ff_ffff,
        mapped(offset) is Vram,
    ensures
        ({
            let after = s.write_halfword(offset, value as u16).write_halfword(
                (offset + 2) as u32,
                (value >> 16) as u16,
            );
            &&& after.read_halfword(offset) == value as u16
            &&& after.read_halfword((offset + 2) as u32) == (value >> 16) as u16
        }),
{
    lemma_vram_word_address(offset);
    crate::bits::lemma_halfword_of_bytes(value as u16);
    crate::bits::lemma_halfword_of_bytes((value >> 16) as u16);
}

/// A write keeps the state well-formed and the clocks in step: registers
/// cannot reach the counters.
pub proof fn lemma_write_keeps_clocks(s: VipView, addr: u32, value: u16)
    requires
        s.wf(),
    ensures
        s.write_halfword(addr, value).wf(),
        in_step(s.regs) ==> in_step(s.write_halfword(addr, value).regs),
{
    lemma_mask_bound_u16(value, 0x03ff);
    lemma_mask_bound_u16(value, 0x001f);
    lemma_mask_bound_u16(value, 0x0003);
    match mapped(addr & 0xffff_fffe) {
        MappedAddress::Vram(offset) => {
            lemma_vram_halfword_address(offset);
        },
        _ => {},
    }
}

} // verus!
