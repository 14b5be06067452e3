//! The bus: it decodes addresses, routes reads and writes to the components
//! and hands every component the CPU cycles that pass.

use vstd::prelude::*;
use crate::game_pad::Button;
use crate::game_pad::GamePad;
use crate::game_pad::GamePadState;
use crate::link_port::LinkPort;
use crate::link_port::LinkPortState;
use crate::mem;
use crate::mem_map::map_address;
use crate::mem_map::mapped;
use crate::mem_map::BusError;
use crate::mem_map::MappedAddress;
use crate::rom::valid_rom_size;
use crate::rom::Rom;
use crate::sinks::frame_planes;
use crate::sinks::AudioFrame;
use crate::sinks::Recorded;
use crate::sinks::Sink;
use crate::sinks::VideoFrame;
use crate::sram::valid_sram_size;
use crate::sram::Sram;
use crate::timer::Timer;
use crate::timer::TimerState;
use crate::vip::timing::VipView;
use crate::vip::Vip;
use crate::vsu::Vsu;
use crate::vsu::VsuState;
use crate::wram::Wram;
use crate::wram::WRAM_SIZE;

verus! {

/// The vector of the timer's interrupt.
pub const TIMER_INTERRUPT_VECTOR: u16 = 0xfe10;

/// The vector of the video image processor's interrupt.
pub const VIP_INTERRUPT_VECTOR: u16 = 0xfe40;

/// Everything behind the bus.
pub struct InterconnectView {
    pub rom: Seq<u8>,
    pub wram: Seq<u8>,
    pub sram: Seq<u8>,
    pub vip: VipView,
    pub vsu: VsuState,
    pub timer: TimerState,
    pub game_pad: GamePadState,
    pub link_port: LinkPortState,
}

impl InterconnectView {
    /// Everything behind the bus at power-on, around a ROM and a cartridge
    /// RAM: work RAM all 0xff, and the video processor, the sound unit, the
    /// timer, the game pad and the link port in their power-on states.
    pub open spec fn initial(rom: Seq<u8>, sram: Seq<u8>) -> InterconnectView {
        InterconnectView {
            rom,
            wram: Seq::new(WRAM_SIZE as nat, |i: int| 0xffu8),
            sram,
            vip: VipView::initial(),
            vsu: VsuState::initial(),
            timer: TimerState::initial(),
            game_pad: GamePadState::initial(),
            link_port: LinkPortState::initial(),
        }
    }

    pub open spec fn wf(self) -> bool {
        &&& valid_rom_size(self.rom.len())
        &&& self.wram.len() == WRAM_SIZE
        &&& valid_sram_size(self.sram.len())
        &&& self.vip.wf()
        &&& self.vsu.wf()
        &&& self.timer.wf()
    }

    /// What a register reads as. A register is a byte wide; the wait-control
    /// register reads as 0.
    pub open spec fn read_register(self, register: MappedAddress) -> u8 {
        match register {
            MappedAddress::LinkControlReg => self.link_port.control,
            MappedAddress::AuxLinkReg => self.link_port.aux,
            MappedAddress::LinkTransmitDataReg => self.link_port.transmit_data,
            MappedAddress::LinkReceiveDataReg => self.link_port.receive_data,
            MappedAddress::GamePadInputLowReg => self.game_pad.latched as u8,
            MappedAddress::GamePadInputHighReg => (self.game_pad.latched >> 8) as u8,
            MappedAddress::TimerCounterReloadLowReg => self.timer.counter as u8,
            MappedAddress::TimerCounterReloadHighReg => (self.timer.counter >> 8) as u8,
            MappedAddress::TimerControlReg => self.timer.control(),
            MappedAddress::GamePadInputControlReg => self.game_pad.control,
            _ => 0,
        }
    }

    /// The state after a byte was written to a register. Writes to the link
    /// port's receive register, to the game pad's data registers and to the
    /// wait-control register change nothing.
    pub open spec fn write_register(self, register: MappedAddress, value: u8) -> InterconnectView {
        match register {
            MappedAddress::LinkControlReg => InterconnectView {
                link_port: LinkPortState { control: value, ..self.link_port },
                ..self
            },
            MappedAddress::AuxLinkReg => InterconnectView {
                link_port: LinkPortState { aux: value, ..self.link_port },
                ..self
            },
            MappedAddress::LinkTransmitDataReg => InterconnectView {
                link_port: LinkPortState { transmit_data: value, ..self.link_port },
                ..self
            },
            MappedAddress::TimerCounterReloadLowReg => InterconnectView {
                timer: self.timer.with_reload_low(value),
                ..self
            },
            MappedAddress::TimerCounterReloadHighReg => InterconnectView {
                timer: self.timer.with_reload_high(value),
                ..self
            },
            MappedAddress::TimerControlReg => InterconnectView {
                timer: self.timer.with_control(value),
                ..self
            },
            MappedAddress::GamePadInputControlReg => InterconnectView {
                game_pad: self.game_pad.with_control(value),
                ..self
            },
            _ => self,
        }
    }

    /// What a byte read returns, or the bus error of an unmapped address.
    /// The sound unit and the cartridge expansion read as 0.
    pub open spec fn read_byte(self, addr: u32) -> Result<u8, BusError> {
        match mapped(addr) {
            Ok(MappedAddress::Vip(offset)) => Ok(self.vip.read_byte(offset)),
            Ok(MappedAddress::Vsu(_)) => Ok(0),
            Ok(MappedAddress::CartridgeExpansion(_)) => Ok(0),
            Ok(MappedAddress::Wram(offset)) => Ok(mem::byte_at(self.wram, offset)),
            Ok(MappedAddress::CartridgeRam(offset)) => Ok(mem::byte_at(self.sram, offset)),
            Ok(MappedAddress::CartridgeRom(offset)) => Ok(mem::byte_at(self.rom, offset)),
            Ok(register) => Ok(self.read_register(register)),
            Err(e) => Err(e),
        }
    }

    /// What a halfword read returns, or the bus error of an unmapped
    /// address. Bit 0 of the address is ignored; a register reads as its byte.
    pub open spec fn read_halfword(self, addr: u32) -> Result<u16, BusError> {
        match mapped(addr & 0xffff_fffe) {
            Ok(MappedAddress::Vip(offset)) => Ok(self.vip.read_halfword(offset)),
            Ok(MappedAddress::Vsu(_)) => Ok(0),
            Ok(MappedAddress::CartridgeExpansion(_)) => Ok(0),
            Ok(MappedAddress::Wram(offset)) => Ok(mem::halfword_at(self.wram, offset)),
            Ok(MappedAddress::CartridgeRam(offset)) => Ok(mem::halfword_at(self.sram, offset)),
            Ok(MappedAddress::CartridgeRom(offset)) => Ok(mem::halfword_at(self.rom, offset)),
            Ok(register) => Ok(self.read_register(register) as u16),
            Err(e) => Err(e),
        }
    }

    /// What a word read returns, or the bus error of an unmapped address.
    /// Bits 0 and 1 of the address are ignored; a register reads as its byte;
    /// a word of the video image processor is two halfword reads, the low
    /// halfword first.
    pub open spec fn read_word(self, addr: u32) -> Result<u32, BusError> {
        match mapped(addr & 0xffff_fffc) {
            Ok(MappedAddress::Vip(offset)) => Ok(
                (self.vip.read_halfword(offset) as u32) | ((self.vip.read_halfword(
                    (offset + 2) as u32,
                ) as u32) << 16),
            ),
            Ok(MappedAddress::Vsu(_)) => Ok(0),
            Ok(MappedAddress::CartridgeExpansion(_)) => Ok(0),
            Ok(MappedAddress::Wram(offset)) => Ok(mem::word_at(self.wram, offset)),
            Ok(MappedAddress::CartridgeRam(offset)) => Ok(mem::word_at(self.sram, offset)),
            Ok(MappedAddress::CartridgeRom(offset)) => Ok(mem::word_at(self.rom, offset)),
            Ok(register) => Ok(self.read_register(register) as u32),
            Err(e) => Err(e),
        }
    }

    /// The state after a byte write; the write fails with a bus error at an
    /// unmapped address. Writes to the ROM and to the cartridge expansion
    /// change nothing.
    pub open spec fn write_byte(self, addr: u32, value: u8) -> Result<InterconnectView, BusError> {
        match mapped(addr) {
            Ok(MappedAddress::Vip(offset)) => Ok(
                InterconnectView { vip: self.vip.write_byte(offset, value), ..self },
            ),
            Ok(MappedAddress::Vsu(offset)) => Ok(
                InterconnectView { vsu: self.vsu.write_byte(offset, value), ..self },
            ),
            Ok(MappedAddress::CartridgeExpansion(_)) => Ok(self),
            Ok(MappedAddress::Wram(offset)) => Ok(
                InterconnectView { wram: mem::with_byte(self.wram, offset, value), ..self },
            ),
            Ok(MappedAddress::CartridgeRam(offset)) => Ok(
                InterconnectView { sram: mem::with_byte(self.sram, offset, value), ..self },
            ),
            Ok(MappedAddress::CartridgeRom(_)) => Ok(self),
            Ok(register) => Ok(self.write_register(register, value)),
            Err(e) => Err(e),
        }
    }

    /// The state after a halfword write; the write fails with a bus error at
    /// an unmapped address. Bit 0 of the address is ignored; a register and
    /// the sound unit take the low byte.
    pub open spec fn write_halfword(self, addr: u32, value: u16) -> Result<
        InterconnectView,
        BusError,
    > {
        match mapped(addr & 0xffff_fffe) {
            Ok(MappedAddress::Vip(offset)) => Ok(
                InterconnectView { vip: self.vip.write_halfword(offset, value), ..self },
            ),
            Ok(MappedAddress::Vsu(offset)) => Ok(
                InterconnectView { vsu: self.vsu.write_byte(offset, value as u8), ..self },
            ),
            Ok(MappedAddress::CartridgeExpansion(_)) => Ok(self),
            Ok(MappedAddress::Wram(offset)) => Ok(
                InterconnectView { wram: mem::with_halfword(self.wram, offset, value), ..self },
            ),
            Ok(MappedAddress::CartridgeRam(offset)) => Ok(
                InterconnectView { sram: mem::with_halfword(self.sram, offset, value), ..self },
            ),
            Ok(MappedAddress::CartridgeRom(_)) => Ok(self),
            Ok(register) => Ok(self.write_register(register, value as u8)),
            Err(e) => Err(e),
        }
    }

    /// The state after a word write; the write fails with a bus error at an
    /// unmapped address. Bits 0 and 1 of the address are ignored; a register
    /// and the sound unit take the lowest byte; a word for the video image
    /// processor is two halfword writes, the low halfword first.
    pub open spec fn write_word(self, addr: u32, value: u32) -> Result<InterconnectView, BusError> {
        match mapped(addr & 0xffff_fffc) {
            Ok(MappedAddress::Vip(offset)) => Ok(
                InterconnectView {
                    vip: self.vip.write_halfword(offset, value as u16).write_halfword(
                        (offset + 2) as u32,
                        (value >> 16) as u16,
                    ),
                    ..self
                },
            ),
            Ok(MappedAddress::Vsu(offset)) => Ok(
                InterconnectView { vsu: self.vsu.write_byte(offset, value as u8), ..self },
            ),
            Ok(MappedAddress::CartridgeExpansion(_)) => Ok(self),
            Ok(MappedAddress::Wram(offset)) => Ok(
                InterconnectView { wram: mem::with_word(self.wram, offset, value), ..self },
            ),
            Ok(MappedAddress::CartridgeRam(offset)) => Ok(
                InterconnectView { sram: mem::with_word(self.sram, offset, value), ..self },
            ),
            Ok(MappedAddress::CartridgeRom(_)) => Ok(self),
            Ok(register) => Ok(self.write_register(register, value as u8)),
            Err(e) => Err(e),
        }
    }

    /// The state `n` CPU cycles later: the timer, the video image processor
    /// and the sound unit advance; memory, the game pad and the link port
    /// stay.
    pub open spec fn after_cycles(self, n: nat) -> InterconnectView {
        InterconnectView {
            timer: self.timer.after_cycles(n),
            vip: self.vip.after_cycles(n),
            vsu: self.vsu.after_cycles(n),
            ..self
        }
    }

    /// The interrupt that the bus reports for the next `n` CPU cycles: the
    /// video image processor's where it raises one in them, else the timer's
    /// where it raises one in them.
    pub open spec fn interrupt(self, n: nat) -> Option<u16> {
        if self.vip.raises_interrupt(n) {
            Some(VIP_INTERRUPT_VECTOR)
        } else if self.timer.raises_interrupt(n) {
            Some(TIMER_INTERRUPT_VECTOR)
        } else {
            None
        }
    }
}

pub struct Interconnect {
    rom: Rom,
    wram: Wram,
    sram: Sram,
    vip: Vip,
    vsu: Vsu,
    timer: Timer,
    game_pad: GamePad,
    link_port: LinkPort,
}

impl View for Interconnect {
    type V = InterconnectView;

    closed spec fn view(&self) -> InterconnectView {
        InterconnectView {
            rom: self.rom@,
            wram: self.wram@,
            sram: self.sram@,
            vip: self.vip@,
            vsu: self.vsu@,
            timer: self.timer@,
            game_pad: self.game_pad@,
            link_port: self.link_port@,
        }
    }
}

impl Interconnect {
    pub fn new(rom: Rom, sram: Sram) -> (interconnect: Interconnect)
        ensures
            interconnect@ == InterconnectView::initial(rom@, sram@),
            interconnect@.wf(),
    {
        // Both report a valid size, which the bus relies on.
        let _ = rom.size();
        let _ = sram.bytes();
        let wram = Wram::new();
        Interconnect {
            rom,
            wram,
            sram,
            vip: Vip::new(),
            vsu: Vsu::new(),
            timer: Timer::new(),
            game_pad: GamePad::new(),
            link_port: LinkPort::new(),
        }
    }

    /// The contents of cartridge RAM, for the host to keep.
    pub fn sram_bytes(&self) -> (r: &Vec<u8>)
        ensures
            r@ == self@.sram,
    {
        self.sram.bytes()
    }

    /// Tells the game pad that the host pressed or released a button.
    pub fn set_button_pressed(&mut self, button: Button, pressed: bool)
        ensures
            final(self)@ == (InterconnectView {
                game_pad: old(self)@.game_pad.with_button(button, pressed),
                ..old(self)@
            }),
    {
        self.game_pad.set_button_pressed(button, pressed);
    }

    fn read_register(&self, register: MappedAddress) -> (r: u8)
        ensures
            r == self@.read_register(register),
    {
        match register {
            MappedAddress::LinkControlReg => self.link_port.read_control_reg(),
            MappedAddress::AuxLinkReg => self.link_port.read_aux_reg(),
            MappedAddress::LinkTransmitDataReg => self.link_port.read_transmit_data_reg(),
            MappedAddress::LinkReceiveDataReg => self.link_port.read_receive_data_reg(),
            MappedAddress::GamePadInputLowReg => self.game_pad.read_input_low_reg(),
            MappedAddress::GamePadInputHighReg => self.game_pad.read_input_high_reg(),
            MappedAddress::TimerCounterReloadLowReg => self.timer.read_counter_reload_low_reg(),
            MappedAddress::TimerCounterReloadHighReg => self.timer.read_counter_reload_high_reg(),
            MappedAddress::TimerControlReg => self.timer.read_control_reg(),
            MappedAddress::GamePadInputControlReg => self.game_pad.read_input_control_reg(),
            _ => 0,
        }
    }

    fn write_register(&mut self, register: MappedAddress, value: u8)
        requires
            old(self)@.wf(),
        ensures
            final(self)@ == old(self)@.write_register(register, value),
            final(self)@.wf(),
    {
        match register {
            MappedAddress::LinkControlReg => self.link_port.write_control_reg(value),
            MappedAddress::AuxLinkReg => self.link_port.write_aux_reg(value),
            MappedAddress::LinkTransmitDataReg => self.link_port.write_transmit_data_reg(value),
            MappedAddress::TimerCounterReloadLowReg => self.timer.write_counter_reload_low_reg(
                value,
            ),
            MappedAddress::TimerCounterReloadHighReg => self.timer.write_counter_reload_high_reg(
                value,
            ),
            MappedAddress::TimerControlReg => self.timer.write_control_reg(value),
            MappedAddress::GamePadInputControlReg => self.game_pad.write_input_control_reg(value),
            _ => {},
        }
    }

    pub fn read_byte(&mut self, addr: u32) -> (r: Result<u8, BusError>)
        requires
            old(self)@.wf(),
        ensures
            r == old(self)@.read_byte(addr),
            final(self)@ == old(self)@,
    {
        match map_address(addr) {
            Ok(MappedAddress::Vip(offset)) => Ok(self.vip.read_byte(offset)),
            Ok(MappedAddress::Vsu(offset)) => Ok(self.vsu.read_byte(offset)),
            Ok(MappedAddress::CartridgeExpansion(_)) => Ok(0),
            Ok(MappedAddress::Wram(offset)) => Ok(self.wram.read_byte(offset)),
            Ok(MappedAddress::CartridgeRam(offset)) => Ok(self.sram.read_byte(offset)),
            Ok(MappedAddress::CartridgeRom(offset)) => Ok(self.rom.read_byte(offset)),
            Ok(register) => Ok(self.read_register(register)),
            Err(e) => Err(e),
        }
    }

    pub fn read_halfword(&mut self, addr: u32) -> (r: Result<u16, BusError>)
        requires
            old(self)@.wf(),
        ensures
            r == old(self)@.read_halfword(addr),
            final(self)@ == old(self)@,
    {
        let addr = addr & 0xffff_fffe;
        match map_address(addr) {
            Ok(MappedAddress::Vip(offset)) => Ok(self.vip.read_halfword(offset)),
            Ok(MappedAddress::Vsu(offset)) => Ok(self.vsu.read_halfword(offset)),
            Ok(MappedAddress::CartridgeExpansion(_)) => Ok(0),
            Ok(MappedAddress::Wram(offset)) => Ok(self.wram.read_halfword(offset)),
            Ok(MappedAddress::CartridgeRam(offset)) => Ok(self.sram.read_halfword(offset)),
            Ok(MappedAddress::CartridgeRom(offset)) => Ok(self.rom.read_halfword(offset)),
            Ok(register) => Ok(self.read_register(register) as u16),
            Err(e) => Err(e),
        }
    }

    pub fn read_word(&mut self, addr: u32) -> (r: Result<u32, BusError>)
        requires
            old(self)@.wf(),
        ensures
            r == old(self)@.read_word(addr),
            final(self)@ == old(self)@,
    {
        let addr = addr & 0xffff_fffc;
        match map_address(addr) {
            Ok(MappedAddress::Vip(offset)) => {
                let low = self.vip.read_halfword(offset);
                let high = self.vip.read_halfword(offset + 2);
                Ok((low as u32) | ((high as u32) << 16))
            },
            Ok(MappedAddress::Vsu(offset)) => Ok(self.vsu.read_word(offset)),
            Ok(MappedAddress::CartridgeExpansion(_)) => Ok(0),
            Ok(MappedAddress::Wram(offset)) => Ok(self.wram.read_word(offset)),
            Ok(MappedAddress::CartridgeRam(offset)) => Ok(self.sram.read_word(offset)),
            Ok(MappedAddress::CartridgeRom(offset)) => Ok(self.rom.read_word(offset)),
            Ok(register) => Ok(self.read_register(register) as u32),
            Err(e) => Err(e),
        }
    }

    pub fn write_byte(&mut self, addr: u32, value: u8) -> (r: Result<(), BusError>)
        requires
            old(self)@.wf(),
        ensures
            final(self)@.wf(),
            match old(self)@.write_byte(addr, value) {
                Ok(after) => r is Ok && final(self)@ == after,
                Err(e) => r == Err::<(), BusError>(e) && final(self)@ == old(self)@,
            },
    {
        match map_address(addr) {
            Ok(MappedAddress::Vip(offset)) => self.vip.write_byte(offset, value),
            Ok(MappedAddress::Vsu(offset)) => self.vsu.write_byte(offset, value),
            Ok(MappedAddress::CartridgeExpansion(_)) => {},
            Ok(MappedAddress::Wram(offset)) => self.wram.write_byte(offset, value),
            Ok(MappedAddress::CartridgeRam(offset)) => self.sram.write_byte(offset, value),
            Ok(MappedAddress::CartridgeRom(_)) => {},
            Ok(register) => self.write_register(register, value),
            Err(e) => {
                return Err(e);
            },
        }
        Ok(())
    }

    pub fn write_halfword(&mut self, addr: u32, value: u16) -> (r: Result<(), BusError>)
        requires
            old(self)@.wf(),
        ensures
            final(self)@.wf(),
            match old(self)@.write_halfword(addr, value) {
                Ok(after) => r is Ok && final(self)@ == after,
                Err(e) => r == Err::<(), BusError>(e) && final(self)@ == old(self)@,
            },
    {
        let addr = addr & 0xffff_fffe;
        match map_address(addr) {
            Ok(MappedAddress::Vip(offset)) => self.vip.write_halfword(offset, value),
            Ok(MappedAddress::Vsu(offset)) => self.vsu.write_halfword(offset, value),
            Ok(MappedAddress::CartridgeExpansion(_)) => {},
            Ok(MappedAddress::Wram(offset)) => self.wram.write_halfword(offset, value),
            Ok(MappedAddress::CartridgeRam(offset)) => self.sram.write_halfword(offset, value),
            Ok(MappedAddress::CartridgeRom(_)) => {},
            Ok(register) => self.write_register(register, value as u8),
            Err(e) => {
                return Err(e);
            },
        }
        Ok(())
    }

    pub fn write_word(&mut self, addr: u32, value: u32) -> (r: Result<(), BusError>)
        requires
            old(self)@.wf(),
        ensures
            final(self)@.wf(),
            match old(self)@.write_word(addr, value) {
                Ok(after) => r is Ok && final(self)@ == after,
                Err(e) => r == Err::<(), BusError>(e) && final(self)@ == old(self)@,
            },
    {
        let addr = addr & 0xffff_fffc;
        match map_address(addr) {
            Ok(MappedAddress::Vip(offset)) => {
                self.vip.write_halfword(offset, value as u16);
                self.vip.write_halfword(offset + 2, (value >> 16) as u16);
            },
            Ok(MappedAddress::Vsu(offset)) => self.vsu.write_word(offset, value),
            Ok(MappedAddress::CartridgeExpansion(_)) => {},
            Ok(MappedAddress::Wram(offset)) => self.wram.write_word(offset, value),
            Ok(MappedAddress::CartridgeRam(offset)) => self.sram.write_word(offset, value),
            Ok(MappedAddress::CartridgeRom(_)) => {},
            Ok(register) => self.write_register(register, value as u8),
            Err(e) => {
                return Err(e);
            },
        }
        Ok(())
    }

    /// Advances the timer, the video image processor and the sound unit by
    /// the given number of CPU cycles, in this order, and reports the
    /// interrupt that was raised in them: the video image processor's goes
    /// before the timer's.
    pub fn cycles<V: Sink<VideoFrame>, A: Sink<AudioFrame>>(
        &mut self,
        cycles: usize,
        video_frame_sink: &mut Recorded<VideoFrame, V>,
        audio_frame_sink: &mut Recorded<AudioFrame, A>,
    ) -> (interrupt: Option<u16>)
        requires
            old(self)@.wf(),
        ensures
            final(self)@ == old(self)@.after_cycles(cycles as nat),
            final(self)@.wf(),
            interrupt == old(self)@.interrupt(cycles as nat),
            frame_planes(final(video_frame_sink).appended()) == frame_planes(
                old(video_frame_sink).appended(),
            ) + old(self)@.vip.frames_of_cycles(cycles as nat),
            final(audio_frame_sink).appended() == old(audio_frame_sink).appended() + old(
                self,
            )@.vsu.frames_of_cycles(cycles as nat),
    {
        let mut interrupt = None;

        if self.timer.cycles(cycles) {
            interrupt = Some(TIMER_INTERRUPT_VECTOR);
        }
        if self.vip.cycles(cycles, video_frame_sink) {
            interrupt = Some(VIP_INTERRUPT_VECTOR);
        }
        self.vsu.cycles(cycles, audio_frame_sink);

        interrupt
    }
}

/// The interrupt that two reports make together: the video image
/// processor's where one of them is, else the timer's where one of them is.
pub open spec fn both_interrupts(first: Option<u16>, second: Option<u16>) -> Option<u16> {
    if first == Some(VIP_INTERRUPT_VECTOR) || second == Some(VIP_INTERRUPT_VECTOR) {
        Some(VIP_INTERRUPT_VECTOR)
    } else if first is Some {
        first
    } else {
        second
    }
}

/// Advancing the components by a number of cycles at once, or in two parts,
/// leads to the same state, pushes the same video and audio frames, and
/// reports the interrupt that the reports of the parts make together.
pub proof fn lemma_cycles_split(s: InterconnectView, first: nat, rest: nat)
    ensures
        s.after_cycles(first + rest) == s.after_cycles(first).after_cycles(rest),
        s.interrupt(first + rest) == both_interrupts(
            s.interrupt(first),
            s.after_cycles(first).interrupt(rest),
        ),
        s.vip.frames_of_cycles(first + rest) == s.vip.frames_of_cycles(first) + s.after_cycles(
            first,
        ).vip.frames_of_cycles(rest),
        s.vsu.frames_of_cycles(first + rest) == s.vsu.frames_of_cycles(first) + s.after_cycles(
            first,
        ).vsu.frames_of_cycles(rest),
{
    crate::timer::lemma_cycles_split(s.timer, first, rest);
    crate::vip::timing::lemma_cycles_split(s.vip, first, rest);
    crate::vsu::lemma_cycles_split(s.vsu, first, rest);
}

/// Bit 0 of the address makes no difference to a halfword read.
pub proof fn lemma_halfword_read_ignores_bit_0(s: InterconnectView, addr: u32)
    ensures
        s.read_halfword(addr | 1) == s.read_halfword(addr),
{
    mem::lemma_aligned(addr);
}

/// An aligned address is still aligned after the bus reduced it to 27 bits.
pub proof fn lemma_bus_alignment(addr: u32)
    by (bit_vector)
    ensures
        ((addr & 0xffff_fffe) & 0x07ff_ffff) & 0xffff_fffe == (addr & 0xffff_fffe) & 0x07ff_ffff,
        ((addr & 0xffff_fffc) & 0x07ff_ffff) & 0x03 == 0,
{
}

/// Whether an address lies in memory that can be written: work RAM,
/// cartridge RAM or video memory.
pub open spec fn is_writable_memory(addr: u32) -> bool {
    match mapped(addr) {
        Ok(MappedAddress::Wram(_)) => true,
        Ok(MappedAddress::CartridgeRam(_)) => true,
        Ok(MappedAddress::Vip(offset)) => crate::vip::mem_map::mapped(offset) is Vram,
        _ => false,
    }
}

/// A byte that was written to memory is the byte that is read there.
pub proof fn lemma_byte_round_trip(s: InterconnectView, addr: u32, value: u8)
    requires
        s.wf(),
        is_writable_memory(addr),
    ensures
        s.write_byte(addr, value) matches Ok(after) && after.read_byte(addr) == Ok::<u8, BusError>(
            value,
        ),
{
}

/// A halfword that was written to memory is the halfword that is read
/// there.
pub proof fn lemma_halfword_round_trip(s: InterconnectView, addr: u32, value: u16)
    requires
        s.wf(),
        is_writable_memory(addr & 0xffff_fffe),
    ensures
        s.write_halfword(addr, value) matches Ok(after) && after.read_halfword(addr) == Ok::<
            u16,
            BusError,
        >(value),
{
    match mapped(addr & 0xffff_fffe) {
        Ok(MappedAddress::Wram(offset)) => {
            mem::lemma_halfword_round_trip(s.wram, offset, value);
        },
        Ok(MappedAddress::CartridgeRam(offset)) => {
            mem::lemma_halfword_round_trip(s.sram, offset, value);
        },
        Ok(MappedAddress::Vip(offset)) => {
            lemma_bus_alignment(addr);
            crate::vip::lemma_halfword_round_trip(s.vip, offset, value);
        },
        _ => {},
    }
}

/// A word that was written to memory is the word that is read there.
pub proof fn lemma_word_round_trip(s: InterconnectView, addr: u32, value: u32)
    requires
        s.wf(),
        is_writable_memory(addr & 0xffff_fffc),
    ensures
        s.write_word(addr, value) matches Ok(after) && after.read_word(addr) == Ok::<
            u32,
            BusError,
        >(value),
{
    match mapped(addr & 0xffff_fffc) {
        Ok(MappedAddress::Wram(offset)) => {
            mem::lemma_word_round_trip(s.wram, offset, value);
        },
        Ok(MappedAddress::CartridgeRam(offset)) => {
            mem::lemma_word_round_trip(s.sram, offset, value);
        },
        Ok(MappedAddress::Vip(offset)) => {
            lemma_bus_alignment(addr);
            crate::vip::lemma_word_round_trip(s.vip, offset, value);
            crate::bits::lemma_word_of_halfwords(value);
        },
        _ => {},
    }
}

} // verus!
