//! The console: the CPU and the bus with everything behind it.

use vstd::prelude::*;
use crate::instruction::branch_displacement;
use crate::instruction::decoded_opcode;
use crate::instruction::DecodeError;
use crate::instruction::Opcode;
use crate::interconnect::Interconnect;
use crate::interconnect::InterconnectView;
use crate::mem_map::BusError;
use crate::nvc::laws::lemma_requested_keeps_wf;
use crate::nvc::laws::lemma_step_branch;
use crate::nvc::laws::lemma_step_keeps_wf;
use crate::nvc::state::NvcState;
use crate::nvc::Nvc;
use crate::rom::Rom;
use crate::sinks::frame_planes;
use crate::sinks::AudioFrame;
use crate::sinks::Recorded;
use crate::sinks::Sink;
use crate::sinks::VideoFrame;
use crate::sram::Sram;
use crate::vip::timing::FramePlanes;

verus! {

/// The console's state.
pub struct VirtualBoyView {
    pub cpu: NvcState,
    pub interconnect: InterconnectView,
}

/// What a step of the console does.
pub struct ConsoleStep {
    pub state: VirtualBoyView,
    /// The CPU cycles that the step took.
    pub cycles: usize,
    /// Whether a load or a store went to a watched address.
    pub watchpoint_hit: bool,
    /// The video frames that the step pushed to the video sink.
    pub video_frames: Seq<FramePlanes>,
    /// The audio frames that the step pushed to the audio sink.
    pub audio_frames: Seq<AudioFrame>,
}

impl VirtualBoyView {
    /// The console at power-on, around a ROM and a cartridge RAM: the CPU
    /// after a reset, without watchpoints, and everything behind the bus in
    /// its power-on state.
    pub open spec fn initial(rom: Seq<u8>, sram: Seq<u8>) -> VirtualBoyView {
        VirtualBoyView {
            cpu: NvcState::reset_state(Set::empty()),
            interconnect: InterconnectView::initial(rom, sram),
        }
    }

    pub open spec fn wf(self) -> bool {
        self.cpu.wf() && self.interconnect.wf()
    }

    /// What a step does: the CPU executes one instruction; the components
    /// behind the bus advance by the cycles it took; the interrupt that they
    /// raised in them, if any, is handed to the CPU, which sees it at its next
    /// step at the earliest.
    #[verifier::opaque]
    pub open spec fn stepped(self) -> ConsoleStep {
        let executed = self.cpu.stepped(self.interconnect);
        let cycles = executed.cycles as nat;
        ConsoleStep {
            state: VirtualBoyView {
                cpu: match executed.bus.interrupt(cycles) {
                    Some(vector) => executed.cpu.requested(vector),
                    None => executed.cpu,
                },
                interconnect: executed.bus.after_cycles(cycles),
            },
            cycles: executed.cycles,
            watchpoint_hit: executed.watchpoint_hit,
            video_frames: executed.bus.vip.frames_of_cycles(cycles),
            audio_frames: executed.bus.vsu.frames_of_cycles(cycles),
        }
    }
}

impl VirtualBoyView {
    /// The state after `n` steps.
    pub open spec fn after_steps(self, n: nat) -> VirtualBoyView
        decreases n,
    {
        if n == 0 {
            self
        } else {
            self.after_steps((n - 1) as nat).stepped().state
        }
    }
}

/// Register r0 reads 0 after any number of steps, whatever the instructions
/// are and whatever interrupts arrive.
pub proof fn lemma_r0_reads_zero(console: VirtualBoyView, n: nat)
    requires
        console.cpu.wf(),
    ensures
        console.after_steps(n).cpu.wf(),
        console.after_steps(n).cpu.gpr[0] == 0,
    decreases n,
{
    if n > 0 {
        reveal(VirtualBoyView::stepped);
        lemma_r0_reads_zero(console, (n - 1) as nat);
        let before = console.after_steps((n - 1) as nat);
        lemma_step_keeps_wf(before.cpu, before.interconnect);
        let executed = before.cpu.stepped(before.interconnect);
        match executed.bus.interrupt(executed.cycles as nat) {
            Some(vector) => lemma_requested_keeps_wf(executed.cpu, vector),
            None => {},
        }
    }
}

/// A step of the console that executes a conditional branch, with a
/// running CPU that accepts no pending interrupt first and waits for no
/// float unit. The step takes 3 cycles where the branch is taken and 1 where
/// it is not. The CPU changes its program counter and nothing else: to the
/// address of the branch plus the displacement, bit 0 cleared, or to the
/// instruction that follows. What is behind the bus advances by those
/// cycles, which changes no memory but the video memory that is drawn to;
/// and where it raises an interrupt in them, the CPU is handed it.
pub proof fn lemma_branch_step(console: VirtualBoyView, opcode: Opcode, first: u16)
    requires
        console.cpu.float_request is None,
        console.cpu.with_pending_delivered() == console.cpu,
        !console.cpu.halted,
        console.interconnect.read_halfword(console.cpu.pc) == Ok::<u16, BusError>(first),
        decoded_opcode(first) == Ok::<Opcode, DecodeError>(opcode),
        opcode.is_conditional_branch(),
    ensures
        ({
            let taken = console.cpu.branch_taken(opcode);
            let cycles = if taken {
                3usize
            } else {
                1usize
            };
            let target = if taken {
                console.cpu.pc.wrapping_add(branch_displacement(first)) & 0xffff_fffe
            } else {
                console.cpu.pc.wrapping_add(2)
            };
            let branched = console.cpu.with_pc(target);
            let after = console.stepped();
            &&& after.cycles == cycles
            &&& !after.watchpoint_hit
            &&& after.state.interconnect == console.interconnect.after_cycles(cycles as nat)
            &&& after.state.interconnect.rom == console.interconnect.rom
            &&& after.state.interconnect.wram == console.interconnect.wram
            &&& after.state.interconnect.sram == console.interconnect.sram
            &&& after.state.cpu == (match console.interconnect.interrupt(cycles as nat) {
                Some(vector) => branched.requested(vector),
                None => branched,
            })
            &&& taken && console.cpu.pc % 2 == 0 && branch_displacement(first) % 2 == 0
                ==> target == console.cpu.pc.wrapping_add(branch_displacement(first))
        }),
{
    reveal(VirtualBoyView::stepped);
    lemma_step_branch(console.cpu, console.interconnect, opcode, first);
}

pub struct VirtualBoy {
    pub interconnect: Interconnect,
    pub cpu: Nvc,
}

impl View for VirtualBoy {
    type V = VirtualBoyView;

    open spec fn view(&self) -> VirtualBoyView {
        VirtualBoyView { cpu: self.cpu@, interconnect: self.interconnect@ }
    }
}

impl VirtualBoy {
    /// The console at power-on, with the cartridge put in.
    pub fn new(rom: Rom, sram: Sram) -> (console: VirtualBoy)
        ensures
            console@ == VirtualBoyView::initial(rom@, sram@),
            console@.wf(),
    {
        VirtualBoy { interconnect: Interconnect::new(rom, sram), cpu: Nvc::new() }
    }

    /// Executes one instruction, advances the components behind the bus by
    /// the cycles it took, and hands the CPU the interrupt that they raised.
    /// Returns the cycles and whether a load or a store went to a watched
    /// address.
    pub fn step<V: Sink<VideoFrame>, A: Sink<AudioFrame>>(
        &mut self,
        video_frame_sink: &mut Recorded<VideoFrame, V>,
        audio_frame_sink: &mut Recorded<AudioFrame, A>,
    ) -> (r: (usize, bool))
        requires
            old(self)@.wf(),
        ensures
            final(self)@ == old(self)@.stepped().state,
            final(self)@.wf(),
            r.0 == old(self)@.stepped().cycles,
            r.1 == old(self)@.stepped().watchpoint_hit,
            frame_planes(final(video_frame_sink).appended()) == frame_planes(
                old(video_frame_sink).appended(),
            ) + old(self)@.stepped().video_frames,
            final(audio_frame_sink).appended() == old(audio_frame_sink).appended() + old(
                self,
            )@.stepped().audio_frames,
    {
        proof {
            reveal(VirtualBoyView::stepped);
        }
        let ret = self.cpu.step(&mut self.interconnect);
        match self.interconnect.cycles(ret.0, video_frame_sink, audio_frame_sink) {
            Some(vector) => self.cpu.request_interrupt(vector),
            None => {},
        }
        ret
    }
}

} // verus!
