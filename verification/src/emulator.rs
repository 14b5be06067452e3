//! What the host's loop decides between its inputs and outputs: how much to
//! run for the room that the audio output has, when to hand over to the
//! debugger, and what a video frame looks like in the window.

use vstd::prelude::*;
use std::collections::HashSet;
use crate::sinks::AudioFrame;
use crate::sinks::Recorded;
use crate::sinks::Sink;
use crate::sinks::VideoFrame;
use crate::sinks::frame_planes;
use crate::virtual_boy::VirtualBoy;
use crate::virtual_boy::VirtualBoyView;
use crate::vip::timing::FramePlanes;

verus! {

/// The host runs the console only when the audio output has room for at
/// least this many frames.
pub const MIN_AUDIO_FRAMES_TO_RENDER: usize = 100;

/// CPU cycles to an audio frame.
pub const CPU_CYCLES_PER_AUDIO_FRAME: usize = 479;

/// The frames that the audio output's ring buffer has room for, from the
/// positions of its reader and its writer.
pub open spec fn audio_room(read_pos: usize, write_pos: usize, len: usize) -> int {
    if read_pos >= write_pos {
        read_pos - write_pos
    } else {
        read_pos + (len - write_pos)
    }
}

/// The frames that the audio output's ring buffer has room for.
pub fn audio_frames_to_render(read_pos: usize, write_pos: usize, len: usize) -> (r: usize)
    requires
        read_pos <= len,
        write_pos <= len,
    ensures
        r == audio_room(read_pos, write_pos, len),
        r <= len,
{
    if read_pos >= write_pos {
        read_pos - write_pos
    } else {
        read_pos + (len - write_pos)
    }
}

/// The CPU cycles to run for a number of audio frames: none while the
/// audio output has room for fewer than a hundred frames. The count is held
/// to what a `usize` can be.
pub open spec fn cycles_for(audio_frames: usize) -> usize {
    if audio_frames < MIN_AUDIO_FRAMES_TO_RENDER {
        0
    } else if audio_frames * CPU_CYCLES_PER_AUDIO_FRAME > usize::MAX {
        usize::MAX
    } else {
        (audio_frames * CPU_CYCLES_PER_AUDIO_FRAME) as usize
    }
}

/// The CPU cycles to run for a number of audio frames.
pub fn cycles_to_run(audio_frames: usize) -> (r: usize)
    ensures
        r == cycles_for(audio_frames),
{
    if audio_frames < MIN_AUDIO_FRAMES_TO_RENDER {
        0
    } else {
        match audio_frames.checked_mul(CPU_CYCLES_PER_AUDIO_FRAME) {
            Some(cycles) => cycles,
            None => usize::MAX,
        }
    }
}

/// A pixel of the window for a pixel of the two planes: the right eye in
/// red, the left eye in green and blue.
pub open spec fn anaglyph_pixel(left: u8, right: u8) -> u32 {
    ((right as u32) << 16) | ((left as u32) << 8) | (left as u32)
}

/// The window's buffer for a video frame.
pub fn anaglyph(left: &Vec<u8>, right: &Vec<u8>) -> (buffer: Vec<u32>)
    requires
        left.len() == right.len(),
    ensures
        buffer.len() == left.len(),
        forall|i: int| 0 <= i < buffer.len() ==> buffer[i] == anaglyph_pixel(left[i], right[i]),
{
    let mut buffer: Vec<u32> = Vec::with_capacity(left.len());
    let mut i: usize = 0;
    while i < left.len()
        invariant
            left.len() == right.len(),
            i <= left.len(),
            buffer.len() == i,
            forall|j: int| 0 <= j < i ==> buffer[j] == anaglyph_pixel(left[j], right[j]),
        decreases left.len() - i,
    {
        let l = left[i] as u32;
        let r = right[i] as u32;
        buffer.push((r << 16) | (l << 8) | l);
        i = i + 1;
    }
    buffer
}

/// Whether an address is among the breakpoints.
pub fn is_breakpoint(breakpoints: &HashSet<u32>, addr: u32) -> (r: bool)
    ensures
        r == breakpoints@.contains(addr),
{
    breakpoints.contains(&addr)
}

/// What running the console for a batch of cycles does.
pub struct Batch {
    pub state: VirtualBoyView,
    /// Whether the batch ended early, for the debugger to take over.
    pub start_debugger: bool,
    /// The cycles of the batch that were still to run when it ended; more
    /// than zero only where it ended early.
    pub cycles_left: nat,
    /// The video frames that the batch pushed to the video sink.
    pub video_frames: Seq<FramePlanes>,
    /// The audio frames that the batch pushed to the audio sink.
    pub audio_frames: Seq<AudioFrame>,
}

/// How a batch ended: whether the debugger is wanted, and how many of its
/// cycles are still to run.
pub struct BatchEnd {
    pub start_debugger: bool,
    pub cycles_left: usize,
}

/// Whether the debugger takes over after a step: a load or a store went to
/// a watched address, or the program counter stands at a breakpoint.
pub open spec fn debugger_wanted(
    console: VirtualBoyView,
    watchpoint_hit: bool,
    breakpoints: Set<u32>,
) -> bool {
    watchpoint_hit || breakpoints.contains(console.cpu.pc)
}

/// Whether a batch ends after a step: the debugger is wanted, or a
/// floating-point instruction waits for the host's float unit.
pub open spec fn batch_ends(
    console: VirtualBoyView,
    watchpoint_hit: bool,
    breakpoints: Set<u32>,
) -> bool {
    debugger_wanted(console, watchpoint_hit, breakpoints) || console.cpu.float_request is Some
}

/// The cycles left of `cycles_to_run` after a step of `cycles`.
pub open spec fn cycles_after(cycles_to_run: nat, cycles: usize) -> nat {
    if cycles >= cycles_to_run {
        0
    } else {
        (cycles_to_run - cycles) as nat
    }
}

/// What running the console does while fewer than `cycles_to_run` cycles
/// have passed: it steps, and stops early after a step that wants the
/// debugger or the host's float unit. `limit` bounds the number of steps;
/// every step takes at least one cycle, so `cycles_to_run` steps are always
/// enough.
pub open spec fn batch_of(
    console: VirtualBoyView,
    cycles_to_run: nat,
    breakpoints: Set<u32>,
    limit: nat,
) -> Batch
    decreases limit,
{
    if cycles_to_run == 0 || limit == 0 {
        Batch {
            state: console,
            start_debugger: false,
            cycles_left: cycles_to_run,
            video_frames: Seq::empty(),
            audio_frames: Seq::empty(),
        }
    } else {
        let step = console.stepped();
        if batch_ends(step.state, step.watchpoint_hit, breakpoints) {
            Batch {
                state: step.state,
                start_debugger: debugger_wanted(step.state, step.watchpoint_hit, breakpoints),
                cycles_left: cycles_after(cycles_to_run, step.cycles),
                video_frames: step.video_frames,
                audio_frames: step.audio_frames,
            }
        } else {
            let rest = batch_of(
                step.state,
                cycles_after(cycles_to_run, step.cycles),
                breakpoints,
                (limit - 1) as nat,
            );
            Batch {
                state: rest.state,
                start_debugger: rest.start_debugger,
                cycles_left: rest.cycles_left,
                video_frames: step.video_frames + rest.video_frames,
                audio_frames: step.audio_frames + rest.audio_frames,
            }
        }
    }
}

/// Runs the console until `cycles_to_run` cycles have passed, the debugger
/// is wanted, or a floating-point instruction waits for the host's float
/// unit, and says how the batch ended. Where an instruction waits, the host
/// answers it and runs the cycles that are left.
#[verifier::rlimit(50)]
pub fn run_batch<V: Sink<VideoFrame>, A: Sink<AudioFrame>>(
    console: &mut VirtualBoy,
    cycles_to_run: usize,
    breakpoints: &HashSet<u32>,
    video_frame_sink: &mut Recorded<VideoFrame, V>,
    audio_frame_sink: &mut Recorded<AudioFrame, A>,
) -> (end: BatchEnd)
    requires
        old(console)@.wf(),
    ensures
        final(console)@.wf(),
        final(console)@ == batch_of(
            old(console)@,
            cycles_to_run as nat,
            breakpoints@,
            cycles_to_run as nat,
        ).state,
        end.start_debugger == batch_of(
            old(console)@,
            cycles_to_run as nat,
            breakpoints@,
            cycles_to_run as nat,
        ).start_debugger,
        end.cycles_left as nat == batch_of(
            old(console)@,
            cycles_to_run as nat,
            breakpoints@,
            cycles_to_run as nat,
        ).cycles_left,
        frame_planes(final(video_frame_sink).appended()) == frame_planes(
            old(video_frame_sink).appended(),
        ) + batch_of(
            old(console)@,
            cycles_to_run as nat,
            breakpoints@,
            cycles_to_run as nat,
        ).video_frames,
        final(audio_frame_sink).appended() == old(audio_frame_sink).appended() + batch_of(
            old(console)@,
            cycles_to_run as nat,
            breakpoints@,
            cycles_to_run as nat,
        ).audio_frames,
{
    let ghost start = console@;
    let ghost video_before = frame_planes(video_frame_sink.appended());
    let ghost audio_before = audio_frame_sink.appended();
    let ghost mut video_done: Seq<FramePlanes> = Seq::empty();
    let ghost mut audio_done: Seq<AudioFrame> = Seq::empty();
    let mut remaining: usize = cycles_to_run;
    let mut start_debugger = false;
    let mut ended = false;
    proof {
        assert(video_before + video_done =~= video_before);
        assert(audio_before + audio_done =~= audio_before);
        let whole = batch_of(start, cycles_to_run as nat, breakpoints@, cycles_to_run as nat);
        assert(video_done + whole.video_frames =~= whole.video_frames);
        assert(audio_done + whole.audio_frames =~= whole.audio_frames);
    }
    while remaining > 0 && !ended
        invariant
            console@.wf(),
            !ended ==> !start_debugger,
            frame_planes(video_frame_sink.appended()) == video_before + video_done,
            audio_frame_sink.appended() == audio_before + audio_done,
            ({
                let whole = batch_of(
                    start,
                    cycles_to_run as nat,
                    breakpoints@,
                    cycles_to_run as nat,
                );
                let rest = batch_of(
                    console@,
                    if ended {
                        0
                    } else {
                        remaining as nat
                    },
                    breakpoints@,
                    remaining as nat,
                );
                &&& whole.state == rest.state
                &&& whole.start_debugger == (start_debugger || rest.start_debugger)
                &&& whole.cycles_left == (if ended {
                    remaining as nat
                } else {
                    rest.cycles_left
                })
                &&& whole.video_frames == video_done + rest.video_frames
                &&& whole.audio_frames == audio_done + rest.audio_frames
            }),
        decreases remaining,
    {
        let ghost before = console@;
        let ghost step = before.stepped();
        let (num_cycles, watchpoint_hit) = console.step(video_frame_sink, audio_frame_sink);
        proof {
            lemma_step_takes_cycles(before);
        }
        let pc = console.cpu.reg_pc();
        let wanted = watchpoint_hit || is_breakpoint(breakpoints, pc);
        let waits = console.cpu.float_request().is_some();
        let ghost next_remaining: nat = cycles_after(remaining as nat, num_cycles);
        proof {
            let rest = batch_of(step.state, next_remaining, breakpoints@, (remaining - 1) as nat);
            assert((video_before + video_done) + step.video_frames =~= video_before + (video_done
                + step.video_frames));
            assert((audio_before + audio_done) + step.audio_frames =~= audio_before + (audio_done
                + step.audio_frames));
            assert(video_done + (step.video_frames + rest.video_frames) =~= (video_done
                + step.video_frames) + rest.video_frames);
            assert(audio_done + (step.audio_frames + rest.audio_frames) =~= (audio_done
                + step.audio_frames) + rest.audio_frames);
            if wanted || waits {
                assert(step.video_frames + Seq::<FramePlanes>::empty() =~= step.video_frames);
                assert(step.audio_frames + Seq::<AudioFrame>::empty() =~= step.audio_frames);
                assert((video_done + step.video_frames) + Seq::<FramePlanes>::empty() =~= (
                video_done + step.video_frames));
                assert((audio_done + step.audio_frames) + Seq::<AudioFrame>::empty() =~= (
                audio_done + step.audio_frames));
            } else {
                lemma_limit_is_enough(
                    step.state,
                    next_remaining,
                    breakpoints@,
                    (remaining - 1) as nat,
                );
            }
            video_done = video_done + step.video_frames;
            audio_done = audio_done + step.audio_frames;
        }
        if wanted || waits {
            start_debugger = wanted;
            ended = true;
        }
        if num_cycles >= remaining {
            remaining = 0;
        } else {
            remaining = remaining - num_cycles;
        }
    }
    BatchEnd { start_debugger, cycles_left: remaining }
}

/// Every step takes at least one cycle.
pub proof fn lemma_step_takes_cycles(console: VirtualBoyView)
    ensures
        console.stepped().cycles >= 1,
{
    reveal(VirtualBoyView::stepped);
    reveal(crate::nvc::state::NvcState::stepped);
    reveal(crate::nvc::state::NvcState::run_instruction);
}

/// A batch needs no more steps than it has cycles to run: a larger limit
/// changes nothing.
pub proof fn lemma_limit_is_enough(
    console: VirtualBoyView,
    cycles_to_run: nat,
    breakpoints: Set<u32>,
    limit: nat,
)
    requires
        limit >= cycles_to_run,
    ensures
        batch_of(console, cycles_to_run, breakpoints, limit) == batch_of(
            console,
            cycles_to_run,
            breakpoints,
            cycles_to_run,
        ),
    decreases limit,
{
    if cycles_to_run > 0 && limit > 0 {
        let step = console.stepped();
        lemma_step_takes_cycles(console);
        if !batch_ends(step.state, step.watchpoint_hit, breakpoints) {
            let next: nat = cycles_after(cycles_to_run, step.cycles);
            lemma_limit_is_enough(step.state, next, breakpoints, (limit - 1) as nat);
            lemma_limit_is_enough(step.state, next, breakpoints, (cycles_to_run - 1) as nat);
        }
    }
}

} // verus!
