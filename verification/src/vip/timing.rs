//! The processor's clocks: what one CPU cycle, and any number of them, does to
//! its state.

use vstd::prelude::*;
use crate::vip::confinement::lemma_rasterized_confined;
use crate::vip::display::displayed_frame;
use crate::vip::raster::rasterized;
use crate::vip::raster::VRAM_SIZE;
use crate::vip::regs::DisplayState;
use crate::vip::regs::DrawingState;
use crate::vip::regs::InterruptFlags;
use crate::vip::regs::VipRegisters;
use crate::vip::regs::DISPLAY_PROCESSING_BUFFER_PERIOD_NS;
use crate::vip::regs::DISPLAY_PROCESSING_DELAY_PERIOD_NS;
use crate::vip::regs::DRAWING_PERIOD_NS;
use crate::vip::regs::FRAME_CLOCK_PERIOD_NS;
use crate::vip::regs::NS_PER_CYCLE;

verus! {

/// The processor's state: video memory and everything else.
pub struct VipView {
    pub vram: Seq<u8>,
    pub regs: VipRegisters,
}

/// The planes of a video frame.
pub type FramePlanes = (Seq<u8>, Seq<u8>);

/// The registers after a game-clock edge: drawing has started, the
/// framebuffer pairs change roles, and a drawing period begins if drawing is
/// enabled; if it is not, drawing counts as finished at once.
pub open spec fn game_clock_edge(regs: VipRegisters) -> VipRegisters {
    let started = VipRegisters {
        interrupt_pending: InterruptFlags { drawing_started: true, ..regs.interrupt_pending },
        display_first_framebuffers: !regs.display_first_framebuffers,
        ..regs
    };
    if regs.drawing_enable {
        VipRegisters { drawing_state: DrawingState::Drawing, drawing_counter: 0, ..started }
    } else {
        VipRegisters {
            interrupt_pending: InterruptFlags {
                drawing_finished: true,
                ..started.interrupt_pending
            },
            ..started
        }
    }
}

/// The registers after a frame-clock edge: frame processing has started, and
/// every `game_frame_control` edges the game clock rises too.
pub open spec fn frame_clock_edge(regs: VipRegisters) -> VipRegisters {
    let started = VipRegisters {
        interrupt_pending: InterruptFlags {
            start_of_frame_processing: true,
            ..regs.interrupt_pending
        },
        ..regs
    };
    if regs.game_frame_clock_counter + 1 >= regs.game_frame_control {
        game_clock_edge(VipRegisters { game_frame_clock_counter: 0, ..started })
    } else {
        VipRegisters {
            game_frame_clock_counter: (regs.game_frame_clock_counter + 1) as u32,
            ..started
        }
    }
}

/// The frame clock's part of a cycle: it rises every 20 ms.
pub open spec fn frame_clock_cycle(regs: VipRegisters) -> VipRegisters {
    let counter = regs.frame_clock_counter + NS_PER_CYCLE;
    if counter >= FRAME_CLOCK_PERIOD_NS {
        frame_clock_edge(
            VipRegisters {
                frame_clock_counter: (counter - FRAME_CLOCK_PERIOD_NS) as u64,
                ..regs
            },
        )
    } else {
        VipRegisters { frame_clock_counter: counter as u64, ..regs }
    }
}

/// Whether a running drawing period ends with this cycle.
pub open spec fn drawing_ends(regs: VipRegisters) -> bool {
    regs.drawing_state is Drawing && regs.drawing_counter + NS_PER_CYCLE >= DRAWING_PERIOD_NS
}

/// The drawing timer's part of a cycle, on the registers: a drawing period
/// lasts 10 ms.
pub open spec fn drawing_cycle(regs: VipRegisters) -> VipRegisters {
    if regs.drawing_state is Drawing {
        let counted = VipRegisters {
            drawing_counter: (regs.drawing_counter + NS_PER_CYCLE) as u64,
            ..regs
        };
        if drawing_ends(regs) {
            VipRegisters {
                drawing_state: DrawingState::Idle,
                interrupt_pending: InterruptFlags {
                    drawing_finished: true,
                    ..regs.interrupt_pending
                },
                ..counted
            }
        } else {
            counted
        }
    } else {
        regs
    }
}

/// Whether the display of a frame ends with this cycle.
pub open spec fn display_ends(regs: VipRegisters) -> bool {
    regs.display_state is RightFramebuffer && regs.display_counter + NS_PER_CYCLE
        >= DISPLAY_PROCESSING_BUFFER_PERIOD_NS
}

/// The display pipeline's part of a cycle: 10 ms idle, 5 ms for the left
/// framebuffer, 5 ms for the right one.
pub open spec fn display_cycle(regs: VipRegisters) -> VipRegisters {
    let counter = regs.display_counter + NS_PER_CYCLE;
    match regs.display_state {
        DisplayState::Idle => if counter >= DISPLAY_PROCESSING_DELAY_PERIOD_NS {
            VipRegisters {
                display_counter: (counter - DISPLAY_PROCESSING_DELAY_PERIOD_NS) as u64,
                display_state: DisplayState::LeftFramebuffer,
                ..regs
            }
        } else {
            VipRegisters { display_counter: counter as u64, ..regs }
        },
        DisplayState::LeftFramebuffer => if counter >= DISPLAY_PROCESSING_BUFFER_PERIOD_NS {
            VipRegisters {
                display_counter: (counter - DISPLAY_PROCESSING_BUFFER_PERIOD_NS) as u64,
                display_state: DisplayState::RightFramebuffer,
                interrupt_pending: InterruptFlags {
                    left_display_finished: true,
                    ..regs.interrupt_pending
                },
                ..regs
            }
        } else {
            VipRegisters { display_counter: counter as u64, ..regs }
        },
        DisplayState::RightFramebuffer => if counter >= DISPLAY_PROCESSING_BUFFER_PERIOD_NS {
            VipRegisters {
                display_counter: (counter - DISPLAY_PROCESSING_BUFFER_PERIOD_NS) as u64,
                display_state: DisplayState::Idle,
                interrupt_pending: InterruptFlags {
                    right_display_finished: true,
                    ..regs.interrupt_pending
                },
                ..regs
            }
        } else {
            VipRegisters { display_counter: counter as u64, ..regs }
        },
    }
}

/// Whether the frame clock rises with this cycle.
pub open spec fn frame_clock_rises(regs: VipRegisters) -> bool {
    regs.frame_clock_counter + NS_PER_CYCLE >= FRAME_CLOCK_PERIOD_NS
}

/// Whether the game clock rises with this cycle.
pub open spec fn game_clock_rises(regs: VipRegisters) -> bool {
    frame_clock_rises(regs) && regs.game_frame_clock_counter + 1 >= regs.game_frame_control
}

/// Whether the display of the left framebuffer ends with this cycle.
pub open spec fn left_display_ends(regs: VipRegisters) -> bool {
    regs.display_state is LeftFramebuffer && regs.display_counter + NS_PER_CYCLE
        >= DISPLAY_PROCESSING_BUFFER_PERIOD_NS
}

impl VipView {
    pub open spec fn wf(self) -> bool {
        self.vram.len() == VRAM_SIZE && self.regs.wf()
    }

    /// The interrupt sources that fire in this cycle: the start of frame
    /// processing with the frame clock; the start of drawing with the game
    /// clock; the end of drawing with the game clock where drawing is
    /// disabled, or else with the end of the drawing period; the end of a
    /// framebuffer's display with the display pipeline.
    pub open spec fn events_of_cycle(self) -> InterruptFlags {
        let clocked = frame_clock_cycle(self.regs);
        InterruptFlags {
            start_of_frame_processing: frame_clock_rises(self.regs),
            drawing_started: game_clock_rises(self.regs),
            drawing_finished: (game_clock_rises(self.regs) && !self.regs.drawing_enable)
                || drawing_ends(clocked),
            left_display_finished: left_display_ends(self.regs),
            right_display_finished: display_ends(self.regs),
        }
    }

    /// Whether this cycle raises the processor's interrupt: a source fires
    /// that is enabled.
    #[verifier::opaque]
    pub open spec fn raises_in_cycle(self) -> bool {
        self.events_of_cycle().overlaps(self.regs.interrupt_enable)
    }

    /// Whether one of the next `n` CPU cycles raises the processor's
    /// interrupt.
    pub open spec fn raises_interrupt(self, n: nat) -> bool
        decreases n,
    {
        n > 0 && (self.raises_interrupt((n - 1) as nat) || self.after_cycles(
            (n - 1) as nat,
        ).raises_in_cycle())
    }

    /// The state in the middle of a cycle: after the frame clock and the
    /// drawing timer, before the display pipeline.
    pub open spec fn drawn(self) -> VipView {
        let clocked = frame_clock_cycle(self.regs);
        VipView {
            vram: if drawing_ends(clocked) {
                rasterized(self.vram, clocked)
            } else {
                self.vram
            },
            regs: drawing_cycle(clocked),
        }
    }

    /// The state one CPU cycle later. In this order: the frame clock, the
    /// drawing timer, which rasterizes where a drawing period ends, and the
    /// display pipeline.
    #[verifier::opaque]
    pub open spec fn after_cycle(self) -> VipView {
        let drawn = self.drawn();
        VipView { vram: drawn.vram, regs: display_cycle(drawn.regs) }
    }

    /// The frame that this cycle pushes to the video sink: the one displayed
    /// where the display of a frame ends.
    #[verifier::opaque]
    pub open spec fn frame_of_cycle(self) -> Option<FramePlanes> {
        let drawn = self.drawn();
        if display_ends(drawn.regs) {
            Some(displayed_frame(drawn.vram, drawn.regs))
        } else {
            None
        }
    }

    /// The state `n` CPU cycles later.
    pub open spec fn after_cycles(self, n: nat) -> VipView
        decreases n,
    {
        if n == 0 {
            self
        } else {
            self.after_cycles((n - 1) as nat).after_cycle()
        }
    }

    /// The frames that the next `n` CPU cycles push to the video sink, in
    /// order.
    pub open spec fn frames_of_cycles(self, n: nat) -> Seq<FramePlanes>
        decreases n,
    {
        if n == 0 {
            Seq::empty()
        } else {
            let before = self.frames_of_cycles((n - 1) as nat);
            match self.after_cycles((n - 1) as nat).frame_of_cycle() {
                Some(frame) => before.push(frame),
                None => before,
            }
        }
    }
}


/// The interrupt sources that fire in a cycle, from the registers before the
/// cycle and the flags of what ended in it.
pub fn cycle_events(regs: &VipRegisters, drawing_ended: bool, display_ended: bool) -> (r:
    InterruptFlags)
    requires
        regs.wf(),
    ensures
        r == (InterruptFlags {
            start_of_frame_processing: frame_clock_rises(*regs),
            drawing_started: game_clock_rises(*regs),
            drawing_finished: (game_clock_rises(*regs) && !regs.drawing_enable) || drawing_ended,
            left_display_finished: left_display_ends(*regs),
            right_display_finished: display_ended,
        }),
{
    let frame_clock_rises = regs.frame_clock_counter + NS_PER_CYCLE >= FRAME_CLOCK_PERIOD_NS;
    let game_clock_rises = frame_clock_rises && regs.game_frame_clock_counter + 1
        >= regs.game_frame_control;
    let left_display_ends = match regs.display_state {
        DisplayState::LeftFramebuffer => regs.display_counter + NS_PER_CYCLE
            >= DISPLAY_PROCESSING_BUFFER_PERIOD_NS,
        _ => false,
    };
    InterruptFlags {
        left_display_finished: left_display_ends,
        right_display_finished: display_ended,
        drawing_started: game_clock_rises,
        start_of_frame_processing: frame_clock_rises,
        drawing_finished: (game_clock_rises && !regs.drawing_enable) || drawing_ended,
    }
}

pub fn game_clock(regs: VipRegisters) -> (r: VipRegisters)
    requires
        regs.wf(),
    ensures
        r == game_clock_edge(regs),
        r.wf(),
{
    let mut r = regs;
    r.interrupt_pending.drawing_started = true;
    r.display_first_framebuffers = !regs.display_first_framebuffers;
    if regs.drawing_enable {
        r.drawing_state = DrawingState::Drawing;
        r.drawing_counter = 0;
    } else {
        r.interrupt_pending.drawing_finished = true;
    }
    r
}

pub fn frame_clock(regs: VipRegisters) -> (r: VipRegisters)
    requires
        regs.wf(),
    ensures
        r == frame_clock_edge(regs),
        r.wf(),
{
    let mut r = regs;
    r.interrupt_pending.start_of_frame_processing = true;
    if regs.game_frame_clock_counter + 1 >= regs.game_frame_control {
        r.game_frame_clock_counter = 0;
        game_clock(r)
    } else {
        r.game_frame_clock_counter = regs.game_frame_clock_counter + 1;
        r
    }
}

pub fn advance_frame_clock(regs: VipRegisters) -> (r: VipRegisters)
    requires
        regs.wf(),
    ensures
        r == frame_clock_cycle(regs),
        r.wf(),
{
    let mut r = regs;
    let counter: u64 = regs.frame_clock_counter + NS_PER_CYCLE;
    if counter >= FRAME_CLOCK_PERIOD_NS {
        r.frame_clock_counter = counter - FRAME_CLOCK_PERIOD_NS;
        frame_clock(r)
    } else {
        r.frame_clock_counter = counter;
        r
    }
}

/// Advances the drawing timer; the flag says whether the drawing period
/// ended, which is when the caller rasterizes.
pub fn advance_drawing(regs: VipRegisters) -> (r: (VipRegisters, bool))
    requires
        regs.wf(),
    ensures
        r.0 == drawing_cycle(regs),
        r.1 == drawing_ends(regs),
        r.0.wf(),
{
    let mut r = regs;
    match regs.drawing_state {
        DrawingState::Drawing => {
            r.drawing_counter = regs.drawing_counter + NS_PER_CYCLE;
            if r.drawing_counter >= DRAWING_PERIOD_NS {
                r.drawing_state = DrawingState::Idle;
                r.interrupt_pending.drawing_finished = true;
                (r, true)
            } else {
                (r, false)
            }
        },
        DrawingState::Idle => (r, false),
    }
}

/// Advances the display pipeline; the flag says whether the display of a
/// frame ended, which is when the caller pushes the frame.
pub fn advance_display(regs: VipRegisters) -> (r: (VipRegisters, bool))
    requires
        regs.wf(),
    ensures
        r.0 == display_cycle(regs),
        r.1 == display_ends(regs),
        r.0.wf(),
{
    let mut r = regs;
    let counter: u64 = regs.display_counter + NS_PER_CYCLE;
    r.display_counter = counter;
    match regs.display_state {
        DisplayState::Idle => {
            if counter >= DISPLAY_PROCESSING_DELAY_PERIOD_NS {
                r.display_counter = counter - DISPLAY_PROCESSING_DELAY_PERIOD_NS;
                r.display_state = DisplayState::LeftFramebuffer;
            }
            (r, false)
        },
        DisplayState::LeftFramebuffer => {
            if counter >= DISPLAY_PROCESSING_BUFFER_PERIOD_NS {
                r.display_counter = counter - DISPLAY_PROCESSING_BUFFER_PERIOD_NS;
                r.display_state = DisplayState::RightFramebuffer;
                r.interrupt_pending.left_display_finished = true;
            }
            (r, false)
        },
        DisplayState::RightFramebuffer => {
            if counter >= DISPLAY_PROCESSING_BUFFER_PERIOD_NS {
                r.display_counter = counter - DISPLAY_PROCESSING_BUFFER_PERIOD_NS;
                r.display_state = DisplayState::Idle;
                r.interrupt_pending.right_display_finished = true;
                (r, true)
            } else {
                (r, false)
            }
        },
    }
}


/// CPU cycles to a frame-clock period and to a round of the display
/// pipeline: 20 ms.
pub const CYCLES_PER_FRAME: u32 = 400_000;

/// How many CPU cycles of its 20 ms round the display pipeline has behind
/// it: the idle delay comes first, then the left and the right framebuffer.
pub open spec fn display_phase(regs: VipRegisters) -> int {
    (match regs.display_state {
        DisplayState::Idle => 0int,
        DisplayState::LeftFramebuffer => 200_000int,
        DisplayState::RightFramebuffer => 300_000int,
    }) + regs.display_counter as int / NS_PER_CYCLE as int
}

/// A cycle keeps a state well-formed, makes the sources that fire pending,
/// moves the display pipeline one cycle on in its round, and pushes a frame
/// exactly where the round ends.
#[verifier::rlimit(50)]
pub proof fn lemma_after_cycle(s: VipView)
    requires
        s.wf(),
    ensures
        s.after_cycle().wf(),
        s.after_cycle().regs.interrupt_pending == s.regs.interrupt_pending.union(
            s.events_of_cycle(),
        ),
        s.after_cycle().regs.interrupt_enable == s.regs.interrupt_enable,
        0 <= display_phase(s.regs) < CYCLES_PER_FRAME,
        display_phase(s.after_cycle().regs) == (display_phase(s.regs) + 1) % (
        CYCLES_PER_FRAME as int),
        s.frame_of_cycle() is Some <==> display_phase(s.regs) + 1 == CYCLES_PER_FRAME,
{
    reveal(VipView::after_cycle);
    reveal(VipView::frame_of_cycle);
    let clocked = frame_clock_cycle(s.regs);
    lemma_rasterized_confined(s.vram, clocked);
}

/// Any number of cycles keeps a state well-formed.
pub proof fn lemma_after_cycles_wf(s: VipView, n: nat)
    requires
        s.wf(),
    ensures
        s.after_cycles(n).wf(),
    decreases n,
{
    if n > 0 {
        lemma_after_cycles_wf(s, (n - 1) as nat);
        lemma_after_cycle(s.after_cycles((n - 1) as nat));
    }
}

/// Advancing by a number of cycles at once, or in two parts, leads to the
/// same state and pushes the same frames, and the interrupt is raised at once
/// exactly if it is raised in one of the parts.
pub proof fn lemma_cycles_split(s: VipView, first: nat, rest: nat)
    ensures
        s.after_cycles(first + rest) == s.after_cycles(first).after_cycles(rest),
        s.raises_interrupt(first + rest) == (s.raises_interrupt(first) || s.after_cycles(
            first,
        ).raises_interrupt(rest)),
        s.frames_of_cycles(first + rest) == s.frames_of_cycles(first) + s.after_cycles(
            first,
        ).frames_of_cycles(rest),
    decreases rest,
{
    let middle = s.after_cycles(first);
    if rest == 0 {
        assert(s.frames_of_cycles(first) + middle.frames_of_cycles(0) =~= s.frames_of_cycles(
            first,
        ));
    } else {
        let shorter = (rest - 1) as nat;
        lemma_cycles_split(s, first, shorter);
        assert((first + rest - 1) as nat == first + shorter);
        match middle.after_cycles(shorter).frame_of_cycle() {
            Some(frame) => {
                assert((s.frames_of_cycles(first) + middle.frames_of_cycles(shorter)).push(frame)
                    =~= s.frames_of_cycles(first) + middle.frames_of_cycles(shorter).push(frame));
            },
            None => {},
        }
    }
}

/// The frames that `n` cycles push are as many as rounds of the display
/// pipeline end in them.
pub proof fn lemma_frames_by_phase(s: VipView, n: nat)
    requires
        s.wf(),
    ensures
        s.after_cycles(n).wf(),
        s.frames_of_cycles(n).len() == (display_phase(s.regs) + n) / (CYCLES_PER_FRAME as int),
        display_phase(s.after_cycles(n).regs) == (display_phase(s.regs) + n) % (
        CYCLES_PER_FRAME as int),
    decreases n,
{
    lemma_after_cycle(s);
    if n > 0 {
        let shorter = (n - 1) as nat;
        lemma_frames_by_phase(s, shorter);
        lemma_after_cycle(s.after_cycles(shorter));
    }
}

/// In every 20 ms of CPU cycles, whenever they start, exactly one frame is
/// pushed to the video sink.
pub proof fn lemma_one_frame_per_frame_period(s: VipView)
    requires
        s.wf(),
    ensures
        s.frames_of_cycles(CYCLES_PER_FRAME as nat).len() == 1,
{
    lemma_after_cycle(s);
    lemma_frames_by_phase(s, CYCLES_PER_FRAME as nat);
}

/// Whether the clocks run in step, as they do from power-on: the display
/// pipeline started its round with the last frame-clock edge, and a running
/// drawing period started with it too.
pub open spec fn in_step(regs: VipRegisters) -> bool {
    &&& display_phase(regs) == regs.frame_clock_counter as int / NS_PER_CYCLE as int
    &&& (regs.drawing_state is Drawing ==> regs.drawing_counter == regs.frame_clock_counter
        + NS_PER_CYCLE)
}

/// The clocks run in step after power-on.
pub proof fn lemma_initially_in_step()
    ensures
        in_step(VipRegisters::initial()),
        VipRegisters::initial().wf(),
{
}

/// While the clocks run in step, a cycle keeps them in step, and the display
/// pipeline idles as long as a drawing period runs and in the cycle that ends
/// it: drawing is over before the display of a framebuffer begins.
pub proof fn lemma_drawing_precedes_display(s: VipView)
    requires
        s.wf(),
        in_step(s.regs),
    ensures
        in_step(s.after_cycle().regs),
        s.regs.drawing_state is Drawing ==> s.regs.display_state is Idle,
        drawing_ends(frame_clock_cycle(s.regs)) ==> s.regs.display_state is Idle
            && s.after_cycle().regs.display_state is Idle,
{
    reveal(VipView::after_cycle);
}

} // verus!
