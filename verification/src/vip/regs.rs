//! The processor's registers, counters and state machines' states, as plain
//! data that executable code and contracts share.

use vstd::prelude::*;

verus! {

/// Where the display pipeline stands.
#[derive(Clone, Copy, Debug, PartialEq, Eq, Structural)]
pub enum DisplayState {
    Idle,
    LeftFramebuffer,
    RightFramebuffer,
}

/// Whether a drawing period is running.
#[derive(Clone, Copy, Debug, PartialEq, Eq, Structural)]
pub enum DrawingState {
    Idle,
    Drawing,
}

#[derive(Clone, Copy, Debug, PartialEq, Eq, Structural)]
pub enum Eye {
    Left,
    Right,
}

#[derive(Clone, Copy, Debug, PartialEq, Eq, Structural)]
pub enum WindowMode {
    Normal,
    LineShift,
    Affine,
    Obj,
}

#[derive(Clone, Copy, Debug, PartialEq, Eq, Structural)]
pub enum ObjGroup {
    Group0,
    Group1,
    Group2,
    Group3,
}

/// One bit for each of the five interrupt sources.
#[derive(Clone, Copy, Debug, PartialEq, Eq, Structural)]
pub struct InterruptFlags {
    pub left_display_finished: bool,
    pub right_display_finished: bool,
    pub drawing_started: bool,
    pub start_of_frame_processing: bool,
    pub drawing_finished: bool,
}

pub const LEFT_DISPLAY_FINISHED_BIT: u16 = 0x0002;
pub const RIGHT_DISPLAY_FINISHED_BIT: u16 = 0x0004;
pub const DRAWING_STARTED_BIT: u16 = 0x0008;
pub const START_OF_FRAME_PROCESSING_BIT: u16 = 0x0010;
pub const DRAWING_FINISHED_BIT: u16 = 0x4000;

impl InterruptFlags {
    pub open spec fn none() -> InterruptFlags {
        InterruptFlags {
            left_display_finished: false,
            right_display_finished: false,
            drawing_started: false,
            start_of_frame_processing: false,
            drawing_finished: false,
        }
    }

    /// The flags as the interrupt registers lay them out.
    pub open spec fn bits(self) -> u16 {
        (if self.left_display_finished { LEFT_DISPLAY_FINISHED_BIT } else { 0 })
            | (if self.right_display_finished { RIGHT_DISPLAY_FINISHED_BIT } else { 0 })
            | (if self.drawing_started { DRAWING_STARTED_BIT } else { 0 })
            | (if self.start_of_frame_processing { START_OF_FRAME_PROCESSING_BIT } else { 0 })
            | (if self.drawing_finished { DRAWING_FINISHED_BIT } else { 0 })
    }

    /// The flags that a register value names.
    pub open spec fn of_bits(value: u16) -> InterruptFlags {
        InterruptFlags {
            left_display_finished: value & LEFT_DISPLAY_FINISHED_BIT != 0,
            right_display_finished: value & RIGHT_DISPLAY_FINISHED_BIT != 0,
            drawing_started: value & DRAWING_STARTED_BIT != 0,
            start_of_frame_processing: value & START_OF_FRAME_PROCESSING_BIT != 0,
            drawing_finished: value & DRAWING_FINISHED_BIT != 0,
        }
    }

    /// These flags with every flag of `cleared` taken away.
    pub open spec fn without(self, cleared: InterruptFlags) -> InterruptFlags {
        InterruptFlags {
            left_display_finished: self.left_display_finished && !cleared.left_display_finished,
            right_display_finished: self.right_display_finished
                && !cleared.right_display_finished,
            drawing_started: self.drawing_started && !cleared.drawing_started,
            start_of_frame_processing: self.start_of_frame_processing
                && !cleared.start_of_frame_processing,
            drawing_finished: self.drawing_finished && !cleared.drawing_finished,
        }
    }

    /// The flags that are set in one or the other.
    pub open spec fn union(self, other: InterruptFlags) -> InterruptFlags {
        InterruptFlags {
            left_display_finished: self.left_display_finished || other.left_display_finished,
            right_display_finished: self.right_display_finished || other.right_display_finished,
            drawing_started: self.drawing_started || other.drawing_started,
            start_of_frame_processing: self.start_of_frame_processing
                || other.start_of_frame_processing,
            drawing_finished: self.drawing_finished || other.drawing_finished,
        }
    }

    /// Whether some flag is set in both.
    pub open spec fn overlaps(self, other: InterruptFlags) -> bool {
        ||| self.left_display_finished && other.left_display_finished
        ||| self.right_display_finished && other.right_display_finished
        ||| self.drawing_started && other.drawing_started
        ||| self.start_of_frame_processing && other.start_of_frame_processing
        ||| self.drawing_finished && other.drawing_finished
    }

    pub fn intersects(&self, other: &InterruptFlags) -> (r: bool)
        ensures
            r == self.overlaps(*other),
    {
        (self.left_display_finished && other.left_display_finished) || (
        self.right_display_finished && other.right_display_finished) || (self.drawing_started
            && other.drawing_started) || (self.start_of_frame_processing
            && other.start_of_frame_processing) || (self.drawing_finished
            && other.drawing_finished)
    }

    pub fn new() -> (r: InterruptFlags)
        ensures
            r == InterruptFlags::none(),
    {
        InterruptFlags {
            left_display_finished: false,
            right_display_finished: false,
            drawing_started: false,
            start_of_frame_processing: false,
            drawing_finished: false,
        }
    }

    pub fn to_bits(&self) -> (r: u16)
        ensures
            r == self.bits(),
    {
        (if self.left_display_finished { LEFT_DISPLAY_FINISHED_BIT } else { 0 })
            | (if self.right_display_finished { RIGHT_DISPLAY_FINISHED_BIT } else { 0 })
            | (if self.drawing_started { DRAWING_STARTED_BIT } else { 0 })
            | (if self.start_of_frame_processing { START_OF_FRAME_PROCESSING_BIT } else { 0 })
            | (if self.drawing_finished { DRAWING_FINISHED_BIT } else { 0 })
    }

    pub fn from_bits(value: u16) -> (r: InterruptFlags)
        ensures
            r == InterruptFlags::of_bits(value),
    {
        InterruptFlags {
            left_display_finished: value & LEFT_DISPLAY_FINISHED_BIT != 0,
            right_display_finished: value & RIGHT_DISPLAY_FINISHED_BIT != 0,
            drawing_started: value & DRAWING_STARTED_BIT != 0,
            start_of_frame_processing: value & START_OF_FRAME_PROCESSING_BIT != 0,
            drawing_finished: value & DRAWING_FINISHED_BIT != 0,
        }
    }

    pub fn clear(&self, cleared: InterruptFlags) -> (r: InterruptFlags)
        ensures
            r == self.without(cleared),
    {
        InterruptFlags {
            left_display_finished: self.left_display_finished && !cleared.left_display_finished,
            right_display_finished: self.right_display_finished
                && !cleared.right_display_finished,
            drawing_started: self.drawing_started && !cleared.drawing_started,
            start_of_frame_processing: self.start_of_frame_processing
                && !cleared.start_of_frame_processing,
            drawing_finished: self.drawing_finished && !cleared.drawing_finished,
        }
    }
}

pub const NS_PER_CYCLE: u64 = 50;
pub const FRAME_CLOCK_PERIOD_NS: u64 = 20_000_000;
pub const DISPLAY_PROCESSING_DELAY_PERIOD_NS: u64 = 10_000_000;
pub const DISPLAY_PROCESSING_BUFFER_PERIOD_NS: u64 = 5_000_000;
pub const DRAWING_PERIOD_NS: u64 = 10_000_000;

/// The largest game-frame divisor.
pub const MAX_GAME_FRAME_CONTROL: u32 = 32;

/// Everything the processor holds besides video memory.
#[derive(Clone, Copy, Debug, PartialEq, Eq, Structural)]
pub struct VipRegisters {
    pub display_state: DisplayState,
    pub drawing_state: DrawingState,
    pub interrupt_pending: InterruptFlags,
    pub interrupt_enable: InterruptFlags,
    pub display_enable: bool,
    pub sync_enable: bool,
    pub drawing_enable: bool,
    /// Frame-clock edges to a game frame, 1 to 32.
    pub game_frame_control: u32,
    pub led_brightness_1: u8,
    pub led_brightness_2: u8,
    pub led_brightness_3: u8,
    pub obj_group_0_ptr: u16,
    pub obj_group_1_ptr: u16,
    pub obj_group_2_ptr: u16,
    pub obj_group_3_ptr: u16,
    pub bg_palette_0: u8,
    pub bg_palette_1: u8,
    pub bg_palette_2: u8,
    pub bg_palette_3: u8,
    pub obj_palette_0: u8,
    pub obj_palette_1: u8,
    pub obj_palette_2: u8,
    pub obj_palette_3: u8,
    pub clear_color: u8,
    /// Nanoseconds since the last frame-clock edge.
    pub frame_clock_counter: u64,
    /// Frame-clock edges since the last game frame.
    pub game_frame_clock_counter: u32,
    /// Nanoseconds of the running drawing period.
    pub drawing_counter: u64,
    /// Nanoseconds in the current display state.
    pub display_counter: u64,
    /// Which framebuffer pair is displayed; the other one is drawn to.
    pub display_first_framebuffers: bool,
}

/// How long the display pipeline stays in a state.
pub open spec fn display_period(state: DisplayState) -> u64 {
    match state {
        DisplayState::Idle => DISPLAY_PROCESSING_DELAY_PERIOD_NS,
        DisplayState::LeftFramebuffer => DISPLAY_PROCESSING_BUFFER_PERIOD_NS,
        DisplayState::RightFramebuffer => DISPLAY_PROCESSING_BUFFER_PERIOD_NS,
    }
}

impl VipRegisters {
    /// The registers after power-on.
    pub open spec fn initial() -> VipRegisters {
        VipRegisters {
            display_state: DisplayState::Idle,
            drawing_state: DrawingState::Idle,
            interrupt_pending: InterruptFlags::none(),
            interrupt_enable: InterruptFlags::none(),
            display_enable: false,
            sync_enable: false,
            drawing_enable: false,
            game_frame_control: 1,
            led_brightness_1: 0,
            led_brightness_2: 0,
            led_brightness_3: 0,
            obj_group_0_ptr: 0,
            obj_group_1_ptr: 0,
            obj_group_2_ptr: 0,
            obj_group_3_ptr: 0,
            bg_palette_0: 0,
            bg_palette_1: 0,
            bg_palette_2: 0,
            bg_palette_3: 0,
            obj_palette_0: 0,
            obj_palette_1: 0,
            obj_palette_2: 0,
            obj_palette_3: 0,
            clear_color: 0,
            frame_clock_counter: 0,
            game_frame_clock_counter: 0,
            drawing_counter: 0,
            display_counter: 0,
            display_first_framebuffers: false,
        }
    }

    /// What every reachable register file satisfies: counters stay inside
    /// their periods and on the cycle grid, fields inside their widths.
    pub open spec fn wf(self) -> bool {
        &&& 1 <= self.game_frame_control <= MAX_GAME_FRAME_CONTROL
        &&& self.game_frame_clock_counter < MAX_GAME_FRAME_CONTROL
        &&& self.frame_clock_counter < FRAME_CLOCK_PERIOD_NS
        &&& self.frame_clock_counter % NS_PER_CYCLE == 0
        &&& self.display_counter < display_period(self.display_state)
        &&& self.display_counter % NS_PER_CYCLE == 0
        &&& self.drawing_counter <= DRAWING_PERIOD_NS
        &&& self.drawing_counter % NS_PER_CYCLE == 0
        &&& (self.drawing_state is Drawing ==> self.drawing_counter < DRAWING_PERIOD_NS)
        &&& self.obj_group_0_ptr <= 0x03ff
        &&& self.obj_group_1_ptr <= 0x03ff
        &&& self.obj_group_2_ptr <= 0x03ff
        &&& self.obj_group_3_ptr <= 0x03ff
        &&& self.clear_color <= 0x03
    }

    pub fn new() -> (r: VipRegisters)
        ensures
            r == VipRegisters::initial(),
            r.wf(),
    {
        VipRegisters {
            display_state: DisplayState::Idle,
            drawing_state: DrawingState::Idle,
            interrupt_pending: InterruptFlags::new(),
            interrupt_enable: InterruptFlags::new(),
            display_enable: false,
            sync_enable: false,
            drawing_enable: false,
            game_frame_control: 1,
            led_brightness_1: 0,
            led_brightness_2: 0,
            led_brightness_3: 0,
            obj_group_0_ptr: 0,
            obj_group_1_ptr: 0,
            obj_group_2_ptr: 0,
            obj_group_3_ptr: 0,
            bg_palette_0: 0,
            bg_palette_1: 0,
            bg_palette_2: 0,
            bg_palette_3: 0,
            obj_palette_0: 0,
            obj_palette_1: 0,
            obj_palette_2: 0,
            obj_palette_3: 0,
            clear_color: 0,
            frame_clock_counter: 0,
            game_frame_clock_counter: 0,
            drawing_counter: 0,
            display_counter: 0,
            display_first_framebuffers: false,
        }
    }
}

} // verus!
