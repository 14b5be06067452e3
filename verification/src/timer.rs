//! The programmable timer: a 16-bit down-counter that CPU cycles drive.

use vstd::prelude::*;

verus! {

pub const CPU_CYCLE_PERIOD_NS: u64 = 50;
pub const LARGE_INTERVAL_PERIOD_NS: u64 = 100_000;
pub const SMALL_INTERVAL_PERIOD_NS: u64 = 20_000;

pub const CONTROL_ENABLE_BIT: u8 = 0x01;
pub const CONTROL_ZERO_STATUS_BIT: u8 = 0x02;
pub const CONTROL_CLEAR_ZERO_STATUS_BIT: u8 = 0x04;
pub const CONTROL_ZERO_INTERRUPT_ENABLE_BIT: u8 = 0x08;
pub const CONTROL_INTERVAL_BIT: u8 = 0x10;

/// How long a tick of the counter takes.
#[derive(Clone, Copy, Debug, PartialEq, Eq, Structural)]
pub enum Interval {
    /// 100 µs
    Large,
    /// 20 µs
    Small,
}

impl Interval {
    /// The interval in nanoseconds.
    pub open spec fn period_ns(self) -> u64 {
        match self {
            Interval::Large => LARGE_INTERVAL_PERIOD_NS,
            Interval::Small => SMALL_INTERVAL_PERIOD_NS,
        }
    }
}

/// The timer's state.
#[derive(Clone, Copy, Debug, PartialEq, Eq, Structural)]
pub struct TimerState {
    pub interval: Interval,
    pub zero_interrupt_enable: bool,
    pub zero_status: bool,
    pub enable: bool,
    pub reload: u16,
    pub counter: u16,
    /// Nanoseconds since the last tick.
    pub tick_counter: u64,
}

impl TimerState {
    /// The state after power-on.
    pub open spec fn initial() -> TimerState {
        TimerState {
            interval: Interval::Large,
            zero_interrupt_enable: false,
            zero_status: false,
            enable: false,
            reload: 0,
            counter: 0,
            tick_counter: 0,
        }
    }

    /// The time since the last tick stays below the longer interval.
    pub open spec fn wf(self) -> bool {
        self.tick_counter < LARGE_INTERVAL_PERIOD_NS
    }

    /// What the control register reads as: the interval in bit 4, the
    /// zero-interrupt enable in bit 3, the zero status in bit 1 and the enable
    /// in bit 0.
    pub open spec fn control(self) -> u8 {
        (if self.interval is Small { CONTROL_INTERVAL_BIT } else { 0 }) | (
        if self.zero_interrupt_enable { CONTROL_ZERO_INTERRUPT_ENABLE_BIT } else { 0 }) | (
        if self.zero_status { CONTROL_ZERO_STATUS_BIT } else { 0 }) | (if self.enable {
            CONTROL_ENABLE_BIT
        } else {
            0
        })
    }

    /// The state after a write to the control register. The clear bit clears
    /// the zero status only where the value written leaves the zero interrupt
    /// disabled.
    pub open spec fn with_control(self, value: u8) -> TimerState {
        let zero_interrupt_enable = value & CONTROL_ZERO_INTERRUPT_ENABLE_BIT != 0;
        TimerState {
            interval: if value & CONTROL_INTERVAL_BIT == 0 {
                Interval::Large
            } else {
                Interval::Small
            },
            zero_interrupt_enable,
            zero_status: if value & CONTROL_CLEAR_ZERO_STATUS_BIT != 0 && !zero_interrupt_enable {
                false
            } else {
                self.zero_status
            },
            enable: value & CONTROL_ENABLE_BIT != 0,
            ..self
        }
    }

    /// The state after a write to the low reload register: the byte written
    /// becomes the low byte of the reload value, whose high byte stays, and
    /// the counter takes the new reload value at once.
    pub open spec fn with_reload_low(self, value: u8) -> TimerState {
        let reload = (self.reload & 0xff00) | (value as u16);
        TimerState { reload, counter: reload, ..self }
    }

    /// The state after a write to the high reload register: the byte written
    /// becomes the high byte of the reload value, whose low byte stays, and
    /// the counter takes the new reload value at once.
    pub open spec fn with_reload_high(self, value: u8) -> TimerState {
        let reload = (self.reload & 0x00ff) | ((value as u16) << 8);
        TimerState { reload, counter: reload, ..self }
    }

    /// Whether the next CPU cycle completes a tick of the counter.
    pub open spec fn ticks(self) -> bool {
        self.enable && self.tick_counter + CPU_CYCLE_PERIOD_NS >= self.interval.period_ns()
    }

    /// Whether the next CPU cycle is a zero edge: a tick that finds the
    /// counter at zero.
    pub open spec fn zero_edge(self) -> bool {
        self.ticks() && self.counter == 0
    }

    /// The state one CPU cycle later. A stopped timer stands still. A running
    /// one gathers 50 ns a cycle; a full interval is a tick, which counts
    /// down, or on a zero edge reloads the counter and latches the zero
    /// status.
    pub open spec fn after_cycle(self) -> TimerState {
        if !self.enable {
            self
        } else if !self.ticks() {
            TimerState { tick_counter: (self.tick_counter + CPU_CYCLE_PERIOD_NS) as u64, ..self }
        } else if self.counter == 0 {
            TimerState { tick_counter: 0, counter: self.reload, zero_status: true, ..self }
        } else {
            TimerState { tick_counter: 0, counter: (self.counter - 1) as u16, ..self }
        }
    }

    /// The state `n` CPU cycles later.
    pub open spec fn after_cycles(self, n: nat) -> TimerState
        decreases n,
    {
        if n == 0 {
            self
        } else {
            self.after_cycles((n - 1) as nat).after_cycle()
        }
    }

    /// Whether one of the next `n` CPU cycles is a zero edge.
    pub open spec fn zero_edge_within(self, n: nat) -> bool
        decreases n,
    {
        n > 0 && (self.zero_edge_within((n - 1) as nat) || self.after_cycles(
            (n - 1) as nat,
        ).zero_edge())
    }

    /// Whether the timer raises its interrupt in the next `n` CPU cycles: one
    /// of them is a zero edge, and the zero interrupt is enabled.
    pub open spec fn raises_interrupt(self, n: nat) -> bool {
        self.zero_interrupt_enable && self.zero_edge_within(n)
    }
}

pub struct Timer {
    interval: Interval,
    zero_interrupt_enable: bool,
    zero_status: bool,
    enable: bool,
    reload: u16,
    counter: u16,
    tick_counter: u64,
}

impl View for Timer {
    type V = TimerState;

    closed spec fn view(&self) -> TimerState {
        TimerState {
            interval: self.interval,
            zero_interrupt_enable: self.zero_interrupt_enable,
            zero_status: self.zero_status,
            enable: self.enable,
            reload: self.reload,
            counter: self.counter,
            tick_counter: self.tick_counter,
        }
    }
}

impl Timer {
    #[verifier::type_invariant]
    spec fn inv(self) -> bool {
        self@.wf()
    }

    pub fn new() -> (timer: Timer)
        ensures
            timer@ == TimerState::initial(),
    {
        Timer {
            interval: Interval::Large,
            zero_interrupt_enable: false,
            zero_status: false,
            enable: false,
            reload: 0,
            counter: 0,
            tick_counter: 0,
        }
    }

    pub fn read_control_reg(&self) -> (r: u8)
        ensures
            r == self@.control(),
    {
        (match self.interval {
            Interval::Large => 0,
            Interval::Small => CONTROL_INTERVAL_BIT,
        }) | (if self.zero_interrupt_enable { CONTROL_ZERO_INTERRUPT_ENABLE_BIT } else { 0 }) | (
        if self.zero_status { CONTROL_ZERO_STATUS_BIT } else { 0 }) | (if self.enable {
            CONTROL_ENABLE_BIT
        } else {
            0
        })
    }

    pub fn write_control_reg(&mut self, value: u8)
        ensures
            final(self)@ == old(self)@.with_control(value),
            final(self)@.wf(),
    {
        proof {
            use_type_invariant(&*self);
        }
        self.interval = if (value & CONTROL_INTERVAL_BIT) == 0 {
            Interval::Large
        } else {
            Interval::Small
        };
        self.zero_interrupt_enable = (value & CONTROL_ZERO_INTERRUPT_ENABLE_BIT) != 0;
        if (value & CONTROL_CLEAR_ZERO_STATUS_BIT) != 0 && !self.zero_interrupt_enable {
            self.zero_status = false;
        }
        self.enable = (value & CONTROL_ENABLE_BIT) != 0;
    }

    pub fn read_counter_reload_low_reg(&self) -> (r: u8)
        ensures
            r == self@.counter as u8,
    {
        self.counter as u8
    }

    pub fn write_counter_reload_low_reg(&mut self, value: u8)
        ensures
            final(self)@ == old(self)@.with_reload_low(value),
            final(self)@.wf(),
    {
        proof {
            use_type_invariant(&*self);
        }
        self.reload = (self.reload & 0xff00) | (value as u16);
        self.counter = self.reload;
    }

    pub fn read_counter_reload_high_reg(&self) -> (r: u8)
        ensures
            r == (self@.counter >> 8) as u8,
    {
        (self.counter >> 8) as u8
    }

    pub fn write_counter_reload_high_reg(&mut self, value: u8)
        ensures
            final(self)@ == old(self)@.with_reload_high(value),
            final(self)@.wf(),
    {
        proof {
            use_type_invariant(&*self);
        }
        self.reload = (self.reload & 0x00ff) | ((value as u16) << 8);
        self.counter = self.reload;
    }

    /// Advances the timer by the given number of CPU cycles and says whether
    /// it raised its interrupt in them.
    pub fn cycles(&mut self, cycles: usize) -> (raise_interrupt: bool)
        ensures
            final(self)@ == old(self)@.after_cycles(cycles as nat),
            final(self)@.wf(),
            raise_interrupt == old(self)@.raises_interrupt(cycles as nat),
    {
        proof {
            use_type_invariant(&*self);
        }
        let mut zero_edge = false;
        if self.enable {
            let mut done: usize = 0;
            while done < cycles
                invariant
                    done <= cycles,
                    self.enable,
                    self@ == old(self)@.after_cycles(done as nat),
                    self.zero_interrupt_enable == old(self).zero_interrupt_enable,
                    zero_edge == old(self)@.zero_edge_within(done as nat),
                decreases cycles - done,
            {
                proof {
                    use_type_invariant(&*self);
                }
                let tick_period: u64 = match self.interval {
                    Interval::Large => LARGE_INTERVAL_PERIOD_NS,
                    Interval::Small => SMALL_INTERVAL_PERIOD_NS,
                };
                let elapsed: u64 = self.tick_counter + CPU_CYCLE_PERIOD_NS;
                if elapsed >= tick_period {
                    self.tick_counter = 0;
                    if self.counter == 0 {
                        self.zero_status = true;
                        self.counter = self.reload;
                        zero_edge = true;
                    } else {
                        self.counter = self.counter - 1;
                    }
                } else {
                    self.tick_counter = elapsed;
                }
                done = done + 1;
            }
        } else {
            proof {
                lemma_stopped_stands_still(self@, cycles as nat);
            }
        }
        proof {
            use_type_invariant(&*self);
        }
        self.zero_interrupt_enable && zero_edge
    }
}

/// The two bytes of a halfword that is made of them.
pub proof fn lemma_reload_bytes(reload: u16, value: u8)
    by (bit_vector)
    ensures
        (((reload & 0xff00) | (value as u16)) as u8) == value,
        ((((reload & 0xff00) | (value as u16)) >> 8) as u8) == ((reload >> 8) as u8),
        (((reload & 0x00ff) | ((value as u16) << 8)) as u8) == (reload as u8),
        ((((reload & 0x00ff) | ((value as u16) << 8)) >> 8) as u8) == value,
{
}

/// A byte written to a reload register replaces the byte that was there and
/// leaves the other byte of the reload value alone; the counter reads as the
/// new reload value; nothing else changes.
pub proof fn lemma_reload_write(timer: TimerState, value: u8)
    ensures
        timer.with_reload_low(value).reload as u8 == value,
        (timer.with_reload_low(value).reload >> 8) as u8 == (timer.reload >> 8) as u8,
        timer.with_reload_low(value).counter == timer.with_reload_low(value).reload,
        timer.with_reload_low(value).control() == timer.control(),
        timer.with_reload_high(value).reload as u8 == timer.reload as u8,
        (timer.with_reload_high(value).reload >> 8) as u8 == value,
        timer.with_reload_high(value).counter == timer.with_reload_high(value).reload,
        timer.with_reload_high(value).control() == timer.control(),
        timer.with_reload_low(value).with_reload_low(value) == timer.with_reload_low(value),
        timer.with_reload_high(value).with_reload_high(value) == timer.with_reload_high(value),
{
    lemma_reload_bytes(timer.reload, value);
    lemma_reload_rewritten(timer.reload, value);
}

proof fn lemma_reload_rewritten(reload: u16, value: u8)
    by (bit_vector)
    ensures
        (((reload & 0xff00) | (value as u16)) & 0xff00) | (value as u16) == (reload & 0xff00) | (
        value as u16),
        (((reload & 0x00ff) | ((value as u16) << 8)) & 0x00ff) | ((value as u16) << 8) == (reload
            & 0x00ff) | ((value as u16) << 8),
{
}

/// A stopped timer is the same after any number of cycles, and sees no zero
/// edge.
pub proof fn lemma_stopped_stands_still(timer: TimerState, n: nat)
    requires
        !timer.enable,
    ensures
        timer.after_cycles(n) == timer,
        !timer.zero_edge_within(n),
    decreases n,
{
    if n > 0 {
        lemma_stopped_stands_still(timer, (n - 1) as nat);
    }
}

/// The zero interrupt's enable stays as it is while the timer runs.
pub proof fn lemma_enable_stays(timer: TimerState, n: nat)
    ensures
        timer.after_cycles(n).zero_interrupt_enable == timer.zero_interrupt_enable,
    decreases n,
{
    if n > 0 {
        lemma_enable_stays(timer, (n - 1) as nat);
    }
}

/// Advancing by a number of cycles at once, or in two parts, leads to the
/// same state, and the interrupt is raised at once exactly if it is raised
/// in one of the parts.
pub proof fn lemma_cycles_split(timer: TimerState, first: nat, rest: nat)
    ensures
        timer.after_cycles(first + rest) == timer.after_cycles(first).after_cycles(rest),
        timer.zero_edge_within(first + rest) == (timer.zero_edge_within(first)
            || timer.after_cycles(first).zero_edge_within(rest)),
        timer.raises_interrupt(first + rest) == (timer.raises_interrupt(first)
            || timer.after_cycles(first).raises_interrupt(rest)),
    decreases rest,
{
    lemma_enable_stays(timer, first);
    if rest > 0 {
        lemma_cycles_split(timer, first, (rest - 1) as nat);
        assert((first + rest - 1) as nat == first + (rest - 1) as nat);
    }
}

/// Any number of cycles keeps a state well-formed.
pub proof fn lemma_after_cycles_wf(timer: TimerState, n: nat)
    requires
        timer.wf(),
    ensures
        timer.after_cycles(n).wf(),
    decreases n,
{
    if n > 0 {
        lemma_after_cycles_wf(timer, (n - 1) as nat);
    }
}

} // verus!
