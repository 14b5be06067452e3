//! The sound unit: five wave channels and a noise channel, mixed into stereo
//! frames at the host's sample rate.
//!
//! The unit is write-only. Its region repeats every 2 KiB. The waveforms take
//! the first 0x280 bytes, one 6-bit sample every four bytes; each channel has
//! a block of registers from 0x400 on, 0x40 bytes apart; the register at 0x580
//! stops every channel.

use vstd::prelude::*;
use crate::bits::lemma_mask_bound_u8;
use crate::sinks::AudioFrame;
use crate::sinks::Recorded;
use crate::sinks::Sink;

verus! {

pub const SAMPLE_RATE: u32 = 41_700;

/// CPU cycles to an audio frame: 20 MHz over the sample rate, rounded down.
pub const CPU_CYCLES_PER_AUDIO_FRAME: u32 = 479;

pub const CHANNEL_COUNT: usize = 6;
pub const NOISE_CHANNEL: usize = 5;
pub const WAVEFORM_COUNT: usize = 5;
pub const SAMPLES_PER_WAVEFORM: usize = 32;
pub const WAVE_RAM_SIZE: usize = 160;

/// CPU cycles to a unit of a channel's interval: 3.84 ms.
pub const INTERVAL_UNIT_CYCLES: u32 = 76_800;

pub const ADDRESS_MASK: u32 = 0x07ff;
pub const WAVE_RAM_END: u32 = 0x0280;
pub const CHANNELS_START: u32 = 0x0400;
pub const CHANNEL_LENGTH: u32 = 0x40;
pub const CHANNELS_END: u32 = 0x0580;
pub const STOP_REG: u32 = 0x0580;

pub const PLAY_CONTROL_REG: u32 = 0x00;
pub const VOLUME_REG: u32 = 0x04;
pub const FREQUENCY_LOW_REG: u32 = 0x08;
pub const FREQUENCY_HIGH_REG: u32 = 0x0c;
pub const ENVELOPE_REG: u32 = 0x10;
pub const WAVEFORM_REG: u32 = 0x18;

pub const NOISE_SEED: u16 = 0x7fff;

/// One channel.
#[derive(Clone, Copy, Debug, PartialEq, Eq, Structural)]
pub struct Channel {
    pub enable: bool,
    /// Whether the channel stops by itself when its interval is over.
    pub interval_enable: bool,
    /// The interval, in units of 3.84 ms, less one: 0 to 31.
    pub interval: u8,
    /// CPU cycles since the channel was started.
    pub interval_counter: u32,
    /// 0 to 15.
    pub volume_left: u8,
    /// 0 to 15.
    pub volume_right: u8,
    /// Eleven bits; the higher, the shorter the channel's period.
    pub frequency: u16,
    /// The envelope's level, 0 to 15.
    pub envelope: u8,
    /// The waveform that a wave channel plays; 5 to 7 name none.
    pub waveform: u8,
    /// Where in its waveform a wave channel stands, 0 to 31.
    pub phase: u8,
    /// The noise channel's shift register, fifteen bits.
    pub noise: u16,
    /// CPU cycles since the last step of the phase or the shift register.
    pub clock: u32,
}

impl Channel {
    pub open spec fn initial() -> Channel {
        Channel {
            enable: false,
            interval_enable: false,
            interval: 0,
            interval_counter: 0,
            volume_left: 0,
            volume_right: 0,
            frequency: 0,
            envelope: 0,
            waveform: 0,
            phase: 0,
            noise: NOISE_SEED,
            clock: 0,
        }
    }

    pub open spec fn wf(self) -> bool {
        &&& self.interval <= 31
        &&& self.interval_counter <= 32 * INTERVAL_UNIT_CYCLES
        &&& self.volume_left <= 15
        &&& self.volume_right <= 15
        &&& self.frequency <= 0x07ff
        &&& self.envelope <= 15
        &&& self.waveform <= 7
        &&& self.phase <= 31
        &&& self.noise <= 0x7fff
        &&& self.clock < 8192
    }

    /// CPU cycles to a step of the channel: four for every count that the
    /// frequency lacks to 2048.
    pub open spec fn period(self) -> u32 {
        ((2048 - self.frequency) * 4) as u32
    }

    /// CPU cycles after which the channel stops by itself.
    pub open spec fn interval_cycles(self) -> u32 {
        ((self.interval + 1) * INTERVAL_UNIT_CYCLES) as u32
    }

    /// The shift register one step later: bits 14 and 13 feed bit 0.
    pub open spec fn next_noise(self) -> u16 {
        ((self.noise << 1) | (((self.noise >> 14) ^ (self.noise >> 13)) & 1)) & 0x7fff
    }

    /// The channel one CPU cycle later. A stopped channel stands still. A
    /// running one steps its phase, and its shift register, once a period,
    /// and stops when its interval is over.
    pub open spec fn after_cycle(self) -> Channel {
        if !self.enable {
            self
        } else {
            let stepped = if self.clock + 1 >= self.period() {
                Channel {
                    clock: 0,
                    phase: ((self.phase + 1) % 32) as u8,
                    noise: self.next_noise(),
                    ..self
                }
            } else {
                Channel { clock: (self.clock + 1) as u32, ..self }
            };
            if !self.interval_enable {
                stepped
            } else if self.interval_counter + 1 >= self.interval_cycles() {
                Channel { enable: false, interval_counter: 0, ..stepped }
            } else {
                Channel { interval_counter: (self.interval_counter + 1) as u32, ..stepped }
            }
        }
    }

    /// The channel after a write to one of its registers; writes elsewhere
    /// in its block change nothing. A write to the play-control register
    /// restarts the interval.
    pub open spec fn with_register(self, register: u32, value: u8) -> Channel {
        if register == PLAY_CONTROL_REG {
            Channel {
                enable: value & 0x80 != 0,
                interval_enable: value & 0x20 != 0,
                interval: value & 0x1f,
                interval_counter: 0,
                ..self
            }
        } else if register == VOLUME_REG {
            Channel { volume_left: value >> 4, volume_right: value & 0x0f, ..self }
        } else if register == FREQUENCY_LOW_REG {
            Channel { frequency: (self.frequency & 0x0700) | (value as u16), ..self }
        } else if register == FREQUENCY_HIGH_REG {
            Channel {
                frequency: (self.frequency & 0x00ff) | (((value & 0x07) as u16) << 8),
                ..self
            }
        } else if register == ENVELOPE_REG {
            Channel { envelope: value >> 4, ..self }
        } else if register == WAVEFORM_REG {
            Channel { waveform: value & 0x07, ..self }
        } else {
            self
        }
    }
}

/// Facts about the fields that register writes and steps compute.
pub proof fn lemma_channel_fields(value: u8, frequency: u16, noise: u16)
    by (bit_vector)
    ensures
        value >> 4 <= 15,
        (frequency & 0x0700) | (value as u16) <= 0x07ff,
        (frequency & 0x00ff) | (((value & 0x07) as u16) << 8) <= 0x07ff,
        ((noise << 1) | (((noise >> 14) ^ (noise >> 13)) & 1)) & 0x7fff <= 0x7fff,
{
}

/// The sound unit's state.
pub struct VsuState {
    /// The five waveforms, 32 samples of six bits each.
    pub wave_ram: Seq<u8>,
    pub channels: Seq<Channel>,
    /// CPU cycles since the last audio frame.
    pub sample_clock: u32,
}

impl VsuState {
    pub open spec fn initial() -> VsuState {
        VsuState {
            wave_ram: Seq::new(WAVE_RAM_SIZE as nat, |i: int| 0u8),
            channels: Seq::new(CHANNEL_COUNT as nat, |i: int| Channel::initial()),
            sample_clock: 0,
        }
    }

    pub open spec fn wf(self) -> bool {
        &&& self.wave_ram.len() == WAVE_RAM_SIZE
        &&& forall|i: int| 0 <= i < WAVE_RAM_SIZE ==> #[trigger] self.wave_ram[i] <= 63
        &&& self.channels.len() == CHANNEL_COUNT
        &&& forall|i: int| 0 <= i < CHANNEL_COUNT ==> (#[trigger] self.channels[i]).wf()
        &&& self.sample_clock < CPU_CYCLES_PER_AUDIO_FRAME
    }

    /// The sample that a channel puts out, 0 to 63: a wave channel the sample
    /// of its waveform that its phase points at, the noise channel all or
    /// nothing by bit 0 of its shift register; a stopped channel, and a
    /// wave channel with no waveform, nothing.
    pub open spec fn channel_sample(self, index: int) -> u32 {
        let channel = self.channels[index];
        if !channel.enable {
            0
        } else if index == NOISE_CHANNEL {
            if channel.noise & 1 != 0 {
                63
            } else {
                0
            }
        } else if channel.waveform as int >= WAVEFORM_COUNT {
            0
        } else {
            self.wave_ram[channel.waveform * SAMPLES_PER_WAVEFORM + channel.phase] as u32
        }
    }

    /// What the first `n` channels put out together on the left.
    pub open spec fn left_sum(self, n: nat) -> int
        decreases n,
    {
        if n == 0 {
            0
        } else {
            let channel = self.channels[n - 1];
            self.left_sum((n - 1) as nat) + self.channel_sample(n - 1) * channel.volume_left
                * channel.envelope
        }
    }

    /// What the first `n` channels put out together on the right.
    pub open spec fn right_sum(self, n: nat) -> int
        decreases n,
    {
        if n == 0 {
            0
        } else {
            let channel = self.channels[n - 1];
            self.right_sum((n - 1) as nat) + self.channel_sample(n - 1) * channel.volume_right
                * channel.envelope
        }
    }

    /// The audio frame of the current state: on each side the channels'
    /// samples, each times its volume and its envelope level, added up and
    /// held to what a sample can be.
    pub open spec fn frame(self) -> AudioFrame {
        (clamped(self.left_sum(CHANNEL_COUNT as nat)), clamped(self.right_sum(CHANNEL_COUNT as nat)))
    }

    /// Whether the next CPU cycle completes an audio frame.
    pub open spec fn frame_due(self) -> bool {
        self.sample_clock + 1 >= CPU_CYCLES_PER_AUDIO_FRAME
    }

    /// The state one CPU cycle later: every channel advances, and so does the
    /// sample clock.
    pub open spec fn after_cycle(self) -> VsuState {
        VsuState {
            wave_ram: self.wave_ram,
            channels: Seq::new(self.channels.len(), |i: int| self.channels[i].after_cycle()),
            sample_clock: if self.frame_due() {
                0
            } else {
                (self.sample_clock + 1) as u32
            },
        }
    }

    /// The audio frame that this cycle pushes to the sink: where a frame is
    /// due, the frame of the state that the cycle leads to.
    pub open spec fn frame_of_cycle(self) -> Option<AudioFrame> {
        if self.frame_due() {
            Some(self.after_cycle().frame())
        } else {
            None
        }
    }

    /// The state `n` CPU cycles later.
    pub open spec fn after_cycles(self, n: nat) -> VsuState
        decreases n,
    {
        if n == 0 {
            self
        } else {
            self.after_cycles((n - 1) as nat).after_cycle()
        }
    }

    /// The audio frames that the next `n` CPU cycles push to the sink.
    pub open spec fn frames_of_cycles(self, n: nat) -> Seq<AudioFrame>
        decreases n,
    {
        if n == 0 {
            Seq::empty()
        } else {
            let before = self.frames_of_cycles((n - 1) as nat);
            match self.after_cycles((n - 1) as nat).frame_of_cycle() {
                Some(frame) => before.push(frame),
                None => before,
            }
        }
    }

    /// The state after a byte was written. The address is reduced to the
    /// 2 KiB that the unit decodes and to a multiple of four.
    pub open spec fn write_byte(self, addr: u32, value: u8) -> VsuState {
        let offset = (addr & ADDRESS_MASK) & 0xffff_fffc;
        if offset < WAVE_RAM_END {
            VsuState { wave_ram: self.wave_ram.update(offset as int / 4, value & 0x3f), ..self }
        } else if CHANNELS_START <= offset < CHANNELS_END {
            let index = (offset - CHANNELS_START) / CHANNEL_LENGTH as int;
            let register = ((offset - CHANNELS_START) % CHANNEL_LENGTH as int) as u32;
            VsuState {
                channels: self.channels.update(
                    index,
                    self.channels[index].with_register(register, value),
                ),
                ..self
            }
        } else if offset == STOP_REG && value & 0x01 != 0 {
            VsuState {
                channels: Seq::new(
                    self.channels.len(),
                    |i: int| Channel { enable: false, ..self.channels[i] },
                ),
                ..self
            }
        } else {
            self
        }
    }
}

/// A sum of channel outputs as a sample: at most 32767.
pub open spec fn clamped(sum: int) -> i16 {
    if sum > 32767 {
        32767
    } else {
        sum as i16
    }
}

pub struct Vsu {
    wave_ram: Vec<u8>,
    channels: Vec<Channel>,
    sample_clock: u32,
}

impl View for Vsu {
    type V = VsuState;

    closed spec fn view(&self) -> VsuState {
        VsuState {
            wave_ram: self.wave_ram@,
            channels: self.channels@,
            sample_clock: self.sample_clock,
        }
    }
}

fn new_channel() -> (channel: Channel)
    ensures
        channel == Channel::initial(),
{
    Channel {
        enable: false,
        interval_enable: false,
        interval: 0,
        interval_counter: 0,
        volume_left: 0,
        volume_right: 0,
        frequency: 0,
        envelope: 0,
        waveform: 0,
        phase: 0,
        noise: NOISE_SEED,
        clock: 0,
    }
}

fn advance_channel(channel: Channel) -> (r: Channel)
    requires
        channel.wf(),
    ensures
        r == channel.after_cycle(),
        r.wf(),
{
    if !channel.enable {
        return channel;
    }
    proof {
        lemma_channel_fields(0, 0, channel.noise);
    }
    let mut r = channel;
    let period: u32 = (2048 - channel.frequency as u32) * 4;
    if channel.clock + 1 >= period {
        r.clock = 0;
        r.phase = (channel.phase + 1) % 32;
        r.noise = ((channel.noise << 1) | (((channel.noise >> 14) ^ (channel.noise >> 13)) & 1))
            & 0x7fff;
    } else {
        r.clock = channel.clock + 1;
    }
    if channel.interval_enable {
        let interval_cycles: u32 = (channel.interval as u32 + 1) * INTERVAL_UNIT_CYCLES;
        if channel.interval_counter + 1 >= interval_cycles {
            r.enable = false;
            r.interval_counter = 0;
        } else {
            r.interval_counter = channel.interval_counter + 1;
        }
    }
    r
}

fn write_channel_register(channel: Channel, register: u32, value: u8) -> (r: Channel)
    requires
        channel.wf(),
    ensures
        r == channel.with_register(register, value),
        r.wf(),
{
    proof {
        lemma_channel_fields(value, channel.frequency, 0);
        lemma_mask_bound_u8(value, 0x1f);
        lemma_mask_bound_u8(value, 0x0f);
        lemma_mask_bound_u8(value, 0x07);
    }
    let mut r = channel;
    if register == PLAY_CONTROL_REG {
        r.enable = (value & 0x80) != 0;
        r.interval_enable = (value & 0x20) != 0;
        r.interval = value & 0x1f;
        r.interval_counter = 0;
    } else if register == VOLUME_REG {
        r.volume_left = value >> 4;
        r.volume_right = value & 0x0f;
    } else if register == FREQUENCY_LOW_REG {
        r.frequency = (channel.frequency & 0x0700) | (value as u16);
    } else if register == FREQUENCY_HIGH_REG {
        r.frequency = (channel.frequency & 0x00ff) | (((value & 0x07) as u16) << 8);
    } else if register == ENVELOPE_REG {
        r.envelope = value >> 4;
    } else if register == WAVEFORM_REG {
        r.waveform = value & 0x07;
    }
    r
}

impl Vsu {
    pub fn new() -> (vsu: Vsu)
        ensures
            vsu@ == VsuState::initial(),
            vsu@.wf(),
    {
        let wave_ram = vec![0u8; WAVE_RAM_SIZE];
        let channels = vec![new_channel(); CHANNEL_COUNT];
        assert(wave_ram@ =~= VsuState::initial().wave_ram);
        assert(channels@ =~= VsuState::initial().channels);
        Vsu { wave_ram, channels, sample_clock: 0 }
    }

    /// The unit is write-only: every read returns 0.
    pub fn read_byte(&self, addr: u32) -> (r: u8)
        ensures
            r == 0,
    {
        0
    }

    /// The unit is write-only: every read returns 0.
    pub fn read_halfword(&self, addr: u32) -> (r: u16)
        ensures
            r == 0,
    {
        0
    }

    /// The unit is write-only: every read returns 0.
    pub fn read_word(&self, addr: u32) -> (r: u32)
        ensures
            r == 0,
    {
        0
    }

    pub fn write_byte(&mut self, addr: u32, value: u8)
        requires
            old(self)@.wf(),
        ensures
            final(self)@ == old(self)@.write_byte(addr, value),
            final(self)@.wf(),
    {
        proof {
            crate::bits::lemma_mask_bound_u32(addr, ADDRESS_MASK);
            crate::bits::lemma_mask_bound_u32(addr & ADDRESS_MASK, 0xffff_fffc);
            lemma_mask_bound_u8(value, 0x3f);
            lemma_word_aligned(addr & ADDRESS_MASK);
        }
        let offset: u32 = (addr & ADDRESS_MASK) & 0xffff_fffc;
        if offset < WAVE_RAM_END {
            self.wave_ram[(offset / 4) as usize] = value & 0x3f;
        } else if offset >= CHANNELS_START && offset < CHANNELS_END {
            let index: usize = ((offset - CHANNELS_START) / CHANNEL_LENGTH) as usize;
            let register: u32 = (offset - CHANNELS_START) % CHANNEL_LENGTH;
            let channel = write_channel_register(self.channels[index], register, value);
            self.channels[index] = channel;
        } else if offset == STOP_REG && (value & 0x01) != 0 {
            let ghost before = self.channels@;
            let mut i: usize = 0;
            while i < CHANNEL_COUNT
                invariant
                    i <= CHANNEL_COUNT,
                    before.len() == CHANNEL_COUNT,
                    self.channels.len() == CHANNEL_COUNT,
                    self.wave_ram == old(self).wave_ram,
                    self.sample_clock == old(self).sample_clock,
                    old(self)@.wf(),
                    forall|j: int| 0 <= j < CHANNEL_COUNT ==> (#[trigger] before[j]).wf(),
                    forall|j: int|
                        0 <= j < i ==> self.channels@[j] == (Channel {
                            enable: false,
                            ..before[j]
                        }),
                    forall|j: int| i <= j < CHANNEL_COUNT ==> self.channels@[j] == before[j],
                decreases CHANNEL_COUNT - i,
            {
                let mut channel = self.channels[i];
                channel.enable = false;
                self.channels[i] = channel;
                i = i + 1;
            }
            assert(self.channels@ =~= old(self)@.write_byte(addr, value).channels);
        }
    }

    /// Writes the low byte of the halfword.
    pub fn write_halfword(&mut self, addr: u32, value: u16)
        requires
            old(self)@.wf(),
        ensures
            final(self)@ == old(self)@.write_byte(addr, value as u8),
            final(self)@.wf(),
    {
        self.write_byte(addr, value as u8);
    }

    /// Writes the lowest byte of the word.
    pub fn write_word(&mut self, addr: u32, value: u32)
        requires
            old(self)@.wf(),
        ensures
            final(self)@ == old(self)@.write_byte(addr, value as u8),
            final(self)@.wf(),
    {
        self.write_byte(addr, value as u8);
    }

    /// The sample that a channel puts out.
    fn channel_sample(&self, index: usize) -> (r: u32)
        requires
            self@.wf(),
            index < CHANNEL_COUNT,
        ensures
            r == self@.channel_sample(index as int),
            r <= 63,
    {
        let channel = self.channels[index];
        if !channel.enable {
            0
        } else if index == NOISE_CHANNEL {
            if (channel.noise & 1) != 0 {
                63
            } else {
                0
            }
        } else if channel.waveform as usize >= WAVEFORM_COUNT {
            0
        } else {
            self.wave_ram[channel.waveform as usize * SAMPLES_PER_WAVEFORM
                + channel.phase as usize] as u32
        }
    }

    /// Mixes the channels into an audio frame.
    fn mix(&self) -> (r: AudioFrame)
        requires
            self@.wf(),
        ensures
            r == self@.frame(),
    {
        let mut left: u32 = 0;
        let mut right: u32 = 0;
        let mut i: usize = 0;
        while i < CHANNEL_COUNT
            invariant
                self@.wf(),
                i <= CHANNEL_COUNT,
                left == self@.left_sum(i as nat),
                right == self@.right_sum(i as nat),
                left <= i * 14175,
                right <= i * 14175,
            decreases CHANNEL_COUNT - i,
        {
            let channel = self.channels[i];
            let sample: u32 = self.channel_sample(i);
            assert(sample * channel.volume_left * channel.envelope <= 14175 && sample
                * channel.volume_right * channel.envelope <= 14175 && sample * channel.volume_left
                <= 945 && sample * channel.volume_right <= 945) by (nonlinear_arith)
                requires
                    sample <= 63,
                    channel.volume_left <= 15,
                    channel.volume_right <= 15,
                    channel.envelope <= 15,
            ;
            left = left + sample * channel.volume_left as u32 * channel.envelope as u32;
            right = right + sample * channel.volume_right as u32 * channel.envelope as u32;
            i = i + 1;
        }
        (
            if left > 32767 {
                32767
            } else {
                left as i16
            },
            if right > 32767 {
                32767
            } else {
                right as i16
            },
        )
    }

    /// Advances the unit by one CPU cycle.
    fn cycle<S: Sink<AudioFrame>>(
        &mut self,
        audio_frame_sink: &mut Recorded<AudioFrame, S>,
    )
        requires
            old(self)@.wf(),
        ensures
            final(self)@ == old(self)@.after_cycle(),
            final(self)@.wf(),
            final(audio_frame_sink).appended() == (match old(self)@.frame_of_cycle() {
                Some(frame) => old(audio_frame_sink).appended().push(frame),
                None => old(audio_frame_sink).appended(),
            }),
    {
        let ghost before = self@;
        let mut i: usize = 0;
        while i < CHANNEL_COUNT
            invariant
                i <= CHANNEL_COUNT,
                before.wf(),
                self.channels.len() == CHANNEL_COUNT,
                self.wave_ram@ == before.wave_ram,
                self.sample_clock == before.sample_clock,
                forall|j: int| 0 <= j < i ==> self.channels@[j] == before.channels[j].after_cycle(),
                forall|j: int| 0 <= j < i ==> (#[trigger] self.channels@[j]).wf(),
                forall|j: int| i <= j < CHANNEL_COUNT ==> self.channels@[j] == before.channels[j],
            decreases CHANNEL_COUNT - i,
        {
            assert(before.channels[i as int].wf());
            let channel = advance_channel(self.channels[i]);
            self.channels[i] = channel;
            i = i + 1;
        }
        assert(self.channels@ =~= before.after_cycle().channels);
        if self.sample_clock + 1 >= CPU_CYCLES_PER_AUDIO_FRAME {
            self.sample_clock = 0;
            let frame = self.mix();
            audio_frame_sink.append(frame);
        } else {
            self.sample_clock = self.sample_clock + 1;
        }
    }

    /// Advances the unit by the given number of CPU cycles and pushes the
    /// audio frames that become due in them to the sink.
    pub fn cycles<S: Sink<AudioFrame>>(
        &mut self,
        cycles: usize,
        audio_frame_sink: &mut Recorded<AudioFrame, S>,
    )
        requires
            old(self)@.wf(),
        ensures
            final(self)@ == old(self)@.after_cycles(cycles as nat),
            final(self)@.wf(),
            final(audio_frame_sink).appended() == old(audio_frame_sink).appended() + old(
                self,
            )@.frames_of_cycles(cycles as nat),
    {
        let ghost start = self@;
        let ghost frames_before = audio_frame_sink.appended();
        assert(frames_before + start.frames_of_cycles(0) =~= frames_before);
        let mut done: usize = 0;
        while done < cycles
            invariant
                done <= cycles,
                self@ == start.after_cycles(done as nat),
                self@.wf(),
                audio_frame_sink.appended() == frames_before + start.frames_of_cycles(
                    done as nat,
                ),
            decreases cycles - done,
        {
            let ghost frames = start.frames_of_cycles(done as nat);
            self.cycle(audio_frame_sink);
            proof {
                match start.after_cycles(done as nat).frame_of_cycle() {
                    Some(frame) => {
                        assert((frames_before + frames).push(frame) =~= frames_before
                            + frames.push(frame));
                    },
                    None => {},
                }
            }
            done = done + 1;
        }
    }
}

/// A word-aligned offset is a multiple of four.
pub proof fn lemma_word_aligned(offset: u32)
    by (bit_vector)
    ensures
        (offset & 0xffff_fffc) % 4 == 0,
{
}

/// Advancing by a number of cycles at once, or in two parts, leads to the
/// same state and pushes the same audio frames.
pub proof fn lemma_cycles_split(s: VsuState, first: nat, rest: nat)
    ensures
        s.after_cycles(first + rest) == s.after_cycles(first).after_cycles(rest),
        s.frames_of_cycles(first + rest) == s.frames_of_cycles(first) + s.after_cycles(
            first,
        ).frames_of_cycles(rest),
    decreases rest,
{
    let middle = s.after_cycles(first);
    if rest == 0 {
        assert(s.frames_of_cycles(first) + middle.frames_of_cycles(0) =~= s.frames_of_cycles(
            first,
        ));
    } else {
        let shorter = (rest - 1) as nat;
        lemma_cycles_split(s, first, shorter);
        assert((first + rest - 1) as nat == first + shorter);
        match middle.after_cycles(shorter).frame_of_cycle() {
            Some(frame) => {
                assert((s.frames_of_cycles(first) + middle.frames_of_cycles(shorter)).push(frame)
                    =~= s.frames_of_cycles(first) + middle.frames_of_cycles(shorter).push(frame));
            },
            None => {},
        }
    }
}

} // verus!
