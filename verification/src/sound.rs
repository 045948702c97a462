//! Audio unit: square-channel synthesis from elapsed-sample counters.
//!
//! Each channel derives its waveform analytically from counters of elapsed
//! output samples instead of stepping the hardware dividers clock by clock.
//! Every period the hardware defines is a rational number of output samples,
//! `p / CPU_CYCLES_PER_SECOND` for some integer `p` of master-clock cycles
//! scaled by the sample rate; the code keeps that arithmetic exact by
//! comparing `elapsed * CPU_CYCLES_PER_SECOND` against multiples of `p`
//! instead of rounding either side.

use vstd::prelude::*;

verus! {

use vstd::arithmetic::div_mod::{lemma_div_is_ordered, lemma_div_by_multiple};

/// CPU (master) clock rate in cycles per second; the audio unit steps once
/// every two CPU cycles.
pub const CPU_CYCLES_PER_SECOND: u64 = 1789773;

/// Output sample rate.
pub const SAMPLES_PER_SECOND: u64 = 44100;

/// CPU cycles per envelope-unit clock (3728.5 audio-unit cycles, each two
/// CPU cycles long).
pub const CPU_CYCLES_PER_ENVELOPE_CLOCK: u64 = 7457;

/// CPU cycles of wave period per timer unit: one square-wave cycle lasts
/// `8 * (timer + 1)` audio-unit cycles.
pub const CPU_CYCLES_PER_WAVE_TIMER_UNIT: u64 = 16;

/// One square channel of the audio unit.
#[derive(Debug, Clone, Copy, PartialEq, Eq, Structural)]
pub struct NesSquareChannel {
    pub envelope_timer_samples: u32,
    pub wave_timer_samples: u32,
    pub length_counter_samples: u32,
    pub sweep_counter_samples: u32,

    pub length_counter_orig: u8,
    pub length_counter_halt: bool,
    pub volume: u8,
    pub constant_volume: bool,
    pub timer: u16,
    pub sweep_enabled: bool,
    pub sweep_period: u8,
    pub sweep_shift: u8,
    pub sweep_negate: bool,
    pub mute: bool,
}

/// The note-duration table: 32 entries selected by the top five bits of a
/// length/timer-high register write.
pub open spec fn spec_length_table(i: int) -> u8 {
    if i == 0 {
        10
    } else if i == 1 {
        254
    } else if i == 2 {
        20
    } else if i == 3 {
        2
    } else if i == 4 {
        40
    } else if i == 5 {
        4
    } else if i == 6 {
        80
    } else if i == 7 {
        6
    } else if i == 8 {
        160
    } else if i == 9 {
        8
    } else if i == 10 {
        60
    } else if i == 11 {
        10
    } else if i == 12 {
        14
    } else if i == 13 {
        12
    } else if i == 14 {
        26
    } else if i == 15 {
        14
    } else if i == 16 {
        12
    } else if i == 17 {
        16
    } else if i == 18 {
        24
    } else if i == 19 {
        18
    } else if i == 20 {
        48
    } else if i == 21 {
        20
    } else if i == 22 {
        96
    } else if i == 23 {
        22
    } else if i == 24 {
        192
    } else if i == 25 {
        24
    } else if i == 26 {
        72
    } else if i == 27 {
        26
    } else if i == 28 {
        16
    } else if i == 29 {
        28
    } else if i == 30 {
        32
    } else if i == 31 {
        30
    } else {
        0
    }
}

/// Note-duration lookup, total over all of u8: indices past the table read 0.
pub fn length_table(i: u8) -> (r: u8)
    ensures
        r == spec_length_table(i as int),
{
    if i == 0 {
        10
    } else if i == 1 {
        254
    } else if i == 2 {
        20
    } else if i == 3 {
        2
    } else if i == 4 {
        40
    } else if i == 5 {
        4
    } else if i == 6 {
        80
    } else if i == 7 {
        6
    } else if i == 8 {
        160
    } else if i == 9 {
        8
    } else if i == 10 {
        60
    } else if i == 11 {
        10
    } else if i == 12 {
        14
    } else if i == 13 {
        12
    } else if i == 14 {
        26
    } else if i == 15 {
        14
    } else if i == 16 {
        12
    } else if i == 17 {
        16
    } else if i == 18 {
        24
    } else if i == 19 {
        18
    } else if i == 20 {
        48
    } else if i == 21 {
        20
    } else if i == 22 {
        96
    } else if i == 23 {
        22
    } else if i == 24 {
        192
    } else if i == 25 {
        24
    } else if i == 26 {
        72
    } else if i == 27 {
        26
    } else if i == 28 {
        16
    } else if i == 29 {
        28
    } else if i == 30 {
        32
    } else if i == 31 {
        30
    } else {
        0
    }
}

impl NesSquareChannel {
    /// Register writes mask every field to its hardware width, so a
    /// well-formed channel keeps the timer to 11 bits, the volume to 4 bits
    /// and the sweep parameters to 3 bits each.
    pub open spec fn wf(&self) -> bool {
        &&& self.timer < 0x800
        &&& self.volume < 0x10
        &&& self.sweep_shift < 8
        &&& self.sweep_period < 8
    }

    /// The sweep unit's target period: the timer plus or minus (per the
    /// negate flag) the timer right-shifted by the shift amount; the raw
    /// timer when the sweep is disabled.
    pub open spec fn spec_target_timer(&self) -> int {
        if !self.sweep_enabled {
            self.timer as int
        } else if self.sweep_negate {
            self.timer - (self.timer >> self.sweep_shift as u16)
        } else {
            self.timer + (self.timer >> self.sweep_shift as u16)
        }
    }

    /// Whether the square wave is in its high half. The wave period is
    /// `CPU_CYCLES_PER_WAVE_TIMER_UNIT * (target + 1)` CPU cycles — as
    /// samples, `p / CPU_CYCLES_PER_SECOND` with `p` that cycle count scaled
    /// by the sample rate — and the wave is high when the elapsed phase,
    /// scaled the same way, passes the period's midpoint.
    pub open spec fn spec_wave_high(&self) -> bool {
        let p = CPU_CYCLES_PER_WAVE_TIMER_UNIT * SAMPLES_PER_SECOND * (self.spec_target_timer()
            + 1);
        2 * ((self.wave_timer_samples * CPU_CYCLES_PER_SECOND) % p) > p
    }

    /// The envelope volume, 0 to 15. In constant-volume mode it is the raw
    /// volume value. Otherwise the envelope period is
    /// `15 * (volume + 1)` envelope clocks, and the volume ramps linearly
    /// from 15 down to 0 across it: wrapping around when the halt/loop flag
    /// is set, one-shot (silent once the period has fully elapsed) when not.
    pub open spec fn spec_envelope_volume(&self) -> int {
        if self.constant_volume {
            self.volume as int
        } else {
            let p = 15 * CPU_CYCLES_PER_ENVELOPE_CLOCK * SAMPLES_PER_SECOND * (self.volume + 1);
            let a = self.envelope_timer_samples * CPU_CYCLES_PER_SECOND;
            if self.length_counter_halt {
                15 * (p - a % p) / p
            } else if a > p {
                0
            } else {
                15 * (p - a) / p
            }
        }
    }

    /// The length-counter cutoff: the note lasts
    /// `2 * CPU_CYCLES_PER_ENVELOPE_CLOCK` CPU cycles per table unit; once
    /// the elapsed samples exceed that duration the counter reads zero,
    /// unless the halt flag sustains the note indefinitely.
    pub open spec fn spec_length_counter(&self) -> u8 {
        if self.length_counter_halt {
            self.length_counter_orig
        } else if self.length_counter_samples * CPU_CYCLES_PER_SECOND > 2
            * CPU_CYCLES_PER_ENVELOPE_CLOCK * SAMPLES_PER_SECOND * self.length_counter_orig {
            0
        } else {
            self.length_counter_orig
        }
    }

    /// Whether the channel is muted once this tick's sweep check has run: a
    /// target period under 8 or over the 11-bit maximum latches the mute
    /// until a pitch register is rewritten.
    pub open spec fn spec_muted_after(&self) -> bool {
        self.mute || self.spec_target_timer() < 8 || self.spec_target_timer() > 0x7ff
    }

    /// The sample this tick emits: the envelope volume during the wave's high
    /// half, forced to zero when the length counter has run out, the raw timer
    /// is 8 or less, or the mute latch (after this tick's sweep check) is
    /// set.
    pub open spec fn spec_sample(&self) -> int {
        if self.spec_length_counter() > 0 && self.timer > 8 && !self.spec_muted_after() {
            if self.spec_wave_high() {
                self.spec_envelope_volume()
            } else {
                0
            }
        } else {
            0
        }
    }

    /// The channel state after one tick: the mute latch updated by the sweep
    /// check and every elapsed-sample counter advanced by one.
    pub open spec fn spec_ticked(&self) -> NesSquareChannel {
        NesSquareChannel {
            envelope_timer_samples: (self.envelope_timer_samples + 1) as u32,
            wave_timer_samples: (self.wave_timer_samples + 1) as u32,
            length_counter_samples: (self.length_counter_samples + 1) as u32,
            sweep_counter_samples: (self.sweep_counter_samples + 1) as u32,
            mute: self.spec_muted_after(),
            ..*self
        }
    }

    /// The channel as it powers up: everything zero, nothing playing.
    pub open spec fn spec_initial() -> NesSquareChannel {
        NesSquareChannel {
            envelope_timer_samples: 0,
            wave_timer_samples: 0,
            length_counter_samples: 0,
            sweep_counter_samples: 0,
            length_counter_orig: 0,
            length_counter_halt: false,
            volume: 0,
            constant_volume: false,
            timer: 0,
            sweep_enabled: false,
            sweep_period: 0,
            sweep_shift: 0,
            sweep_negate: false,
            mute: false,
        }
    }

    /// Construct the channel in its power-up state.
    pub fn new() -> (c: NesSquareChannel)
        ensures
            c == NesSquareChannel::spec_initial(),
            c.wf(),
    {
        NesSquareChannel {
            envelope_timer_samples: 0,
            wave_timer_samples: 0,
            length_counter_samples: 0,
            sweep_counter_samples: 0,
            length_counter_orig: 0,
            length_counter_halt: false,
            volume: 0,
            constant_volume: false,
            timer: 0,
            sweep_enabled: false,
            sweep_period: 0,
            sweep_shift: 0,
            sweep_negate: false,
            mute: false,
        }
    }

    /// The sweep unit's target period as the hardware computes it.
    pub fn target_timer(&self) -> (t: u16)
        requires
            self.wf(),
        ensures
            t == self.spec_target_timer(),
            t <= 0xffe,
    {
        if !self.sweep_enabled {
            self.timer
        } else {
            let shifted: u16 = self.timer >> (self.sweep_shift as u16);
            proof {
                let tm = self.timer;
                let sh = self.sweep_shift as u16;
                assert(tm >> sh <= tm) by (bit_vector);
            }
            if self.sweep_negate {
                self.timer - shifted
            } else {
                self.timer + shifted
            }
        }
    }

    /// The length-counter value the status register reports.
    pub fn length_counter(&self) -> (r: u8)
        ensures
            r == self.spec_length_counter(),
    {
        if self.length_counter_halt {
            self.length_counter_orig
        } else {
            let duration: u64 = 657707400 * (self.length_counter_orig as u64);
            proof {
                assert(2 * CPU_CYCLES_PER_ENVELOPE_CLOCK * SAMPLES_PER_SECOND == 657707400u64);
                assert(duration == 2 * CPU_CYCLES_PER_ENVELOPE_CLOCK * SAMPLES_PER_SECOND * (
                self.length_counter_orig as int));
            }
            let elapsed: u64 = (self.length_counter_samples as u64) * CPU_CYCLES_PER_SECOND;
            if elapsed > duration {
                0
            } else {
                self.length_counter_orig
            }
        }
    }

    /// The envelope volume this tick, 0 to 15.
    pub fn envelope_volume(&self) -> (v: u32)
        requires
            self.wf(),
        ensures
            v == self.spec_envelope_volume(),
            v <= 15,
    {
        if self.constant_volume {
            self.volume as u32
        } else {
            proof {
                assert(15 * CPU_CYCLES_PER_ENVELOPE_CLOCK * SAMPLES_PER_SECOND == 4932805500u64);
            }
            let p: u64 = 15 * CPU_CYCLES_PER_ENVELOPE_CLOCK * SAMPLES_PER_SECOND * (
            self.volume as u64 + 1);
            let a: u64 = (self.envelope_timer_samples as u64) * CPU_CYCLES_PER_SECOND;
            if self.length_counter_halt {
                let rem: u64 = a % p;
                let v64: u64 = 15 * (p - rem) / p;
                proof {
                    lemma_div_is_ordered(15 * (p - rem), 15 * p, p as int);
                    lemma_div_by_multiple(15, p as int);
                    assert(15 * p == (15int) * (p as int));
                }
                v64 as u32
            } else if a > p {
                0
            } else {
                let v64: u64 = 15 * (p - a) / p;
                proof {
                    lemma_div_is_ordered(15 * (p - a), 15 * p, p as int);
                    lemma_div_by_multiple(15, p as int);
                    assert(15 * p == (15int) * (p as int));
                }
                v64 as u32
            }
        }
    }

    /// Produce one output sample and advance the channel by one sample of
    /// elapsed time. The sweep check runs first, so an out-of-range target
    /// period mutes this very sample.
    pub fn tick(&mut self) -> (sample: u32)
        requires
            old(self).wf(),
            old(self).envelope_timer_samples < u32::MAX,
            old(self).wave_timer_samples < u32::MAX,
            old(self).length_counter_samples < u32::MAX,
            old(self).sweep_counter_samples < u32::MAX,
        ensures
            final(self).wf(),
            sample == old(self).spec_sample(),
            sample <= 15,
            *final(self) == old(self).spec_ticked(),
    {
        let target: u16 = self.target_timer();
        if target < 8 || target > 0x7ff {
            self.mute = true;
        }

        let sample: u32 = if self.length_counter() > 0 && self.timer > 8 && !self.mute {
            let p: u64 = CPU_CYCLES_PER_WAVE_TIMER_UNIT * SAMPLES_PER_SECOND * (target as u64 + 1);
            let a: u64 = (self.wave_timer_samples as u64) * CPU_CYCLES_PER_SECOND % p;
            if 2 * a > p {
                self.envelope_volume()
            } else {
                0
            }
        } else {
            0
        };

        self.envelope_timer_samples = self.envelope_timer_samples + 1;
        self.wave_timer_samples = self.wave_timer_samples + 1;
        self.length_counter_samples = self.length_counter_samples + 1;
        self.sweep_counter_samples = self.sweep_counter_samples + 1;

        sample
    }

    /// Volume/envelope register write: halt/loop flag, constant-volume flag
    /// and volume value. A write that changes the envelope resets the
    /// envelope's elapsed-sample counter, keeping the phase consistent across
    /// parameter changes, and clears the mute latch.
    pub open spec fn spec_write_control(&self, val: u8) -> NesSquareChannel {
        NesSquareChannel {
            length_counter_halt: val & 0x20 != 0,
            constant_volume: val & 0x10 != 0,
            volume: val & 0x0f,
            envelope_timer_samples: 0,
            mute: false,
            ..*self
        }
    }

    /// Sweep register write: enable, period, negate and shift fields; resets
    /// the sweep's elapsed-sample counter and clears the mute latch.
    pub open spec fn spec_write_sweep(&self, val: u8) -> NesSquareChannel {
        NesSquareChannel {
            sweep_enabled: val & 0x80 != 0,
            sweep_period: (val & 0x70) >> 4,
            sweep_negate: val & 0x08 != 0,
            sweep_shift: val & 0x07,
            sweep_counter_samples: 0,
            mute: false,
            ..*self
        }
    }

    /// Timer-low register write: replaces the timer's low byte, resets the
    /// wave phase and clears the mute latch.
    pub open spec fn spec_write_timer_low(&self, val: u8) -> NesSquareChannel {
        NesSquareChannel {
            timer: (self.timer & 0xff00) | (val as u16),
            wave_timer_samples: 0,
            mute: false,
            ..*self
        }
    }

    /// Length/timer-high register write: replaces the timer's high three
    /// bits, loads the length counter from the table indexed by the value's
    /// top five bits, resets every elapsed-sample counter and clears the mute
    /// latch.
    pub open spec fn spec_write_timer_high(&self, val: u8) -> NesSquareChannel {
        NesSquareChannel {
            timer: (self.timer & 0x00ff) | (((val & 0x07) as u16) << 8u16),
            length_counter_orig: spec_length_table(((val & 0xf8) >> 3) as int),
            length_counter_samples: 0,
            envelope_timer_samples: 0,
            wave_timer_samples: 0,
            sweep_counter_samples: 0,
            mute: false,
            ..*self
        }
    }

    /// Apply a volume/envelope register write.
    pub fn write_control(&mut self, val: u8)
        requires
            old(self).wf(),
        ensures
            final(self).wf(),
            *final(self) == old(self).spec_write_control(val),
    {
        proof {
            assert(val & 0x0f < 0x10) by (bit_vector);
        }
        self.length_counter_halt = val & 0x20 != 0;
        self.constant_volume = val & 0x10 != 0;
        self.volume = val & 0x0f;
        self.envelope_timer_samples = 0;
        self.mute = false;
    }

    /// Apply a sweep register write.
    pub fn write_sweep(&mut self, val: u8)
        requires
            old(self).wf(),
        ensures
            final(self).wf(),
            *final(self) == old(self).spec_write_sweep(val),
    {
        proof {
            assert((val & 0x70) >> 4 < 8) by (bit_vector);
            assert(val & 0x07 < 8) by (bit_vector);
        }
        self.sweep_enabled = val & 0x80 != 0;
        self.sweep_period = (val & 0x70) >> 4;
        self.sweep_negate = val & 0x08 != 0;
        self.sweep_shift = val & 0x07;
        self.sweep_counter_samples = 0;
        self.mute = false;
    }

    /// Apply a timer-low (pitch) register write.
    pub fn write_timer_low(&mut self, val: u8)
        requires
            old(self).wf(),
        ensures
            final(self).wf(),
            *final(self) == old(self).spec_write_timer_low(val),
    {
        proof {
            let tm = self.timer;
            assert(tm < 0x800 ==> (tm & 0xff00) | (val as u16) < 0x800) by (bit_vector);
        }
        self.timer = (self.timer & 0xff00) | (val as u16);
        self.wave_timer_samples = 0;
        self.mute = false;
    }

    /// Apply a length/timer-high (pitch) register write.
    pub fn write_timer_high(&mut self, val: u8)
        requires
            old(self).wf(),
        ensures
            final(self).wf(),
            *final(self) == old(self).spec_write_timer_high(val),
    {
        proof {
            let tm = self.timer;
            assert((tm & 0x00ff) | (((val & 0x07) as u16) << 8u16) < 0x800) by (bit_vector);
            assert(((val & 0xf8) >> 3) < 32) by (bit_vector);
        }
        self.timer = (self.timer & 0x00ff) | (((val & 0x07) as u16) << 8u16);
        self.length_counter_orig = length_table((val & 0xf8) >> 3);
        self.length_counter_samples = 0;
        self.envelope_timer_samples = 0;
        self.wave_timer_samples = 0;
        self.sweep_counter_samples = 0;
        self.mute = false;
    }
}

/// The audio unit's channel bank: the two square channels, indexed 0 and 1
/// as their register pages are.
#[derive(Debug, Clone, Copy, PartialEq, Eq, Structural)]
pub struct NesApuState {
    pub square0: NesSquareChannel,
    pub square1: NesSquareChannel,
}

/// The mixer's gain for the square-channel sum, per the linear approximation
/// 0.00752 per unit scaled to the 8-bit output range (255): exactly
/// 19176/10000 of the summed channel volumes, truncated.
pub open spec fn spec_mix(s: int) -> int {
    s * 19176 / 10000
}

impl NesApuState {
    /// Both channels well-formed.
    pub open spec fn wf(&self) -> bool {
        self.square0.wf() && self.square1.wf()
    }

    /// Both channels as they power up.
    pub fn new() -> (s: NesApuState)
        ensures
            s == (NesApuState {
                square0: NesSquareChannel::spec_initial(),
                square1: NesSquareChannel::spec_initial(),
            }),
            s.wf(),
    {
        NesApuState { square0: NesSquareChannel::new(), square1: NesSquareChannel::new() }
    }

    /// Produce one mixed output sample and advance both channels by one
    /// sample of elapsed time.
    pub fn tick(&mut self) -> (sample: u32)
        requires
            old(self).wf(),
            old(self).square0.envelope_timer_samples < u32::MAX,
            old(self).square0.wave_timer_samples < u32::MAX,
            old(self).square0.length_counter_samples < u32::MAX,
            old(self).square0.sweep_counter_samples < u32::MAX,
            old(self).square1.envelope_timer_samples < u32::MAX,
            old(self).square1.wave_timer_samples < u32::MAX,
            old(self).square1.length_counter_samples < u32::MAX,
            old(self).square1.sweep_counter_samples < u32::MAX,
        ensures
            final(self).wf(),
            sample == spec_mix(old(self).square0.spec_sample() + old(self).square1.spec_sample()),
            sample <= 57,
            final(self).square0 == old(self).square0.spec_ticked(),
            final(self).square1 == old(self).square1.spec_ticked(),
    {
        let s0: u32 = self.square0.tick();
        let s1: u32 = self.square1.tick();
        let sum: u32 = s0 + s1;
        sum * 19176 / 10000
    }
}

/// The audio unit as the CPU bus sees it: the channel bank plus the frame
/// counter's mode bit and interrupt-inhibit latch. The real-time output
/// device lives outside this crate and pulls samples via `NesApuState::tick`.
#[derive(Debug, Clone, Copy, PartialEq, Eq, Structural)]
pub struct NesSound {
    pub state: NesApuState,
    pub frame_counter_inhibit: bool,
    pub frame_counter_mode: u8,
}

impl NesSound {
    /// Well-formed audio unit: both channels well-formed and the frame
    /// counter's mode held to its single bit.
    pub open spec fn wf(&self) -> bool {
        self.state.wf() && self.frame_counter_mode < 2
    }

    /// What a status-register read reports: the one-time frame-counter
    /// inhibit latch in bit 6 and each channel's "length counter nonzero"
    /// bit in bits 0 and 1.
    pub open spec fn spec_status(&self) -> u8 {
        (if self.frame_counter_inhibit {
            0x40u8
        } else {
            0u8
        }) | (if self.state.square0.spec_length_counter() > 0 {
            0x01u8
        } else {
            0u8
        }) | (if self.state.square1.spec_length_counter() > 0 {
            0x02u8
        } else {
            0u8
        })
    }

    /// The audio unit as it powers up: silent channels, 4-step frame-counter
    /// mode, interrupts not inhibited.
    pub fn new() -> (s: NesSound)
        ensures
            s == (NesSound {
                state: NesApuState {
                    square0: NesSquareChannel::spec_initial(),
                    square1: NesSquareChannel::spec_initial(),
                },
                frame_counter_inhibit: false,
                frame_counter_mode: 0,
            }),
            s.wf(),
    {
        NesSound { state: NesApuState::new(), frame_counter_inhibit: false, frame_counter_mode: 0 }
    }

    /// CPU read of the audio unit's page. Only the status register holds
    /// readable bits; reading it clears the frame-counter inhibit latch.
    /// Every other address reads 0 and changes nothing.
    pub fn read(&mut self, addr: u16) -> (val: u8)
        ensures
            addr == 0x4015 ==> val == old(self).spec_status() && *final(self) == (NesSound {
                frame_counter_inhibit: false,
                ..*old(self)
            }),
            addr != 0x4015 ==> val == 0 && *final(self) == *old(self),
    {
        if addr == 0x4015 {
            let inhibit_bit: u8 = if self.frame_counter_inhibit {
                0x40
            } else {
                0
            };
            self.frame_counter_inhibit = false;
            let lc0: u8 = if self.state.square0.length_counter() > 0 {
                0x01
            } else {
                0
            };
            let lc1: u8 = if self.state.square1.length_counter() > 0 {
                0x02
            } else {
                0
            };
            inhibit_bit | lc0 | lc1
        } else {
            0
        }
    }

    /// CPU write to the audio unit's page: the four register slots of each
    /// square channel (0x4000–0x4003 for channel 0, 0x4004–0x4007 for
    /// channel 1), and the frame-counter register at 0x4017 whose bit 7
    /// selects the sequencer mode and bit 6 sets the interrupt-inhibit
    /// latch. Every other address is ignored. All writes are accepted
    /// bit-for-bit: the hardware has no input validation.
    pub fn write(&mut self, addr: u16, val: u8)
        requires
            old(self).wf(),
        ensures
            final(self).wf(),
            addr == 0x4000 ==> *final(self) == (NesSound {
                state: NesApuState {
                    square0: old(self).state.square0.spec_write_control(val),
                    ..old(self).state
                },
                ..*old(self)
            }),
            addr == 0x4004 ==> *final(self) == (NesSound {
                state: NesApuState {
                    square1: old(self).state.square1.spec_write_control(val),
                    ..old(self).state
                },
                ..*old(self)
            }),
            addr == 0x4001 ==> *final(self) == (NesSound {
                state: NesApuState {
                    square0: old(self).state.square0.spec_write_sweep(val),
                    ..old(self).state
                },
                ..*old(self)
            }),
            addr == 0x4005 ==> *final(self) == (NesSound {
                state: NesApuState {
                    square1: old(self).state.square1.spec_write_sweep(val),
                    ..old(self).state
                },
                ..*old(self)
            }),
            addr == 0x4002 ==> *final(self) == (NesSound {
                state: NesApuState {
                    square0: old(self).state.square0.spec_write_timer_low(val),
                    ..old(self).state
                },
                ..*old(self)
            }),
            addr == 0x4006 ==> *final(self) == (NesSound {
                state: NesApuState {
                    square1: old(self).state.square1.spec_write_timer_low(val),
                    ..old(self).state
                },
                ..*old(self)
            }),
            addr == 0x4003 ==> *final(self) == (NesSound {
                state: NesApuState {
                    square0: old(self).state.square0.spec_write_timer_high(val),
                    ..old(self).state
                },
                ..*old(self)
            }),
            addr == 0x4007 ==> *final(self) == (NesSound {
                state: NesApuState {
                    square1: old(self).state.square1.spec_write_timer_high(val),
                    ..old(self).state
                },
                ..*old(self)
            }),
            addr == 0x4017 ==> *final(self) == (NesSound {
                frame_counter_mode: (val & 0x80) >> 7,
                frame_counter_inhibit: val & 0x40 != 0,
                ..*old(self)
            }),
            !(addr == 0x4000 || addr == 0x4001 || addr == 0x4002 || addr == 0x4003 || addr
                == 0x4004 || addr == 0x4005 || addr == 0x4006 || addr == 0x4007 || addr
                == 0x4017) ==> *final(self) == *old(self),
    {
        if addr == 0x4000 {
            self.state.square0.write_control(val);
        } else if addr == 0x4004 {
            self.state.square1.write_control(val);
        } else if addr == 0x4001 {
            self.state.square0.write_sweep(val);
        } else if addr == 0x4005 {
            self.state.square1.write_sweep(val);
        } else if addr == 0x4002 {
            self.state.square0.write_timer_low(val);
        } else if addr == 0x4006 {
            self.state.square1.write_timer_low(val);
        } else if addr == 0x4003 {
            self.state.square0.write_timer_high(val);
        } else if addr == 0x4007 {
            self.state.square1.write_timer_high(val);
        } else if addr == 0x4017 {
            proof {
                assert((val & 0x80) >> 7 < 2) by (bit_vector);
            }
            self.frame_counter_mode = (val & 0x80) >> 7;
            self.frame_counter_inhibit = val & 0x40 != 0;
        }
    }

    /// Per-frame hook from the orchestrator. The channels derive length and
    /// envelope cadence analytically from their elapsed-sample counters, so
    /// there is nothing to advance here; the hook exists so the bus can call
    /// the audio unit in lockstep with the other components.
    pub fn tick(&mut self)
        ensures
            *final(self) == *old(self),
    {
    }
}

/// Law: with the sweep enabled and negate off, the target period is the
/// timer plus the timer right-shifted by the shift amount; with negate on it
/// is the timer minus that shifted value.
pub proof fn lemma_sweep_target_period(c: NesSquareChannel)
    requires
        c.sweep_enabled,
    ensures
        !c.sweep_negate ==> c.spec_target_timer() == c.timer + (c.timer >> c.sweep_shift as u16),
        c.sweep_negate ==> c.spec_target_timer() == c.timer - (c.timer >> c.sweep_shift as u16),
{
}

} // verus!
