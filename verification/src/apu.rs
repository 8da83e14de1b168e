use vstd::prelude::*;

verus! {

/// Length counter lookup table, indexed by the 5-bit length-load field.
pub const LENGTH_TABLE: [u8; 32] = [
    10, 254, 20, 2, 40, 4, 80, 6, 160, 8, 60, 10, 14, 12, 26, 14,
    12, 16, 24, 18, 48, 20, 96, 22, 192, 24, 72, 26, 16, 28, 32, 30,
];

/// The four pulse duty sequences, 8 steps each: 12.5%, 25%, 50% and an
/// inverted 25%.
pub const DUTY_TABLE: [[u8; 8]; 4] = [
    [0, 1, 0, 0, 0, 0, 0, 0],
    [0, 1, 1, 0, 0, 0, 0, 0],
    [0, 1, 1, 1, 1, 0, 0, 0],
    [1, 0, 0, 1, 1, 1, 1, 1],
];

/// Timer periods of the noise channel, indexed by its 4-bit period field.
pub const NOISE_PERIOD_TABLE: [u16; 16] = [
    4, 8, 16, 32, 64, 96, 128, 160, 202, 254, 380, 508, 762, 1016, 2034, 4068,
];

/// A pulse (square-wave) channel with envelope, sweep and length units.
#[derive(Debug, Clone, Copy, PartialEq, Eq, Structural)]
pub struct PulseChannel {
    /// Whether the channel is enabled via $4015.
    pub enabled: bool,
    /// Duty cycle selector (0-3).
    pub duty: u8,
    /// Length counter halt, which doubles as the envelope loop flag.
    pub length_halt: bool,
    /// Use the constant volume instead of the envelope.
    pub constant_volume: bool,
    /// Volume level, which doubles as the envelope period.
    pub volume: u8,
    /// Sweep unit enabled.
    pub sweep_enabled: bool,
    /// Sweep divider period.
    pub sweep_period: u8,
    /// Sweep negates the period change.
    pub sweep_negate: bool,
    /// Sweep shift count (0-7).
    pub sweep_shift: u8,
    /// Sweep divider counter.
    pub sweep_divider: u8,
    /// Whether the sweep unit currently mutes the channel.
    pub sweep_mute: bool,
    /// Timer period (11 bits).
    pub timer_period: u16,
    /// Length counter.
    pub length_counter: u8,
    /// Current timer value.
    pub timer: u16,
    /// Current duty step (0-7).
    pub duty_position: u8,
    /// Envelope divider.
    pub envelope_divider: u8,
    /// Envelope decay counter.
    pub envelope_counter: u8,
    /// Envelope start flag.
    pub envelope_start: bool,
}

/// The sample a pulse channel emits: 0 when disabled, silenced by the
/// sweep unit, out of length, or on a low duty step; otherwise the
/// constant volume or the envelope decay counter.
pub open spec fn spec_pulse_output(p: PulseChannel) -> u8 {
    if !p.enabled || p.sweep_mute || p.length_counter == 0 {
        0u8
    } else if DUTY_TABLE[(p.duty % 4) as int][(p.duty_position % 8) as int] == 0 {
        0u8
    } else if p.constant_volume {
        p.volume
    } else {
        p.envelope_counter
    }
}

impl PulseChannel {
    /// A silent pulse channel with everything cleared.
    pub fn new() -> (r: PulseChannel)
        ensures
            r == (PulseChannel {
                enabled: false,
                duty: 0u8,
                length_halt: false,
                constant_volume: false,
                volume: 0u8,
                sweep_enabled: false,
                sweep_period: 0u8,
                sweep_negate: false,
                sweep_shift: 0u8,
                sweep_divider: 0u8,
                sweep_mute: false,
                timer_period: 0u16,
                length_counter: 0u8,
                timer: 0u16,
                duty_position: 0u8,
                envelope_divider: 0u8,
                envelope_counter: 0u8,
                envelope_start: false,
            }),
    {
        PulseChannel {
            enabled: false,
            duty: 0,
            length_halt: false,
            constant_volume: false,
            volume: 0,
            sweep_enabled: false,
            sweep_period: 0,
            sweep_negate: false,
            sweep_shift: 0,
            sweep_divider: 0,
            sweep_mute: false,
            timer_period: 0,
            length_counter: 0,
            timer: 0,
            duty_position: 0,
            envelope_divider: 0,
            envelope_counter: 0,
            envelope_start: false,
        }
    }

    /// Register 0: duty in bits 6-7, length halt in bit 5, constant
    /// volume in bit 4, volume/envelope period in bits 0-3.
    pub fn write_reg0(&mut self, value: u8)
        ensures
            *final(self) == (PulseChannel {
                duty: ((value / 64) % 4) as u8,
                length_halt: (value / 32) % 2 == 1,
                constant_volume: (value / 16) % 2 == 1,
                volume: (value % 16) as u8,
                ..*old(self)
            }),
    {
        self.duty = (value / 64) % 4;
        self.length_halt = (value / 32) % 2 == 1;
        self.constant_volume = (value / 16) % 2 == 1;
        self.volume = value % 16;
    }

    /// Register 1: the sweep unit; enable in bit 7, period in bits 4-6,
    /// negate in bit 3, shift count in bits 0-2.
    pub fn write_reg1(&mut self, value: u8)
        ensures
            *final(self) == (PulseChannel {
                sweep_enabled: value >= 0x80,
                sweep_period: ((value / 16) % 8) as u8,
                sweep_negate: (value / 8) % 2 == 1,
                sweep_shift: (value % 8) as u8,
                ..*old(self)
            }),
    {
        self.sweep_enabled = value >= 0x80;
        self.sweep_period = (value / 16) % 8;
        self.sweep_negate = (value / 8) % 2 == 1;
        self.sweep_shift = value % 8;
    }

    /// Register 2: the low eight bits of the timer period.
    pub fn write_reg2(&mut self, value: u8)
        ensures
            *final(self) == (PulseChannel {
                timer_period: ((old(self).timer_period / 256) % 8 * 256 + value) as u16,
                ..*old(self)
            }),
    {
        self.timer_period = self.timer_period / 256 % 8 * 256 + value as u16;
    }

    /// Register 3: the high three bits of the timer period and the
    /// length-counter load; also restarts the envelope and duty phase.
    /// The length counter loads only while the channel is enabled.
    pub fn write_reg3(&mut self, value: u8)
        ensures
            *final(self) == (PulseChannel {
                timer_period: ((value % 8) as u16 * 256 + old(self).timer_period % 256) as u16,
                length_counter: if old(self).enabled {
                    LENGTH_TABLE[(value / 8) as int]
                } else {
                    old(self).length_counter
                },
                envelope_start: true,
                duty_position: 0u8,
                ..*old(self)
            }),
    {
        self.timer_period = (value % 8) as u16 * 256 + self.timer_period % 256;
        if self.enabled {
            self.length_counter = LENGTH_TABLE[(value / 8) as usize];
        }
        self.envelope_start = true;
        self.duty_position = 0;
    }

    /// Enable or disable the channel; disabling forces the length
    /// counter to zero.
    pub fn set_enabled(&mut self, enabled: bool)
        ensures
            *final(self) == (PulseChannel {
                enabled: enabled,
                length_counter: if enabled {
                    old(self).length_counter
                } else {
                    0u8
                },
                ..*old(self)
            }),
    {
        self.enabled = enabled;
        if !enabled {
            self.length_counter = 0;
        }
    }

    /// Whether the length counter is still running (for $4015 reads).
    pub fn length_counter_status(&self) -> (r: bool)
        ensures
            r == (self.length_counter > 0),
    {
        self.length_counter > 0
    }

    /// Advance the timer one APU cycle: on expiry reload it from the
    /// period and step the duty position.
    pub fn clock_timer(&mut self)
        ensures
            old(self).timer == 0 ==> *final(self) == (PulseChannel {
                timer: old(self).timer_period,
                duty_position: ((old(self).duty_position % 8 + 1) % 8) as u8,
                ..*old(self)
            }),
            old(self).timer != 0 ==> *final(self) == (PulseChannel {
                timer: (old(self).timer - 1) as u16,
                ..*old(self)
            }),
    {
        if self.timer == 0 {
            self.timer = self.timer_period;
            self.duty_position = (self.duty_position % 8 + 1) % 8;
        } else {
            self.timer = self.timer - 1;
        }
    }

    /// Quarter-frame envelope tick: a pending start reloads the decay
    /// counter to 15; otherwise the divider counts down and on underflow
    /// the decay counter decrements, or reloads to 15 when looping.
    pub fn clock_envelope(&mut self)
        ensures
            old(self).envelope_start ==> *final(self) == (PulseChannel {
                envelope_start: false,
                envelope_counter: 15u8,
                envelope_divider: old(self).volume,
                ..*old(self)
            }),
            !old(self).envelope_start && old(self).envelope_divider == 0 ==> *final(self) == (
            PulseChannel {
                envelope_divider: old(self).volume,
                envelope_counter: if old(self).envelope_counter > 0 {
                    (old(self).envelope_counter - 1) as u8
                } else if old(self).length_halt {
                    15u8
                } else {
                    old(self).envelope_counter
                },
                ..*old(self)
            }),
            !old(self).envelope_start && old(self).envelope_divider != 0 ==> *final(self) == (
            PulseChannel { envelope_divider: (old(self).envelope_divider - 1) as u8, ..*old(self) }),
    {
        if self.envelope_start {
            self.envelope_start = false;
            self.envelope_counter = 15;
            self.envelope_divider = self.volume;
        } else if self.envelope_divider == 0 {
            self.envelope_divider = self.volume;
            if self.envelope_counter > 0 {
                self.envelope_counter = self.envelope_counter - 1;
            } else if self.length_halt {
                self.envelope_counter = 15;
            }
        } else {
            self.envelope_divider = self.envelope_divider - 1;
        }
    }

    /// Half-frame length tick: count down unless halted or already zero.
    pub fn clock_length(&mut self)
        ensures
            *final(self) == (PulseChannel {
                length_counter: if !old(self).length_halt && old(self).length_counter > 0 {
                    (old(self).length_counter - 1) as u8
                } else {
                    old(self).length_counter
                },
                ..*old(self)
            }),
    {
        if !self.length_halt && self.length_counter > 0 {
            self.length_counter = self.length_counter - 1;
        }
    }

    /// The period change a sweep shift computes: the period divided by
    /// two to the shift count.
    pub fn sweep_delta(&self) -> (r: u16)
        ensures
            r == self.timer_period as int / (if self.sweep_shift % 8 == 0 {
                1int
            } else if self.sweep_shift % 8 == 1 {
                2int
            } else if self.sweep_shift % 8 == 2 {
                4int
            } else if self.sweep_shift % 8 == 3 {
                8int
            } else if self.sweep_shift % 8 == 4 {
                16int
            } else if self.sweep_shift % 8 == 5 {
                32int
            } else if self.sweep_shift % 8 == 6 {
                64int
            } else {
                128int
            }),
    {
        let s = self.sweep_shift % 8;
        if s == 0 {
            self.timer_period / 1
        } else if s == 1 {
            self.timer_period / 2
        } else if s == 2 {
            self.timer_period / 4
        } else if s == 3 {
            self.timer_period / 8
        } else if s == 4 {
            self.timer_period / 16
        } else if s == 5 {
            self.timer_period / 32
        } else if s == 6 {
            self.timer_period / 64
        } else {
            self.timer_period / 128
        }
    }

    /// Half-frame sweep tick. With the unit enabled and a nonzero shift
    /// count it computes the target period; an overflowing target or a
    /// period below 8 mutes the channel, otherwise a divider underflow
    /// copies the target to the period. Otherwise the sweep mutes
    /// nothing.
    pub fn clock_sweep(&mut self)
        ensures
            *final(self) == spec_pulse_sweep(*old(self)),
    {
        if self.sweep_enabled && self.sweep_shift % 8 != 0 {
            let delta = self.sweep_delta();
            let target: u16 = if self.sweep_negate {
                if self.timer_period >= delta {
                    self.timer_period - delta
                } else {
                    0
                }
            } else {
                if self.timer_period as u32 + delta as u32 > 0x7FF {
                    0x800
                } else {
                    self.timer_period + delta
                }
            };
            let mute = target > 0x7FF || self.timer_period < 8;
            self.sweep_mute = mute;
            if self.sweep_divider == 0 {
                self.sweep_divider = self.sweep_period;
                if !mute {
                    self.timer_period = target;
                }
            } else {
                self.sweep_divider = self.sweep_divider - 1;
            }
        } else {
            self.sweep_mute = false;
        }
    }

    /// The channel's current sample (0-15 in ordinary operation).
    pub fn output(&self) -> (r: u8)
        ensures
            r == spec_pulse_output(*self),
            spec_pulse_range_wf(*self) ==> r <= 15,
    {
        if !self.enabled || self.sweep_mute || self.length_counter == 0 {
            return 0;
        }
        let duty_out = DUTY_TABLE[(self.duty % 4) as usize][(self.duty_position % 8) as usize];
        if duty_out == 0 {
            return 0;
        }
        if self.constant_volume {
            self.volume
        } else {
            self.envelope_counter
        }
    }
}


/// The triangle channel: a 32-step waveform gated by both the length
/// and linear counters.
#[derive(Debug, Clone, Copy, PartialEq, Eq, Structural)]
pub struct TriangleChannel {
    /// Whether the channel is enabled via $4015.
    pub enabled: bool,
    /// Length counter halt, which doubles as linear counter control.
    pub length_halt: bool,
    /// Linear counter reload value.
    pub linear_counter_load: u8,
    /// Timer period (11 bits).
    pub timer_period: u16,
    /// Length counter.
    pub length_counter: u8,
    /// Linear counter.
    pub linear_counter: u8,
    /// Linear counter reload flag.
    pub linear_counter_reload: bool,
    /// Current timer value.
    pub timer: u16,
    /// Sequence step (0-31).
    pub sequence_position: u8,
}

/// The 32-step triangle sequence value at a step: 15 down to 0, then 0
/// up to 15.
pub open spec fn spec_triangle_wave(step: int) -> u8 {
    if step < 16 {
        (15 - step) as u8
    } else {
        (step - 16) as u8
    }
}

/// The sample the triangle channel emits: silent when disabled or at an
/// ultrasonic period (below 2), else the sequence value it rests on.
pub open spec fn spec_triangle_output(t: TriangleChannel) -> u8 {
    if !t.enabled || t.timer_period < 2 {
        0u8
    } else {
        spec_triangle_wave((t.sequence_position % 32) as int)
    }
}

impl TriangleChannel {
    /// A silent triangle channel with everything cleared.
    pub fn new() -> (r: TriangleChannel)
        ensures
            r == (TriangleChannel {
                enabled: false,
                length_halt: false,
                linear_counter_load: 0u8,
                timer_period: 0u16,
                length_counter: 0u8,
                linear_counter: 0u8,
                linear_counter_reload: false,
                timer: 0u16,
                sequence_position: 0u8,
            }),
    {
        TriangleChannel {
            enabled: false,
            length_halt: false,
            linear_counter_load: 0,
            timer_period: 0,
            length_counter: 0,
            linear_counter: 0,
            linear_counter_reload: false,
            timer: 0,
            sequence_position: 0,
        }
    }

    /// Register 0: control/halt in bit 7, linear counter load in 0-6.
    pub fn write_reg0(&mut self, value: u8)
        ensures
            *final(self) == (TriangleChannel {
                length_halt: value >= 0x80,
                linear_counter_load: (value % 128) as u8,
                ..*old(self)
            }),
    {
        self.length_halt = value >= 0x80;
        self.linear_counter_load = value % 128;
    }

    /// Register 2: the low eight bits of the timer period.
    pub fn write_reg2(&mut self, value: u8)
        ensures
            *final(self) == (TriangleChannel {
                timer_period: ((old(self).timer_period / 256) % 8 * 256 + value) as u16,
                ..*old(self)
            }),
    {
        self.timer_period = self.timer_period / 256 % 8 * 256 + value as u16;
    }

    /// Register 3: timer period high bits and the length-counter load;
    /// also flags the linear counter for reload.
    pub fn write_reg3(&mut self, value: u8)
        ensures
            *final(self) == (TriangleChannel {
                timer_period: ((value % 8) as u16 * 256 + old(self).timer_period % 256) as u16,
                length_counter: if old(self).enabled {
                    LENGTH_TABLE[(value / 8) as int]
                } else {
                    old(self).length_counter
                },
                linear_counter_reload: true,
                ..*old(self)
            }),
    {
        self.timer_period = (value % 8) as u16 * 256 + self.timer_period % 256;
        if self.enabled {
            self.length_counter = LENGTH_TABLE[(value / 8) as usize];
        }
        self.linear_counter_reload = true;
    }

    /// Enable or disable the channel; disabling forces the length
    /// counter to zero.
    pub fn set_enabled(&mut self, enabled: bool)
        ensures
            *final(self) == (TriangleChannel {
                enabled: enabled,
                length_counter: if enabled {
                    old(self).length_counter
                } else {
                    0u8
                },
                ..*old(self)
            }),
    {
        self.enabled = enabled;
        if !enabled {
            self.length_counter = 0;
        }
    }

    /// Whether the length counter is still running (for $4015 reads).
    pub fn length_counter_status(&self) -> (r: bool)
        ensures
            r == (self.length_counter > 0),
    {
        self.length_counter > 0
    }

    /// Advance the timer one CPU cycle: on expiry reload it and, when
    /// both the length and linear counters run, step the sequence.
    pub fn clock_timer(&mut self)
        ensures
            old(self).timer == 0 ==> *final(self) == (TriangleChannel {
                timer: old(self).timer_period,
                sequence_position: if old(self).linear_counter > 0 && old(self).length_counter > 0 {
                    ((old(self).sequence_position % 32 + 1) % 32) as u8
                } else {
                    old(self).sequence_position
                },
                ..*old(self)
            }),
            old(self).timer != 0 ==> *final(self) == (TriangleChannel {
                timer: (old(self).timer - 1) as u16,
                ..*old(self)
            }),
    {
        if self.timer == 0 {
            self.timer = self.timer_period;
            if self.linear_counter > 0 && self.length_counter > 0 {
                self.sequence_position = (self.sequence_position % 32 + 1) % 32;
            }
        } else {
            self.timer = self.timer - 1;
        }
    }

    /// Quarter-frame linear counter tick: reload when flagged, else
    /// count down; the reload flag clears unless control is held.
    pub fn clock_linear_counter(&mut self)
        ensures
            *final(self) == (TriangleChannel {
                linear_counter: if old(self).linear_counter_reload {
                    old(self).linear_counter_load
                } else if old(self).linear_counter > 0 {
                    (old(self).linear_counter - 1) as u8
                } else {
                    old(self).linear_counter
                },
                linear_counter_reload: if !old(self).length_halt {
                    false
                } else {
                    old(self).linear_counter_reload
                },
                ..*old(self)
            }),
    {
        if self.linear_counter_reload {
            self.linear_counter = self.linear_counter_load;
        } else if self.linear_counter > 0 {
            self.linear_counter = self.linear_counter - 1;
        }
        if !self.length_halt {
            self.linear_counter_reload = false;
        }
    }

    /// Half-frame length tick: count down unless halted or already zero.
    pub fn clock_length(&mut self)
        ensures
            *final(self) == (TriangleChannel {
                length_counter: if !old(self).length_halt && old(self).length_counter > 0 {
                    (old(self).length_counter - 1) as u8
                } else {
                    old(self).length_counter
                },
                ..*old(self)
            }),
    {
        if !self.length_halt && self.length_counter > 0 {
            self.length_counter = self.length_counter - 1;
        }
    }

    /// The channel's current sample (0-15).
    pub fn output(&self) -> (r: u8)
        ensures
            r == spec_triangle_output(*self),
            r <= 15,
    {
        if !self.enabled || self.timer_period < 2 {
            return 0;
        }
        let step = self.sequence_position % 32;
        if step < 16 {
            15 - step
        } else {
            step - 16
        }
    }
}

/// The noise channel: a 15-bit linear-feedback shift register drives a
/// pseudo-random bit stream.
#[derive(Debug, Clone, Copy, PartialEq, Eq, Structural)]
pub struct NoiseChannel {
    /// Whether the channel is enabled via $4015.
    pub enabled: bool,
    /// Length counter halt / envelope loop flag.
    pub length_halt: bool,
    /// Use the constant volume instead of the envelope.
    pub constant_volume: bool,
    /// Volume level / envelope period.
    pub volume: u8,
    /// Feedback mode: false taps bit 1, true taps bit 6.
    pub mode: bool,
    /// Period index into the noise period table (0-15).
    pub timer_period: u8,
    /// Length counter.
    pub length_counter: u8,
    /// Current timer value.
    pub timer: u16,
    /// The 15-bit shift register; never zero.
    pub shift_register: u16,
    /// Envelope divider.
    pub envelope_divider: u8,
    /// Envelope decay counter.
    pub envelope_counter: u8,
    /// Envelope start flag.
    pub envelope_start: bool,
}

/// The well-formedness of the noise channel: its shift register is a
/// nonzero 15-bit value.
pub open spec fn spec_noise_wf(n: NoiseChannel) -> bool {
    1 <= n.shift_register < 0x8000
}

/// One shift of the noise LFSR: the feedback bit is bit 0 xor bit 1
/// (or bit 6 in the alternate mode), the register shifts right, and the
/// feedback enters bit 14.
pub open spec fn spec_noise_shift(sr: u16, mode: bool) -> u16 {
    let b0 = sr % 2;
    let tap = if mode {
        (sr / 64) % 2
    } else {
        (sr / 2) % 2
    };
    let feedback: u16 = if b0 != tap {
        1u16
    } else {
        0u16
    };
    (sr / 2 + feedback * 0x4000) as u16
}

/// The sample the noise channel emits: 0 when bit 0 of the register is
/// set, the channel is disabled, or its length has run out; otherwise
/// the constant volume or the envelope decay counter.
pub open spec fn spec_noise_output(n: NoiseChannel) -> u8 {
    if !n.enabled || n.length_counter == 0 || n.shift_register % 2 == 1 {
        0u8
    } else if n.constant_volume {
        n.volume
    } else {
        n.envelope_counter
    }
}

/// A nonzero 15-bit LFSR stays nonzero and 15-bit across a shift: the
/// noise register can never become all-zero.
pub proof fn lemma_noise_shift_nonzero(sr: u16, mode: bool)
    requires
        1 <= sr < 0x8000,
    ensures
        1 <= spec_noise_shift(sr, mode) < 0x8000,
{
    if sr / 2 == 0 {
        assert(sr == 1);
        assert(spec_noise_shift(sr, mode) == 0x4000);
    }
}

impl NoiseChannel {
    /// A silent noise channel; the shift register starts at 1.
    pub fn new() -> (r: NoiseChannel)
        ensures
            r == (NoiseChannel {
                enabled: false,
                length_halt: false,
                constant_volume: false,
                volume: 0u8,
                mode: false,
                timer_period: 0u8,
                length_counter: 0u8,
                timer: 0u16,
                shift_register: 1u16,
                envelope_divider: 0u8,
                envelope_counter: 0u8,
                envelope_start: false,
            }),
            spec_noise_wf(r),
    {
        NoiseChannel {
            enabled: false,
            length_halt: false,
            constant_volume: false,
            volume: 0,
            mode: false,
            timer_period: 0,
            length_counter: 0,
            timer: 0,
            shift_register: 1,
            envelope_divider: 0,
            envelope_counter: 0,
            envelope_start: false,
        }
    }

    /// Register 0: length halt in bit 5, constant volume in bit 4,
    /// volume/envelope period in bits 0-3.
    pub fn write_reg0(&mut self, value: u8)
        ensures
            *final(self) == (NoiseChannel {
                length_halt: (value / 32) % 2 == 1,
                constant_volume: (value / 16) % 2 == 1,
                volume: (value % 16) as u8,
                ..*old(self)
            }),
    {
        self.length_halt = (value / 32) % 2 == 1;
        self.constant_volume = (value / 16) % 2 == 1;
        self.volume = value % 16;
    }

    /// Register 2: feedback mode in bit 7, period index in bits 0-3.
    pub fn write_reg2(&mut self, value: u8)
        ensures
            *final(self) == (NoiseChannel {
                mode: value >= 0x80,
                timer_period: (value % 16) as u8,
                ..*old(self)
            }),
    {
        self.mode = value >= 0x80;
        self.timer_period = value % 16;
    }

    /// Register 3: the length-counter load; also restarts the envelope.
    pub fn write_reg3(&mut self, value: u8)
        ensures
            *final(self) == (NoiseChannel {
                length_counter: if old(self).enabled {
                    LENGTH_TABLE[(value / 8) as int]
                } else {
                    old(self).length_counter
                },
                envelope_start: true,
                ..*old(self)
            }),
    {
        if self.enabled {
            self.length_counter = LENGTH_TABLE[(value / 8) as usize];
        }
        self.envelope_start = true;
    }

    /// Enable or disable the channel; disabling forces the length
    /// counter to zero.
    pub fn set_enabled(&mut self, enabled: bool)
        ensures
            *final(self) == (NoiseChannel {
                enabled: enabled,
                length_counter: if enabled {
                    old(self).length_counter
                } else {
                    0u8
                },
                ..*old(self)
            }),
    {
        self.enabled = enabled;
        if !enabled {
            self.length_counter = 0;
        }
    }

    /// Whether the length counter is still running (for $4015 reads).
    pub fn length_counter_status(&self) -> (r: bool)
        ensures
            r == (self.length_counter > 0),
    {
        self.length_counter > 0
    }

    /// Advance the timer one APU cycle: on expiry reload it from the
    /// period table and shift the LFSR, which stays nonzero.
    pub fn clock_timer(&mut self)
        requires
            spec_noise_wf(*old(self)),
        ensures
            spec_noise_wf(*final(self)),
            old(self).timer == 0 ==> *final(self) == (NoiseChannel {
                timer: NOISE_PERIOD_TABLE[(old(self).timer_period % 16) as int],
                shift_register: spec_noise_shift(old(self).shift_register, old(self).mode),
                ..*old(self)
            }),
            old(self).timer != 0 ==> *final(self) == (NoiseChannel {
                timer: (old(self).timer - 1) as u16,
                ..*old(self)
            }),
    {
        if self.timer == 0 {
            self.timer = NOISE_PERIOD_TABLE[(self.timer_period % 16) as usize];
            let sr = self.shift_register;
            let b0 = sr % 2;
            let tap = if self.mode {
                (sr / 64) % 2
            } else {
                (sr / 2) % 2
            };
            let feedback: u16 = if b0 != tap {
                1
            } else {
                0
            };
            self.shift_register = sr / 2 + feedback * 0x4000;
            proof {
                lemma_noise_shift_nonzero(sr, self.mode);
            }
        } else {
            self.timer = self.timer - 1;
        }
    }

    /// Quarter-frame envelope tick, identical to the pulse envelope.
    pub fn clock_envelope(&mut self)
        ensures
            old(self).envelope_start ==> *final(self) == (NoiseChannel {
                envelope_start: false,
                envelope_counter: 15u8,
                envelope_divider: old(self).volume,
                ..*old(self)
            }),
            !old(self).envelope_start && old(self).envelope_divider == 0 ==> *final(self) == (
            NoiseChannel {
                envelope_divider: old(self).volume,
                envelope_counter: if old(self).envelope_counter > 0 {
                    (old(self).envelope_counter - 1) as u8
                } else if old(self).length_halt {
                    15u8
                } else {
                    old(self).envelope_counter
                },
                ..*old(self)
            }),
            !old(self).envelope_start && old(self).envelope_divider != 0 ==> *final(self) == (
            NoiseChannel { envelope_divider: (old(self).envelope_divider - 1) as u8, ..*old(self) }),
    {
        if self.envelope_start {
            self.envelope_start = false;
            self.envelope_counter = 15;
            self.envelope_divider = self.volume;
        } else if self.envelope_divider == 0 {
            self.envelope_divider = self.volume;
            if self.envelope_counter > 0 {
                self.envelope_counter = self.envelope_counter - 1;
            } else if self.length_halt {
                self.envelope_counter = 15;
            }
        } else {
            self.envelope_divider = self.envelope_divider - 1;
        }
    }

    /// Half-frame length tick: count down unless halted or already zero.
    pub fn clock_length(&mut self)
        ensures
            *final(self) == (NoiseChannel {
                length_counter: if !old(self).length_halt && old(self).length_counter > 0 {
                    (old(self).length_counter - 1) as u8
                } else {
                    old(self).length_counter
                },
                ..*old(self)
            }),
    {
        if !self.length_halt && self.length_counter > 0 {
            self.length_counter = self.length_counter - 1;
        }
    }

    /// The channel's current sample (0-15 in ordinary operation).
    pub fn output(&self) -> (r: u8)
        ensures
            r == spec_noise_output(*self),
            spec_noise_range_wf(*self) ==> r <= 15,
    {
        if !self.enabled || self.length_counter == 0 || self.shift_register % 2 == 1 {
            return 0;
        }
        if self.constant_volume {
            self.volume
        } else {
            self.envelope_counter
        }
    }
}

/// The delta modulation channel, modelled as a level register only:
/// sample fetching and its cycle stealing are out of this core's scope.
#[derive(Debug, Clone, Copy, PartialEq, Eq, Structural)]
pub struct DmcChannel {
    /// Whether the channel is enabled via $4015.
    pub enabled: bool,
    /// Whether the channel raises an IRQ at the end of a sample.
    pub irq_enabled: bool,
    /// Whether the sample loops.
    pub loop_flag: bool,
    /// Rate index (0-15).
    pub rate: u8,
    /// Direct-load value (7 bits).
    pub direct_load: u8,
    /// Sample start address: $C000 + 64 times the register value.
    pub sample_address: u16,
    /// Sample length: 16 times the register value plus one.
    pub sample_length: u16,
    /// Current output level (7 bits).
    pub output_level: u8,
    /// Bytes remaining in the current sample.
    pub bytes_remaining: u16,
    /// Current fetch address.
    pub current_address: u16,
}

impl DmcChannel {
    /// A silent DMC at the standard start address.
    pub fn new() -> (r: DmcChannel)
        ensures
            r == (DmcChannel {
                enabled: false,
                irq_enabled: false,
                loop_flag: false,
                rate: 0u8,
                direct_load: 0u8,
                sample_address: 0xC000u16,
                sample_length: 0u16,
                output_level: 0u8,
                bytes_remaining: 0u16,
                current_address: 0xC000u16,
            }),
    {
        DmcChannel {
            enabled: false,
            irq_enabled: false,
            loop_flag: false,
            rate: 0,
            direct_load: 0,
            sample_address: 0xC000,
            sample_length: 0,
            output_level: 0,
            bytes_remaining: 0,
            current_address: 0xC000,
        }
    }

    /// Register 0: IRQ enable in bit 7, loop in bit 6, rate in 0-3.
    pub fn write_reg0(&mut self, value: u8)
        ensures
            *final(self) == (DmcChannel {
                irq_enabled: value >= 0x80,
                loop_flag: (value / 64) % 2 == 1,
                rate: (value % 16) as u8,
                ..*old(self)
            }),
    {
        self.irq_enabled = value >= 0x80;
        self.loop_flag = (value / 64) % 2 == 1;
        self.rate = value % 16;
    }

    /// Register 1: direct 7-bit load of the output level.
    pub fn write_reg1(&mut self, value: u8)
        ensures
            *final(self) == (DmcChannel {
                direct_load: (value % 128) as u8,
                output_level: (value % 128) as u8,
                ..*old(self)
            }),
    {
        self.direct_load = value % 128;
        self.output_level = self.direct_load;
    }

    /// Register 2: the sample address, $C000 + 64 times the value.
    pub fn write_reg2(&mut self, value: u8)
        ensures
            *final(self) == (DmcChannel {
                sample_address: (0xC000 + value * 64) as u16,
                ..*old(self)
            }),
    {
        self.sample_address = 0xC000 + value as u16 * 64;
    }

    /// Register 3: the sample length, 16 times the value plus one.
    pub fn write_reg3(&mut self, value: u8)
        ensures
            *final(self) == (DmcChannel {
                sample_length: (value * 16 + 1) as u16,
                ..*old(self)
            }),
    {
        self.sample_length = value as u16 * 16 + 1;
    }

    /// Enable or disable the channel: disabling clears the remaining
    /// byte count; enabling with nothing left restarts the sample.
    pub fn set_enabled(&mut self, enabled: bool)
        ensures
            !enabled ==> *final(self) == (DmcChannel {
                enabled: false,
                bytes_remaining: 0u16,
                ..*old(self)
            }),
            enabled && old(self).bytes_remaining == 0 ==> *final(self) == (DmcChannel {
                enabled: true,
                current_address: old(self).sample_address,
                bytes_remaining: old(self).sample_length,
                ..*old(self)
            }),
            enabled && old(self).bytes_remaining != 0 ==> *final(self) == (DmcChannel {
                enabled: true,
                ..*old(self)
            }),
    {
        self.enabled = enabled;
        if !enabled {
            self.bytes_remaining = 0;
        } else if self.bytes_remaining == 0 {
            self.restart_sample();
        }
    }

    /// Restart the sample from its start address and full length.
    fn restart_sample(&mut self)
        ensures
            *final(self) == (DmcChannel {
                current_address: old(self).sample_address,
                bytes_remaining: old(self).sample_length,
                ..*old(self)
            }),
    {
        self.current_address = self.sample_address;
        self.bytes_remaining = self.sample_length;
    }

    /// Whether sample bytes remain (for $4015 reads).
    pub fn sample_status(&self) -> (r: bool)
        ensures
            r == (self.bytes_remaining > 0),
    {
        self.bytes_remaining > 0
    }

    /// The channel's current output level (0-127).
    pub fn output(&self) -> (r: u8)
        ensures
            r == self.output_level,
    {
        self.output_level
    }
}



/// The pulse channel's power-on state.
pub open spec fn spec_pulse_new() -> PulseChannel {
    PulseChannel {
        enabled: false,
        duty: 0u8,
        length_halt: false,
        constant_volume: false,
        volume: 0u8,
        sweep_enabled: false,
        sweep_period: 0u8,
        sweep_negate: false,
        sweep_shift: 0u8,
        sweep_divider: 0u8,
        sweep_mute: false,
        timer_period: 0u16,
        length_counter: 0u8,
        timer: 0u16,
        duty_position: 0u8,
        envelope_divider: 0u8,
        envelope_counter: 0u8,
        envelope_start: false,
    }
}

/// The triangle channel's power-on state.
pub open spec fn spec_triangle_new() -> TriangleChannel {
    TriangleChannel {
        enabled: false,
        length_halt: false,
        linear_counter_load: 0u8,
        timer_period: 0u16,
        length_counter: 0u8,
        linear_counter: 0u8,
        linear_counter_reload: false,
        timer: 0u16,
        sequence_position: 0u8,
    }
}

/// The noise channel's power-on state.
pub open spec fn spec_noise_new() -> NoiseChannel {
    NoiseChannel {
        enabled: false,
        length_halt: false,
        constant_volume: false,
        volume: 0u8,
        mode: false,
        timer_period: 0u8,
        length_counter: 0u8,
        timer: 0u16,
        shift_register: 1u16,
        envelope_divider: 0u8,
        envelope_counter: 0u8,
        envelope_start: false,
    }
}

/// The DMC's power-on state.
pub open spec fn spec_dmc_new() -> DmcChannel {
    DmcChannel {
        enabled: false,
        irq_enabled: false,
        loop_flag: false,
        rate: 0u8,
        direct_load: 0u8,
        sample_address: 0xC000u16,
        sample_length: 0u16,
        output_level: 0u8,
        bytes_remaining: 0u16,
        current_address: 0xC000u16,
    }
}

/// Pulse register 0 as a function on the channel.
pub open spec fn spec_pulse_reg0(p: PulseChannel, value: u8) -> PulseChannel {
    PulseChannel {
        duty: ((value / 64) % 4) as u8,
        length_halt: (value / 32) % 2 == 1,
        constant_volume: (value / 16) % 2 == 1,
        volume: (value % 16) as u8,
        ..p
    }
}

/// Pulse register 1 (the sweep unit) as a function on the channel.
pub open spec fn spec_pulse_reg1(p: PulseChannel, value: u8) -> PulseChannel {
    PulseChannel {
        sweep_enabled: value >= 0x80,
        sweep_period: ((value / 16) % 8) as u8,
        sweep_negate: (value / 8) % 2 == 1,
        sweep_shift: (value % 8) as u8,
        ..p
    }
}

/// Pulse register 2 (timer low) as a function on the channel.
pub open spec fn spec_pulse_reg2(p: PulseChannel, value: u8) -> PulseChannel {
    PulseChannel { timer_period: ((p.timer_period / 256) % 8 * 256 + value) as u16, ..p }
}

/// Pulse register 3 (timer high, length load) as a function on the
/// channel.
pub open spec fn spec_pulse_reg3(p: PulseChannel, value: u8) -> PulseChannel {
    PulseChannel {
        timer_period: ((value % 8) as u16 * 256 + p.timer_period % 256) as u16,
        length_counter: if p.enabled {
            LENGTH_TABLE[(value / 8) as int]
        } else {
            p.length_counter
        },
        envelope_start: true,
        duty_position: 0u8,
        ..p
    }
}

/// Enabling or disabling a pulse channel.
pub open spec fn spec_pulse_set_enabled(p: PulseChannel, enabled: bool) -> PulseChannel {
    PulseChannel {
        enabled: enabled,
        length_counter: if enabled {
            p.length_counter
        } else {
            0u8
        },
        ..p
    }
}

/// One timer tick of a pulse channel.
pub open spec fn spec_pulse_timer(p: PulseChannel) -> PulseChannel {
    if p.timer == 0 {
        PulseChannel {
            timer: p.timer_period,
            duty_position: ((p.duty_position % 8 + 1) % 8) as u8,
            ..p
        }
    } else {
        PulseChannel { timer: (p.timer - 1) as u16, ..p }
    }
}

/// One quarter-frame envelope tick, shared by the pulse and noise
/// envelope shapes.
pub open spec fn spec_pulse_envelope(p: PulseChannel) -> PulseChannel {
    if p.envelope_start {
        PulseChannel {
            envelope_start: false,
            envelope_counter: 15u8,
            envelope_divider: p.volume,
            ..p
        }
    } else if p.envelope_divider == 0 {
        PulseChannel {
            envelope_divider: p.volume,
            envelope_counter: if p.envelope_counter > 0 {
                (p.envelope_counter - 1) as u8
            } else if p.length_halt {
                15u8
            } else {
                p.envelope_counter
            },
            ..p
        }
    } else {
        PulseChannel { envelope_divider: (p.envelope_divider - 1) as u8, ..p }
    }
}

/// One half-frame length tick of a pulse channel.
pub open spec fn spec_pulse_length(p: PulseChannel) -> PulseChannel {
    PulseChannel {
        length_counter: if !p.length_halt && p.length_counter > 0 {
            (p.length_counter - 1) as u8
        } else {
            p.length_counter
        },
        ..p
    }
}

/// The sweep unit's period change: the period divided by two to the
/// shift count.
pub open spec fn spec_sweep_delta(p: PulseChannel) -> int {
    p.timer_period as int / (if p.sweep_shift % 8 == 0 {
        1int
    } else if p.sweep_shift % 8 == 1 {
        2int
    } else if p.sweep_shift % 8 == 2 {
        4int
    } else if p.sweep_shift % 8 == 3 {
        8int
    } else if p.sweep_shift % 8 == 4 {
        16int
    } else if p.sweep_shift % 8 == 5 {
        32int
    } else if p.sweep_shift % 8 == 6 {
        64int
    } else {
        128int
    })
}

/// One half-frame sweep tick: with the unit enabled and a nonzero
/// shift, an overflowing target or a period below 8 mutes the channel,
/// otherwise a divider underflow copies the target to the period;
/// otherwise the sweep mutes nothing.
pub open spec fn spec_pulse_sweep(p: PulseChannel) -> PulseChannel {
    if p.sweep_enabled && p.sweep_shift % 8 != 0 {
        let delta = spec_sweep_delta(p);
        let target: int = if p.sweep_negate {
            if p.timer_period >= delta {
                p.timer_period - delta
            } else {
                0int
            }
        } else {
            if p.timer_period + delta > 0x7FF {
                0x800int
            } else {
                p.timer_period + delta
            }
        };
        let mute = target > 0x7FF || p.timer_period < 8;
        if p.sweep_divider == 0 {
            PulseChannel {
                sweep_mute: mute,
                sweep_divider: p.sweep_period,
                timer_period: if !mute {
                    target as u16
                } else {
                    p.timer_period
                },
                ..p
            }
        } else {
            PulseChannel {
                sweep_mute: mute,
                sweep_divider: (p.sweep_divider - 1) as u8,
                ..p
            }
        }
    } else {
        PulseChannel { sweep_mute: false, ..p }
    }
}

/// Triangle register 0 as a function on the channel.
pub open spec fn spec_triangle_reg0(t: TriangleChannel, value: u8) -> TriangleChannel {
    TriangleChannel {
        length_halt: value >= 0x80,
        linear_counter_load: (value % 128) as u8,
        ..t
    }
}

/// Triangle register 2 (timer low) as a function on the channel.
pub open spec fn spec_triangle_reg2(t: TriangleChannel, value: u8) -> TriangleChannel {
    TriangleChannel { timer_period: ((t.timer_period / 256) % 8 * 256 + value) as u16, ..t }
}

/// Triangle register 3 (timer high, length load) as a function on the
/// channel.
pub open spec fn spec_triangle_reg3(t: TriangleChannel, value: u8) -> TriangleChannel {
    TriangleChannel {
        timer_period: ((value % 8) as u16 * 256 + t.timer_period % 256) as u16,
        length_counter: if t.enabled {
            LENGTH_TABLE[(value / 8) as int]
        } else {
            t.length_counter
        },
        linear_counter_reload: true,
        ..t
    }
}

/// Enabling or disabling the triangle channel.
pub open spec fn spec_triangle_set_enabled(t: TriangleChannel, enabled: bool) -> TriangleChannel {
    TriangleChannel {
        enabled: enabled,
        length_counter: if enabled {
            t.length_counter
        } else {
            0u8
        },
        ..t
    }
}

/// One timer tick of the triangle channel.
pub open spec fn spec_triangle_timer(t: TriangleChannel) -> TriangleChannel {
    if t.timer == 0 {
        TriangleChannel {
            timer: t.timer_period,
            sequence_position: if t.linear_counter > 0 && t.length_counter > 0 {
                ((t.sequence_position % 32 + 1) % 32) as u8
            } else {
                t.sequence_position
            },
            ..t
        }
    } else {
        TriangleChannel { timer: (t.timer - 1) as u16, ..t }
    }
}

/// One quarter-frame linear counter tick of the triangle channel.
pub open spec fn spec_triangle_linear(t: TriangleChannel) -> TriangleChannel {
    TriangleChannel {
        linear_counter: if t.linear_counter_reload {
            t.linear_counter_load
        } else if t.linear_counter > 0 {
            (t.linear_counter - 1) as u8
        } else {
            t.linear_counter
        },
        linear_counter_reload: if !t.length_halt {
            false
        } else {
            t.linear_counter_reload
        },
        ..t
    }
}

/// One half-frame length tick of the triangle channel.
pub open spec fn spec_triangle_length(t: TriangleChannel) -> TriangleChannel {
    TriangleChannel {
        length_counter: if !t.length_halt && t.length_counter > 0 {
            (t.length_counter - 1) as u8
        } else {
            t.length_counter
        },
        ..t
    }
}

/// Noise register 0 as a function on the channel.
pub open spec fn spec_noise_reg0(n: NoiseChannel, value: u8) -> NoiseChannel {
    NoiseChannel {
        length_halt: (value / 32) % 2 == 1,
        constant_volume: (value / 16) % 2 == 1,
        volume: (value % 16) as u8,
        ..n
    }
}

/// Noise register 2 (mode, period index) as a function on the channel.
pub open spec fn spec_noise_reg2(n: NoiseChannel, value: u8) -> NoiseChannel {
    NoiseChannel { mode: value >= 0x80, timer_period: (value % 16) as u8, ..n }
}

/// Noise register 3 (length load) as a function on the channel.
pub open spec fn spec_noise_reg3(n: NoiseChannel, value: u8) -> NoiseChannel {
    NoiseChannel {
        length_counter: if n.enabled {
            LENGTH_TABLE[(value / 8) as int]
        } else {
            n.length_counter
        },
        envelope_start: true,
        ..n
    }
}

/// Enabling or disabling the noise channel.
pub open spec fn spec_noise_set_enabled(n: NoiseChannel, enabled: bool) -> NoiseChannel {
    NoiseChannel {
        enabled: enabled,
        length_counter: if enabled {
            n.length_counter
        } else {
            0u8
        },
        ..n
    }
}

/// One timer tick of the noise channel: on expiry the LFSR shifts.
pub open spec fn spec_noise_timer(n: NoiseChannel) -> NoiseChannel {
    if n.timer == 0 {
        NoiseChannel {
            timer: NOISE_PERIOD_TABLE[(n.timer_period % 16) as int],
            shift_register: spec_noise_shift(n.shift_register, n.mode),
            ..n
        }
    } else {
        NoiseChannel { timer: (n.timer - 1) as u16, ..n }
    }
}

/// One quarter-frame envelope tick of the noise channel.
pub open spec fn spec_noise_envelope(n: NoiseChannel) -> NoiseChannel {
    if n.envelope_start {
        NoiseChannel {
            envelope_start: false,
            envelope_counter: 15u8,
            envelope_divider: n.volume,
            ..n
        }
    } else if n.envelope_divider == 0 {
        NoiseChannel {
            envelope_divider: n.volume,
            envelope_counter: if n.envelope_counter > 0 {
                (n.envelope_counter - 1) as u8
            } else if n.length_halt {
                15u8
            } else {
                n.envelope_counter
            },
            ..n
        }
    } else {
        NoiseChannel { envelope_divider: (n.envelope_divider - 1) as u8, ..n }
    }
}

/// One half-frame length tick of the noise channel.
pub open spec fn spec_noise_length(n: NoiseChannel) -> NoiseChannel {
    NoiseChannel {
        length_counter: if !n.length_halt && n.length_counter > 0 {
            (n.length_counter - 1) as u8
        } else {
            n.length_counter
        },
        ..n
    }
}

/// DMC register 0 as a function on the channel.
pub open spec fn spec_dmc_reg0(d: DmcChannel, value: u8) -> DmcChannel {
    DmcChannel {
        irq_enabled: value >= 0x80,
        loop_flag: (value / 64) % 2 == 1,
        rate: (value % 16) as u8,
        ..d
    }
}

/// DMC register 1 (direct load) as a function on the channel.
pub open spec fn spec_dmc_reg1(d: DmcChannel, value: u8) -> DmcChannel {
    DmcChannel { direct_load: (value % 128) as u8, output_level: (value % 128) as u8, ..d }
}

/// DMC register 2 (sample address) as a function on the channel.
pub open spec fn spec_dmc_reg2(d: DmcChannel, value: u8) -> DmcChannel {
    DmcChannel { sample_address: (0xC000 + value * 64) as u16, ..d }
}

/// DMC register 3 (sample length) as a function on the channel.
pub open spec fn spec_dmc_reg3(d: DmcChannel, value: u8) -> DmcChannel {
    DmcChannel { sample_length: (value * 16 + 1) as u16, ..d }
}

/// Enabling or disabling the DMC: disabling clears the byte count,
/// enabling with nothing left restarts the sample.
pub open spec fn spec_dmc_set_enabled(d: DmcChannel, enabled: bool) -> DmcChannel {
    if !enabled {
        DmcChannel { enabled: false, bytes_remaining: 0u16, ..d }
    } else if d.bytes_remaining == 0 {
        DmcChannel {
            enabled: true,
            current_address: d.sample_address,
            bytes_remaining: d.sample_length,
            ..d
        }
    } else {
        DmcChannel { enabled: true, ..d }
    }
}

/// A quarter-frame tick: envelopes and the triangle linear counter.
pub open spec fn spec_apu_quarter(a: Apu) -> Apu {
    Apu {
        pulse1: spec_pulse_envelope(a.pulse1),
        pulse2: spec_pulse_envelope(a.pulse2),
        triangle: spec_triangle_linear(a.triangle),
        noise: spec_noise_envelope(a.noise),
        ..a
    }
}

/// A half-frame tick: length counters for all four counted channels,
/// then the pulse sweep units.
pub open spec fn spec_apu_half(a: Apu) -> Apu {
    Apu {
        pulse1: spec_pulse_sweep(spec_pulse_length(a.pulse1)),
        pulse2: spec_pulse_sweep(spec_pulse_length(a.pulse2)),
        triangle: spec_triangle_length(a.triangle),
        noise: spec_noise_length(a.noise),
        ..a
    }
}

/// One frame sequencer step: quarter-frame units every step, half-frame
/// units on the alternating steps, and the step counter advanced within
/// its 4- or 5-step cycle.
pub open spec fn spec_apu_frame_tick(a: Apu) -> Apu {
    if a.frame_counter_mode {
        let a2 = if a.frame_step == 0 || a.frame_step == 2 {
            spec_apu_quarter(a)
        } else if a.frame_step == 1 || a.frame_step == 3 {
            spec_apu_half(spec_apu_quarter(a))
        } else {
            a
        };
        Apu { frame_step: ((a.frame_step % 5 + 1) % 5) as u8, ..a2 }
    } else {
        let a2 = if a.frame_step == 0 || a.frame_step == 2 {
            spec_apu_quarter(a)
        } else {
            spec_apu_half(spec_apu_quarter(a))
        };
        Apu { frame_step: ((a.frame_step % 4 + 1) % 4) as u8, ..a2 }
    }
}

/// What one APU register write makes of the whole APU: each channel
/// register applies its channel function, $4015 enables or disables all
/// five channels, $4017 restarts the frame sequencer (clocking one
/// quarter and one half frame at once in 5-step mode), and every other
/// address leaves the APU alone.
pub open spec fn spec_apu_after_reg_write(a: Apu, addr: u16, value: u8) -> Apu {
    if addr == 0x4000 {
        Apu { pulse1: spec_pulse_reg0(a.pulse1, value), ..a }
    } else if addr == 0x4001 {
        Apu { pulse1: spec_pulse_reg1(a.pulse1, value), ..a }
    } else if addr == 0x4002 {
        Apu { pulse1: spec_pulse_reg2(a.pulse1, value), ..a }
    } else if addr == 0x4003 {
        Apu { pulse1: spec_pulse_reg3(a.pulse1, value), ..a }
    } else if addr == 0x4004 {
        Apu { pulse2: spec_pulse_reg0(a.pulse2, value), ..a }
    } else if addr == 0x4005 {
        Apu { pulse2: spec_pulse_reg1(a.pulse2, value), ..a }
    } else if addr == 0x4006 {
        Apu { pulse2: spec_pulse_reg2(a.pulse2, value), ..a }
    } else if addr == 0x4007 {
        Apu { pulse2: spec_pulse_reg3(a.pulse2, value), ..a }
    } else if addr == 0x4008 {
        Apu { triangle: spec_triangle_reg0(a.triangle, value), ..a }
    } else if addr == 0x400A {
        Apu { triangle: spec_triangle_reg2(a.triangle, value), ..a }
    } else if addr == 0x400B {
        Apu { triangle: spec_triangle_reg3(a.triangle, value), ..a }
    } else if addr == 0x400C {
        Apu { noise: spec_noise_reg0(a.noise, value), ..a }
    } else if addr == 0x400E {
        Apu { noise: spec_noise_reg2(a.noise, value), ..a }
    } else if addr == 0x400F {
        Apu { noise: spec_noise_reg3(a.noise, value), ..a }
    } else if addr == 0x4010 {
        Apu { dmc: spec_dmc_reg0(a.dmc, value), ..a }
    } else if addr == 0x4011 {
        Apu { dmc: spec_dmc_reg1(a.dmc, value), ..a }
    } else if addr == 0x4012 {
        Apu { dmc: spec_dmc_reg2(a.dmc, value), ..a }
    } else if addr == 0x4013 {
        Apu { dmc: spec_dmc_reg3(a.dmc, value), ..a }
    } else if addr == 0x4015 {
        Apu {
            pulse1: spec_pulse_set_enabled(a.pulse1, value % 2 == 1),
            pulse2: spec_pulse_set_enabled(a.pulse2, (value / 2) % 2 == 1),
            triangle: spec_triangle_set_enabled(a.triangle, (value / 4) % 2 == 1),
            noise: spec_noise_set_enabled(a.noise, (value / 8) % 2 == 1),
            dmc: spec_dmc_set_enabled(a.dmc, (value / 16) % 2 == 1),
            ..a
        }
    } else if addr == 0x4017 {
        let a2 = Apu {
            frame_counter_mode: value >= 0x80,
            irq_inhibit: (value / 64) % 2 == 1,
            frame_step: 0u8,
            ..a
        };
        if value >= 0x80 {
            spec_apu_half(spec_apu_quarter(a2))
        } else {
            a2
        }
    } else {
        a
    }
}

/// One CPU cycle of the APU: the pulse and noise timers tick on even
/// cycles, the triangle timer every cycle, the frame sequencer steps
/// when the cycle count is a multiple of 7457, and the cycle count
/// advances (wrapping).
pub open spec fn spec_apu_clock(a: Apu) -> Apu {
    let a1 = if a.cycle % 2 == 0 {
        Apu {
            pulse1: spec_pulse_timer(a.pulse1),
            pulse2: spec_pulse_timer(a.pulse2),
            noise: spec_noise_timer(a.noise),
            ..a
        }
    } else {
        a
    };
    let a2 = Apu { triangle: spec_triangle_timer(a1.triangle), ..a1 };
    let a3 = if a.cycle % 7457 == 0 {
        spec_apu_frame_tick(a2)
    } else {
        a2
    };
    Apu {
        cycle: if a.cycle == u64::MAX {
            0u64
        } else {
            (a.cycle + 1) as u64
        },
        ..a3
    }
}

/// The $4015 status byte: one bit per channel with length (or, for
/// the DMC, bytes) remaining.
pub open spec fn spec_apu_status(a: Apu) -> u8 {
    ((if a.pulse1.length_counter > 0 {
        1int
    } else {
        0
    }) + (if a.pulse2.length_counter > 0 {
        2int
    } else {
        0
    }) + (if a.triangle.length_counter > 0 {
        4int
    } else {
        0
    }) + (if a.noise.length_counter > 0 {
        8int
    } else {
        0
    }) + (if a.dmc.bytes_remaining > 0 {
        16int
    } else {
        0
    })) as u8
}

/// How a register write changes the APU: the state after is exactly
/// the register-write function of the state before.
pub open spec fn spec_apu_reg_write(pre: Apu, post: Apu, addr: u16, value: u8) -> bool {
    post == spec_apu_after_reg_write(pre, addr, value)
}


/// A quarter-frame tick keeps the APU's hardware ranges.
proof fn lemma_apu_quarter_wf(a: Apu)
    requires
        spec_apu_wf(a),
    ensures
        spec_apu_wf(spec_apu_quarter(a)),
{
}

/// A half-frame tick keeps the APU's hardware ranges.
proof fn lemma_apu_half_wf(a: Apu)
    requires
        spec_apu_wf(a),
    ensures
        spec_apu_wf(spec_apu_half(a)),
{
}

/// A frame sequencer step keeps the APU's hardware ranges.
proof fn lemma_apu_frame_tick_wf(a: Apu)
    requires
        spec_apu_wf(a),
    ensures
        spec_apu_wf(spec_apu_frame_tick(a)),
{
    lemma_apu_quarter_wf(a);
    lemma_apu_half_wf(spec_apu_quarter(a));
}

/// One APU cycle keeps the APU's hardware ranges, the noise shift
/// register's nonzero 15-bit range included.
proof fn lemma_apu_clock_wf(a: Apu)
    requires
        spec_apu_wf(a),
    ensures
        spec_apu_wf(spec_apu_clock(a)),
{
    if a.cycle % 2 == 0 {
        lemma_noise_shift_nonzero(a.noise.shift_register, a.noise.mode);
    }
    let a1 = if a.cycle % 2 == 0 {
        Apu {
            pulse1: spec_pulse_timer(a.pulse1),
            pulse2: spec_pulse_timer(a.pulse2),
            noise: spec_noise_timer(a.noise),
            ..a
        }
    } else {
        a
    };
    let a2 = Apu { triangle: spec_triangle_timer(a1.triangle), ..a1 };
    if a.cycle % 7457 == 0 {
        lemma_apu_frame_tick_wf(a2);
    }
}

/// The NES APU: five channels, the frame sequencer, and its cycle
/// counter.
#[derive(Debug, Clone, Copy, PartialEq, Eq, Structural)]
pub struct Apu {
    /// Pulse channel 1.
    pub pulse1: PulseChannel,
    /// Pulse channel 2.
    pub pulse2: PulseChannel,
    /// Triangle channel.
    pub triangle: TriangleChannel,
    /// Noise channel.
    pub noise: NoiseChannel,
    /// Delta modulation channel.
    pub dmc: DmcChannel,
    /// Frame sequencer mode: false is 4-step, true is 5-step.
    pub frame_counter_mode: bool,
    /// Frame IRQ inhibit flag.
    pub irq_inhibit: bool,
    /// CPU cycles seen so far.
    pub cycle: u64,
    /// Current frame sequencer step.
    pub frame_step: u8,
}

/// The hardware ranges of a pulse channel's volume and envelope, which
/// every register write and clock tick preserves.
pub open spec fn spec_pulse_range_wf(p: PulseChannel) -> bool {
    p.volume <= 15 && p.envelope_counter <= 15
}

/// The hardware ranges of the noise channel's volume and envelope.
pub open spec fn spec_noise_range_wf(n: NoiseChannel) -> bool {
    n.volume <= 15 && n.envelope_counter <= 15
}

/// Well-formedness of the APU: the noise shift register is a nonzero
/// 15-bit value, and the volume and envelope counters sit in their
/// 4-bit hardware ranges (the DMC level in its 7-bit range).
pub open spec fn spec_apu_wf(a: Apu) -> bool {
    spec_noise_wf(a.noise) && spec_pulse_range_wf(a.pulse1) && spec_pulse_range_wf(a.pulse2)
        && spec_noise_range_wf(a.noise) && a.dmc.output_level <= 127
}

/// The APU as it stands at power-on and after a reset.
pub open spec fn spec_apu_initial(a: Apu) -> bool {
    a.pulse1 == spec_pulse_new() && a.pulse2 == spec_pulse_new() && a.triangle
        == spec_triangle_new() && a.noise == spec_noise_new() && a.dmc == spec_dmc_new()
        && !a.frame_counter_mode && !a.irq_inhibit && a.cycle == 0 && a.frame_step == 0
}

impl Apu {
    /// A silent APU in 4-step mode.
    pub fn new() -> (r: Apu)
        ensures
            spec_apu_initial(r),
            spec_apu_wf(r),
    {
        Apu {
            pulse1: PulseChannel::new(),
            pulse2: PulseChannel::new(),
            triangle: TriangleChannel::new(),
            noise: NoiseChannel::new(),
            dmc: DmcChannel::new(),
            frame_counter_mode: false,
            irq_inhibit: false,
            cycle: 0,
            frame_step: 0,
        }
    }

    /// Reset the APU to its power-on state.
    pub fn reset(&mut self)
        ensures
            spec_apu_initial(*final(self)),
            spec_apu_wf(*final(self)),
    {
        *self = Apu::new();
    }

    /// Write an APU register. $4000-$4013 address one channel each and
    /// leave the others alone; $4015 enables channels, forcing the
    /// length counter of each disabled channel to zero; $4017 sets the
    /// frame sequencer mode and restarts it, clocking a quarter and a
    /// half frame at once in 5-step mode.
    #[verifier::rlimit(100)]
    #[verifier::spinoff_prover]
    pub fn write_register(&mut self, addr: u16, value: u8)
        ensures
            spec_apu_reg_write(*old(self), *final(self), addr, value),
            spec_apu_wf(*old(self)) ==> spec_apu_wf(*final(self)),
    {
        if 0x4000 <= addr && addr < 0x4008 {
            self.write_pulse_register(addr, value);
        } else if 0x4008 <= addr && addr < 0x4014 {
            self.write_tnd_register(addr, value);
        } else if addr == 0x4015 {
            self.write_status(value);
        } else if addr == 0x4017 {
            self.write_frame_counter(value);
        }
    }

    /// A write to one of the two pulse channels' four registers.
    #[verifier::rlimit(100)]
    #[verifier::spinoff_prover]
    fn write_pulse_register(&mut self, addr: u16, value: u8)
        requires
            0x4000 <= addr < 0x4008,
        ensures
            *final(self) == spec_apu_after_reg_write(*old(self), addr, value),
    {
        if addr == 0x4000 {
            self.pulse1.write_reg0(value);
        } else if addr == 0x4001 {
            self.pulse1.write_reg1(value);
        } else if addr == 0x4002 {
            self.pulse1.write_reg2(value);
        } else if addr == 0x4003 {
            self.pulse1.write_reg3(value);
        } else if addr == 0x4004 {
            self.pulse2.write_reg0(value);
        } else if addr == 0x4005 {
            self.pulse2.write_reg1(value);
        } else if addr == 0x4006 {
            self.pulse2.write_reg2(value);
        } else {
            self.pulse2.write_reg3(value);
        }
    }

    /// A write to a triangle, noise or DMC register.
    #[verifier::rlimit(100)]
    #[verifier::spinoff_prover]
    fn write_tnd_register(&mut self, addr: u16, value: u8)
        requires
            0x4008 <= addr < 0x4014,
        ensures
            *final(self) == spec_apu_after_reg_write(*old(self), addr, value),
    {
        if addr == 0x4008 {
            self.triangle.write_reg0(value);
        } else if addr == 0x400A {
            self.triangle.write_reg2(value);
        } else if addr == 0x400B {
            self.triangle.write_reg3(value);
        } else if addr == 0x400C {
            self.noise.write_reg0(value);
        } else if addr == 0x400E {
            self.noise.write_reg2(value);
        } else if addr == 0x400F {
            self.noise.write_reg3(value);
        } else if addr == 0x4010 {
            self.dmc.write_reg0(value);
        } else if addr == 0x4011 {
            self.dmc.write_reg1(value);
        } else if addr == 0x4012 {
            self.dmc.write_reg2(value);
        } else if addr == 0x4013 {
            self.dmc.write_reg3(value);
        }
    }

    /// The $4015 write: enable bits for all five channels.
    #[verifier::rlimit(100)]
    #[verifier::spinoff_prover]
    fn write_status(&mut self, value: u8)
        ensures
            *final(self) == (Apu {
                pulse1: spec_pulse_set_enabled(old(self).pulse1, value % 2 == 1),
                pulse2: spec_pulse_set_enabled(old(self).pulse2, (value / 2) % 2 == 1),
                triangle: spec_triangle_set_enabled(old(self).triangle, (value / 4) % 2 == 1),
                noise: spec_noise_set_enabled(old(self).noise, (value / 8) % 2 == 1),
                dmc: spec_dmc_set_enabled(old(self).dmc, (value / 16) % 2 == 1),
                ..*old(self)
            }),
    {
        self.pulse1.set_enabled(value % 2 == 1);
        self.pulse2.set_enabled((value / 2) % 2 == 1);
        self.triangle.set_enabled((value / 4) % 2 == 1);
        self.noise.set_enabled((value / 8) % 2 == 1);
        self.dmc.set_enabled((value / 16) % 2 == 1);
    }

    /// The $4017 write: set the sequencer mode and restart it, clocking
    /// a quarter and a half frame at once in 5-step mode.
    #[verifier::rlimit(100)]
    #[verifier::spinoff_prover]
    fn write_frame_counter(&mut self, value: u8)
        ensures
            *final(self) == ({
                let a2 = Apu {
                    frame_counter_mode: value >= 0x80,
                    irq_inhibit: (value / 64) % 2 == 1,
                    frame_step: 0u8,
                    ..*old(self)
                };
                if value >= 0x80 {
                    spec_apu_half(spec_apu_quarter(a2))
                } else {
                    a2
                }
            }),
    {
        self.frame_counter_mode = value >= 0x80;
        self.irq_inhibit = (value / 64) % 2 == 1;
        self.frame_step = 0;
        if self.frame_counter_mode {
            self.clock_quarter_frame();
            self.clock_half_frame();
        }
    }

    /// Read an APU register: only the $4015 status register responds,
    /// with one bit per channel that still has length (or, for the DMC,
    /// bytes) remaining; everything else reads as 0.
    pub fn read_register(&self, addr: u16) -> (r: u8)
        ensures
            addr == 0x4015 ==> r == spec_apu_status(*self),
            addr != 0x4015 ==> r == 0,
    {
        if addr == 0x4015 {
            let mut status: u8 = 0;
            if self.pulse1.length_counter_status() {
                status = status + 1;
            }
            if self.pulse2.length_counter_status() {
                status = status + 2;
            }
            if self.triangle.length_counter_status() {
                status = status + 4;
            }
            if self.noise.length_counter_status() {
                status = status + 8;
            }
            if self.dmc.sample_status() {
                status = status + 16;
            }
            status
        } else {
            0
        }
    }

    /// Advance the APU one CPU cycle: pulse and noise timers run every
    /// other cycle, the triangle timer every cycle, and roughly every
    /// 7457 cycles the frame sequencer takes a step.
    #[verifier::rlimit(100)]
    #[verifier::spinoff_prover]
    pub fn clock(&mut self)
        requires
            spec_apu_wf(*old(self)),
        ensures
            spec_apu_wf(*final(self)),
            *final(self) == spec_apu_clock(*old(self)),
    {
        if self.cycle % 2 == 0 {
            self.pulse1.clock_timer();
            self.pulse2.clock_timer();
            self.noise.clock_timer();
        }
        self.triangle.clock_timer();
        if self.cycle % 7457 == 0 {
            self.clock_frame_counter();
        }
        self.cycle = self.cycle.wrapping_add(1);
        proof {
            lemma_apu_clock_wf(*old(self));
        }
    }

    /// One frame sequencer step: quarter-frame units every step, half
    /// frame units on the alternating steps of the 4- or 5-step cycle.
    fn clock_frame_counter(&mut self)
        ensures
            *final(self) == spec_apu_frame_tick(*old(self)),
    {
        if self.frame_counter_mode {
            if self.frame_step == 0 || self.frame_step == 2 {
                self.clock_quarter_frame();
            } else if self.frame_step == 1 || self.frame_step == 3 {
                self.clock_quarter_frame();
                self.clock_half_frame();
            }
            self.frame_step = (self.frame_step % 5 + 1) % 5;
        } else {
            if self.frame_step == 0 || self.frame_step == 2 {
                self.clock_quarter_frame();
            } else {
                self.clock_quarter_frame();
                self.clock_half_frame();
            }
            self.frame_step = (self.frame_step % 4 + 1) % 4;
        }
    }

    /// Quarter-frame tick: envelopes and the triangle linear counter.
    fn clock_quarter_frame(&mut self)
        ensures
            *final(self) == spec_apu_quarter(*old(self)),
    {
        self.pulse1.clock_envelope();
        self.pulse2.clock_envelope();
        self.triangle.clock_linear_counter();
        self.noise.clock_envelope();
    }

    /// Half-frame tick: length counters and the pulse sweep units.
    fn clock_half_frame(&mut self)
        ensures
            *final(self) == spec_apu_half(*old(self)),
    {
        self.pulse1.clock_length();
        self.pulse2.clock_length();
        self.triangle.clock_length();
        self.noise.clock_length();
        self.pulse1.clock_sweep();
        self.pulse2.clock_sweep();
    }

    /// The five channel levels that feed the host's non-linear mixer:
    /// both pulses, the triangle, the noise, and the DMC level.
    pub fn channel_outputs(&self) -> (r: (u8, u8, u8, u8, u8))
        ensures
            r.0 == spec_pulse_output(self.pulse1),
            r.1 == spec_pulse_output(self.pulse2),
            r.2 == spec_triangle_output(self.triangle),
            r.3 == spec_noise_output(self.noise),
            r.4 == self.dmc.output_level,
            spec_apu_wf(*self) ==> r.0 <= 15 && r.1 <= 15 && r.2 <= 15 && r.3 <= 15 && r.4 <= 127,
    {
        (
            self.pulse1.output(),
            self.pulse2.output(),
            self.triangle.output(),
            self.noise.output(),
            self.dmc.output(),
        )
    }
}

} // verus!
