use vstd::prelude::*;
use crate::apu::envelope::VolumeEnvelope;
use crate::bits::{bit_mask, mask_of};

verus! {

/// The frequency sweep of channel 1.
#[derive(Debug, Copy, Clone, PartialEq, Eq, Structural)]
pub struct Sweep {
    pub period: usize,
    pub subtraction: bool,
    pub shift: usize,
}

/// The value that `Sweep::get_frequency` gives for a frequency beyond
/// the 11 bits of the register.
pub const FREQUENCY_OVERFLOW: u16 = 2048;

impl Sweep {
    pub open spec fn wf(self) -> bool {
        self.period <= 7 && self.shift <= 7
    }

    pub open spec fn initial() -> Sweep {
        Sweep { period: 0, subtraction: false, shift: 0 }
    }

    /// The sweep after a write to NR10: bits 4 to 6 are the period, bit 3
    /// the direction, the low three bits the shift.
    pub open spec fn written(self, value: u8) -> Sweep {
        Sweep {
            period: ((value / 16) % 8) as usize,
            subtraction: (value / 8) % 2 == 1,
            shift: (value % 8) as usize,
        }
    }

    /// The frequency after one sweep step: with a period of 0 it stays;
    /// else it moves by itself shifted right by `shift`, and 2048 stands
    /// for a result above 2047.
    pub open spec fn swept(self, frequency: u16) -> u16 {
        if self.period == 0 {
            frequency
        } else {
            let offset = frequency / (mask_of(self.shift as int) as u16);
            let moved: int = if self.subtraction {
                frequency - offset
            } else {
                frequency + offset
            };
            if moved > 2047 {
                2048
            } else {
                moved as u16
            }
        }
    }

    pub fn new() -> (sweep: Sweep)
        ensures
            sweep == Self::initial(),
            sweep.wf(),
    {
        Sweep { period: 0, subtraction: false, shift: 0 }
    }

    pub fn write_byte(&mut self, value: u8)
        ensures
            *final(self) == old(self).written(value),
            final(self).wf(),
    {
        *self = Sweep {
            period: ((value / 16) % 8) as usize,
            subtraction: (value / 8) % 2 == 1,
            shift: (value % 8) as usize,
        };
    }

    pub fn get_frequency(&self, frequency: u16) -> (next: u16)
        requires
            self.wf(),
            frequency < 0x1000,
        ensures
            next == self.swept(frequency),
            next < 0x1000,
    {
        if self.period > 0 {
            let offset: u16 = frequency / (bit_mask(self.shift as u8) as u16);
            let moved: u16 = if self.subtraction { frequency - offset } else { frequency + offset };
            if moved > 2047 {
                FREQUENCY_OVERFLOW
            } else {
                moved
            }
        } else {
            frequency
        }
    }
}

/// A square wave channel: channel 1, which has the sweep, or channel 2.
#[derive(Debug, Copy, Clone, PartialEq, Eq, Structural)]
pub struct Tone {
    pub enabled: bool,
    /// The duty pattern: 0 to 3.
    pub duty: usize,
    pub length_enabled: bool,
    /// The length that a trigger loads: 64 less the six bits written.
    pub length: usize,
    /// The length clocks left until the channel stops.
    pub duration: usize,
    /// The 11 bits of the frequency registers, under a twelfth bit that is
    /// set until the high byte is first written.
    pub frequency: u16,
    /// Cycles counted towards the next step of the phase.
    pub counter: usize,
    /// The position in the duty pattern: 0 to 7.
    pub phase: usize,
    /// Cycles per step of the phase.
    pub period: usize,
    pub volume_envelope: VolumeEnvelope,
    pub sweep: Sweep,
}

/// The level of a duty pattern at a phase: low for the first 1, 2, 4 or 6
/// of the eight phases, then high.
pub open spec fn duty_level(duty: usize, phase: usize) -> i16 {
    let low: int = if duty == 0 {
        1
    } else if duty == 1 {
        2
    } else if duty == 2 {
        4
    } else {
        6
    };
    if phase < low {
        -1i16
    } else {
        1i16
    }
}

/// The cycles per step of the phase for a frequency: (2048 - f) * 4.
pub open spec fn tone_period(frequency: u16) -> usize {
    if frequency >= 2048 {
        1
    } else {
        ((2048 - frequency) * 4) as usize
    }
}

fn wave_pattern(duty: usize, phase: usize) -> (level: i16)
    ensures
        level == duty_level(duty, phase),
{
    let low: usize = if duty == 0 {
        1
    } else if duty == 1 {
        2
    } else if duty == 2 {
        4
    } else {
        6
    };
    if phase < low {
        -1
    } else {
        1
    }
}

impl Tone {
    pub open spec fn wf(self) -> bool {
        &&& self.duty <= 3
        &&& self.phase <= 7
        &&& self.period >= 1
        &&& self.period <= 8192
        &&& self.frequency < 0x1000
        &&& self.length <= 64
        &&& self.duration <= 64
        &&& self.volume_envelope.wf()
        &&& self.sweep.wf()
    }

    pub open spec fn initial() -> Tone {
        Tone {
            enabled: false,
            duty: 2,
            length_enabled: false,
            length: 0,
            duration: 0,
            frequency: 2048,
            counter: 0,
            phase: 0,
            period: 1,
            volume_envelope: VolumeEnvelope::initial(),
            sweep: Sweep::initial(),
        }
    }

    /// The channel with another frequency and the period that belongs to
    /// it.
    pub open spec fn with_frequency(self, frequency: u16) -> Tone {
        Tone { frequency, period: tone_period(frequency), ..self }
    }

    /// The channel after a write to one of its registers, at the addresses
    /// of channel 1 or of channel 2. A write to the high frequency byte
    /// with bit 7 set triggers the channel: it sounds, its length counter
    /// is loaded and its envelope starts anew.
    pub open spec fn written(self, address: u16, value: u8) -> Tone {
        if address == 0xFF10 {
            Tone { sweep: self.sweep.written(value), ..self }
        } else if address == 0xFF11 || address == 0xFF16 {
            Tone { length: (64 - value % 64) as usize, duty: (value / 64) as usize, ..self }
        } else if address == 0xFF12 || address == 0xFF17 {
            Tone { volume_envelope: self.volume_envelope.written(value), ..self }
        } else if address == 0xFF13 || address == 0xFF18 {
            Tone {
                duration: self.length,
                ..self.with_frequency(((self.frequency / 256) * 256 + value) as u16)
            }
        } else if address == 0xFF14 || address == 0xFF19 {
            let tuned = Tone {
                length_enabled: (value / 64) % 2 == 1,
                ..self.with_frequency((self.frequency % 256 + (value % 8) * 256) as u16)
            };
            if value >= 0x80 {
                Tone {
                    enabled: true,
                    duration: tuned.length,
                    volume_envelope: tuned.volume_envelope.restarted(),
                    ..tuned
                }
            } else {
                tuned
            }
        } else {
            self
        }
    }

    /// The channel after a length clock: while it sounds with its length
    /// enabled, the duration counts down, and at 0 the channel stops.
    pub open spec fn length_clocked(self) -> Tone {
        if self.enabled && self.length_enabled {
            let duration: usize = if self.duration > 0 {
                (self.duration - 1) as usize
            } else {
                0
            };
            Tone { duration, enabled: duration > 0, ..self }
        } else {
            self
        }
    }

    pub open spec fn envelope_clocked(self) -> Tone {
        Tone { volume_envelope: self.volume_envelope.stepped(), ..self }
    }

    /// The channel after a sweep clock: a frequency above 2047 stops the
    /// channel, any other is taken over.
    pub open spec fn sweep_clocked(self) -> Tone {
        if self.sweep.swept(self.frequency) > 2047 {
            if self.sweep.period > 0 {
                Tone { enabled: false, ..self }
            } else {
                self
            }
        } else {
            self.with_frequency(self.sweep.swept(self.frequency))
        }
    }

    /// The channel `ticks` cycles later: the phase steps every `period`
    /// cycles through the eight places of the pattern.
    pub open spec fn ticked(self, ticks: nat) -> Tone {
        Tone {
            counter: ((self.counter + ticks) % (self.period as int)) as usize,
            phase: ((self.phase + (self.counter + ticks) / (self.period as int)) % 8) as usize,
            ..self
        }
    }

    /// The output: the volume with the sign of the pattern, or silence.
    pub open spec fn sample(self) -> i16 {
        if self.enabled {
            (self.volume_envelope.volume * duty_level(self.duty, self.phase)) as i16
        } else {
            0
        }
    }

    pub fn new() -> (tone: Tone)
        ensures
            tone == Self::initial(),
            tone.wf(),
    {
        Tone {
            enabled: false,
            duty: 2,
            length_enabled: false,
            length: 0,
            duration: 0,
            frequency: 2048,
            counter: 0,
            phase: 0,
            period: 1,
            volume_envelope: VolumeEnvelope::new(),
            sweep: Sweep::new(),
        }
    }

    pub fn is_enabled(&self) -> (enabled: bool)
        ensures
            enabled == self.enabled,
    {
        self.enabled
    }

    /// The registers of the channel cannot be read back.
    pub fn read_byte(&self, address: u16) -> (value: u8)
        ensures
            value == 0,
    {
        0
    }

    pub fn write_byte(&mut self, address: u16, value: u8)
        requires
            old(self).wf(),
        ensures
            *final(self) == old(self).written(address, value),
            final(self).wf(),
    {
        if address == 0xFF10 {
            let mut sweep: Sweep = self.sweep;
            sweep.write_byte(value);
            *self = Tone { sweep, ..*self };
        } else if address == 0xFF11 || address == 0xFF16 {
            *self = Tone { length: 64 - (value % 64) as usize, duty: (value / 64) as usize, ..*self };
        } else if address == 0xFF12 || address == 0xFF17 {
            let mut volume_envelope: VolumeEnvelope = self.volume_envelope;
            volume_envelope.write_byte(value);
            *self = Tone { volume_envelope, ..*self };
        } else if address == 0xFF13 || address == 0xFF18 {
            let frequency: u16 = (self.frequency / 256) * 256 + value as u16;
            *self = Tone { frequency, duration: self.length, ..*self };
            self.update_period();
        } else if address == 0xFF14 || address == 0xFF19 {
            let frequency: u16 = self.frequency % 256 + ((value % 8) as u16) * 256;
            *self = Tone { frequency, length_enabled: (value / 64) % 2 == 1, ..*self };
            self.update_period();
            if value >= 0x80 {
                let mut volume_envelope: VolumeEnvelope = self.volume_envelope;
                volume_envelope.reset();
                *self = Tone { enabled: true, duration: self.length, volume_envelope, ..*self };
            }
        }
    }

    /// The length clock of the frame sequencer.
    pub fn timer_step(&mut self)
        requires
            old(self).wf(),
        ensures
            *final(self) == old(self).length_clocked(),
            final(self).wf(),
    {
        if self.enabled && self.length_enabled {
            let duration: usize = if self.duration > 0 { self.duration - 1 } else { 0 };
            *self = Tone { duration, enabled: duration > 0, ..*self };
        }
    }

    /// The envelope clock of the frame sequencer.
    pub fn envelope_step(&mut self)
        requires
            old(self).wf(),
        ensures
            *final(self) == old(self).envelope_clocked(),
            final(self).wf(),
    {
        let mut volume_envelope: VolumeEnvelope = self.volume_envelope;
        volume_envelope.step();
        *self = Tone { volume_envelope, ..*self };
    }

    /// The sweep clock of the frame sequencer.
    pub fn sweep_step(&mut self)
        requires
            old(self).wf(),
        ensures
            *final(self) == old(self).sweep_clocked(),
            final(self).wf(),
    {
        let frequency: u16 = self.sweep.get_frequency(self.frequency);
        if frequency > 2047 {
            if self.sweep.period > 0 {
                *self = Tone { enabled: false, ..*self };
            }
        } else {
            *self = Tone { frequency, ..*self };
            self.update_period();
        }
    }

    pub fn do_ticks(&mut self, ticks: usize)
        requires
            old(self).wf(),
        ensures
            *final(self) == old(self).ticked(ticks as nat),
            final(self).wf(),
    {
        let total: u128 = self.counter as u128 + ticks as u128;
        let period: u128 = self.period as u128;
        let steps: u128 = total / period;
        *self = Tone {
            counter: (total % period) as usize,
            phase: ((self.phase as u128 + steps) % 8) as usize,
            ..*self
        };
    }

    pub fn get_sample(&self) -> (sample: i16)
        requires
            self.wf(),
        ensures
            sample == self.sample(),
            -15 <= sample <= 15,
    {
        if self.enabled {
            let level: i16 = wave_pattern(self.duty, self.phase);
            if level < 0 {
                -self.volume_envelope.get_volume()
            } else {
                self.volume_envelope.get_volume()
            }
        } else {
            0
        }
    }

    fn update_period(&mut self)
        ensures
            *final(self) == old(self).with_frequency(old(self).frequency),
    {
        *self = Tone { period: Self::frequency_to_period(self.frequency), ..*self };
    }

    pub fn frequency_to_period(frequency: u16) -> (period: usize)
        ensures
            period == tone_period(frequency),
            1 <= period <= 8192,
    {
        if frequency >= 2048 {
            1
        } else {
            (2048 - frequency as usize) * 4
        }
    }
}

/// A write that sets the trigger bit makes the channel sound and loads its
/// length counter.
pub proof fn lemma_tone_trigger(tone: Tone, address: u16, value: u8)
    requires
        address == 0xFF14 || address == 0xFF19,
        value >= 0x80,
    ensures
        tone.written(address, value).enabled,
        tone.written(address, value).duration == tone.length,
        tone.written(address, value).volume_envelope.volume == tone.volume_envelope.initial_volume,
{
}

/// A channel whose length is enabled stops at the length clock that brings
/// its duration to 0, and not before.
pub proof fn lemma_tone_length(tone: Tone)
    requires
        tone.enabled,
        tone.length_enabled,
    ensures
        tone.length_clocked().enabled <==> tone.duration > 1,
        tone.length_clocked().duration == 0 ==> !tone.length_clocked().enabled,
{
}

} // verus!
