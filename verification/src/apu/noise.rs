use vstd::prelude::*;
use rand::Rng;
use crate::apu::envelope::VolumeEnvelope;

verus! {

/// The noise channel: a shift register of 15 bits with feedback, whose
/// lowest bit gives the sign of the output.
#[derive(Debug, Copy, Clone, PartialEq, Eq, Structural)]
pub struct Noise {
    pub enabled: bool,
    /// Cycles counted towards the next step of the shift register.
    pub counter: usize,
    /// Cycles per step of the shift register.
    pub period: usize,
    pub lfsr: u16,
    /// The short mode: the feedback also goes to bit 6.
    pub short: bool,
    /// The length that a trigger loads.
    pub length: u16,
    /// The length clocks left until the channel stops.
    pub duration: u16,
    pub length_enabled: bool,
    pub volume_envelope: VolumeEnvelope,
}

/// The shift register one step later: the XOR of bits 0 and 1 moves in at
/// bit 14, and in the short mode it is written to bit 6 as well.
pub open spec fn lfsr_step(lfsr: u16, short: bool) -> u16 {
    let bit: u16 = (lfsr & 1) ^ ((lfsr >> 1) & 1);
    let long: u16 = ((lfsr >> 1) & 0x3FFF) | (bit << 14);
    if short {
        (long & !0x40u16) | (bit << 6)
    } else {
        long
    }
}

/// The shift register `steps` steps later.
pub open spec fn lfsr_after(lfsr: u16, short: bool, steps: nat) -> u16
    decreases steps,
{
    if steps == 0 {
        lfsr
    } else {
        lfsr_after(lfsr_step(lfsr, short), short, (steps - 1) as nat)
    }
}

/// The divisor that the low three bits of NR43 stand for: 8 for 0, else 16
/// times the code.
pub open spec fn noise_divisor(code: u8) -> u32 {
    if code == 0 {
        8
    } else {
        (code * 16) as u32
    }
}

/// The cycles per step of the shift register that NR43 stands for: the
/// divisor shifted left by the high nibble.
pub open spec fn noise_period(value: u8) -> u32 {
    noise_divisor(value % 8) << ((value / 16) as u32)
}

/// `Rng::gen` of the rand crate on the generator of the thread: a number of
/// 16 bits, of which nothing is known.
#[verifier::external_body]
fn random_seed() -> (seed: u16) {
    rand::thread_rng().gen()
}

fn step_lfsr(lfsr: u16, short: bool) -> (next: u16)
    ensures
        next == lfsr_step(lfsr, short),
{
    let bit: u16 = (lfsr & 1) ^ ((lfsr >> 1) & 1);
    let long: u16 = ((lfsr >> 1) & 0x3FFF) | (bit << 14);
    if short {
        (long & !0x40u16) | (bit << 6)
    } else {
        long
    }
}

impl Noise {
    pub open spec fn wf(self) -> bool {
        &&& 1 <= self.period <= 0x400_0000
        &&& self.volume_envelope.wf()
    }

    /// The channel as it is when the machine starts, with the given state
    /// of the shift register.
    pub open spec fn initial(lfsr: u16) -> Noise {
        Noise {
            enabled: false,
            counter: 0,
            period: 1,
            lfsr,
            short: false,
            length: 0,
            duration: 0,
            length_enabled: false,
            volume_envelope: VolumeEnvelope::initial(),
        }
    }

    /// The channel after a write to one of the registers NR41 to NR44. A
    /// write to NR44 with bit 7 set triggers the channel: it sounds, its
    /// length counter is loaded and its envelope starts anew.
    pub open spec fn written(self, address: u16, value: u8) -> Noise {
        if address == 0xFF20 {
            Noise { length: (value % 32) as u16, ..self }
        } else if address == 0xFF21 {
            Noise { volume_envelope: self.volume_envelope.written(value), ..self }
        } else if address == 0xFF22 {
            Noise { short: (value / 8) % 2 == 1, period: noise_period(value) as usize, ..self }
        } else if address == 0xFF23 {
            let armed = Noise { length_enabled: (value / 64) % 2 == 1, ..self };
            if value >= 0x80 {
                Noise {
                    enabled: true,
                    duration: armed.length,
                    volume_envelope: armed.volume_envelope.restarted(),
                    ..armed
                }
            } else {
                armed
            }
        } else {
            self
        }
    }

    /// The channel `ticks` cycles later: the shift register steps every
    /// `period` cycles.
    pub open spec fn ticked(self, ticks: nat) -> Noise {
        Noise {
            counter: ((self.counter + ticks) % (self.period as int)) as usize,
            lfsr: lfsr_after(
                self.lfsr,
                self.short,
                ((self.counter + ticks) / (self.period as int)) as nat,
            ),
            ..self
        }
    }

    /// The channel after a length clock: while it sounds with its length
    /// enabled, the duration counts down, and at 0 the channel stops.
    pub open spec fn length_clocked(self) -> Noise {
        if self.enabled && self.length_enabled {
            let duration: u16 = if self.duration > 0 {
                (self.duration - 1) as u16
            } else {
                0
            };
            Noise { duration, enabled: duration > 0, ..self }
        } else {
            self
        }
    }

    pub open spec fn envelope_clocked(self) -> Noise {
        Noise { volume_envelope: self.volume_envelope.stepped(), ..self }
    }

    /// The output: the volume, negative while bit 0 of the shift register
    /// is set, or silence.
    pub open spec fn sample(self) -> i16 {
        if self.enabled {
            if self.lfsr & 1 == 1 {
                (-self.volume_envelope.volume) as i16
            } else {
                self.volume_envelope.volume
            }
        } else {
            0
        }
    }

    /// A channel whose shift register starts from a random state of 15
    /// bits.
    pub fn new() -> (noise: Noise)
        ensures
            noise == Self::initial(noise.lfsr),
            noise.lfsr < 0x8000,
            noise.wf(),
    {
        Self::with_seed(random_seed())
    }

    /// A channel whose shift register starts from the low 15 bits of
    /// `seed`.
    pub fn with_seed(seed: u16) -> (noise: Noise)
        ensures
            noise == Self::initial(seed % 0x8000),
            noise.wf(),
    {
        Noise {
            enabled: false,
            counter: 0,
            period: 1,
            lfsr: seed % 0x8000,
            short: false,
            length: 0,
            duration: 0,
            length_enabled: false,
            volume_envelope: VolumeEnvelope::new(),
        }
    }

    pub fn is_enabled(&self) -> (enabled: bool)
        ensures
            enabled == self.enabled,
    {
        self.enabled
    }

    /// The registers of the channel cannot be read back.
    pub fn read_byte(&self, address: u16) -> (value: u8)
        ensures
            value == 0,
    {
        0
    }

    pub fn write_byte(&mut self, address: u16, value: u8)
        requires
            old(self).wf(),
        ensures
            *final(self) == old(self).written(address, value),
            final(self).wf(),
    {
        if address == 0xFF20 {
            *self = Noise { length: (value % 32) as u16, ..*self };
        } else if address == 0xFF21 {
            let mut volume_envelope: VolumeEnvelope = self.volume_envelope;
            volume_envelope.write_byte(value);
            *self = Noise { volume_envelope, ..*self };
        } else if address == 0xFF22 {
            let code: u8 = value % 8;
            let divisor: u32 = if code == 0 { 8 } else { (code as u32) * 16 };
            let shift: u32 = (value / 16) as u32;
            assert(8 <= divisor <= 112 && shift <= 15 ==> 8 <= (divisor << shift) <= 0x400_0000)
                by (bit_vector);
            let period: u32 = divisor << shift;
            *self = Noise { short: (value / 8) % 2 == 1, period: period as usize, ..*self };
        } else if address == 0xFF23 {
            *self = Noise { length_enabled: (value / 64) % 2 == 1, ..*self };
            if value >= 0x80 {
                let mut volume_envelope: VolumeEnvelope = self.volume_envelope;
                volume_envelope.reset();
                *self = Noise { enabled: true, duration: self.length, volume_envelope, ..*self };
            }
        }
    }

    pub fn do_ticks(&mut self, ticks: usize)
        requires
            old(self).wf(),
        ensures
            *final(self) == old(self).ticked(ticks as nat),
            final(self).wf(),
    {
        let total: u128 = self.counter as u128 + ticks as u128;
        let period: u128 = self.period as u128;
        let mut steps: u128 = total / period;
        let ghost all = steps as nat;
        let ghost start = self.lfsr;
        let short: bool = self.short;
        let mut lfsr: u16 = self.lfsr;
        while steps > 0
            invariant
                lfsr_after(lfsr, short, steps as nat) == lfsr_after(start, short, all),
            decreases steps,
        {
            lfsr = step_lfsr(lfsr, short);
            steps = steps - 1;
        }
        *self = Noise { counter: (total % period) as usize, lfsr, ..*self };
    }

    pub fn get_sample(&self) -> (sample: i16)
        requires
            self.wf(),
        ensures
            sample == self.sample(),
            -15 <= sample <= 15,
    {
        if self.enabled {
            if self.lfsr & 1 == 1 {
                -self.volume_envelope.get_volume()
            } else {
                self.volume_envelope.get_volume()
            }
        } else {
            0
        }
    }

    /// The length clock of the frame sequencer.
    pub fn timer_step(&mut self)
        requires
            old(self).wf(),
        ensures
            *final(self) == old(self).length_clocked(),
            final(self).wf(),
    {
        if self.enabled && self.length_enabled {
            let duration: u16 = if self.duration > 0 { self.duration - 1 } else { 0 };
            *self = Noise { duration, enabled: duration > 0, ..*self };
        }
    }

    /// The envelope clock of the frame sequencer.
    pub fn envelope_step(&mut self)
        requires
            old(self).wf(),
        ensures
            *final(self) == old(self).envelope_clocked(),
            final(self).wf(),
    {
        let mut volume_envelope: VolumeEnvelope = self.volume_envelope;
        volume_envelope.step();
        *self = Noise { volume_envelope, ..*self };
    }
}

/// A write to NR44 that sets the trigger bit makes the channel sound and
/// loads its length counter.
pub proof fn lemma_noise_trigger(noise: Noise, value: u8)
    requires
        value >= 0x80,
    ensures
        noise.written(0xFF23, value).enabled,
        noise.written(0xFF23, value).duration == noise.length,
        noise.written(0xFF23, value).volume_envelope.volume
            == noise.volume_envelope.initial_volume,
{
}

} // verus!
