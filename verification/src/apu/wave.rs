use vstd::prelude::*;

verus! {

/// The registers and counters of the wave channel.
#[derive(Debug, Copy, Clone, PartialEq, Eq, Structural)]
pub struct WaveState {
    pub enabled: bool,
    /// The length that a trigger loads.
    pub length: usize,
    /// The length clocks left until the channel stops.
    pub duration: usize,
    /// The volume code: 0 mutes, 1 to 3 shift the sample right by 0 to 2.
    pub volume: usize,
    /// The 11 bits of the frequency registers, under a twelfth bit that is
    /// set until the high byte is first written.
    pub frequency: u16,
    /// Cycles counted towards the next step of the cursor.
    pub counter: usize,
    /// Cycles per step of the cursor.
    pub period: usize,
    pub length_enabled: bool,
    /// The position in the sample table: 0 to 31.
    pub cursor: usize,
}

/// The wave channel as contracts see it.
pub struct WaveView {
    /// The 32 samples of the table, each from -8 to 7.
    pub pattern: Seq<i16>,
    pub state: WaveState,
}

/// The cycles per step of the cursor for a frequency: (2048 - f) * 2.
pub open spec fn wave_period(frequency: u16) -> usize {
    if frequency >= 2048 {
        1
    } else {
        ((2048 - frequency) * 2) as usize
    }
}

/// A sample at a volume code from 1 to 3.
pub open spec fn scaled(sample: i16, volume: usize) -> i16 {
    if volume == 1 {
        sample
    } else if volume == 2 {
        sample >> 1u32
    } else {
        sample >> 2u32
    }
}

impl WaveState {
    pub open spec fn wf(self) -> bool {
        &&& self.volume <= 3
        &&& self.cursor <= 31
        &&& 1 <= self.period <= 4096
        &&& self.frequency < 0x1000
    }

    pub open spec fn initial() -> WaveState {
        WaveState {
            enabled: false,
            length: 0,
            duration: 0,
            volume: 0,
            frequency: 2048,
            counter: 0,
            period: 1,
            length_enabled: false,
            cursor: 0,
        }
    }

    /// The state with another frequency and the period that belongs to it.
    pub open spec fn with_frequency(self, frequency: u16) -> WaveState {
        WaveState { frequency, period: wave_period(frequency), ..self }
    }

    /// The state after a write to one of the registers NR30 to NR34. A
    /// write to NR34 with bit 7 set triggers the channel: it sounds and its
    /// length counter is loaded.
    pub open spec fn written(self, address: u16, value: u8) -> WaveState {
        if address == 0xFF1A {
            WaveState { enabled: value >= 0x80, ..self }
        } else if address == 0xFF1B {
            WaveState { length: value as usize, ..self }
        } else if address == 0xFF1C {
            WaveState { volume: ((value / 32) % 4) as usize, ..self }
        } else if address == 0xFF1D {
            WaveState {
                duration: self.length,
                ..self.with_frequency(((self.frequency / 256) * 256 + value) as u16)
            }
        } else if address == 0xFF1E {
            let tuned = WaveState {
                length_enabled: (value / 64) % 2 == 1,
                ..self.with_frequency((self.frequency % 256 + (value % 8) * 256) as u16)
            };
            if value >= 0x80 {
                WaveState { enabled: true, duration: tuned.length, ..tuned }
            } else {
                tuned
            }
        } else {
            self
        }
    }

    /// The state after a length clock: while the channel sounds with its
    /// length enabled, the duration counts down, and at 0 the channel stops.
    pub open spec fn length_clocked(self) -> WaveState {
        if self.enabled && self.length_enabled {
            let duration: usize = if self.duration > 0 {
                (self.duration - 1) as usize
            } else {
                0
            };
            WaveState { duration, enabled: duration > 0, ..self }
        } else {
            self
        }
    }

    /// The state `ticks` cycles later: the cursor steps every `period`
    /// cycles through the 32 samples.
    pub open spec fn ticked(self, ticks: nat) -> WaveState {
        WaveState {
            counter: ((self.counter + ticks) % (self.period as int)) as usize,
            cursor: ((self.cursor + (self.counter + ticks) / (self.period as int)) % 32) as usize,
            ..self
        }
    }

    /// The state after a write, but for the period, which is left as it
    /// was.
    pub open spec fn written_registers(self, address: u16, value: u8) -> WaveState {
        WaveState { period: self.period, ..self.written(address, value) }
    }

    fn write(self, address: u16, value: u8) -> (state: WaveState)
        ensures
            state == self.written_registers(address, value),
    {
        if address == 0xFF1A {
            WaveState { enabled: value >= 0x80, ..self }
        } else if address == 0xFF1B {
            WaveState { length: value as usize, ..self }
        } else if address == 0xFF1C {
            WaveState { volume: ((value / 32) % 4) as usize, ..self }
        } else if address == 0xFF1D {
            WaveState {
                frequency: (self.frequency / 256) * 256 + value as u16,
                duration: self.length,
                ..self
            }
        } else if address == 0xFF1E {
            let tuned = WaveState {
                frequency: self.frequency % 256 + ((value % 8) as u16) * 256,
                length_enabled: (value / 64) % 2 == 1,
                ..self
            };
            if value >= 0x80 {
                WaveState { enabled: true, duration: tuned.length, ..tuned }
            } else {
                tuned
            }
        } else {
            self
        }
    }
}

impl WaveView {
    pub open spec fn wf(self) -> bool {
        &&& self.state.wf()
        &&& self.pattern.len() == 32
        &&& forall|i: int| 0 <= i < 32 ==> -8 <= #[trigger] self.pattern[i] <= 7
    }

    pub open spec fn initial() -> WaveView {
        WaveView { pattern: Seq::new(32, |i: int| 0i16), state: WaveState::initial() }
    }

    /// The channel after a write: the bytes from 0xFF30 to 0xFF3F hold two
    /// samples each, the first in the high nibble, and a nibble n stands
    /// for the sample n - 8.
    pub open spec fn written(self, address: u16, value: u8) -> WaveView {
        if 0xFF30 <= address <= 0xFF3F {
            WaveView {
                pattern: self.pattern.update((address - 0xFF30) * 2, (value / 16 - 8) as i16).update(
                    (address - 0xFF30) * 2 + 1,
                    (value % 16 - 8) as i16,
                ),
                ..self
            }
        } else {
            WaveView { state: self.state.written(address, value), ..self }
        }
    }

    pub open spec fn length_clocked(self) -> WaveView {
        WaveView { state: self.state.length_clocked(), ..self }
    }

    pub open spec fn ticked(self, ticks: nat) -> WaveView {
        WaveView { state: self.state.ticked(ticks), ..self }
    }

    /// The output: the sample under the cursor at the volume of the
    /// channel, or silence.
    pub open spec fn sample(self) -> i16 {
        if self.state.enabled && self.state.volume > 0 {
            scaled(self.pattern[self.state.cursor as int], self.state.volume)
        } else {
            0
        }
    }
}

/// The wave channel: it plays a table of 32 samples of four bits.
pub struct Wave {
    state: WaveState,
    wave_pattern: [i16; 32],
}

impl View for Wave {
    type V = WaveView;

    closed spec fn view(&self) -> WaveView {
        WaveView { pattern: self.wave_pattern@, state: self.state }
    }
}

impl Wave {
    pub fn new() -> (wave: Wave)
        ensures
            wave@ == WaveView::initial(),
            wave@.wf(),
    {
        let wave = Wave {
            state: WaveState {
                enabled: false,
                length: 0,
                duration: 0,
                volume: 0,
                frequency: 2048,
                counter: 0,
                period: 1,
                length_enabled: false,
                cursor: 0,
            },
            wave_pattern: [0;32],
        };
        assert(wave@.pattern =~= WaveView::initial().pattern);
        wave
    }

    pub fn is_enabled(&self) -> (enabled: bool)
        ensures
            enabled == self@.state.enabled,
    {
        self.state.enabled
    }

    /// The registers of the channel cannot be read back.
    pub fn read_byte(&self, address: u16) -> (value: u8)
        ensures
            value == 0,
    {
        0
    }

    pub fn write_byte(&mut self, address: u16, value: u8)
        requires
            old(self)@.wf(),
        ensures
            final(self)@ == old(self)@.written(address, value),
            final(self)@.wf(),
    {
        if 0xFF30 <= address && address <= 0xFF3F {
            let offset: usize = (address - 0xFF30) as usize;
            self.wave_pattern[offset * 2] = (value / 16) as i16 - 8;
            self.wave_pattern[offset * 2 + 1] = (value % 16) as i16 - 8;
        } else {
            self.state = self.state.write(address, value);
            if address == 0xFF1D || address == 0xFF1E {
                self.update_period();
            }
        }
    }

    pub fn do_ticks(&mut self, ticks: usize)
        requires
            old(self)@.wf(),
        ensures
            final(self)@ == old(self)@.ticked(ticks as nat),
            final(self)@.wf(),
    {
        let total: u128 = self.state.counter as u128 + ticks as u128;
        let period: u128 = self.state.period as u128;
        let steps: u128 = total / period;
        self.state = WaveState {
            counter: (total % period) as usize,
            cursor: ((self.state.cursor as u128 + steps) % 32) as usize,
            ..self.state
        };
    }

    /// The length clock of the frame sequencer.
    pub fn timer_step(&mut self)
        requires
            old(self)@.wf(),
        ensures
            final(self)@ == old(self)@.length_clocked(),
            final(self)@.wf(),
    {
        if self.state.enabled && self.state.length_enabled {
            let duration: usize = if self.state.duration > 0 { self.state.duration - 1 } else { 0 };
            self.state = WaveState { duration, enabled: duration > 0, ..self.state };
        }
    }

    pub fn get_sample(&self) -> (sample: i16)
        requires
            self@.wf(),
        ensures
            sample == self@.sample(),
            -8 <= sample <= 7,
    {
        if self.state.enabled && self.state.volume > 0 {
            let raw: i16 = self.wave_pattern[self.state.cursor];
            assert(-8 <= raw <= 7 ==> -8 <= (raw >> 1u32) <= 7 && -8 <= (raw >> 2u32) <= 7)
                by (bit_vector);
            if self.state.volume == 1 {
                raw
            } else if self.state.volume == 2 {
                raw >> 1u32
            } else {
                raw >> 2u32
            }
        } else {
            0
        }
    }

    fn update_period(&mut self)
        ensures
            final(self)@ == (WaveView {
                state: old(self)@.state.with_frequency(old(self)@.state.frequency),
                ..old(self)@
            }),
    {
        self.state = WaveState {
            period: Self::frequency_to_period(self.state.frequency),
            ..self.state
        };
    }

    pub fn frequency_to_period(frequency: u16) -> (period: usize)
        ensures
            period == wave_period(frequency),
            1 <= period <= 4096,
    {
        if frequency >= 2048 {
            1
        } else {
            (2048 - frequency as usize) * 2
        }
    }
}

/// A write to NR34 that sets the trigger bit makes the channel sound and
/// loads its length counter.
pub proof fn lemma_wave_trigger(wave: WaveView, value: u8)
    requires
        value >= 0x80,
    ensures
        wave.written(0xFF1E, value).state.enabled,
        wave.written(0xFF1E, value).state.duration == wave.state.length,
{
}

} // verus!
