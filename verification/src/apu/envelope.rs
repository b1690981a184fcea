use vstd::prelude::*;

verus! {

/// The volume envelope of a channel: a volume from 0 to 15 that moves one
/// step up or down every `period` envelope clocks.
#[derive(Debug, Copy, Clone, PartialEq, Eq, Structural)]
pub struct VolumeEnvelope {
    pub volume: i16,
    pub initial_volume: i16,
    pub counter: usize,
    pub period: usize,
    pub increase: bool,
}

impl VolumeEnvelope {
    pub open spec fn wf(self) -> bool {
        &&& 0 <= self.volume <= 15
        &&& 0 <= self.initial_volume <= 15
        &&& self.period <= 7
        &&& self.counter <= 7
    }

    pub open spec fn initial() -> VolumeEnvelope {
        VolumeEnvelope { volume: 0, initial_volume: 0, counter: 0, period: 0, increase: false }
    }

    /// The envelope after a write to its register: the high nibble is the
    /// initial volume, bit 3 the direction, the low three bits the period.
    pub open spec fn written(self, value: u8) -> VolumeEnvelope {
        VolumeEnvelope {
            initial_volume: (value / 16) as i16,
            increase: (value / 8) % 2 == 1,
            period: (value % 8) as usize,
            ..self
        }
    }

    /// The envelope after its channel was triggered.
    pub open spec fn restarted(self) -> VolumeEnvelope {
        VolumeEnvelope { counter: 0, volume: self.initial_volume, ..self }
    }

    /// The volume one step nearer to where it saturates: 15 upwards, 0
    /// downwards.
    pub open spec fn moved_volume(self) -> i16 {
        if self.increase && self.volume < 15 {
            (self.volume + 1) as i16
        } else if !self.increase && self.volume > 0 {
            (self.volume - 1) as i16
        } else {
            self.volume
        }
    }

    /// The envelope after one envelope clock: with a period of 0 nothing
    /// moves; else every `period`-th clock moves the volume.
    pub open spec fn stepped(self) -> VolumeEnvelope {
        if self.period == 0 {
            self
        } else if self.counter + 1 >= self.period {
            VolumeEnvelope { counter: 0, volume: self.moved_volume(), ..self }
        } else {
            VolumeEnvelope { counter: (self.counter + 1) as usize, ..self }
        }
    }

    pub fn new() -> (envelope: VolumeEnvelope)
        ensures
            envelope == Self::initial(),
            envelope.wf(),
    {
        VolumeEnvelope { volume: 0, initial_volume: 0, counter: 0, period: 0, increase: false }
    }

    pub fn write_byte(&mut self, value: u8)
        ensures
            *final(self) == old(self).written(value),
            old(self).wf() ==> final(self).wf(),
    {
        *self = VolumeEnvelope {
            initial_volume: (value / 16) as i16,
            increase: (value / 8) % 2 == 1,
            period: (value % 8) as usize,
            ..*self
        };
    }

    pub fn get_volume(&self) -> (volume: i16)
        ensures
            volume == self.volume,
    {
        self.volume
    }

    pub fn reset(&mut self)
        ensures
            *final(self) == old(self).restarted(),
            old(self).wf() ==> final(self).wf(),
    {
        *self = VolumeEnvelope { counter: 0, volume: self.initial_volume, ..*self };
    }

    pub fn step(&mut self)
        requires
            old(self).wf(),
        ensures
            *final(self) == old(self).stepped(),
            final(self).wf(),
    {
        if self.period > 0 {
            if self.counter + 1 >= self.period {
                let volume: i16 = if self.increase && self.volume < 15 {
                    self.volume + 1
                } else if !self.increase && self.volume > 0 {
                    self.volume - 1
                } else {
                    self.volume
                };
                *self = VolumeEnvelope { counter: 0, volume, ..*self };
            } else {
                *self = VolumeEnvelope { counter: self.counter + 1, ..*self };
            }
        }
    }
}

} // verus!
