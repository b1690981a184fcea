use vstd::prelude::*;
use crate::apu::mixer::{Mixer, routed};
use crate::apu::noise::Noise;
use crate::apu::tone::Tone;
use crate::apu::wave::{Wave, WaveView};
use crate::bits::{bit_if, flag_bit};
use crate::{AUDIO_BUFFER_SIZE, AUDIO_OUTPUT_FREQUENCY, CPU_FREQUENCY};

pub mod envelope;
pub mod mixer;
pub mod noise;
pub mod tone;
pub mod wave;

verus! {

/// Cycles between two samples of the output.
pub const SAMPLE_TICKS: usize = 87;

/// Cycles between two steps of the frame sequencer, which runs at 512 Hz.
pub const TIMER_TICKS: usize = 8192;

/// The two periods are the clock rate divided by the rate of the output
/// and by the rate of the frame sequencer.
pub proof fn lemma_rates()
    ensures
        SAMPLE_TICKS == CPU_FREQUENCY / AUDIO_OUTPUT_FREQUENCY,
        TIMER_TICKS == CPU_FREQUENCY / 512,
{
}

/// The sound controller as contracts see it.
pub struct ApuView {
    /// NR52 bit 7.
    pub enabled: bool,
    /// Cycles counted towards the next sample.
    pub counter: usize,
    /// The samples made and not yet taken by the host: left and right in
    /// turn, oldest first.
    pub buffer: Seq<i16>,
    /// Cycles counted towards the next step of the frame sequencer.
    pub timer_counter: usize,
    /// The step of the frame sequencer: 0 to 7.
    pub timer_step: usize,
    pub channel_1: Tone,
    pub channel_2: Tone,
    pub channel_3: WaveView,
    pub channel_4: Noise,
    pub mixer: Mixer,
}

/// `count` times the pair of a left and a right sample.
pub open spec fn stereo(left: i16, right: i16, count: nat) -> Seq<i16>
    decreases count,
{
    if count == 0 {
        Seq::empty()
    } else {
        seq![left, right] + stereo(left, right, (count - 1) as nat)
    }
}

impl ApuView {
    pub open spec fn wf(self) -> bool {
        &&& self.counter < 87
        &&& self.timer_counter < 8192
        &&& self.timer_step <= 7
        &&& self.channel_1.wf()
        &&& self.channel_2.wf()
        &&& self.channel_3.wf()
        &&& self.channel_4.wf()
        &&& self.mixer.wf()
    }

    /// The controller as it is when the machine starts, with the given
    /// state of the shift register of the noise channel.
    pub open spec fn initial(lfsr: u16) -> ApuView {
        ApuView {
            enabled: true,
            counter: 0,
            buffer: Seq::empty(),
            timer_counter: 0,
            timer_step: 0,
            channel_1: Tone::initial(),
            channel_2: Tone::initial(),
            channel_3: WaveView::initial(),
            channel_4: Noise::initial(lfsr),
            mixer: Mixer::initial(),
        }
    }

    /// Only NR52 at 0xFF26 reads back: bit 7 tells whether the controller
    /// is on, bits 0 to 3 whether the channels 1 to 4 sound.
    pub open spec fn read_byte(self, address: u16) -> u8 {
        if address == 0xFF26 {
            (bit_if(self.enabled, 0x80) + bit_if(self.channel_4.enabled, 0x08) + bit_if(
                self.channel_3.state.enabled,
                0x04,
            ) + bit_if(self.channel_2.enabled, 0x02) + bit_if(self.channel_1.enabled, 0x01)) as u8
        } else {
            0
        }
    }

    /// A write goes to the channel, or to the mixer, that has the address.
    pub open spec fn write_byte(self, address: u16, value: u8) -> ApuView {
        if 0xFF10 <= address <= 0xFF14 {
            ApuView { channel_1: self.channel_1.written(address, value), ..self }
        } else if 0xFF16 <= address <= 0xFF19 {
            ApuView { channel_2: self.channel_2.written(address, value), ..self }
        } else if 0xFF1A <= address <= 0xFF1E {
            ApuView { channel_3: self.channel_3.written(address, value), ..self }
        } else if 0xFF20 <= address <= 0xFF23 {
            ApuView { channel_4: self.channel_4.written(address, value), ..self }
        } else if 0xFF24 <= address <= 0xFF25 {
            ApuView { mixer: self.mixer.written(address, value), ..self }
        } else if address == 0xFF26 {
            ApuView { enabled: value >= 0x80, ..self }
        } else if 0xFF30 <= address <= 0xFF3F {
            ApuView { channel_3: self.channel_3.written(address, value), ..self }
        } else {
            self
        }
    }

    /// The controller after one step of the frame sequencer: the even
    /// steps clock the lengths, steps 2 and 6 the sweep of channel 1, step
    /// 7 the envelopes.
    pub open spec fn frame_step(self) -> ApuView {
        let step: usize = ((self.timer_step + 1) % 8) as usize;
        let stepped = ApuView { timer_step: step, ..self };
        let timed = if step % 2 == 0 {
            ApuView {
                channel_1: stepped.channel_1.length_clocked(),
                channel_2: stepped.channel_2.length_clocked(),
                channel_3: stepped.channel_3.length_clocked(),
                channel_4: stepped.channel_4.length_clocked(),
                ..stepped
            }
        } else {
            stepped
        };
        let swept = if step == 2 || step == 6 {
            ApuView { channel_1: timed.channel_1.sweep_clocked(), ..timed }
        } else {
            timed
        };
        if step == 7 {
            ApuView {
                channel_1: swept.channel_1.envelope_clocked(),
                channel_2: swept.channel_2.envelope_clocked(),
                channel_4: swept.channel_4.envelope_clocked(),
                ..swept
            }
        } else {
            swept
        }
    }

    /// The controller after `steps` steps of the frame sequencer.
    pub open spec fn frame_steps(self, steps: nat) -> ApuView
        decreases steps,
    {
        if steps == 0 {
            self
        } else {
            self.frame_step().frame_steps((steps - 1) as nat)
        }
    }

    /// The frame sequencer `ticks` cycles later: it steps every 8192
    /// cycles.
    pub open spec fn timer_ticked(self, ticks: nat) -> ApuView {
        (ApuView {
            timer_counter: ((self.timer_counter + ticks) % 8192) as usize,
            ..self
        }).frame_steps(((self.timer_counter + ticks) / 8192) as nat)
    }

    /// The four channels `ticks` cycles later.
    pub open spec fn channels_ticked(self, ticks: nat) -> ApuView {
        ApuView {
            channel_1: self.channel_1.ticked(ticks),
            channel_2: self.channel_2.ticked(ticks),
            channel_3: self.channel_3.ticked(ticks),
            channel_4: self.channel_4.ticked(ticks),
            ..self
        }
    }

    /// The left output for the present state of the channels.
    pub open spec fn left(self) -> i16 {
        self.mixer.left(
            self.channel_1.sample(),
            self.channel_2.sample(),
            self.channel_3.sample(),
            self.channel_4.sample(),
        ) as i16
    }

    /// The right output for the present state of the channels.
    pub open spec fn right(self) -> i16 {
        self.mixer.right(
            self.channel_1.sample(),
            self.channel_2.sample(),
            self.channel_3.sample(),
            self.channel_4.sample(),
        ) as i16
    }

    /// The output `ticks` cycles later: every 87 cycles one stereo sample
    /// of the present state of the channels joins the buffer.
    pub open spec fn sampled(self, ticks: nat) -> ApuView {
        ApuView {
            counter: ((self.counter + ticks) % 87) as usize,
            buffer: self.buffer + stereo(
                self.left(),
                self.right(),
                ((self.counter + ticks) / 87) as nat,
            ),
            ..self
        }
    }

    /// The controller `ticks` cycles later: the frame sequencer runs, then
    /// the channels, then the output is sampled.
    pub open spec fn do_ticks(self, ticks: nat) -> ApuView {
        self.timer_ticked(ticks).channels_ticked(ticks).sampled(ticks)
    }

    /// Whether a whole audio buffer is ready for the host.
    pub open spec fn audio_ready(self) -> bool {
        self.buffer.len() >= 800
    }
}

/// The sound controller: four channels, the frame sequencer that clocks
/// them, the mixer, and the samples made for the host.
pub struct Apu {
    enabled: bool,
    counter: usize,
    buffer: Vec<i16>,
    timer_counter: usize,
    timer_step: usize,
    channel_1: Tone,
    channel_2: Tone,
    channel_3: Wave,
    channel_4: Noise,
    mixer: Mixer,
}

impl View for Apu {
    type V = ApuView;

    closed spec fn view(&self) -> ApuView {
        ApuView {
            enabled: self.enabled,
            counter: self.counter,
            buffer: self.buffer@,
            timer_counter: self.timer_counter,
            timer_step: self.timer_step,
            channel_1: self.channel_1,
            channel_2: self.channel_2,
            channel_3: self.channel_3@,
            channel_4: self.channel_4,
            mixer: self.mixer,
        }
    }
}

impl Apu {
    /// A controller whose noise channel starts from a random state.
    pub fn new() -> (apu: Apu)
        ensures
            apu@ == ApuView::initial(apu@.channel_4.lfsr),
            apu@.wf(),
    {
        Self::with_noise(Noise::new())
    }

    /// A controller with the given noise channel.
    pub fn with_noise(noise: Noise) -> (apu: Apu)
        requires
            noise.wf(),
        ensures
            apu@ == (ApuView { channel_4: noise, ..ApuView::initial(0) }),
            apu@.wf(),
    {
        Apu {
            enabled: true,
            counter: 0,
            buffer: Vec::new(),
            timer_counter: 0,
            timer_step: 0,
            channel_1: Tone::new(),
            channel_2: Tone::new(),
            channel_3: Wave::new(),
            channel_4: noise,
            mixer: Mixer::new(),
        }
    }

    pub fn read_byte(&self, address: u16) -> (value: u8)
        ensures
            value == self@.read_byte(address),
    {
        if address == 0xFF26 {
            flag_bit(self.enabled, 0x80) + flag_bit(self.channel_4.is_enabled(), 0x08) + flag_bit(
                self.channel_3.is_enabled(),
                0x04,
            ) + flag_bit(self.channel_2.is_enabled(), 0x02) + flag_bit(
                self.channel_1.is_enabled(),
                0x01,
            )
        } else {
            0
        }
    }

    pub fn write_byte(&mut self, address: u16, value: u8)
        requires
            old(self)@.wf(),
        ensures
            final(self)@ == old(self)@.write_byte(address, value),
            final(self)@.wf(),
    {
        if 0xFF10 <= address && address <= 0xFF14 {
            self.channel_1.write_byte(address, value);
        } else if 0xFF16 <= address && address <= 0xFF19 {
            self.channel_2.write_byte(address, value);
        } else if 0xFF1A <= address && address <= 0xFF1E {
            self.channel_3.write_byte(address, value);
        } else if 0xFF20 <= address && address <= 0xFF23 {
            self.channel_4.write_byte(address, value);
        } else if 0xFF24 <= address && address <= 0xFF25 {
            self.mixer.write_byte(address, value);
        } else if address == 0xFF26 {
            self.set_enabled(value >= 0x80);
        } else if 0xFF30 <= address && address <= 0xFF3F {
            self.channel_3.write_byte(address, value);
        }
    }

    fn set_enabled(&mut self, play: bool)
        ensures
            final(self)@ == (ApuView { enabled: play, ..old(self)@ }),
    {
        self.enabled = play;
    }

    /// Advances the controller by `ticks` cycles.
    pub fn do_ticks(&mut self, ticks: usize)
        requires
            old(self)@.wf(),
        ensures
            final(self)@ == old(self)@.do_ticks(ticks as nat),
            final(self)@.wf(),
    {
        self.do_timer(ticks);
        self.channel_1.do_ticks(ticks);
        self.channel_2.do_ticks(ticks);
        self.channel_3.do_ticks(ticks);
        self.channel_4.do_ticks(ticks);
        assert(self@ == old(self)@.timer_ticked(ticks as nat).channels_ticked(ticks as nat));
        self.emit_samples(ticks);
    }

    fn emit_samples(&mut self, ticks: usize)
        requires
            old(self)@.wf(),
        ensures
            final(self)@ == old(self)@.sampled(ticks as nat),
            final(self)@.wf(),
    {
        let total: u128 = self.counter as u128 + ticks as u128;
        let mut samples: u128 = total / 87;
        let ch1: i16 = self.channel_1.get_sample();
        let ch2: i16 = self.channel_2.get_sample();
        let ch3: i16 = self.channel_3.get_sample();
        let ch4: i16 = self.channel_4.get_sample();
        assert(-420 <= self.mixer.left(ch1, ch2, ch3, ch4) <= 420) by (nonlinear_arith)
            requires
                0 <= self.mixer.vol_left <= 7,
                -60 <= routed(self.mixer.ch1_l, ch1) + routed(self.mixer.ch2_l, ch2) + routed(
                    self.mixer.ch3_l,
                    ch3,
                ) + routed(self.mixer.ch4_l, ch4) <= 60,
                self.mixer.left(ch1, ch2, ch3, ch4) == self.mixer.vol_left * (routed(
                    self.mixer.ch1_l,
                    ch1,
                ) + routed(self.mixer.ch2_l, ch2) + routed(self.mixer.ch3_l, ch3) + routed(
                    self.mixer.ch4_l,
                    ch4,
                )),
        ;
        assert(-420 <= self.mixer.right(ch1, ch2, ch3, ch4) <= 420) by (nonlinear_arith)
            requires
                0 <= self.mixer.vol_right <= 7,
                -60 <= routed(self.mixer.ch1_r, ch1) + routed(self.mixer.ch2_r, ch2) + routed(
                    self.mixer.ch3_r,
                    ch3,
                ) + routed(self.mixer.ch4_r, ch4) <= 60,
                self.mixer.right(ch1, ch2, ch3, ch4) == self.mixer.vol_right * (routed(
                    self.mixer.ch1_r,
                    ch1,
                ) + routed(self.mixer.ch2_r, ch2) + routed(self.mixer.ch3_r, ch3) + routed(
                    self.mixer.ch4_r,
                    ch4,
                )),
        ;
        let (left, right) = self.mixer.mix(ch1, ch2, ch3, ch4);
        let ghost start = self@;
        let ghost all = samples as nat;
        self.counter = (total % 87) as usize;
        while samples > 0
            invariant
                self@ == (ApuView { buffer: self@.buffer, ..start.sampled(ticks as nat) }),
                self@.buffer + stereo(left, right, samples as nat) == start.buffer + stereo(
                    left,
                    right,
                    all,
                ),
            decreases samples,
        {
            let ghost before = self@.buffer;
            self.buffer.push(left);
            self.buffer.push(right);
            assert(self@.buffer + stereo(left, right, (samples - 1) as nat) =~= before + stereo(
                left,
                right,
                samples as nat,
            ));
            samples = samples - 1;
        }
        assert(self@.buffer + stereo(left, right, 0) =~= self@.buffer);
    }

    fn do_timer(&mut self, ticks: usize)
        requires
            old(self)@.wf(),
        ensures
            final(self)@ == old(self)@.timer_ticked(ticks as nat),
            final(self)@.wf(),
    {
        let total: u128 = self.timer_counter as u128 + ticks as u128;
        let mut steps: u128 = total / 8192;
        self.timer_counter = (total % 8192) as usize;
        let ghost all = steps as nat;
        let ghost start = self@;
        while steps > 0
            invariant
                self@.wf(),
                self@.frame_steps(steps as nat) == start.frame_steps(all),
            decreases steps,
        {
            self.frame_step();
            steps = steps - 1;
        }
    }

    fn frame_step(&mut self)
        requires
            old(self)@.wf(),
        ensures
            final(self)@ == old(self)@.frame_step(),
            final(self)@.wf(),
    {
        self.timer_step = (self.timer_step + 1) % 8;
        if self.timer_step % 2 == 0 {
            self.channel_1.timer_step();
            self.channel_2.timer_step();
            self.channel_3.timer_step();
            self.channel_4.timer_step();
        }
        if self.timer_step == 2 || self.timer_step == 6 {
            self.channel_1.sweep_step();
        }
        if self.timer_step == 7 {
            self.channel_1.envelope_step();
            self.channel_2.envelope_step();
            self.channel_4.envelope_step();
        }
    }

    /// Whether a whole audio buffer is ready for the host.
    pub fn audio_ready(&self) -> (ready: bool)
        ensures
            ready == self@.audio_ready(),
    {
        self.buffer.len() >= AUDIO_BUFFER_SIZE
    }

    /// Hands the oldest 800 samples to the host, once that many were made.
    pub fn take_audio_buffer(&mut self) -> (samples: Option<Vec<i16>>)
        ensures
            match samples {
                Some(taken) => old(self)@.audio_ready() && taken@ == old(self)@.buffer.subrange(
                    0,
                    800,
                ) && final(self)@ == (ApuView {
                    buffer: old(self)@.buffer.subrange(800, old(self)@.buffer.len() as int),
                    ..old(self)@
                }),
                None => !old(self)@.audio_ready() && final(self)@ == old(self)@,
            },
    {
        if self.buffer.len() < AUDIO_BUFFER_SIZE {
            return None;
        }
        let mut taken: Vec<i16> = Vec::new();
        let mut rest: Vec<i16> = Vec::new();
        let mut i: usize = 0;
        while i < self.buffer.len()
            invariant
                i <= self.buffer.len(),
                self.buffer.len() >= 800,
                self@ == old(self)@,
                i <= 800 ==> taken@ == self.buffer@.subrange(0, i as int) && rest@.len() == 0,
                i > 800 ==> taken@ == self.buffer@.subrange(0, 800) && rest@
                    == self.buffer@.subrange(800, i as int),
            decreases self.buffer.len() - i,
        {
            if i < AUDIO_BUFFER_SIZE {
                taken.push(self.buffer[i]);
                assert(taken@ =~= self.buffer@.subrange(0, i + 1));
            } else {
                rest.push(self.buffer[i]);
                assert(rest@ =~= self.buffer@.subrange(800, i + 1));
            }
            i = i + 1;
        }
        assert(rest@ =~= self.buffer@.subrange(800, self.buffer@.len() as int));
        self.buffer = rest;
        Some(taken)
    }
}

/// A write that sets the trigger bit of a channel makes the channel sound,
/// so that its bit in NR52 reads 1.
pub proof fn lemma_trigger_enables(apu: ApuView, address: u16, value: u8)
    requires
        address == 0xFF14 || address == 0xFF19 || address == 0xFF1E || address == 0xFF23,
        value >= 0x80,
    ensures
        address == 0xFF14 ==> apu.write_byte(address, value).channel_1.enabled
            && apu.write_byte(address, value).channel_1.duration == apu.channel_1.length
            && apu.write_byte(address, value).read_byte(0xFF26) % 2 == 1,
        address == 0xFF19 ==> apu.write_byte(address, value).channel_2.enabled
            && apu.write_byte(address, value).channel_2.duration == apu.channel_2.length
            && (apu.write_byte(address, value).read_byte(0xFF26) / 2) % 2 == 1,
        address == 0xFF1E ==> apu.write_byte(address, value).channel_3.state.enabled
            && apu.write_byte(address, value).channel_3.state.duration
            == apu.channel_3.state.length && (apu.write_byte(address, value).read_byte(0xFF26) / 4)
            % 2 == 1,
        address == 0xFF23 ==> apu.write_byte(address, value).channel_4.enabled
            && apu.write_byte(address, value).channel_4.duration == apu.channel_4.length
            && (apu.write_byte(address, value).read_byte(0xFF26) / 8) % 2 == 1,
{
}

} // verus!
