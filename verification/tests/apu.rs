use rustboy::apu::envelope::VolumeEnvelope;
use rustboy::apu::mixer::Mixer;
use rustboy::apu::noise::Noise;
use rustboy::apu::tone::{Sweep, Tone};
use rustboy::apu::wave::Wave;
use rustboy::apu::{Apu, SAMPLE_TICKS, TIMER_TICKS};
use rustboy::{AUDIO_BUFFER_SIZE, AUDIO_OUTPUT_FREQUENCY, CPU_FREQUENCY};

#[test]
fn rates() {
    assert_eq!(SAMPLE_TICKS, CPU_FREQUENCY / AUDIO_OUTPUT_FREQUENCY);
    assert_eq!(TIMER_TICKS, CPU_FREQUENCY / 512);
    assert_eq!(SAMPLE_TICKS, 87);
    assert_eq!(AUDIO_BUFFER_SIZE, 800);
}

#[test]
fn wave_period_at_the_highest_frequency() {
    assert_eq!(Wave::frequency_to_period(2047), 2);
    assert_eq!(Wave::frequency_to_period(0), 4096);
    assert_eq!(Wave::frequency_to_period(2048), 1);
    assert_eq!(Tone::frequency_to_period(2047), 4);
    assert_eq!(Tone::frequency_to_period(0), 8192);
    assert_eq!(Tone::frequency_to_period(1280), 3072);
}

#[test]
fn noise_period() {
    let mut noise = Noise::with_seed(1);
    noise.write_byte(0xFF22, 0x00);
    assert_eq!(noise.period, 8);
    assert!(!noise.short);
    noise.write_byte(0xFF22, 0x01);
    assert_eq!(noise.period, 16);
    noise.write_byte(0xFF22, 0x27);
    assert_eq!(noise.period, 112 * 4);
    noise.write_byte(0xFF22, 0xF8);
    assert_eq!(noise.period, 8 << 15);
    assert!(noise.short);
}

#[test]
fn noise_starts_from_fifteen_random_bits() {
    for _ in 0..20 {
        let noise = Noise::new();
        assert!(noise.lfsr < 0x8000);
        assert_eq!(noise, Noise::with_seed(noise.lfsr));
    }
    assert_eq!(Noise::with_seed(0xFFFF).lfsr, 0x7FFF);
    assert!(!Noise::with_seed(3).is_enabled());
    assert_eq!(Noise::with_seed(3).read_byte(0xFF22), 0);
}

#[test]
fn noise_shift_register() {
    let mut noise = Noise::with_seed(0x0001);
    noise.write_byte(0xFF22, 0x00);
    noise.do_ticks(7);
    assert_eq!(noise.lfsr, 0x0001);
    noise.do_ticks(1);
    // bits 0 and 1 differ: a 1 moves in at bit 14
    assert_eq!(noise.lfsr, 0x4000);
    noise.do_ticks(8 * 13);
    assert_eq!(noise.lfsr, 0x0002);
    noise.do_ticks(8);
    assert_eq!(noise.lfsr, 0x4001);
    noise.do_ticks(8);
    assert_eq!(noise.lfsr, 0x6000);
    let mut short = Noise::with_seed(0x0001);
    short.write_byte(0xFF22, 0x08);
    short.do_ticks(8);
    assert_eq!(short.lfsr, 0x4040);
    let mut cleared = Noise::with_seed(0x0083);
    cleared.write_byte(0xFF22, 0x08);
    cleared.do_ticks(8);
    // bits 0 and 1 agree: a 0 is written to bit 14 and to bit 6
    assert_eq!(cleared.lfsr, 0x0001);
    let mut long = Noise::with_seed(0x0083);
    long.write_byte(0xFF22, 0x00);
    long.do_ticks(8);
    assert_eq!(long.lfsr, 0x0041);
}

#[test]
fn noise_sample_follows_bit_zero() {
    let mut noise = Noise::with_seed(0x0001);
    noise.write_byte(0xFF21, 0xA0);
    assert_eq!(noise.get_sample(), 0);
    noise.write_byte(0xFF20, 0x05);
    noise.write_byte(0xFF23, 0xC0);
    assert!(noise.is_enabled());
    assert!(noise.length_enabled);
    assert_eq!(noise.duration, 5);
    assert_eq!(noise.get_sample(), -10);
    noise.write_byte(0xFF22, 0x00);
    noise.do_ticks(8);
    assert_eq!(noise.get_sample(), 10);
    for _ in 0..4 {
        noise.timer_step();
        assert!(noise.is_enabled());
    }
    noise.timer_step();
    assert!(!noise.is_enabled());
    assert_eq!(noise.get_sample(), 0);
}

#[test]
fn envelope_moves_every_period() {
    let mut envelope = VolumeEnvelope::new();
    envelope.write_byte(0x3A);
    assert_eq!(envelope.initial_volume, 3);
    assert!(envelope.increase);
    assert_eq!(envelope.period, 2);
    assert_eq!(envelope.get_volume(), 0);
    envelope.reset();
    assert_eq!(envelope.get_volume(), 3);
    envelope.step();
    assert_eq!(envelope.get_volume(), 3);
    envelope.step();
    assert_eq!(envelope.get_volume(), 4);
    for _ in 0..40 {
        envelope.step();
    }
    assert_eq!(envelope.get_volume(), 15);
    envelope.write_byte(0x21);
    for _ in 0..40 {
        envelope.step();
    }
    assert_eq!(envelope.get_volume(), 0);
    envelope.write_byte(0xF0);
    envelope.reset();
    envelope.step();
    assert_eq!(envelope.get_volume(), 15);
}

#[test]
fn mixer_formula() {
    let mut mixer = Mixer::new();
    assert_eq!(mixer.mix(15, 15, 7, -15), (0, 0));
    mixer.write_byte(0xFF24, 0xF3);
    assert_eq!(mixer.vol_left, 7);
    assert_eq!(mixer.vol_right, 3);
    assert_eq!(mixer.mix(15, 15, 7, -15), (0, 0));
    mixer.write_byte(0xFF25, 0xFF);
    assert_eq!(mixer.mix(15, 14, 7, -13), (7 * 23, 3 * 23));
    mixer.write_byte(0xFF25, 0x12);
    assert_eq!(mixer.mix(15, 14, 7, -13), (7 * 15, 3 * 14));
    mixer.write_byte(0xFF25, 0x84);
    assert_eq!(mixer.mix(15, 14, 7, -13), (7 * -13, 3 * 7));
    mixer.write_byte(0xFF26, 0xFF);
    assert_eq!(mixer.mix(1, 0, 0, 0), (0, 0));
}

#[test]
fn trigger_starts_channel_one_at_full_volume() {
    let mut tone = Tone::new();
    assert!(!tone.is_enabled());
    tone.write_byte(0xFF11, 0x80 | 0x3C);
    tone.write_byte(0xFF12, 0xF0);
    tone.write_byte(0xFF13, 0x00);
    tone.write_byte(0xFF14, 0x85);
    assert!(tone.is_enabled());
    assert_eq!(tone.frequency, 0x0500);
    assert_eq!(tone.period, (2048 - 0x0500) * 4);
    assert_eq!(tone.volume_envelope.get_volume(), 15);
    assert_eq!(tone.duty, 2);
    assert_eq!(tone.length, 4);
    assert_eq!(tone.duration, 4);
    assert!(!tone.length_enabled);
    assert_eq!(tone.get_sample(), -15);
    tone.do_ticks(4 * tone.period);
    assert_eq!(tone.get_sample(), 15);
    assert_eq!(tone.read_byte(0xFF14), 0);

    let mut apu = Apu::new();
    assert_eq!(apu.read_byte(0xFF26), 0x80);
    apu.write_byte(0xFF12, 0xF0);
    apu.write_byte(0xFF13, 0x00);
    apu.write_byte(0xFF14, 0x85);
    assert_eq!(apu.read_byte(0xFF26), 0x81);
}

#[test]
fn every_trigger_enables_its_channel_and_loads_the_length() {
    let mut second = Tone::new();
    second.write_byte(0xFF16, 0x3F);
    second.write_byte(0xFF19, 0x80);
    assert!(second.is_enabled());
    assert_eq!(second.duration, 1);
    second.write_byte(0xFF19, 0x00);
    assert!(second.is_enabled());

    let mut wave = Wave::new();
    wave.write_byte(0xFF1B, 0x20);
    wave.write_byte(0xFF1E, 0x87);
    assert!(wave.is_enabled());

    let mut noise = Noise::with_seed(1);
    noise.write_byte(0xFF20, 0x1F);
    noise.write_byte(0xFF23, 0x80);
    assert!(noise.is_enabled());
    assert_eq!(noise.duration, 0x1F);

    let mut apu = Apu::new();
    for (address, bit) in [(0xFF14u16, 0x01u8), (0xFF19, 0x02), (0xFF1E, 0x04), (0xFF23, 0x08)] {
        assert_eq!(apu.read_byte(0xFF26) & bit, 0);
        apu.write_byte(address, 0x80);
        assert_eq!(apu.read_byte(0xFF26) & bit, bit);
    }
    assert_eq!(apu.read_byte(0xFF26), 0x8F);
    apu.write_byte(0xFF26, 0x00);
    assert_eq!(apu.read_byte(0xFF26), 0x0F);
    assert_eq!(apu.read_byte(0xFF10), 0);
}

#[test]
fn length_counter_stops_the_channel() {
    let mut tone = Tone::new();
    tone.write_byte(0xFF11, 0x3D);
    tone.write_byte(0xFF14, 0xC0);
    assert_eq!(tone.duration, 3);
    tone.timer_step();
    assert!(tone.is_enabled());
    tone.timer_step();
    assert!(tone.is_enabled());
    tone.timer_step();
    assert!(!tone.is_enabled());
    assert_eq!(tone.duration, 0);
    tone.timer_step();
    assert!(!tone.is_enabled());
    let mut free = Tone::new();
    free.write_byte(0xFF11, 0x3F);
    free.write_byte(0xFF14, 0x80);
    for _ in 0..10 {
        free.timer_step();
    }
    assert!(free.is_enabled());
}

#[test]
fn sweep_moves_the_frequency_and_stops_on_overflow() {
    let mut sweep = Sweep::new();
    assert_eq!(sweep.get_frequency(1000), 1000);
    sweep.write_byte(0x12);
    assert_eq!(sweep.period, 1);
    assert_eq!(sweep.shift, 2);
    assert_eq!(sweep.get_frequency(1000), 1250);
    assert_eq!(sweep.get_frequency(1700), 2048);
    sweep.write_byte(0x1B);
    assert_eq!(sweep.get_frequency(1000), 875);
    assert_eq!(sweep.get_frequency(0), 0);

    let mut tone = Tone::new();
    tone.write_byte(0xFF10, 0x11);
    tone.write_byte(0xFF13, 0x00);
    tone.write_byte(0xFF14, 0x84);
    assert_eq!(tone.frequency, 1024);
    tone.sweep_step();
    assert_eq!(tone.frequency, 1536);
    assert_eq!(tone.period, 512 * 4);
    assert!(tone.is_enabled());
    tone.sweep_step();
    assert_eq!(tone.frequency, 1536);
    assert!(!tone.is_enabled());
}

#[test]
fn tone_phase_and_duty() {
    let mut tone = Tone::new();
    tone.write_byte(0xFF12, 0x50);
    tone.write_byte(0xFF11, 0x00);
    tone.write_byte(0xFF13, 0xFF);
    tone.write_byte(0xFF14, 0x87);
    assert_eq!(tone.period, 4);
    let mut levels = Vec::new();
    for _ in 0..8 {
        levels.push(tone.get_sample());
        tone.do_ticks(4);
    }
    assert_eq!(levels, vec![-5, 5, 5, 5, 5, 5, 5, 5]);
    assert_eq!(tone.phase, 0);
    tone.write_byte(0xFF11, 0xC0);
    tone.do_ticks(4 * 5 + 3);
    assert_eq!(tone.phase, 5);
    assert_eq!(tone.counter, 3);
    assert_eq!(tone.get_sample(), -5);
    tone.do_ticks(1);
    assert_eq!(tone.get_sample(), 5);
}

#[test]
fn wave_samples_and_volume_codes() {
    let mut wave = Wave::new();
    wave.write_byte(0xFF30, 0xF0);
    wave.write_byte(0xFF31, 0x4C);
    wave.write_byte(0xFF1D, 0xFF);
    wave.write_byte(0xFF1E, 0x87);
    assert_eq!(wave.get_sample(), 0);
    wave.write_byte(0xFF1C, 0x20);
    assert_eq!(wave.get_sample(), 7);
    wave.do_ticks(2);
    assert_eq!(wave.get_sample(), -8);
    wave.write_byte(0xFF1C, 0x40);
    assert_eq!(wave.get_sample(), -4);
    wave.write_byte(0xFF1C, 0x60);
    assert_eq!(wave.get_sample(), -2);
    wave.do_ticks(2);
    assert_eq!(wave.get_sample(), -1);
    wave.do_ticks(2);
    assert_eq!(wave.get_sample(), 1);
    wave.write_byte(0xFF1A, 0x00);
    assert!(!wave.is_enabled());
    assert_eq!(wave.get_sample(), 0);
    wave.write_byte(0xFF1A, 0x80);
    assert!(wave.is_enabled());
    wave.do_ticks(2 * 29);
    assert_eq!(wave.get_sample(), 1);
    wave.write_byte(0xFF1C, 0x20);
    assert_eq!(wave.get_sample(), 7);
    assert_eq!(wave.read_byte(0xFF30), 0);
}

#[test]
fn wave_length() {
    let mut wave = Wave::new();
    wave.write_byte(0xFF1B, 2);
    wave.write_byte(0xFF1E, 0xC0);
    wave.timer_step();
    assert!(wave.is_enabled());
    wave.timer_step();
    assert!(!wave.is_enabled());
}

#[test]
fn one_stereo_sample_every_87_cycles() {
    let mut apu = Apu::new();
    apu.write_byte(0xFF24, 0x72);
    apu.write_byte(0xFF25, 0x11);
    apu.write_byte(0xFF12, 0xF0);
    apu.write_byte(0xFF14, 0x87);
    assert!(!apu.audio_ready());
    assert!(apu.take_audio_buffer().is_none());
    apu.do_ticks(86);
    apu.do_ticks(87 * 398);
    assert!(!apu.audio_ready());
    apu.do_ticks(1);
    assert!(!apu.audio_ready());
    apu.do_ticks(87);
    assert!(apu.audio_ready());
    apu.do_ticks(87 * 3);
    let buffer = match apu.take_audio_buffer() {
        Some(buffer) => buffer,
        None => panic!("800 samples were made"),
    };
    assert_eq!(buffer.len(), 800);
    for pair in buffer.chunks(2) {
        assert!(pair[0] == 7 * 15 || pair[0] == -7 * 15);
        assert_eq!(pair[1] * 7, pair[0] * 2);
    }
    assert!(!apu.audio_ready());
    apu.do_ticks(87 * 397);
    assert!(apu.audio_ready());
    assert!(apu.take_audio_buffer().is_some());
    assert!(apu.take_audio_buffer().is_none());
}

#[test]
fn frame_sequencer_clocks_lengths_sweep_and_envelopes() {
    let mut apu = Apu::new();
    // channel 2: length 2, envelope going down from 15 every clock
    apu.write_byte(0xFF16, 0x3E);
    apu.write_byte(0xFF17, 0xF1);
    apu.write_byte(0xFF19, 0xC0);
    assert_eq!(apu.read_byte(0xFF26) & 0x02, 0x02);
    // step 1 clocks nothing, step 2 the lengths
    apu.do_ticks(8192);
    apu.do_ticks(8191);
    assert_eq!(apu.read_byte(0xFF26) & 0x02, 0x02);
    apu.do_ticks(1);
    assert_eq!(apu.read_byte(0xFF26) & 0x02, 0x02);
    // step 4 clocks the lengths again and the channel stops
    apu.do_ticks(2 * 8192);
    assert_eq!(apu.read_byte(0xFF26) & 0x02, 0x00);
}
