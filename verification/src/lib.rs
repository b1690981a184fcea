use vstd::prelude::*;
use crate::cpu::Cpu;
use crate::mmu::MmuView;

pub mod apu;
pub mod bits;
pub mod cpu;
pub mod gpu;
pub mod joypad;
pub mod mbc;
pub mod mmu;
pub mod serial;
pub mod timer;

verus! {

/// Frequency of the system clock in T-cycles per second.
pub const CPU_FREQUENCY: usize = 4_194_304;

/// Width of the display in pixels.
pub const SCREEN_WIDTH: usize = 160;

/// Height of the display in pixels.
pub const SCREEN_HEIGHT: usize = 144;

/// Rate of the audio output in stereo samples per second.
pub const AUDIO_OUTPUT_FREQUENCY: usize = 48_000;

/// Number of values in one audio buffer: left and right interleaved.
pub const AUDIO_BUFFER_SIZE: usize = 800;

/// What the host sends to the machine.
#[derive(Debug, Copy, Clone, PartialEq, Eq, Structural)]
pub enum GBEvent {
    KeyEvent(GBKeyEvent),
    Quit,
}

/// The eight buttons, in the order in which the joypad keeps their states.
#[derive(Debug, Copy, Clone, PartialEq, Eq, Structural)]
pub enum GBKeyCode {
    Up,
    Down,
    Left,
    Right,
    A,
    B,
    Start,
    Select,
}

impl GBKeyCode {
    /// The position of the button in the joypad's state.
    pub open spec fn spec_index(self) -> int {
        match self {
            GBKeyCode::Up => 0,
            GBKeyCode::Down => 1,
            GBKeyCode::Left => 2,
            GBKeyCode::Right => 3,
            GBKeyCode::A => 4,
            GBKeyCode::B => 5,
            GBKeyCode::Start => 6,
            GBKeyCode::Select => 7,
        }
    }

    pub fn index(self) -> (i: usize)
        ensures
            i == self.spec_index(),
            i < 8,
    {
        match self {
            GBKeyCode::Up => 0,
            GBKeyCode::Down => 1,
            GBKeyCode::Left => 2,
            GBKeyCode::Right => 3,
            GBKeyCode::A => 4,
            GBKeyCode::B => 5,
            GBKeyCode::Start => 6,
            GBKeyCode::Select => 7,
        }
    }
}

#[derive(Debug, Copy, Clone, PartialEq, Eq, Structural)]
pub enum GBKeyState {
    KeyUp,
    KeyDown,
}

/// A button that went down or up.
#[derive(Debug, Copy, Clone, PartialEq, Eq, Structural)]
pub struct GBKeyEvent {
    pub key_code: GBKeyCode,
    pub state: GBKeyState,
}

/// What the machine does with an event of the host: a key event goes to
/// the joypad, and `Quit` ends the run. The result tells whether the
/// machine keeps running.
pub fn handle_event(cpu: &mut Cpu, event: GBEvent) -> (running: bool)
    ensures
        running == (event != GBEvent::Quit),
        match event {
            GBEvent::KeyEvent(key_event) => final(cpu)@ == old(cpu)@.with_mmu(
                MmuView {
                    joypad: old(cpu)@.mmu.joypad.receive_event(key_event),
                    ..old(cpu)@.mmu
                },
            ),
            GBEvent::Quit => final(cpu)@ == old(cpu)@,
        },
        old(cpu)@.wf() ==> final(cpu)@.wf(),
{
    match event {
        GBEvent::KeyEvent(key_event) => {
            cpu.process_input_event(key_event);
            true
        },
        GBEvent::Quit => false,
    }
}

} // verus!
