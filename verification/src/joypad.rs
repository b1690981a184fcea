use vstd::prelude::*;
use crate::{GBKeyCode, GBKeyEvent, GBKeyState};

verus! {

/// The joypad as contracts see it.
pub struct JoypadView {
    /// The interrupt line: raised by a fresh press, lowered by whoever
    /// collects it.
    pub irq_joypad: bool,
    /// Which of the eight buttons are down, by `GBKeyCode::spec_index`.
    pub state: Seq<bool>,
    /// The selected row: `true` for the buttons, `false` for the directions.
    pub selector: bool,
}

/// 1 for a pressed button, 0 for a released one.
pub open spec fn pressed(state: Seq<bool>, key: GBKeyCode) -> int {
    if state[key.spec_index()] {
        1
    } else {
        0
    }
}

impl JoypadView {
    pub open spec fn wf(self) -> bool {
        self.state.len() == 8
    }

    pub open spec fn initial() -> JoypadView {
        JoypadView { irq_joypad: false, state: Seq::new(8, |i: int| false), selector: false }
    }

    /// The register at 0xFF00: bits 6 and 7 read 1, the selected row has its
    /// select bit at 0, and a pressed button of that row reads 0.
    pub open spec fn read(self) -> u8 {
        if self.selector {
            (0xFF - 0x20 - pressed(self.state, GBKeyCode::A) - 2 * pressed(
                self.state,
                GBKeyCode::B,
            ) - 4 * pressed(self.state, GBKeyCode::Select) - 8 * pressed(
                self.state,
                GBKeyCode::Start,
            )) as u8
        } else {
            (0xFF - 0x10 - pressed(self.state, GBKeyCode::Right) - 2 * pressed(
                self.state,
                GBKeyCode::Left,
            ) - 4 * pressed(self.state, GBKeyCode::Up) - 8 * pressed(self.state, GBKeyCode::Down)) as u8
        }
    }

    /// A write to 0xFF00: bit 5 at 0 selects the buttons; else bit 4 at 0
    /// selects the directions; else the selection stays.
    pub open spec fn write(self, value: u8) -> JoypadView {
        if (value / 0x20) % 2 == 0 {
            JoypadView { selector: true, ..self }
        } else if (value / 0x10) % 2 == 0 {
            JoypadView { selector: false, ..self }
        } else {
            self
        }
    }

    /// A key event: the button takes the new state, and the interrupt line
    /// is raised when a released button goes down.
    pub open spec fn receive_event(self, event: GBKeyEvent) -> JoypadView {
        let i = event.key_code.spec_index();
        JoypadView {
            irq_joypad: self.irq_joypad || (!self.state[i] && event.state == GBKeyState::KeyDown),
            state: self.state.update(i, event.state == GBKeyState::KeyDown),
            selector: self.selector,
        }
    }

    /// All eight states replaced at once: the interrupt line is raised when
    /// any released button is now down.
    pub open spec fn set_state(self, new_state: Seq<bool>) -> JoypadView {
        JoypadView {
            irq_joypad: self.irq_joypad || exists|i: int|
                0 <= i < 8 && !self.state[i] && #[trigger] new_state[i],
            state: new_state,
            selector: self.selector,
        }
    }
}

pub struct Joypad {
    irq_joypad: bool,
    state: [bool; 8],
    selector: bool,
}

impl View for Joypad {
    type V = JoypadView;

    closed spec fn view(&self) -> JoypadView {
        JoypadView { irq_joypad: self.irq_joypad, state: self.state@, selector: self.selector }
    }
}

impl Joypad {
    pub fn new() -> (joypad: Joypad)
        ensures
            joypad@ == JoypadView::initial(),
            joypad@.wf(),
    {
        let joypad = Joypad { irq_joypad: false, state: [false;8], selector: false };
        assert(joypad@.state =~= JoypadView::initial().state);
        joypad
    }

    pub fn read(&self) -> (value: u8)
        ensures
            value == self@.read(),
    {
        let mut joypad: u8 = 0x00;
        if self.selector {
            joypad = joypad + 0x20;
            if self.state[GBKeyCode::A.index()] {
                joypad = joypad + 0x01;
            }
            if self.state[GBKeyCode::B.index()] {
                joypad = joypad + 0x02;
            }
            if self.state[GBKeyCode::Select.index()] {
                joypad = joypad + 0x04;
            }
            if self.state[GBKeyCode::Start.index()] {
                joypad = joypad + 0x08;
            }
        } else {
            joypad = joypad + 0x10;
            if self.state[GBKeyCode::Right.index()] {
                joypad = joypad + 0x01;
            }
            if self.state[GBKeyCode::Left.index()] {
                joypad = joypad + 0x02;
            }
            if self.state[GBKeyCode::Up.index()] {
                joypad = joypad + 0x04;
            }
            if self.state[GBKeyCode::Down.index()] {
                joypad = joypad + 0x08;
            }
        }
        0xFF - joypad
    }

    pub fn write(&mut self, value: u8)
        ensures
            final(self)@ == old(self)@.write(value),
    {
        if (value / 0x20) % 2 == 0 {
            self.selector = true;
        } else if (value / 0x10) % 2 == 0 {
            self.selector = false;
        }
    }

    pub fn receive_event(&mut self, event: GBKeyEvent)
        ensures
            final(self)@ == old(self)@.receive_event(event),
    {
        let key_index: usize = event.key_code.index();
        let down: bool = match event.state {
            GBKeyState::KeyDown => true,
            GBKeyState::KeyUp => false,
        };
        if !self.state[key_index] && down {
            self.irq_joypad = true;
        }
        self.state[key_index] = down;
    }

    pub fn set_state(&mut self, new_state: [bool; 8])
        ensures
            final(self)@ == old(self)@.set_state(new_state@),
    {
        let mut fresh: bool = false;
        for i in 0..8usize
            invariant
                fresh <==> exists|j: int| 0 <= j < i && !self.state@[j] && #[trigger] new_state@[j],
        {
            if !self.state[i] && new_state[i] {
                fresh = true;
            }
        }
        if fresh {
            self.irq_joypad = true;
        }
        self.state = new_state;
    }

    /// Reads the interrupt line and lowers it.
    pub fn take_irq(&mut self) -> (raised: bool)
        ensures
            raised == old(self)@.irq_joypad,
            final(self)@ == (JoypadView { irq_joypad: false, ..old(self)@ }),
    {
        let raised: bool = self.irq_joypad;
        self.irq_joypad = false;
        raised
    }
}

} // verus!
