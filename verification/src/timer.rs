use vstd::prelude::*;

verus! {

/// The divider and timer as contracts see them.
pub struct TimerView {
    /// The interrupt line: raised when TIMA overflows.
    pub irq_timer: bool,
    /// DIV, the register at 0xFF04.
    pub divide: u8,
    /// Cycles counted towards the next step of DIV.
    pub divide_ticks: nat,
    /// TIMA, the register at 0xFF05.
    pub counter: u8,
    /// Cycles counted towards the next step of TIMA.
    pub counter_ticks: nat,
    /// TMA, the register at 0xFF06: the value TIMA restarts from.
    pub modulo: u8,
    /// Bit 2 of TAC.
    pub enabled: bool,
    /// The number of cycles per step of TIMA that TAC selects.
    pub period: nat,
}

/// The cycles per step of TIMA for each value of the two low bits of TAC.
pub open spec fn period_of(code: int) -> nat {
    if code == 0 {
        1024
    } else if code == 1 {
        16
    } else if code == 2 {
        64
    } else {
        256
    }
}

/// The two low bits of TAC for a number of cycles per step.
pub open spec fn code_of(period: nat) -> int {
    if period == 1024 {
        0
    } else if period == 16 {
        1
    } else if period == 64 {
        2
    } else {
        3
    }
}

/// TIMA after one step: 0xFF overflows to the modulo.
pub open spec fn counter_step(counter: u8, modulo: u8) -> u8 {
    if counter == 0xFF {
        modulo
    } else {
        (counter + 1) as u8
    }
}

/// TIMA after `steps` steps.
pub open spec fn counter_after(counter: u8, modulo: u8, steps: nat) -> u8
    decreases steps,
{
    if steps == 0 {
        counter
    } else {
        counter_after(counter_step(counter, modulo), modulo, (steps - 1) as nat)
    }
}

/// Whether TIMA overflows within `steps` steps.
pub open spec fn counter_overflows(counter: u8, modulo: u8, steps: nat) -> bool
    decreases steps,
{
    if steps == 0 {
        false
    } else {
        counter == 0xFF || counter_overflows(counter_step(counter, modulo), modulo, (steps - 1) as nat)
    }
}

impl TimerView {
    pub open spec fn wf(self) -> bool {
        self.period == 1024 || self.period == 16 || self.period == 64 || self.period == 256
    }

    pub open spec fn initial() -> TimerView {
        TimerView {
            irq_timer: false,
            divide: 0,
            divide_ticks: 0,
            counter: 0,
            counter_ticks: 0,
            modulo: 0,
            enabled: false,
            period: 1024,
        }
    }

    pub open spec fn read_byte(self, address: u16) -> u8 {
        if address == 0xFF04 {
            self.divide
        } else if address == 0xFF05 {
            self.counter
        } else if address == 0xFF06 {
            self.modulo
        } else if address == 0xFF07 {
            ((if self.enabled {
                4int
            } else {
                0
            }) + code_of(self.period)) as u8
        } else {
            0
        }
    }

    /// Any write to DIV restarts the divider from 0.
    pub open spec fn write_byte(self, address: u16, value: u8) -> TimerView {
        if address == 0xFF04 {
            TimerView { divide: 0, divide_ticks: 0, ..self }
        } else if address == 0xFF05 {
            TimerView { counter: value, ..self }
        } else if address == 0xFF06 {
            TimerView { modulo: value, ..self }
        } else if address == 0xFF07 {
            TimerView { enabled: (value / 4) % 2 == 1, period: period_of((value % 4) as int), ..self }
        } else {
            self
        }
    }

    /// The divider part after `ticks` cycles: DIV steps every 256 cycles.
    pub open spec fn divider_ticks(self, ticks: nat) -> TimerView {
        TimerView {
            divide: ((self.divide + (self.divide_ticks + ticks) / 256) % 256) as u8,
            divide_ticks: (self.divide_ticks + ticks) % 256,
            ..self
        }
    }

    /// The timer part after `ticks` cycles: while enabled, TIMA steps every
    /// `period` cycles, and an overflow raises the interrupt line.
    pub open spec fn counter_ticks(self, ticks: nat) -> TimerView {
        if self.enabled {
            let total = self.counter_ticks + ticks;
            let steps = total / self.period;
            TimerView {
                counter: counter_after(self.counter, self.modulo, steps),
                counter_ticks: total % self.period,
                irq_timer: self.irq_timer || counter_overflows(self.counter, self.modulo, steps),
                ..self
            }
        } else {
            self
        }
    }

    pub open spec fn do_ticks(self, ticks: nat) -> TimerView {
        self.divider_ticks(ticks).counter_ticks(ticks)
    }
}

pub struct Timer {
    irq_timer: bool,
    divide: u8,
    divide_ticks: usize,
    timer_counter: u8,
    timer_ticks: usize,
    timer_modulo: u8,
    timer_enabled: bool,
    timer_steps: usize,
}

impl View for Timer {
    type V = TimerView;

    closed spec fn view(&self) -> TimerView {
        TimerView {
            irq_timer: self.irq_timer,
            divide: self.divide,
            divide_ticks: self.divide_ticks as nat,
            counter: self.timer_counter,
            counter_ticks: self.timer_ticks as nat,
            modulo: self.timer_modulo,
            enabled: self.timer_enabled,
            period: self.timer_steps as nat,
        }
    }
}

impl Timer {
    #[verifier::type_invariant]
    spec fn inv(self) -> bool {
        self.timer_steps == 1024 || self.timer_steps == 16 || self.timer_steps == 64
            || self.timer_steps == 256
    }

    pub fn new() -> (timer: Timer)
        ensures
            timer@ == TimerView::initial(),
            timer@.wf(),
    {
        Timer {
            irq_timer: false,
            divide: 0,
            divide_ticks: 0,
            timer_counter: 0,
            timer_ticks: 0,
            timer_modulo: 0,
            timer_enabled: false,
            timer_steps: 1024,
        }
    }

    pub fn read_byte(&self, address: u16) -> (value: u8)
        ensures
            value == self@.read_byte(address),
    {
        match address {
            0xFF04 => self.divide,
            0xFF05 => self.timer_counter,
            0xFF06 => self.timer_modulo,
            0xFF07 => {
                let enabled: u8 = if self.timer_enabled { 0x04 } else { 0x00 };
                let code: u8 = if self.timer_steps == 1024 {
                    0x00
                } else if self.timer_steps == 16 {
                    0x01
                } else if self.timer_steps == 64 {
                    0x02
                } else {
                    0x03
                };
                enabled + code
            },
            _ => 0x00,
        }
    }

    pub fn write_byte(&mut self, address: u16, value: u8)
        ensures
            final(self)@ == old(self)@.write_byte(address, value),
            final(self)@.wf(),
    {
        proof {
            use_type_invariant(&*self);
        }
        match address {
            0xFF04 => {
                self.divide = 0x00;
                self.divide_ticks = 0;
            },
            0xFF05 => self.timer_counter = value,
            0xFF06 => self.timer_modulo = value,
            0xFF07 => {
                self.timer_enabled = (value / 4) % 2 == 1;
                let code: u8 = value % 4;
                self.timer_steps = if code == 0 {
                    1024
                } else if code == 1 {
                    16
                } else if code == 2 {
                    64
                } else {
                    256
                };
            },
            _ => {},
        }
    }

    pub fn do_ticks(&mut self, ticks: usize)
        ensures
            final(self)@ == old(self)@.do_ticks(ticks as nat),
            final(self)@.wf(),
    {
        proof {
            use_type_invariant(&*self);
        }
        let divide_total: u128 = self.divide_ticks as u128 + ticks as u128;
        self.divide = ((self.divide as u128 + divide_total / 256) % 256) as u8;
        self.divide_ticks = (divide_total % 256) as usize;

        if self.timer_enabled {
            let period: u128 = self.timer_steps as u128;
            let total: u128 = self.timer_ticks as u128 + ticks as u128;
            let mut steps: u128 = total / period;
            let ghost start = self.timer_counter;
            let ghost raised = self.irq_timer;
            let ghost all = steps as nat;
            let modulo: u8 = self.timer_modulo;
            let mut counter: u8 = self.timer_counter;
            let mut overflow: bool = false;
            while steps > 0
                invariant
                    counter_after(counter, modulo, steps as nat) == counter_after(start, modulo, all),
                    counter_overflows(start, modulo, all) == (overflow || counter_overflows(
                        counter,
                        modulo,
                        steps as nat,
                    )),
                decreases steps,
            {
                if counter == 0xFF {
                    overflow = true;
                    counter = modulo;
                } else {
                    counter = counter + 1;
                }
                steps = steps - 1;
            }
            self.timer_counter = counter;
            if overflow {
                self.irq_timer = true;
            }
            self.timer_ticks = (total % period) as usize;
        }
    }

    /// Reads the interrupt line and lowers it.
    pub fn take_irq(&mut self) -> (raised: bool)
        ensures
            raised == old(self)@.irq_timer,
            final(self)@ == (TimerView { irq_timer: false, ..old(self)@ }),
    {
        proof {
            use_type_invariant(&*self);
        }
        let raised: bool = self.irq_timer;
        self.irq_timer = false;
        raised
    }
}

/// The divider after `a` cycles and then `b` cycles is the divider after
/// `a + b` cycles.
pub proof fn lemma_divider_ticks_add(timer: TimerView, a: nat, b: nat)
    ensures
        timer.divider_ticks(a).divider_ticks(b) == timer.divider_ticks(a + b),
        timer.do_ticks(a).do_ticks(b).divide == timer.divider_ticks(a + b).divide,
        timer.do_ticks(a).do_ticks(b).divide_ticks == timer.divider_ticks(a + b).divide_ticks,
{
    let d: int = timer.divide as int;
    let x: int = (timer.divide_ticks + a) as int;
    let q1: int = x / 256;
    let r1: int = x % 256;
    let q2: int = (r1 + b) / 256;
    let d1: int = (d + q1) % 256;
    assert((x + b) / 256 == q1 + q2);
    assert((x + b) % 256 == (r1 + b) % 256);
    assert((d1 + q2) % 256 == (d + q1 + q2) % 256);
    let first = timer.divider_ticks(a);
    assert(first.divide == d1);
    assert(first.divide_ticks == r1);
    assert(first.divider_ticks(b).divide == ((d1 + q2) % 256) as u8);
    assert(timer.divider_ticks(a + b).divide == ((d + (x + b) / 256) % 256) as u8);
}

/// After a write to DIV the register reads 0 until 256 cycles have passed,
/// in however many parts they pass.
pub proof fn lemma_divider_reset(timer: TimerView, value: u8, a: nat, b: nat)
    requires
        a + b < 256,
    ensures
        timer.write_byte(0xFF04, value).read_byte(0xFF04) == 0,
        timer.write_byte(0xFF04, value).do_ticks(a).read_byte(0xFF04) == 0,
        timer.write_byte(0xFF04, value).do_ticks(a).do_ticks(b).read_byte(0xFF04) == 0,
        timer.write_byte(0xFF04, value).do_ticks(256).read_byte(0xFF04) == 1,
{
    lemma_divider_ticks_add(timer.write_byte(0xFF04, value), a, b);
}

} // verus!
