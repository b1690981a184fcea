use vstd::prelude::*;
use crate::cpu::alu::{
    AluOp, Operation8, add16_registers, alu_result, op8_flags, op8_result, sign_extend,
};
use crate::cpu::op_codes::{branch_taken, cycles, executed, is_undefined, op_cycles};
use crate::cpu::registers::{
    RegisterName16, RegisterName8, Registers, lemma_af_round_trip, lemma_flag_byte, lemma_pair_bytes,
    low_byte,
};
use crate::mbc::cartridge::Cartridge;
use crate::mmu::{Mmu, MmuView, is_ram, lemma_word_round_trip, next_address};
use crate::apu::ApuView;
use crate::gpu::LcdRegisters;
use crate::serial::SerialView;
use crate::GBKeyEvent;

pub mod alu;
pub mod op_codes;
pub mod op_codes_cb;
pub mod registers;

verus! {

/// What executing an opcode comes to.
#[derive(Debug, Copy, Clone, PartialEq, Eq, Structural)]
pub enum OpCodeResult {
    /// The instruction ran and took this many cycles.
    Executed(usize),
    /// The opcode stands for no instruction.
    UnknownOpCode,
}

/// An opcode that stands for no instruction, and the address it was
/// fetched from.
#[derive(Debug, Copy, Clone, PartialEq, Eq, Structural)]
pub struct Fault {
    pub op_code: u8,
    pub address: u16,
}

/// What an instruction works on: a register, or the byte that HL points
/// to.
#[derive(Debug, Copy, Clone, PartialEq, Eq, Structural)]
pub enum Operand8 {
    Register(RegisterName8),
    HlIndirect,
}

/// The operand that three bits of an opcode name: B, C, D, E, H, L, the
/// byte at HL, A.
pub open spec fn operand_of(code: u8) -> Operand8 {
    if code == 0 {
        Operand8::Register(RegisterName8::B)
    } else if code == 1 {
        Operand8::Register(RegisterName8::C)
    } else if code == 2 {
        Operand8::Register(RegisterName8::D)
    } else if code == 3 {
        Operand8::Register(RegisterName8::E)
    } else if code == 4 {
        Operand8::Register(RegisterName8::H)
    } else if code == 5 {
        Operand8::Register(RegisterName8::L)
    } else if code == 6 {
        Operand8::HlIndirect
    } else {
        Operand8::Register(RegisterName8::A)
    }
}

pub fn decode_operand(code: u8) -> (operand: Operand8)
    ensures
        operand == operand_of(code),
{
    if code == 0 {
        Operand8::Register(RegisterName8::B)
    } else if code == 1 {
        Operand8::Register(RegisterName8::C)
    } else if code == 2 {
        Operand8::Register(RegisterName8::D)
    } else if code == 3 {
        Operand8::Register(RegisterName8::E)
    } else if code == 4 {
        Operand8::Register(RegisterName8::H)
    } else if code == 5 {
        Operand8::Register(RegisterName8::L)
    } else if code == 6 {
        Operand8::HlIndirect
    } else {
        Operand8::Register(RegisterName8::A)
    }
}

/// The processor and all it owns, as contracts see them.
pub struct CpuView {
    pub registers: Registers,
    pub mmu: MmuView,
    pub halted: bool,
    /// The interrupt master enable.
    pub ime: bool,
    /// The countdown of a pending EI: 2 right after the instruction, 1 a
    /// tick later, and at the next tick the interrupts are enabled.
    pub ei_requested: usize,
    /// The undefined opcode that stopped the processor for good, if any.
    pub fault: Option<Fault>,
}

/// `w + n` modulo 2^16.
pub open spec fn wrapping_add16(w: u16, n: int) -> u16 {
    ((w + n) % 0x10000) as u16
}

/// The lowest of the five interrupts that are pending in `irq`; bit 0 is
/// the vertical blank, then STAT, timer, serial port and joypad.
pub open spec fn lowest_irq(irq: u8) -> u8 {
    if irq & 0x01 != 0 {
        0
    } else if irq & 0x02 != 0 {
        1
    } else if irq & 0x04 != 0 {
        2
    } else if irq & 0x08 != 0 {
        3
    } else {
        4
    }
}

impl CpuView {
    /// The memory and the devices are well formed, and a processor with a
    /// fault is halted.
    pub open spec fn wf(self) -> bool {
        self.mmu.wf() && (self.fault is Some ==> self.halted)
    }

    /// The processor as it is when the machine starts.
    pub open spec fn initial(mmu: MmuView) -> CpuView {
        CpuView {
            registers: Registers::initial(),
            mmu,
            halted: false,
            ime: false,
            ei_requested: 0,
            fault: None,
        }
    }

    pub open spec fn with_registers(self, registers: Registers) -> CpuView {
        CpuView { registers, ..self }
    }

    pub open spec fn with_mmu(self, mmu: MmuView) -> CpuView {
        CpuView { mmu, ..self }
    }

    pub open spec fn with_pc(self, pc: u16) -> CpuView {
        self.with_registers(Registers { pc, ..self.registers })
    }

    /// The processor after `value` was written to `address`.
    pub open spec fn stored(self, address: u16, value: u8) -> CpuView {
        self.with_mmu(self.mmu.write_byte(address, value))
    }

    /// The byte at the program counter.
    pub open spec fn imm8(self) -> u8 {
        self.mmu.read_byte(self.registers.pc)
    }

    /// The word at the program counter.
    pub open spec fn imm16(self) -> u16 {
        self.mmu.read_word(self.registers.pc)
    }

    /// The processor with the program counter moved on by `n`.
    pub open spec fn skip(self, n: int) -> CpuView {
        self.with_pc(wrapping_add16(self.registers.pc, n))
    }

    /// The processor after a word was pushed: the stack pointer goes down
    /// by 2 and the word is stored there.
    pub open spec fn pushed(self, value: u16) -> CpuView {
        let sp = wrapping_add16(self.registers.sp, -2);
        CpuView {
            registers: Registers { sp, ..self.registers },
            mmu: self.mmu.write_word(sp, value),
            ..self
        }
    }

    /// The word on top of the stack.
    pub open spec fn top(self) -> u16 {
        self.mmu.read_word(self.registers.sp)
    }

    /// The processor after a word was popped: the stack pointer goes up by
    /// 2.
    pub open spec fn popped(self) -> CpuView {
        self.with_registers(
            Registers { sp: wrapping_add16(self.registers.sp, 2), ..self.registers },
        )
    }

    /// The processor after a call: the program counter is pushed and the
    /// target takes its place.
    pub open spec fn called(self, address: u16) -> CpuView {
        self.pushed(self.registers.pc).with_pc(address)
    }

    /// The processor after a return: the program counter is popped.
    pub open spec fn returned(self) -> CpuView {
        self.popped().with_pc(self.top())
    }

    /// The processor after a relative jump: the signed byte at the program
    /// counter is added to the address behind it.
    pub open spec fn jumped_relative(self) -> CpuView {
        self.with_pc(
            wrapping_add16(wrapping_add16(self.registers.pc, 1), sign_extend(self.imm8()) as int),
        )
    }

    /// The value of an operand.
    pub open spec fn operand(self, operand: Operand8) -> u8 {
        match operand {
            Operand8::Register(name) => self.registers.reg(name),
            Operand8::HlIndirect => self.mmu.read_byte(self.registers.hl()),
        }
    }

    /// The processor after an operand was written.
    pub open spec fn with_operand(self, operand: Operand8, value: u8) -> CpuView {
        match operand {
            Operand8::Register(name) => self.with_registers(self.registers.with_reg(name, value)),
            Operand8::HlIndirect => self.stored(self.registers.hl(), value),
        }
    }

    /// The processor after a unary operation on an operand.
    pub open spec fn unary_on(self, op: Operation8, operand: Operand8) -> CpuView {
        match operand {
            Operand8::Register(name) => self.unary(op, name),
            Operand8::HlIndirect => self.unary_hl(op),
        }
    }

    /// The processor after a unary operation on a register.
    pub open spec fn unary(self, op: Operation8, name: RegisterName8) -> CpuView {
        let value = self.registers.reg(name);
        self.with_registers(
            (Registers { flags: op8_flags(op, self.registers.flags, value), ..self.registers }).with_reg(
                name,
                op8_result(op, self.registers.flags, value),
            ),
        )
    }

    /// The processor after a unary operation on the byte that HL points to.
    pub open spec fn unary_hl(self, op: Operation8) -> CpuView {
        let value = self.mmu.read_byte(self.registers.hl());
        CpuView {
            registers: Registers { flags: op8_flags(op, self.registers.flags, value), ..self.registers },
            mmu: self.mmu.write_byte(self.registers.hl(), op8_result(op, self.registers.flags, value)),
            ..self
        }
    }

    /// The processor after an operation of the accumulator with `value`.
    pub open spec fn binary(self, op: AluOp, value: u8) -> CpuView {
        self.with_registers(alu_result(op, self.registers, value))
    }

    /// The processor at the start of a tick: a pending EI counts down and
    /// at its end enables the interrupts.
    pub open spec fn ei_stepped(self) -> CpuView {
        if self.ei_requested == 2 {
            CpuView { ei_requested: 1, ..self }
        } else if self.ei_requested == 1 {
            CpuView { ime: true, ei_requested: 0, ..self }
        } else {
            CpuView { ei_requested: 0, ..self }
        }
    }

    /// The interrupts that are both requested and enabled, after the lines
    /// of the devices were collected.
    pub open spec fn pending_irq(self) -> u8 {
        self.mmu.process_irq_requests().interrupt_enable
            & self.mmu.process_irq_requests().interrupt_request & 0x1F
    }

    /// The processor after the interrupts were looked at: a pending one
    /// ends a halt, and with the master enable set the lowest pending one
    /// is served: the master enable and the request are cleared, the
    /// program counter is pushed, and the handler at 0x40 + 8 * n is
    /// entered.
    pub open spec fn irq_handled(self) -> CpuView {
        let collected = self.with_mmu(self.mmu.process_irq_requests());
        let irq = self.pending_irq();
        if irq != 0 {
            if self.ime {
                let n = lowest_irq(irq);
                let entered = (CpuView { halted: false, ime: false, ..collected }).pushed(
                    self.registers.pc,
                ).with_pc((0x0040 + 8 * n) as u16);
                entered.stored(0xFF0F, collected.mmu.interrupt_request & !(1u8 << n))
            } else {
                CpuView { halted: false, ..collected }
            }
        } else {
            collected
        }
    }
    /// The processor after the instruction at the program counter. An
    /// undefined opcode halts the processor and is kept as its fault.
    pub open spec fn cycled(self) -> CpuView {
        if is_undefined(self.imm8()) {
            CpuView {
                halted: true,
                fault: Some(Fault { op_code: self.imm8(), address: self.registers.pc }),
                ..self.skip(1)
            }
        } else {
            executed(self.skip(1), self.imm8())
        }
    }

    /// The cycles of the instruction at the program counter; 4 for an
    /// undefined opcode.
    pub open spec fn cycle_ticks(self) -> usize {
        if is_undefined(self.imm8()) {
            4
        } else {
            cycles(self.skip(1), self.imm8())
        }
    }

    /// The processor of a tick when the instruction is about to be
    /// fetched: the EI delay and the interrupts are done.
    pub open spec fn before_cycle(self) -> CpuView {
        self.ei_stepped().irq_handled()
    }

    /// The cycles that a tick takes: those of the instruction that it
    /// executes, or 4 while the processor is halted or stopped by a fault.
    pub open spec fn tick_cycles(self) -> usize {
        if self.fault is Some || self.before_cycle().halted {
            4
        } else {
            self.before_cycle().cycle_ticks()
        }
    }

    /// The processor with its devices moved on by `ticks` cycles.
    pub open spec fn devices_ticked(self, ticks: nat) -> CpuView {
        self.with_mmu(self.mmu.do_ticks(ticks))
    }

    /// The processor one tick later. A processor stopped by a fault only
    /// lets time pass. Any other counts down a pending EI, serves the
    /// interrupts, executes one instruction unless it is halted, and moves
    /// the devices on by the cycles that this took.
    pub open spec fn tick(self) -> CpuView {
        if self.fault is Some {
            self.devices_ticked(4)
        } else if self.before_cycle().halted {
            self.before_cycle().devices_ticked(4)
        } else {
            self.before_cycle().cycled().devices_ticked(self.before_cycle().cycle_ticks() as nat)
        }
    }
}

/// The processor with the memory and the devices it drives.
pub struct Cpu {
    registers: Registers,
    mmu: Mmu,
    halted: bool,
    ime: bool,
    ei_requested: usize,
    fault: Option<Fault>,
}

impl View for Cpu {
    type V = CpuView;

    closed spec fn view(&self) -> CpuView {
        CpuView {
            registers: self.registers,
            mmu: self.mmu@,
            halted: self.halted,
            ime: self.ime,
            ei_requested: self.ei_requested,
            fault: self.fault,
        }
    }
}

impl Cpu {
    pub fn new(cartridge: Cartridge) -> (cpu: Cpu)
        requires
            cartridge@.wf(),
        ensures
            cpu@ == CpuView::initial(cpu@.mmu),
            cpu@.mmu == MmuView::initial(cartridge@, cpu@.mmu.apu.channel_4.lfsr),
            cpu@.wf(),
    {
        Cpu {
            registers: Registers::new(),
            mmu: Mmu::new(cartridge),
            halted: false,
            ime: false,
            ei_requested: 0,
            fault: None,
        }
    }

    /// Runs the processor for one tick and returns the cycles it took.
    pub fn tick(&mut self) -> (ticks: usize)
        requires
            old(self)@.wf(),
        ensures
            final(self)@ == old(self)@.tick(),
            ticks == old(self)@.tick_cycles(),
            final(self)@.wf(),
    {
        if self.fault.is_some() {
            self.mmu.do_ticks(4);
            return 4;
        }
        self.step_ei();
        self.handle_irq();
        let ticks: usize = if !self.halted { self.do_cycle() } else { 4 };
        self.mmu.do_ticks(ticks);
        ticks
    }

    fn step_ei(&mut self)
        ensures
            final(self)@ == old(self)@.ei_stepped(),
    {
        if self.ei_requested == 2 {
            self.ei_requested = 1;
        } else if self.ei_requested == 1 {
            self.ime = true;
            self.ei_requested = 0;
        } else {
            self.ei_requested = 0;
        }
    }

    fn handle_irq(&mut self)
        requires
            old(self)@.wf(),
            old(self)@.fault is None,
        ensures
            final(self)@ == old(self)@.irq_handled(),
            final(self)@.wf(),
    {
        reveal(MmuView::read_byte);
        reveal(MmuView::read_io);
        self.mmu.process_irq_requests();
        let irq_requested: u8 = self.mmu.read_byte(0xFF0F);
        let irq: u8 = self.mmu.read_byte(0xFFFF) & irq_requested & 0x1F;
        if irq != 0 {
            self.halted = false;
            if self.ime {
                self.ime = false;
                let irq_num: u8 = if irq & 0x01 != 0 {
                    0
                } else if irq & 0x02 != 0 {
                    1
                } else if irq & 0x04 != 0 {
                    2
                } else if irq & 0x08 != 0 {
                    3
                } else {
                    4
                };
                self.push(self.registers.pc);
                self.registers = Registers { pc: 0x0040 + 8 * (irq_num as u16), ..self.registers };
                self.mmu.write_byte(0xFF0F, irq_requested & !(1u8 << irq_num));
            }
        }
    }

    fn do_cycle(&mut self) -> (ticks: usize)
        requires
            old(self)@.wf(),
        ensures
            final(self)@ == old(self)@.cycled(),
            ticks == old(self)@.cycle_ticks(),
            final(self)@.wf(),
    {
        let current_address: u16 = self.registers.pc;
        let op_code: u8 = self.fetch_byte();
        match op_codes::execute(op_code, self) {
            OpCodeResult::Executed(ticks) => ticks,
            OpCodeResult::UnknownOpCode => {
                self.halted = true;
                self.fault = Some(Fault { op_code, address: current_address });
                4
            },
        }
    }

    /// The register file.
    pub fn registers(&self) -> (registers: Registers)
        ensures
            registers == self@.registers,
    {
        self.registers
    }

    /// Replaces the register file.
    pub fn set_registers(&mut self, registers: Registers)
        ensures
            final(self)@ == old(self)@.with_registers(registers),
    {
        self.registers = registers;
    }

    /// Reads a byte through the memory management unit.
    pub fn read_byte(&self, address: u16) -> (value: u8)
        requires
            self@.wf(),
        ensures
            value == self@.mmu.read_byte(address),
    {
        self.mmu.read_byte(address)
    }

    /// Writes a byte through the memory management unit.
    pub fn write_byte(&mut self, address: u16, value: u8)
        requires
            old(self)@.wf(),
        ensures
            final(self)@ == old(self)@.stored(address, value),
            final(self)@.wf(),
    {
        self.mmu.write_byte(address, value);
    }

    /// Writes a word through the memory management unit.
    fn write_word(&mut self, address: u16, value: u16)
        requires
            old(self)@.wf(),
        ensures
            final(self)@ == old(self)@.with_mmu(old(self)@.mmu.write_word(address, value)),
            final(self)@.wf(),
    {
        self.mmu.write_word(address, value);
    }

    pub fn is_halted(&self) -> (halted: bool)
        ensures
            halted == self@.halted,
    {
        self.halted
    }

    /// The undefined opcode that stopped the processor for good, if any.
    pub fn fault(&self) -> (fault: Option<Fault>)
        ensures
            fault == self@.fault,
    {
        self.fault
    }

    fn set_halted(&mut self, halted: bool)
        ensures
            final(self)@ == (CpuView { halted, ..old(self)@ }),
    {
        self.halted = halted;
    }

    fn set_interrupts(&mut self, ime: bool, ei_requested: usize)
        ensures
            final(self)@ == (CpuView { ime, ei_requested, ..old(self)@ }),
    {
        self.ime = ime;
        self.ei_requested = ei_requested;
    }

    fn pending_enable(&self) -> (ei_requested: usize)
        ensures
            ei_requested == self@.ei_requested,
    {
        self.ei_requested
    }

    fn interrupts_enabled(&self) -> (ime: bool)
        ensures
            ime == self@.ime,
    {
        self.ime
    }

    fn fetch_byte(&mut self) -> (value: u8)
        requires
            old(self)@.wf(),
        ensures
            value == old(self)@.imm8(),
            final(self)@ == old(self)@.skip(1),
            final(self)@.wf(),
    {
        let res: u8 = self.mmu.read_byte(self.registers.pc);
        let pc: u16 = self.registers.pc.wrapping_add(1);
        self.registers = Registers { pc, ..self.registers };
        res
    }

    fn fetch_word(&mut self) -> (value: u16)
        requires
            old(self)@.wf(),
        ensures
            value == old(self)@.imm16(),
            final(self)@ == old(self)@.skip(2),
            final(self)@.wf(),
    {
        let res: u16 = self.mmu.read_word(self.registers.pc);
        let pc: u16 = self.registers.pc.wrapping_add(2);
        self.registers = Registers { pc, ..self.registers };
        res
    }

    fn push(&mut self, value: u16)
        requires
            old(self)@.wf(),
        ensures
            final(self)@ == old(self)@.pushed(value),
            final(self)@.wf(),
    {
        let sp: u16 = self.registers.sp.wrapping_sub(2);
        assert(sp == wrapping_add16(self.registers.sp, -2));
        self.registers = Registers { sp, ..self.registers };
        self.mmu.write_word(sp, value);
    }

    fn pop(&mut self) -> (value: u16)
        requires
            old(self)@.wf(),
        ensures
            value == old(self)@.top(),
            final(self)@ == old(self)@.popped(),
            final(self)@.wf(),
    {
        let result: u16 = self.mmu.read_word(self.registers.sp);
        let sp: u16 = self.registers.sp.wrapping_add(2);
        self.registers = Registers { sp, ..self.registers };
        result
    }

    fn call(&mut self, address: u16)
        requires
            old(self)@.wf(),
        ensures
            final(self)@ == old(self)@.called(address),
            final(self)@.wf(),
    {
        self.push(self.registers.pc);
        self.registers = Registers { pc: address, ..self.registers };
    }

    fn retrn(&mut self)
        requires
            old(self)@.wf(),
        ensures
            final(self)@ == old(self)@.returned(),
            final(self)@.wf(),
    {
        let address: u16 = self.pop();
        self.registers = Registers { pc: address, ..self.registers };
    }

    fn jump_r(&mut self)
        requires
            old(self)@.wf(),
        ensures
            final(self)@ == old(self)@.jumped_relative(),
            final(self)@.wf(),
    {
        let offset: u8 = self.fetch_byte();
        let pc: u16 = self.registers.pc.wrapping_add(alu::signed_byte_to_word(offset));
        self.registers = Registers { pc, ..self.registers };
    }

    fn read_operand(&self, operand: Operand8) -> (value: u8)
        requires
            self@.wf(),
        ensures
            value == self@.operand(operand),
    {
        match operand {
            Operand8::Register(name) => self.registers.get(name),
            Operand8::HlIndirect => self.mmu.read_byte(self.registers.get_hl()),
        }
    }

    fn write_operand(&mut self, operand: Operand8, value: u8)
        requires
            old(self)@.wf(),
        ensures
            final(self)@ == old(self)@.with_operand(operand, value),
            final(self)@.wf(),
    {
        match operand {
            Operand8::Register(name) => {
                let mut registers: Registers = self.registers;
                registers.set(name, value);
                self.registers = registers;
            },
            Operand8::HlIndirect => {
                self.mmu.write_byte(self.registers.get_hl(), value);
            },
        }
    }

    fn execute_on(&mut self, op: Operation8, operand: Operand8)
        requires
            old(self)@.wf(),
        ensures
            final(self)@ == old(self)@.unary_on(op, operand),
            final(self)@.wf(),
    {
        match operand {
            Operand8::Register(name) => self.execute(op, name),
            Operand8::HlIndirect => self.execute_hl(op),
        }
    }

    /// Applies a unary operation to a register.
    fn execute(&mut self, op: Operation8, arg: RegisterName8)
        ensures
            final(self)@ == old(self)@.unary(op, arg),
    {
        let value: u8 = self.registers.get(arg);
        let mut registers: Registers = self.registers;
        let result: u8 = alu::apply8(&mut registers, op, value);
        registers.set(arg, result);
        self.registers = registers;
    }

    /// Applies a unary operation to the byte that HL points to.
    fn execute_hl(&mut self, op: Operation8)
        requires
            old(self)@.wf(),
        ensures
            final(self)@ == old(self)@.unary_hl(op),
            final(self)@.wf(),
    {
        let address: u16 = self.registers.get_hl();
        let current: u8 = self.mmu.read_byte(address);
        let mut registers: Registers = self.registers;
        let new_value: u8 = alu::apply8(&mut registers, op, current);
        self.registers = registers;
        self.mmu.write_byte(address, new_value);
    }

    /// Applies an operation of the accumulator with a register.
    fn execute_binary(&mut self, op: AluOp, arg: RegisterName8)
        ensures
            final(self)@ == old(self)@.binary(op, old(self)@.registers.reg(arg)),
    {
        let value2: u8 = self.registers.get(arg);
        self.execute_binary_with_value(op, value2);
    }

    /// Applies an operation of the accumulator with a value.
    fn execute_binary_with_value(&mut self, op: AluOp, value2: u8)
        ensures
            final(self)@ == old(self)@.binary(op, value2),
    {
        let mut registers: Registers = self.registers;
        alu::apply_alu(&mut registers, op, value2);
        self.registers = registers;
    }

    /// Adds a 16-bit register to HL.
    fn execute16(&mut self, arg: RegisterName16)
        requires
            arg == RegisterName16::BC || arg == RegisterName16::DE || arg == RegisterName16::HL
                || arg == RegisterName16::SP,
        ensures
            final(self)@ == old(self)@.with_registers(
                add16_registers(old(self)@.registers, old(self)@.registers.reg16(arg)),
            ),
    {
        let mut registers: Registers = self.registers;
        let value2: u16 = registers.get16(arg);
        alu::add16(&mut registers, value2);
        self.registers = registers;
    }

    /// Hands a key event to the joypad.
    pub fn process_input_event(&mut self, event: GBKeyEvent)
        ensures
            final(self)@ == old(self)@.with_mmu(
                MmuView { joypad: old(self)@.mmu.joypad.receive_event(event), ..old(self)@.mmu },
            ),
            old(self)@.wf() ==> final(self)@.wf(),
    {
        self.mmu.receive_event(event);
    }

    /// Tells whether a frame was completed since the last call.
    pub fn is_screen_updated(&mut self) -> (updated: bool)
        ensures
            updated == old(self)@.mmu.gpu.regs.screen_update,
            final(self)@ == old(self)@.with_mmu(
                MmuView {
                    gpu: old(self)@.mmu.gpu.with_regs(
                        LcdRegisters { screen_update: false, ..old(self)@.mmu.gpu.regs },
                    ),
                    ..old(self)@.mmu
                },
            ),
            old(self)@.wf() ==> final(self)@.wf(),
    {
        self.mmu.get_screen_updated()
    }

    /// A copy of the screen, row by row from the top.
    pub fn get_screen_buffer(&self) -> (buffer: Vec<u8>)
        ensures
            buffer@ == self@.mmu.gpu.screen,
    {
        self.mmu.get_screen_buffer()
    }

    /// Hands the bytes that the serial port sent to the host.
    pub fn take_serial_output(&mut self) -> (bytes: Vec<u8>)
        ensures
            bytes@ == old(self)@.mmu.serial.output,
            final(self)@ == old(self)@.with_mmu(
                MmuView {
                    serial: SerialView { output: Seq::empty(), ..old(self)@.mmu.serial },
                    ..old(self)@.mmu
                },
            ),
            old(self)@.wf() ==> final(self)@.wf(),
    {
        self.mmu.take_serial_output()
    }

    /// Hands the oldest 800 samples to the host, once that many were made.
    pub fn take_audio_buffer(&mut self) -> (samples: Option<Vec<i16>>)
        ensures
            match samples {
                Some(taken) => old(self)@.mmu.apu.audio_ready() && taken@
                    == old(self)@.mmu.apu.buffer.subrange(0, 800) && final(self)@
                    == old(self)@.with_mmu(
                    MmuView {
                        apu: ApuView {
                            buffer: old(self)@.mmu.apu.buffer.subrange(
                                800,
                                old(self)@.mmu.apu.buffer.len() as int,
                            ),
                            ..old(self)@.mmu.apu
                        },
                        ..old(self)@.mmu
                    },
                ),
                None => !old(self)@.mmu.apu.audio_ready() && final(self)@ == old(self)@,
            },
            old(self)@.wf() ==> final(self)@.wf(),
    {
        self.mmu.take_audio_buffer()
    }
}

/// Whether the two bytes under the stack pointer are RAM, so that a word
/// can be pushed there.
pub open spec fn stack_in_ram(cpu: CpuView) -> bool {
    is_ram(wrapping_add16(cpu.registers.sp, -2)) && is_ram(wrapping_add16(cpu.registers.sp, -1))
}

/// A tick of a processor that is halted when the instruction would be
/// fetched, or stopped by a fault, takes 4 cycles. A tick of a processor
/// that is not halted takes the cycles of the instruction that it
/// executes: for a conditional jump, call or return they depend on whether
/// the branch is taken, and for the prefix 0xCB they are those of the
/// instruction behind it.
pub proof fn lemma_tick_cycles(cpu: CpuView)
    requires
        cpu.wf(),
    ensures
        cpu.fault is Some || cpu.before_cycle().halted ==> cpu.tick_cycles() == 4,
        !cpu.halted ==> cpu.fault is None && !cpu.before_cycle().halted,
        !cpu.halted && !is_undefined(cpu.before_cycle().imm8()) && cpu.before_cycle().imm8()
            != 0xCB ==> cpu.tick_cycles() == op_cycles(
            cpu.before_cycle().imm8(),
            branch_taken(cpu.before_cycle().registers.flags, cpu.before_cycle().imm8()),
        ),
        !cpu.halted && cpu.before_cycle().imm8() == 0xCB ==> cpu.tick_cycles()
            == op_codes_cb::cb_cycles(cpu.before_cycle().skip(1).imm8()),
        !cpu.halted && is_undefined(cpu.before_cycle().imm8()) ==> cpu.tick_cycles() == 4,
        4 <= cpu.tick_cycles() <= 24,
{
}

/// A tick that executes NOP: on a processor that is not halted, with no
/// EI pending and no interrupt both requested and enabled, it takes 4
/// cycles, moves the program counter on by one, changes no other register
/// nor the master enable, and moves the devices on by 4 cycles.
pub proof fn lemma_tick_nop(cpu: CpuView)
    requires
        cpu.wf(),
        !cpu.halted,
        cpu.ei_requested == 0,
        cpu.pending_irq() == 0,
        cpu.mmu.process_irq_requests().read_byte(cpu.registers.pc) == 0x00,
    ensures
        cpu.tick_cycles() == 4,
        cpu.tick().registers == (Registers {
            pc: wrapping_add16(cpu.registers.pc, 1),
            ..cpu.registers
        }),
        cpu.tick().ime == cpu.ime,
        !cpu.tick().halted,
        cpu.tick().fault is None,
        cpu.tick().mmu == cpu.mmu.process_irq_requests().do_ticks(4),
{
    reveal(op_codes::block0);
    reveal(op_codes::control0);
    let before = cpu.before_cycle();
    assert(cpu.ei_stepped() == cpu);
    assert(before == cpu.with_mmu(cpu.mmu.process_irq_requests()));
    assert(before.cycled() == before.skip(1));
}

/// The stack pointer after a push and a pop is where it was, and neither
/// changes its parity.
pub proof fn lemma_stack_pointer(sp: u16)
    ensures
        wrapping_add16(wrapping_add16(sp, -2), 2) == sp,
        next_address(wrapping_add16(sp, -2)) == wrapping_add16(sp, -1),
        wrapping_add16(sp, -2) % 2 == sp % 2,
        wrapping_add16(sp, 2) % 2 == sp % 2,
{
    if sp < 2 {
        assert(wrapping_add16(sp, -2) == sp + 0x10000 - 2);
    } else {
        assert(wrapping_add16(sp, -2) == sp - 2);
    }
    if sp >= 0xFFFE {
        assert(wrapping_add16(sp, 2) == sp + 2 - 0x10000);
    } else {
        assert(wrapping_add16(sp, 2) == sp + 2);
    }
}

/// A word pushed to a stack in RAM is on top of the stack, and popping it
/// leaves the stack pointer where it was. The parity of the stack pointer
/// never changes by a push or a pop.
pub proof fn lemma_push_pop(cpu: CpuView, value: u16)
    requires
        cpu.wf(),
        stack_in_ram(cpu),
    ensures
        cpu.pushed(value).top() == value,
        cpu.pushed(value).popped().registers == cpu.registers,
        cpu.pushed(value).registers.sp % 2 == cpu.registers.sp % 2,
        cpu.popped().registers.sp % 2 == cpu.registers.sp % 2,
{
    let sp = wrapping_add16(cpu.registers.sp, -2);
    lemma_stack_pointer(cpu.registers.sp);
    lemma_word_round_trip(cpu.mmu, sp, value);
    assert(cpu.pushed(value).mmu == cpu.mmu.write_word(sp, value));
    assert(cpu.pushed(value).registers.sp == sp);
}

/// The fields of the opcodes of PUSH and POP.
proof fn lemma_stack_decode(cpu: CpuView)
    ensures
        executed(cpu, 0xC5) == op_codes::block3(cpu, 0, 5),
        executed(cpu, 0xD5) == op_codes::block3(cpu, 2, 5),
        executed(cpu, 0xE5) == op_codes::block3(cpu, 4, 5),
        executed(cpu, 0xF5) == op_codes::block3(cpu, 6, 5),
        executed(cpu, 0xC1) == op_codes::block3(cpu, 0, 1),
        executed(cpu, 0xD1) == op_codes::block3(cpu, 2, 1),
        executed(cpu, 0xE1) == op_codes::block3(cpu, 4, 1),
        executed(cpu, 0xF1) == op_codes::block3(cpu, 6, 1),
{
}

/// What PUSH comes to for each of the four register pairs.
proof fn lemma_push_block(cpu: CpuView, y: u8)
    requires
        y == 0 || y == 2 || y == 4 || y == 6,
    ensures
        op_codes::block3(cpu, y, 5) == cpu.pushed(op_codes::push_value(cpu.registers, y / 2)),
{
    reveal(op_codes::block3);
    reveal(op_codes::call3);
}

/// What PUSH of the four register pairs comes to.
pub proof fn lemma_push_opcodes(cpu: CpuView)
    ensures
        executed(cpu, 0xC5) == cpu.pushed(cpu.registers.bc()),
        executed(cpu, 0xD5) == cpu.pushed(cpu.registers.de()),
        executed(cpu, 0xE5) == cpu.pushed(cpu.registers.hl()),
        executed(cpu, 0xF5) == cpu.pushed(cpu.registers.af()),
{
    lemma_stack_decode(cpu);
    lemma_push_block(cpu, 0);
    lemma_push_block(cpu, 2);
    lemma_push_block(cpu, 4);
    lemma_push_block(cpu, 6);
}

/// What POP of the four register pairs comes to.
pub proof fn lemma_pop_opcodes(cpu: CpuView)
    ensures
        executed(cpu, 0xC1).registers == cpu.popped().registers.with_bc(cpu.top()),
        executed(cpu, 0xD1).registers == cpu.popped().registers.with_de(cpu.top()),
        executed(cpu, 0xE1).registers == cpu.popped().registers.with_hl(cpu.top()),
        executed(cpu, 0xF1).registers == cpu.popped().registers.with_af(cpu.top()),
{
    reveal(op_codes::block3);
    reveal(op_codes::stack3);
    assert(executed(cpu, 0xC1) == op_codes::stack3(cpu, 0));
    assert(executed(cpu, 0xD1) == op_codes::stack3(cpu, 2));
    assert(executed(cpu, 0xE1) == op_codes::stack3(cpu, 4));
    assert(executed(cpu, 0xF1) == op_codes::stack3(cpu, 6));
}

/// PUSH BC followed by POP BC leaves the registers as they were, on a
/// stack in RAM.
pub proof fn lemma_push_pop_bc(cpu: CpuView)
    requires
        cpu.wf(),
        stack_in_ram(cpu),
    ensures
        executed(executed(cpu, 0xC5), 0xC1).registers == cpu.registers,
{
    let value = cpu.registers.bc();
    lemma_push_opcodes(cpu);
    lemma_push_pop(cpu, value);
    lemma_pop_opcodes(cpu.pushed(value));
    lemma_pair_bytes(cpu.registers.b, cpu.registers.c);
    assert(cpu.pushed(value).popped().registers.with_bc(value) == cpu.registers);
}

/// PUSH DE followed by POP DE leaves the registers as they were, on a
/// stack in RAM.
pub proof fn lemma_push_pop_de(cpu: CpuView)
    requires
        cpu.wf(),
        stack_in_ram(cpu),
    ensures
        executed(executed(cpu, 0xD5), 0xD1).registers == cpu.registers,
{
    let value = cpu.registers.de();
    lemma_push_opcodes(cpu);
    lemma_push_pop(cpu, value);
    lemma_pop_opcodes(cpu.pushed(value));
    lemma_pair_bytes(cpu.registers.d, cpu.registers.e);
    assert(cpu.pushed(value).popped().registers.with_de(value) == cpu.registers);
}

/// PUSH HL followed by POP HL leaves the registers as they were, on a
/// stack in RAM.
pub proof fn lemma_push_pop_hl(cpu: CpuView)
    requires
        cpu.wf(),
        stack_in_ram(cpu),
    ensures
        executed(executed(cpu, 0xE5), 0xE1).registers == cpu.registers,
{
    let value = cpu.registers.hl();
    lemma_push_opcodes(cpu);
    lemma_push_pop(cpu, value);
    lemma_pop_opcodes(cpu.pushed(value));
    lemma_pair_bytes(cpu.registers.h, cpu.registers.l);
    assert(cpu.pushed(value).popped().registers.with_hl(value) == cpu.registers);
}

/// PUSH AF followed by POP AF leaves the registers as they were, on a
/// stack in RAM: the flag byte that is pushed has a zero low nibble, so
/// nothing of it is lost.
pub proof fn lemma_push_pop_af(cpu: CpuView)
    requires
        cpu.wf(),
        stack_in_ram(cpu),
    ensures
        executed(executed(cpu, 0xF5), 0xF1).registers == cpu.registers,
{
    let value = cpu.registers.af();
    lemma_push_opcodes(cpu);
    lemma_push_pop(cpu, value);
    lemma_pop_opcodes(cpu.pushed(value));
    lemma_af_round_trip(cpu.registers, value);
}

/// Whatever word is on the stack, POP AF leaves a flag byte whose low
/// nibble is zero: the flags are the high nibble of the low byte.
pub proof fn lemma_pop_af(cpu: CpuView)
    ensures
        executed(cpu, 0xF1).registers.flags.raw() & 0x0F == 0,
        executed(cpu, 0xF1).registers.flags.raw() == low_byte(cpu.top()) & 0xF0,
{
    lemma_pop_opcodes(cpu);
    lemma_flag_byte(executed(cpu, 0xF1).registers.flags, low_byte(cpu.top()));
}

/// What a load between two operands comes to.
pub proof fn lemma_load_opcode(cpu: CpuView, to: u8, from: u8)
    requires
        to < 8,
        from < 8,
    ensures
        executed(cpu, (0x40 + to * 8 + from) as u8) == op_codes::load_block(cpu, to, from),
{
    let op = (0x40 + to * 8 + from) as u8;
    assert((op / 8) % 8 == to && op % 8 == from);
    assert(0x40 <= op < 0x80);
}

/// LD r,r' followed by LD r',r, for two different registers: r' keeps its
/// value, r has taken it, and the second load changes nothing.
pub proof fn lemma_load_pair(cpu: CpuView, first: u8, second: u8)
    requires
        first < 8,
        second < 8,
        first != 6,
        second != 6,
        first != second,
    ensures
        ({
            let there = executed(cpu, (0x40 + first * 8 + second) as u8);
            let back = executed(there, (0x40 + second * 8 + first) as u8);
            &&& back == there
            &&& back.operand(operand_of(second)) == cpu.operand(operand_of(second))
            &&& back.operand(operand_of(first)) == cpu.operand(operand_of(second))
            &&& back.mmu == cpu.mmu
        }),
{
    reveal(op_codes::load_block);
    let there = op_codes::load_block(cpu, first, second);
    let back = op_codes::load_block(there, second, first);
    lemma_load_opcode(cpu, first, second);
    lemma_load_opcode(there, second, first);
    assert(there.registers == cpu.registers.with_reg(
        operand_of(first)->Register_0,
        cpu.registers.reg(operand_of(second)->Register_0),
    ));
    assert(back.registers == there.registers);
}

} // verus!
