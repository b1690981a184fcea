use vstd::prelude::*;
use crate::cpu::alu::{
    AluOp, Operation8, accumulator_result, add16_registers, add_signed_registers,
    apply_accumulator, apply_add_signed,
};
use crate::cpu::op_codes_cb::{cb_cycles, cb_executed};
use crate::cpu::registers::{
    CpuFlag, FlagRegister, RegisterName16, Registers, wrapping_dec16, wrapping_inc16,
};
use crate::cpu::{Cpu, CpuView, OpCodeResult, decode_operand, operand_of};

verus! {

/// The condition that two bits of an opcode name: Z clear, Z set, C clear,
/// C set.
pub open spec fn condition(flags: FlagRegister, code: u8) -> bool {
    if code == 0 {
        !flags.z
    } else if code == 1 {
        flags.z
    } else if code == 2 {
        !flags.c
    } else {
        flags.c
    }
}

/// The register pair that two bits of an opcode name: BC, DE, HL, SP.
pub open spec fn pair_of(code: u8) -> RegisterName16 {
    if code == 0 {
        RegisterName16::BC
    } else if code == 1 {
        RegisterName16::DE
    } else if code == 2 {
        RegisterName16::HL
    } else {
        RegisterName16::SP
    }
}

/// The operation of the accumulator that three bits of an opcode name.
pub open spec fn alu_of(code: u8) -> AluOp {
    if code == 0 {
        AluOp::Add
    } else if code == 1 {
        AluOp::Adc
    } else if code == 2 {
        AluOp::Sub
    } else if code == 3 {
        AluOp::Sbc
    } else if code == 4 {
        AluOp::And
    } else if code == 5 {
        AluOp::Xor
    } else if code == 6 {
        AluOp::Or
    } else {
        AluOp::Cp
    }
}

/// The eleven opcodes that stand for no instruction.
pub open spec fn is_undefined(op: u8) -> bool {
    op == 0xD3 || op == 0xDB || op == 0xDD || op == 0xE3 || op == 0xE4 || op == 0xEB || op == 0xEC
        || op == 0xED || op == 0xF4 || op == 0xFC || op == 0xFD
}

/// Whether an opcode is a conditional jump, call or return.
pub open spec fn is_conditional(op: u8) -> bool {
    let y: u8 = (op / 8) % 8;
    let z: u8 = op % 8;
    if op < 0x40 {
        z == 0 && y >= 4
    } else if op >= 0xC0 {
        (z == 0 || z == 2 || z == 4) && y < 4
    } else {
        false
    }
}

/// Whether an instruction branches with the given flags; one that is not
/// conditional always does what it does.
pub open spec fn branch_taken(flags: FlagRegister, op: u8) -> bool {
    is_conditional(op) ==> condition(flags, (((op / 8) % 8) % 4) as u8)
}

/// The cycles of an instruction of the first quarter of the table.
pub open spec fn block0_cycles(y: u8, z: u8, taken: bool) -> usize {
    if z == 0 {
        if y == 0 {
            4
        } else if y == 1 {
            20
        } else if y == 2 {
            4
        } else if y == 3 || taken {
            12
        } else {
            8
        }
    } else if z == 1 {
        if y % 2 == 0 {
            12
        } else {
            8
        }
    } else if z == 2 || z == 3 {
        8
    } else if z == 4 || z == 5 {
        if y == 6 {
            12
        } else {
            4
        }
    } else if z == 6 {
        if y == 6 {
            12
        } else {
            8
        }
    } else {
        4
    }
}

/// The cycles of an instruction of the last quarter of the table, the
/// prefix 0xCB left aside.
pub open spec fn block3_cycles(y: u8, z: u8, taken: bool) -> usize {
    if z == 0 {
        if y < 4 {
            if taken {
                20
            } else {
                8
            }
        } else if y == 5 {
            16
        } else {
            12
        }
    } else if z == 1 {
        if y % 2 == 0 {
            12
        } else if y == 1 || y == 3 {
            16
        } else if y == 5 {
            4
        } else {
            8
        }
    } else if z == 2 {
        if y < 4 {
            if taken {
                16
            } else {
                12
            }
        } else if y == 4 || y == 6 {
            8
        } else {
            16
        }
    } else if z == 3 {
        if y == 0 {
            16
        } else {
            4
        }
    } else if z == 4 {
        if taken {
            24
        } else {
            12
        }
    } else if z == 5 {
        if y % 2 == 0 {
            16
        } else {
            24
        }
    } else if z == 6 {
        8
    } else {
        16
    }
}

/// The cycles of a load between two operands, or of HALT.
pub open spec fn load_cycles(y: u8, z: u8) -> usize {
    if y == 6 && z == 6 {
        4
    } else if y == 6 || z == 6 {
        8
    } else {
        4
    }
}

/// The cycles that an instruction takes; `taken` tells whether a
/// conditional one branches. The prefix 0xCB is counted with the
/// instruction that follows it.
pub open spec fn op_cycles(op: u8, taken: bool) -> usize {
    let y: u8 = (op / 8) % 8;
    let z: u8 = op % 8;
    if op < 0x40 {
        block0_cycles(y, z, taken)
    } else if op < 0x80 {
        load_cycles(y, z)
    } else if op < 0xC0 {
        if z == 6 {
            8
        } else {
            4
        }
    } else {
        block3_cycles(y, z, taken)
    }
}

/// The cycles that the instruction with opcode `op` takes on a processor
/// whose program counter is behind the opcode.
pub open spec fn cycles(cpu: CpuView, op: u8) -> usize {
    if op == 0xCB {
        cb_cycles(cpu.imm8())
    } else {
        op_cycles(op, branch_taken(cpu.registers.flags, op))
    }
}

/// NOP, LD (nn),SP, STOP and the relative jumps.
#[verifier::opaque]
pub open spec fn control0(cpu: CpuView, y: u8) -> CpuView {
    if y == 0 {
        cpu
    } else if y == 1 {
        cpu.skip(2).with_mmu(cpu.mmu.write_word(cpu.imm16(), cpu.registers.sp))
    } else if y == 2 {
        CpuView { halted: true, ..cpu.skip(1) }
    } else if y == 3 || condition(cpu.registers.flags, (y % 4) as u8) {
        cpu.jumped_relative()
    } else {
        cpu.skip(1)
    }
}

/// LD rp,nn and ADD HL,rp.
#[verifier::opaque]
pub open spec fn pair_load_add(cpu: CpuView, y: u8) -> CpuView {
    if y % 2 == 0 {
        cpu.with_registers(cpu.skip(2).registers.with_reg16(pair_of(y / 2), cpu.imm16()))
    } else {
        cpu.with_registers(add16_registers(cpu.registers, cpu.registers.reg16(pair_of(y / 2))))
    }
}

/// The register that holds the address of an indirect load: BC, DE, HL
/// with increment, HL with decrement.
pub open spec fn pointer_of(code: u8) -> RegisterName16 {
    if code == 0 {
        RegisterName16::BC
    } else if code == 1 {
        RegisterName16::DE
    } else if code == 2 {
        RegisterName16::HLI
    } else {
        RegisterName16::HLD
    }
}

/// The loads between A and the byte that BC, DE or HL points to.
#[verifier::opaque]
pub open spec fn indirect_load(cpu: CpuView, y: u8) -> CpuView {
    let pointer = pointer_of(y / 2);
    let address = cpu.registers.reg16(pointer);
    let stepped = cpu.registers.after_read16(pointer);
    if y % 2 == 0 {
        cpu.with_registers(stepped).stored(address, cpu.registers.a)
    } else {
        cpu.with_registers(Registers { a: cpu.mmu.read_byte(address), ..stepped })
    }
}

/// INC rp and DEC rp; no flag changes.
#[verifier::opaque]
pub open spec fn pair_step(cpu: CpuView, y: u8) -> CpuView {
    let pair = pair_of(y / 2);
    let value = cpu.registers.reg16(pair);
    cpu.with_registers(
        cpu.registers.with_reg16(
            pair,
            if y % 2 == 0 {
                wrapping_inc16(value)
            } else {
                wrapping_dec16(value)
            },
        ),
    )
}

/// The first quarter of the table, 0x00 to 0x3F.
#[verifier::opaque]
pub open spec fn block0(cpu: CpuView, y: u8, z: u8) -> CpuView {
    if z == 0 {
        control0(cpu, y)
    } else if z == 1 {
        pair_load_add(cpu, y)
    } else if z == 2 {
        indirect_load(cpu, y)
    } else if z == 3 {
        pair_step(cpu, y)
    } else if z == 4 {
        cpu.unary_on(Operation8::Inc, operand_of(y))
    } else if z == 5 {
        cpu.unary_on(Operation8::Dec, operand_of(y))
    } else if z == 6 {
        cpu.skip(1).with_operand(operand_of(y), cpu.imm8())
    } else {
        cpu.with_registers(accumulator_result(y, cpu.registers))
    }
}

/// The second quarter of the table, 0x40 to 0x7F: LD r,r' and HALT.
#[verifier::opaque]
pub open spec fn load_block(cpu: CpuView, y: u8, z: u8) -> CpuView {
    if y == 6 && z == 6 {
        CpuView { halted: true, ..cpu }
    } else {
        cpu.with_operand(operand_of(y), cpu.operand(operand_of(z)))
    }
}

/// The conditional returns, the loads to and from the page 0xFF00 with an
/// offset from the program, and the two additions of a signed byte to SP.
#[verifier::opaque]
pub open spec fn control3(cpu: CpuView, y: u8) -> CpuView {
    if y < 4 {
        if condition(cpu.registers.flags, y) {
            cpu.returned()
        } else {
            cpu
        }
    } else if y == 4 {
        cpu.skip(1).stored((0xFF00 + cpu.imm8()) as u16, cpu.registers.a)
    } else if y == 5 {
        cpu.with_registers(add_signed_registers(cpu.skip(1).registers, cpu.imm8(), false))
    } else if y == 6 {
        cpu.with_registers(
            Registers { a: cpu.mmu.read_byte((0xFF00 + cpu.imm8()) as u16), ..cpu.skip(1).registers },
        )
    } else {
        cpu.with_registers(add_signed_registers(cpu.skip(1).registers, cpu.imm8(), true))
    }
}

/// POP, RET, RETI, JP HL and LD SP,HL. POP AF loads the flags from the
/// high nibble of the low byte.
#[verifier::opaque]
pub open spec fn stack3(cpu: CpuView, y: u8) -> CpuView {
    let r = cpu.popped().registers;
    if y == 0 {
        cpu.with_registers(r.with_bc(cpu.top()))
    } else if y == 2 {
        cpu.with_registers(r.with_de(cpu.top()))
    } else if y == 4 {
        cpu.with_registers(r.with_hl(cpu.top()))
    } else if y == 6 {
        cpu.with_registers(r.with_af(cpu.top()))
    } else if y == 1 {
        cpu.returned()
    } else if y == 3 {
        (CpuView { ime: true, ..cpu }).returned()
    } else if y == 5 {
        cpu.with_pc(cpu.registers.hl())
    } else {
        cpu.with_registers(Registers { sp: cpu.registers.hl(), ..cpu.registers })
    }
}

/// The conditional jumps, and the loads between A and the page 0xFF00
/// with an offset in C, or an address from the program.
#[verifier::opaque]
pub open spec fn jump3(cpu: CpuView, y: u8) -> CpuView {
    if y < 4 {
        if condition(cpu.registers.flags, y) {
            cpu.with_pc(cpu.imm16())
        } else {
            cpu.skip(2)
        }
    } else if y == 4 {
        cpu.stored((0xFF00 + cpu.registers.c) as u16, cpu.registers.a)
    } else if y == 5 {
        cpu.skip(2).stored(cpu.imm16(), cpu.registers.a)
    } else if y == 6 {
        cpu.with_registers(
            Registers { a: cpu.mmu.read_byte((0xFF00 + cpu.registers.c) as u16), ..cpu.registers },
        )
    } else {
        cpu.with_registers(
            Registers { a: cpu.mmu.read_byte(cpu.imm16()), ..cpu.skip(2).registers },
        )
    }
}

/// JP nn, the prefix 0xCB, DI and EI. EI takes effect two ticks later.
#[verifier::opaque]
pub open spec fn misc3(cpu: CpuView, y: u8) -> CpuView {
    if y == 0 {
        cpu.with_pc(cpu.imm16())
    } else if y == 1 {
        cb_executed(cpu.skip(1), cpu.imm8())
    } else if y == 6 {
        CpuView { ime: false, ei_requested: 0, ..cpu }
    } else if y == 7 {
        CpuView { ei_requested: 2, ..cpu }
    } else {
        cpu
    }
}

/// The word that PUSH stores: BC, DE, HL, AF.
pub open spec fn push_value(r: Registers, code: u8) -> u16 {
    if code == 0 {
        r.bc()
    } else if code == 1 {
        r.de()
    } else if code == 2 {
        r.hl()
    } else {
        r.af()
    }
}

/// The calls and PUSH.
#[verifier::opaque]
pub open spec fn call3(cpu: CpuView, y: u8, z: u8) -> CpuView {
    if z == 4 {
        if condition(cpu.registers.flags, y) {
            cpu.skip(2).called(cpu.imm16())
        } else {
            cpu.skip(2)
        }
    } else if y % 2 == 0 {
        cpu.pushed(push_value(cpu.registers, y / 2))
    } else {
        cpu.skip(2).called(cpu.imm16())
    }
}

/// The last quarter of the table, 0xC0 to 0xFF, for the opcodes that stand
/// for an instruction.
#[verifier::opaque]
pub open spec fn block3(cpu: CpuView, y: u8, z: u8) -> CpuView {
    if z == 0 {
        control3(cpu, y)
    } else if z == 1 {
        stack3(cpu, y)
    } else if z == 2 {
        jump3(cpu, y)
    } else if z == 3 {
        misc3(cpu, y)
    } else if z == 4 || z == 5 {
        call3(cpu, y, z)
    } else if z == 6 {
        cpu.skip(1).binary(alu_of(y), cpu.imm8())
    } else {
        cpu.called((y * 8) as u16)
    }
}

/// The processor after the instruction with opcode `op`, on a processor
/// whose program counter is behind the opcode. Bits 3 to 5 and bits 0 to 2
/// of the opcode name what the instruction works on.
pub open spec fn executed(cpu: CpuView, op: u8) -> CpuView {
    let y: u8 = (op / 8) % 8;
    let z: u8 = op % 8;
    if op < 0x40 {
        block0(cpu, y, z)
    } else if op < 0x80 {
        load_block(cpu, y, z)
    } else if op < 0xC0 {
        cpu.binary(alu_of(y), cpu.operand(operand_of(z)))
    } else {
        block3(cpu, y, z)
    }
}

fn decode_alu(code: u8) -> (op: AluOp)
    ensures
        op == alu_of(code),
{
    if code == 0 {
        AluOp::Add
    } else if code == 1 {
        AluOp::Adc
    } else if code == 2 {
        AluOp::Sub
    } else if code == 3 {
        AluOp::Sbc
    } else if code == 4 {
        AluOp::And
    } else if code == 5 {
        AluOp::Xor
    } else if code == 6 {
        AluOp::Or
    } else {
        AluOp::Cp
    }
}

fn decode_pair(code: u8) -> (pair: RegisterName16)
    ensures
        pair == pair_of(code),
{
    if code == 0 {
        RegisterName16::BC
    } else if code == 1 {
        RegisterName16::DE
    } else if code == 2 {
        RegisterName16::HL
    } else {
        RegisterName16::SP
    }
}

fn decode_pointer(code: u8) -> (pointer: RegisterName16)
    ensures
        pointer == pointer_of(code),
{
    if code == 0 {
        RegisterName16::BC
    } else if code == 1 {
        RegisterName16::DE
    } else if code == 2 {
        RegisterName16::HLI
    } else {
        RegisterName16::HLD
    }
}

fn test_condition(cpu: &Cpu, code: u8) -> (holds: bool)
    ensures
        holds == condition(cpu@.registers.flags, code),
{
    let registers: Registers = cpu.registers();
    if code == 0 {
        !registers.get_flag(CpuFlag::Z)
    } else if code == 1 {
        registers.get_flag(CpuFlag::Z)
    } else if code == 2 {
        !registers.get_flag(CpuFlag::C)
    } else {
        registers.get_flag(CpuFlag::C)
    }
}

fn execute_control0(cpu: &mut Cpu, y: u8) -> (ticks: usize)
    requires
        old(cpu)@.wf(),
        y < 8,
    ensures
        final(cpu)@ == control0(old(cpu)@, y),
        final(cpu)@.wf(),
        ticks == block0_cycles(y, 0, y >= 4 ==> condition(old(cpu)@.registers.flags, (y % 4) as u8)),
{
    reveal(control0);
    if y == 0 {
        4
    } else if y == 1 {
        let sp: u16 = cpu.registers().sp;
        let address: u16 = cpu.fetch_word();
        cpu.write_word(address, sp);
        20
    } else if y == 2 {
        cpu.fetch_byte();
        cpu.set_halted(true);
        4
    } else if y == 3 {
        cpu.jump_r();
        12
    } else if test_condition(cpu, y % 4) {
        cpu.jump_r();
        12
    } else {
        cpu.fetch_byte();
        8
    }
}

fn execute_pair_load_add(cpu: &mut Cpu, y: u8) -> (ticks: usize)
    requires
        old(cpu)@.wf(),
        y < 8,
    ensures
        final(cpu)@ == pair_load_add(old(cpu)@, y),
        final(cpu)@.wf(),
        ticks == block0_cycles(y, 1, true),
{
    reveal(pair_load_add);
    let pair: RegisterName16 = decode_pair(y / 2);
    if y % 2 == 0 {
        let next_word: u16 = cpu.fetch_word();
        let mut registers: Registers = cpu.registers();
        registers.set16(pair, next_word);
        cpu.set_registers(registers);
        12
    } else {
        cpu.execute16(pair);
        8
    }
}

fn execute_indirect_load(cpu: &mut Cpu, y: u8) -> (ticks: usize)
    requires
        old(cpu)@.wf(),
        y < 8,
    ensures
        final(cpu)@ == indirect_load(old(cpu)@, y),
        final(cpu)@.wf(),
        ticks == 8,
{
    reveal(indirect_load);
    let pointer: RegisterName16 = decode_pointer(y / 2);
    let mut registers: Registers = cpu.registers();
    let address: u16 = registers.get16(pointer);
    if y % 2 == 0 {
        cpu.set_registers(registers);
        cpu.write_byte(address, registers.a);
    } else {
        registers.a = cpu.read_byte(address);
        cpu.set_registers(registers);
    }
    8
}

fn execute_pair_step(cpu: &mut Cpu, y: u8) -> (ticks: usize)
    requires
        old(cpu)@.wf(),
        y < 8,
    ensures
        final(cpu)@ == pair_step(old(cpu)@, y),
        final(cpu)@.wf(),
        ticks == 8,
{
    reveal(pair_step);
    let pair: RegisterName16 = decode_pair(y / 2);
    let mut registers: Registers = cpu.registers();
    let value: u16 = registers.get16(pair);
    let stepped: u16 = if y % 2 == 0 { value.wrapping_add(1) } else { value.wrapping_sub(1) };
    registers.set16(pair, stepped);
    cpu.set_registers(registers);
    8
}

/// What the two fields of an opcode of the first quarter say of its
/// cycles.
proof fn lemma_decode0(cpu: CpuView, op: u8)
    requires
        op < 0x40,
    ensures
        cycles(cpu, op) == block0_cycles(
            ((op / 8) % 8) as u8,
            (op % 8) as u8,
            op % 8 == 0 && (op / 8) % 8 >= 4 ==> condition(
                cpu.registers.flags,
                (((op / 8) % 8) % 4) as u8,
            ),
        ),
{
}

fn execute_block0(cpu: &mut Cpu, y: u8, z: u8) -> (ticks: usize)
    requires
        old(cpu)@.wf(),
        y < 8,
        z < 8,
    ensures
        final(cpu)@ == block0(old(cpu)@, y, z),
        final(cpu)@.wf(),
        ticks == block0_cycles(
            y,
            z,
            z == 0 && y >= 4 ==> condition(old(cpu)@.registers.flags, (y % 4) as u8),
        ),
{
    reveal(block0);
    if z == 0 {
        execute_control0(cpu, y)
    } else if z == 1 {
        execute_pair_load_add(cpu, y)
    } else if z == 2 {
        execute_indirect_load(cpu, y)
    } else if z == 3 {
        execute_pair_step(cpu, y)
    } else if z == 4 {
        execute_step(cpu, y, Operation8::Inc)
    } else if z == 5 {
        execute_step(cpu, y, Operation8::Dec)
    } else if z == 6 {
        execute_load_immediate(cpu, y)
    } else {
        execute_accumulator(cpu, y)
    }
}

fn execute_accumulator(cpu: &mut Cpu, y: u8) -> (ticks: usize)
    requires
        old(cpu)@.wf(),
    ensures
        final(cpu)@ == old(cpu)@.with_registers(accumulator_result(y, old(cpu)@.registers)),
        final(cpu)@.wf(),
        ticks == 4,
{
    let mut registers: Registers = cpu.registers();
    apply_accumulator(&mut registers, y);
    cpu.set_registers(registers);
    4
}

fn execute_step(cpu: &mut Cpu, y: u8, op: Operation8) -> (ticks: usize)
    requires
        old(cpu)@.wf(),
        y < 8,
    ensures
        final(cpu)@ == old(cpu)@.unary_on(op, operand_of(y)),
        final(cpu)@.wf(),
        ticks == block0_cycles(y, 4, true),
{
    cpu.execute_on(op, decode_operand(y));
    if y == 6 {
        12
    } else {
        4
    }
}

fn execute_load_immediate(cpu: &mut Cpu, y: u8) -> (ticks: usize)
    requires
        old(cpu)@.wf(),
        y < 8,
    ensures
        final(cpu)@ == old(cpu)@.skip(1).with_operand(operand_of(y), old(cpu)@.imm8()),
        final(cpu)@.wf(),
        ticks == block0_cycles(y, 6, true),
{
    let next_byte: u8 = cpu.fetch_byte();
    cpu.write_operand(decode_operand(y), next_byte);
    if y == 6 {
        12
    } else {
        8
    }
}

fn execute_load(cpu: &mut Cpu, y: u8, z: u8) -> (ticks: usize)
    requires
        old(cpu)@.wf(),
        y < 8,
        z < 8,
    ensures
        final(cpu)@ == load_block(old(cpu)@, y, z),
        final(cpu)@.wf(),
        ticks == load_cycles(y, z),
{
    reveal(load_block);
    if y == 6 && z == 6 {
        cpu.set_halted(true);
        4
    } else {
        let value: u8 = cpu.read_operand(decode_operand(z));
        cpu.write_operand(decode_operand(y), value);
        if y == 6 || z == 6 {
            8
        } else {
            4
        }
    }
}

fn execute_control3(cpu: &mut Cpu, y: u8) -> (ticks: usize)
    requires
        old(cpu)@.wf(),
        y < 8,
    ensures
        final(cpu)@ == control3(old(cpu)@, y),
        final(cpu)@.wf(),
        ticks == block3_cycles(y, 0, condition(old(cpu)@.registers.flags, y)),
{
    reveal(control3);
    if y < 4 {
        if test_condition(cpu, y) {
            cpu.retrn();
            20
        } else {
            8
        }
    } else if y == 4 {
        let address: u16 = 0xFF00 + cpu.fetch_byte() as u16;
        cpu.write_byte(address, cpu.registers().a);
        12
    } else if y == 5 {
        let offset: u8 = cpu.fetch_byte();
        let mut registers: Registers = cpu.registers();
        apply_add_signed(&mut registers, offset, false);
        cpu.set_registers(registers);
        16
    } else if y == 6 {
        let address: u16 = 0xFF00 + cpu.fetch_byte() as u16;
        let mut registers: Registers = cpu.registers();
        registers.a = cpu.read_byte(address);
        cpu.set_registers(registers);
        12
    } else {
        let offset: u8 = cpu.fetch_byte();
        let mut registers: Registers = cpu.registers();
        apply_add_signed(&mut registers, offset, true);
        cpu.set_registers(registers);
        12
    }
}

fn execute_stack3(cpu: &mut Cpu, y: u8) -> (ticks: usize)
    requires
        old(cpu)@.wf(),
        y < 8,
    ensures
        final(cpu)@ == stack3(old(cpu)@, y),
        final(cpu)@.wf(),
        ticks == block3_cycles(y, 1, true),
{
    reveal(stack3);
    if y % 2 == 0 {
        let value: u16 = cpu.pop();
        let mut registers: Registers = cpu.registers();
        if y == 0 {
            registers.set_bc(value);
        } else if y == 2 {
            registers.set_de(value);
        } else if y == 4 {
            registers.set_hl(value);
        } else {
            registers.set_af(value);
            registers.set_f((value % 256) as u8);
        }
        cpu.set_registers(registers);
        12
    } else if y == 1 {
        cpu.retrn();
        16
    } else if y == 3 {
        cpu.set_interrupts(true, cpu.pending_enable());
        cpu.retrn();
        16
    } else if y == 5 {
        let mut registers: Registers = cpu.registers();
        registers.pc = registers.get_hl();
        cpu.set_registers(registers);
        4
    } else {
        let mut registers: Registers = cpu.registers();
        registers.sp = registers.get_hl();
        cpu.set_registers(registers);
        8
    }
}

fn execute_jump3(cpu: &mut Cpu, y: u8) -> (ticks: usize)
    requires
        old(cpu)@.wf(),
        y < 8,
    ensures
        final(cpu)@ == jump3(old(cpu)@, y),
        final(cpu)@.wf(),
        ticks == block3_cycles(y, 2, condition(old(cpu)@.registers.flags, y)),
{
    reveal(jump3);
    if y < 4 {
        if test_condition(cpu, y) {
            let address: u16 = cpu.fetch_word();
            let mut registers: Registers = cpu.registers();
            registers.pc = address;
            cpu.set_registers(registers);
            16
        } else {
            cpu.fetch_word();
            12
        }
    } else if y == 4 {
        let registers: Registers = cpu.registers();
        cpu.write_byte(0xFF00 + registers.c as u16, registers.a);
        8
    } else if y == 5 {
        let address: u16 = cpu.fetch_word();
        cpu.write_byte(address, cpu.registers().a);
        16
    } else if y == 6 {
        let mut registers: Registers = cpu.registers();
        registers.a = cpu.read_byte(0xFF00 + registers.c as u16);
        cpu.set_registers(registers);
        8
    } else {
        let address: u16 = cpu.fetch_word();
        let mut registers: Registers = cpu.registers();
        registers.a = cpu.read_byte(address);
        cpu.set_registers(registers);
        16
    }
}

fn execute_misc3(cpu: &mut Cpu, y: u8) -> (ticks: usize)
    requires
        old(cpu)@.wf(),
        y == 0 || y == 1 || y == 6 || y == 7,
    ensures
        final(cpu)@ == misc3(old(cpu)@, y),
        final(cpu)@.wf(),
        ticks == (if y == 1 {
            cb_cycles(old(cpu)@.imm8())
        } else {
            block3_cycles(y, 3, true)
        }),
{
    reveal(misc3);
    if y == 0 {
        let address: u16 = cpu.fetch_word();
        let mut registers: Registers = cpu.registers();
        registers.pc = address;
        cpu.set_registers(registers);
        16
    } else if y == 1 {
        let op: u8 = cpu.fetch_byte();
        match crate::cpu::op_codes_cb::execute(op, cpu) {
            OpCodeResult::Executed(ticks) => ticks,
            OpCodeResult::UnknownOpCode => 4,
        }
    } else if y == 6 {
        cpu.set_interrupts(false, 0);
        4
    } else {
        cpu.set_interrupts(cpu.interrupts_enabled(), 2);
        4
    }
}

fn execute_call3(cpu: &mut Cpu, y: u8, z: u8) -> (ticks: usize)
    requires
        old(cpu)@.wf(),
        y < 8,
        z == 4 && y < 4 || z == 5 && (y % 2 == 0 || y == 1),
    ensures
        final(cpu)@ == call3(old(cpu)@, y, z),
        final(cpu)@.wf(),
        ticks == block3_cycles(y, z, z == 5 || condition(old(cpu)@.registers.flags, y)),
{
    reveal(call3);
    if z == 4 {
        if test_condition(cpu, y) {
            let address: u16 = cpu.fetch_word();
            cpu.call(address);
            24
        } else {
            cpu.fetch_word();
            12
        }
    } else if y % 2 == 0 {
        let registers: Registers = cpu.registers();
        let value: u16 = if y == 0 {
            registers.get_bc()
        } else if y == 2 {
            registers.get_de()
        } else if y == 4 {
            registers.get_hl()
        } else {
            registers.get_af()
        };
        cpu.push(value);
        16
    } else {
        let address: u16 = cpu.fetch_word();
        cpu.call(address);
        24
    }
}

/// Whether the opcode of the last quarter that `y` and `z` make up
/// stands for an instruction.
pub open spec fn defined3(y: u8, z: u8) -> bool {
    &&& !(z == 3 && 2 <= y <= 5)
    &&& !(z == 4 && y >= 4)
    &&& !(z == 5 && (y == 3 || y == 5 || y == 7))
}

/// The cycles of the instruction of the last quarter that `y` and `z`
/// make up.
pub open spec fn block3_total(cpu: CpuView, y: u8, z: u8) -> usize {
    if z == 3 && y == 1 {
        cb_cycles(cpu.imm8())
    } else {
        block3_cycles(
            y,
            z,
            (z == 0 || z == 2 || z == 4) && y < 4 ==> condition(cpu.registers.flags, y),
        )
    }
}

/// What the two fields of an opcode of the last quarter say of it.
proof fn lemma_decode3(cpu: CpuView, op: u8)
    requires
        op >= 0xC0,
    ensures
        defined3(((op / 8) % 8) as u8, (op % 8) as u8) <==> !is_undefined(op),
        cycles(cpu, op) == block3_total(cpu, ((op / 8) % 8) as u8, (op % 8) as u8),
{
    let y: u8 = ((op / 8) % 8) as u8;
    let z: u8 = (op % 8) as u8;
    assert(op == 0xC0 + y * 8 + z);
    assert(y < 4 ==> y % 4 == y);
}

fn execute_block3(cpu: &mut Cpu, y: u8, z: u8) -> (ticks: usize)
    requires
        old(cpu)@.wf(),
        y < 8,
        z < 8,
        defined3(y, z),
    ensures
        final(cpu)@ == block3(old(cpu)@, y, z),
        final(cpu)@.wf(),
        ticks == block3_total(old(cpu)@, y, z),
{
    reveal(block3);
    if z == 0 {
        execute_control3(cpu, y)
    } else if z == 1 {
        execute_stack3(cpu, y)
    } else if z == 2 {
        execute_jump3(cpu, y)
    } else if z == 3 {
        execute_misc3(cpu, y)
    } else if z == 4 || z == 5 {
        execute_call3(cpu, y, z)
    } else if z == 6 {
        execute_alu_immediate(cpu, y)
    } else {
        cpu.call((y as u16) * 8);
        16
    }
}

fn execute_alu_immediate(cpu: &mut Cpu, y: u8) -> (ticks: usize)
    requires
        old(cpu)@.wf(),
    ensures
        final(cpu)@ == old(cpu)@.skip(1).binary(alu_of(y), old(cpu)@.imm8()),
        final(cpu)@.wf(),
        ticks == 8,
{
    let next_byte: u8 = cpu.fetch_byte();
    cpu.execute_binary_with_value(decode_alu(y), next_byte);
    8
}

fn execute_alu(cpu: &mut Cpu, y: u8, z: u8) -> (ticks: usize)
    requires
        old(cpu)@.wf(),
    ensures
        final(cpu)@ == old(cpu)@.binary(alu_of(y), old(cpu)@.operand(operand_of(z))),
        final(cpu)@.wf(),
        ticks == (if z == 6 {
            8usize
        } else {
            4usize
        }),
{
    let value: u8 = cpu.read_operand(decode_operand(z));
    cpu.execute_binary_with_value(decode_alu(y), value);
    if z == 6 {
        8
    } else {
        4
    }
}

/// Whether an opcode stands for no instruction.
pub fn undefined(op_code: u8) -> (b: bool)
    ensures
        b == is_undefined(op_code),
{
    op_code == 0xD3 || op_code == 0xDB || op_code == 0xDD || op_code == 0xE3 || op_code == 0xE4
        || op_code == 0xEB || op_code == 0xEC || op_code == 0xED || op_code == 0xF4 || op_code
        == 0xFC || op_code == 0xFD
}

/// Executes the instruction with the given opcode on a processor whose
/// program counter is behind the opcode. An undefined opcode changes
/// nothing.
pub fn execute(op_code: u8, cpu: &mut Cpu) -> (result: OpCodeResult)
    requires
        old(cpu)@.wf(),
    ensures
        final(cpu)@.wf(),
        is_undefined(op_code) ==> result == OpCodeResult::UnknownOpCode && final(cpu)@ == old(cpu)@,
        !is_undefined(op_code) ==> result == OpCodeResult::Executed(cycles(old(cpu)@, op_code))
            && final(cpu)@ == executed(old(cpu)@, op_code),
{
    if undefined(op_code) {
        return OpCodeResult::UnknownOpCode;
    }
    let y: u8 = (op_code / 8) % 8;
    let z: u8 = op_code % 8;
    let ticks: usize = if op_code < 0x40 {
        proof {
            lemma_decode0(cpu@, op_code);
        }
        execute_block0(cpu, y, z)
    } else if op_code < 0x80 {
        execute_load(cpu, y, z)
    } else if op_code < 0xC0 {
        execute_alu(cpu, y, z)
    } else {
        proof {
            lemma_decode3(cpu@, op_code);
        }
        execute_block3(cpu, y, z)
    };
    OpCodeResult::Executed(ticks)
}

} // verus!
