use vstd::prelude::*;
use crate::cpu::alu::{Operation8, bit_is_set, res8, reset_bit, set8, set_bit};
use crate::cpu::registers::{FlagRegister, Registers};
use crate::cpu::{Cpu, CpuView, OpCodeResult, decode_operand, operand_of};

verus! {

/// The shift or rotate that three bits of a prefixed opcode name.
pub open spec fn rotation_of(code: u8) -> Operation8 {
    if code == 0 {
        Operation8::Rlc
    } else if code == 1 {
        Operation8::Rrc
    } else if code == 2 {
        Operation8::Rl
    } else if code == 3 {
        Operation8::Rr
    } else if code == 4 {
        Operation8::Sla
    } else if code == 5 {
        Operation8::Sra
    } else if code == 6 {
        Operation8::Swap
    } else {
        Operation8::Srl
    }
}

fn decode_rotation(code: u8) -> (op: Operation8)
    ensures
        op == rotation_of(code),
{
    if code == 0 {
        Operation8::Rlc
    } else if code == 1 {
        Operation8::Rrc
    } else if code == 2 {
        Operation8::Rl
    } else if code == 3 {
        Operation8::Rr
    } else if code == 4 {
        Operation8::Sla
    } else if code == 5 {
        Operation8::Sra
    } else if code == 6 {
        Operation8::Swap
    } else {
        Operation8::Srl
    }
}

/// The processor after a prefixed instruction. The two high bits of the
/// opcode choose between the shifts and rotates, BIT, RES and SET; the
/// next three name the shift or the bit, the low three the operand.
#[verifier::opaque]
pub open spec fn cb_executed(cpu: CpuView, op: u8) -> CpuView {
    let y: u8 = (op / 8) % 8;
    let operand = operand_of(op % 8);
    if op < 0x40 {
        cpu.unary_on(rotation_of(y), operand)
    } else if op < 0x80 {
        cpu.with_registers(
            Registers {
                flags: FlagRegister {
                    z: !bit_is_set(cpu.operand(operand), y),
                    n: false,
                    h: true,
                    ..cpu.registers.flags
                },
                ..cpu.registers
            },
        )
    } else if op < 0xC0 {
        cpu.with_operand(operand, res8(cpu.operand(operand), y))
    } else {
        cpu.with_operand(operand, set8(cpu.operand(operand), y))
    }
}

/// The cycles of a prefixed instruction, the prefix included: 8 on a
/// register; on the byte at HL 12 for BIT and 16 for the others.
pub open spec fn cb_cycles(op: u8) -> usize {
    if op % 8 == 6 {
        if 0x40 <= op < 0x80 {
            12
        } else {
            16
        }
    } else {
        8
    }
}

/// Executes the instruction that follows the prefix 0xCB.
pub fn execute(op_code: u8, cpu: &mut Cpu) -> (result: OpCodeResult)
    requires
        old(cpu)@.wf(),
    ensures
        result == OpCodeResult::Executed(cb_cycles(op_code)),
        final(cpu)@ == cb_executed(old(cpu)@, op_code),
        final(cpu)@.wf(),
{
    reveal(cb_executed);
    let y: u8 = (op_code / 8) % 8;
    let z: u8 = op_code % 8;
    let operand = decode_operand(z);
    if op_code < 0x40 {
        cpu.execute_on(decode_rotation(y), operand);
    } else if op_code < 0x80 {
        let value: u8 = cpu.read_operand(operand);
        let mut registers: Registers = cpu.registers();
        crate::cpu::alu::bit(&mut registers, y, value);
        cpu.set_registers(registers);
    } else if op_code < 0xC0 {
        let value: u8 = cpu.read_operand(operand);
        cpu.write_operand(operand, reset_bit(y, value));
    } else {
        let value: u8 = cpu.read_operand(operand);
        cpu.write_operand(operand, set_bit(y, value));
    }
    let cycles: usize = if z == 6 {
        if 0x40 <= op_code && op_code < 0x80 {
            12
        } else {
            16
        }
    } else {
        8
    };
    OpCodeResult::Executed(cycles)
}

} // verus!
