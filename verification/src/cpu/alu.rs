use vstd::prelude::*;
use crate::cpu::registers::{CpuFlag, FlagRegister, RegisterName8, Registers};

verus! {

/// A unary operation on one byte that also sets the flags.
#[derive(Debug, Copy, Clone, PartialEq, Eq, Structural)]
pub enum Operation8 {
    Inc,
    Dec,
    Rlc,
    Rrc,
    Rl,
    Rr,
    Sla,
    Sra,
    Swap,
    Srl,
}

/// An operation of the accumulator with a second value.
#[derive(Debug, Copy, Clone, PartialEq, Eq, Structural)]
pub enum AluOp {
    Add,
    Adc,
    Sub,
    Sbc,
    And,
    Xor,
    Or,
    Cp,
}

/// The registers after an operation of the accumulator with `value`.
pub open spec fn alu_result(op: AluOp, r: Registers, value: u8) -> Registers {
    match op {
        AluOp::Add => Registers {
            a: add8(r.a, value, false),
            flags: add8_flags(r.a, value, false),
            ..r
        },
        AluOp::Adc => Registers {
            a: add8(r.a, value, r.flags.c),
            flags: add8_flags(r.a, value, r.flags.c),
            ..r
        },
        AluOp::Sub => Registers {
            a: sub8(r.a, value, false),
            flags: sub8_flags(r.a, value, false),
            ..r
        },
        AluOp::Sbc => Registers {
            a: sub8(r.a, value, r.flags.c),
            flags: sub8_flags(r.a, value, r.flags.c),
            ..r
        },
        AluOp::And => Registers {
            a: r.a & value,
            flags: FlagRegister { z: r.a & value == 0, n: false, h: true, c: false },
            ..r
        },
        AluOp::Xor => Registers {
            a: r.a ^ value,
            flags: FlagRegister { z: r.a ^ value == 0, n: false, h: false, c: false },
            ..r
        },
        AluOp::Or => Registers {
            a: r.a | value,
            flags: FlagRegister { z: r.a | value == 0, n: false, h: false, c: false },
            ..r
        },
        AluOp::Cp => Registers { flags: sub8_flags(r.a, value, false), ..r },
    }
}

/// Applies an operation of the accumulator with `value`.
pub fn apply_alu(registers: &mut Registers, op: AluOp, value: u8)
    ensures
        *final(registers) == alu_result(op, *old(registers), value),
{
    match op {
        AluOp::Add => addv(registers, value),
        AluOp::Adc => adc(registers, value),
        AluOp::Sub => self::sub(registers, value),
        AluOp::Sbc => sbc(registers, value),
        AluOp::And => andv(registers, value),
        AluOp::Xor => xor(registers, value),
        AluOp::Or => or(registers, value),
        AluOp::Cp => cp(registers, value),
    }
}

/// The registers after `value` was added to HL.
pub open spec fn add16_registers(r: Registers, value: u16) -> Registers {
    (Registers { flags: add16_flags(r.flags, r.hl(), value), ..r }).with_hl(
        add16_result(r.hl(), value),
    )
}

/// The registers after one of the eight operations on the accumulator and
/// the flags that take no operand: the four rotates of A that leave Z
/// cleared, DAA, CPL, SCF and CCF, in this order.
pub open spec fn accumulator_result(code: u8, r: Registers) -> Registers {
    if code == 0 {
        Registers { a: rlc8(r.a), flags: shift_flags_without_z(r.a >= 128), ..r }
    } else if code == 1 {
        Registers { a: rrc8(r.a), flags: shift_flags_without_z(r.a % 2 == 1), ..r }
    } else if code == 2 {
        Registers { a: rl8(r.a, r.flags.c), flags: shift_flags_without_z(r.a >= 128), ..r }
    } else if code == 3 {
        Registers { a: rr8(r.a, r.flags.c), flags: shift_flags_without_z(r.a % 2 == 1), ..r }
    } else if code == 4 {
        Registers { a: daa_result(r.flags, r.a), flags: daa_flags(r.flags, r.a), ..r }
    } else if code == 5 {
        Registers { a: (255 - r.a) as u8, flags: FlagRegister { n: true, h: true, ..r.flags }, ..r }
    } else if code == 6 {
        Registers { flags: FlagRegister { n: false, h: false, c: true, ..r.flags }, ..r }
    } else {
        Registers { flags: FlagRegister { n: false, h: false, c: !r.flags.c, ..r.flags }, ..r }
    }
}

/// Applies one of the eight operations that take no operand.
pub fn apply_accumulator(registers: &mut Registers, code: u8)
    ensures
        *final(registers) == accumulator_result(code, *old(registers)),
{
    let a: u8 = registers.a;
    if code == 0 {
        let result: u8 = rlca(registers, a);
        registers.a = result;
    } else if code == 1 {
        let result: u8 = rrca(registers, a);
        registers.a = result;
    } else if code == 2 {
        let result: u8 = rla(registers, a);
        registers.a = result;
    } else if code == 3 {
        let result: u8 = rra(registers, a);
        registers.a = result;
    } else if code == 4 {
        daa(registers);
    } else if code == 5 {
        cpl(registers);
    } else if code == 6 {
        scf(registers);
    } else {
        ccf(registers);
    }
}

/// The registers after a sign-extended byte was added to SP. With `to_hl`
/// the sum goes to HL, else to SP itself.
pub open spec fn add_signed_registers(r: Registers, byte: u8, to_hl: bool) -> Registers {
    let flagged = Registers { flags: add_signed_flags(r.sp, sign_extend(byte)), ..r };
    if to_hl {
        flagged.with_hl(add16_result(r.sp, sign_extend(byte)))
    } else {
        Registers { sp: add16_result(r.sp, sign_extend(byte)), ..flagged }
    }
}

/// Adds a sign-extended byte to SP and stores the sum in HL or in SP.
pub fn apply_add_signed(registers: &mut Registers, byte: u8, to_hl: bool)
    ensures
        *final(registers) == add_signed_registers(*old(registers), byte, to_hl),
{
    let value1: u16 = registers.sp;
    let value2: u16 = signed_byte_to_word(byte);
    let result: u16 = add_next_signed_byte_to_word(registers, value1, value2);
    if to_hl {
        registers.set_hl(result);
    } else {
        registers.sp = result;
    }
}

/// The carry as a number.
pub open spec fn carry_of(c: bool) -> int {
    if c {
        1
    } else {
        0
    }
}

/// `a + b + c` modulo 256.
pub open spec fn add8(a: u8, b: u8, c: bool) -> u8 {
    ((a + b + carry_of(c)) % 256) as u8
}

/// The flags of an 8-bit addition: H is the carry out of bit 3, C the carry
/// out of bit 7.
pub open spec fn add8_flags(a: u8, b: u8, c: bool) -> FlagRegister {
    FlagRegister {
        z: add8(a, b, c) == 0,
        n: false,
        h: (a % 16) + (b % 16) + carry_of(c) > 15,
        c: a + b + carry_of(c) > 255,
    }
}

/// `a - b - c` modulo 256.
pub open spec fn sub8(a: u8, b: u8, c: bool) -> u8 {
    ((a - b - carry_of(c)) % 256) as u8
}

/// The flags of an 8-bit subtraction: H is the borrow from bit 4, C the
/// borrow from bit 8.
pub open spec fn sub8_flags(a: u8, b: u8, c: bool) -> FlagRegister {
    FlagRegister {
        z: sub8(a, b, c) == 0,
        n: true,
        h: (a % 16) < (b % 16) + carry_of(c),
        c: a < b + carry_of(c),
    }
}

pub open spec fn inc8(value: u8) -> u8 {
    ((value + 1) % 256) as u8
}

pub open spec fn inc8_flags(flags: FlagRegister, value: u8) -> FlagRegister {
    FlagRegister { z: inc8(value) == 0, n: false, h: value % 16 == 15, c: flags.c }
}

pub open spec fn dec8(value: u8) -> u8 {
    ((value - 1) % 256) as u8
}

pub open spec fn dec8_flags(flags: FlagRegister, value: u8) -> FlagRegister {
    FlagRegister { z: dec8(value) == 0, n: true, h: value % 16 == 0, c: flags.c }
}

/// `a + b` modulo 65536.
pub open spec fn add16_result(a: u16, b: u16) -> u16 {
    ((a + b) % 0x10000) as u16
}

/// The flags of a 16-bit addition into HL: H is the carry out of bit 11, C
/// the carry out of bit 15, Z is kept.
pub open spec fn add16_flags(flags: FlagRegister, a: u16, b: u16) -> FlagRegister {
    FlagRegister { z: flags.z, n: false, h: (a % 0x1000) + (b % 0x1000) > 0x0FFF, c: a + b > 0xFFFF }
}

/// A byte read as a signed number and widened to a word.
pub open spec fn sign_extend(byte: u8) -> u16 {
    if byte < 0x80 {
        byte as u16
    } else {
        (0xFF00 + byte) as u16
    }
}

/// The flags of adding a sign-extended byte to a word: H and C are the
/// carries out of bit 3 and bit 7 of the low bytes.
pub open spec fn add_signed_flags(a: u16, b: u16) -> FlagRegister {
    FlagRegister {
        z: false,
        n: false,
        h: (a % 16) + (b % 16) > 15,
        c: (a % 256) + (b % 256) > 255,
    }
}

/// The correction that DAA applies to A.
pub open spec fn daa_adjust(flags: FlagRegister, a: u8) -> u8 {
    let low: int = if flags.h || (!flags.n && a % 16 > 9) {
        0x06
    } else {
        0
    };
    let high: int = if flags.c || (!flags.n && a > 0x99) {
        0x60
    } else {
        0
    };
    (low + high) as u8
}

/// A after DAA: the correction is added after an addition and subtracted
/// after a subtraction.
pub open spec fn daa_result(flags: FlagRegister, a: u8) -> u8 {
    if flags.n {
        ((a - daa_adjust(flags, a)) % 256) as u8
    } else {
        ((a + daa_adjust(flags, a)) % 256) as u8
    }
}

pub open spec fn daa_flags(flags: FlagRegister, a: u8) -> FlagRegister {
    FlagRegister {
        z: daa_result(flags, a) == 0,
        n: flags.n,
        h: false,
        c: daa_adjust(flags, a) >= 0x60,
    }
}

/// The flags after a shift or rotate that sets Z.
pub open spec fn shift_flags(result: u8, new_carry: bool) -> FlagRegister {
    FlagRegister { z: result == 0, n: false, h: false, c: new_carry }
}

/// The flags after a rotate of A, which leaves Z cleared.
pub open spec fn shift_flags_without_z(new_carry: bool) -> FlagRegister {
    FlagRegister { z: false, n: false, h: false, c: new_carry }
}

/// Rotate left through the carry.
pub open spec fn rl8(value: u8, c: bool) -> u8 {
    ((value % 128) * 2 + carry_of(c)) as u8
}

/// Rotate left: bit 7 goes to bit 0.
pub open spec fn rlc8(value: u8) -> u8 {
    ((value % 128) * 2 + value / 128) as u8
}

/// Rotate right through the carry.
pub open spec fn rr8(value: u8, c: bool) -> u8 {
    (value / 2 + 128 * carry_of(c)) as u8
}

/// Rotate right: bit 0 goes to bit 7.
pub open spec fn rrc8(value: u8) -> u8 {
    (value / 2 + 128 * (value % 2)) as u8
}

/// Shift left; bit 0 becomes 0.
pub open spec fn sla8(value: u8) -> u8 {
    ((value % 128) * 2) as u8
}

/// Shift right; bit 7 keeps its value.
pub open spec fn sra8(value: u8) -> u8 {
    (value / 2 + 128 * (value / 128)) as u8
}

/// Shift right; bit 7 becomes 0.
pub open spec fn srl8(value: u8) -> u8 {
    value / 2
}

/// The two nibbles exchanged.
pub open spec fn swap8(value: u8) -> u8 {
    ((value % 16) * 16 + value / 16) as u8
}

/// Whether bit `bit` of `value` is set.
pub open spec fn bit_is_set(value: u8, bit: u8) -> bool {
    value & (1u8 << bit) != 0
}

/// The byte that a unary operation yields.
pub open spec fn op8_result(op: Operation8, flags: FlagRegister, value: u8) -> u8 {
    match op {
        Operation8::Inc => inc8(value),
        Operation8::Dec => dec8(value),
        Operation8::Rlc => rlc8(value),
        Operation8::Rrc => rrc8(value),
        Operation8::Rl => rl8(value, flags.c),
        Operation8::Rr => rr8(value, flags.c),
        Operation8::Sla => sla8(value),
        Operation8::Sra => sra8(value),
        Operation8::Swap => swap8(value),
        Operation8::Srl => srl8(value),
    }
}

/// The flags that a unary operation leaves.
pub open spec fn op8_flags(op: Operation8, flags: FlagRegister, value: u8) -> FlagRegister {
    match op {
        Operation8::Inc => inc8_flags(flags, value),
        Operation8::Dec => dec8_flags(flags, value),
        Operation8::Rlc => shift_flags(rlc8(value), value >= 128),
        Operation8::Rrc => shift_flags(rrc8(value), value % 2 == 1),
        Operation8::Rl => shift_flags(rl8(value, flags.c), value >= 128),
        Operation8::Rr => shift_flags(rr8(value, flags.c), value % 2 == 1),
        Operation8::Sla => shift_flags(sla8(value), value >= 128),
        Operation8::Sra => shift_flags(sra8(value), value % 2 == 1),
        Operation8::Swap => shift_flags(swap8(value), false),
        Operation8::Srl => shift_flags(srl8(value), value % 2 == 1),
    }
}

/// Applies a unary operation to a byte and sets the flags.
pub fn apply8(registers: &mut Registers, op: Operation8, value: u8) -> (result: u8)
    ensures
        result == op8_result(op, old(registers).flags, value),
        *final(registers) == (Registers {
            flags: op8_flags(op, old(registers).flags, value),
            ..*old(registers)
        }),
{
    match op {
        Operation8::Inc => incv(registers, value),
        Operation8::Dec => decv(registers, value),
        Operation8::Rlc => rlcv(registers, value),
        Operation8::Rrc => rrc(registers, value),
        Operation8::Rl => rl(registers, value),
        Operation8::Rr => rr(registers, value),
        Operation8::Sla => sla(registers, value),
        Operation8::Sra => sra(registers, value),
        Operation8::Swap => swap(registers, value),
        Operation8::Srl => srl(registers, value),
    }
}

/// Applies a unary operation to a register in place.
fn execute8(registers: &mut Registers, name: RegisterName8, op: Operation8)
    ensures
        *final(registers) == (Registers {
            flags: op8_flags(op, old(registers).flags, old(registers).reg(name)),
            ..*old(registers)
        }).with_reg(name, op8_result(op, old(registers).flags, old(registers).reg(name))),
{
    let value: u8 = registers.get(name);
    let result: u8 = apply8(registers, op, value);
    registers.set(name, result);
}

/// A := A AND the register.
pub fn and(registers: &mut Registers, name: RegisterName8)
    ensures
        *final(registers) == (Registers {
            a: old(registers).a & old(registers).reg(name),
            flags: FlagRegister {
                z: old(registers).a & old(registers).reg(name) == 0,
                n: false,
                h: true,
                c: false,
            },
            ..*old(registers)
        }),
{
    let value: u8 = registers.get(name);
    andv(registers, value)
}

/// A := A AND `value`.
pub fn andv(registers: &mut Registers, value: u8)
    ensures
        *final(registers) == (Registers {
            a: old(registers).a & value,
            flags: FlagRegister { z: old(registers).a & value == 0, n: false, h: true, c: false },
            ..*old(registers)
        }),
{
    registers.a = registers.a & value;
    registers.reset_flags();
    registers.set_flag(CpuFlag::Z, registers.a == 0x00);
    registers.set_flag(CpuFlag::H, true);
}

/// A := A OR `value`.
pub fn or(registers: &mut Registers, value: u8)
    ensures
        *final(registers) == (Registers {
            a: old(registers).a | value,
            flags: FlagRegister { z: old(registers).a | value == 0, n: false, h: false, c: false },
            ..*old(registers)
        }),
{
    registers.a = registers.a | value;
    registers.reset_flags();
    registers.set_flag(CpuFlag::Z, registers.a == 0);
}

/// A := A XOR `value`.
pub fn xor(registers: &mut Registers, value: u8)
    ensures
        *final(registers) == (Registers {
            a: old(registers).a ^ value,
            flags: FlagRegister { z: old(registers).a ^ value == 0, n: false, h: false, c: false },
            ..*old(registers)
        }),
{
    registers.a = registers.a ^ value;
    registers.reset_flags();
    registers.set_flag(CpuFlag::Z, registers.a == 0);
}

/// A := the complement of A.
pub fn cpl(registers: &mut Registers)
    ensures
        *final(registers) == (Registers {
            a: (255 - old(registers).a) as u8,
            flags: FlagRegister { n: true, h: true, ..old(registers).flags },
            ..*old(registers)
        }),
{
    registers.a = 255 - registers.a;
    registers.set_flag(CpuFlag::N, true);
    registers.set_flag(CpuFlag::H, true);
}

/// Increments a register.
pub fn inc(registers: &mut Registers, name: RegisterName8)
    ensures
        *final(registers) == (Registers {
            flags: inc8_flags(old(registers).flags, old(registers).reg(name)),
            ..*old(registers)
        }).with_reg(name, inc8(old(registers).reg(name))),
{
    execute8(registers, name, Operation8::Inc);
}

/// `value + 1` with the flags of an increment; the carry is kept.
pub fn incv(registers: &mut Registers, value: u8) -> (result: u8)
    ensures
        result == inc8(value),
        *final(registers) == (Registers {
            flags: inc8_flags(old(registers).flags, value),
            ..*old(registers)
        }),
{
    let result: u8 = value.wrapping_add(1);
    registers.set_flag(CpuFlag::Z, result == 0);
    registers.set_flag(CpuFlag::N, false);
    registers.set_flag(CpuFlag::H, value % 16 == 15);
    result
}

/// Decrements a register.
pub fn dec(registers: &mut Registers, name: RegisterName8)
    ensures
        *final(registers) == (Registers {
            flags: dec8_flags(old(registers).flags, old(registers).reg(name)),
            ..*old(registers)
        }).with_reg(name, dec8(old(registers).reg(name))),
{
    execute8(registers, name, Operation8::Dec);
}

/// `value - 1` with the flags of a decrement; the carry is kept.
pub fn decv(registers: &mut Registers, value: u8) -> (result: u8)
    ensures
        result == dec8(value),
        *final(registers) == (Registers {
            flags: dec8_flags(old(registers).flags, value),
            ..*old(registers)
        }),
{
    let result: u8 = value.wrapping_sub(1);
    registers.set_flag(CpuFlag::Z, result == 0);
    registers.set_flag(CpuFlag::N, true);
    registers.set_flag(CpuFlag::H, value % 16 == 0);
    result
}

/// A := A + the register.
pub fn add(registers: &mut Registers, name: RegisterName8)
    ensures
        *final(registers) == (Registers {
            a: add8(old(registers).a, old(registers).reg(name), false),
            flags: add8_flags(old(registers).a, old(registers).reg(name), false),
            ..*old(registers)
        }),
{
    let value: u8 = registers.get(name);
    addv(registers, value)
}

fn add_with_carry(registers: &mut Registers, value: u8, c: bool)
    ensures
        *final(registers) == (Registers {
            a: add8(old(registers).a, value, c),
            flags: add8_flags(old(registers).a, value, c),
            ..*old(registers)
        }),
{
    let a: u8 = registers.a;
    let carry: u16 = if c { 1 } else { 0 };
    let sum: u16 = a as u16 + value as u16 + carry;
    let result: u8 = (sum % 256) as u8;
    registers.set_flag(CpuFlag::Z, result == 0);
    registers.set_flag(CpuFlag::N, false);
    registers.set_flag(CpuFlag::H, (a % 16) as u16 + (value % 16) as u16 + carry > 15);
    registers.set_flag(CpuFlag::C, sum > 255);
    registers.a = result;
}

fn sub_with_carry(registers: &mut Registers, value: u8, c: bool)
    ensures
        *final(registers) == (Registers {
            a: sub8(old(registers).a, value, c),
            flags: sub8_flags(old(registers).a, value, c),
            ..*old(registers)
        }),
{
    let a: u8 = registers.a;
    let carry: u16 = if c { 1 } else { 0 };
    let subtrahend: u16 = value as u16 + carry;
    let result: u8 = ((256 + a as u16 - subtrahend) % 256) as u8;
    registers.set_flag(CpuFlag::Z, result == 0);
    registers.set_flag(CpuFlag::N, true);
    registers.set_flag(CpuFlag::H, ((a % 16) as u16) < (value % 16) as u16 + carry);
    registers.set_flag(CpuFlag::C, (a as u16) < subtrahend);
    registers.a = result;
}

/// A := A + `value`.
pub fn addv(registers: &mut Registers, value: u8)
    ensures
        *final(registers) == (Registers {
            a: add8(old(registers).a, value, false),
            flags: add8_flags(old(registers).a, value, false),
            ..*old(registers)
        }),
{
    add_with_carry(registers, value, false);
}

/// HL := HL + `value`.
pub fn add16(registers: &mut Registers, value: u16)
    ensures
        *final(registers) == (Registers {
            flags: add16_flags(old(registers).flags, old(registers).hl(), value),
            ..*old(registers)
        }).with_hl(add16_result(old(registers).hl(), value)),
{
    let hl: u16 = registers.get_hl();
    let sum: u32 = hl as u32 + value as u32;
    let result: u16 = (sum % 0x10000) as u16;
    registers.set_flag(CpuFlag::N, false);
    registers.set_flag(CpuFlag::H, (hl % 0x1000) as u32 + (value % 0x1000) as u32 > 0x0FFF);
    registers.set_flag(CpuFlag::C, sum > 0xFFFF);
    registers.set_hl(result);
}

/// A := A + `value` + the carry flag.
pub fn adc(registers: &mut Registers, value: u8)
    ensures
        *final(registers) == (Registers {
            a: add8(old(registers).a, value, old(registers).flags.c),
            flags: add8_flags(old(registers).a, value, old(registers).flags.c),
            ..*old(registers)
        }),
{
    let c: bool = registers.get_flag(CpuFlag::C);
    add_with_carry(registers, value, c);
}

/// A := A - `value`.
pub fn sub(registers: &mut Registers, value: u8)
    ensures
        *final(registers) == (Registers {
            a: sub8(old(registers).a, value, false),
            flags: sub8_flags(old(registers).a, value, false),
            ..*old(registers)
        }),
{
    sub_with_carry(registers, value, false);
}

/// A := A - `value` - the carry flag.
pub fn sbc(registers: &mut Registers, value: u8)
    ensures
        *final(registers) == (Registers {
            a: sub8(old(registers).a, value, old(registers).flags.c),
            flags: sub8_flags(old(registers).a, value, old(registers).flags.c),
            ..*old(registers)
        }),
{
    let c: bool = registers.get_flag(CpuFlag::C);
    sub_with_carry(registers, value, c);
}

/// Compares A with `value`: the flags of A - `value`, A unchanged.
pub fn cp(registers: &mut Registers, value: u8)
    ensures
        *final(registers) == (Registers {
            flags: sub8_flags(old(registers).a, value, false),
            ..*old(registers)
        }),
{
    let temp: u8 = registers.a;
    self::sub(registers, value);
    registers.a = temp;
}

/// Exchanges the nibbles of `value`.
pub fn swap(registers: &mut Registers, value: u8) -> (result: u8)
    ensures
        result == swap8(value),
        *final(registers) == (Registers { flags: shift_flags(swap8(value), false), ..*old(registers) }),
{
    registers.reset_flags();
    registers.set_flag(CpuFlag::Z, value == 0);
    (value % 16) * 16 + value / 16
}

/// Widens a signed byte to a word.
pub fn signed_byte_to_word(byte: u8) -> (w: u16)
    ensures
        w == sign_extend(byte),
{
    if byte < 0x80 {
        byte as u16
    } else {
        0xFF00 + byte as u16
    }
}

/// `value1 + value2` modulo 65536, where `value2` is a sign-extended byte.
/// Z and N are cleared; H and C come from the low bytes.
pub fn add_next_signed_byte_to_word(registers: &mut Registers, value1: u16, value2: u16) -> (result:
    u16)
    ensures
        result == add16_result(value1, value2),
        *final(registers) == (Registers {
            flags: add_signed_flags(value1, value2),
            ..*old(registers)
        }),
{
    registers.reset_flags();
    registers.set_flag(CpuFlag::H, (value1 % 16) + (value2 % 16) > 15);
    registers.set_flag(CpuFlag::C, (value1 % 256) + (value2 % 256) > 255);
    ((value1 as u32 + value2 as u32) % 0x10000) as u16
}

/// Adjusts A to packed decimal after an addition or a subtraction.
pub fn daa(registers: &mut Registers)
    ensures
        *final(registers) == (Registers {
            a: daa_result(old(registers).flags, old(registers).a),
            flags: daa_flags(old(registers).flags, old(registers).a),
            ..*old(registers)
        }),
{
    let a: u8 = registers.a;
    let flags: FlagRegister = registers.flags;
    let low: u8 = if flags.h || (!flags.n && a % 16 > 9) { 0x06 } else { 0 };
    let high: u8 = if flags.c || (!flags.n && a > 0x99) { 0x60 } else { 0 };
    let adjust: u8 = low + high;
    let result: u8 = if flags.n {
        ((256 + a as u16 - adjust as u16) % 256) as u8
    } else {
        ((a as u16 + adjust as u16) % 256) as u8
    };
    *registers = Registers {
        a: result,
        flags: FlagRegister { z: result == 0, n: flags.n, h: false, c: adjust >= 0x60 },
        ..*registers
    };
}

/// Sets the flags after a shift or rotate: Z from the result, C as given,
/// N and H cleared.
pub fn shift_operation_flag_update(registers: &mut Registers, result: u8, new_carry: bool)
    ensures
        *final(registers) == (Registers { flags: shift_flags(result, new_carry), ..*old(registers) }),
{
    registers.reset_flags();
    registers.set_flag(CpuFlag::Z, result == 0);
    registers.set_flag(CpuFlag::C, new_carry);
}

fn shift_operation_flag_update_without_z(registers: &mut Registers, new_carry: bool)
    ensures
        *final(registers) == (Registers {
            flags: shift_flags_without_z(new_carry),
            ..*old(registers)
        }),
{
    registers.reset_flags();
    registers.set_flag(CpuFlag::C, new_carry);
}

fn rotate_left_through_carry(value: u8, c: bool) -> (result: u8)
    ensures
        result == rl8(value, c),
{
    let carry: u8 = if c { 1 } else { 0 };
    (value % 128) * 2 + carry
}

fn rotate_left(value: u8) -> (result: u8)
    ensures
        result == rlc8(value),
{
    (value % 128) * 2 + value / 128
}

fn rotate_right_through_carry(value: u8, c: bool) -> (result: u8)
    ensures
        result == rr8(value, c),
{
    let carry: u8 = if c { 128 } else { 0 };
    value / 2 + carry
}

fn rotate_right(value: u8) -> (result: u8)
    ensures
        result == rrc8(value),
{
    value / 2 + 128 * (value % 2)
}

/// Rotates `value` left through the carry.
pub fn rl(registers: &mut Registers, value: u8) -> (result: u8)
    ensures
        result == rl8(value, old(registers).flags.c),
        *final(registers) == (Registers { flags: shift_flags(result, value >= 128), ..*old(registers) }),
{
    let result: u8 = rotate_left_through_carry(value, registers.get_flag(CpuFlag::C));
    shift_operation_flag_update(registers, result, value >= 128);
    result
}

/// Rotates `value` left through the carry; Z is cleared.
pub fn rla(registers: &mut Registers, value: u8) -> (result: u8)
    ensures
        result == rl8(value, old(registers).flags.c),
        *final(registers) == (Registers {
            flags: shift_flags_without_z(value >= 128),
            ..*old(registers)
        }),
{
    let result: u8 = rotate_left_through_carry(value, registers.get_flag(CpuFlag::C));
    shift_operation_flag_update_without_z(registers, value >= 128);
    result
}

/// Rotates a register left.
pub fn rlc(registers: &mut Registers, name: RegisterName8)
    ensures
        *final(registers) == (Registers {
            flags: shift_flags(rlc8(old(registers).reg(name)), old(registers).reg(name) >= 128),
            ..*old(registers)
        }).with_reg(name, rlc8(old(registers).reg(name))),
{
    execute8(registers, name, Operation8::Rlc);
}

/// Rotates `value` left.
pub fn rlcv(registers: &mut Registers, value: u8) -> (result: u8)
    ensures
        result == rlc8(value),
        *final(registers) == (Registers { flags: shift_flags(result, value >= 128), ..*old(registers) }),
{
    let result: u8 = rotate_left(value);
    shift_operation_flag_update(registers, result, value >= 128);
    result
}

/// Rotates `value` left; Z is cleared.
pub fn rlca(registers: &mut Registers, value: u8) -> (result: u8)
    ensures
        result == rlc8(value),
        *final(registers) == (Registers {
            flags: shift_flags_without_z(value >= 128),
            ..*old(registers)
        }),
{
    let result: u8 = rotate_left(value);
    shift_operation_flag_update_without_z(registers, value >= 128);
    result
}

/// Rotates `value` right through the carry.
pub fn rr(registers: &mut Registers, value: u8) -> (result: u8)
    ensures
        result == rr8(value, old(registers).flags.c),
        *final(registers) == (Registers {
            flags: shift_flags(result, value % 2 == 1),
            ..*old(registers)
        }),
{
    let result: u8 = rotate_right_through_carry(value, registers.get_flag(CpuFlag::C));
    shift_operation_flag_update(registers, result, value % 2 == 1);
    result
}

/// Rotates `value` right through the carry; Z is cleared.
pub fn rra(registers: &mut Registers, value: u8) -> (result: u8)
    ensures
        result == rr8(value, old(registers).flags.c),
        *final(registers) == (Registers {
            flags: shift_flags_without_z(value % 2 == 1),
            ..*old(registers)
        }),
{
    let result: u8 = rotate_right_through_carry(value, registers.get_flag(CpuFlag::C));
    shift_operation_flag_update_without_z(registers, value % 2 == 1);
    result
}

/// Rotates `value` right.
pub fn rrc(registers: &mut Registers, value: u8) -> (result: u8)
    ensures
        result == rrc8(value),
        *final(registers) == (Registers {
            flags: shift_flags(result, value % 2 == 1),
            ..*old(registers)
        }),
{
    let result: u8 = rotate_right(value);
    shift_operation_flag_update(registers, result, value % 2 == 1);
    result
}

/// Rotates `value` right; Z is cleared.
pub fn rrca(registers: &mut Registers, value: u8) -> (result: u8)
    ensures
        result == rrc8(value),
        *final(registers) == (Registers {
            flags: shift_flags_without_z(value % 2 == 1),
            ..*old(registers)
        }),
{
    let result: u8 = rotate_right(value);
    shift_operation_flag_update_without_z(registers, value % 2 == 1);
    result
}

/// Shifts `value` left by one bit.
pub fn sla(registers: &mut Registers, value: u8) -> (result: u8)
    ensures
        result == sla8(value),
        *final(registers) == (Registers { flags: shift_flags(result, value >= 128), ..*old(registers) }),
{
    let result: u8 = (value % 128) * 2;
    shift_operation_flag_update(registers, result, value >= 128);
    result
}

/// Shifts `value` right by one bit and keeps its sign bit.
pub fn sra(registers: &mut Registers, value: u8) -> (result: u8)
    ensures
        result == sra8(value),
        *final(registers) == (Registers {
            flags: shift_flags(result, value % 2 == 1),
            ..*old(registers)
        }),
{
    let result: u8 = value / 2 + 128 * (value / 128);
    shift_operation_flag_update(registers, result, value % 2 == 1);
    result
}

/// Shifts `value` right by one bit.
pub fn srl(registers: &mut Registers, value: u8) -> (result: u8)
    ensures
        result == srl8(value),
        *final(registers) == (Registers {
            flags: shift_flags(result, value % 2 == 1),
            ..*old(registers)
        }),
{
    let result: u8 = value / 2;
    shift_operation_flag_update(registers, result, value % 2 == 1);
    result
}

/// Complements the carry flag; N and H are cleared.
pub fn ccf(registers: &mut Registers)
    ensures
        *final(registers) == (Registers {
            flags: FlagRegister { n: false, h: false, c: !old(registers).flags.c, ..old(registers).flags },
            ..*old(registers)
        }),
{
    let c: bool = registers.get_flag(CpuFlag::C);
    registers.set_flag(CpuFlag::N, false);
    registers.set_flag(CpuFlag::H, false);
    registers.set_flag(CpuFlag::C, !c);
}

/// Sets the carry flag; N and H are cleared.
pub fn scf(registers: &mut Registers)
    ensures
        *final(registers) == (Registers {
            flags: FlagRegister { n: false, h: false, c: true, ..old(registers).flags },
            ..*old(registers)
        }),
{
    registers.set_flag(CpuFlag::N, false);
    registers.set_flag(CpuFlag::H, false);
    registers.set_flag(CpuFlag::C, true);
}

/// Tests bit `bit` of `value`: Z is set when the bit is 0. The carry is kept.
pub fn bit(registers: &mut Registers, bit: u8, value: u8)
    requires
        bit < 8,
    ensures
        *final(registers) == (Registers {
            flags: FlagRegister { z: !bit_is_set(value, bit), n: false, h: true, ..old(registers).flags },
            ..*old(registers)
        }),
{
    registers.set_flag(CpuFlag::Z, (value & (1u8 << bit)) == 0);
    registers.set_flag(CpuFlag::N, false);
    registers.set_flag(CpuFlag::H, true);
}

/// `value` with bit `bit` cleared.
pub open spec fn res8(value: u8, bit: u8) -> u8 {
    value & !(1u8 << bit)
}

/// `value` with bit `bit` set.
pub open spec fn set8(value: u8, bit: u8) -> u8 {
    value | (1u8 << bit)
}

/// Clears bit `bit` of `value`; no flag changes.
pub fn reset_bit(bit: u8, value: u8) -> (result: u8)
    requires
        bit < 8,
    ensures
        result == res8(value, bit),
{
    value & !(1u8 << bit)
}

/// Sets bit `bit` of `value`; no flag changes.
pub fn set_bit(bit: u8, value: u8) -> (result: u8)
    requires
        bit < 8,
    ensures
        result == set8(value, bit),
{
    value | (1u8 << bit)
}

/// The arithmetic results agree with the bitwise reading of the operations:
/// rotates and shifts move bits, SWAP exchanges nibbles, CPL inverts.
pub proof fn lemma_shift_bits(value: u8, c: bool)
    ensures
        rlc8(value) == (value << 1) | (value >> 7),
        rrc8(value) == (value >> 1) | (value << 7),
        rl8(value, c) == (value << 1) | (if c { 1u8 } else { 0u8 }),
        rr8(value, c) == (value >> 1) | (if c { 0x80u8 } else { 0u8 }),
        sla8(value) == value << 1,
        sra8(value) == (value >> 1) | (value & 0x80),
        srl8(value) == value >> 1,
        swap8(value) == (value << 4) | (value >> 4),
        (255 - value) as u8 == value ^ 0xFF,
{
    assert(((value % 128) * 2 + value / 128) as u8 == (value << 1) | (value >> 7)) by (bit_vector);
    assert((value / 2 + 128 * (value % 2)) as u8 == (value >> 1) | (value << 7)) by (bit_vector);
    assert(((value % 128) * 2 + 1) as u8 == (value << 1) | 1u8) by (bit_vector);
    assert(((value % 128) * 2) as u8 == (value << 1)) by (bit_vector);
    assert((value / 2 + 128) as u8 == (value >> 1) | 0x80u8) by (bit_vector);
    assert(value / 2 == (value >> 1)) by (bit_vector);
    assert((value / 2 + 128 * (value / 128)) as u8 == (value >> 1) | (value & 0x80)) by (bit_vector);
    assert(((value % 16) * 16 + value / 16) as u8 == (value << 4) | (value >> 4)) by (bit_vector);
    assert((255 - value) as u8 == value ^ 0xFF) by (bit_vector);
    assert((value << 1) | 0u8 == (value << 1)) by (bit_vector);
    assert((value >> 1) | 0u8 == (value >> 1)) by (bit_vector);
}

} // verus!
