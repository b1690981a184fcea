use rustboy::cpu::alu;
use rustboy::cpu::registers::{CpuFlag, RegisterName8, Registers};

fn flags(registers: &Registers) -> (bool, bool, bool, bool) {
    (
        registers.get_flag(CpuFlag::Z),
        registers.get_flag(CpuFlag::N),
        registers.get_flag(CpuFlag::H),
        registers.get_flag(CpuFlag::C),
    )
}

fn cleared() -> Registers {
    let mut registers = Registers::new();
    registers.reset_flags();
    registers
}

#[test]
fn add_sets_zero_half_carry_and_carry() {
    let mut registers = cleared();
    registers.a = 0x3C;
    alu::addv(&mut registers, 0xC4);
    assert_eq!(registers.a, 0x00);
    assert_eq!(flags(&registers), (true, false, true, true));
}

#[test]
fn add_of_a_register() {
    let mut registers = cleared();
    registers.a = 0x12;
    registers.e = 0x34;
    rustboy::cpu::alu::add(&mut registers, RegisterName8::E);
    assert_eq!(registers.a, 0x46);
    assert_eq!(flags(&registers), (false, false, false, false));
}

#[test]
fn add_hl_to_hl() {
    let mut registers = cleared();
    registers.set_flag(CpuFlag::Z, true);
    registers.set_hl(0x8A23);
    alu::add16(&mut registers, 0x8A23);
    assert_eq!(registers.get_hl(), 0x1446);
    assert_eq!(flags(&registers), (true, false, true, true));
}

#[test]
fn add16_half_carry_is_the_carry_out_of_bit_11() {
    let mut registers = cleared();
    registers.set_hl(0x0FFF);
    alu::add16(&mut registers, 0x0001);
    assert_eq!(registers.get_hl(), 0x1000);
    assert_eq!(flags(&registers), (false, false, true, false));
    registers.set_hl(0x00FF);
    alu::add16(&mut registers, 0x0001);
    assert_eq!(flags(&registers), (false, false, false, false));
}

#[test]
fn inc_sets_half_carry() {
    let mut registers = cleared();
    registers.a = 0x0F;
    alu::inc(&mut registers, RegisterName8::A);
    assert_eq!(registers.a, 0x10);
    assert_eq!(flags(&registers), (false, false, true, false));
    let result = alu::incv(&mut registers, 0xFF);
    assert_eq!(result, 0x00);
    assert_eq!(flags(&registers), (true, false, true, false));
}

#[test]
fn dec_keeps_the_carry() {
    let mut registers = cleared();
    registers.set_flag(CpuFlag::C, true);
    registers.b = 0x10;
    alu::dec(&mut registers, RegisterName8::B);
    assert_eq!(registers.b, 0x0F);
    assert_eq!(flags(&registers), (false, true, true, true));
    assert_eq!(alu::decv(&mut registers, 0x01), 0x00);
    assert_eq!(flags(&registers), (true, true, false, true));
    assert_eq!(alu::decv(&mut registers, 0x00), 0xFF);
}

#[test]
fn daa_after_adding_one_to_ninety_nine() {
    let mut registers = cleared();
    registers.a = 0x99;
    alu::addv(&mut registers, 0x01);
    assert_eq!(registers.a, 0x9A);
    assert_eq!(flags(&registers), (false, false, false, false));
    alu::daa(&mut registers);
    assert_eq!(registers.a, 0x00);
    assert!(registers.get_flag(CpuFlag::Z));
    assert!(registers.get_flag(CpuFlag::C));
    assert!(!registers.get_flag(CpuFlag::H));
}

#[test]
fn daa_after_a_subtraction() {
    let mut registers = cleared();
    registers.a = 0x20;
    alu::sub(&mut registers, 0x01);
    assert_eq!(registers.a, 0x1F);
    alu::daa(&mut registers);
    assert_eq!(registers.a, 0x19);
    assert_eq!(flags(&registers), (false, true, false, false));
}

#[test]
fn add_signed_byte_to_stack_pointer() {
    let mut registers = cleared();
    let result = alu::add_next_signed_byte_to_word(&mut registers, 0x00FF, 0x0001);
    assert_eq!(result, 0x0100);
    assert_eq!(flags(&registers), (false, false, true, true));
    let back = alu::add_next_signed_byte_to_word(&mut registers, 0x0100, alu::signed_byte_to_word(0xFF));
    assert_eq!(back, 0x00FF);
    assert_eq!(flags(&registers), (false, false, false, false));
    assert_eq!(alu::signed_byte_to_word(0x80), 0xFF80);
    assert_eq!(alu::signed_byte_to_word(0x7F), 0x007F);
}

#[test]
fn adc_adds_the_carry_and_stores_the_sum() {
    let mut registers = cleared();
    registers.set_flag(CpuFlag::C, true);
    registers.a = 0xE1;
    alu::adc(&mut registers, 0x1E);
    assert_eq!(registers.a, 0x00);
    assert_eq!(flags(&registers), (true, false, true, true));
}

#[test]
fn sub_sbc_and_cp() {
    let mut registers = cleared();
    registers.a = 0x3E;
    alu::sub(&mut registers, 0x0F);
    assert_eq!(registers.a, 0x2F);
    assert_eq!(flags(&registers), (false, true, true, false));
    registers.a = 0x00;
    registers.set_flag(CpuFlag::C, true);
    alu::sbc(&mut registers, 0xFF);
    assert_eq!(registers.a, 0x00);
    assert_eq!(flags(&registers), (true, true, true, true));
    registers.a = 0x3C;
    alu::cp(&mut registers, 0x40);
    assert_eq!(registers.a, 0x3C);
    assert_eq!(flags(&registers), (false, true, false, true));
    alu::cp(&mut registers, 0x3C);
    assert_eq!(flags(&registers), (true, true, false, false));
}

#[test]
fn logic_operations() {
    let mut registers = cleared();
    registers.a = 0x5A;
    alu::andv(&mut registers, 0x3F);
    assert_eq!(registers.a, 0x1A);
    assert_eq!(flags(&registers), (false, false, true, false));
    registers.b = 0x00;
    alu::and(&mut registers, RegisterName8::B);
    assert_eq!(registers.a, 0x00);
    assert_eq!(flags(&registers), (true, false, true, false));
    alu::or(&mut registers, 0x81);
    assert_eq!(registers.a, 0x81);
    assert_eq!(flags(&registers), (false, false, false, false));
    alu::xor(&mut registers, 0x81);
    assert_eq!(registers.a, 0x00);
    assert_eq!(flags(&registers), (true, false, false, false));
    registers.a = 0x35;
    alu::cpl(&mut registers);
    assert_eq!(registers.a, 0xCA);
    assert_eq!(flags(&registers), (true, true, true, false));
}

#[test]
fn rotates_and_shifts() {
    let mut registers = cleared();
    assert_eq!(alu::rlcv(&mut registers, 0x85), 0x0B);
    assert_eq!(flags(&registers), (false, false, false, true));
    assert_eq!(alu::rl(&mut registers, 0x80), 0x01);
    assert_eq!(flags(&registers), (false, false, false, true));
    assert_eq!(alu::rr(&mut registers, 0x01), 0x80);
    assert_eq!(flags(&registers), (false, false, false, true));
    assert_eq!(alu::rrc(&mut registers, 0x01), 0x80);
    assert_eq!(alu::sla(&mut registers, 0x80), 0x00);
    assert_eq!(flags(&registers), (true, false, false, true));
    assert_eq!(alu::sra(&mut registers, 0x8A), 0xC5);
    assert_eq!(flags(&registers), (false, false, false, false));
    assert_eq!(alu::srl(&mut registers, 0x01), 0x00);
    assert_eq!(flags(&registers), (true, false, false, true));
    assert_eq!(alu::swap(&mut registers, 0xF1), 0x1F);
    assert_eq!(flags(&registers), (false, false, false, false));
    registers.d = 0x80;
    alu::rlc(&mut registers, RegisterName8::D);
    assert_eq!(registers.d, 0x01);
}

#[test]
fn rotates_of_the_accumulator_leave_zero_cleared() {
    let mut registers = cleared();
    assert_eq!(alu::rlca(&mut registers, 0x00), 0x00);
    assert_eq!(flags(&registers), (false, false, false, false));
    assert_eq!(alu::rla(&mut registers, 0x80), 0x00);
    assert_eq!(flags(&registers), (false, false, false, true));
    assert_eq!(alu::rra(&mut registers, 0x00), 0x80);
    assert_eq!(flags(&registers), (false, false, false, false));
    assert_eq!(alu::rrca(&mut registers, 0x01), 0x80);
    assert_eq!(flags(&registers), (false, false, false, true));
    alu::shift_operation_flag_update(&mut registers, 0, false);
    assert_eq!(flags(&registers), (true, false, false, false));
}

#[test]
fn carry_flag_operations_and_bit_tests() {
    let mut registers = cleared();
    alu::scf(&mut registers);
    assert_eq!(flags(&registers), (false, false, false, true));
    alu::ccf(&mut registers);
    assert_eq!(flags(&registers), (false, false, false, false));
    alu::ccf(&mut registers);
    assert_eq!(flags(&registers), (false, false, false, true));
    alu::bit(&mut registers, 7, 0x80);
    assert_eq!(flags(&registers), (false, false, true, true));
    alu::bit(&mut registers, 4, 0xEF);
    assert_eq!(flags(&registers), (true, false, true, true));
    assert_eq!(alu::reset_bit(7, 0xFF), 0x7F);
    assert_eq!(alu::set_bit(3, 0x00), 0x08);
}
