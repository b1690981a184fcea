use rustboy::cpu::registers::CpuFlag;
use rustboy::cpu::{Cpu, Fault, OpCodeResult};
use rustboy::cpu::op_codes;
use rustboy::cpu::op_codes_cb;
use rustboy::mbc::cartridge::Cartridge;
use rustboy::{handle_event, GBEvent, GBKeyCode, GBKeyEvent, GBKeyState};

/// A machine whose ROM holds `program` at 0x0100, where execution starts.
fn machine(program: &[u8]) -> Cpu {
    let mut rom = vec![0u8; 0x8000];
    rom[0x0100..0x0100 + program.len()].copy_from_slice(program);
    match Cartridge::new(rom) {
        Ok(cartridge) => Cpu::new(cartridge),
        Err(_) => panic!("a plain rom is supported"),
    }
}

fn flags(cpu: &Cpu) -> (bool, bool, bool, bool) {
    let registers = cpu.registers();
    (
        registers.get_flag(CpuFlag::Z),
        registers.get_flag(CpuFlag::N),
        registers.get_flag(CpuFlag::H),
        registers.get_flag(CpuFlag::C),
    )
}

fn run(cpu: &mut Cpu, instructions: usize) -> Vec<usize> {
    let mut cycles = Vec::new();
    for _ in 0..instructions {
        cycles.push(cpu.tick());
    }
    cycles
}

#[test]
fn load_and_add_immediate() {
    let mut cpu = machine(&[0x3E, 0x3C, 0xC6, 0xC4]);
    assert_eq!(run(&mut cpu, 2), vec![8, 8]);
    assert_eq!(cpu.registers().a, 0x00);
    assert_eq!(flags(&cpu), (true, false, true, true));
    assert_eq!(cpu.registers().pc, 0x0104);
}

#[test]
fn add_hl_to_itself() {
    let mut cpu = machine(&[0x21, 0x23, 0x8A, 0x29]);
    assert_eq!(run(&mut cpu, 2), vec![12, 8]);
    assert_eq!(cpu.registers().get_hl(), 0x1446);
    let (_, n, h, c) = flags(&cpu);
    assert_eq!((n, h, c), (false, true, true));
}

#[test]
fn increment_with_half_carry() {
    let mut cpu = machine(&[0x3E, 0x0F, 0x3C]);
    assert_eq!(run(&mut cpu, 2), vec![8, 4]);
    assert_eq!(cpu.registers().a, 0x10);
    let (z, n, h, _) = flags(&cpu);
    assert_eq!((z, n, h), (false, false, true));
}

#[test]
fn add_signed_byte_to_the_stack_pointer() {
    let mut cpu = machine(&[0x31, 0xFF, 0x00, 0xE8, 0x01, 0xF8, 0xFF, 0xE8, 0xFE]);
    assert_eq!(run(&mut cpu, 2), vec![12, 16]);
    assert_eq!(cpu.registers().sp, 0x0100);
    assert_eq!(flags(&cpu), (false, false, true, true));
    assert_eq!(run(&mut cpu, 1), vec![12]);
    assert_eq!(cpu.registers().get_hl(), 0x00FF);
    assert_eq!(cpu.registers().sp, 0x0100);
    assert_eq!(flags(&cpu), (false, false, false, false));
    assert_eq!(run(&mut cpu, 1), vec![16]);
    assert_eq!(cpu.registers().sp, 0x00FE);
}

#[test]
fn decimal_adjust_in_a_program() {
    let mut cpu = machine(&[0x3E, 0x99, 0xC6, 0x01, 0x27]);
    assert_eq!(run(&mut cpu, 3), vec![8, 8, 4]);
    assert_eq!(cpu.registers().a, 0x00);
    let (z, _, h, c) = flags(&cpu);
    assert_eq!((z, h, c), (true, false, true));
}

#[test]
fn documented_cycle_counts() {
    let cases: Vec<(Vec<u8>, usize)> = vec![
        (vec![0x00], 4),
        (vec![0x01, 0x34, 0x12], 12),
        (vec![0x02], 8),
        (vec![0x03], 8),
        (vec![0x04], 4),
        (vec![0x06, 0x01], 8),
        (vec![0x07], 4),
        (vec![0x08, 0x00, 0xC0], 20),
        (vec![0x09], 8),
        (vec![0x0A], 8),
        (vec![0x18, 0x00], 12),
        (vec![0x22], 8),
        (vec![0x2A], 8),
        (vec![0x34], 12),
        (vec![0x35], 12),
        (vec![0x36, 0x00], 12),
        (vec![0x41], 4),
        (vec![0x46], 8),
        (vec![0x70], 8),
        (vec![0x80], 4),
        (vec![0x86], 8),
        (vec![0x96], 8),
        (vec![0xBE], 8),
        (vec![0xC1], 12),
        (vec![0xC3, 0x00, 0x02], 16),
        (vec![0xC5], 16),
        (vec![0xC6, 0x01], 8),
        (vec![0xC7], 16),
        (vec![0xC9], 16),
        (vec![0xCD, 0x00, 0x02], 24),
        (vec![0xD9], 16),
        (vec![0xE0, 0x80], 12),
        (vec![0xE2], 8),
        (vec![0xE9], 4),
        (vec![0xEA, 0x00, 0xC0], 16),
        (vec![0xF0, 0x80], 12),
        (vec![0xF3], 4),
        (vec![0xF9], 8),
        (vec![0xFA, 0x00, 0xC0], 16),
        (vec![0xFB], 4),
        (vec![0xCB, 0x11], 8),
        (vec![0xCB, 0x06], 16),
        (vec![0xCB, 0x46], 12),
        (vec![0xCB, 0x7E], 12),
        (vec![0xCB, 0x86], 16),
        (vec![0xCB, 0xC6], 16),
        (vec![0xCB, 0xFF], 8),
    ];
    for (program, expected) in cases {
        let mut cpu = machine(&program);
        assert_eq!(cpu.tick(), expected, "opcode {:02X}", program[0]);
    }
}

#[test]
fn conditional_instructions_take_longer_when_taken() {
    // the flags start as Z, H and C set
    let cases: Vec<(u8, usize, usize)> = vec![
        (0x20, 8, 0x0102),
        (0x28, 12, 0x0104),
        (0x30, 8, 0x0102),
        (0x38, 12, 0x0104),
        (0xC2, 12, 0x0103),
        (0xCA, 16, 0x0302),
        (0xD2, 12, 0x0103),
        (0xDA, 16, 0x0302),
        (0xC4, 12, 0x0103),
        (0xCC, 24, 0x0302),
        (0xD4, 12, 0x0103),
        (0xDC, 24, 0x0302),
        (0xC0, 8, 0x0101),
        (0xD0, 8, 0x0101),
    ];
    for (op_code, cycles, pc) in cases {
        let mut cpu = machine(&[op_code, 0x02, 0x03]);
        assert_eq!(cpu.tick(), cycles, "opcode {:02X}", op_code);
        assert_eq!(cpu.registers().pc as usize, pc, "opcode {:02X}", op_code);
    }
    // a return that is taken: CALL 0x0110, then RET Z there
    let mut program = vec![0u8; 0x20];
    program[0] = 0xCD;
    program[1] = 0x10;
    program[2] = 0x01;
    program[0x10] = 0xC8;
    let mut cpu = machine(&program);
    assert_eq!(run(&mut cpu, 2), vec![24, 20]);
    assert_eq!(cpu.registers().pc, 0x0103);
    assert_eq!(cpu.registers().sp, 0xFFFE);
}

#[test]
fn relative_jumps_go_both_ways() {
    let mut cpu = machine(&[0x18, 0x02, 0x00, 0x00, 0x18, 0xFA]);
    cpu.tick();
    assert_eq!(cpu.registers().pc, 0x0104);
    cpu.tick();
    assert_eq!(cpu.registers().pc, 0x0100);
}

#[test]
fn loads_between_registers() {
    // LD B,0x11; LD C,0x22; LD B,C; LD C,B
    let mut cpu = machine(&[0x06, 0x11, 0x0E, 0x22, 0x41, 0x48]);
    run(&mut cpu, 3);
    assert_eq!((cpu.registers().b, cpu.registers().c), (0x22, 0x22));
    let before = cpu.registers();
    assert_eq!(cpu.tick(), 4);
    let after = cpu.registers();
    assert_eq!((after.b, after.c), (0x22, 0x22));
    assert_eq!(after.a, before.a);
    assert_eq!(after.get_de(), before.get_de());
    assert_eq!(after.get_hl(), before.get_hl());
    assert_eq!(after.pc, before.pc + 1);
}

#[test]
fn every_register_load() {
    let names = [0usize, 1, 2, 3, 4, 5, 7];
    for to in names {
        for from in names {
            let op_code = 0x40 + 8 * to as u8 + from as u8;
            // A..L are set to 0x10 + their code first
            let mut program = vec![
                0x06, 0x10, 0x0E, 0x11, 0x16, 0x12, 0x1E, 0x13, 0x26, 0x14, 0x2E, 0x15, 0x3E, 0x17,
            ];
            program.push(op_code);
            let mut cpu = machine(&program);
            run(&mut cpu, 8);
            let r = cpu.registers();
            let values = [r.b, r.c, r.d, r.e, r.h, r.l, 0, r.a];
            for name in names {
                let expected = if name == to { 0x10 + from as u8 } else { 0x10 + name as u8 };
                assert_eq!(values[name], expected, "opcode {:02X}", op_code);
            }
        }
    }
}

#[test]
fn memory_operands() {
    // LD HL,0xC000; LD (HL),0x0F; INC (HL); LD A,(HL); ADD A,(HL); LD (HL+),A; LD (HL-),A; LD B,(HL)
    let mut cpu = machine(&[0x21, 0x00, 0xC0, 0x36, 0x0F, 0x34, 0x7E, 0x86, 0x22, 0x32, 0x46]);
    run(&mut cpu, 3);
    assert_eq!(cpu.read_byte(0xC000), 0x10);
    assert_eq!(flags(&cpu), (false, false, true, true));
    run(&mut cpu, 2);
    assert_eq!(cpu.registers().a, 0x20);
    run(&mut cpu, 1);
    assert_eq!(cpu.registers().get_hl(), 0xC001);
    assert_eq!(cpu.read_byte(0xC000), 0x20);
    run(&mut cpu, 1);
    assert_eq!(cpu.registers().get_hl(), 0xC000);
    assert_eq!(cpu.read_byte(0xC001), 0x20);
    run(&mut cpu, 1);
    assert_eq!(cpu.registers().b, 0x20);
}

#[test]
fn push_and_pop_restore_the_pairs() {
    // LD BC,0x1234; PUSH BC; LD BC,0; POP BC; PUSH AF; POP AF; PUSH BC; POP DE
    let mut cpu = machine(&[0x01, 0x34, 0x12, 0xC5, 0x01, 0x00, 0x00, 0xC1, 0xF5, 0xF1, 0xC5, 0xD1]);
    assert_eq!(run(&mut cpu, 2), vec![12, 16]);
    assert_eq!(cpu.registers().sp, 0xFFFC);
    assert_eq!(cpu.read_byte(0xFFFC), 0x34);
    assert_eq!(cpu.read_byte(0xFFFD), 0x12);
    assert_eq!(run(&mut cpu, 2), vec![12, 12]);
    assert_eq!(cpu.registers().get_bc(), 0x1234);
    assert_eq!(cpu.registers().sp, 0xFFFE);
    let before = cpu.registers();
    run(&mut cpu, 2);
    assert_eq!(cpu.registers().get_af(), before.get_af());
    assert_eq!(cpu.registers().get_af(), 0x01B0);
    run(&mut cpu, 2);
    assert_eq!(cpu.registers().get_de(), 0x1234);
    assert_eq!(cpu.registers().sp % 2, 0);
}

#[test]
fn pop_af_clears_the_low_nibble_of_the_flags() {
    // LD BC,0x12FF; PUSH BC; POP AF; PUSH AF; POP DE
    let mut cpu = machine(&[0x01, 0xFF, 0x12, 0xC5, 0xF1, 0xF5, 0xD1]);
    run(&mut cpu, 3);
    assert_eq!(cpu.registers().get_af(), 0x12F0);
    assert_eq!(cpu.registers().flags.get_raw() & 0x0F, 0);
    assert_eq!(flags(&cpu), (true, true, true, true));
    run(&mut cpu, 2);
    assert_eq!(cpu.registers().get_de(), 0x12F0);
    for low in 0..=255u8 {
        let mut cpu = machine(&[0x01, low, 0x00, 0xC5, 0xF1]);
        run(&mut cpu, 3);
        assert_eq!(cpu.registers().flags.get_raw(), low & 0xF0);
    }
}

#[test]
fn calls_returns_and_restarts() {
    let mut program = vec![0u8; 0x40];
    program[0] = 0xCD; // CALL 0x0120
    program[1] = 0x20;
    program[2] = 0x01;
    program[3] = 0xEF; // RST 28
    program[0x20] = 0xC9; // RET
    let mut cpu = machine(&program);
    cpu.tick();
    assert_eq!(cpu.registers().pc, 0x0120);
    assert_eq!(cpu.registers().sp, 0xFFFC);
    assert_eq!(cpu.read_byte(0xFFFC), 0x03);
    assert_eq!(cpu.read_byte(0xFFFD), 0x01);
    cpu.tick();
    assert_eq!(cpu.registers().pc, 0x0103);
    assert_eq!(cpu.registers().sp, 0xFFFE);
    assert_eq!(cpu.tick(), 16);
    assert_eq!(cpu.registers().pc, 0x0028);
    assert_eq!(cpu.read_byte(0xFFFC), 0x04);
    for (i, op_code) in [0xC7u8, 0xCF, 0xD7, 0xDF, 0xE7, 0xEF, 0xF7, 0xFF].iter().enumerate() {
        let mut cpu = machine(&[*op_code]);
        cpu.tick();
        assert_eq!(cpu.registers().pc as usize, 8 * i);
    }
}

#[test]
fn prefixed_instructions() {
    // LD A,0x85; RLC A; SWAP A; BIT 0,A; RES 0,A; SET 7,A; LD HL,0xC000; LD (HL),0x01; SRL (HL); BIT 7,(HL)
    let mut cpu = machine(&[
        0x3E, 0x85, 0xCB, 0x07, 0xCB, 0x37, 0xCB, 0x47, 0xCB, 0x87, 0xCB, 0xFF, 0x21, 0x00, 0xC0,
        0x36, 0x01, 0xCB, 0x3E, 0xCB, 0x7E,
    ]);
    run(&mut cpu, 2);
    assert_eq!(cpu.registers().a, 0x0B);
    assert_eq!(flags(&cpu), (false, false, false, true));
    run(&mut cpu, 1);
    assert_eq!(cpu.registers().a, 0xB0);
    assert_eq!(flags(&cpu), (false, false, false, false));
    run(&mut cpu, 1);
    assert_eq!(flags(&cpu), (true, false, true, false));
    run(&mut cpu, 1);
    assert_eq!(cpu.registers().a, 0xB0);
    run(&mut cpu, 1);
    assert_eq!(cpu.registers().a, 0xB0);
    assert_eq!(flags(&cpu), (true, false, true, false));
    run(&mut cpu, 3);
    assert_eq!(cpu.read_byte(0xC000), 0x00);
    assert_eq!(flags(&cpu), (true, false, false, true));
    run(&mut cpu, 1);
    assert_eq!(flags(&cpu), (true, false, true, true));
    assert_eq!(cpu.registers().pc, 0x0115);
}

#[test]
fn rotates_of_a_clear_the_zero_flag() {
    // XOR A; RLCA
    let mut cpu = machine(&[0xAF, 0x07, 0xAF, 0x17, 0xAF, 0x0F, 0xAF, 0x1F]);
    for _ in 0..4 {
        cpu.tick();
        assert_eq!(flags(&cpu), (true, false, false, false));
        cpu.tick();
        assert_eq!(cpu.registers().a, 0);
        assert_eq!(flags(&cpu), (false, false, false, false));
    }
}

#[test]
fn sub_immediate_subtracts() {
    // LD A,0x10; SUB 0x01; SBC A,0x0F; CP 0x00; AND 0x00; OR 0x81; XOR 0xFF
    let mut cpu = machine(&[0x3E, 0x10, 0xD6, 0x01, 0xDE, 0x0F, 0xFE, 0x00, 0xE6, 0x00, 0xF6, 0x81, 0xEE, 0xFF]);
    run(&mut cpu, 2);
    assert_eq!(cpu.registers().a, 0x0F);
    assert_eq!(flags(&cpu), (false, true, true, false));
    run(&mut cpu, 1);
    assert_eq!(cpu.registers().a, 0x00);
    assert_eq!(flags(&cpu), (true, true, false, false));
    run(&mut cpu, 1);
    assert_eq!(flags(&cpu), (true, true, false, false));
    run(&mut cpu, 1);
    assert_eq!(flags(&cpu), (true, false, true, false));
    run(&mut cpu, 1);
    assert_eq!(cpu.registers().a, 0x81);
    run(&mut cpu, 1);
    assert_eq!(cpu.registers().a, 0x7E);
}

#[test]
fn undefined_opcodes_stop_the_processor_for_good() {
    for op_code in [0xD3u8, 0xDB, 0xDD, 0xE3, 0xE4, 0xEB, 0xEC, 0xED, 0xF4, 0xFC, 0xFD] {
        let mut cpu = machine(&[0x00, op_code, 0x3C]);
        assert!(cpu.fault().is_none());
        cpu.tick();
        assert_eq!(cpu.tick(), 4);
        assert_eq!(cpu.fault(), Some(Fault { op_code, address: 0x0101 }));
        assert!(cpu.is_halted());
        let stopped = cpu.registers();
        // an interrupt does not wake it
        cpu.write_byte(0xFFFF, 0x1F);
        cpu.write_byte(0xFF0F, 0x1F);
        for _ in 0..10 {
            assert_eq!(cpu.tick(), 4);
        }
        assert_eq!(cpu.registers(), stopped);
        let mut fresh = machine(&[op_code]);
        let before = fresh.registers();
        assert_eq!(op_codes::execute(op_code, &mut fresh), OpCodeResult::UnknownOpCode);
        assert_eq!(fresh.registers(), before);
    }
}

#[test]
fn time_passes_while_the_processor_is_stopped() {
    let mut cpu = machine(&[0xD3]);
    cpu.tick();
    for _ in 0..64 {
        cpu.tick();
    }
    assert_eq!(cpu.read_byte(0xFF04), 1);
}

#[test]
fn nop_takes_four_cycles_and_moves_only_the_program_counter() {
    let mut cpu = machine(&[0x00, 0x00]);
    let before = cpu.registers();
    assert_eq!(cpu.tick(), 4);
    let after = cpu.registers();
    assert_eq!(after.pc, before.pc + 1);
    assert_eq!(after.get_af(), before.get_af());
    assert_eq!(after.get_bc(), before.get_bc());
    assert_eq!(after.get_de(), before.get_de());
    assert_eq!(after.get_hl(), before.get_hl());
    assert_eq!(after.sp, before.sp);
    assert!(!cpu.is_halted());
    assert!(cpu.fault().is_none());
    for _ in 0..63 {
        cpu.tick();
    }
    assert_eq!(cpu.read_byte(0xFF04), 1);
}

#[test]
fn halt_waits_for_an_interrupt() {
    // HALT; INC A
    let mut cpu = machine(&[0x76, 0x3C]);
    assert_eq!(cpu.tick(), 4);
    assert!(cpu.is_halted());
    for _ in 0..5 {
        assert_eq!(cpu.tick(), 4);
        assert_eq!(cpu.registers().pc, 0x0101);
    }
    // a request that is not enabled does not end the halt
    cpu.write_byte(0xFF0F, 0x04);
    assert_eq!(cpu.tick(), 4);
    assert!(cpu.is_halted());
    // one that is enabled does, even with the master enable off
    cpu.write_byte(0xFFFF, 0x04);
    assert_eq!(cpu.tick(), 4);
    assert!(!cpu.is_halted());
    assert_eq!(cpu.registers().a, 0x02);
    assert_eq!(cpu.registers().pc, 0x0102);
    assert_eq!(cpu.read_byte(0xFF0F), 0x04);
}

#[test]
fn stop_halts() {
    let mut cpu = machine(&[0x10, 0x00, 0x3C]);
    assert_eq!(cpu.tick(), 4);
    assert!(cpu.is_halted());
    assert_eq!(cpu.registers().pc, 0x0102);
}

#[test]
fn interrupts_are_served_after_the_delay_of_ei() {
    // EI; INC A; INC A
    let mut cpu = machine(&[0xFB, 0x3C, 0x3C]);
    cpu.write_byte(0xFFFF, 0x1F);
    cpu.write_byte(0xFF0F, 0x14);
    assert_eq!(cpu.tick(), 4);
    cpu.tick();
    assert_eq!(cpu.registers().a, 0x02);
    assert_eq!(cpu.registers().pc, 0x0102);
    // now the timer interrupt, the lowest that is pending, is served
    cpu.tick();
    assert_eq!(cpu.registers().a, 0x02);
    assert_eq!(cpu.registers().pc, 0x0051);
    assert_eq!(cpu.registers().sp, 0xFFFC);
    assert_eq!(cpu.read_byte(0xFFFC), 0x02);
    assert_eq!(cpu.read_byte(0xFFFD), 0x01);
    assert_eq!(cpu.read_byte(0xFF0F), 0x10);
    // the master enable is off, so the joypad interrupt waits
    cpu.tick();
    assert_eq!(cpu.registers().pc, 0x0052);
}

#[test]
fn interrupt_vectors() {
    for (bit, vector) in [(0u8, 0x40u16), (1, 0x48), (2, 0x50), (3, 0x58), (4, 0x60)] {
        // EI; NOP; NOP
        let mut cpu = machine(&[0xFB, 0x00, 0x00]);
        cpu.write_byte(0xFFFF, 0xFF);
        run(&mut cpu, 2);
        cpu.write_byte(0xFF0F, 0xE0 | (1 << bit));
        cpu.tick();
        assert_eq!(cpu.registers().pc, vector + 1);
        assert_eq!(cpu.read_byte(0xFF0F), 0xE0);
    }
}

#[test]
fn di_cancels_a_pending_ei_and_reti_enables() {
    // EI; DI; NOP; NOP
    let mut cpu = machine(&[0xFB, 0xF3, 0x00, 0x00]);
    cpu.write_byte(0xFFFF, 0x01);
    cpu.write_byte(0xFF0F, 0x01);
    run(&mut cpu, 4);
    assert_eq!(cpu.registers().pc, 0x0104);
    // CALL 0x0110; there RETI; back at 0x0103 the interrupt is served
    let mut program = vec![0u8; 0x20];
    program[0] = 0xCD;
    program[1] = 0x10;
    program[2] = 0x01;
    program[0x10] = 0xD9;
    let mut cpu = machine(&program);
    cpu.write_byte(0xFFFF, 0x01);
    cpu.write_byte(0xFF0F, 0x01);
    run(&mut cpu, 2);
    assert_eq!(cpu.registers().pc, 0x0103);
    cpu.tick();
    assert_eq!(cpu.registers().pc, 0x0041);
}

#[test]
fn serial_port_emits_the_byte_that_was_sent() {
    for byte in [b'H', b'!', 0x00, 0xFF] {
        // LD A,byte; LDH (0x01),A; LD A,0x81; LDH (0x02),A
        let mut cpu = machine(&[0x3E, byte, 0xE0, 0x01, 0x3E, 0x81, 0xE0, 0x02]);
        run(&mut cpu, 3);
        assert!(cpu.take_serial_output().is_empty());
        run(&mut cpu, 1);
        assert_eq!(cpu.take_serial_output(), vec![byte]);
        assert!(cpu.take_serial_output().is_empty());
    }
}

#[test]
fn events_of_the_host() {
    let mut cpu = machine(&[0x00]);
    let press = GBEvent::KeyEvent(GBKeyEvent { key_code: GBKeyCode::A, state: GBKeyState::KeyDown });
    assert!(handle_event(&mut cpu, press));
    cpu.write_byte(0xFF00, 0x10);
    assert_eq!(cpu.read_byte(0xFF00), 0xDE);
    assert!(!handle_event(&mut cpu, GBEvent::Quit));
    assert_eq!(cpu.read_byte(0xFF00), 0xDE);
    cpu.process_input_event(GBKeyEvent { key_code: GBKeyCode::A, state: GBKeyState::KeyUp });
    assert_eq!(cpu.read_byte(0xFF00), 0xDF);
    // the press raised the joypad interrupt
    cpu.tick();
    assert_eq!(cpu.read_byte(0xFF0F) & 0x10, 0x10);
}

#[test]
fn devices_advance_by_the_cycles_of_each_instruction() {
    // LD HL,0xFF40; LD (HL),0x91; then NOPs
    let mut cpu = machine(&[0x21, 0x40, 0xFF, 0x36, 0x91]);
    run(&mut cpu, 2);
    let mut cycles = 0;
    while cycles < 456 * 144 {
        cycles += cpu.tick();
    }
    assert!(cpu.is_screen_updated());
    assert!(!cpu.is_screen_updated());
    assert_eq!(cpu.get_screen_buffer().len(), 160 * 144);
    assert_eq!(cpu.read_byte(0xFF44), 144);
    let mut samples = 0;
    while let Some(buffer) = cpu.take_audio_buffer() {
        samples += buffer.len();
    }
    assert_eq!(samples, 800);
}

#[test]
fn prefixed_table_called_directly() {
    let mut cpu = machine(&[0x00]);
    assert_eq!(op_codes_cb::execute(0xC0, &mut cpu), OpCodeResult::Executed(8));
    assert_eq!(cpu.registers().b, 0x01);
    assert_eq!(op_codes_cb::execute(0x00, &mut cpu), OpCodeResult::Executed(8));
    assert_eq!(cpu.registers().b, 0x02);
    assert_eq!(op_codes::execute(0x04, &mut cpu), OpCodeResult::Executed(4));
    assert_eq!(cpu.registers().b, 0x03);
    assert!(op_codes::undefined(0xD3));
    assert!(!op_codes::undefined(0xD2));
}
