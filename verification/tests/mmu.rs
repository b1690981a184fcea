use rustboy::mbc::cartridge::Cartridge;
use rustboy::mmu::Mmu;
use rustboy::{GBKeyCode, GBKeyEvent, GBKeyState};

fn rom(cartridge_type: u8) -> Vec<u8> {
    let mut rom = vec![0u8; 0x8000];
    rom[0x0147] = cartridge_type;
    rom[0x0000] = 0x12;
    rom[0x7FFF] = 0x34;
    rom
}

fn machine(cartridge_type: u8) -> Mmu {
    match Cartridge::new(rom(cartridge_type)) {
        Ok(cartridge) => Mmu::new(cartridge),
        Err(_) => panic!("the cartridge type is supported"),
    }
}

#[test]
fn echo_mirrors_the_work_ram() {
    let mut mmu = machine(0);
    for (i, address) in (0xE000u16..=0xFDFF).enumerate() {
        mmu.write_byte(address - 0x2000, (i % 251) as u8);
    }
    for address in 0xE000u16..=0xFDFF {
        assert_eq!(mmu.read_byte(address), mmu.read_byte(address - 0x2000));
    }
    assert_eq!(mmu.read_byte(0xE005), 5);
    mmu.write_byte(0xE123, 0xEE);
    assert_eq!(mmu.read_byte(0xC123), 0xEE);
    mmu.write_byte(0xDFFF, 0x77);
    assert_eq!(mmu.read_byte(0xDFFF), 0x77);
}

#[test]
fn address_map() {
    let mut mmu = machine(0);
    assert_eq!(mmu.read_byte(0x0000), 0x12);
    assert_eq!(mmu.read_byte(0x7FFF), 0x34);
    mmu.write_byte(0x0000, 0xFF);
    assert_eq!(mmu.read_byte(0x0000), 0x12);
    mmu.write_byte(0x8000, 0x01);
    mmu.write_byte(0x9FFF, 0x02);
    mmu.write_byte(0xFE00, 0x03);
    mmu.write_byte(0xFE9F, 0x04);
    mmu.write_byte(0xFF80, 0x05);
    mmu.write_byte(0xFFFE, 0x06);
    mmu.write_byte(0xFFFF, 0x1F);
    mmu.write_byte(0xFF0F, 0x0A);
    assert_eq!(mmu.read_byte(0x8000), 0x01);
    assert_eq!(mmu.read_byte(0x9FFF), 0x02);
    assert_eq!(mmu.read_byte(0xFE00), 0x03);
    assert_eq!(mmu.read_byte(0xFE9F), 0x04);
    assert_eq!(mmu.read_byte(0xFF80), 0x05);
    assert_eq!(mmu.read_byte(0xFFFE), 0x06);
    assert_eq!(mmu.read_byte(0xFFFF), 0x1F);
    assert_eq!(mmu.read_byte(0xFF0F), 0x0A);
    assert_eq!(mmu.read_byte(0xFF47), 0xFC);
    assert_eq!(mmu.read_byte(0xFF26), 0x80);
    assert_eq!(mmu.read_byte(0xFF00), 0xEF);
}

#[test]
fn unusable_and_unmapped_addresses() {
    let mut mmu = machine(0);
    for address in 0xFEA0u16..=0xFEFF {
        mmu.write_byte(address, 0xFF);
        assert_eq!(mmu.read_byte(address), 0);
    }
    for address in [0xFF03u16, 0xFF08, 0xFF0E, 0xFF4C, 0xFF7F] {
        mmu.write_byte(address, 0xFF);
        assert_eq!(mmu.read_byte(address), 0);
    }
    mmu.write_byte(0xA000, 0x55);
    assert_eq!(mmu.read_byte(0xA000), 0);
}

#[test]
fn external_ram_goes_to_the_cartridge() {
    let mut mmu = machine(0x03);
    mmu.write_byte(0xA000, 0x55);
    assert_eq!(mmu.read_byte(0xA000), 0);
    mmu.write_byte(0x0000, 0x0A);
    mmu.write_byte(0xA000, 0x55);
    mmu.write_byte(0xBFFF, 0x66);
    assert_eq!(mmu.read_byte(0xA000), 0x55);
    assert_eq!(mmu.read_byte(0xBFFF), 0x66);
}

#[test]
fn words_are_little_endian() {
    let mut mmu = machine(0);
    mmu.write_word(0xC000, 0x1234);
    assert_eq!(mmu.read_byte(0xC000), 0x34);
    assert_eq!(mmu.read_byte(0xC001), 0x12);
    assert_eq!(mmu.read_word(0xC000), 0x1234);
    mmu.write_byte(0xFFFF, 0xAB);
    assert_eq!(mmu.read_word(0xFFFF), 0x12AB);
}

#[test]
fn writing_the_divider_resets_it() {
    for value in [0x00u8, 0x5A, 0xFF] {
        let mut mmu = machine(0);
        mmu.do_ticks(256 * 3);
        assert_eq!(mmu.read_byte(0xFF04), 3);
        mmu.write_byte(0xFF04, value);
        assert_eq!(mmu.read_byte(0xFF04), 0);
        mmu.do_ticks(255);
        assert_eq!(mmu.read_byte(0xFF04), 0);
        mmu.do_ticks(1);
        assert_eq!(mmu.read_byte(0xFF04), 1);
    }
}

#[test]
fn interrupt_lines_are_merged_into_the_request_register() {
    let mut mmu = machine(0);
    mmu.write_byte(0xFF0F, 0x80);
    // timer: overflow after 16 cycles
    mmu.write_byte(0xFF05, 0xFF);
    mmu.write_byte(0xFF07, 0x05);
    mmu.do_ticks(16);
    assert_eq!(mmu.read_byte(0xFF0F), 0x80);
    mmu.process_irq_requests();
    assert_eq!(mmu.read_byte(0xFF0F), 0x84);
    // joypad
    mmu.receive_event(GBKeyEvent { key_code: GBKeyCode::Start, state: GBKeyState::KeyDown });
    mmu.process_irq_requests();
    assert_eq!(mmu.read_byte(0xFF0F), 0x94);
    // serial port
    mmu.write_byte(0xFF01, b'x');
    mmu.write_byte(0xFF02, 0x81);
    mmu.process_irq_requests();
    assert_eq!(mmu.read_byte(0xFF0F), 0x9C);
    assert_eq!(mmu.take_serial_output(), vec![b'x']);
    // vertical blank, with the STAT source for mode 1
    mmu.write_byte(0xFF41, 0x10);
    mmu.write_byte(0xFF40, 0x91);
    mmu.write_byte(0xFF0F, 0x00);
    mmu.do_ticks(144 * 456);
    assert!(mmu.get_screen_updated());
    assert!(!mmu.get_screen_updated());
    mmu.process_irq_requests();
    assert_eq!(mmu.read_byte(0xFF0F) & 0x03, 0x03);
    mmu.write_byte(0xFF0F, 0x00);
    mmu.process_irq_requests();
    assert_eq!(mmu.read_byte(0xFF0F), 0x00);
}

#[test]
fn oam_transfer_copies_a_page() {
    let mut mmu = machine(0);
    for i in 0..0xA0u16 {
        mmu.write_byte(0xC100 + i, (i as u8) ^ 0x5A);
    }
    mmu.write_byte(0xC1A0, 0x99);
    mmu.write_byte(0xFF46, 0xC1);
    assert_eq!(mmu.read_byte(0xFF46), 0xC1);
    for i in 0..0xA0u16 {
        assert_eq!(mmu.read_byte(0xFE00 + i), (i as u8) ^ 0x5A);
    }
    mmu.write_byte(0xFF46, 0x00);
    assert_eq!(mmu.read_byte(0xFE00), 0x12);
    assert_eq!(mmu.read_byte(0xFE01), 0x00);
}

#[test]
fn screen_buffer_has_one_byte_per_pixel() {
    let mmu = machine(0);
    let screen = mmu.get_screen_buffer();
    assert_eq!(screen.len(), rustboy::SCREEN_WIDTH * rustboy::SCREEN_HEIGHT);
    assert!(screen.iter().all(|pixel| *pixel == 0));
}

#[test]
fn sound_registers_reach_the_sound_controller() {
    let mut mmu = machine(0);
    mmu.write_byte(0xFF12, 0xF0);
    mmu.write_byte(0xFF14, 0x80);
    assert_eq!(mmu.read_byte(0xFF26), 0x81);
    mmu.write_byte(0xFF24, 0x77);
    mmu.write_byte(0xFF25, 0x11);
    assert!(mmu.take_audio_buffer().is_none());
    mmu.do_ticks(87 * 400);
    match mmu.take_audio_buffer() {
        Some(buffer) => assert_eq!(buffer.len(), 800),
        None => panic!("400 stereo samples were made"),
    }
}
