use rustboy::joypad::Joypad;
use rustboy::serial::Serial;
use rustboy::timer::Timer;
use rustboy::{GBKeyCode, GBKeyEvent, GBKeyState};

fn key(key_code: GBKeyCode, state: GBKeyState) -> GBKeyEvent {
    GBKeyEvent { key_code, state }
}

#[test]
fn divider_counts_every_256_cycles() {
    let mut timer = Timer::new();
    timer.do_ticks(255);
    assert_eq!(timer.read_byte(0xFF04), 0);
    timer.do_ticks(1);
    assert_eq!(timer.read_byte(0xFF04), 1);
    timer.do_ticks(256 * 255);
    assert_eq!(timer.read_byte(0xFF04), 0);
}

#[test]
fn divider_reads_zero_for_256_cycles_after_any_write() {
    for value in [0x00u8, 0x01, 0x7F, 0xFF] {
        let mut timer = Timer::new();
        timer.do_ticks(256 * 5 + 255);
        assert_eq!(timer.read_byte(0xFF04), 5);
        timer.write_byte(0xFF04, value);
        assert_eq!(timer.read_byte(0xFF04), 0);
        for _ in 0..255 {
            timer.do_ticks(1);
            assert_eq!(timer.read_byte(0xFF04), 0);
        }
        timer.do_ticks(1);
        assert_eq!(timer.read_byte(0xFF04), 1);
    }
}

#[test]
fn timer_counts_at_the_selected_rate() {
    let rates: [(u8, usize); 4] = [(0, 1024), (1, 16), (2, 64), (3, 256)];
    for (code, period) in rates {
        let mut timer = Timer::new();
        timer.write_byte(0xFF07, 0x04 | code);
        assert_eq!(timer.read_byte(0xFF07), 0x04 | code);
        timer.do_ticks(period - 1);
        assert_eq!(timer.read_byte(0xFF05), 0);
        timer.do_ticks(1);
        assert_eq!(timer.read_byte(0xFF05), 1);
        timer.do_ticks(period * 10);
        assert_eq!(timer.read_byte(0xFF05), 11);
    }
}

#[test]
fn timer_overflow_reloads_the_modulo_and_raises_the_interrupt() {
    let mut timer = Timer::new();
    timer.write_byte(0xFF06, 0xAB);
    timer.write_byte(0xFF05, 0xFE);
    timer.write_byte(0xFF07, 0x05);
    assert_eq!(timer.read_byte(0xFF06), 0xAB);
    timer.do_ticks(16);
    assert_eq!(timer.read_byte(0xFF05), 0xFF);
    assert!(!timer.take_irq());
    timer.do_ticks(16);
    assert_eq!(timer.read_byte(0xFF05), 0xAB);
    assert!(timer.take_irq());
    assert!(!timer.take_irq());
}

#[test]
fn stopped_timer_does_not_count() {
    let mut timer = Timer::new();
    timer.write_byte(0xFF07, 0x01);
    timer.do_ticks(1000);
    assert_eq!(timer.read_byte(0xFF05), 0);
    assert_eq!(timer.read_byte(0xFF07), 0x01);
    assert_eq!(timer.read_byte(0xFF08), 0);
}

#[test]
fn joypad_rows() {
    let mut joypad = Joypad::new();
    assert_eq!(joypad.read(), 0xEF);
    joypad.receive_event(key(GBKeyCode::Right, GBKeyState::KeyDown));
    joypad.receive_event(key(GBKeyCode::Up, GBKeyState::KeyDown));
    joypad.receive_event(key(GBKeyCode::Start, GBKeyState::KeyDown));
    assert_eq!(joypad.read(), 0xEF - 0x01 - 0x04);
    joypad.write(0x10);
    assert_eq!(joypad.read(), 0xDF - 0x08);
    joypad.write(0x20);
    assert_eq!(joypad.read(), 0xEF - 0x01 - 0x04);
    joypad.write(0x30);
    assert_eq!(joypad.read(), 0xEF - 0x01 - 0x04);
    joypad.receive_event(key(GBKeyCode::Up, GBKeyState::KeyUp));
    assert_eq!(joypad.read(), 0xEF - 0x01);
}

#[test]
fn every_button_has_its_bit() {
    let directions = [(GBKeyCode::Right, 0x01), (GBKeyCode::Left, 0x02), (GBKeyCode::Up, 0x04), (GBKeyCode::Down, 0x08)];
    for (code, bit) in directions {
        let mut joypad = Joypad::new();
        joypad.write(0x20);
        joypad.receive_event(key(code, GBKeyState::KeyDown));
        assert_eq!(joypad.read(), 0xEF - bit);
    }
    let buttons = [(GBKeyCode::A, 0x01), (GBKeyCode::B, 0x02), (GBKeyCode::Select, 0x04), (GBKeyCode::Start, 0x08)];
    for (code, bit) in buttons {
        let mut joypad = Joypad::new();
        joypad.write(0x10);
        joypad.receive_event(key(code, GBKeyState::KeyDown));
        assert_eq!(joypad.read(), 0xDF - bit);
    }
}

#[test]
fn joypad_interrupt_on_a_fresh_press_only() {
    let mut joypad = Joypad::new();
    joypad.receive_event(key(GBKeyCode::A, GBKeyState::KeyUp));
    assert!(!joypad.take_irq());
    joypad.receive_event(key(GBKeyCode::A, GBKeyState::KeyDown));
    assert!(joypad.take_irq());
    joypad.receive_event(key(GBKeyCode::A, GBKeyState::KeyDown));
    assert!(!joypad.take_irq());
    joypad.receive_event(key(GBKeyCode::A, GBKeyState::KeyUp));
    assert!(!joypad.take_irq());
}

#[test]
fn joypad_state_set_at_once() {
    let mut joypad = Joypad::new();
    let mut state = [false; 8];
    state[GBKeyCode::Down.index()] = true;
    joypad.set_state(state);
    assert!(joypad.take_irq());
    assert_eq!(joypad.read(), 0xEF - 0x08);
    joypad.set_state(state);
    assert!(!joypad.take_irq());
    joypad.set_state([false; 8]);
    assert!(!joypad.take_irq());
    assert_eq!(joypad.read(), 0xEF);
}

#[test]
fn serial_port_sends_on_0x81() {
    let mut serial = Serial::new();
    assert_eq!(serial.read(0xFF01), 0);
    serial.write(0xFF01, b'H');
    assert_eq!(serial.read(0xFF01), b'H');
    serial.write(0xFF02, 0x80);
    assert_eq!(serial.read(0xFF02), 0);
    assert!(serial.take_output().is_empty());
    assert!(!serial.take_irq());
    serial.write(0xFF02, 0x81);
    assert_eq!(serial.read(0xFF02), 0x81);
    serial.write(0xFF01, b'i');
    serial.write(0xFF02, 0x81);
    assert!(serial.take_irq());
    assert_eq!(serial.take_output(), vec![b'H', b'i']);
    assert!(serial.take_output().is_empty());
    assert_eq!(serial.read(0xFF03), 0);
}
