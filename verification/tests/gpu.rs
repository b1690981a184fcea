use rustboy::gpu::{lookup_color, GPU};

#[test]
fn sprite_rows_to_color_values() {
    let first = 0b01010101;
    let second = 0b11000011;

    let result = GPU::sprite_row(first, second);

    assert_eq!(result[0], 2);
    assert_eq!(result[1], 3);
    assert_eq!(result[2], 0);
    assert_eq!(result[3], 1);
    assert_eq!(result[4], 0);
    assert_eq!(result[5], 1);
    assert_eq!(result[6], 2);
    assert_eq!(result[7], 3);
}

#[test]
fn palette_lookup() {
    assert_eq!(lookup_color(0xE4, 0), 0);
    assert_eq!(lookup_color(0xE4, 1), 1);
    assert_eq!(lookup_color(0xE4, 2), 2);
    assert_eq!(lookup_color(0xE4, 3), 3);
    assert_eq!(lookup_color(0x1B, 0), 3);
    assert_eq!(lookup_color(0x1B, 3), 0);
    assert_eq!(lookup_color(0xFC, 0), 0);
    assert_eq!(lookup_color(0xFC, 1), 3);
}

#[test]
fn registers_read_back() {
    let mut gpu = GPU::new();
    assert_eq!(gpu.read_byte(0xFF47), 0xFC);
    gpu.write_byte(0xFF40, 0x91);
    assert_eq!(gpu.read_byte(0xFF40), 0x91);
    gpu.write_byte(0xFF41, 0xFF);
    assert_eq!(gpu.read_byte(0xFF41), 0x78 | 0x04);
    gpu.write_byte(0xFF42, 0x12);
    gpu.write_byte(0xFF43, 0x34);
    gpu.write_byte(0xFF45, 0x56);
    gpu.write_byte(0xFF4A, 0x78);
    gpu.write_byte(0xFF4B, 0x9A);
    assert_eq!(gpu.read_byte(0xFF42), 0x12);
    assert_eq!(gpu.read_byte(0xFF43), 0x34);
    assert_eq!(gpu.read_byte(0xFF45), 0x56);
    assert_eq!(gpu.read_byte(0xFF4A), 0x78);
    assert_eq!(gpu.read_byte(0xFF4B), 0x9A);
    gpu.write_byte(0x8123, 0xAB);
    assert_eq!(gpu.read_byte(0x8123), 0xAB);
    gpu.write_byte(0xFE9F, 0xCD);
    assert_eq!(gpu.read_byte(0xFE9F), 0xCD);
    assert_eq!(gpu.read_byte(0xFF4C), 0);
    gpu.write_byte(0xFF4C, 0xFF);
    assert_eq!(gpu.read_byte(0xFF4C), 0);
}

#[test]
fn line_counter_stays_below_154_and_vblank_is_mode_1() {
    let mut gpu = GPU::new();
    gpu.write_byte(0xFF40, 0x91);
    let mut seen_vblank = false;
    let mut seen_wrap = false;
    let mut last = 0;
    for _ in 0..(2 * 70224 / 4) {
        gpu.do_ticks(4);
        let line = gpu.read_byte(0xFF44);
        let mode = gpu.read_byte(0xFF41) & 0x03;
        assert!(line < 154);
        if line >= 144 {
            assert_eq!(mode, 1);
            seen_vblank = true;
        }
        if line < last {
            seen_wrap = true;
            assert_eq!(last, 153);
        }
        last = line;
    }
    assert!(seen_vblank);
    assert!(seen_wrap);
}

#[test]
fn modes_follow_the_cycles_of_a_line() {
    let mut gpu = GPU::new();
    gpu.write_byte(0xFF40, 0x91);
    gpu.do_ticks(1);
    assert_eq!(gpu.read_byte(0xFF41) & 0x03, 2);
    gpu.do_ticks(78);
    assert_eq!(gpu.read_byte(0xFF41) & 0x03, 2);
    gpu.do_ticks(1);
    assert_eq!(gpu.read_byte(0xFF41) & 0x03, 3);
    gpu.do_ticks(171);
    assert_eq!(gpu.read_byte(0xFF41) & 0x03, 3);
    gpu.do_ticks(1);
    assert_eq!(gpu.read_byte(0xFF41) & 0x03, 0);
    gpu.do_ticks(203);
    assert_eq!(gpu.read_byte(0xFF41) & 0x03, 0);
    assert_eq!(gpu.read_byte(0xFF44), 0);
    gpu.do_ticks(1);
    assert_eq!(gpu.read_byte(0xFF44), 1);
    assert_eq!(gpu.read_byte(0xFF41) & 0x03, 2);
}

#[test]
fn vblank_raises_the_interrupt_and_the_frame_flag() {
    let mut gpu = GPU::new();
    gpu.write_byte(0xFF40, 0x91);
    gpu.do_ticks(144 * 456 - 1);
    assert!(!gpu.take_irq_vblank());
    assert!(!gpu.take_screen_update());
    gpu.do_ticks(1);
    assert_eq!(gpu.read_byte(0xFF44), 144);
    assert!(gpu.take_irq_vblank());
    assert!(!gpu.take_irq_vblank());
    assert!(gpu.take_screen_update());
    assert!(!gpu.take_screen_update());
}

#[test]
fn stat_interrupt_sources() {
    let mut gpu = GPU::new();
    gpu.write_byte(0xFF40, 0x91);
    gpu.do_ticks(300);
    assert!(!gpu.take_irq_stat());
    gpu.write_byte(0xFF41, 0x40);
    gpu.write_byte(0xFF45, 2);
    gpu.do_ticks(456);
    assert!(!gpu.take_irq_stat());
    gpu.do_ticks(456);
    assert_eq!(gpu.read_byte(0xFF44), 2);
    assert!(gpu.take_irq_stat());
    gpu.write_byte(0xFF41, 0x08);
    gpu.do_ticks(456);
    assert!(gpu.take_irq_stat());
}

#[test]
fn switching_the_display_off_resets_line_and_mode_at_once() {
    let mut gpu = GPU::new();
    gpu.write_byte(0xFF40, 0x91);
    gpu.do_ticks(456 * 5 + 100);
    assert_eq!(gpu.read_byte(0xFF44), 5);
    assert_eq!(gpu.read_byte(0xFF41) & 0x03, 3);
    let screen = gpu.get_screen_buffer();
    gpu.write_byte(0xFF40, 0x00);
    assert_eq!(gpu.read_byte(0xFF44), 0);
    assert_eq!(gpu.read_byte(0xFF41) & 0x03, 0);
    gpu.do_ticks(0);
    assert_eq!(gpu.read_byte(0xFF44), 0);
    assert_eq!(gpu.read_byte(0xFF41) & 0x03, 0);
    gpu.do_ticks(1000);
    assert_eq!(gpu.read_byte(0xFF44), 0);
    assert_eq!(gpu.read_byte(0xFF41) & 0x03, 0);
    assert_eq!(gpu.get_screen_buffer(), screen);
    assert!(!gpu.take_irq_vblank());
    assert!(!gpu.take_screen_update());
}

#[test]
fn mode_is_settled_even_when_no_cycle_passes() {
    let mut gpu = GPU::new();
    gpu.write_byte(0xFF40, 0x80);
    assert_eq!(gpu.read_byte(0xFF41) & 0x03, 0);
    gpu.do_ticks(0);
    assert_eq!(gpu.read_byte(0xFF41) & 0x03, 2);
    assert_eq!(gpu.read_byte(0xFF44), 0);
    gpu.do_ticks(0);
    assert_eq!(gpu.read_byte(0xFF41) & 0x03, 2);
    // switched off in the middle of a line and on again: the mode of that cycle is entered
    gpu.do_ticks(300);
    assert_eq!(gpu.read_byte(0xFF41) & 0x03, 0);
    gpu.write_byte(0xFF40, 0x00);
    gpu.write_byte(0xFF40, 0x80);
    gpu.do_ticks(0);
    assert_eq!(gpu.read_byte(0xFF44), 0);
    assert_eq!(gpu.read_byte(0xFF41) & 0x03, 0);
    gpu.do_ticks(456 - 300);
    assert_eq!(gpu.read_byte(0xFF44), 1);
    assert_eq!(gpu.read_byte(0xFF41) & 0x03, 2);
}

#[test]
fn lcd_off_holds_line_and_mode_at_zero() {
    let mut gpu = GPU::new();
    gpu.write_byte(0xFF40, 0x91);
    gpu.do_ticks(456 * 3 + 100);
    assert_eq!(gpu.read_byte(0xFF44), 3);
    gpu.write_byte(0xFF40, 0x11);
    gpu.do_ticks(1);
    assert_eq!(gpu.read_byte(0xFF44), 0);
    assert_eq!(gpu.read_byte(0xFF41) & 0x03, 0);
    gpu.do_ticks(5000);
    assert_eq!(gpu.read_byte(0xFF44), 0);
}

#[test]
fn background_is_drawn_through_map_tiles_and_palette() {
    let mut gpu = GPU::new();
    gpu.write_byte(0xFF47, 0x1B);
    // tile 1: the first row has the values 0 1 2 3 0 1 2 3
    gpu.write_byte(0x8010, 0b0101_0101);
    gpu.write_byte(0x8011, 0b0011_0011);
    // the second tile of the first row of the map shows tile 1
    gpu.write_byte(0x9801, 1);
    gpu.write_byte(0xFF40, 0x91);
    gpu.do_ticks(80);
    let screen = gpu.get_screen_buffer();
    assert_eq!(screen.len(), 160 * 144);
    for x in 0..8 {
        assert_eq!(screen[x], 3);
    }
    assert_eq!(&screen[8..16], &[3, 2, 1, 0, 3, 2, 1, 0]);
    assert_eq!(screen[16], 3);
    assert_eq!(screen[160], 0);
}

#[test]
fn background_scrolls_and_wraps() {
    let mut gpu = GPU::new();
    gpu.write_byte(0xFF47, 0xE4);
    gpu.write_byte(0x8010, 0xFF);
    gpu.write_byte(0x8011, 0xFF);
    // the last tile of the first row of the map shows tile 1
    gpu.write_byte(0x981F, 1);
    gpu.write_byte(0xFF43, 250);
    gpu.write_byte(0xFF40, 0x91);
    gpu.do_ticks(80);
    let screen = gpu.get_screen_buffer();
    // column 250 of the picture is column 2 of the last tile
    for x in 0..6 {
        assert_eq!(screen[x], 3);
    }
    assert_eq!(screen[6], 0);
}

#[test]
fn signed_tile_numbers() {
    let mut gpu = GPU::new();
    gpu.write_byte(0xFF47, 0xE4);
    // tile -1 lies at 0x8FF0, tile 1 at 0x9010
    gpu.write_byte(0x8FF0, 0xFF);
    gpu.write_byte(0x9010, 0xFF);
    gpu.write_byte(0x9011, 0xFF);
    gpu.write_byte(0x9800, 0xFF);
    gpu.write_byte(0x9801, 0x01);
    gpu.write_byte(0xFF40, 0x81);
    gpu.do_ticks(80);
    let screen = gpu.get_screen_buffer();
    assert_eq!(screen[0], 1);
    assert_eq!(screen[8], 3);
    assert_eq!(screen[16], 0);
}

#[test]
fn window_is_drawn_from_its_own_map_and_line() {
    let mut gpu = GPU::new();
    gpu.write_byte(0xFF47, 0xE4);
    gpu.write_byte(0x8010, 0xFF);
    gpu.write_byte(0x8011, 0x00);
    // the window uses the map at 0x9C00, whose first tile is tile 1
    gpu.write_byte(0x9C00, 1);
    gpu.write_byte(0xFF4A, 1);
    gpu.write_byte(0xFF4B, 7 + 80);
    gpu.write_byte(0xFF40, 0x91 | 0x20 | 0x40);
    gpu.do_ticks(456 + 80);
    let screen = gpu.get_screen_buffer();
    // line 0 is above the window
    assert_eq!(screen[80], 0);
    // line 1 shows the first line of the window from column 80 on
    assert_eq!(screen[160 + 79], 0);
    for x in 80..88 {
        assert_eq!(screen[160 + x], 1);
    }
    assert_eq!(screen[160 + 88], 0);
}

fn sprite_scene(positions: &[u8]) -> Vec<u8> {
    let mut gpu = GPU::new();
    gpu.write_byte(0xFF47, 0xE4);
    gpu.write_byte(0xFF48, 0xE4);
    for row in 0..16 {
        gpu.write_byte(0x8010 + row, 0xFF);
    }
    for (i, x) in positions.iter().enumerate() {
        let entry = 0xFE00 + 4 * i as u16;
        gpu.write_byte(entry, 16);
        gpu.write_byte(entry + 1, *x);
        gpu.write_byte(entry + 2, 1);
        gpu.write_byte(entry + 3, 0);
    }
    gpu.write_byte(0xFF40, 0x93);
    gpu.do_ticks(80);
    gpu.get_screen_buffer()
}

#[test]
fn at_most_ten_sprites_per_line() {
    let positions: Vec<u8> = (0..11).map(|i| 8 + 8 * i).collect();
    let screen = sprite_scene(&positions);
    for x in 0..80 {
        assert_eq!(screen[x], 3);
    }
    for x in 80..88 {
        assert_eq!(screen[x], 0);
    }
}

#[test]
fn sprite_limit_goes_by_the_order_of_the_attribute_memory() {
    let positions: Vec<u8> = (0..11).map(|i| 8 + 8 * (10 - i)).collect();
    let screen = sprite_scene(&positions);
    for x in 0..8 {
        assert_eq!(screen[x], 0);
    }
    for x in 8..88 {
        assert_eq!(screen[x], 3);
    }
}

#[test]
fn sprite_attributes() {
    let mut gpu = GPU::new();
    gpu.write_byte(0xFF47, 0xE4);
    gpu.write_byte(0xFF48, 0xE4);
    gpu.write_byte(0xFF49, 0x1B);
    // tile 1, first row: values 1 0 0 0 0 0 0 3; last row: all 2
    gpu.write_byte(0x8010, 0b1000_0001);
    gpu.write_byte(0x8011, 0b0000_0001);
    gpu.write_byte(0x801E, 0x00);
    gpu.write_byte(0x801F, 0xFF);
    // tile 2 is the background under the third sprite: all 1
    gpu.write_byte(0x8020, 0xFF);
    gpu.write_byte(0x9804, 2);
    // plain, mirrored with the second palette, behind the background, upside down
    let sprites: [[u8; 4]; 4] = [[16, 8, 1, 0x00], [16, 24, 1, 0x30], [16, 40, 1, 0x80], [16, 56, 1, 0x40]];
    for (i, sprite) in sprites.iter().enumerate() {
        for (j, byte) in sprite.iter().enumerate() {
            gpu.write_byte(0xFE00 + (4 * i + j) as u16, *byte);
        }
    }
    gpu.write_byte(0xFF40, 0x93);
    gpu.do_ticks(80);
    let screen = gpu.get_screen_buffer();
    assert_eq!(&screen[0..8], &[1, 0, 0, 0, 0, 0, 0, 3]);
    assert_eq!(&screen[16..24], &[0, 0, 0, 0, 0, 0, 0, 2]);
    assert_eq!(&screen[32..40], &[1, 1, 1, 1, 1, 1, 1, 1]);
    assert_eq!(&screen[48..56], &[2, 2, 2, 2, 2, 2, 2, 2]);
}

#[test]
fn tall_sprites_use_two_tiles() {
    let mut gpu = GPU::new();
    gpu.write_byte(0xFF48, 0xE4);
    // tile 3 holds the lower half of the sprite made of tiles 2 and 3
    gpu.write_byte(0x8030, 0xFF);
    gpu.write_byte(0x8031, 0xFF);
    // the sprite starts 8 lines above the screen, so line 0 shows row 8
    gpu.write_byte(0xFE00, 8);
    gpu.write_byte(0xFE01, 8);
    gpu.write_byte(0xFE02, 3);
    gpu.write_byte(0xFF40, 0x97);
    gpu.do_ticks(80);
    let screen = gpu.get_screen_buffer();
    for x in 0..8 {
        assert_eq!(screen[x], 3);
    }
    assert_eq!(screen[8], 0);
}
