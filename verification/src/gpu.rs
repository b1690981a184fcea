use vstd::prelude::*;
use crate::bits::{bit_at, bit_if, flag_bit, get_bit, has_bit, test_bit};

verus! {

/// Size of the video RAM.
pub const VRAM_SIZE: usize = 0x2000;

/// Size of the sprite attribute memory: 40 sprites of four bytes.
pub const VOAM_SIZE: usize = 0xA0;

/// Number of pixels of the screen.
pub const SCREEN_SIZE: usize = 23040;

/// Number of cycles that one line takes.
pub const LINE_CYCLES: usize = 456;

/// Number of sprites that one line can show.
pub const SPRITES_PER_LINE: usize = 10;

/// The registers and lines of the display controller.
#[derive(Debug, Copy, Clone, PartialEq, Eq, Structural)]
pub struct LcdRegisters {
    /// Raised when a frame is complete; lowered by whoever collects it.
    pub screen_update: bool,
    pub irq_vblank: bool,
    pub irq_stat: bool,
    /// The cycles spent in the current line.
    pub clock: usize,
    /// LCDC bit 7.
    pub lcd_enabled: bool,
    /// LCDC bit 6: the window reads the tile map at 0x1C00 of the video
    /// RAM, not the one at 0x1800.
    pub window_tilemap_select: bool,
    /// LCDC bit 5.
    pub window_enable: bool,
    /// LCDC bit 4: tile numbers count from 0x0000 of the video RAM; else
    /// they are signed and count from 0x1000.
    pub bg_window_tile_addressing: bool,
    /// LCDC bit 3: the background reads the tile map at 0x1C00.
    pub bg_tilemap_select: bool,
    /// LCDC bit 2: sprites are 16 lines high, not 8.
    pub sprite_size: bool,
    /// LCDC bit 1.
    pub sprite_enable: bool,
    /// LCDC bit 0.
    pub bg_window_priority: bool,
    /// STAT bits 0 and 1.
    pub mode: u8,
    /// STAT bits 3 to 6: the sources of the STAT interrupt.
    pub irq_m0_enable: bool,
    pub irq_m1_enable: bool,
    pub irq_m2_enable: bool,
    pub irq_lyc_enable: bool,
    pub scroll_y: u8,
    pub scroll_x: u8,
    /// LY.
    pub line: u8,
    /// LYC.
    pub line_compare: u8,
    pub bg_palette: u8,
    /// OBP0.
    pub obj_palette_1: u8,
    /// OBP1.
    pub obj_palette_2: u8,
    pub window_y: u8,
    pub window_x: u8,
    /// The line of the window that is drawn next.
    pub window_line: u8,
}

/// The display controller as contracts see it.
pub struct GpuView {
    /// The screen, row by row from the top: one palette colour in 0..4
    /// per pixel.
    pub screen: Seq<u8>,
    pub vram: Seq<u8>,
    pub oam: Seq<u8>,
    pub regs: LcdRegisters,
}

/// The colour that a palette gives to a tile value.
pub open spec fn palette_color(palette: u8, index: u8) -> u8 {
    if index == 0 {
        palette % 4
    } else if index == 1 {
        (palette / 4) % 4
    } else if index == 2 {
        (palette / 16) % 4
    } else {
        palette / 64
    }
}

/// The tile value at a column of one row of a tile; column 0 is the
/// leftmost. The first byte of the row holds the low bits, the second the
/// high bits, the leftmost column in bit 7.
pub open spec fn row_pixel(low: u8, high: u8, column: int) -> u8 {
    (bit_at(low, 7 - column) + 2 * bit_at(high, 7 - column)) as u8
}

/// The mode that belongs to a place in the frame: 1 in the ten lines of
/// the vertical blank; else 2 for the first 80 cycles of the line, 3 up to
/// cycle 252, 0 for the rest.
pub open spec fn target_mode(line: u8, clock: nat) -> u8 {
    if line >= 144 {
        1
    } else if clock < 80 {
        2
    } else if clock < 252 {
        3
    } else {
        0
    }
}

impl LcdRegisters {
    /// The registers as they are when the machine starts.
    pub open spec fn initial() -> LcdRegisters {
        LcdRegisters {
            screen_update: false,
            irq_vblank: false,
            irq_stat: false,
            clock: 0,
            lcd_enabled: false,
            window_tilemap_select: false,
            window_enable: false,
            bg_window_tile_addressing: false,
            bg_tilemap_select: false,
            sprite_size: false,
            sprite_enable: false,
            bg_window_priority: false,
            mode: 0,
            irq_m0_enable: false,
            irq_m1_enable: false,
            irq_m2_enable: false,
            irq_lyc_enable: false,
            scroll_y: 0,
            scroll_x: 0,
            line: 0,
            line_compare: 0,
            bg_palette: 0xFC,
            obj_palette_1: 0xFF,
            obj_palette_2: 0xFF,
            window_y: 0,
            window_x: 0,
            window_line: 0,
        }
    }
}

impl LcdRegisters {
    /// The registers while the display is off: LY, the mode and the line of
    /// the window are 0.
    pub open spec fn held(self) -> LcdRegisters {
        LcdRegisters { line: 0, mode: 0, window_line: 0, ..self }
    }

    /// The registers after a write to one of them. A write to LY restarts
    /// the line count; STAT takes its four interrupt sources; a write to
    /// LCDC that switches the display off brings LY and the mode to 0.
    pub open spec fn written(self, address: u16, value: u8) -> LcdRegisters {
        if address == 0xFF40 {
            let control = LcdRegisters {
                lcd_enabled: has_bit(value, 0x80),
                window_tilemap_select: has_bit(value, 0x40),
                window_enable: has_bit(value, 0x20),
                bg_window_tile_addressing: has_bit(value, 0x10),
                bg_tilemap_select: has_bit(value, 0x08),
                sprite_size: has_bit(value, 0x04),
                sprite_enable: has_bit(value, 0x02),
                bg_window_priority: has_bit(value, 0x01),
                ..self
            };
            if has_bit(value, 0x80) {
                control
            } else {
                control.held()
            }
        } else if address == 0xFF41 {
            LcdRegisters {
                irq_lyc_enable: has_bit(value, 0x40),
                irq_m2_enable: has_bit(value, 0x20),
                irq_m1_enable: has_bit(value, 0x10),
                irq_m0_enable: has_bit(value, 0x08),
                ..self
            }
        } else if address == 0xFF42 {
            LcdRegisters { scroll_y: value, ..self }
        } else if address == 0xFF43 {
            LcdRegisters { scroll_x: value, ..self }
        } else if address == 0xFF44 {
            LcdRegisters { line: 0, ..self }
        } else if address == 0xFF45 {
            LcdRegisters { line_compare: value, ..self }
        } else if address == 0xFF47 {
            LcdRegisters { bg_palette: value, ..self }
        } else if address == 0xFF48 {
            LcdRegisters { obj_palette_1: value, ..self }
        } else if address == 0xFF49 {
            LcdRegisters { obj_palette_2: value, ..self }
        } else if address == 0xFF4A {
            LcdRegisters { window_y: value, ..self }
        } else if address == 0xFF4B {
            LcdRegisters { window_x: value, ..self }
        } else {
            self
        }
    }

    /// The registers at the start of the next line: LY wraps from 153 to
    /// 0, where the window starts anew, and the STAT interrupt is raised
    /// where LY reaches LYC and STAT enables that source.
    pub open spec fn next_line(self) -> LcdRegisters {
        let line: u8 = if self.line >= 153 {
            0
        } else {
            (self.line + 1) as u8
        };
        LcdRegisters {
            clock: 0,
            line,
            window_line: if line == 0 {
                0
            } else {
                self.window_line
            },
            irq_stat: self.irq_stat || (self.irq_lyc_enable && line == self.line_compare),
            ..self
        }
    }

    /// The registers one cycle later, before the mode is settled. While the
    /// display is off, nothing moves.
    pub open spec fn advanced(self) -> LcdRegisters {
        if !self.lcd_enabled {
            self
        } else if self.clock + 1 >= 456 {
            self.next_line()
        } else {
            LcdRegisters { clock: (self.clock + 1) as usize, ..self }
        }
    }

    /// The registers after a mode other than 3 was entered: mode 1
    /// completes the frame and raises the vertical blank interrupt, and
    /// each of the modes 0, 1 and 2 raises the STAT interrupt where STAT
    /// enables it.
    pub open spec fn entered(self, mode: u8) -> LcdRegisters {
        if mode == 1 {
            LcdRegisters {
                mode,
                screen_update: true,
                irq_vblank: true,
                irq_stat: self.irq_stat || self.irq_m1_enable,
                ..self
            }
        } else if mode == 2 {
            LcdRegisters { mode, irq_stat: self.irq_stat || self.irq_m2_enable, ..self }
        } else if mode == 3 {
            LcdRegisters { mode, ..self }
        } else {
            LcdRegisters { mode, irq_stat: self.irq_stat || self.irq_m0_enable, ..self }
        }
    }

    fn write(self, address: u16, value: u8) -> (regs: LcdRegisters)
        ensures
            regs == self.written(address, value),
    {
        if address == 0xFF40 {
            let control = LcdRegisters {
                lcd_enabled: test_bit(value, 0x80),
                window_tilemap_select: test_bit(value, 0x40),
                window_enable: test_bit(value, 0x20),
                bg_window_tile_addressing: test_bit(value, 0x10),
                bg_tilemap_select: test_bit(value, 0x08),
                sprite_size: test_bit(value, 0x04),
                sprite_enable: test_bit(value, 0x02),
                bg_window_priority: test_bit(value, 0x01),
                ..self
            };
            if control.lcd_enabled {
                control
            } else {
                LcdRegisters { line: 0, mode: 0, window_line: 0, ..control }
            }
        } else if address == 0xFF41 {
            LcdRegisters {
                irq_lyc_enable: test_bit(value, 0x40),
                irq_m2_enable: test_bit(value, 0x20),
                irq_m1_enable: test_bit(value, 0x10),
                irq_m0_enable: test_bit(value, 0x08),
                ..self
            }
        } else if address == 0xFF42 {
            LcdRegisters { scroll_y: value, ..self }
        } else if address == 0xFF43 {
            LcdRegisters { scroll_x: value, ..self }
        } else if address == 0xFF44 {
            LcdRegisters { line: 0, ..self }
        } else if address == 0xFF45 {
            LcdRegisters { line_compare: value, ..self }
        } else if address == 0xFF47 {
            LcdRegisters { bg_palette: value, ..self }
        } else if address == 0xFF48 {
            LcdRegisters { obj_palette_1: value, ..self }
        } else if address == 0xFF49 {
            LcdRegisters { obj_palette_2: value, ..self }
        } else if address == 0xFF4A {
            LcdRegisters { window_y: value, ..self }
        } else if address == 0xFF4B {
            LcdRegisters { window_x: value, ..self }
        } else {
            self
        }
    }

    fn advance(self) -> (regs: LcdRegisters)
        requires
            self.clock < 456,
        ensures
            regs == self.advanced(),
    {
        if !self.lcd_enabled {
            self
        } else if self.clock + 1 >= LINE_CYCLES {
            let line: u8 = if self.line >= 153 { 0 } else { self.line + 1 };
            LcdRegisters {
                clock: 0,
                line,
                window_line: if line == 0 { 0 } else { self.window_line },
                irq_stat: self.irq_stat || (self.irq_lyc_enable && line == self.line_compare),
                ..self
            }
        } else {
            LcdRegisters { clock: self.clock + 1, ..self }
        }
    }

    fn enter(self, mode: u8) -> (regs: LcdRegisters)
        ensures
            regs == self.entered(mode),
    {
        if mode == 1 {
            LcdRegisters {
                mode,
                screen_update: true,
                irq_vblank: true,
                irq_stat: self.irq_stat || self.irq_m1_enable,
                ..self
            }
        } else if mode == 2 {
            LcdRegisters { mode, irq_stat: self.irq_stat || self.irq_m2_enable, ..self }
        } else if mode == 3 {
            LcdRegisters { mode, ..self }
        } else {
            LcdRegisters { mode, irq_stat: self.irq_stat || self.irq_m0_enable, ..self }
        }
    }
}

impl GpuView {
    /// The memories have their sizes, the counters are in their ranges,
    /// and every pixel is one of four colours.
    pub open spec fn in_range(self) -> bool {
        &&& self.screen.len() == 23040
        &&& self.vram.len() == 0x2000
        &&& self.oam.len() == 0xA0
        &&& self.regs.clock < 456
        &&& self.regs.mode <= 3
        &&& self.regs.line < 154
        &&& forall|p: int| 0 <= p < 23040 ==> #[trigger] self.screen[p] <= 3
    }

    /// What holds of the controller between any two operations: all is in
    /// range, the mode is 1 throughout the lines from 144 on, and while
    /// the display is off LY and the mode are 0.
    pub open spec fn wf(self) -> bool {
        &&& self.in_range()
        &&& (self.regs.line >= 144 ==> self.regs.mode == 1)
        &&& (!self.regs.lcd_enabled ==> self.regs.line == 0 && self.regs.mode == 0)
    }

    pub open spec fn initial() -> GpuView {
        GpuView {
            screen: Seq::new(23040, |p: int| 0u8),
            vram: Seq::new(0x2000, |p: int| 0u8),
            oam: Seq::new(0xA0, |p: int| 0u8),
            regs: LcdRegisters::initial(),
        }
    }

    /// The view with other registers.
    pub open spec fn with_regs(self, regs: LcdRegisters) -> GpuView {
        GpuView { regs, ..self }
    }

    /// The LCDC register.
    pub open spec fn lcdc(self) -> u8 {
        (bit_if(self.regs.lcd_enabled, 0x80) + bit_if(self.regs.window_tilemap_select, 0x40) + bit_if(
            self.regs.window_enable,
            0x20,
        ) + bit_if(self.regs.bg_window_tile_addressing, 0x10) + bit_if(self.regs.bg_tilemap_select, 0x08)
            + bit_if(self.regs.sprite_size, 0x04) + bit_if(self.regs.sprite_enable, 0x02) + bit_if(
            self.regs.bg_window_priority,
            0x01,
        )) as u8
    }

    /// The STAT register: the interrupt sources, bit 2 while LY equals LYC,
    /// and the mode.
    pub open spec fn stat(self) -> u8 {
        (bit_if(self.regs.irq_lyc_enable, 0x40) + bit_if(self.regs.irq_m2_enable, 0x20) + bit_if(
            self.regs.irq_m1_enable,
            0x10,
        ) + bit_if(self.regs.irq_m0_enable, 0x08) + bit_if(self.regs.line == self.regs.line_compare, 0x04)
            + self.regs.mode) as u8
    }

    /// Addresses that the controller does not have read 0.
    pub open spec fn read_byte(self, address: u16) -> u8 {
        if 0x8000 <= address <= 0x9FFF {
            self.vram[address - 0x8000]
        } else if 0xFE00 <= address <= 0xFE9F {
            self.oam[address - 0xFE00]
        } else if address == 0xFF40 {
            self.lcdc()
        } else if address == 0xFF41 {
            self.stat()
        } else if address == 0xFF42 {
            self.regs.scroll_y
        } else if address == 0xFF43 {
            self.regs.scroll_x
        } else if address == 0xFF44 {
            self.regs.line
        } else if address == 0xFF45 {
            self.regs.line_compare
        } else if address == 0xFF47 {
            self.regs.bg_palette
        } else if address == 0xFF48 {
            self.regs.obj_palette_1
        } else if address == 0xFF49 {
            self.regs.obj_palette_2
        } else if address == 0xFF4A {
            self.regs.window_y
        } else if address == 0xFF4B {
            self.regs.window_x
        } else {
            0
        }
    }

    /// A write to the video RAM, the attribute memory or a register; writes
    /// to addresses that the controller does not have are dropped.
    pub open spec fn write_byte(self, address: u16, value: u8) -> GpuView {
        if 0x8000 <= address <= 0x9FFF {
            GpuView { vram: self.vram.update(address - 0x8000, value), ..self }
        } else if 0xFE00 <= address <= 0xFE9F {
            GpuView { oam: self.oam.update(address - 0xFE00, value), ..self }
        } else {
            self.with_regs(self.regs.written(address, value))
        }
    }

    /// Where in the video RAM the data of a background or window tile
    /// starts.
    pub open spec fn tile_data_address(self, tile: u8) -> int {
        if self.regs.bg_window_tile_addressing {
            tile * 16
        } else if tile < 128 {
            0x1000 + tile * 16
        } else {
            0x1000 - (256 - tile) * 16
        }
    }

    /// The tile value at a pixel of the 256 by 256 picture that a tile map
    /// describes.
    pub open spec fn tile_pixel(self, map_base: int, px: int, py: int) -> u8 {
        let tile = self.vram[map_base + (py / 8) * 32 + px / 8];
        let address = self.tile_data_address(tile) + (py % 8) * 2;
        row_pixel(self.vram[address], self.vram[address + 1], px % 8)
    }

    pub open spec fn bg_map_base(self) -> int {
        if self.regs.bg_tilemap_select {
            0x1C00
        } else {
            0x1800
        }
    }

    pub open spec fn window_map_base(self) -> int {
        if self.regs.window_tilemap_select {
            0x1C00
        } else {
            0x1800
        }
    }

    /// The tile value of the background at column `x` of the current line:
    /// the picture is shifted by the scroll registers and wraps at 256.
    pub open spec fn bg_pixel(self, x: int) -> u8 {
        self.tile_pixel(
            self.bg_map_base(),
            (x + self.regs.scroll_x) % 256,
            (self.regs.line + self.regs.scroll_y) % 256,
        )
    }

    /// Whether the window shows on the current line.
    pub open spec fn window_on_line(self) -> bool {
        self.regs.window_enable && self.regs.line >= self.regs.window_y && self.regs.window_x <= 166
    }

    /// Whether the window covers column `x` of the current line: its left
    /// edge is at column WX - 7.
    pub open spec fn window_covers(self, x: int) -> bool {
        self.window_on_line() && x + 7 >= self.regs.window_x
    }

    /// The tile value of the window at column `x` of the current line.
    pub open spec fn window_pixel(self, x: int) -> u8 {
        self.tile_pixel(self.window_map_base(), x + 7 - self.regs.window_x, self.regs.window_line as int)
    }

    /// The tile value under the sprites at column `x` of the current line.
    pub open spec fn background_index(self, x: int) -> u8 {
        if self.window_covers(x) {
            self.window_pixel(x)
        } else {
            self.bg_pixel(x)
        }
    }

    pub open spec fn sprite_height(self) -> int {
        if self.regs.sprite_size {
            16
        } else {
            8
        }
    }

    /// Whether sprite `i` has a row on the current line: its first byte is
    /// the line of its top edge plus 16.
    pub open spec fn sprite_on_line(self, i: int) -> bool {
        self.oam[4 * i] <= self.regs.line + 16 < self.oam[4 * i] + self.sprite_height()
    }

    /// The sprites among the first `upto` that show on the current line, in
    /// the order of the attribute memory; after the tenth no more are taken.
    pub open spec fn visible_sprites(self, upto: int) -> Seq<usize>
        decreases upto,
    {
        if upto <= 0 {
            Seq::empty()
        } else {
            let before = self.visible_sprites(upto - 1);
            if before.len() < 10 && self.sprite_on_line(upto - 1) {
                before.push((upto - 1) as usize)
            } else {
                before
            }
        }
    }

    /// The tile value of sprite `i` at column `x` of the current line; 0,
    /// which is transparent, where the sprite does not reach. The second
    /// byte of a sprite is the column of its left edge plus 8, the third
    /// its tile, the fourth its attributes: bit 5 mirrors it left to right,
    /// bit 6 top to bottom.
    pub open spec fn sprite_color(self, i: int, x: int) -> u8 {
        let left = self.oam[4 * i + 1];
        let attributes = self.oam[4 * i + 3];
        if left <= x + 8 < left + 8 {
            let column = x + 8 - left;
            let row = self.regs.line + 16 - self.oam[4 * i];
            let tile_row = if has_bit(attributes, 0x40) {
                self.sprite_height() - 1 - row
            } else {
                row
            };
            let tile_column = if has_bit(attributes, 0x20) {
                7 - column
            } else {
                column
            };
            let tile = if self.regs.sprite_size {
                self.oam[4 * i + 2] - self.oam[4 * i + 2] % 2
            } else {
                self.oam[4 * i + 2] as int
            };
            let address = tile * 16 + tile_row * 2;
            row_pixel(self.vram[address], self.vram[address + 1], tile_column)
        } else {
            0
        }
    }

    /// The first sprite of `sprites`, from position `from` on, that is not
    /// transparent at column `x`.
    pub open spec fn top_sprite(self, sprites: Seq<usize>, x: int, from: int) -> Option<usize>
        decreases sprites.len() - from,
    {
        if from < 0 || from >= sprites.len() {
            None
        } else if self.sprite_color(sprites[from] as int, x) != 0 {
            Some(sprites[from])
        } else {
            self.top_sprite(sprites, x, from + 1)
        }
    }

    /// The colour of column `x` of the current line. Where a sprite shows,
    /// it is drawn with the palette that bit 4 of its attributes selects,
    /// unless bit 7 puts it behind a background that is not 0.
    pub open spec fn pixel(self, x: int) -> u8 {
        let under = self.background_index(x);
        let sprite = if self.regs.sprite_enable {
            self.top_sprite(self.visible_sprites(40), x, 0)
        } else {
            None
        };
        match sprite {
            Some(i) => {
                let attributes = self.oam[4 * i + 3];
                if has_bit(attributes, 0x80) && under != 0 {
                    palette_color(self.regs.bg_palette, under)
                } else {
                    palette_color(
                        if has_bit(attributes, 0x10) {
                            self.regs.obj_palette_2
                        } else {
                            self.regs.obj_palette_1
                        },
                        self.sprite_color(i as int, x),
                    )
                }
            },
            None => palette_color(self.regs.bg_palette, under),
        }
    }

    /// The controller after the current line was drawn: the line of the
    /// screen shows the background, the window and the sprites, and the
    /// window has moved on by one line if it showed.
    pub open spec fn render_line(self) -> GpuView {
        GpuView {
            screen: Seq::new(
                23040,
                |p: int|
                    if self.regs.line * 160 <= p < self.regs.line * 160 + 160 {
                        self.pixel(p - self.regs.line * 160)
                    } else {
                        self.screen[p]
                    },
            ),
            regs: LcdRegisters {
                window_line: if self.window_on_line() {
                    ((self.regs.window_line + 1) % 256) as u8
                } else {
                    self.regs.window_line
                },
                ..self.regs
            },
            ..self
        }
    }

    /// The controller after it entered a mode; mode 3 draws the line.
    pub open spec fn enter_mode(self, mode: u8) -> GpuView {
        if mode == 3 {
            self.with_regs(self.regs.entered(mode)).render_line()
        } else {
            self.with_regs(self.regs.entered(mode))
        }
    }

    /// The controller with its mode settled. While the display is off, LY
    /// and the mode are held at 0; else the mode that belongs to the place
    /// in the frame is entered, unless the controller is in it already.
    pub open spec fn settled(self) -> GpuView {
        if !self.regs.lcd_enabled {
            self.with_regs(self.regs.held())
        } else if target_mode(self.regs.line, self.regs.clock as nat) != self.regs.mode {
            self.enter_mode(target_mode(self.regs.line, self.regs.clock as nat))
        } else {
            self
        }
    }

    /// The controller one cycle later: the clock and LY move on, and the
    /// mode is settled.
    pub open spec fn tick(self) -> GpuView {
        self.with_regs(self.regs.advanced()).settled()
    }

    /// The controller `ticks` cycles later. The mode is settled even where
    /// no cycle passes.
    pub open spec fn do_ticks(self, ticks: nat) -> GpuView
        decreases ticks,
    {
        if ticks == 0 {
            self.settled()
        } else {
            self.tick().do_ticks((ticks - 1) as nat)
        }
    }
}

/// No line shows more than ten sprites, and those it shows are sprites of
/// the attribute memory.
pub proof fn lemma_visible_sprites(gpu: GpuView, upto: int)
    requires
        upto <= 40,
    ensures
        gpu.visible_sprites(upto).len() <= 10,
        gpu.visible_sprites(upto).len() <= upto || upto < 0,
        forall|k: int|
            0 <= k < gpu.visible_sprites(upto).len() ==> #[trigger] gpu.visible_sprites(upto)[k]
                < upto,
    decreases upto,
{
    if upto > 0 {
        lemma_visible_sprites(gpu, upto - 1);
    }
}

/// A palette gives one of four colours.
pub proof fn lemma_palette_color(palette: u8, index: u8)
    ensures
        palette_color(palette, index) <= 3,
{
}

/// Settling the mode makes a controller well formed whose memories and
/// counters are in range.
pub proof fn lemma_settled_wf(gpu: GpuView)
    requires
        gpu.in_range(),
    ensures
        gpu.settled().wf(),
{
    let target = target_mode(gpu.regs.line, gpu.regs.clock as nat);
    if gpu.regs.lcd_enabled && target == 3 && target != gpu.regs.mode {
        let entered = gpu.with_regs(gpu.regs.entered(target));
        let drawn = entered.render_line();
        assert forall|p: int| 0 <= p < 23040 implies #[trigger] drawn.screen[p] <= 3 by {
            if entered.regs.line * 160 <= p < entered.regs.line * 160 + 160 {
                lemma_pixel_range(entered, p - entered.regs.line * 160);
            }
        }
    }
}

/// One cycle keeps the controller well formed: LY stays below 154, and the
/// mode is 1 throughout the lines from 144 on.
pub proof fn lemma_tick_wf(gpu: GpuView)
    requires
        gpu.wf(),
    ensures
        gpu.with_regs(gpu.regs.advanced()).in_range(),
        gpu.tick().wf(),
{
    lemma_settled_wf(gpu.with_regs(gpu.regs.advanced()));
}

/// Every pixel that is drawn is one of four colours.
pub proof fn lemma_pixel_range(gpu: GpuView, x: int)
    ensures
        gpu.pixel(x) <= 3,
{
}

/// However many cycles pass, the controller stays well formed.
pub proof fn lemma_do_ticks_wf(gpu: GpuView, ticks: nat)
    requires
        gpu.wf(),
    ensures
        gpu.do_ticks(ticks).wf(),
        gpu.do_ticks(ticks).regs.line < 154,
        gpu.do_ticks(ticks).regs.line >= 144 ==> gpu.do_ticks(ticks).regs.mode == 1,
    decreases ticks,
{
    if ticks > 0 {
        lemma_tick_wf(gpu);
        lemma_do_ticks_wf(gpu.tick(), (ticks - 1) as nat);
    } else {
        lemma_settled_wf(gpu);
    }
}

/// While the display is off, LY and the mode read 0 after any number of
/// cycles, none included, whatever they were before; the screen, the
/// memories and the lines of the interrupts stay as they are.
pub proof fn lemma_display_off(gpu: GpuView, ticks: nat)
    requires
        !gpu.regs.lcd_enabled,
    ensures
        gpu.do_ticks(ticks) == gpu.with_regs(gpu.regs.held()),
        gpu.do_ticks(ticks).read_byte(0xFF44) == 0,
        gpu.do_ticks(ticks).read_byte(0xFF41) % 4 == 0,
        gpu.do_ticks(ticks).screen == gpu.screen,
        gpu.do_ticks(ticks).vram == gpu.vram,
        gpu.do_ticks(ticks).oam == gpu.oam,
        gpu.do_ticks(ticks).regs.irq_vblank == gpu.regs.irq_vblank,
        gpu.do_ticks(ticks).regs.screen_update == gpu.regs.screen_update,
    decreases ticks,
{
    let held = gpu.with_regs(gpu.regs.held());
    assert(held.with_regs(held.regs.held()) == held);
    if ticks > 0 {
        assert(gpu.tick() == held);
        lemma_display_off(held, (ticks - 1) as nat);
    }
}

/// While the display is on, the mode after any number of cycles, none
/// included, is the one that belongs to the place in the frame: in the
/// lines below 144 it is 2 for the cycles 0 to 79 of the line, 3 up to
/// cycle 251 and 0 from cycle 252 on; from line 144 on it is 1.
pub proof fn lemma_mode_by_cycle(gpu: GpuView, ticks: nat)
    requires
        gpu.in_range(),
        gpu.regs.lcd_enabled,
    ensures
        gpu.do_ticks(ticks).regs.lcd_enabled,
        gpu.do_ticks(ticks).regs.clock < 456,
        gpu.do_ticks(ticks).regs.mode == target_mode(
            gpu.do_ticks(ticks).regs.line,
            gpu.do_ticks(ticks).regs.clock as nat,
        ),
    decreases ticks,
{
    lemma_settled_mode(gpu);
    if ticks > 0 {
        let moved = gpu.with_regs(gpu.regs.advanced());
        lemma_settled_mode(moved);
        lemma_settled_wf(moved);
        lemma_mode_by_cycle(gpu.tick(), (ticks - 1) as nat);
    }
}

/// Settling leaves a display that is on in the mode of its place in the
/// frame, and moves neither the clock nor LY.
pub proof fn lemma_settled_mode(gpu: GpuView)
    requires
        gpu.regs.lcd_enabled,
    ensures
        gpu.settled().regs.lcd_enabled,
        gpu.settled().regs.clock == gpu.regs.clock,
        gpu.settled().regs.line == gpu.regs.line,
        gpu.settled().regs.mode == target_mode(gpu.regs.line, gpu.regs.clock as nat),
{
}

/// A write to a register or a memory of the controller keeps it well
/// formed.
pub proof fn lemma_write_wf(gpu: GpuView, address: u16, value: u8)
    requires
        gpu.wf(),
    ensures
        gpu.write_byte(address, value).wf(),
{
}

/// The display controller: video RAM, sprite attribute memory, registers
/// and the screen that it draws line by line.
pub struct GPU {
    screen_buffer: [u8; SCREEN_SIZE],
    vram: [u8; VRAM_SIZE],
    voam: [u8; VOAM_SIZE],
    regs: LcdRegisters,
}

impl View for GPU {
    type V = GpuView;

    closed spec fn view(&self) -> GpuView {
        GpuView { screen: self.screen_buffer@, vram: self.vram@, oam: self.voam@, regs: self.regs }
    }
}

/// Looks a tile value up in a palette.
pub fn lookup_color(palette: u8, index: u8) -> (color: u8)
    ensures
        color == palette_color(palette, index),
        color <= 3,
{
    if index == 0 {
        palette % 4
    } else if index == 1 {
        (palette / 4) % 4
    } else if index == 2 {
        (palette / 16) % 4
    } else {
        palette / 64
    }
}

fn row_pixel_at(low: u8, high: u8, column: u8) -> (value: u8)
    requires
        column < 8,
    ensures
        value == row_pixel(low, high, column as int),
        value <= 3,
{
    get_bit(low, 7 - column) + 2 * get_bit(high, 7 - column)
}

impl GPU {
    pub fn new() -> (gpu: GPU)
        ensures
            gpu@ == GpuView::initial(),
            gpu@.wf(),
    {
        let gpu = GPU {
            screen_buffer: [0;SCREEN_SIZE],
            vram: [0;VRAM_SIZE],
            voam: [0;VOAM_SIZE],
            regs: LcdRegisters {
                screen_update: false,
                irq_vblank: false,
                irq_stat: false,
                clock: 0,
                lcd_enabled: false,
                window_tilemap_select: false,
                window_enable: false,
                bg_window_tile_addressing: false,
                bg_tilemap_select: false,
                sprite_size: false,
                sprite_enable: false,
                bg_window_priority: false,
                mode: 0x00,
                irq_m0_enable: false,
                irq_m1_enable: false,
                irq_m2_enable: false,
                irq_lyc_enable: false,
                scroll_y: 0x00,
                scroll_x: 0x00,
                line: 0x00,
                line_compare: 0x00,
                bg_palette: 0xFC,
                obj_palette_1: 0xFF,
                obj_palette_2: 0xFF,
                window_y: 0x00,
                window_x: 0x00,
                window_line: 0x00,
            },
        };
        assert(gpu@.screen =~= GpuView::initial().screen);
        assert(gpu@.vram =~= GpuView::initial().vram);
        assert(gpu@.oam =~= GpuView::initial().oam);
        gpu
    }

    pub fn read_byte(&self, address: u16) -> (value: u8)
        requires
            self@.wf(),
        ensures
            value == self@.read_byte(address),
    {
        if 0x8000 <= address && address <= 0x9FFF {
            self.vram[(address - 0x8000) as usize]
        } else if 0xFE00 <= address && address <= 0xFE9F {
            self.voam[(address - 0xFE00) as usize]
        } else if address == 0xFF40 {
            flag_bit(self.regs.lcd_enabled, 0x80) + flag_bit(self.regs.window_tilemap_select, 0x40)
                + flag_bit(self.regs.window_enable, 0x20) + flag_bit(
                self.regs.bg_window_tile_addressing,
                0x10,
            ) + flag_bit(self.regs.bg_tilemap_select, 0x08) + flag_bit(self.regs.sprite_size, 0x04)
                + flag_bit(self.regs.sprite_enable, 0x02) + flag_bit(self.regs.bg_window_priority, 0x01)
        } else if address == 0xFF41 {
            let sources: u8 = flag_bit(self.regs.irq_lyc_enable, 0x40) + flag_bit(
                self.regs.irq_m2_enable,
                0x20,
            ) + flag_bit(self.regs.irq_m1_enable, 0x10) + flag_bit(self.regs.irq_m0_enable, 0x08)
                + flag_bit(self.regs.line == self.regs.line_compare, 0x04);
            sources + self.regs.mode
        } else if address == 0xFF42 {
            self.regs.scroll_y
        } else if address == 0xFF43 {
            self.regs.scroll_x
        } else if address == 0xFF44 {
            self.regs.line
        } else if address == 0xFF45 {
            self.regs.line_compare
        } else if address == 0xFF47 {
            self.regs.bg_palette
        } else if address == 0xFF48 {
            self.regs.obj_palette_1
        } else if address == 0xFF49 {
            self.regs.obj_palette_2
        } else if address == 0xFF4A {
            self.regs.window_y
        } else if address == 0xFF4B {
            self.regs.window_x
        } else {
            0
        }
    }

    pub fn write_byte(&mut self, address: u16, value: u8)
        ensures
            final(self)@ == old(self)@.write_byte(address, value),
            old(self)@.wf() ==> final(self)@.wf(),
    {
        if 0x8000 <= address && address <= 0x9FFF {
            self.vram[(address - 0x8000) as usize] = value;
        } else if 0xFE00 <= address && address <= 0xFE9F {
            self.voam[(address - 0xFE00) as usize] = value;
        } else {
            self.regs = self.regs.write(address, value);
        }
        proof {
            if old(self)@.wf() {
                lemma_write_wf(old(self)@, address, value);
            }
        }
    }

    /// Advances the controller by `ticks` cycles and settles its mode.
    pub fn do_ticks(&mut self, ticks: usize)
        requires
            old(self)@.wf(),
        ensures
            final(self)@ == old(self)@.do_ticks(ticks as nat),
            final(self)@.wf(),
    {
        let mut left: usize = ticks;
        while left > 0
            invariant
                self@.wf(),
                self@.do_ticks(left as nat) == old(self)@.do_ticks(ticks as nat),
            decreases left,
        {
            self.tick();
            left = left - 1;
        }
        self.settle();
    }

    fn tick(&mut self)
        requires
            old(self)@.wf(),
        ensures
            final(self)@ == old(self)@.tick(),
            final(self)@.wf(),
    {
        proof {
            lemma_tick_wf(self@);
        }
        self.regs = self.regs.advance();
        self.settle();
    }

    /// Holds LY and the mode at 0 while the display is off; else enters
    /// the mode that belongs to the place in the frame.
    fn settle(&mut self)
        requires
            old(self)@.in_range(),
        ensures
            final(self)@ == old(self)@.settled(),
            final(self)@.wf(),
    {
        proof {
            lemma_settled_wf(self@);
        }
        if !self.regs.lcd_enabled {
            self.regs = LcdRegisters { line: 0, mode: 0, window_line: 0, ..self.regs };
        } else {
            let target: u8 = if self.regs.line >= 144 {
                1
            } else if self.regs.clock < 80 {
                2
            } else if self.regs.clock < 252 {
                3
            } else {
                0
            };
            if target != self.regs.mode {
                self.set_mode(target);
            }
        }
    }

    fn set_mode(&mut self, mode: u8)
        requires
            mode == 3 ==> old(self)@.regs.line < 144,
        ensures
            final(self)@ == old(self)@.enter_mode(mode),
    {
        self.regs = self.regs.enter(mode);
        if mode == 3 {
            self.render_line();
        }
    }

    fn render_line(&mut self)
        requires
            old(self)@.regs.line < 144,
        ensures
            final(self)@ == old(self)@.render_line(),
    {
        let pixels: [u8; 160] = self.draw_line();
        let ghost before = self@;
        self.store_line(&pixels);
        if self.regs.window_enable && self.regs.line >= self.regs.window_y && self.regs.window_x
            <= 166 {
            self.regs = LcdRegisters {
                window_line: self.regs.window_line.wrapping_add(1),
                ..self.regs
            };
        }
        assert(self@.regs == before.render_line().regs);
        assert(self@.screen =~= before.render_line().screen);
    }

    /// The colours of the current line, from left to right.
    fn draw_line(&self) -> (pixels: [u8; 160])
        requires
            self@.regs.line < 144,
        ensures
            forall|x: int| 0 <= x < 160 ==> #[trigger] pixels@[x] == self@.pixel(x),
    {
        let sprites: Vec<usize> = self.select_sprites();
        let mut pixels: [u8; 160] = [0;160];
        let mut x: usize = 0;
        while x < 160
            invariant
                x <= 160,
                self@.regs.line < 144,
                sprites@ == self@.visible_sprites(40),
                forall|j: int| 0 <= j < x ==> #[trigger] pixels@[j] == self@.pixel(j),
            decreases 160 - x,
        {
            let color: u8 = self.pixel_at(&sprites, x);
            pixels[x] = color;
            x = x + 1;
        }
        pixels
    }

    /// Copies a line of colours to its place on the screen.
    fn store_line(&mut self, pixels: &[u8; 160])
        requires
            old(self)@.regs.line < 144,
        ensures
            final(self)@.regs == old(self)@.regs,
            final(self)@.vram == old(self)@.vram,
            final(self)@.oam == old(self)@.oam,
            final(self)@.screen.len() == 23040,
            forall|p: int|
                0 <= p < 23040 ==> #[trigger] final(self)@.screen[p] == (if old(self)@.regs.line
                    * 160 <= p < old(self)@.regs.line * 160 + 160 {
                    pixels@[p - old(self)@.regs.line * 160]
                } else {
                    old(self)@.screen[p]
                }),
    {
        let base: usize = self.regs.line as usize * 160;
        let mut x: usize = 0;
        while x < 160
            invariant
                x <= 160,
                base == old(self)@.regs.line * 160,
                old(self)@.regs.line < 144,
                self@.regs == old(self)@.regs,
                self@.vram == old(self)@.vram,
                self@.oam == old(self)@.oam,
                forall|p: int|
                    0 <= p < 23040 ==> #[trigger] self@.screen[p] == (if base <= p < base + x {
                        pixels@[p - base]
                    } else {
                        old(self)@.screen[p]
                    }),
            decreases 160 - x,
        {
            let ghost screen = self@.screen;
            self.screen_buffer[base + x] = pixels[x];
            assert(self@.screen == screen.update(base + x, pixels@[x as int]));
            x = x + 1;
        }
    }

    /// The sprites that show on the current line: the first ten in the
    /// order of the attribute memory.
    fn select_sprites(&self) -> (sprites: Vec<usize>)
        requires
            self@.regs.line < 144,
        ensures
            sprites@ == self@.visible_sprites(40),
            sprites@.len() <= 10,
            forall|k: int| 0 <= k < sprites@.len() ==> #[trigger] sprites@[k] < 40,
    {
        let height: u16 = if self.regs.sprite_size { 16 } else { 8 };
        let mut sprites: Vec<usize> = Vec::new();
        let mut i: usize = 0;
        while i < 40
            invariant
                i <= 40,
                self@.regs.line < 144,
                height == self@.sprite_height(),
                sprites@ == self@.visible_sprites(i as int),
            decreases 40 - i,
        {
            let top: u16 = self.voam[4 * i] as u16;
            let row: u16 = self.regs.line as u16 + 16;
            if sprites.len() < SPRITES_PER_LINE && top <= row && row < top + height {
                sprites.push(i);
            }
            i = i + 1;
        }
        proof {
            lemma_visible_sprites(self@, 40);
        }
        sprites
    }

    fn tile_pixel_at(&self, map_base: usize, px: usize, py: usize) -> (value: u8)
        requires
            map_base == 0x1800 || map_base == 0x1C00,
            px < 256,
            py < 256,
        ensures
            value == self@.tile_pixel(map_base as int, px as int, py as int),
            value <= 3,
    {
        let tile: u8 = self.vram[map_base + (py / 8) * 32 + px / 8];
        let data: usize = if self.regs.bg_window_tile_addressing {
            tile as usize * 16
        } else if tile < 128 {
            0x1000 + tile as usize * 16
        } else {
            0x1000 - (256 - tile as usize) * 16
        };
        let address: usize = data + (py % 8) * 2;
        row_pixel_at(self.vram[address], self.vram[address + 1], (px % 8) as u8)
    }

    fn background_index_at(&self, x: usize) -> (value: u8)
        requires
            x < 160,
        ensures
            value == self@.background_index(x as int),
            value <= 3,
    {
        if self.regs.window_enable && self.regs.line >= self.regs.window_y && self.regs.window_x <= 166 && x + 7
            >= self.regs.window_x as usize {
            let map_base: usize = if self.regs.window_tilemap_select { 0x1C00 } else { 0x1800 };
            self.tile_pixel_at(map_base, x + 7 - self.regs.window_x as usize, self.regs.window_line as usize)
        } else {
            let map_base: usize = if self.regs.bg_tilemap_select { 0x1C00 } else { 0x1800 };
            self.tile_pixel_at(
                map_base,
                (x + self.regs.scroll_x as usize) % 256,
                (self.regs.line as usize + self.regs.scroll_y as usize) % 256,
            )
        }
    }

    fn sprite_color_at(&self, i: usize, x: usize) -> (value: u8)
        requires
            i < 40,
            x < 160,
            self@.regs.line < 144,
            self@.sprite_on_line(i as int),
        ensures
            value == self@.sprite_color(i as int, x as int),
            value <= 3,
    {
        let left: usize = self.voam[4 * i + 1] as usize;
        let attributes: u8 = self.voam[4 * i + 3];
        if left <= x + 8 && x + 8 < left + 8 {
            let height: usize = if self.regs.sprite_size { 16 } else { 8 };
            let column: usize = x + 8 - left;
            let row: usize = self.regs.line as usize + 16 - self.voam[4 * i] as usize;
            let tile_row: usize = if test_bit(attributes, 0x40) { height - 1 - row } else { row };
            let tile_column: usize = if test_bit(attributes, 0x20) { 7 - column } else { column };
            let number: u8 = self.voam[4 * i + 2];
            let tile: usize = if self.regs.sprite_size {
                (number - number % 2) as usize
            } else {
                number as usize
            };
            let address: usize = tile * 16 + tile_row * 2;
            row_pixel_at(self.vram[address], self.vram[address + 1], tile_column as u8)
        } else {
            0
        }
    }

    fn top_sprite_at(&self, sprites: &Vec<usize>, x: usize) -> (sprite: Option<usize>)
        requires
            x < 160,
            self@.regs.line < 144,
            sprites@ == self@.visible_sprites(40),
        ensures
            sprite == self@.top_sprite(sprites@, x as int, 0),
            sprite matches Some(i) ==> i < 40 && self@.sprite_on_line(i as int),
    {
        proof {
            lemma_visible_sprites(self@, 40);
        }
        let mut k: usize = 0;
        while k < sprites.len()
            invariant
                k <= sprites@.len(),
                x < 160,
                self@.regs.line < 144,
                sprites@ == self@.visible_sprites(40),
                forall|j: int| 0 <= j < sprites@.len() ==> #[trigger] sprites@[j] < 40,
                self@.top_sprite(sprites@, x as int, k as int) == self@.top_sprite(
                    sprites@,
                    x as int,
                    0,
                ),
            decreases sprites@.len() - k,
        {
            let i: usize = sprites[k];
            proof {
                lemma_visible_on_line(self@, 40, k as int);
            }
            if self.sprite_color_at(i, x) != 0 {
                return Some(i);
            }
            k = k + 1;
        }
        None
    }

    fn pixel_at(&self, sprites: &Vec<usize>, x: usize) -> (color: u8)
        requires
            x < 160,
            self@.regs.line < 144,
            sprites@ == self@.visible_sprites(40),
        ensures
            color == self@.pixel(x as int),
            color <= 3,
    {
        let under: u8 = self.background_index_at(x);
        let sprite: Option<usize> = if self.regs.sprite_enable {
            self.top_sprite_at(sprites, x)
        } else {
            None
        };
        match sprite {
            Some(i) => {
                let attributes: u8 = self.voam[4 * i + 3];
                if test_bit(attributes, 0x80) && under != 0 {
                    lookup_color(self.regs.bg_palette, under)
                } else {
                    let palette: u8 = if test_bit(attributes, 0x10) {
                        self.regs.obj_palette_2
                    } else {
                        self.regs.obj_palette_1
                    };
                    lookup_color(palette, self.sprite_color_at(i, x))
                }
            },
            None => lookup_color(self.regs.bg_palette, under),
        }
    }

    /// The tile values of the eight pixels of one row of a tile, from left
    /// to right.
    pub fn sprite_row(first: u8, second: u8) -> (row: [u8; 8])
        ensures
            forall|column: int| 0 <= column < 8 ==> #[trigger] row@[column] == row_pixel(first, second, column),
    {
        let mut row: [u8; 8] = [0;8];
        let mut i: usize = 0;
        while i < 8
            invariant
                i <= 8,
                forall|column: int| 0 <= column < i ==> #[trigger] row@[column] == row_pixel(first, second, column),
            decreases 8 - i,
        {
            row[i] = row_pixel_at(first, second, i as u8);
            i = i + 1;
        }
        row
    }

    /// A copy of the screen, row by row from the top.
    pub fn get_screen_buffer(&self) -> (buffer: Vec<u8>)
        ensures
            buffer@ == self@.screen,
    {
        let mut buffer: Vec<u8> = Vec::new();
        let mut i: usize = 0;
        while i < SCREEN_SIZE
            invariant
                i <= 23040,
                buffer@.len() == i,
                forall|p: int| 0 <= p < i ==> #[trigger] buffer@[p] == self@.screen[p],
            decreases 23040 - i,
        {
            buffer.push(self.screen_buffer[i]);
            i = i + 1;
        }
        assert(buffer@ =~= self@.screen);
        buffer
    }

    /// Replaces the sprite attribute memory as a whole.
    pub fn set_oam(&mut self, bytes: [u8; 160])
        ensures
            final(self)@ == (GpuView { oam: bytes@, ..old(self)@ }),
            old(self)@.wf() ==> final(self)@.wf(),
    {
        self.voam = bytes;
    }

    /// Tells whether a frame was completed since the last call.
    pub fn take_screen_update(&mut self) -> (updated: bool)
        ensures
            updated == old(self)@.regs.screen_update,
            final(self)@ == (old(self)@.with_regs(LcdRegisters { screen_update: false, ..old(self)@.regs })),
    {
        let updated: bool = self.regs.screen_update;
        self.regs.screen_update = false;
        updated
    }

    /// Reads the line of the vertical blank interrupt and lowers it.
    pub fn take_irq_vblank(&mut self) -> (raised: bool)
        ensures
            raised == old(self)@.regs.irq_vblank,
            final(self)@ == (old(self)@.with_regs(LcdRegisters { irq_vblank: false, ..old(self)@.regs })),
    {
        let raised: bool = self.regs.irq_vblank;
        self.regs.irq_vblank = false;
        raised
    }

    /// Reads the line of the STAT interrupt and lowers it.
    pub fn take_irq_stat(&mut self) -> (raised: bool)
        ensures
            raised == old(self)@.regs.irq_stat,
            final(self)@ == (old(self)@.with_regs(LcdRegisters { irq_stat: false, ..old(self)@.regs })),
    {
        let raised: bool = self.regs.irq_stat;
        self.regs.irq_stat = false;
        raised
    }
}

/// Each sprite taken for a line has a row on that line.
pub proof fn lemma_visible_on_line(gpu: GpuView, upto: int, k: int)
    requires
        upto <= 40,
        0 <= k < gpu.visible_sprites(upto).len(),
    ensures
        gpu.sprite_on_line(gpu.visible_sprites(upto)[k] as int),
    decreases upto,
{
    if upto > 0 {
        let before = gpu.visible_sprites(upto - 1);
        if k < before.len() {
            lemma_visible_on_line(gpu, upto - 1, k);
            if before.len() < 10 && gpu.sprite_on_line(upto - 1) {
                assert(gpu.visible_sprites(upto)[k] == before[k]);
            }
        } else {
            assert(before.len() < 10 && gpu.sprite_on_line(upto - 1));
            assert(gpu.visible_sprites(upto) == before.push((upto - 1) as usize));
            assert(gpu.visible_sprites(upto)[k] == (upto - 1) as usize);
        }
    }
}

} // verus!
