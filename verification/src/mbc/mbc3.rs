use vstd::prelude::*;
use crate::mbc::{Mbc, RAM_BANK_SIZE, banked_rom_byte, read_banked_rom, zeroed};

verus! {

/// Number of RAM banks of an MBC3 cartridge.
pub const MBC3_NUM_RAM_BANK: usize = 4;

/// Number of registers of the real-time clock.
pub const RTC_REGISTERS: usize = 5;

/// An MBC3 cartridge as contracts see it.
pub struct Mbc3View {
    pub rom: Seq<u8>,
    /// The ROM bank shown from 0x4000 to 0x7FFF: 7 bits, never 0.
    pub rom_bank: nat,
    /// The four RAM banks, one after the other.
    pub ram: Seq<u8>,
    pub ram_enabled: bool,
    /// What the RAM area shows: a RAM bank for 0 to 3, a register of the
    /// clock for 8 to 12.
    pub selector: nat,
    /// The five registers of the clock: seconds, minutes, hours and the
    /// two day bytes. They keep what is written; no time passes in them.
    pub rtc: Seq<u8>,
}

impl Mbc3View {
    pub open spec fn wf(self) -> bool {
        &&& 0 < self.rom_bank < 0x80
        &&& (self.selector < 4 || 8 <= self.selector <= 12)
        &&& self.ram.len() == 0x8000
        &&& self.rtc.len() == 5
    }

    pub open spec fn initial(rom: Seq<u8>) -> Mbc3View {
        Mbc3View {
            rom,
            rom_bank: 1,
            ram: Seq::new(0x8000, |i: int| 0u8),
            ram_enabled: false,
            selector: 0,
            rtc: Seq::new(5, |i: int| 0u8),
        }
    }

    pub open spec fn read_rom(self, address: u16) -> u8 {
        banked_rom_byte(self.rom, self.rom_bank, address)
    }

    pub open spec fn read_ram(self, address: u16) -> u8 {
        if self.ram_enabled && address < 0x2000 {
            if self.selector < 4 {
                self.ram[0x2000 * self.selector + address]
            } else {
                self.rtc[self.selector - 8]
            }
        } else {
            0
        }
    }

    /// Below 0x2000 a write enables the RAM, up to 0x3FFF it selects the
    /// ROM bank (0 is taken as 1), up to 0x5FFF it selects a RAM bank or a
    /// register of the clock; other values there, and the latch above,
    /// change nothing.
    pub open spec fn write_rom(self, address: u16, value: u8) -> Mbc3View {
        if address < 0x2000 {
            Mbc3View { ram_enabled: value == 0x0A, ..self }
        } else if address < 0x4000 {
            Mbc3View {
                rom_bank: if value % 0x80 == 0 {
                    1
                } else {
                    (value % 0x80) as nat
                },
                ..self
            }
        } else if address < 0x6000 && (value < 4 || 8 <= value <= 12) {
            Mbc3View { selector: value as nat, ..self }
        } else {
            self
        }
    }

    pub open spec fn write_ram(self, address: u16, value: u8) -> Mbc3View {
        if self.ram_enabled && address < 0x2000 {
            if self.selector < 4 {
                Mbc3View { ram: self.ram.update(0x2000 * self.selector + address, value), ..self }
            } else {
                Mbc3View { rtc: self.rtc.update(self.selector - 8, value), ..self }
            }
        } else {
            self
        }
    }
}

pub struct Mbc3 {
    rom: Vec<u8>,
    selected_rom_bank: usize,
    ram: Vec<u8>,
    ram_enabled: bool,
    selector: usize,
    rtc: [u8; 5],
}

impl View for Mbc3 {
    type V = Mbc3View;

    closed spec fn view(&self) -> Mbc3View {
        Mbc3View {
            rom: self.rom@,
            rom_bank: self.selected_rom_bank as nat,
            ram: self.ram@,
            ram_enabled: self.ram_enabled,
            selector: self.selector as nat,
            rtc: self.rtc@,
        }
    }
}

impl Mbc3 {
    pub fn new(buffer: Vec<u8>) -> (mbc: Mbc3)
        ensures
            mbc@ == Mbc3View::initial(buffer@),
            mbc@.wf(),
    {
        let mbc = Mbc3 {
            rom: buffer,
            selected_rom_bank: 1,
            ram: zeroed(RAM_BANK_SIZE * MBC3_NUM_RAM_BANK),
            ram_enabled: false,
            selector: 0,
            rtc: [0;5],
        };
        assert(mbc@.rtc =~= Seq::new(5, |i: int| 0u8));
        mbc
    }
}

impl Mbc for Mbc3 {
    open spec fn wf(&self) -> bool {
        self@.wf()
    }

    open spec fn spec_read_rom(&self, address: u16) -> u8 {
        self@.read_rom(address)
    }

    open spec fn spec_read_ram(&self, address: u16) -> u8 {
        self@.read_ram(address)
    }

    open spec fn rom_written(&self, address: u16, value: u8, after: &Self) -> bool {
        after@ == self@.write_rom(address, value)
    }

    open spec fn ram_written(&self, address: u16, value: u8, after: &Self) -> bool {
        after@ == self@.write_ram(address, value)
    }

    fn read_rom(&self, address: u16) -> (value: u8) {
        assert(self.wf() ==> self@.wf());
        assert(self.spec_read_rom(address) == self@.read_rom(address));
        read_banked_rom(&self.rom, self.selected_rom_bank, address)
    }

    fn read_ram(&self, address: u16) -> (value: u8) {
        assert(self.wf() ==> self@.wf());
        assert(self.spec_read_ram(address) == self@.read_ram(address));
        if self.ram_enabled && address < 0x2000 {
            if self.selector < 4 {
                self.ram[RAM_BANK_SIZE * self.selector + address as usize]
            } else {
                self.rtc[self.selector - 8]
            }
        } else {
            0
        }
    }

    fn write_rom(&mut self, address: u16, value: u8) {
        assert(old(self).wf() ==> old(self)@.wf());
        if address < 0x2000 {
            self.ram_enabled = value == 0x0A;
        } else if address < 0x4000 {
            self.selected_rom_bank = if value % 0x80 == 0 { 1 } else { (value % 0x80) as usize };
        } else if address < 0x6000 && (value < 4 || (8 <= value && value <= 12)) {
            self.selector = value as usize;
        }
        assert(self.wf() <==> self@.wf());
        assert(old(self).rom_written(address, value, self) <==> self@ == old(self)@.write_rom(address, value));
    }

    fn write_ram(&mut self, address: u16, value: u8) {
        assert(old(self).wf() ==> old(self)@.wf());
        if self.ram_enabled && address < 0x2000 {
            if self.selector < 4 {
                let index: usize = RAM_BANK_SIZE * self.selector + address as usize;
                self.ram.set(index, value);
            } else {
                let index: usize = self.selector - 8;
                self.rtc[index] = value;
            }
        }
        assert(self.wf() <==> self@.wf());
        assert(old(self).ram_written(address, value, self) <==> self@ == old(self)@.write_ram(address, value));
    }
}

} // verus!
