use vstd::prelude::*;
use crate::mbc::{Mbc, RAM_BANK_SIZE, banked_rom_byte, read_banked_rom, zeroed};

verus! {

/// Number of RAM banks of an MBC5 cartridge.
pub const MBC5_NUM_RAM_BANK: usize = 16;

/// An MBC5 cartridge as contracts see it.
pub struct Mbc5View {
    pub rom: Seq<u8>,
    /// The ROM bank shown from 0x4000 to 0x7FFF: 9 bits.
    pub rom_bank: nat,
    /// The sixteen RAM banks, one after the other.
    pub ram: Seq<u8>,
    pub ram_enabled: bool,
    /// The RAM bank shown: 4 bits.
    pub ram_bank: nat,
}

impl Mbc5View {
    pub open spec fn wf(self) -> bool {
        &&& self.rom_bank < 0x200
        &&& self.ram_bank < 16
        &&& self.ram.len() == 0x20000
    }

    pub open spec fn initial(rom: Seq<u8>) -> Mbc5View {
        Mbc5View {
            rom,
            rom_bank: 1,
            ram: Seq::new(0x20000, |i: int| 0u8),
            ram_enabled: false,
            ram_bank: 0,
        }
    }

    pub open spec fn read_rom(self, address: u16) -> u8 {
        banked_rom_byte(self.rom, self.rom_bank, address)
    }

    pub open spec fn read_ram(self, address: u16) -> u8 {
        if self.ram_enabled && address < 0x2000 {
            self.ram[0x2000 * self.ram_bank + address]
        } else {
            0
        }
    }

    /// Below 0x2000 a write enables the RAM, up to 0x2FFF it sets the low
    /// eight bits of the ROM bank, up to 0x3FFF its ninth bit, up to 0x5FFF
    /// the RAM bank.
    pub open spec fn write_rom(self, address: u16, value: u8) -> Mbc5View {
        if address < 0x2000 {
            Mbc5View { ram_enabled: value == 0x0A, ..self }
        } else if address < 0x3000 {
            Mbc5View { rom_bank: (self.rom_bank / 0x100) * 0x100 + value as nat, ..self }
        } else if address < 0x4000 {
            Mbc5View { rom_bank: self.rom_bank % 0x100 + ((value % 2) * 0x100) as nat, ..self }
        } else if address < 0x6000 {
            Mbc5View { ram_bank: (value % 0x10) as nat, ..self }
        } else {
            self
        }
    }

    pub open spec fn write_ram(self, address: u16, value: u8) -> Mbc5View {
        if self.ram_enabled && address < 0x2000 {
            Mbc5View { ram: self.ram.update(0x2000 * self.ram_bank + address, value), ..self }
        } else {
            self
        }
    }
}

pub struct Mbc5 {
    rom: Vec<u8>,
    selected_rom_bank: usize,
    ram: Vec<u8>,
    ram_enabled: bool,
    selected_ram_bank: usize,
}

impl View for Mbc5 {
    type V = Mbc5View;

    closed spec fn view(&self) -> Mbc5View {
        Mbc5View {
            rom: self.rom@,
            rom_bank: self.selected_rom_bank as nat,
            ram: self.ram@,
            ram_enabled: self.ram_enabled,
            ram_bank: self.selected_ram_bank as nat,
        }
    }
}

impl Mbc5 {
    pub fn new(buffer: Vec<u8>) -> (mbc: Mbc5)
        ensures
            mbc@ == Mbc5View::initial(buffer@),
            mbc@.wf(),
    {
        Mbc5 {
            rom: buffer,
            selected_rom_bank: 1,
            ram: zeroed(RAM_BANK_SIZE * MBC5_NUM_RAM_BANK),
            ram_enabled: false,
            selected_ram_bank: 0,
        }
    }
}

impl Mbc for Mbc5 {
    open spec fn wf(&self) -> bool {
        self@.wf()
    }

    open spec fn spec_read_rom(&self, address: u16) -> u8 {
        self@.read_rom(address)
    }

    open spec fn spec_read_ram(&self, address: u16) -> u8 {
        self@.read_ram(address)
    }

    open spec fn rom_written(&self, address: u16, value: u8, after: &Self) -> bool {
        after@ == self@.write_rom(address, value)
    }

    open spec fn ram_written(&self, address: u16, value: u8, after: &Self) -> bool {
        after@ == self@.write_ram(address, value)
    }

    fn read_rom(&self, address: u16) -> (value: u8) {
        assert(self.wf() ==> self@.wf());
        assert(self.spec_read_rom(address) == self@.read_rom(address));
        read_banked_rom(&self.rom, self.selected_rom_bank, address)
    }

    fn read_ram(&self, address: u16) -> (value: u8) {
        assert(self.wf() ==> self@.wf());
        assert(self.spec_read_ram(address) == self@.read_ram(address));
        if self.ram_enabled && address < 0x2000 {
            self.ram[RAM_BANK_SIZE * self.selected_ram_bank + address as usize]
        } else {
            0
        }
    }

    fn write_rom(&mut self, address: u16, value: u8) {
        assert(old(self).wf() ==> old(self)@.wf());
        if address < 0x2000 {
            self.ram_enabled = value == 0x0A;
        } else if address < 0x3000 {
            self.selected_rom_bank = (self.selected_rom_bank / 0x100) * 0x100 + value as usize;
        } else if address < 0x4000 {
            self.selected_rom_bank = self.selected_rom_bank % 0x100 + ((value % 2) as usize) * 0x100;
        } else if address < 0x6000 {
            self.selected_ram_bank = (value % 0x10) as usize;
        }
        assert(self.wf() <==> self@.wf());
        assert(old(self).rom_written(address, value, self) <==> self@ == old(self)@.write_rom(address, value));
    }

    fn write_ram(&mut self, address: u16, value: u8) {
        assert(old(self).wf() ==> old(self)@.wf());
        if self.ram_enabled && address < 0x2000 {
            let index: usize = RAM_BANK_SIZE * self.selected_ram_bank + address as usize;
            self.ram.set(index, value);
        }
        assert(self.wf() <==> self@.wf());
        assert(old(self).ram_written(address, value, self) <==> self@ == old(self)@.write_ram(address, value));
    }
}

} // verus!
