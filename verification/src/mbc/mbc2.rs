use vstd::prelude::*;
use crate::mbc::{Mbc, banked_rom_byte, read_banked_rom, zeroed};

verus! {

/// Size of the RAM that an MBC2 carries: 512 half bytes.
pub const MBC2_RAM_SIZE: usize = 0x200;

/// An MBC2 cartridge as contracts see it.
pub struct Mbc2View {
    pub rom: Seq<u8>,
    /// The ROM bank shown from 0x4000 to 0x7FFF: 4 bits.
    pub rom_bank: nat,
    /// The built-in RAM: 512 values of 4 bits.
    pub ram: Seq<u8>,
    pub ram_enabled: bool,
}

impl Mbc2View {
    pub open spec fn wf(self) -> bool {
        &&& self.rom_bank < 0x10
        &&& self.ram.len() == 0x200
    }

    pub open spec fn initial(rom: Seq<u8>) -> Mbc2View {
        Mbc2View { rom, rom_bank: 1, ram: Seq::new(0x200, |i: int| 0u8), ram_enabled: false }
    }

    pub open spec fn read_rom(self, address: u16) -> u8 {
        banked_rom_byte(self.rom, self.rom_bank, address)
    }

    /// Disabled RAM, and addresses above the 512 values, read 0.
    pub open spec fn read_ram(self, address: u16) -> u8 {
        if self.ram_enabled && address < 0x200 {
            self.ram[address as int]
        } else {
            0
        }
    }

    /// A write counts only where bit 8 of the address is set: below 0x2000
    /// it enables the RAM, up to 0x3FFF it selects the ROM bank.
    pub open spec fn write_rom(self, address: u16, value: u8) -> Mbc2View {
        if (address / 0x100) % 2 == 1 && address < 0x2000 {
            Mbc2View { ram_enabled: value == 0x0A, ..self }
        } else if (address / 0x100) % 2 == 1 && address < 0x4000 {
            Mbc2View { rom_bank: (value % 0x10) as nat, ..self }
        } else {
            self
        }
    }

    /// The RAM keeps the low four bits of what is written.
    pub open spec fn write_ram(self, address: u16, value: u8) -> Mbc2View {
        if self.ram_enabled && address < 0x200 {
            Mbc2View { ram: self.ram.update(address as int, value % 0x10), ..self }
        } else {
            self
        }
    }
}

pub struct Mbc2 {
    rom: Vec<u8>,
    selected_rom_bank: usize,
    ram: Vec<u8>,
    ram_enabled: bool,
}

impl View for Mbc2 {
    type V = Mbc2View;

    closed spec fn view(&self) -> Mbc2View {
        Mbc2View {
            rom: self.rom@,
            rom_bank: self.selected_rom_bank as nat,
            ram: self.ram@,
            ram_enabled: self.ram_enabled,
        }
    }
}

impl Mbc2 {
    pub fn new(buffer: Vec<u8>) -> (mbc: Mbc2)
        ensures
            mbc@ == Mbc2View::initial(buffer@),
            mbc@.wf(),
    {
        Mbc2 { rom: buffer, selected_rom_bank: 1, ram: zeroed(MBC2_RAM_SIZE), ram_enabled: false }
    }
}

impl Mbc for Mbc2 {
    open spec fn wf(&self) -> bool {
        self@.wf()
    }

    open spec fn spec_read_rom(&self, address: u16) -> u8 {
        self@.read_rom(address)
    }

    open spec fn spec_read_ram(&self, address: u16) -> u8 {
        self@.read_ram(address)
    }

    open spec fn rom_written(&self, address: u16, value: u8, after: &Self) -> bool {
        after@ == self@.write_rom(address, value)
    }

    open spec fn ram_written(&self, address: u16, value: u8, after: &Self) -> bool {
        after@ == self@.write_ram(address, value)
    }

    fn read_rom(&self, address: u16) -> (value: u8) {
        assert(self.wf() ==> self@.wf());
        assert(self.spec_read_rom(address) == self@.read_rom(address));
        read_banked_rom(&self.rom, self.selected_rom_bank, address)
    }

    fn read_ram(&self, address: u16) -> (value: u8) {
        assert(self.wf() ==> self@.wf());
        assert(self.spec_read_ram(address) == self@.read_ram(address));
        if self.ram_enabled && address < 0x200 {
            self.ram[address as usize]
        } else {
            0
        }
    }

    fn write_rom(&mut self, address: u16, value: u8) {
        assert(old(self).wf() ==> old(self)@.wf());
        if (address / 0x100) % 2 == 1 {
            if address < 0x2000 {
                self.ram_enabled = value == 0x0A;
            } else if address < 0x4000 {
                self.selected_rom_bank = (value % 0x10) as usize;
            }
        }
        assert(self.wf() <==> self@.wf());
        assert(old(self).rom_written(address, value, self) <==> self@ == old(self)@.write_rom(address, value));
    }

    fn write_ram(&mut self, address: u16, value: u8) {
        assert(old(self).wf() ==> old(self)@.wf());
        if self.ram_enabled && address < 0x200 {
            self.ram.set(address as usize, value % 0x10);
        }
        assert(self.wf() <==> self@.wf());
        assert(old(self).ram_written(address, value, self) <==> self@ == old(self)@.write_ram(address, value));
    }
}

} // verus!
