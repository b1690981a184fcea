use vstd::prelude::*;
use crate::mbc::{Mbc, RAM_BANK_SIZE, banked_rom_byte, read_banked_rom, zeroed};

verus! {

/// Number of RAM banks of an MBC1 cartridge.
pub const NUM_RAM_BANK: usize = 4;

/// An MBC1 cartridge as contracts see it.
pub struct Mbc1View {
    pub rom: Seq<u8>,
    /// The ROM bank shown from 0x4000 to 0x7FFF: 7 bits.
    pub rom_bank: nat,
    /// The four RAM banks, one after the other.
    pub ram: Seq<u8>,
    pub ram_enabled: bool,
    /// The RAM bank shown: 2 bits.
    pub ram_bank: nat,
    /// The banking mode: when set, writes from 0x4000 to 0x5FFF select the
    /// RAM bank; else they set the two high bits of the ROM bank.
    pub ram_mode: bool,
}

/// Whether a value written as ROM bank is one of the four that select
/// the bank above them: 0x00, 0x20, 0x40 and 0x60.
pub open spec fn is_forced(value: u8) -> bool {
    value == 0x00 || value == 0x20 || value == 0x40 || value == 0x60
}

/// The ROM bank after `value` was written to the bank register: one of
/// the four forced values selects the bank `value + 1`; any other value
/// replaces the five low bits of the bank.
pub open spec fn selected_bank(rom_bank: nat, value: u8) -> nat {
    if is_forced(value) {
        (value + 1) as nat
    } else {
        (rom_bank / 0x20) * 0x20 + (value % 0x20) as nat
    }
}

impl Mbc1View {
    pub open spec fn wf(self) -> bool {
        &&& self.rom_bank < 0x80
        &&& self.ram_bank < 4
        &&& self.ram.len() == 0x8000
    }

    pub open spec fn initial(rom: Seq<u8>) -> Mbc1View {
        Mbc1View {
            rom,
            rom_bank: 1,
            ram: Seq::new(0x8000, |i: int| 0u8),
            ram_enabled: false,
            ram_bank: 0,
            ram_mode: false,
        }
    }

    pub open spec fn read_rom(self, address: u16) -> u8 {
        banked_rom_byte(self.rom, self.rom_bank, address)
    }

    /// Disabled RAM, and addresses above the bank, read 0.
    pub open spec fn read_ram(self, address: u16) -> u8 {
        if self.ram_enabled && address < 0x2000 {
            self.ram[0x2000 * self.ram_bank + address]
        } else {
            0
        }
    }

    /// Below 0x2000 a write enables the RAM, up to 0x3FFF it goes to the
    /// bank register, up to 0x5FFF it sets the two high bits of the ROM
    /// bank or, in the RAM mode, the RAM bank, and up to 0x7FFF it chooses
    /// between these two modes.
    pub open spec fn write_rom(self, address: u16, value: u8) -> Mbc1View {
        if address < 0x2000 {
            Mbc1View { ram_enabled: value == 0x0A, ..self }
        } else if address < 0x4000 {
            Mbc1View { rom_bank: selected_bank(self.rom_bank, value), ..self }
        } else if address < 0x6000 {
            if self.ram_mode {
                Mbc1View { ram_bank: (value % 4) as nat, ..self }
            } else {
                Mbc1View {
                    rom_bank: self.rom_bank % 0x20 + ((value % 4) * 0x20) as nat,
                    ..self
                }
            }
        } else if address < 0x8000 {
            Mbc1View { ram_mode: value != 0, ..self }
        } else {
            self
        }
    }

    pub open spec fn write_ram(self, address: u16, value: u8) -> Mbc1View {
        if self.ram_enabled && address < 0x2000 {
            Mbc1View { ram: self.ram.update(0x2000 * self.ram_bank + address, value), ..self }
        } else {
            self
        }
    }
}

pub struct Mbc1 {
    rom: Vec<u8>,
    selected_rom_bank: usize,
    ram: Vec<u8>,
    ram_enabled: bool,
    selected_ram_bank: usize,
    ram_mode: bool,
}

impl View for Mbc1 {
    type V = Mbc1View;

    closed spec fn view(&self) -> Mbc1View {
        Mbc1View {
            rom: self.rom@,
            rom_bank: self.selected_rom_bank as nat,
            ram: self.ram@,
            ram_enabled: self.ram_enabled,
            ram_bank: self.selected_ram_bank as nat,
            ram_mode: self.ram_mode,
        }
    }
}

impl Mbc1 {
    pub fn new(buffer: Vec<u8>) -> (mbc: Mbc1)
        ensures
            mbc@ == Mbc1View::initial(buffer@),
            mbc@.wf(),
    {
        Mbc1 {
            rom: buffer,
            selected_rom_bank: 1,
            ram: zeroed(RAM_BANK_SIZE * NUM_RAM_BANK),
            ram_enabled: false,
            selected_ram_bank: 0,
            ram_mode: false,
        }
    }
}

impl Mbc for Mbc1 {
    open spec fn wf(&self) -> bool {
        self@.wf()
    }

    open spec fn spec_read_rom(&self, address: u16) -> u8 {
        self@.read_rom(address)
    }

    open spec fn spec_read_ram(&self, address: u16) -> u8 {
        self@.read_ram(address)
    }

    open spec fn rom_written(&self, address: u16, value: u8, after: &Self) -> bool {
        after@ == self@.write_rom(address, value)
    }

    open spec fn ram_written(&self, address: u16, value: u8, after: &Self) -> bool {
        after@ == self@.write_ram(address, value)
    }

    fn read_rom(&self, address: u16) -> (value: u8) {
        assert(self.wf() ==> self@.wf());
        assert(self.spec_read_rom(address) == self@.read_rom(address));
        read_banked_rom(&self.rom, self.selected_rom_bank, address)
    }

    fn read_ram(&self, address: u16) -> (value: u8) {
        assert(self.wf() ==> self@.wf());
        assert(self.spec_read_ram(address) == self@.read_ram(address));
        if self.ram_enabled && address < 0x2000 {
            self.ram[RAM_BANK_SIZE * self.selected_ram_bank + address as usize]
        } else {
            0
        }
    }

    fn write_rom(&mut self, address: u16, value: u8) {
        assert(old(self).wf() ==> old(self)@.wf());
        if address < 0x2000 {
            self.ram_enabled = value == 0x0A;
        } else if address < 0x4000 {
            if value == 0x00 || value == 0x20 || value == 0x40 || value == 0x60 {
                self.selected_rom_bank = value as usize + 1;
            } else {
                self.selected_rom_bank = (self.selected_rom_bank / 0x20) * 0x20 + (value
                    % 0x20) as usize;
            }
        } else if address < 0x6000 {
            if self.ram_mode {
                self.selected_ram_bank = (value % 4) as usize;
            } else {
                self.selected_rom_bank = self.selected_rom_bank % 0x20 + ((value % 4) as usize) * 0x20;
            }
        } else if address < 0x8000 {
            self.ram_mode = value != 0;
        }
        assert(self.wf() <==> self@.wf());
        assert(old(self).rom_written(address, value, self) <==> self@ == old(self)@.write_rom(address, value));
    }

    fn write_ram(&mut self, address: u16, value: u8) {
        assert(old(self).wf() ==> old(self)@.wf());
        if self.ram_enabled && address < 0x2000 {
            let index: usize = RAM_BANK_SIZE * self.selected_ram_bank + address as usize;
            self.ram.set(index, value);
        }
        assert(self.wf() <==> self@.wf());
        assert(old(self).ram_written(address, value, self) <==> self@ == old(self)@.write_ram(address, value));
    }
}

/// A write of 0x00, 0x20, 0x40 or 0x60 to the bank register selects the
/// bank above the value, whatever bank was selected before; the ROM area
/// from 0x4000 on then shows that bank.
pub proof fn lemma_forced_bank(mbc: Mbc1View, address: u16, value: u8, offset: u16)
    requires
        0x2000 <= address < 0x4000,
        is_forced(value),
        offset < 0x4000,
    ensures
        mbc.write_rom(address, value).rom_bank == value + 1,
        mbc.write_rom(address, value).read_rom((0x4000 + offset) as u16) == crate::mbc::rom_byte(
            mbc.rom,
            0x4000 * (value + 1) + offset,
        ),
        mbc.wf() ==> mbc.write_rom(address, value).wf(),
{
}

} // verus!
