use vstd::prelude::*;
use crate::mbc::{Mbc, read_rom_byte, rom_byte};

verus! {

/// A cartridge without a bank controller as contracts see it.
pub struct Mbc0View {
    pub rom: Seq<u8>,
}

impl Mbc0View {
    /// The ROM maps one to one; above it nothing is mapped.
    pub open spec fn read_rom(self, address: u16) -> u8 {
        if address < 0x8000 {
            rom_byte(self.rom, address as int)
        } else {
            0
        }
    }
}

/// A cartridge of 32 KiB of plain ROM, without RAM.
pub struct Mbc0 {
    rom: Vec<u8>,
}

impl View for Mbc0 {
    type V = Mbc0View;

    closed spec fn view(&self) -> Mbc0View {
        Mbc0View { rom: self.rom@ }
    }
}

impl Mbc0 {
    pub fn new(buffer: Vec<u8>) -> (mbc: Mbc0)
        ensures
            mbc@ == (Mbc0View { rom: buffer@ }),
    {
        Mbc0 { rom: buffer }
    }
}

impl Mbc for Mbc0 {
    open spec fn wf(&self) -> bool {
        true
    }

    open spec fn spec_read_rom(&self, address: u16) -> u8 {
        self@.read_rom(address)
    }

    open spec fn spec_read_ram(&self, address: u16) -> u8 {
        0
    }

    open spec fn rom_written(&self, address: u16, value: u8, after: &Self) -> bool {
        after@ == self@
    }

    open spec fn ram_written(&self, address: u16, value: u8, after: &Self) -> bool {
        after@ == self@
    }

    fn read_rom(&self, address: u16) -> (value: u8) {
        assert(self.spec_read_rom(address) == self@.read_rom(address));
        if address < 0x8000 {
            read_rom_byte(&self.rom, address as usize)
        } else {
            0
        }
    }

    fn read_ram(&self, _address: u16) -> (value: u8) {
        assert(self.spec_read_ram(_address) == 0);
        0
    }

    fn write_rom(&mut self, _address: u16, _value: u8) {
        assert(old(self).rom_written(_address, _value, self) <==> self@ == old(self)@);
    }

    fn write_ram(&mut self, _address: u16, _value: u8) {
        assert(old(self).ram_written(_address, _value, self) <==> self@ == old(self)@);
    }
}

} // verus!
