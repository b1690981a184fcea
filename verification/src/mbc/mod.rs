use vstd::prelude::*;
use crate::mbc::archive::{ends_with, extract_rom_from_zip, has_suffix, rom_in_archive};
use crate::mbc::cartridge::{Cartridge, CartridgeView, cartridge_for, same_cartridge};

pub mod archive;
pub mod cartridge;
pub mod mbc0;
pub mod mbc1;
pub mod mbc2;
pub mod mbc3;
pub mod mbc5;

verus! {

/// Size of one bank of cartridge ROM.
pub const ROM_BANK_SIZE: usize = 0x4000;

/// Size of one bank of cartridge RAM.
pub const RAM_BANK_SIZE: usize = 0x2000;

/// Address of the first byte of the title in the cartridge header.
pub const ADDR_TITLE_START: u16 = 0x0134;

/// Number of bytes that the title can have.
pub const TITLE_SIZE: u16 = 16;

/// Address of the cartridge type in the cartridge header.
pub const ADDR_CARTRIDGE_TYPE: usize = 0x0147;

/// Why a ROM image cannot be loaded.
#[derive(Debug, Copy, Clone, PartialEq, Eq, Structural)]
pub enum LoadError {
    /// The image ends before the cartridge type in its header.
    TooShort,
    /// No bank controller is known for the cartridge type of the header.
    UnsupportedCartridgeType(u8),
    /// The bytes of a ".zip" file are no ZIP archive.
    InvalidArchive,
    /// No file of the archive has a name that ends with ".gb".
    NoRomInArchive,
    /// A file of the archive could not be opened or unpacked.
    UnreadableEntry,
}

/// The byte of a ROM image at `index`; outside the image it reads 0.
pub open spec fn rom_byte(rom: Seq<u8>, index: int) -> u8 {
    if 0 <= index < rom.len() {
        rom[index]
    } else {
        0
    }
}

/// What a ROM image shows at a CPU address when `bank` is switched in:
/// bank 0 below 0x4000, the selected bank from 0x4000 to 0x7FFF.
pub open spec fn banked_rom_byte(rom: Seq<u8>, bank: nat, address: u16) -> u8 {
    if address < 0x4000 {
        rom_byte(rom, address as int)
    } else if address < 0x8000 {
        rom_byte(rom, 0x4000 * bank + (address - 0x4000))
    } else {
        0
    }
}

/// The title that starts at `i` bytes into the title field: the bytes up to
/// the first 0 or the end of the field, one character per byte.
pub open spec fn title_from(read: spec_fn(u16) -> u8, i: int) -> Seq<char>
    decreases 16 - i,
{
    if i < 0 || i >= 16 || read((0x0134 + i) as u16) == 0 {
        Seq::empty()
    } else {
        seq![read((0x0134 + i) as u16) as char] + title_from(read, i + 1)
    }
}

/// Reads a ROM image at an index; outside the image the result is 0.
pub fn read_rom_byte(rom: &Vec<u8>, index: usize) -> (value: u8)
    ensures
        value == rom_byte(rom@, index as int),
{
    if index < rom.len() {
        rom[index]
    } else {
        0
    }
}

/// Reads a ROM image at a CPU address with `bank` switched in.
pub fn read_banked_rom(rom: &Vec<u8>, bank: usize, address: u16) -> (value: u8)
    requires
        bank < 0x200,
    ensures
        value == banked_rom_byte(rom@, bank as nat, address),
{
    if address < 0x4000 {
        read_rom_byte(rom, address as usize)
    } else if address < 0x8000 {
        read_rom_byte(rom, ROM_BANK_SIZE * bank + (address - 0x4000) as usize)
    } else {
        0
    }
}

/// A block of `size` zero bytes.
pub fn zeroed(size: usize) -> (block: Vec<u8>)
    ensures
        block@ == Seq::new(size as nat, |i: int| 0u8),
{
    let mut block: Vec<u8> = Vec::new();
    while block.len() < size
        invariant
            block.len() <= size,
            forall|i: int| 0 <= i < block.len() ==> block[i] == 0,
        decreases size - block.len(),
    {
        block.push(0);
    }
    assert(block@ =~= Seq::new(size as nat, |i: int| 0u8));
    block
}

/// `String::push` of std, with the byte taken as the character of the same
/// number: the string becomes one character longer.
#[verifier::external_body]
fn push_byte(text: &mut String, byte: u8)
    ensures
        final(text)@ == old(text)@.push(byte as char),
{
    text.push(byte as char);
}

/// A memory bank controller: what a cartridge shows in the ROM area
/// (0x0000 to 0x7FFF) and in the external RAM area, whose addresses it is
/// given from 0 to 0x1FFF.
pub trait Mbc {
    /// What holds of every controller that `new` made, whatever was done
    /// with it since.
    spec fn wf(&self) -> bool;

    /// The byte that the ROM area shows at `address`.
    spec fn spec_read_rom(&self, address: u16) -> u8;

    /// The byte that the external RAM shows at `address`.
    spec fn spec_read_ram(&self, address: u16) -> u8;

    /// Whether `after` is this controller after `value` was written to
    /// `address` in the ROM area.
    spec fn rom_written(&self, address: u16, value: u8, after: &Self) -> bool;

    /// Whether `after` is this controller after `value` was written to
    /// `address` in the external RAM.
    spec fn ram_written(&self, address: u16, value: u8, after: &Self) -> bool;

    fn read_rom(&self, address: u16) -> (value: u8)
        requires
            self.wf(),
        ensures
            value == self.spec_read_rom(address),
    ;

    fn read_ram(&self, address: u16) -> (value: u8)
        requires
            self.wf(),
        ensures
            value == self.spec_read_ram(address),
    ;

    fn write_rom(&mut self, address: u16, value: u8)
        requires
            old(self).wf(),
        ensures
            final(self).wf(),
            old(self).rom_written(address, value, final(self)),
    ;

    fn write_ram(&mut self, address: u16, value: u8)
        requires
            old(self).wf(),
        ensures
            final(self).wf(),
            old(self).ram_written(address, value, final(self)),
    ;

    /// The title in the cartridge header.
    fn name(&self) -> (name: String)
        requires
            self.wf(),
        ensures
            name@ == title_from(|a: u16| self.spec_read_rom(a), 0),
    {
        let mut name: String = String::new();
        let ghost read = |a: u16| self.spec_read_rom(a);
        let mut i: u16 = 0;
        let mut done: bool = false;
        while i < TITLE_SIZE && !done
            invariant
                i <= 16,
                self.wf(),
                read == (|a: u16| self.spec_read_rom(a)),
                name@ + title_from(read, i as int) == title_from(read, 0),
                done ==> title_from(read, i as int) == Seq::<char>::empty(),
            decreases 16 - i + (if done { 0int } else { 1int }),
        {
            let ch: u8 = self.read_rom(ADDR_TITLE_START + i);
            if ch == 0 {
                done = true;
            } else {
                assert(title_from(read, i as int) == seq![ch as char] + title_from(read, i + 1));
                push_byte(&mut name, ch);
                assert(name@ + title_from(read, i + 1) =~= title_from(read, 0));
                i = i + 1;
            }
        }
        assert(title_from(read, i as int) == Seq::<char>::empty());
        assert(name@ + Seq::<char>::empty() =~= name@);
        name
    }
}

/// What loading a file gives: the image is unpacked first where the name
/// of the file ends with ".zip", and the controller is chosen by the
/// cartridge type in the header of the image.
pub open spec fn loaded(file_name: Seq<char>, bytes: Seq<u8>) -> Result<CartridgeView, LoadError> {
    if has_suffix(file_name, seq!['.', 'z', 'i', 'p']) {
        match rom_in_archive(bytes) {
            Ok(image) => cartridge_for(image),
            Err(error) => Err(error),
        }
    } else {
        cartridge_for(bytes)
    }
}

/// Sets up the cartridge for the content of a file.
pub fn load_rom(file_name: &str, buffer: Vec<u8>) -> (result: Result<Cartridge, LoadError>)
    ensures
        same_cartridge(result, loaded(file_name@, buffer@)),
{
    proof {
        reveal_strlit(".zip");
        assert(".zip"@ =~= seq!['.', 'z', 'i', 'p']);
    }
    if ends_with(file_name, ".zip") {
        match extract_rom_from_zip(buffer) {
            Ok(image) => Cartridge::new(image),
            Err(error) => Err(error),
        }
    } else {
        Cartridge::new(buffer)
    }
}

} // verus!
