use vstd::prelude::*;
use crate::mbc::{ADDR_CARTRIDGE_TYPE, LoadError, Mbc};
use crate::mbc::mbc0::{Mbc0, Mbc0View};
use crate::mbc::mbc1::{Mbc1, Mbc1View};
use crate::mbc::mbc2::{Mbc2, Mbc2View};
use crate::mbc::mbc3::{Mbc3, Mbc3View};
use crate::mbc::mbc5::{Mbc5, Mbc5View};

verus! {

/// The five kinds of bank controller.
#[derive(Debug, Copy, Clone, PartialEq, Eq, Structural)]
pub enum MbcKind {
    Mbc0,
    Mbc1,
    Mbc2,
    Mbc3,
    Mbc5,
}

/// The controller that a cartridge type of the header stands for.
pub open spec fn kind_of_type(cartridge_type: u8) -> Option<MbcKind> {
    if cartridge_type == 0x00 {
        Some(MbcKind::Mbc0)
    } else if 0x01 <= cartridge_type <= 0x03 {
        Some(MbcKind::Mbc1)
    } else if 0x05 <= cartridge_type <= 0x06 {
        Some(MbcKind::Mbc2)
    } else if 0x0F <= cartridge_type <= 0x13 {
        Some(MbcKind::Mbc3)
    } else if 0x19 <= cartridge_type <= 0x1E {
        Some(MbcKind::Mbc5)
    } else {
        None
    }
}

/// A cartridge as contracts see it.
pub enum CartridgeView {
    Mbc0(Mbc0View),
    Mbc1(Mbc1View),
    Mbc2(Mbc2View),
    Mbc3(Mbc3View),
    Mbc5(Mbc5View),
}

impl CartridgeView {
    pub open spec fn wf(self) -> bool {
        match self {
            CartridgeView::Mbc0(_) => true,
            CartridgeView::Mbc1(m) => m.wf(),
            CartridgeView::Mbc2(m) => m.wf(),
            CartridgeView::Mbc3(m) => m.wf(),
            CartridgeView::Mbc5(m) => m.wf(),
        }
    }

    /// A cartridge of the given kind as it is when the machine starts.
    pub open spec fn initial(kind: MbcKind, rom: Seq<u8>) -> CartridgeView {
        match kind {
            MbcKind::Mbc0 => CartridgeView::Mbc0(Mbc0View { rom }),
            MbcKind::Mbc1 => CartridgeView::Mbc1(Mbc1View::initial(rom)),
            MbcKind::Mbc2 => CartridgeView::Mbc2(Mbc2View::initial(rom)),
            MbcKind::Mbc3 => CartridgeView::Mbc3(Mbc3View::initial(rom)),
            MbcKind::Mbc5 => CartridgeView::Mbc5(Mbc5View::initial(rom)),
        }
    }

    pub open spec fn read_rom(self, address: u16) -> u8 {
        match self {
            CartridgeView::Mbc0(m) => m.read_rom(address),
            CartridgeView::Mbc1(m) => m.read_rom(address),
            CartridgeView::Mbc2(m) => m.read_rom(address),
            CartridgeView::Mbc3(m) => m.read_rom(address),
            CartridgeView::Mbc5(m) => m.read_rom(address),
        }
    }

    pub open spec fn read_ram(self, address: u16) -> u8 {
        match self {
            CartridgeView::Mbc0(_) => 0,
            CartridgeView::Mbc1(m) => m.read_ram(address),
            CartridgeView::Mbc2(m) => m.read_ram(address),
            CartridgeView::Mbc3(m) => m.read_ram(address),
            CartridgeView::Mbc5(m) => m.read_ram(address),
        }
    }

    pub open spec fn write_rom(self, address: u16, value: u8) -> CartridgeView {
        match self {
            CartridgeView::Mbc0(m) => self,
            CartridgeView::Mbc1(m) => CartridgeView::Mbc1(m.write_rom(address, value)),
            CartridgeView::Mbc2(m) => CartridgeView::Mbc2(m.write_rom(address, value)),
            CartridgeView::Mbc3(m) => CartridgeView::Mbc3(m.write_rom(address, value)),
            CartridgeView::Mbc5(m) => CartridgeView::Mbc5(m.write_rom(address, value)),
        }
    }

    pub open spec fn write_ram(self, address: u16, value: u8) -> CartridgeView {
        match self {
            CartridgeView::Mbc0(m) => self,
            CartridgeView::Mbc1(m) => CartridgeView::Mbc1(m.write_ram(address, value)),
            CartridgeView::Mbc2(m) => CartridgeView::Mbc2(m.write_ram(address, value)),
            CartridgeView::Mbc3(m) => CartridgeView::Mbc3(m.write_ram(address, value)),
            CartridgeView::Mbc5(m) => CartridgeView::Mbc5(m.write_ram(address, value)),
        }
    }
}

/// What choosing the controller for a ROM image gives: the image must hold
/// the cartridge type, and the type must be one of those supported.
pub open spec fn cartridge_for(rom: Seq<u8>) -> Result<CartridgeView, LoadError> {
    if rom.len() <= 0x0147 {
        Err(LoadError::TooShort)
    } else {
        match kind_of_type(rom[0x0147]) {
            Some(kind) => Ok(CartridgeView::initial(kind, rom)),
            None => Err(LoadError::UnsupportedCartridgeType(rom[0x0147])),
        }
    }
}

/// A cartridge with its bank controller.
pub enum Cartridge {
    Mbc0(Mbc0),
    Mbc1(Mbc1),
    Mbc2(Mbc2),
    Mbc3(Mbc3),
    Mbc5(Mbc5),
}

impl View for Cartridge {
    type V = CartridgeView;

    open spec fn view(&self) -> CartridgeView {
        match self {
            Cartridge::Mbc0(m) => CartridgeView::Mbc0(m@),
            Cartridge::Mbc1(m) => CartridgeView::Mbc1(m@),
            Cartridge::Mbc2(m) => CartridgeView::Mbc2(m@),
            Cartridge::Mbc3(m) => CartridgeView::Mbc3(m@),
            Cartridge::Mbc5(m) => CartridgeView::Mbc5(m@),
        }
    }
}

/// Whether a chosen cartridge is the one that the model names.
pub open spec fn same_cartridge(
    result: Result<Cartridge, LoadError>,
    model: Result<CartridgeView, LoadError>,
) -> bool {
    match result {
        Ok(cartridge) => model == Ok::<CartridgeView, LoadError>(cartridge@) && cartridge@.wf(),
        Err(error) => model == Err::<CartridgeView, LoadError>(error),
    }
}

impl Cartridge {
    /// Reads the cartridge type from the header of a ROM image and sets up
    /// the controller for it.
    pub fn new(buffer: Vec<u8>) -> (result: Result<Cartridge, LoadError>)
        ensures
            same_cartridge(result, cartridge_for(buffer@)),
    {
        if buffer.len() <= ADDR_CARTRIDGE_TYPE {
            return Err(LoadError::TooShort);
        }
        let cartridge_type: u8 = buffer[ADDR_CARTRIDGE_TYPE];
        if cartridge_type == 0x00 {
            Ok(Cartridge::Mbc0(Mbc0::new(buffer)))
        } else if 0x01 <= cartridge_type && cartridge_type <= 0x03 {
            Ok(Cartridge::Mbc1(Mbc1::new(buffer)))
        } else if 0x05 <= cartridge_type && cartridge_type <= 0x06 {
            Ok(Cartridge::Mbc2(Mbc2::new(buffer)))
        } else if 0x0F <= cartridge_type && cartridge_type <= 0x13 {
            Ok(Cartridge::Mbc3(Mbc3::new(buffer)))
        } else if 0x19 <= cartridge_type && cartridge_type <= 0x1E {
            Ok(Cartridge::Mbc5(Mbc5::new(buffer)))
        } else {
            Err(LoadError::UnsupportedCartridgeType(cartridge_type))
        }
    }
}

impl Mbc for Cartridge {
    open spec fn wf(&self) -> bool {
        self@.wf()
    }

    open spec fn spec_read_rom(&self, address: u16) -> u8 {
        self@.read_rom(address)
    }

    open spec fn spec_read_ram(&self, address: u16) -> u8 {
        self@.read_ram(address)
    }

    open spec fn rom_written(&self, address: u16, value: u8, after: &Self) -> bool {
        after@ == self@.write_rom(address, value)
    }

    open spec fn ram_written(&self, address: u16, value: u8, after: &Self) -> bool {
        after@ == self@.write_ram(address, value)
    }

    fn read_rom(&self, address: u16) -> (value: u8) {
        assert(self.wf() ==> self@.wf());
        assert(self.spec_read_rom(address) == self@.read_rom(address));
        match self {
            Cartridge::Mbc0(m) => m.read_rom(address),
            Cartridge::Mbc1(m) => m.read_rom(address),
            Cartridge::Mbc2(m) => m.read_rom(address),
            Cartridge::Mbc3(m) => m.read_rom(address),
            Cartridge::Mbc5(m) => m.read_rom(address),
        }
    }

    fn read_ram(&self, address: u16) -> (value: u8) {
        assert(self.wf() ==> self@.wf());
        assert(self.spec_read_ram(address) == self@.read_ram(address));
        match self {
            Cartridge::Mbc0(m) => m.read_ram(address),
            Cartridge::Mbc1(m) => m.read_ram(address),
            Cartridge::Mbc2(m) => m.read_ram(address),
            Cartridge::Mbc3(m) => m.read_ram(address),
            Cartridge::Mbc5(m) => m.read_ram(address),
        }
    }

    fn write_rom(&mut self, address: u16, value: u8) {
        assert(old(self).wf() ==> old(self)@.wf());
        match self {
            Cartridge::Mbc0(m) => m.write_rom(address, value),
            Cartridge::Mbc1(m) => m.write_rom(address, value),
            Cartridge::Mbc2(m) => m.write_rom(address, value),
            Cartridge::Mbc3(m) => m.write_rom(address, value),
            Cartridge::Mbc5(m) => m.write_rom(address, value),
        }
        assert(self.wf() <==> self@.wf());
        assert(old(self).rom_written(address, value, self) <==> self@ == old(self)@.write_rom(address, value));
    }

    fn write_ram(&mut self, address: u16, value: u8) {
        assert(old(self).wf() ==> old(self)@.wf());
        match self {
            Cartridge::Mbc0(m) => m.write_ram(address, value),
            Cartridge::Mbc1(m) => m.write_ram(address, value),
            Cartridge::Mbc2(m) => m.write_ram(address, value),
            Cartridge::Mbc3(m) => m.write_ram(address, value),
            Cartridge::Mbc5(m) => m.write_ram(address, value),
        }
        assert(self.wf() <==> self@.wf());
        assert(old(self).ram_written(address, value, self) <==> self@ == old(self)@.write_ram(address, value));
    }
}

} // verus!
