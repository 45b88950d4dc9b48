//! The cartridge without a bank controller.
use vstd::prelude::*;
use crate::cartridge::interface::{
    banks_of, Cartridge, CartridgeHeader, CartridgeState, RomOnlyState,
};
use crate::cartridge::{zeroed, OPENBUS};
use crate::machine::Error;

verus! {

/// A cartridge without a bank controller. Games of up to 32 KiB need none:
/// the ROM is mapped at 0x0000..=0x7FFF as it is, and up to 8 KiB of RAM may
/// sit at 0xA000..=0xBFFF.
#[derive(Debug)]
pub struct RomOnlyCartridge {
    rom: Vec<Vec<u8>>,
    ram: Vec<Vec<u8>>,
    header: CartridgeHeader,
}

impl View for RomOnlyCartridge {
    type V = RomOnlyState;

    closed spec fn view(&self) -> RomOnlyState {
        RomOnlyState { rom: self.rom@[0]@, ram: self.ram@[0]@, header: self.header }
    }
}

impl RomOnlyCartridge {
    /// Builds the cartridge from the contents of a ROM file.
    pub fn new(raw_bytes: Vec<u8>) -> (cartridge: Result<Self, Error>)
        ensures
            match cartridge {
                Ok(c) => c.wf() && RomOnlyState::load(raw_bytes@) == Ok::<RomOnlyState, Error>(c@),
                Err(e) => RomOnlyState::load(raw_bytes@) == Err::<RomOnlyState, Error>(e),
            },
    {
        let header = match CartridgeHeader::from_bytes(raw_bytes.as_slice()) {
            Ok(h) => h,
            Err(e) => { return Err(e); },
        };
        let ghost image = raw_bytes@;
        let mut rom: Vec<Vec<u8>> = Vec::new();
        rom.push(raw_bytes);
        let mut ram: Vec<Vec<u8>> = Vec::new();
        ram.push(zeroed(header.ram_size as usize));
        let cartridge = RomOnlyCartridge { rom, ram, header };
        proof {
            assert(cartridge@.ram =~= Seq::new(header.ram_size as nat, |i: int| 0u8));
            assert(cartridge@.rom == image);
        }
        Ok(cartridge)
    }
}

impl Cartridge for RomOnlyCartridge {
    closed spec fn wf(&self) -> bool {
        &&& self.rom@.len() == 1
        &&& self.ram@.len() == 1
        &&& self@.wf()
    }

    open spec fn state(&self) -> CartridgeState {
        CartridgeState::NoMBC(self@)
    }

    open spec fn load(bytes: Seq<u8>) -> Result<CartridgeState, Error> {
        match RomOnlyState::load(bytes) {
            Ok(c) => Ok(CartridgeState::NoMBC(c)),
            Err(e) => Err(e),
        }
    }

    proof fn state_is_wf(&self) {
    }

    fn read_byte(&self, address: u16) -> (byte: Result<u8, Error>) {
        if address <= 0x7FFF {
            if (address as u32) < self.header.rom_size && (address as usize) < self.rom[0].len() {
                Ok(self.rom[0][address as usize])
            } else {
                Ok(OPENBUS)
            }
        } else if 0xA000 <= address && address <= 0xBFFF {
            if ((address - 0xA000) as u32) < self.header.ram_size {
                Ok(self.ram[0][address as usize - 0xA000])
            } else {
                Ok(OPENBUS)
            }
        } else {
            Err(Error::CartridgeAddressError)
        }
    }

    fn write_byte(&mut self, address: u16, value: u8) -> (done: Result<(), Error>) {
        if address <= 0x7FFF {
            Ok(())
        } else if 0xA000 <= address && address <= 0xBFFF {
            if ((address - 0xA000) as u32) < self.header.ram_size {
                self.ram[0][address as usize - 0xA000] = value;
            }
            Ok(())
        } else {
            Err(Error::CartridgeAddressError)
        }
    }

    fn from_bytes(bytes: Vec<u8>) -> (cartridge: Result<Self, Error>) {
        RomOnlyCartridge::new(bytes)
    }

    fn get_rom(&self) -> (rom: &Vec<Vec<u8>>) {
        proof {
            assert(banks_of(self.rom) =~= seq![self@.rom]);
        }
        &self.rom
    }

    fn get_ram(&self) -> (ram: &Vec<Vec<u8>>) {
        proof {
            assert(banks_of(self.ram) =~= seq![self@.ram]);
        }
        &self.ram
    }

    fn get_header(&self) -> (header: &CartridgeHeader) {
        &self.header
    }
}

} // verus!
