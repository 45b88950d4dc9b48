//! Cartridges: the header, the two kinds of cartridge, and the loader that
//! picks the kind by the header.
use vstd::prelude::*;
use crate::machine::Error;

pub mod interface;
pub mod mbc1;
pub mod rom_only;

pub use interface::{Cartridge, CartridgeHeader, CartridgeState, Mbc1State, RomOnlyState};
pub use mbc1::MBC1Cartridge;
pub use rom_only::RomOnlyCartridge;

verus! {

/// What a read of a region with nothing behind it returns.
pub const OPENBUS: u8 = 0xFF;

/// A buffer of `len` zero bytes.
pub(crate) fn zeroed(len: usize) -> (buffer: Vec<u8>)
    ensures
        buffer@ == Seq::new(len as nat, |i: int| 0u8),
{
    let mut buffer: Vec<u8> = Vec::new();
    let mut i: usize = 0;
    while i < len
        invariant
            i <= len,
            buffer@ == Seq::new(i as nat, |j: int| 0u8),
        decreases len - i,
    {
        buffer.push(0);
        i = i + 1;
        assert(buffer@ =~= Seq::new(i as nat, |j: int| 0u8));
    }
    buffer
}

/// The cartridge that an image describes, chosen by the type byte of its
/// header: 0x00 has no bank controller, 0x01 to 0x03 carry an MBC1 (alone,
/// with RAM, with RAM and battery). Any other type is unsupported.
pub open spec fn load_cartridge(bytes: Seq<u8>) -> Result<CartridgeState, Error> {
    match CartridgeHeader::parse(bytes) {
        Ok(header) => if header.cartridge_type == 0x00 {
            RomOnlyCartridge::load(bytes)
        } else if 0x01 <= header.cartridge_type <= 0x03 {
            MBC1Cartridge::load(bytes)
        } else {
            Err(Error::CartridgeTypeUnsupported)
        },
        Err(e) => Err(e),
    }
}

/// A cartridge of any supported kind.
#[derive(Debug)]
pub enum CartridgeVariant {
    NoMBC(RomOnlyCartridge),
    MBC1(MBC1Cartridge),
}

impl Cartridge for CartridgeVariant {
    open spec fn wf(&self) -> bool {
        match self {
            CartridgeVariant::NoMBC(c) => c.wf(),
            CartridgeVariant::MBC1(c) => c.wf(),
        }
    }

    open spec fn state(&self) -> CartridgeState {
        match self {
            CartridgeVariant::NoMBC(c) => c.state(),
            CartridgeVariant::MBC1(c) => c.state(),
        }
    }

    open spec fn load(bytes: Seq<u8>) -> Result<CartridgeState, Error> {
        load_cartridge(bytes)
    }

    proof fn state_is_wf(&self) {
        match self {
            CartridgeVariant::NoMBC(c) => c.state_is_wf(),
            CartridgeVariant::MBC1(c) => c.state_is_wf(),
        }
    }

    fn read_byte(&self, address: u16) -> (byte: Result<u8, Error>) {
        match self {
            CartridgeVariant::NoMBC(c) => c.read_byte(address),
            CartridgeVariant::MBC1(c) => c.read_byte(address),
        }
    }

    fn write_byte(&mut self, address: u16, value: u8) -> (done: Result<(), Error>) {
        match self {
            CartridgeVariant::NoMBC(c) => c.write_byte(address, value),
            CartridgeVariant::MBC1(c) => c.write_byte(address, value),
        }
    }

    fn from_bytes(bytes: Vec<u8>) -> (cartridge: Result<Self, Error>) {
        load_cartridge_from_file(bytes)
    }

    fn get_rom(&self) -> (rom: &Vec<Vec<u8>>) {
        match self {
            CartridgeVariant::NoMBC(c) => c.get_rom(),
            CartridgeVariant::MBC1(c) => c.get_rom(),
        }
    }

    fn get_ram(&self) -> (ram: &Vec<Vec<u8>>) {
        match self {
            CartridgeVariant::NoMBC(c) => c.get_ram(),
            CartridgeVariant::MBC1(c) => c.get_ram(),
        }
    }

    fn get_header(&self) -> (header: &CartridgeHeader) {
        match self {
            CartridgeVariant::NoMBC(c) => c.get_header(),
            CartridgeVariant::MBC1(c) => c.get_header(),
        }
    }
}

/// Builds the cartridge that the contents of a ROM file describe.
pub fn load_cartridge_from_file(contents: Vec<u8>) -> (cartridge: Result<CartridgeVariant, Error>)
    ensures
        match cartridge {
            Ok(c) => c.wf() && load_cartridge(contents@) == Ok::<CartridgeState, Error>(c.state()),
            Err(e) => load_cartridge(contents@) == Err::<CartridgeState, Error>(e),
        },
{
    let header = match CartridgeHeader::from_bytes(contents.as_slice()) {
        Ok(h) => h,
        Err(e) => { return Err(e); },
    };
    if header.cartridge_type == 0x00 {
        match RomOnlyCartridge::from_bytes(contents) {
            Ok(c) => Ok(CartridgeVariant::NoMBC(c)),
            Err(e) => Err(e),
        }
    } else if 0x01 <= header.cartridge_type && header.cartridge_type <= 0x03 {
        match MBC1Cartridge::from_bytes(contents) {
            Ok(c) => Ok(CartridgeVariant::MBC1(c)),
            Err(e) => Err(e),
        }
    } else {
        Err(Error::CartridgeTypeUnsupported)
    }
}

} // verus!
