//! The errors of the library.
use vstd::prelude::*;

verus! {

/// What can go wrong while a cartridge is loaded or an address is decoded.
#[derive(Debug, Clone, Copy, PartialEq, Eq, Structural)]
pub enum Error {
    /// A byte or a register index does not name an operation or a register.
    OPCodeParseError,
    /// The header checksum does not match the header bytes.
    CartridgeCheckSumError,
    /// The image is too short to hold what its header promises.
    CartridgeFileHeaderError,
    /// An address outside the cartridge windows reached the cartridge.
    CartridgeAddressError,
    /// The header names a bank controller that is not implemented.
    CartridgeTypeUnsupported,
    /// An address outside 0xFF00..=0xFF7F reached the I/O register file.
    IORegisterAddressError,
    /// An address reached video memory outside the region it was meant for.
    VRAMAddressError,
}

impl Error {
    /// The text of the message for each error.
    pub open spec fn message_text(&self) -> Seq<char> {
        match self {
            Error::OPCodeParseError => "Failed to parse OPCode"@,
            Error::CartridgeCheckSumError => "CheckSum Error in Cartridge"@,
            Error::CartridgeFileHeaderError => "The Cartridge File Header is invalid"@,
            Error::CartridgeAddressError => "The Cartridge Address is invalid"@,
            Error::CartridgeTypeUnsupported => "The Cartridge Type is not supported"@,
            Error::IORegisterAddressError => "The IO Register Address is invalid"@,
            Error::VRAMAddressError => "The VRAM Address is invalid"@,
        }
    }

    /// A human-readable description of the error.
    pub fn message(&self) -> (text: &'static str)
        ensures
            text@ == self.message_text(),
    {
        match self {
            Error::OPCodeParseError => "Failed to parse OPCode",
            Error::CartridgeCheckSumError => "CheckSum Error in Cartridge",
            Error::CartridgeFileHeaderError => "The Cartridge File Header is invalid",
            Error::CartridgeAddressError => "The Cartridge Address is invalid",
            Error::CartridgeTypeUnsupported => "The Cartridge Type is not supported",
            Error::IORegisterAddressError => "The IO Register Address is invalid",
            Error::VRAMAddressError => "The VRAM Address is invalid",
        }
    }
}

} // verus!
