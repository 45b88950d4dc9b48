//! The I/O register file at 0xFF00..=0xFF7F.
use vstd::prelude::*;
use crate::machine::Error;

verus! {

/// The first address of the I/O register file.
pub const IO_REGISTERS_START: usize = 0xFF00;

/// The last address of the I/O register file.
pub const IO_REGISTERS_END: usize = 0xFF7F;

/// The register that tells whether the boot ROM is still mapped.
pub const BOOT_ROM_ENABLE: usize = 0xFF50;

/// The LCD control register.
pub const LCDC: usize = 0xFF40;

/// Whether an address belongs to the I/O register file.
pub open spec fn io_mapped(address: u16) -> bool {
    0xFF00 <= address <= 0xFF7F
}

/// The registers that control input and output, one byte for each address
/// of 0xFF00..=0xFF7F.
pub struct IOResgisters {
    registers: Vec<u8>,
}

impl View for IOResgisters {
    type V = Seq<u8>;

    closed spec fn view(&self) -> Seq<u8> {
        self.registers@
    }
}

impl IOResgisters {
    /// The file holds one byte for each of its 0x80 addresses.
    pub open spec fn wf(&self) -> bool {
        self@.len() == 0x80
    }

    /// A register file with every register at zero.
    pub fn new() -> (io: IOResgisters)
        ensures
            io.wf(),
            io@ == Seq::new(0x80, |i: int| 0u8),
    {
        IOResgisters { registers: crate::cartridge::zeroed(0x80) }
    }

    /// Whether the boot ROM is still mapped: the register at 0xFF50 is zero
    /// until the boot ROM hands over.
    pub fn boot_rom_enabled(&self) -> (enabled: bool)
        requires
            self.wf(),
        ensures
            enabled == (self@[0x50] == 0),
    {
        self.registers[BOOT_ROM_ENABLE - IO_REGISTERS_START] == 0
    }

    /// The eight bits of the LCD control register, bit 7 first.
    pub fn lcdc(&self) -> (bits: [bool; 8])
        requires
            self.wf(),
        ensures
            forall|i: int| 0 <= i < 8 ==> bits[i] == ((self@[0x40] >> ((7 - i) as u8)) & 1 == 1),
    {
        let lcdc: u8 = self.registers[LCDC - IO_REGISTERS_START];
        let mut result: [bool; 8] = [false; 8];
        let mut i: usize = 0;
        while i < 8
            invariant
                i <= 8,
                forall|j: int| 0 <= j < i ==> result[j] == ((lcdc >> ((7 - j) as u8)) & 1 == 1),
            decreases 8 - i,
        {
            result[i] = (lcdc >> ((7 - i) as u8)) & 1 == 1;
            i = i + 1;
        }
        result
    }

    /// Stores a byte in the register at `address`; an address outside the
    /// file is an error and changes nothing.
    pub fn write_byte(&mut self, address: u16, value: u8) -> (done: Result<(), Error>)
        requires
            old(self).wf(),
        ensures
            final(self).wf(),
            io_mapped(address) ==> done == Ok::<(), Error>(()) && final(self)@ == old(self)@.update(
                address - 0xFF00,
                value,
            ),
            !io_mapped(address) ==> done == Err::<(), Error>(Error::IORegisterAddressError)
                && final(self)@ == old(self)@,
    {
        if IO_REGISTERS_START <= address as usize && address as usize <= IO_REGISTERS_END {
            self.registers[address as usize - IO_REGISTERS_START] = value;
            Ok(())
        } else {
            Err(Error::IORegisterAddressError)
        }
    }

    /// The byte in the register at `address`; an address outside the file is
    /// an error.
    pub fn read_byte(&self, address: u16) -> (byte: Result<u8, Error>)
        requires
            self.wf(),
        ensures
            byte == if io_mapped(address) {
                Ok::<u8, Error>(self@[address - 0xFF00])
            } else {
                Err::<u8, Error>(Error::IORegisterAddressError)
            },
    {
        if IO_REGISTERS_START <= address as usize && address as usize <= IO_REGISTERS_END {
            Ok(self.registers[address as usize - IO_REGISTERS_START])
        } else {
            Err(Error::IORegisterAddressError)
        }
    }
}

} // verus!
