//! The cartridge header, the model of what a cartridge holds, and the
//! capabilities that every cartridge offers to the bus.
use vstd::prelude::*;
use crate::machine::Error;

verus! {

/// The first offset past the cartridge header; an image must be longer than this.
pub const HEADER_END: usize = 0x150;

/// The sum of `bytes[from..to]` as a mathematical integer.
pub open spec fn byte_sum(bytes: Seq<u8>, from: int, to: int) -> int
    decreases to - from,
{
    if from >= to {
        0
    } else {
        byte_sum(bytes, from, to - 1) + bytes[to - 1] as int
    }
}

/// The header checksum: starting from zero, every byte of 0x134..=0x14C is
/// subtracted together with one more; the low eight bits are kept.
pub open spec fn header_checksum(bytes: Seq<u8>) -> u8 {
    ((-(byte_sum(bytes, 0x134, 0x14D) + 25)) % 256) as u8
}

/// The ROM size in bytes that a size code stands for: 32 KiB doubled `code`
/// times for the codes 0 to 8, zero for any other code.
pub open spec fn rom_size_of(code: u8) -> u32 {
    if code == 0 {
        0x8000
    } else if code == 1 {
        0x1_0000
    } else if code == 2 {
        0x2_0000
    } else if code == 3 {
        0x4_0000
    } else if code == 4 {
        0x8_0000
    } else if code == 5 {
        0x10_0000
    } else if code == 6 {
        0x20_0000
    } else if code == 7 {
        0x40_0000
    } else if code == 8 {
        0x80_0000
    } else {
        0
    }
}

/// The external RAM size in bytes that a size code stands for.
pub open spec fn ram_size_of(code: u8) -> u32 {
    if code == 1 {
        0x800
    } else if code == 2 {
        0x2000
    } else if code == 3 {
        0x8000
    } else if code == 4 {
        0x2_0000
    } else if code == 5 {
        0x1_0000
    } else {
        0
    }
}

/// What the header at 0x0100..=0x014F says about the cartridge.
#[derive(Debug, Clone, Copy, PartialEq, Eq, Structural)]
pub struct CartridgeHeader {
    /// Byte 0x143: the colour-mode flag (part of the title on older cartridges).
    pub cgb_mode: u8,
    /// Byte 0x146: whether the cartridge uses the Super Game Boy functions.
    pub sgb_flag: u8,
    /// Byte 0x147: which bank controller the cartridge carries.
    pub cartridge_type: u8,
    /// The ROM size in bytes, decoded from byte 0x148.
    pub rom_size: u32,
    /// The external RAM size in bytes, decoded from byte 0x149.
    pub ram_size: u32,
    /// Byte 0x14A: where the cartridge was sold.
    pub destination_code: u8,
}

impl CartridgeHeader {
    /// The header that an image holds, or the reason why it holds none.
    pub open spec fn parse(bytes: Seq<u8>) -> Result<CartridgeHeader, Error> {
        if bytes.len() <= HEADER_END {
            Err(Error::CartridgeFileHeaderError)
        } else if header_checksum(bytes) != bytes[0x14D] {
            Err(Error::CartridgeCheckSumError)
        } else {
            Ok(
                CartridgeHeader {
                    cgb_mode: bytes[0x143],
                    sgb_flag: bytes[0x146],
                    cartridge_type: bytes[0x147],
                    rom_size: rom_size_of(bytes[0x148]),
                    ram_size: ram_size_of(bytes[0x149]),
                    destination_code: bytes[0x14A],
                },
            )
        }
    }

    /// Reads the header of a cartridge image. An image of 0x150 bytes or
    /// fewer is rejected, and so is one whose checksum byte at 0x14D differs
    /// from the checksum of bytes 0x134..=0x14C.
    pub fn from_bytes(bytes: &[u8]) -> (header: Result<CartridgeHeader, Error>)
        ensures
            header == Self::parse(bytes@),
    {
        if bytes.len() <= HEADER_END {
            return Err(Error::CartridgeFileHeaderError);
        }
        let mut checksum: u8 = 0;
        let mut i: usize = 0x134;
        while i < 0x14D
            invariant
                0x134 <= i <= 0x14D,
                bytes.len() > HEADER_END,
                checksum as int == (-(byte_sum(bytes@, 0x134, i as int) + (i - 0x134))) % 256,
            decreases 0x14D - i,
        {
            checksum = checksum.wrapping_sub(bytes[i]).wrapping_sub(1);
            i = i + 1;
        }
        if checksum != bytes[0x14D] {
            return Err(Error::CartridgeCheckSumError);
        }
        let rom_code: u8 = bytes[0x148];
        let rom_size: u32 = if rom_code <= 8 {
            assert(rom_code <= 8 ==> (0x8000u32 << rom_code) == rom_size_of(rom_code)) by (bit_vector);
            0x8000u32 << rom_code
        } else {
            0
        };
        let ram_code: u8 = bytes[0x149];
        let ram_size: u32 = if ram_code == 1 {
            0x800
        } else if ram_code == 2 {
            0x2000
        } else if ram_code == 3 {
            0x8000
        } else if ram_code == 4 {
            0x2_0000
        } else if ram_code == 5 {
            0x1_0000
        } else {
            0
        };
        Ok(
            CartridgeHeader {
                cgb_mode: bytes[0x143],
                sgb_flag: bytes[0x146],
                cartridge_type: bytes[0x147],
                rom_size,
                ram_size,
                destination_code: bytes[0x14A],
            },
        )
    }
}

} // verus!

verus! {

/// The size of one switchable ROM bank.
pub const ROM_BANK_SIZE: usize = 0x4000;

/// The size of one switchable RAM bank.
pub const RAM_BANK_SIZE: usize = 0x2000;

/// Whether an address lies in the ROM window 0x0000..=0x7FFF.
pub open spec fn in_rom_window(address: u16) -> bool {
    address <= 0x7FFF
}

/// Whether an address lies in the external RAM window 0xA000..=0xBFFF.
pub open spec fn in_ram_window(address: u16) -> bool {
    0xA000 <= address <= 0xBFFF
}

/// Whether the memory bus routes an address to the cartridge.
pub open spec fn cartridge_mapped(address: u16) -> bool {
    in_rom_window(address) || in_ram_window(address)
}

/// The banks of a banked memory as sequences of bytes.
pub open spec fn banks_of(banks: Vec<Vec<u8>>) -> Seq<Seq<u8>> {
    Seq::new(banks@.len(), |i: int| banks@[i]@)
}

/// A cartridge without a bank controller: the ROM image and one block of RAM.
pub ghost struct RomOnlyState {
    pub rom: Seq<u8>,
    pub ram: Seq<u8>,
    pub header: CartridgeHeader,
}

impl RomOnlyState {
    /// The RAM is as large as the header says.
    pub open spec fn wf(self) -> bool {
        self.ram.len() == self.header.ram_size
    }

    /// ROM reads return the image byte below the ROM size and the end of the
    /// image, RAM reads the stored byte below the RAM size; elsewhere the bus
    /// floats at 0xFF.
    pub open spec fn read(self, address: u16) -> u8 {
        if in_rom_window(address) {
            if address < self.header.rom_size && address < self.rom.len() {
                self.rom[address as int]
            } else {
                0xFF
            }
        } else if address - 0xA000 < self.header.ram_size {
            self.ram[address - 0xA000]
        } else {
            0xFF
        }
    }

    /// ROM writes change nothing; RAM writes below the RAM size are stored.
    pub open spec fn write(self, address: u16, value: u8) -> RomOnlyState {
        if in_ram_window(address) && address - 0xA000 < self.header.ram_size {
            RomOnlyState { ram: self.ram.update(address - 0xA000, value), ..self }
        } else {
            self
        }
    }

    /// The cartridge that an image describes: any image with a valid header.
    pub open spec fn load(bytes: Seq<u8>) -> Result<RomOnlyState, Error> {
        match CartridgeHeader::parse(bytes) {
            Ok(header) => Ok(
                RomOnlyState { rom: bytes, ram: Seq::new(header.ram_size as nat, |i: int| 0u8), header },
            ),
            Err(e) => Err(e),
        }
    }
}

/// A cartridge with an MBC1 controller: ROM in 16 KiB banks, RAM in 8 KiB
/// banks, and the four control registers.
pub ghost struct Mbc1State {
    pub rom: Seq<Seq<u8>>,
    pub ram: Seq<Seq<u8>>,
    pub header: CartridgeHeader,
    pub rom_bank: u8,
    pub ram_bank: u8,
    pub ram_enabled: bool,
    pub bank_mode: bool,
}

impl Mbc1State {
    /// There are at least two full ROM banks, every RAM bank is full, and
    /// both bank registers select a bank that exists; ROM bank 0 is never
    /// selected for the switchable window.
    pub open spec fn wf(self) -> bool {
        &&& 2 <= self.rom.len() <= 512
        &&& forall|i: int| 0 <= i < self.rom.len() ==> (#[trigger] self.rom[i]).len() == ROM_BANK_SIZE
        &&& self.ram.len() <= 16
        &&& forall|i: int| 0 <= i < self.ram.len() ==> (#[trigger] self.ram[i]).len() == RAM_BANK_SIZE
        &&& 1 <= self.rom_bank < self.rom.len()
        &&& (self.ram_bank < self.ram.len() || (self.ram.len() == 0 && self.ram_bank == 0))
    }

    /// The lower ROM window shows bank 0, the upper one the selected bank;
    /// the RAM window shows the selected RAM bank while RAM is enabled and
    /// present, and floats at 0xFF otherwise.
    pub open spec fn read(self, address: u16) -> u8 {
        if address <= 0x3FFF {
            self.rom[0][address as int]
        } else if address <= 0x7FFF {
            self.rom[self.rom_bank as int][address - 0x4000]
        } else if self.ram_enabled && self.ram.len() > 0 {
            self.ram[self.ram_bank as int][address - 0xA000]
        } else {
            0xFF
        }
    }

    /// The ROM bank that a write of `value` to 0x2000..=0x3FFF selects: the
    /// low five bits, reduced by the number of banks, and 1 in place of 0.
    pub open spec fn rom_bank_for(self, value: u8) -> u8 {
        let masked = (value & 0x1F) as int % self.rom.len() as int;
        if masked == 0 {
            1
        } else {
            masked as u8
        }
    }

    /// The RAM bank that a write of `value` to 0x4000..=0x5FFF selects: the
    /// low two bits, reduced by the number of banks; 0 without RAM.
    pub open spec fn ram_bank_for(self, value: u8) -> u8 {
        if self.ram.len() == 0 {
            0
        } else {
            ((value & 0x03) as int % self.ram.len() as int) as u8
        }
    }

    /// Writes to the ROM window set the control registers; writes to the RAM
    /// window are stored while RAM is enabled and present.
    pub open spec fn write(self, address: u16, value: u8) -> Mbc1State {
        if address <= 0x1FFF {
            Mbc1State { ram_enabled: value & 0x0F == 0x0A, ..self }
        } else if address <= 0x3FFF {
            Mbc1State { rom_bank: self.rom_bank_for(value), ..self }
        } else if address <= 0x5FFF {
            Mbc1State { ram_bank: self.ram_bank_for(value), ..self }
        } else if address <= 0x7FFF {
            Mbc1State { bank_mode: value & 0x01 == 1, ..self }
        } else if self.ram_enabled && self.ram.len() > 0 {
            Mbc1State {
                ram: self.ram.update(
                    self.ram_bank as int,
                    self.ram[self.ram_bank as int].update(address - 0xA000, value),
                ),
                ..self
            }
        } else {
            self
        }
    }

    /// The cartridge that an image describes. The header must be valid and
    /// name a ROM size, and the image must hold that many bytes. The ROM is
    /// cut into banks of 16 KiB, the RAM starts zeroed, bank 1 is selected
    /// and RAM is disabled.
    pub open spec fn load(bytes: Seq<u8>) -> Result<Mbc1State, Error> {
        match CartridgeHeader::parse(bytes) {
            Ok(header) => if header.rom_size == 0 || bytes.len() < header.rom_size {
                Err(Error::CartridgeFileHeaderError)
            } else {
                Ok(
                    Mbc1State {
                        rom: Seq::new(
                            (header.rom_size as int / 0x4000) as nat,
                            |i: int| bytes.subrange(0x4000 * i, 0x4000 * (i + 1)),
                        ),
                        ram: Seq::new(
                            (header.ram_size as int / 0x2000) as nat,
                            |i: int| Seq::new(0x2000, |j: int| 0u8),
                        ),
                        header,
                        rom_bank: 1,
                        ram_bank: 0,
                        ram_enabled: false,
                        bank_mode: false,
                    },
                )
            },
            Err(e) => Err(e),
        }
    }
}

/// What a cartridge holds, whichever controller it has.
pub ghost enum CartridgeState {
    NoMBC(RomOnlyState),
    MBC1(Mbc1State),
}

impl CartridgeState {
    pub open spec fn wf(self) -> bool {
        match self {
            CartridgeState::NoMBC(c) => c.wf(),
            CartridgeState::MBC1(c) => c.wf(),
        }
    }

    /// The byte that a read at a mapped address returns.
    pub open spec fn read(self, address: u16) -> u8 {
        match self {
            CartridgeState::NoMBC(c) => c.read(address),
            CartridgeState::MBC1(c) => c.read(address),
        }
    }

    /// The cartridge after a write at a mapped address.
    pub open spec fn write(self, address: u16, value: u8) -> CartridgeState {
        match self {
            CartridgeState::NoMBC(c) => CartridgeState::NoMBC(c.write(address, value)),
            CartridgeState::MBC1(c) => CartridgeState::MBC1(c.write(address, value)),
        }
    }

    pub open spec fn header(self) -> CartridgeHeader {
        match self {
            CartridgeState::NoMBC(c) => c.header,
            CartridgeState::MBC1(c) => c.header,
        }
    }

    /// The ROM as banks; a cartridge without a controller has one bank that
    /// holds the whole image.
    pub open spec fn rom_banks(self) -> Seq<Seq<u8>> {
        match self {
            CartridgeState::NoMBC(c) => seq![c.rom],
            CartridgeState::MBC1(c) => c.rom,
        }
    }

    /// The RAM as banks; a cartridge without a controller has one bank.
    pub open spec fn ram_banks(self) -> Seq<Seq<u8>> {
        match self {
            CartridgeState::NoMBC(c) => seq![c.ram],
            CartridgeState::MBC1(c) => c.ram,
        }
    }

    /// Whether a byte written at `address` is the byte read back from it.
    pub open spec fn stores(self, address: u16) -> bool {
        in_ram_window(address) && match self {
            CartridgeState::NoMBC(c) => address - 0xA000 < c.header.ram_size,
            CartridgeState::MBC1(c) => c.ram_enabled && c.ram.len() > 0,
        }
    }

    /// What a read through the cartridge interface returns: the byte at a
    /// mapped address, an error for any other address.
    pub open spec fn read_byte(self, address: u16) -> Result<u8, Error> {
        if cartridge_mapped(address) {
            Ok(self.read(address))
        } else {
            Err(Error::CartridgeAddressError)
        }
    }

    /// The cartridge after a write through the cartridge interface.
    pub open spec fn write_byte(self, address: u16, value: u8) -> CartridgeState {
        if cartridge_mapped(address) {
            self.write(address, value)
        } else {
            self
        }
    }

    /// The little-endian word at `address`, if both of its bytes are mapped.
    pub open spec fn read_word(self, address: u16) -> Result<u16, Error> {
        if cartridge_mapped(address) && cartridge_mapped((address + 1) as u16) {
            Ok((self.read(address) as u16) | ((self.read((address + 1) as u16) as u16) << 8))
        } else {
            Err(Error::CartridgeAddressError)
        }
    }

    /// The cartridge after a little-endian word write: the low byte goes
    /// first, and the high byte follows only if the low byte was accepted.
    pub open spec fn write_word(self, address: u16, value: u16) -> CartridgeState {
        if cartridge_mapped(address) {
            self.write(address, (value & 0xFF) as u8).write_byte((address + 1) as u16, (value >> 8) as u8)
        } else {
            self
        }
    }
}

/// The capabilities that every cartridge offers to the memory bus.
pub trait Cartridge: Sized {
    /// The invariant of the cartridge.
    spec fn wf(&self) -> bool;

    /// What the cartridge holds.
    spec fn state(&self) -> CartridgeState;

    /// What an image loads as, for this kind of cartridge.
    spec fn load(bytes: Seq<u8>) -> Result<CartridgeState, Error>;

    /// A well-formed cartridge holds a well-formed state.
    proof fn state_is_wf(&self)
        requires
            self.wf(),
        ensures
            self.state().wf(),
    ;

    /// Reads the byte at an address of one of the cartridge windows.
    fn read_byte(&self, address: u16) -> (byte: Result<u8, Error>)
        requires
            self.wf(),
        ensures
            byte == self.state().read_byte(address),
    ;

    /// Writes a byte at an address of one of the cartridge windows.
    fn write_byte(&mut self, address: u16, value: u8) -> (done: Result<(), Error>)
        requires
            old(self).wf(),
        ensures
            final(self).wf(),
            final(self).state() == old(self).state().write_byte(address, value),
            done == if cartridge_mapped(address) {
                Ok::<(), Error>(())
            } else {
                Err(Error::CartridgeAddressError)
            },
    ;

    /// Reads a little-endian word.
    fn read_word(&self, address: u16) -> (word: Result<u16, Error>)
        requires
            self.wf(),
        ensures
            word == self.state().read_word(address),
    {
        let low: u16 = match self.read_byte(address) {
            Ok(b) => b as u16,
            Err(e) => { return Err(e); },
        };
        let high: u16 = match self.read_byte(address + 1) {
            Ok(b) => b as u16,
            Err(e) => { return Err(e); },
        };
        Ok(low | (high << 8))
    }

    /// Writes a little-endian word, low byte first.
    fn write_word(&mut self, address: u16, value: u16) -> (done: Result<(), Error>)
        requires
            old(self).wf(),
        ensures
            final(self).wf(),
            final(self).state() == old(self).state().write_word(address, value),
            done == if cartridge_mapped(address) && cartridge_mapped((address + 1) as u16) {
                Ok::<(), Error>(())
            } else {
                Err(Error::CartridgeAddressError)
            },
    {
        match self.write_byte(address, (value & 0xFF) as u8) {
            Ok(()) => {},
            Err(e) => { return Err(e); },
        }
        self.write_byte(address + 1, (value >> 8) as u8)
    }

    /// Builds the cartridge from the bytes of an image.
    fn from_bytes(bytes: Vec<u8>) -> (cartridge: Result<Self, Error>)
        ensures
            match cartridge {
                Ok(c) => c.wf() && Self::load(bytes@) == Ok::<CartridgeState, Error>(c.state()),
                Err(e) => Self::load(bytes@) == Err::<CartridgeState, Error>(e),
            },
    ;

    /// The ROM banks.
    fn get_rom(&self) -> (rom: &Vec<Vec<u8>>)
        requires
            self.wf(),
        ensures
            banks_of(*rom) == self.state().rom_banks(),
    ;

    /// The RAM banks.
    fn get_ram(&self) -> (ram: &Vec<Vec<u8>>)
        requires
            self.wf(),
        ensures
            banks_of(*ram) == self.state().ram_banks(),
    ;

    /// The header that the cartridge was built from.
    fn get_header(&self) -> (header: &CartridgeHeader)
        requires
            self.wf(),
        ensures
            *header == self.state().header(),
    ;
}

} // verus!

verus! {

/// Without a bank controller a write to the ROM window changes nothing: the
/// cartridge is the same afterwards, and so is every byte read from it.
pub proof fn law_rom_only_ignores_rom_writes(cartridge: RomOnlyState, address: u16, value: u8)
    requires
        address <= 0x7FFF,
    ensures
        cartridge.write(address, value) == cartridge,
        forall|at: u16| cartridge.write(address, value).read(at) == cartridge.read(at),
{
}

/// A write to 0x2000 selects the ROM bank named by its low five bits, and
/// bank 1 when they are zero, as long as the cartridge has that bank.
pub proof fn law_mbc1_selects_rom_bank(cartridge: Mbc1State, value: u8)
    requires
        cartridge.wf(),
        (value & 0x1F) < cartridge.rom.len(),
    ensures
        value & 0x1F == 0 ==> cartridge.write(0x2000, value).rom_bank == 1,
        value & 0x1F != 0 ==> cartridge.write(0x2000, value).rom_bank == value & 0x1F,
        cartridge.write(0x2000, value).wf(),
{
    vstd::arithmetic::div_mod::lemma_small_mod((value & 0x1F) as nat, cartridge.rom.len());
}

/// A write to 0x0000 enables the RAM when its low nibble is 0x0A, as that
/// of 0x0A itself is, and disables it for any other value.
pub proof fn law_mbc1_ram_enable(cartridge: Mbc1State, value: u8)
    ensures
        cartridge.write(0x0000, 0x0A).ram_enabled,
        value & 0x0F == 0x0A ==> cartridge.write(0x0000, value).ram_enabled,
        value & 0x0F != 0x0A ==> !cartridge.write(0x0000, value).ram_enabled,
{
    assert(0x0Au8 & 0x0F == 0x0A) by (bit_vector);
}

/// Every write keeps an MBC1 cartridge well formed.
pub proof fn law_mbc1_write_keeps_wf(cartridge: Mbc1State, address: u16, value: u8)
    requires
        cartridge.wf(),
        cartridge_mapped(address),
    ensures
        cartridge.write(address, value).wf(),
{
    let after = cartridge.write(address, value);
    if 0x2000 <= address <= 0x3FFF {
        vstd::arithmetic::div_mod::lemma_mod_decreases((value & 0x1F) as nat, cartridge.rom.len());
    } else if 0x4000 <= address <= 0x5FFF {
        if cartridge.ram.len() > 0 {
            vstd::arithmetic::div_mod::lemma_mod_decreases((value & 0x03) as nat, cartridge.ram.len());
        }
    } else if in_ram_window(address) && cartridge.ram_enabled && cartridge.ram.len() > 0 {
        assert forall|i: int| 0 <= i < after.ram.len() implies (#[trigger] after.ram[i]).len()
            == RAM_BANK_SIZE by {
            let _ = cartridge.ram[i];
        }
    }
}

} // verus!
