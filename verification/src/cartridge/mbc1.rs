//! The cartridge with an MBC1 bank controller.
use vstd::prelude::*;
use vstd::arithmetic::div_mod::lemma_mod_decreases;
use crate::cartridge::interface::{banks_of, Cartridge, CartridgeHeader, CartridgeState, Mbc1State};
use crate::cartridge::{zeroed, OPENBUS};
use crate::machine::Error;

verus! {

/// A cartridge with an MBC1 bank controller.
///
/// Writes to the ROM window reach the controller's registers:
/// 0x0000..=0x1FFF enables the RAM when the low nibble is 0x0A and disables
/// it otherwise; 0x2000..=0x3FFF selects the ROM bank by the low five bits
/// (0 selects bank 1); 0x4000..=0x5FFF selects the RAM bank by the low two
/// bits; 0x6000..=0x7FFF sets the banking mode.
#[derive(Debug)]
pub struct MBC1Cartridge {
    rom: Vec<Vec<u8>>,
    ram: Vec<Vec<u8>>,
    header: CartridgeHeader,
    rom_idx: u8,
    ram_idx: u8,
    ram_enabled: bool,
    bank_mode: bool,
}

impl View for MBC1Cartridge {
    type V = Mbc1State;

    closed spec fn view(&self) -> Mbc1State {
        Mbc1State {
            rom: banks_of(self.rom),
            ram: banks_of(self.ram),
            header: self.header,
            rom_bank: self.rom_idx,
            ram_bank: self.ram_idx,
            ram_enabled: self.ram_enabled,
            bank_mode: self.bank_mode,
        }
    }
}

/// Cuts the first `count` banks of 16 KiB out of an image.
fn split_rom(bytes: &Vec<u8>, count: usize) -> (banks: Vec<Vec<u8>>)
    requires
        count * 0x4000 <= bytes.len(),
    ensures
        banks_of(banks) == Seq::new(count as nat, |i: int| bytes@.subrange(0x4000 * i, 0x4000 * (i + 1))),
{
    let mut banks: Vec<Vec<u8>> = Vec::new();
    let mut i: usize = 0;
    while i < count
        invariant
            i <= count,
            count * 0x4000 <= bytes.len(),
            banks@.len() == i,
            forall|k: int| 0 <= k < i ==> (#[trigger] banks@[k])@ == bytes@.subrange(0x4000 * k, 0x4000 * (k + 1)),
        decreases count - i,
    {
        let mut bank: Vec<u8> = Vec::new();
        let mut j: usize = 0;
        while j < 0x4000
            invariant
                j <= 0x4000,
                i < count,
                count * 0x4000 <= bytes.len(),
                bank@ == bytes@.subrange(0x4000 * i, 0x4000 * i + j),
            decreases 0x4000 - j,
        {
            bank.push(bytes[0x4000 * i + j]);
            j = j + 1;
            assert(bank@ =~= bytes@.subrange(0x4000 * i, 0x4000 * i + j));
        }
        banks.push(bank);
        i = i + 1;
    }
    assert(banks_of(banks) =~~= Seq::new(
        count as nat,
        |i: int| bytes@.subrange(0x4000 * i, 0x4000 * (i + 1)),
    ));
    banks
}

/// `count` RAM banks of 8 KiB, all zero.
fn blank_ram(count: usize) -> (banks: Vec<Vec<u8>>)
    ensures
        banks_of(banks) == Seq::new(count as nat, |i: int| Seq::new(0x2000, |j: int| 0u8)),
{
    let mut banks: Vec<Vec<u8>> = Vec::new();
    let mut i: usize = 0;
    while i < count
        invariant
            i <= count,
            banks@.len() == i,
            forall|k: int| 0 <= k < i ==> (#[trigger] banks@[k])@ == Seq::new(0x2000, |j: int| 0u8),
        decreases count - i,
    {
        banks.push(zeroed(0x2000));
        i = i + 1;
    }
    assert(banks_of(banks) =~~= Seq::new(count as nat, |i: int| Seq::new(0x2000, |j: int| 0u8)));
    banks
}

impl MBC1Cartridge {
    /// The number of RAM banks.
    pub fn get_ram_len(&self) -> (len: usize)
        ensures
            len == self@.ram.len(),
    {
        self.ram.len()
    }

    /// The ROM bank shown at 0x4000..=0x7FFF.
    pub fn get_rom_idx(&self) -> (bank: u8)
        ensures
            bank == self@.rom_bank,
    {
        self.rom_idx
    }

    /// The RAM bank shown at 0xA000..=0xBFFF.
    pub fn get_ram_idx(&self) -> (bank: u8)
        ensures
            bank == self@.ram_bank,
    {
        self.ram_idx
    }

    /// Whether the external RAM answers.
    pub fn ram_enabled(&self) -> (enabled: bool)
        ensures
            enabled == self@.ram_enabled,
    {
        self.ram_enabled
    }

    /// The banking mode: false for the default mode, true for the advanced one.
    pub fn bank_mode(&self) -> (mode: bool)
        ensures
            mode == self@.bank_mode,
    {
        self.bank_mode
    }
}

impl Cartridge for MBC1Cartridge {
    closed spec fn wf(&self) -> bool {
        self@.wf()
    }

    open spec fn state(&self) -> CartridgeState {
        CartridgeState::MBC1(self@)
    }

    open spec fn load(bytes: Seq<u8>) -> Result<CartridgeState, Error> {
        match Mbc1State::load(bytes) {
            Ok(c) => Ok(CartridgeState::MBC1(c)),
            Err(e) => Err(e),
        }
    }

    proof fn state_is_wf(&self) {
    }

    fn read_byte(&self, address: u16) -> (byte: Result<u8, Error>) {
        if address <= 0x3FFF {
            Ok(self.rom[0][address as usize])
        } else if address <= 0x7FFF {
            Ok(self.rom[self.rom_idx as usize][address as usize - 0x4000])
        } else if 0xA000 <= address && address <= 0xBFFF {
            if self.ram_enabled && self.get_ram_len() > 0 {
                Ok(self.ram[self.ram_idx as usize][address as usize - 0xA000])
            } else {
                Ok(OPENBUS)
            }
        } else {
            Err(Error::CartridgeAddressError)
        }
    }

    fn write_byte(&mut self, address: u16, value: u8) -> (done: Result<(), Error>) {
        if address <= 0x1FFF {
            self.ram_enabled = value & 0x0F == 0x0A;
        } else if address <= 0x3FFF {
            let rom_bank_numbers: usize = self.rom.len();
            let low_bits: u8 = value & 0x1F;
            proof {
                lemma_mod_decreases(low_bits as nat, rom_bank_numbers as nat);
            }
            let masked_index: usize = low_bits as usize % rom_bank_numbers;
            self.rom_idx = if masked_index == 0 {
                1
            } else {
                masked_index as u8
            };
        } else if address <= 0x5FFF {
            let ram_bank_number: usize = self.ram.len();
            let low_bits: u8 = value & 0x03;
            let masked_index: usize = if ram_bank_number != 0 {
                proof {
                    lemma_mod_decreases(low_bits as nat, ram_bank_number as nat);
                }
                low_bits as usize % ram_bank_number
            } else {
                0
            };
            self.ram_idx = masked_index as u8;
        } else if address <= 0x7FFF {
            self.bank_mode = (value & 0x01) == 0x01;
        } else if 0xA000 <= address && address <= 0xBFFF {
            if self.ram_enabled && self.ram.len() > 0 {
                let bank: usize = self.ram_idx as usize;
                self.ram[bank][address as usize - 0xA000] = value;
                proof {
                    assert(self@.ram =~~= old(self)@.ram.update(
                        bank as int,
                        old(self)@.ram[bank as int].update(address - 0xA000, value),
                    ));
                    assert(self@.rom =~~= old(self)@.rom);
                }
            }
        } else {
            return Err(Error::CartridgeAddressError);
        }
        Ok(())
    }

    fn from_bytes(bytes: Vec<u8>) -> (cartridge: Result<Self, Error>) {
        let header = match CartridgeHeader::from_bytes(bytes.as_slice()) {
            Ok(h) => h,
            Err(e) => { return Err(e); },
        };
        if header.rom_size == 0 || bytes.len() < header.rom_size as usize {
            return Err(Error::CartridgeFileHeaderError);
        }
        let rom_bank_numbers: usize = (header.rom_size / 1024 / 16) as usize;
        let ram_bank_numbers: usize = (header.ram_size / 1024 / 8) as usize;
        let rom = split_rom(&bytes, rom_bank_numbers);
        let ram = blank_ram(ram_bank_numbers);
        let cartridge = MBC1Cartridge {
            rom,
            ram,
            header,
            rom_idx: 1,
            ram_idx: 0,
            ram_enabled: false,
            bank_mode: false,
        };
        Ok(cartridge)
    }

    fn get_rom(&self) -> (rom: &Vec<Vec<u8>>) {
        &self.rom
    }

    fn get_ram(&self) -> (ram: &Vec<Vec<u8>>) {
        &self.ram
    }

    fn get_header(&self) -> (header: &CartridgeHeader) {
        &self.header
    }
}

} // verus!
