//! The memory bus and the model of the address space.
use vstd::prelude::*;
use crate::cartridge::interface::{cartridge_mapped, Cartridge, CartridgeState};
use crate::cartridge::{zeroed, CartridgeVariant, OPENBUS};
use crate::io_registers::IOResgisters;

verus! {

const VRAM_START: u16 = 0x8000;

const WRAM_START: u16 = 0xC000;

const ECHO_START: u16 = 0xE000;

const OAM_START: u16 = 0xFE00;

const HRAM_START: u16 = 0xFF80;

/// The address of the interrupt flag register.
pub const IF: u16 = 0xFF0F;

/// The address of the interrupt enable register.
pub const IE: u16 = 0xFFFF;

/// The word whose low byte is `low` and whose high byte is `high`.
#[verifier::opaque]
pub open spec fn word_of(low: u8, high: u8) -> u16 {
    (high * 256 + low) as u16
}

/// The low byte of a word.
#[verifier::opaque]
pub open spec fn low_byte(word: u16) -> u8 {
    (word % 256) as u8
}

/// The high byte of a word.
#[verifier::opaque]
pub open spec fn high_byte(word: u16) -> u8 {
    (word / 256) as u8
}

/// The address `by` bytes past `address`, wrapping at the end of the
/// address space.
#[verifier::opaque]
pub open spec fn address_after(address: u16, by: int) -> u16 {
    ((address + by) % 0x1_0000) as u16
}

/// The address `by` bytes past `address`.
pub fn step_address(address: u16, by: u16) -> (next: u16)
    ensures
        next == address_after(address, by as int),
{
    reveal(address_after);
    address.wrapping_add(by)
}

/// The address `by` bytes before `address`.
pub fn step_back(address: u16, by: u16) -> (previous: u16)
    ensures
        previous == address_after(address, -(by as int)),
{
    reveal(address_after);
    address.wrapping_sub(by)
}

/// Joins two bytes into a word.
pub fn make_word(low: u8, high: u8) -> (word: u16)
    ensures
        word == word_of(low, high),
{
    reveal(word_of);
    assert(((high as u16) << 8) | (low as u16) == (high as u16) * 256 + (low as u16)) by (bit_vector);
    ((high as u16) << 8) | (low as u16)
}

/// Splits a word into its low and its high byte.
pub fn split_word(word: u16) -> (bytes: (u8, u8))
    ensures
        bytes.0 == low_byte(word),
        bytes.1 == high_byte(word),
        word_of(bytes.0, bytes.1) == word,
{
    reveal(word_of);
    reveal(low_byte);
    reveal(high_byte);
    assert((word & 0x00FF) == word % 256 && ((word & 0xFF00) >> 8) == word / 256) by (bit_vector);
    ((word & 0x00FF) as u8, ((word & 0xFF00) >> 8) as u8)
}

/// The address space as the processor sees it: the cartridge, if one is
/// loaded, and the machine's own memories.
pub ghost struct BusState {
    pub cartridge: Option<CartridgeState>,
    /// Video RAM, 0x8000..=0x9FFF.
    pub vram: Seq<u8>,
    /// Work RAM, 0xC000..=0xDFFF, mirrored at 0xE000..=0xFDFF.
    pub wram: Seq<u8>,
    /// Object attribute memory, 0xFE00..=0xFE9F.
    pub oam: Seq<u8>,
    /// The I/O registers, 0xFF00..=0xFF7F.
    pub io: Seq<u8>,
    /// High RAM, 0xFF80..=0xFFFE.
    pub hram: Seq<u8>,
    /// The interrupt enable register, 0xFFFF.
    pub interrupt_enable: u8,
}

impl BusState {
    /// Every memory has its size, and the cartridge is well formed.
    pub open spec fn wf(self) -> bool {
        &&& self.vram.len() == 0x2000
        &&& self.wram.len() == 0x2000
        &&& self.oam.len() == 0xA0
        &&& self.io.len() == 0x80
        &&& self.hram.len() == 0x7F
        &&& match self.cartridge {
            Some(c) => c.wf(),
            None => true,
        }
    }

    /// The byte at an address. The cartridge windows float at 0xFF while no
    /// cartridge is loaded, and so does the prohibited region
    /// 0xFEA0..=0xFEFF.
    pub open spec fn read(self, address: u16) -> u8 {
        if cartridge_mapped(address) {
            match self.cartridge {
                Some(c) => c.read(address),
                None => 0xFF,
            }
        } else if address <= 0x9FFF {
            self.vram[address - 0x8000]
        } else if address <= 0xDFFF {
            self.wram[address - 0xC000]
        } else if address <= 0xFDFF {
            self.wram[address - 0xE000]
        } else if address <= 0xFE9F {
            self.oam[address - 0xFE00]
        } else if address <= 0xFEFF {
            0xFF
        } else if address <= 0xFF7F {
            self.io[address - 0xFF00]
        } else if address <= 0xFFFE {
            self.hram[address - 0xFF80]
        } else {
            self.interrupt_enable
        }
    }

    /// The address space after a byte is written. Writes to the cartridge
    /// windows go to the cartridge, writes to the prohibited region are
    /// dropped, every other write is stored.
    pub open spec fn write(self, address: u16, value: u8) -> BusState {
        if cartridge_mapped(address) {
            match self.cartridge {
                Some(c) => BusState { cartridge: Some(c.write(address, value)), ..self },
                None => self,
            }
        } else if address <= 0x9FFF {
            BusState { vram: self.vram.update(address - 0x8000, value), ..self }
        } else if address <= 0xDFFF {
            BusState { wram: self.wram.update(address - 0xC000, value), ..self }
        } else if address <= 0xFDFF {
            BusState { wram: self.wram.update(address - 0xE000, value), ..self }
        } else if address <= 0xFE9F {
            BusState { oam: self.oam.update(address - 0xFE00, value), ..self }
        } else if address <= 0xFEFF {
            self
        } else if address <= 0xFF7F {
            BusState { io: self.io.update(address - 0xFF00, value), ..self }
        } else if address <= 0xFFFE {
            BusState { hram: self.hram.update(address - 0xFF80, value), ..self }
        } else {
            BusState { interrupt_enable: value, ..self }
        }
    }

    /// The little-endian word at an address; the high byte comes from the
    /// next address, wrapping at the end of the address space.
    pub open spec fn read_word(self, address: u16) -> u16 {
        word_of(self.read(address), self.read(address_after(address, 1)))
    }

    /// The address space after a little-endian word is written, low byte
    /// first.
    pub open spec fn write_word(self, address: u16, value: u16) -> BusState {
        self.write(address, low_byte(value)).write(address_after(address, 1), high_byte(value))
    }

    /// Whether a byte written at `address` is the byte read back from it:
    /// true of the machine's memories and registers, and of the cartridge
    /// RAM where the cartridge stores.
    pub open spec fn stores(self, address: u16) -> bool {
        if cartridge_mapped(address) {
            match self.cartridge {
                Some(c) => c.stores(address),
                None => false,
            }
        } else {
            !(0xFEA0 <= address <= 0xFEFF)
        }
    }

    /// The state after power-on or reset: no cartridge, every byte zero.
    pub open spec fn blank() -> BusState {
        BusState {
            cartridge: None,
            vram: Seq::new(0x2000, |i: int| 0u8),
            wram: Seq::new(0x2000, |i: int| 0u8),
            oam: Seq::new(0xA0, |i: int| 0u8),
            io: Seq::new(0x80, |i: int| 0u8),
            hram: Seq::new(0x7F, |i: int| 0u8),
            interrupt_enable: 0,
        }
    }
}

/// The memory bus: it decodes each 16-bit address to the cartridge, video
/// RAM, work RAM and its echo, object attribute memory, the I/O registers,
/// high RAM or the interrupt enable register.
pub struct MemoryBus {
    cartridge: Option<CartridgeVariant>,
    vram: Vec<u8>,
    wram: Vec<u8>,
    oam: Vec<u8>,
    io_registers: IOResgisters,
    hram: Vec<u8>,
    interrupt_enable: u8,
}

impl View for MemoryBus {
    type V = BusState;

    closed spec fn view(&self) -> BusState {
        BusState {
            cartridge: match self.cartridge {
                Some(c) => Some(c.state()),
                None => None,
            },
            vram: self.vram@,
            wram: self.wram@,
            oam: self.oam@,
            io: self.io_registers@,
            hram: self.hram@,
            interrupt_enable: self.interrupt_enable,
        }
    }
}

impl MemoryBus {
    /// The invariant of the bus: its model is well formed, and so is the
    /// cartridge that it holds.
    pub closed spec fn wf(&self) -> bool {
        &&& self@.wf()
        &&& match self.cartridge {
            Some(c) => c.wf(),
            None => true,
        }
    }

    /// A bus without a cartridge, with every byte at zero.
    pub fn new() -> (bus: MemoryBus)
        ensures
            bus.wf(),
            bus@ == BusState::blank(),
    {
        MemoryBus {
            cartridge: None,
            vram: zeroed(0x2000),
            wram: zeroed(0x2000),
            oam: zeroed(0xA0),
            io_registers: IOResgisters::new(),
            hram: zeroed(0x7F),
            interrupt_enable: 0,
        }
    }

    /// Puts a cartridge on the bus in place of the one that was there.
    pub fn load_cartridge(&mut self, cartridge: CartridgeVariant)
        requires
            old(self).wf(),
            cartridge.wf(),
        ensures
            final(self).wf(),
            final(self)@ == (BusState { cartridge: Some(cartridge.state()), ..old(self)@ }),
    {
        proof {
            cartridge.state_is_wf();
        }
        self.cartridge = Some(cartridge);
    }

    /// Removes the cartridge and zeroes every memory and register.
    pub fn reset(&mut self)
        ensures
            final(self).wf(),
            final(self)@ == BusState::blank(),
    {
        self.cartridge = None;
        self.vram = zeroed(0x2000);
        self.wram = zeroed(0x2000);
        self.oam = zeroed(0xA0);
        self.io_registers = IOResgisters::new();
        self.hram = zeroed(0x7F);
        self.interrupt_enable = 0;
    }

    /// Reads the byte at an address.
    pub fn read_byte(&self, address: u16) -> (byte: u8)
        requires
            self.wf(),
        ensures
            byte == self@.read(address),
    {
        if address <= 0x7FFF || (0xA000 <= address && address <= 0xBFFF) {
            match &self.cartridge {
                Some(c) => match c.read_byte(address) {
                    Ok(byte) => byte,
                    Err(_) => OPENBUS,
                },
                None => OPENBUS,
            }
        } else if address <= 0x9FFF {
            self.vram[(address - VRAM_START) as usize]
        } else if address <= 0xDFFF {
            self.wram[(address - WRAM_START) as usize]
        } else if address <= 0xFDFF {
            self.wram[(address - ECHO_START) as usize]
        } else if address <= 0xFE9F {
            self.oam[(address - OAM_START) as usize]
        } else if address <= 0xFEFF {
            OPENBUS
        } else if address <= 0xFF7F {
            match self.io_registers.read_byte(address) {
                Ok(byte) => byte,
                Err(_) => OPENBUS,
            }
        } else if address <= 0xFFFE {
            self.hram[(address - HRAM_START) as usize]
        } else {
            self.interrupt_enable
        }
    }

    /// Writes a byte at an address.
    pub fn write_byte(&mut self, address: u16, value: u8)
        requires
            old(self).wf(),
        ensures
            final(self).wf(),
            final(self)@ == old(self)@.write(address, value),
    {
        if address <= 0x7FFF || (0xA000 <= address && address <= 0xBFFF) {
            match &mut self.cartridge {
                Some(c) => {
                    let _ = c.write_byte(address, value);
                    proof {
                        c.state_is_wf();
                    }
                },
                None => {},
            }
        } else if address <= 0x9FFF {
            self.vram[(address - VRAM_START) as usize] = value;
        } else if address <= 0xDFFF {
            self.wram[(address - WRAM_START) as usize] = value;
        } else if address <= 0xFDFF {
            self.wram[(address - ECHO_START) as usize] = value;
        } else if address <= 0xFE9F {
            self.oam[(address - OAM_START) as usize] = value;
        } else if address <= 0xFEFF {
        } else if address <= 0xFF7F {
            let _ = self.io_registers.write_byte(address, value);
        } else if address <= 0xFFFE {
            self.hram[(address - HRAM_START) as usize] = value;
        } else {
            self.interrupt_enable = value;
        }
    }

    /// Reads the little-endian word at an address.
    pub fn read_word(&self, address: u16) -> (word: u16)
        requires
            self.wf(),
        ensures
            word == self@.read_word(address),
    {
        let low: u8 = self.read_byte(address);
        let high: u8 = self.read_byte(step_address(address, 1));
        make_word(low, high)
    }

    /// Writes a little-endian word at an address, low byte first.
    pub fn write_word(&mut self, address: u16, value: u16)
        requires
            old(self).wf(),
        ensures
            final(self).wf(),
            final(self)@ == old(self)@.write_word(address, value),
    {
        let (low, high) = split_word(value);
        self.write_byte(address, low);
        self.write_byte(step_address(address, 1), high);
    }
}

} // verus!

verus! {

/// Every write, of a byte or of a word, keeps the bus well formed.
pub proof fn law_write_keeps_wf(bus: BusState, address: u16, byte: u8, word: u16)
    requires
        bus.wf(),
    ensures
        bus.write(address, byte).wf(),
        bus.write_word(address, word).wf(),
{
    lemma_write_keeps_wf(bus, address, byte);
    lemma_write_keeps_wf(bus, address, low_byte(word));
    lemma_write_keeps_wf(bus.write(address, low_byte(word)), address_after(address, 1), high_byte(word));
}

/// One byte written keeps the bus well formed.
pub(crate) proof fn lemma_write_keeps_wf(bus: BusState, address: u16, value: u8)
    requires
        bus.wf(),
    ensures
        bus.write(address, value).wf(),
{
    if cartridge_mapped(address) {
        match bus.cartridge {
            Some(CartridgeState::MBC1(c)) => {
                crate::cartridge::interface::law_mbc1_write_keeps_wf(c, address, value);
            },
            _ => {},
        }
    }
}

/// A byte written where the bus stores is the byte read back.
pub proof fn law_byte_write_then_read(bus: BusState, address: u16, value: u8)
    requires
        bus.wf(),
        bus.stores(address),
    ensures
        bus.write(address, value).read(address) == value,
        bus.write(address, value).wf(),
{
    let after = bus.write(address, value);
    if cartridge_mapped(address) {
        match bus.cartridge {
            Some(CartridgeState::MBC1(c)) => {
                crate::cartridge::interface::law_mbc1_write_keeps_wf(c, address, value);
            },
            _ => {},
        }
    }
}

/// A word written at an address is the word read back from it, low byte at
/// the address and high byte at the next one, wherever the bus stores both
/// bytes.
pub proof fn law_word_write_then_read(bus: BusState, address: u16, value: u16)
    requires
        bus.wf(),
        bus.stores(address),
        bus.stores(address_after(address, 1)),
    ensures
        bus.write_word(address, value).read_word(address) == value,
{
    reveal(word_of);
    reveal(low_byte);
    reveal(high_byte);
    reveal(address_after);
    let next = address_after(address, 1);
    let first = bus.write(address, low_byte(value));
    law_byte_write_then_read(bus, address, low_byte(value));
    assert(first.stores(next));
    law_byte_write_then_read(first, next, high_byte(value));
    let second = first.write(next, high_byte(value));
    assert(second.read(address) == low_byte(value));
}

} // verus!
