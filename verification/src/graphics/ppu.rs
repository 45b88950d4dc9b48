//! Video memory with its tile data and its two tile maps.
use vstd::prelude::*;
use crate::cartridge::zeroed;
use crate::graphics::tile::{pixel_of, Tile};
use crate::machine::Error;

verus! {

pub const VRAM_START: u16 = 0x8000;

pub const BACKGROUND_START: u16 = 0x9800;

pub const WINDOW_START: u16 = 0x9C00;

pub const VRAM_END: u16 = 0x9FFF;

/// The base of the tile data when bit 4 of the LCD control register is set.
pub const BASE_PONTER_1: u16 = 0x8000;

/// The base of the tile data when bit 4 of the LCD control register is
/// clear; tile indexes are then signed.
pub const BASE_PONTER_2: u16 = 0x9000;

/// The bytes of one tile.
pub const TILE_SIZE: usize = 16;

/// The number of tiles that video memory holds.
pub const TILE_COUNT: usize = 384;

/// The bytes of one tile map of 32 by 32 tiles.
pub const TILE_MAP_SIZE: usize = 32 * 32;

/// Video memory: the tile data at 0x8000..=0x97FF, the background tile map
/// at 0x9800..=0x9BFF and the window tile map from 0x9C00.
pub struct VRAM {
    pub tiles: Vec<u8>,
    pub background_tile_map: Vec<u8>,
    pub window_tile_map: Vec<u8>,
}

/// The region of video memory that an address belongs to.
pub enum Region {
    Tiles,
    Background,
    Window,
}

/// The region that an address belongs to, if it belongs to one; the last
/// address of video memory, 0x9FFF, belongs to none.
pub open spec fn region_of(address: u16) -> Option<Region> {
    if 0x8000 <= address < 0x9800 {
        Some(Region::Tiles)
    } else if 0x9800 <= address < 0x9C00 {
        Some(Region::Background)
    } else if 0x9C00 <= address < 0x9FFF {
        Some(Region::Window)
    } else {
        None
    }
}

/// Whether a tile starts at an address: the address lies in the tile data,
/// a multiple of sixteen bytes from its start.
pub open spec fn tile_starts_at(address: u16) -> bool {
    0x8000 <= address < 0x9800 && (address - 0x8000) % 16 == 0
}

/// The address of the tile with a given index. With bit 4 of the LCD
/// control register set, tiles are counted from 0x8000; otherwise the
/// index is signed and counts from 0x9000.
pub open spec fn tile_address(index: u8, bit4: bool) -> u16 {
    if bit4 {
        (0x8000 + 16 * index) as u16
    } else if index < 128 {
        (0x9000 + 16 * index) as u16
    } else {
        (0x9000 + 16 * (index - 256)) as u16
    }
}

impl VRAM {
    /// Each memory has its size.
    pub open spec fn wf(&self) -> bool {
        &&& self.tiles@.len() == TILE_COUNT * TILE_SIZE
        &&& self.background_tile_map@.len() == TILE_MAP_SIZE
        &&& self.window_tile_map@.len() == TILE_MAP_SIZE
    }

    /// The byte at an address of one of the three regions.
    pub open spec fn byte_at(&self, address: u16) -> u8 {
        match region_of(address) {
            Some(Region::Tiles) => self.tiles@[address - 0x8000],
            Some(Region::Background) => self.background_tile_map@[address - 0x9800],
            _ => self.window_tile_map@[address - 0x9C00],
        }
    }

    /// Video memory with every byte at zero.
    pub fn new() -> (vram: VRAM)
        ensures
            vram.wf(),
            vram.tiles@ == Seq::new((TILE_COUNT * TILE_SIZE) as nat, |i: int| 0u8),
            vram.background_tile_map@ == Seq::new(TILE_MAP_SIZE as nat, |i: int| 0u8),
            vram.window_tile_map@ == Seq::new(TILE_MAP_SIZE as nat, |i: int| 0u8),
    {
        VRAM {
            tiles: zeroed(TILE_COUNT * TILE_SIZE),
            background_tile_map: zeroed(TILE_MAP_SIZE),
            window_tile_map: zeroed(TILE_MAP_SIZE),
        }
    }

    /// The tile that starts at an address.
    pub fn read_tile(&self, address: u16) -> (tile: Result<Tile, Error>)
        requires
            self.wf(),
        ensures
            match tile {
                Ok(t) => tile_starts_at(address) && t@ == self.tiles@.subrange(
                    address - 0x8000,
                    address - 0x8000 + 16,
                ),
                Err(e) => !tile_starts_at(address) && e == Error::VRAMAddressError,
            },
    {
        if address < VRAM_START || address >= BACKGROUND_START {
            return Err(Error::VRAMAddressError);
        }
        if ((address - VRAM_START) as usize) % TILE_SIZE != 0 {
            return Err(Error::VRAMAddressError);
        }
        let start: usize = (address - VRAM_START) as usize;
        let tile_data: &[u8] = &self.tiles.as_slice()[start..start + TILE_SIZE];
        let tile = Tile::from_bytes(tile_data);
        assert(tile@ =~= self.tiles@.subrange(address - 0x8000, address - 0x8000 + 16));
        Ok(tile)
    }

    /// The colour indexes of the 64 pixels of the tile that starts at an
    /// address.
    pub fn read_tile_as_color_index(&self, address: u16) -> (pixels: Result<Vec<u8>, Error>)
        requires
            self.wf(),
        ensures
            match pixels {
                Ok(p) => tile_starts_at(address) && p@ == Seq::new(
                    64,
                    |i: int|
                        pixel_of(
                            self.tiles@.subrange(address - 0x8000, address - 0x8000 + 16),
                            i,
                        ),
                ),
                Err(e) => !tile_starts_at(address) && e == Error::VRAMAddressError,
            },
    {
        match self.read_tile(address) {
            Ok(tile) => Ok(tile.to_color_index()),
            Err(e) => Err(e),
        }
    }

    /// The tile index at an address of the background tile map.
    pub fn read_background_tile_index(&self, address: u16) -> (index: Result<u8, Error>)
        requires
            self.wf(),
        ensures
            index == if 0x9800 <= address < 0x9C00 {
                Ok::<u8, Error>(self.background_tile_map@[address - 0x9800])
            } else {
                Err::<u8, Error>(Error::VRAMAddressError)
            },
    {
        if address < BACKGROUND_START || address >= WINDOW_START {
            return Err(Error::VRAMAddressError);
        }
        let index: usize = (address - BACKGROUND_START) as usize;
        Ok(self.background_tile_map[index])
    }

    /// The tile index at an address of the window tile map.
    pub fn read_window_tile_index(&self, address: u16) -> (index: Result<u8, Error>)
        requires
            self.wf(),
        ensures
            index == if 0x9C00 <= address < 0x9FFF {
                Ok::<u8, Error>(self.window_tile_map@[address - 0x9C00])
            } else {
                Err::<u8, Error>(Error::VRAMAddressError)
            },
    {
        if address < WINDOW_START || address >= VRAM_END {
            return Err(Error::VRAMAddressError);
        }
        let index: usize = (address - WINDOW_START) as usize;
        Ok(self.window_tile_map[index])
    }

    /// The byte at an address of video memory.
    pub fn read_byte(&self, address: u16) -> (byte: Result<u8, Error>)
        requires
            self.wf(),
        ensures
            byte == if region_of(address) is Some {
                Ok::<u8, Error>(self.byte_at(address))
            } else {
                Err::<u8, Error>(Error::VRAMAddressError)
            },
    {
        if VRAM_START <= address && address < BACKGROUND_START {
            let index: usize = (address - VRAM_START) as usize;
            Ok(self.tiles[index])
        } else if BACKGROUND_START <= address && address < WINDOW_START {
            let index: usize = (address - BACKGROUND_START) as usize;
            Ok(self.background_tile_map[index])
        } else if WINDOW_START <= address && address < VRAM_END {
            let index: usize = (address - WINDOW_START) as usize;
            Ok(self.window_tile_map[index])
        } else {
            Err(Error::VRAMAddressError)
        }
    }

    /// Stores a byte at an address of video memory; an address outside the
    /// three regions is an error and changes nothing.
    pub fn write_byte(&mut self, address: u16, value: u8) -> (done: Result<(), Error>)
        requires
            old(self).wf(),
        ensures
            final(self).wf(),
            match region_of(address) {
                Some(Region::Tiles) => done is Ok && final(self).tiles@ == old(self).tiles@.update(
                    address - 0x8000,
                    value,
                ) && final(self).background_tile_map@ == old(self).background_tile_map@
                    && final(self).window_tile_map@ == old(self).window_tile_map@,
                Some(Region::Background) => done is Ok && final(self).background_tile_map@ == old(
                    self,
                ).background_tile_map@.update(address - 0x9800, value) && final(self).tiles@
                    == old(self).tiles@ && final(self).window_tile_map@ == old(
                    self,
                ).window_tile_map@,
                Some(Region::Window) => done is Ok && final(self).window_tile_map@ == old(
                    self,
                ).window_tile_map@.update(address - 0x9C00, value) && final(self).tiles@ == old(
                    self,
                ).tiles@ && final(self).background_tile_map@ == old(self).background_tile_map@,
                None => done == Err::<(), Error>(Error::VRAMAddressError) && final(self).tiles@
                    == old(self).tiles@ && final(self).background_tile_map@ == old(
                    self,
                ).background_tile_map@ && final(self).window_tile_map@ == old(
                    self,
                ).window_tile_map@,
            },
    {
        if VRAM_START <= address && address < BACKGROUND_START {
            let index: usize = (address - VRAM_START) as usize;
            self.tiles[index] = value;
        } else if BACKGROUND_START <= address && address < WINDOW_START {
            let index: usize = (address - BACKGROUND_START) as usize;
            self.background_tile_map[index] = value;
        } else if WINDOW_START <= address && address < VRAM_END {
            let index: usize = (address - WINDOW_START) as usize;
            self.window_tile_map[index] = value;
        } else {
            return Err(Error::VRAMAddressError);
        }
        Ok(())
    }

    /// The address of the tile with a given index, chosen by bit 4 of the
    /// LCD control register, which is `lcd[4]`.
    pub fn get_tile_address(index: u8, lcd: &[bool]) -> (address: u16)
        requires
            lcd.len() > 4,
        ensures
            address == tile_address(index, lcd[4]),
    {
        if lcd[4] {
            BASE_PONTER_1 + (index as u16 * 16)
        } else if index < 128 {
            BASE_PONTER_2 + (index as u16 * 16)
        } else {
            BASE_PONTER_2 - ((256 - index as u16) * 16)
        }
    }
}

} // verus!
