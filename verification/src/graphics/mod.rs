//! Passive video structures: tiles and video memory.
pub mod ppu;
pub mod tile;

pub use ppu::VRAM;
pub use tile::Tile;
