use gb_core::graphics::{Tile, VRAM};
use gb_core::io_registers::IOResgisters;
use gb_core::machine::Error;

const SAMPLE: [u8; 16] = [
    0x3c, 0x7e, 0x42, 0x42, 0x42, 0x42, 0x42, 0x42, 0x7e, 0x5e, 0x7e, 0x0a, 0x7c, 0x56, 0x38, 0x7c,
];

#[test]
fn test_tile_to_pixels() {
    let tile_data = Tile::from_bytes(SAMPLE.as_ref());

    let pixels = tile_data.to_color_index();
    assert_eq!(pixels.len(), 64);

    let pixel_bytes = tile_data.to_color_index_bytes();
    assert_eq!(pixel_bytes.len(), 16);
}

#[test]
fn tile_rows_decode_bit_by_bit() {
    let tile = Tile::from_bytes(SAMPLE.as_ref());
    let pixels = tile.to_color_index();
    // 0x3C and 0x7E: the row 00 10 11 11 11 11 10 00.
    assert_eq!(&pixels[0..8], &[0, 2, 3, 3, 3, 3, 2, 0]);
    // 0x42 and 0x42: both bits set in columns 1 and 6.
    assert_eq!(&pixels[8..16], &[0, 3, 0, 0, 0, 0, 3, 0]);
    // 0x7E and 0x5E.
    assert_eq!(&pixels[32..40], &[0, 3, 1, 3, 3, 3, 3, 0]);
    // 0x38 and 0x7C.
    assert_eq!(&pixels[56..64], &[0, 2, 3, 3, 3, 2, 0, 0]);
}

#[test]
fn tile_pixels_pack_four_to_a_byte() {
    let tile = Tile::from_bytes(SAMPLE.as_ref());
    let bytes = tile.to_color_index_bytes();
    assert_eq!(bytes[0], 0b00_10_11_11);
    assert_eq!(bytes[1], 0b11_11_10_00);
    assert_eq!(bytes[2], 0b00_11_00_00);
    assert_eq!(bytes[3], 0b00_00_11_00);
}

#[test]
fn short_tiles_are_padded_with_zero() {
    let tile = Tile::from_bytes(&[0xFF, 0xFF]);
    let pixels = tile.to_color_index();
    assert_eq!(&pixels[0..8], &[3; 8]);
    assert_eq!(&pixels[8..64], &[0; 56]);
    let empty = Tile::from_bytes(&[]);
    assert_eq!(empty.to_color_index(), vec![0u8; 64]);
}

#[test]
fn vram_regions() {
    let mut vram = VRAM::new();
    assert_eq!(vram.tiles.len(), 384 * 16);
    assert_eq!(vram.background_tile_map.len(), 1024);
    assert_eq!(vram.window_tile_map.len(), 1024);
    assert_eq!(vram.write_byte(0x8000, 0x11), Ok(()));
    assert_eq!(vram.write_byte(0x97FF, 0x22), Ok(()));
    assert_eq!(vram.write_byte(0x9800, 0x33), Ok(()));
    assert_eq!(vram.write_byte(0x9BFF, 0x44), Ok(()));
    assert_eq!(vram.write_byte(0x9C00, 0x55), Ok(()));
    assert_eq!(vram.write_byte(0x9FFE, 0x66), Ok(()));
    assert_eq!(vram.read_byte(0x8000), Ok(0x11));
    assert_eq!(vram.read_byte(0x97FF), Ok(0x22));
    assert_eq!(vram.read_byte(0x9800), Ok(0x33));
    assert_eq!(vram.read_byte(0x9BFF), Ok(0x44));
    assert_eq!(vram.read_byte(0x9C00), Ok(0x55));
    assert_eq!(vram.read_byte(0x9FFE), Ok(0x66));
    assert_eq!(vram.tiles[0], 0x11);
    assert_eq!(vram.background_tile_map[0x3FF], 0x44);
    assert_eq!(vram.window_tile_map[0x3FE], 0x66);
    assert_eq!(vram.read_background_tile_index(0x9800), Ok(0x33));
    assert_eq!(vram.read_window_tile_index(0x9C00), Ok(0x55));
}

#[test]
fn vram_rejects_addresses_outside() {
    let mut vram = VRAM::new();
    for address in [0x0000u16, 0x7FFF, 0x9FFF, 0xA000, 0xFFFF] {
        assert_eq!(vram.read_byte(address), Err(Error::VRAMAddressError));
        assert_eq!(vram.write_byte(address, 1), Err(Error::VRAMAddressError));
    }
    assert_eq!(
        vram.read_background_tile_index(0x97FF),
        Err(Error::VRAMAddressError)
    );
    assert_eq!(
        vram.read_background_tile_index(0x9C00),
        Err(Error::VRAMAddressError)
    );
    assert_eq!(
        vram.read_window_tile_index(0x9BFF),
        Err(Error::VRAMAddressError)
    );
    assert_eq!(
        vram.read_window_tile_index(0x9FFF),
        Err(Error::VRAMAddressError)
    );
}

#[test]
fn vram_reads_tiles() {
    let mut vram = VRAM::new();
    for (i, byte) in SAMPLE.iter().enumerate() {
        vram.write_byte(0x8010 + i as u16, *byte).unwrap();
    }
    let tile = vram.read_tile(0x8010).unwrap();
    assert_eq!(&tile.to_color_index()[0..8], &[0, 2, 3, 3, 3, 3, 2, 0]);
    let pixels = vram.read_tile_as_color_index(0x8010).unwrap();
    assert_eq!(pixels, tile.to_color_index());
    assert_eq!(
        vram.read_tile_as_color_index(0x8000).unwrap(),
        vec![0u8; 64]
    );
    assert!(vram.read_tile(0x97F0).is_ok());
    assert!(matches!(vram.read_tile(0x8011), Err(Error::VRAMAddressError)));
    assert!(matches!(vram.read_tile(0x7FF0), Err(Error::VRAMAddressError)));
    assert!(matches!(vram.read_tile(0x9800), Err(Error::VRAMAddressError)));
    assert!(matches!(
        vram.read_tile_as_color_index(0x9800),
        Err(Error::VRAMAddressError)
    ));
}

#[test]
fn tile_addresses() {
    let mut lcd = [false; 8];
    lcd[4] = true;
    assert_eq!(VRAM::get_tile_address(0, &lcd), 0x8000);
    assert_eq!(VRAM::get_tile_address(1, &lcd), 0x8010);
    assert_eq!(VRAM::get_tile_address(255, &lcd), 0x8FF0);
    lcd[4] = false;
    assert_eq!(VRAM::get_tile_address(0, &lcd), 0x9000);
    assert_eq!(VRAM::get_tile_address(127, &lcd), 0x97F0);
    assert_eq!(VRAM::get_tile_address(128, &lcd), 0x8800);
    assert_eq!(VRAM::get_tile_address(255, &lcd), 0x8FF0);
}

#[test]
fn io_registers_store_their_range() {
    let mut io = IOResgisters::new();
    assert_eq!(io.read_byte(0xFF00), Ok(0));
    assert_eq!(io.write_byte(0xFF00, 0x12), Ok(()));
    assert_eq!(io.write_byte(0xFF7F, 0x34), Ok(()));
    assert_eq!(io.read_byte(0xFF00), Ok(0x12));
    assert_eq!(io.read_byte(0xFF7F), Ok(0x34));
    assert_eq!(io.read_byte(0xFEFF), Err(Error::IORegisterAddressError));
    assert_eq!(io.read_byte(0xFF80), Err(Error::IORegisterAddressError));
    assert_eq!(io.write_byte(0xFF80, 1), Err(Error::IORegisterAddressError));
    assert_eq!(io.write_byte(0x0000, 1), Err(Error::IORegisterAddressError));
}

#[test]
fn io_registers_named_accessors() {
    let mut io = IOResgisters::new();
    assert!(io.boot_rom_enabled());
    io.write_byte(0xFF50, 1).unwrap();
    assert!(!io.boot_rom_enabled());
    assert_eq!(io.lcdc(), [false; 8]);
    io.write_byte(0xFF40, 0b1001_0001).unwrap();
    assert_eq!(
        io.lcdc(),
        [true, false, false, true, false, false, false, true]
    );
}
