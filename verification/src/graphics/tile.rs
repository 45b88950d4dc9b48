//! Tiles of 8 by 8 pixels and their colour indexes.
use vstd::prelude::*;

verus! {

/// The colour index of pixel `i` of a tile, counted row by row from the
/// top left. Each row is two bytes; a pixel takes its low bit from the
/// first byte and its high bit from the second, leftmost pixel in bit 7.
pub open spec fn pixel_of(data: Seq<u8>, i: int) -> u8 {
    let row = i / 8;
    let column = (7 - i % 8) as u8;
    (((data[row * 2 + 1] >> column) & 1) << 1) | ((data[row * 2] >> column) & 1)
}

/// Four colour indexes in one byte, the first in the highest two bits.
pub open spec fn packed_pixels(first: u8, second: u8, third: u8, fourth: u8) -> u8 {
    (first << 6) | (second << 4) | (third << 2) | fourth
}

/// A tile of 8 by 8 pixels with two bits for each pixel: sixteen bytes, two
/// for each row.
pub struct Tile {
    data: [u8; 16],
}

impl View for Tile {
    type V = Seq<u8>;

    closed spec fn view(&self) -> Seq<u8> {
        self.data@
    }
}

impl Tile {
    /// A tile from up to sixteen bytes; the bytes that are missing are zero.
    pub fn from_bytes(bytes: &[u8]) -> (tile: Tile)
        requires
            bytes.len() <= 16,
        ensures
            tile@.len() == 16,
            forall|i: int| 0 <= i < 16 ==> tile@[i] == if i < bytes.len() { bytes[i] } else { 0 },
    {
        let mut data: [u8; 16] = [0u8; 16];
        let mut i: usize = 0;
        while i < bytes.len()
            invariant
                i <= bytes.len() <= 16,
                forall|j: int| 0 <= j < 16 ==> data[j] == if j < i { bytes[j] } else { 0 },
            decreases bytes.len() - i,
        {
            data[i] = bytes[i];
            i = i + 1;
        }
        Tile { data }
    }

    /// The colour indexes of the 64 pixels, row by row.
    pub fn to_color_index(&self) -> (pixels: Vec<u8>)
        ensures
            pixels@ == Seq::new(64, |i: int| pixel_of(self@, i)),
    {
        let mut pixel_ids: Vec<u8> = Vec::with_capacity(64);
        let mut row: usize = 0;
        while row < 8
            invariant
                row <= 8,
                pixel_ids@ == Seq::new((row * 8) as nat, |i: int| pixel_of(self@, i)),
            decreases 8 - row,
        {
            let byte1: u8 = self.data[row * 2];
            let byte2: u8 = self.data[row * 2 + 1];
            let mut k: usize = 0;
            while k < 8
                invariant
                    k <= 8,
                    row < 8,
                    byte1 == self@[row * 2],
                    byte2 == self@[row * 2 + 1],
                    pixel_ids@ == Seq::new((row * 8 + k) as nat, |i: int| pixel_of(self@, i)),
                decreases 8 - k,
            {
                let col: u8 = (7 - k) as u8;
                let lsb: u8 = (byte1 >> col) & 1;
                let msb: u8 = (byte2 >> col) & 1;
                let color_id: u8 = (msb << 1) | lsb;
                pixel_ids.push(color_id);
                k = k + 1;
                assert(pixel_ids@ =~= Seq::new((row * 8 + k) as nat, |i: int| pixel_of(self@, i)));
            }
            row = row + 1;
        }
        pixel_ids
    }

    /// The colour indexes packed four to a byte: sixteen bytes.
    pub fn to_color_index_bytes(&self) -> (bytes: Vec<u8>)
        ensures
            bytes@ == Seq::new(
                16,
                |i: int|
                    packed_pixels(
                        pixel_of(self@, 4 * i),
                        pixel_of(self@, 4 * i + 1),
                        pixel_of(self@, 4 * i + 2),
                        pixel_of(self@, 4 * i + 3),
                    ),
            ),
    {
        let pixel_data = self.to_color_index();
        let mut pixel_bytes: Vec<u8> = Vec::with_capacity(16);
        let mut i: usize = 0;
        while i < 16
            invariant
                i <= 16,
                pixel_data@ == Seq::new(64, |j: int| pixel_of(self@, j)),
                pixel_bytes@ == Seq::new(
                    i as nat,
                    |j: int|
                        packed_pixels(
                            pixel_of(self@, 4 * j),
                            pixel_of(self@, 4 * j + 1),
                            pixel_of(self@, 4 * j + 2),
                            pixel_of(self@, 4 * j + 3),
                        ),
                ),
            decreases 16 - i,
        {
            let byte_data: u8 = (pixel_data[4 * i] << 6) | (pixel_data[4 * i + 1] << 4) | (
            pixel_data[4 * i + 2] << 2) | pixel_data[4 * i + 3];
            pixel_bytes.push(byte_data);
            i = i + 1;
            assert(pixel_bytes@ =~= Seq::new(
                i as nat,
                |j: int|
                    packed_pixels(
                        pixel_of(self@, 4 * j),
                        pixel_of(self@, 4 * j + 1),
                        pixel_of(self@, 4 * j + 2),
                        pixel_of(self@, 4 * j + 3),
                    ),
            ));
        }
        pixel_bytes
    }
}

} // verus!
