//! The fixed 16-colour palette.

use vstd::prelude::*;

verus! {

/// A colour index. Only 0 to 15 name a palette entry; every other value
/// resolves to black.
pub type Color = u8;

/// An opaque 24-bit colour.
#[derive(Clone, Copy, Debug, PartialEq, Eq)]
pub struct Rgb {
    pub r: u8,
    pub g: u8,
    pub b: u8,
}

/// Number of entries in the palette.
pub const PALETTE_SIZE: u8 = 16;

/// The colour of index 0, and of every index that names no entry.
pub open spec fn black() -> Rgb {
    Rgb { r: 0, g: 0, b: 0 }
}

/// The palette as a table, entry `i` being the colour of index `i`.
pub open spec fn palette_table() -> Seq<Rgb> {
    seq![
        Rgb { r: 0, g: 0, b: 0 },
        Rgb { r: 29, g: 43, b: 83 },
        Rgb { r: 126, g: 37, b: 83 },
        Rgb { r: 0, g: 135, b: 81 },
        Rgb { r: 117, g: 82, b: 54 },
        Rgb { r: 95, g: 87, b: 79 },
        Rgb { r: 194, g: 195, b: 199 },
        Rgb { r: 255, g: 241, b: 232 },
        Rgb { r: 255, g: 0, b: 77 },
        Rgb { r: 255, g: 163, b: 0 },
        Rgb { r: 255, g: 236, b: 39 },
        Rgb { r: 0, g: 228, b: 54 },
        Rgb { r: 41, g: 173, b: 255 },
        Rgb { r: 131, g: 118, b: 156 },
        Rgb { r: 255, g: 119, b: 168 },
        Rgb { r: 255, g: 204, b: 170 },
    ]
}

/// The colour an index resolves to: its table entry, or black when the index
/// is outside the table.
pub open spec fn palette_rgb(col: int) -> Rgb {
    if 0 <= col < palette_table().len() {
        palette_table()[col]
    } else {
        black()
    }
}

/// Resolves a colour index to its RGB triple.
pub fn palette(col: Color) -> (rgb: Rgb)
    ensures
        rgb == palette_rgb(col as int),
        col >= PALETTE_SIZE ==> rgb == black(),
{
    match col {
        0 => Rgb { r: 0, g: 0, b: 0 },
        1 => Rgb { r: 29, g: 43, b: 83 },
        2 => Rgb { r: 126, g: 37, b: 83 },
        3 => Rgb { r: 0, g: 135, b: 81 },
        4 => Rgb { r: 117, g: 82, b: 54 },
        5 => Rgb { r: 95, g: 87, b: 79 },
        6 => Rgb { r: 194, g: 195, b: 199 },
        7 => Rgb { r: 255, g: 241, b: 232 },
        8 => Rgb { r: 255, g: 0, b: 77 },
        9 => Rgb { r: 255, g: 163, b: 0 },
        10 => Rgb { r: 255, g: 236, b: 39 },
        11 => Rgb { r: 0, g: 228, b: 54 },
        12 => Rgb { r: 41, g: 173, b: 255 },
        13 => Rgb { r: 131, g: 118, b: 156 },
        14 => Rgb { r: 255, g: 119, b: 168 },
        15 => Rgb { r: 255, g: 204, b: 170 },
        _ => Rgb { r: 0, g: 0, b: 0 },
    }
}

} // verus!
