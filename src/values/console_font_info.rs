//! Fonts of a screen buffer.

use vstd::prelude::*;
use crate::values::coord::Coord;

verus! {

/// The number of units of a font's face name, terminator included.
pub const LF_FACESIZE: usize = 32;

/// The font of a screen buffer: its index in the console's font table and
/// the size of a character cell.
#[derive(Clone, Copy, Debug, Default, PartialEq, Eq, Structural)]
pub struct ConsoleFontInfo {
    pub font: u32,
    pub font_size: Coord,
}

/// The font of a screen buffer, with its family, weight and face name.
#[derive(Clone, Copy, Debug, Default, PartialEq, Eq)]
pub struct ConsoleFontInfoEx {
    /// The size of the platform's structure, in bytes.
    pub self_size: u32,
    pub font: u32,
    pub font_size: Coord,
    pub font_family: u32,
    pub font_weight: u32,
    /// The face name, null terminated wide text.
    pub face_name: [u16; LF_FACESIZE],
}

} // verus!
