//! The state of a screen buffer.

use vstd::prelude::*;
use crate::charattrib::Attributes;
use crate::values::color_ref::ColorRef;
use crate::values::coord::Coord;
use crate::values::small_rect::SmallRect;

verus! {

/// Size, cursor, attributes and window of a screen buffer.
#[derive(Clone, Copy, Debug, Default, PartialEq, Eq, Structural)]
pub struct ConsoleScreenBufferInfo {
    pub size: Coord,
    pub cursor_position: Coord,
    pub attributes: Attributes,
    pub window: SmallRect,
    pub maximum_window_size: Coord,
}

/// The state of a screen buffer together with its popup attributes and palette.
#[derive(Clone, Copy, Debug, Default, PartialEq, Eq)]
pub struct ConsoleScreenBufferInfoEx {
    /// The size of the platform's structure, in bytes.
    pub self_size: u32,
    pub size: Coord,
    pub cursor_position: Coord,
    pub attributes: Attributes,
    pub window: SmallRect,
    pub maximum_window_size: Coord,
    pub popup_attributes: Attributes,
    pub fullscreen_supported: bool,
    pub color_table: [ColorRef; 16],
}

} // verus!
