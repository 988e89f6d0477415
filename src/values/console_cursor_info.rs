//! The cursor of a screen buffer.

use vstd::prelude::*;

verus! {

/// Cursor visibility and the share of the cell it fills.
#[derive(Clone, Copy, Debug, Default, PartialEq, Eq, Structural)]
pub struct ConsoleCursorInfo {
    /// The percentage of the cell (`1 ..= 100`) filled by the cursor, from the bottom.
    pub size: u32,
    /// Whether the cursor is shown at all.
    pub visible: bool,
}

impl ConsoleCursorInfo {
    /// The cursor filling `size` percent of the cell, shown where `visible`.
    pub fn new(size: u32, visible: bool) -> (r: Self)
        ensures
            r == (ConsoleCursorInfo { size, visible }),
    {
        ConsoleCursorInfo { size, visible }
    }

    /// The same cursor with its size brought into `1 ..= 100`, the range the
    /// platform accepts.
    pub fn clamped(self) -> (r: Self)
        ensures
            r.visible == self.visible,
            r.size == if self.size < 1 {
                1
            } else if self.size > 100 {
                100
            } else {
                self.size
            },
    {
        let mut info = self;
        if info.size < 1 {
            info.size = 1;
        }
        if info.size > 100 {
            info.size = 100;
        }
        info
    }
}

} // verus!
