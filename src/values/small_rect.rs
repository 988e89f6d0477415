//! Rectangles of cells.

use vstd::prelude::*;
use core::ops::Range;
use crate::values::coord::Coord;

verus! {

/// A rectangle of cells, as the platform stores it: the four sides.
#[derive(Clone, Copy, Debug, Default, PartialEq, Eq, Structural)]
pub struct SmallRect {
    /// The left side; generally `left <= right`.
    pub left: i16,
    /// The top side; generally `top <= bottom`.
    pub top: i16,
    /// The right side; generally `left <= right`.
    pub right: i16,
    /// The bottom side; generally `top <= bottom`.
    pub bottom: i16,
}

/// The extent from `low` to `high`, or `None` where it is negative.
pub open spec fn extent(low: i16, high: i16) -> Option<u16> {
    if low > high {
        None
    } else {
        Some((high - low) as u16)
    }
}

impl SmallRect {
    /// The rectangle with these sides.
    pub fn new(left: i16, top: i16, right: i16, bottom: i16) -> (r: Self)
        ensures
            r == (SmallRect { left, top, right, bottom }),
    {
        SmallRect { left, top, right, bottom }
    }

    /// The width, `right - left`, or `None` where it is negative.
    pub fn width(&self) -> (r: Option<u16>)
        ensures
            r == extent(self.left, self.right),
    {
        if self.left > self.right {
            return None;
        }
        Some((self.right as i32 - self.left as i32) as u16)
    }

    /// The height, `bottom - top`, or `None` where it is negative.
    pub fn height(&self) -> (r: Option<u16>)
        ensures
            r == extent(self.top, self.bottom),
    {
        if self.top > self.bottom {
            return None;
        }
        Some((self.bottom as i32 - self.top as i32) as u16)
    }

    /// The width and height, or `None` where either is negative.
    pub fn size(&self) -> (r: Option<(u16, u16)>)
        ensures
            r == match (extent(self.left, self.right), extent(self.top, self.bottom)) {
                (Some(w), Some(h)) => Some((w, h)),
                _ => None::<(u16, u16)>,
            },
    {
        let w = match self.width() {
            Some(w) => w,
            None => return None,
        };
        let h = match self.height() {
            Some(h) => h,
            None => return None,
        };
        Some((w, h))
    }

    /// The number of cells, width times height, or `None` where either is negative.
    pub fn area(&self) -> (r: Option<u32>)
        ensures
            r == match (extent(self.left, self.right), extent(self.top, self.bottom)) {
                (Some(w), Some(h)) => Some((w * h) as u32),
                _ => None::<u32>,
            },
    {
        match self.size() {
            Some((w, h)) => {
                assert(w * h <= 0xFFFF * 0xFFFF) by (nonlinear_arith)
                    requires
                        w <= 0xFFFF,
                        h <= 0xFFFF,
                ;
                Some((w as u32).wrapping_mul(h as u32))
            },
            None => None,
        }
    }
}

impl From<Range<Coord>> for SmallRect {
    fn from(value: Range<Coord>) -> Self {
        SmallRect::new(value.start.x, value.start.y, value.end.x, value.end.y)
    }
}

impl vstd::std_specs::convert::FromSpecImpl<Range<Coord>> for SmallRect {
    open spec fn obeys_from_spec() -> bool {
        true
    }

    open spec fn from_spec(v: Range<Coord>) -> Self {
        SmallRect { left: v.start.x, top: v.start.y, right: v.end.x, bottom: v.end.y }
    }
}

impl From<Range<(i16, i16)>> for SmallRect {
    fn from(value: Range<(i16, i16)>) -> Self {
        SmallRect::new(value.start.0, value.start.1, value.end.0, value.end.1)
    }
}

impl vstd::std_specs::convert::FromSpecImpl<Range<(i16, i16)>> for SmallRect {
    open spec fn obeys_from_spec() -> bool {
        true
    }

    open spec fn from_spec(v: Range<(i16, i16)>) -> Self {
        SmallRect { left: v.start.0, top: v.start.1, right: v.end.0, bottom: v.end.1 }
    }
}

impl From<(Range<i16>, Range<i16>)> for SmallRect {
    fn from(value: (Range<i16>, Range<i16>)) -> Self {
        SmallRect::new(value.0.start, value.1.start, value.0.end, value.1.end)
    }
}

impl vstd::std_specs::convert::FromSpecImpl<(Range<i16>, Range<i16>)> for SmallRect {
    open spec fn obeys_from_spec() -> bool {
        true
    }

    open spec fn from_spec(v: (Range<i16>, Range<i16>)) -> Self {
        SmallRect { left: v.0.start, top: v.1.start, right: v.0.end, bottom: v.1.end }
    }
}

impl From<[Range<i16>; 2]> for SmallRect {
    fn from(value: [Range<i16>; 2]) -> Self {
        let x = &value[0];
        let y = &value[1];
        SmallRect::new(x.start, y.start, x.end, y.end)
    }
}

impl vstd::std_specs::convert::FromSpecImpl<[Range<i16>; 2]> for SmallRect {
    open spec fn obeys_from_spec() -> bool {
        true
    }

    open spec fn from_spec(v: [Range<i16>; 2]) -> Self {
        SmallRect { left: v[0].start, top: v[1].start, right: v[0].end, bottom: v[1].end }
    }
}

} // verus!
