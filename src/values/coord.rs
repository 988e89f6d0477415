//! Cell coordinates.

use vstd::prelude::*;

verus! {

/// A cell coordinate, or a size in cells: `x` columns, `y` rows.
#[derive(Clone, Copy, Debug, Default, PartialEq, Eq, Structural)]
pub struct Coord {
    pub x: i16,
    pub y: i16,
}

impl Coord {
    /// The coordinate `(x, y)`.
    pub fn new(x: i16, y: i16) -> (r: Self)
        ensures
            r == (Coord { x, y }),
    {
        Coord { x, y }
    }
}

impl From<(i16, i16)> for Coord {
    fn from(value: (i16, i16)) -> Self {
        Coord::new(value.0, value.1)
    }
}

impl vstd::std_specs::convert::FromSpecImpl<(i16, i16)> for Coord {
    open spec fn obeys_from_spec() -> bool {
        true
    }

    open spec fn from_spec(v: (i16, i16)) -> Self {
        Coord { x: v.0, y: v.1 }
    }
}

impl From<[i16; 2]> for Coord {
    fn from(value: [i16; 2]) -> Self {
        Coord::new(value[0], value[1])
    }
}

impl vstd::std_specs::convert::FromSpecImpl<[i16; 2]> for Coord {
    open spec fn obeys_from_spec() -> bool {
        true
    }

    open spec fn from_spec(v: [i16; 2]) -> Self {
        Coord { x: v[0], y: v[1] }
    }
}

} // verus!
