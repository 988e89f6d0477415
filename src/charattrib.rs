//! Character attributes: colors and grid lines of a cell.

use vstd::prelude::*;
use core::ops::{BitAnd, BitAndAssign, BitOr, BitOrAssign, BitXor, BitXorAssign, Not};

verus! {
/// Text color contains blue.
pub const FOREGROUND_BLUE: u16 = 0x0001;
/// Text color contains green.
pub const FOREGROUND_GREEN: u16 = 0x0002;
/// Text color contains red.
pub const FOREGROUND_RED: u16 = 0x0004;
/// Text color is intensified.
pub const FOREGROUND_INTENSITY: u16 = 0x0008;
/// Background color contains blue.
pub const BACKGROUND_BLUE: u16 = 0x0010;
/// Background color contains green.
pub const BACKGROUND_GREEN: u16 = 0x0020;
/// Background color contains red.
pub const BACKGROUND_RED: u16 = 0x0040;
/// Background color is intensified.
pub const BACKGROUND_INTENSITY: u16 = 0x0080;
/// Leading byte.
pub const COMMON_LVB_LEADING_BYTE: u16 = 0x0100;
/// Trailing byte.
pub const COMMON_LVB_TRAILING_BYTE: u16 = 0x0200;
/// Top horizontal.
pub const COMMON_LVB_GRID_HORIZONTAL: u16 = 0x0400;
/// Left vertical.
pub const COMMON_LVB_GRID_LVERTICAL: u16 = 0x0800;
/// Right vertical.
pub const COMMON_LVB_GRID_RVERTICAL: u16 = 0x1000;
/// Reverse foreground and background attributes.
pub const COMMON_LVB_REVERSE_VIDEO: u16 = 0x4000;
/// Underscore.
pub const COMMON_LVB_UNDERSCORE: u16 = 0x8000;
/// The attributes of a cell: color and DBCS flags, combined with the bit operators.
#[derive(Clone, Copy, Debug, Default, PartialEq, Eq, PartialOrd, Ord, Hash, Structural)]
pub struct Attributes(u16);

impl View for Attributes {
    type V = u16;

    closed spec fn view(&self) -> u16 {
        self.0
    }
}

impl From<u16> for Attributes {
    fn from(value: u16) -> Self {
        Attributes(value)
    }
}

impl vstd::std_specs::convert::FromSpecImpl<u16> for Attributes {
    open spec fn obeys_from_spec() -> bool {
        true
    }

    closed spec fn from_spec(v: u16) -> Self {
        Attributes(v)
    }
}

impl From<Attributes> for u16 {
    fn from(value: Attributes) -> Self {
        value.0
    }
}

impl vstd::std_specs::convert::FromSpecImpl<Attributes> for u16 {
    open spec fn obeys_from_spec() -> bool {
        true
    }

    closed spec fn from_spec(v: Attributes) -> Self {
        v.0
    }
}

impl BitAnd for Attributes {
    type Output = Self;

    fn bitand(self, rhs: Self) -> Self::Output {
        Attributes(self.0 & rhs.0)
    }
}

impl vstd::std_specs::ops::BitAndSpecImpl for Attributes {
    open spec fn obeys_bitand_spec() -> bool {
        true
    }

    open spec fn bitand_req(self, rhs: Self) -> bool {
        true
    }

    closed spec fn bitand_spec(self, rhs: Self) -> Self::Output {
        Attributes(self.0 & rhs.0)
    }
}

impl BitXor for Attributes {
    type Output = Self;

    fn bitxor(self, rhs: Self) -> Self::Output {
        Attributes(self.0 ^ rhs.0)
    }
}

impl vstd::std_specs::ops::BitXorSpecImpl for Attributes {
    open spec fn obeys_bitxor_spec() -> bool {
        true
    }

    open spec fn bitxor_req(self, rhs: Self) -> bool {
        true
    }

    closed spec fn bitxor_spec(self, rhs: Self) -> Self::Output {
        Attributes(self.0 ^ rhs.0)
    }
}

impl BitOr for Attributes {
    type Output = Self;

    fn bitor(self, rhs: Self) -> Self::Output {
        Attributes(self.0 | rhs.0)
    }
}

impl vstd::std_specs::ops::BitOrSpecImpl for Attributes {
    open spec fn obeys_bitor_spec() -> bool {
        true
    }

    open spec fn bitor_req(self, rhs: Self) -> bool {
        true
    }

    closed spec fn bitor_spec(self, rhs: Self) -> Self::Output {
        Attributes(self.0 | rhs.0)
    }
}

impl Not for Attributes {
    type Output = Self;

    fn not(self) -> Self::Output {
        Attributes(!self.0)
    }
}

impl vstd::std_specs::ops::NotSpecImpl for Attributes {
    open spec fn obeys_not_spec() -> bool {
        true
    }

    open spec fn not_req(self) -> bool {
        true
    }

    closed spec fn not_spec(self) -> Self::Output {
        Attributes(!self.0)
    }
}

impl BitAndAssign for Attributes {
    fn bitand_assign(&mut self, rhs: Self) {
        self.0 = self.0 & rhs.0;
    }
}

impl BitXorAssign for Attributes {
    fn bitxor_assign(&mut self, rhs: Self) {
        self.0 = self.0 ^ rhs.0;
    }
}

impl BitOrAssign for Attributes {
    fn bitor_assign(&mut self, rhs: Self) {
        self.0 = self.0 | rhs.0;
    }
}

/// Flags converted to their bits and back are unchanged, and so are bits
/// converted to flags and back; the operators act on the bits.
pub proof fn lemma_attributes_bits(bits: u16, a: Attributes, b: Attributes)
    ensures
        <Attributes as vstd::std_specs::convert::FromSpec<u16>>::from_spec(bits)@ == bits,
        <u16 as vstd::std_specs::convert::FromSpec<Attributes>>::from_spec(a) == a@,
        <Attributes as vstd::std_specs::convert::FromSpec<u16>>::from_spec(
            <u16 as vstd::std_specs::convert::FromSpec<Attributes>>::from_spec(a),
        ) == a,
        vstd::std_specs::ops::BitAndSpec::bitand_spec(a, b)@ == a@ & b@,
        vstd::std_specs::ops::BitOrSpec::bitor_spec(a, b)@ == a@ | b@,
        vstd::std_specs::ops::BitXorSpec::bitxor_spec(a, b)@ == a@ ^ b@,
        vstd::std_specs::ops::NotSpec::not_spec(a)@ == !a@,
{
}

} // verus!
