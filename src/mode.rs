//! Modes of console handles: input modes and output modes are distinct types.

use vstd::prelude::*;
use core::ops::{BitAnd, BitAndAssign, BitOr, BitOrAssign, BitXor, BitXorAssign, Not};

verus! {
/// Control keys are handled by the system.
pub const ENABLE_PROCESSED_INPUT: u32 = 0x0001;
/// Reads return when a carriage return is read.
pub const ENABLE_LINE_INPUT: u32 = 0x0002;
/// Characters read are written to the screen buffer.
pub const ENABLE_ECHO_INPUT: u32 = 0x0004;
/// Resizes of the screen buffer are reported as input.
pub const ENABLE_WINDOW_INPUT: u32 = 0x0008;
/// Mouse events are reported as input.
pub const ENABLE_MOUSE_INPUT: u32 = 0x0010;
/// Text entered is inserted rather than overwritten.
pub const ENABLE_INSERT_MODE: u32 = 0x0020;
/// The mouse selects and edits text.
pub const ENABLE_QUICK_EDIT_MODE: u32 = 0x0040;
/// Needed to change the insert or quick edit mode.
pub const ENABLE_EXTENDED_FLAGS: u32 = 0x0080;
/// User input is translated to virtual terminal sequences.
pub const ENABLE_VIRTUAL_TERMINAL_INPUT: u32 = 0x0200;
/// The mode of a console input handle.
#[derive(Clone, Copy, Debug, Default, PartialEq, Eq, PartialOrd, Ord, Hash, Structural)]
pub struct InputMode(u32);

impl View for InputMode {
    type V = u32;

    closed spec fn view(&self) -> u32 {
        self.0
    }
}

impl From<u32> for InputMode {
    fn from(value: u32) -> Self {
        InputMode(value)
    }
}

impl vstd::std_specs::convert::FromSpecImpl<u32> for InputMode {
    open spec fn obeys_from_spec() -> bool {
        true
    }

    closed spec fn from_spec(v: u32) -> Self {
        InputMode(v)
    }
}

impl From<InputMode> for u32 {
    fn from(value: InputMode) -> Self {
        value.0
    }
}

impl vstd::std_specs::convert::FromSpecImpl<InputMode> for u32 {
    open spec fn obeys_from_spec() -> bool {
        true
    }

    closed spec fn from_spec(v: InputMode) -> Self {
        v.0
    }
}

impl BitAnd for InputMode {
    type Output = Self;

    fn bitand(self, rhs: Self) -> Self::Output {
        InputMode(self.0 & rhs.0)
    }
}

impl vstd::std_specs::ops::BitAndSpecImpl for InputMode {
    open spec fn obeys_bitand_spec() -> bool {
        true
    }

    open spec fn bitand_req(self, rhs: Self) -> bool {
        true
    }

    closed spec fn bitand_spec(self, rhs: Self) -> Self::Output {
        InputMode(self.0 & rhs.0)
    }
}

impl BitXor for InputMode {
    type Output = Self;

    fn bitxor(self, rhs: Self) -> Self::Output {
        InputMode(self.0 ^ rhs.0)
    }
}

impl vstd::std_specs::ops::BitXorSpecImpl for InputMode {
    open spec fn obeys_bitxor_spec() -> bool {
        true
    }

    open spec fn bitxor_req(self, rhs: Self) -> bool {
        true
    }

    closed spec fn bitxor_spec(self, rhs: Self) -> Self::Output {
        InputMode(self.0 ^ rhs.0)
    }
}

impl BitOr for InputMode {
    type Output = Self;

    fn bitor(self, rhs: Self) -> Self::Output {
        InputMode(self.0 | rhs.0)
    }
}

impl vstd::std_specs::ops::BitOrSpecImpl for InputMode {
    open spec fn obeys_bitor_spec() -> bool {
        true
    }

    open spec fn bitor_req(self, rhs: Self) -> bool {
        true
    }

    closed spec fn bitor_spec(self, rhs: Self) -> Self::Output {
        InputMode(self.0 | rhs.0)
    }
}

impl Not for InputMode {
    type Output = Self;

    fn not(self) -> Self::Output {
        InputMode(!self.0)
    }
}

impl vstd::std_specs::ops::NotSpecImpl for InputMode {
    open spec fn obeys_not_spec() -> bool {
        true
    }

    open spec fn not_req(self) -> bool {
        true
    }

    closed spec fn not_spec(self) -> Self::Output {
        InputMode(!self.0)
    }
}

impl BitAndAssign for InputMode {
    fn bitand_assign(&mut self, rhs: Self) {
        self.0 = self.0 & rhs.0;
    }
}

impl BitXorAssign for InputMode {
    fn bitxor_assign(&mut self, rhs: Self) {
        self.0 = self.0 ^ rhs.0;
    }
}

impl BitOrAssign for InputMode {
    fn bitor_assign(&mut self, rhs: Self) {
        self.0 = self.0 | rhs.0;
    }
}

/// Flags converted to their bits and back are unchanged, and so are bits
/// converted to flags and back; the operators act on the bits.
pub proof fn lemma_inputmode_bits(bits: u32, a: InputMode, b: InputMode)
    ensures
        <InputMode as vstd::std_specs::convert::FromSpec<u32>>::from_spec(bits)@ == bits,
        <u32 as vstd::std_specs::convert::FromSpec<InputMode>>::from_spec(a) == a@,
        <InputMode as vstd::std_specs::convert::FromSpec<u32>>::from_spec(
            <u32 as vstd::std_specs::convert::FromSpec<InputMode>>::from_spec(a),
        ) == a,
        vstd::std_specs::ops::BitAndSpec::bitand_spec(a, b)@ == a@ & b@,
        vstd::std_specs::ops::BitOrSpec::bitor_spec(a, b)@ == a@ | b@,
        vstd::std_specs::ops::BitXorSpec::bitxor_spec(a, b)@ == a@ ^ b@,
        vstd::std_specs::ops::NotSpec::not_spec(a)@ == !a@,
{
}


/// Control sequences such as backspace and tab are processed.
pub const ENABLE_PROCESSED_OUTPUT: u32 = 0x0001;
/// The cursor wraps to the next row at the end of a row.
pub const ENABLE_WRAP_AT_EOL_OUTPUT: u32 = 0x0002;
/// Virtual terminal sequences are interpreted.
pub const ENABLE_VIRTUAL_TERMINAL_PROCESSING: u32 = 0x0004;
/// A line feed does not return the cursor to the first column.
pub const DISABLE_NEWLINE_AUTO_RETURN: u32 = 0x0008;
/// The grid attributes are honored in every code page.
pub const ENABLE_LVB_GRID_WORLDWIDE: u32 = 0x0010;
/// The mode of a console screen buffer.
#[derive(Clone, Copy, Debug, Default, PartialEq, Eq, PartialOrd, Ord, Hash, Structural)]
pub struct OutputMode(u32);

impl View for OutputMode {
    type V = u32;

    closed spec fn view(&self) -> u32 {
        self.0
    }
}

impl From<u32> for OutputMode {
    fn from(value: u32) -> Self {
        OutputMode(value)
    }
}

impl vstd::std_specs::convert::FromSpecImpl<u32> for OutputMode {
    open spec fn obeys_from_spec() -> bool {
        true
    }

    closed spec fn from_spec(v: u32) -> Self {
        OutputMode(v)
    }
}

impl From<OutputMode> for u32 {
    fn from(value: OutputMode) -> Self {
        value.0
    }
}

impl vstd::std_specs::convert::FromSpecImpl<OutputMode> for u32 {
    open spec fn obeys_from_spec() -> bool {
        true
    }

    closed spec fn from_spec(v: OutputMode) -> Self {
        v.0
    }
}

impl BitAnd for OutputMode {
    type Output = Self;

    fn bitand(self, rhs: Self) -> Self::Output {
        OutputMode(self.0 & rhs.0)
    }
}

impl vstd::std_specs::ops::BitAndSpecImpl for OutputMode {
    open spec fn obeys_bitand_spec() -> bool {
        true
    }

    open spec fn bitand_req(self, rhs: Self) -> bool {
        true
    }

    closed spec fn bitand_spec(self, rhs: Self) -> Self::Output {
        OutputMode(self.0 & rhs.0)
    }
}

impl BitXor for OutputMode {
    type Output = Self;

    fn bitxor(self, rhs: Self) -> Self::Output {
        OutputMode(self.0 ^ rhs.0)
    }
}

impl vstd::std_specs::ops::BitXorSpecImpl for OutputMode {
    open spec fn obeys_bitxor_spec() -> bool {
        true
    }

    open spec fn bitxor_req(self, rhs: Self) -> bool {
        true
    }

    closed spec fn bitxor_spec(self, rhs: Self) -> Self::Output {
        OutputMode(self.0 ^ rhs.0)
    }
}

impl BitOr for OutputMode {
    type Output = Self;

    fn bitor(self, rhs: Self) -> Self::Output {
        OutputMode(self.0 | rhs.0)
    }
}

impl vstd::std_specs::ops::BitOrSpecImpl for OutputMode {
    open spec fn obeys_bitor_spec() -> bool {
        true
    }

    open spec fn bitor_req(self, rhs: Self) -> bool {
        true
    }

    closed spec fn bitor_spec(self, rhs: Self) -> Self::Output {
        OutputMode(self.0 | rhs.0)
    }
}

impl Not for OutputMode {
    type Output = Self;

    fn not(self) -> Self::Output {
        OutputMode(!self.0)
    }
}

impl vstd::std_specs::ops::NotSpecImpl for OutputMode {
    open spec fn obeys_not_spec() -> bool {
        true
    }

    open spec fn not_req(self) -> bool {
        true
    }

    closed spec fn not_spec(self) -> Self::Output {
        OutputMode(!self.0)
    }
}

impl BitAndAssign for OutputMode {
    fn bitand_assign(&mut self, rhs: Self) {
        self.0 = self.0 & rhs.0;
    }
}

impl BitXorAssign for OutputMode {
    fn bitxor_assign(&mut self, rhs: Self) {
        self.0 = self.0 ^ rhs.0;
    }
}

impl BitOrAssign for OutputMode {
    fn bitor_assign(&mut self, rhs: Self) {
        self.0 = self.0 | rhs.0;
    }
}

/// Flags converted to their bits and back are unchanged, and so are bits
/// converted to flags and back; the operators act on the bits.
pub proof fn lemma_outputmode_bits(bits: u32, a: OutputMode, b: OutputMode)
    ensures
        <OutputMode as vstd::std_specs::convert::FromSpec<u32>>::from_spec(bits)@ == bits,
        <u32 as vstd::std_specs::convert::FromSpec<OutputMode>>::from_spec(a) == a@,
        <OutputMode as vstd::std_specs::convert::FromSpec<u32>>::from_spec(
            <u32 as vstd::std_specs::convert::FromSpec<OutputMode>>::from_spec(a),
        ) == a,
        vstd::std_specs::ops::BitAndSpec::bitand_spec(a, b)@ == a@ & b@,
        vstd::std_specs::ops::BitOrSpec::bitor_spec(a, b)@ == a@ | b@,
        vstd::std_specs::ops::BitXorSpec::bitxor_spec(a, b)@ == a@ ^ b@,
        vstd::std_specs::ops::NotSpec::not_spec(a)@ == !a@,
{
}

} // verus!
