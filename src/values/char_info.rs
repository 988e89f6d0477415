//! The contents of one cell of a screen buffer.

use vstd::prelude::*;
use crate::charattrib::Attributes;
use crate::values::ascii_or_unicode_char::AsciiOrUnicodeChar;

verus! {

/// A cell: its character and its attributes.
#[derive(Clone, Copy, Debug, Default, PartialEq, Eq, Structural)]
pub struct CharInfo {
    pub char: AsciiOrUnicodeChar,
    pub attributes: Attributes,
}

impl CharInfo {
    /// The cell holding the code unit `char` with `attributes`.
    pub fn new(char: u16, attributes: Attributes) -> (r: Self)
        ensures
            r.char@ == char,
            r.attributes == attributes,
    {
        CharInfo { char: AsciiOrUnicodeChar::from_unicode_char(char), attributes }
    }
}

} // verus!
