//! One code unit of a console cell or key event.

use vstd::prelude::*;
use crate::text::{lemma_char_units, wide_of_char};

verus! {

/// One UTF-16 code unit, which the platform also lets one read as an ASCII byte.
///
/// Prefer the unit: which byte the ASCII reading sees depends on the target's
/// byte order.
#[derive(Clone, Copy, Debug, Default, PartialEq, Eq, PartialOrd, Ord, Hash, Structural)]
pub struct AsciiOrUnicodeChar(u16);

impl View for AsciiOrUnicodeChar {
    type V = u16;

    closed spec fn view(&self) -> u16 {
        self.0
    }
}

/// Relies on `u16::from_ne_bytes`: the two bytes read in the target's byte order.
#[verifier::external_body]
fn u16_from_ne_bytes(bytes: [u8; 2]) -> (r: u16)
    ensures
        r == bytes[0] + 0x100 * bytes[1] || r == 0x100 * bytes[0] + bytes[1],
{
    u16::from_ne_bytes(bytes)
}

/// Relies on `u16::to_ne_bytes`: the two bytes of `v` in the target's byte order.
#[verifier::external_body]
fn u16_to_ne_bytes(v: u16) -> (r: [u8; 2])
    ensures
        (r[0] == v % 0x100 && r[1] == v / 0x100) || (r[0] == v / 0x100 && r[1] == v % 0x100),
{
    v.to_ne_bytes()
}

impl AsciiOrUnicodeChar {
    /// The unit whose first byte in memory is `ascii` and whose other byte is zero.
    pub fn from_ascii_char(ascii: u8) -> (r: Self)
        ensures
            r@ == ascii || r@ == 0x100 * ascii,
    {
        AsciiOrUnicodeChar(u16_from_ne_bytes([ascii, 0]))
    }

    /// The unit `unicode`.
    pub fn from_unicode_char(unicode: u16) -> (r: Self)
        ensures
            r@ == unicode,
    {
        AsciiOrUnicodeChar(unicode)
    }

    /// The UTF-16 units of a character: `(None, unit)` for one in the basic
    /// multilingual plane, `(Some(high), low)` for a surrogate pair.
    pub fn from_char(unicode: char) -> (r: (Option<Self>, Self))
        ensures
            (unicode as u32) < 0x10000 ==> r.0 is None && wide_of_char(unicode) == seq![r.1@],
            (unicode as u32) >= 0x10000 ==> r.0 is Some && wide_of_char(unicode) == seq![
                r.0->Some_0@,
                r.1@,
            ],
    {
        proof {
            lemma_char_units(unicode);
            vstd::utf8::char_is_scalar(unicode);
        }
        let unicode = unicode as u32;
        match unicode.checked_sub(0x10000) {
            None => (None, AsciiOrUnicodeChar(unicode as u16)),
            Some(u) => {
                let hi = 0xD800 | ((u >> 10) & 0x3FF);
                let lo = 0xDC00 | (u & 0x3FF);
                assert(u < 0x100000 ==> hi == 0xD800 + u / 0x400 && lo == 0xDC00 + u % 0x400)
                    by (bit_vector)
                    requires
                        hi == 0xD800 | ((u >> 10) & 0x3FF),
                        lo == 0xDC00 | (u & 0x3FF),
                ;
                (Some(AsciiOrUnicodeChar(hi as u16)), AsciiOrUnicodeChar(lo as u16))
            },
        }
    }

    /// The first byte of the unit in memory.
    pub fn ascii_char(self) -> (r: u8)
        ensures
            r == self@ % 0x100 || r == self@ / 0x100,
    {
        let bytes = u16_to_ne_bytes(self.0);
        bytes[0]
    }

    /// The code unit.
    pub fn unicode_char(self) -> (r: u16)
        ensures
            r == self@,
    {
        self.0
    }
}

impl From<u16> for AsciiOrUnicodeChar {
    fn from(value: u16) -> Self {
        Self::from_unicode_char(value)
    }
}

impl vstd::std_specs::convert::FromSpecImpl<u16> for AsciiOrUnicodeChar {
    open spec fn obeys_from_spec() -> bool {
        true
    }

    closed spec fn from_spec(v: u16) -> Self {
        AsciiOrUnicodeChar(v)
    }
}

impl From<AsciiOrUnicodeChar> for u16 {
    fn from(value: AsciiOrUnicodeChar) -> Self {
        value.unicode_char()
    }
}

impl vstd::std_specs::convert::FromSpecImpl<AsciiOrUnicodeChar> for u16 {
    open spec fn obeys_from_spec() -> bool {
        true
    }

    closed spec fn from_spec(v: AsciiOrUnicodeChar) -> Self {
        v@
    }
}

impl TryFrom<char> for AsciiOrUnicodeChar {
    type Error = [AsciiOrUnicodeChar; 2];

    /// The single unit of a character in the basic multilingual plane, or
    /// its surrogate pair as the error.
    fn try_from(value: char) -> Result<Self, Self::Error> {
        proof {
            lemma_char_units(value);
        }
        match Self::from_char(value) {
            (None, lo) => Ok(lo),
            (Some(hi), lo) => Err([hi, lo]),
        }
    }
}

impl vstd::std_specs::convert::TryFromSpecImpl<char> for AsciiOrUnicodeChar {
    open spec fn obeys_try_from_spec() -> bool {
        true
    }

    closed spec fn try_from_spec(v: char) -> Result<Self, [AsciiOrUnicodeChar; 2]> {
        let w = wide_of_char(v);
        if w.len() == 1 {
            Ok(AsciiOrUnicodeChar(w[0]))
        } else {
            Err([AsciiOrUnicodeChar(w[0]), AsciiOrUnicodeChar(w[1])])
        }
    }
}

/// Converting a unit to the wrapper and back gives the unit, and the wrapper
/// to a unit and back gives the wrapper.
pub proof fn lemma_unit_round_trip(unit: u16, c: AsciiOrUnicodeChar)
    ensures
        <u16 as vstd::std_specs::convert::FromSpec<AsciiOrUnicodeChar>>::from_spec(
            <AsciiOrUnicodeChar as vstd::std_specs::convert::FromSpec<u16>>::from_spec(unit),
        ) == unit,
        <AsciiOrUnicodeChar as vstd::std_specs::convert::FromSpec<u16>>::from_spec(
            <u16 as vstd::std_specs::convert::FromSpec<AsciiOrUnicodeChar>>::from_spec(c),
        ) == c,
{
}

} // verus!
