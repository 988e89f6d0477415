//! Colors of the screen buffer's palette.

use vstd::prelude::*;

verus! {

/// A color, laid out as `0x00RRGGBB`.
#[derive(Clone, Copy, Debug, Default, PartialEq, Eq, PartialOrd, Ord, Hash, Structural)]
pub struct ColorRef(u32);

impl View for ColorRef {
    type V = u32;

    closed spec fn view(&self) -> u32 {
        self.0
    }
}

/// The value of the color with these components.
pub open spec fn rgb_value(red: u8, green: u8, blue: u8) -> u32 {
    (red * 0x10000 + green * 0x100 + blue) as u32
}

impl ColorRef {
    /// The color with components `[red, green, blue]`, each in `0 ..= 255`.
    pub fn from_rgb(rgb: [u8; 3]) -> (r: Self)
        ensures
            r@ == rgb_value(rgb[0], rgb[1], rgb[2]),
    {
        let (red, green, blue) = (rgb[0], rgb[1], rgb[2]);
        let v = ((red as u32) << 16) | ((green as u32) << 8) | (blue as u32);
        assert(v == red * 0x10000 + green * 0x100 + blue) by (bit_vector)
            requires
                v == ((red as u32) << 16) | ((green as u32) << 8) | (blue as u32),
        ;
        ColorRef(v)
    }

    /// The components `[red, green, blue]`.
    pub fn to_rgb(self) -> (r: [u8; 3])
        ensures
            r[0] == (self@ / 0x10000) % 0x100,
            r[1] == (self@ / 0x100) % 0x100,
            r[2] == self@ % 0x100,
    {
        [self.red(), self.green(), self.blue()]
    }

    /// The red component.
    pub fn red(self) -> (r: u8)
        ensures
            r == (self@ / 0x10000) % 0x100,
    {
        let v = self.0;
        assert((v >> 16) as u8 == (v / 0x10000) % 0x100) by (bit_vector);
        (v >> 16) as u8
    }

    /// The green component.
    pub fn green(self) -> (r: u8)
        ensures
            r == (self@ / 0x100) % 0x100,
    {
        let v = self.0;
        assert((v >> 8) as u8 == (v / 0x100) % 0x100) by (bit_vector);
        (v >> 8) as u8
    }

    /// The blue component.
    pub fn blue(self) -> (r: u8)
        ensures
            r == self@ % 0x100,
    {
        let v = self.0;
        assert(v as u8 == v % 0x100) by (bit_vector);
        v as u8
    }
}

/// The components of a color made from components are those components.
pub proof fn lemma_rgb_round_trip(red: u8, green: u8, blue: u8)
    ensures
        (rgb_value(red, green, blue) / 0x10000) % 0x100 == red,
        (rgb_value(red, green, blue) / 0x100) % 0x100 == green,
        rgb_value(red, green, blue) % 0x100 == blue,
{
    let v = rgb_value(red, green, blue);
    assert(v == red * 0x10000 + green * 0x100 + blue);
    assert((v / 0x10000) % 0x100 == red) by (bit_vector)
        requires
            v == red * 0x10000 + green * 0x100 + blue,
    ;
    assert((v / 0x100) % 0x100 == green) by (bit_vector)
        requires
            v == red * 0x10000 + green * 0x100 + blue,
    ;
    assert(v % 0x100 == blue) by (bit_vector)
        requires
            v == red * 0x10000 + green * 0x100 + blue,
    ;
}

impl From<u32> for ColorRef {
    fn from(value: u32) -> Self {
        ColorRef(value)
    }
}

impl vstd::std_specs::convert::FromSpecImpl<u32> for ColorRef {
    open spec fn obeys_from_spec() -> bool {
        true
    }

    closed spec fn from_spec(v: u32) -> Self {
        ColorRef(v)
    }
}

impl From<ColorRef> for u32 {
    fn from(value: ColorRef) -> Self {
        value.0
    }
}

impl vstd::std_specs::convert::FromSpecImpl<ColorRef> for u32 {
    open spec fn obeys_from_spec() -> bool {
        true
    }

    closed spec fn from_spec(v: ColorRef) -> Self {
        v.0
    }
}

/// A color converted to its value and back is unchanged, and so is a value
/// converted to a color and back.
pub proof fn lemma_color_round_trip(value: u32, c: ColorRef)
    ensures
        <u32 as vstd::std_specs::convert::FromSpec<ColorRef>>::from_spec(
            <ColorRef as vstd::std_specs::convert::FromSpec<u32>>::from_spec(value),
        ) == value,
        <ColorRef as vstd::std_specs::convert::FromSpec<u32>>::from_spec(
            <u32 as vstd::std_specs::convert::FromSpec<ColorRef>>::from_spec(c),
        ) == c,
{
}

} // verus!
