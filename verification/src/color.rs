//! Colours with 8 bits per channel.

use vstd::prelude::*;
use crate::text::{push_upper_hex_byte, upper_hex_byte};

verus! {

/// An RGBA colour, one byte per channel.
#[derive(Debug, Clone, Copy, PartialEq, Eq, Structural)]
pub struct Color {
    r: u8,
    g: u8,
    b: u8,
    a: u8,
}

impl Color {
    /// The four channels in the order red, green, blue, alpha.
    pub closed spec fn channels(self) -> (u8, u8, u8, u8) {
        (self.r, self.g, self.b, self.a)
    }

    /// The colour with the given channels.
    pub closed spec fn from_channels(channels: (u8, u8, u8, u8)) -> Color {
        Color { r: channels.0, g: channels.1, b: channels.2, a: channels.3 }
    }

    /// The text form: a hash sign and two upper-case hexadecimal digits per
    /// channel.
    pub open spec fn hex_text(self) -> Seq<char> {
        seq!['#'] + upper_hex_byte(self.channels().0) + upper_hex_byte(self.channels().1)
            + upper_hex_byte(self.channels().2) + upper_hex_byte(self.channels().3)
    }

    pub fn from_rgba(r: u8, g: u8, b: u8, a: u8) -> (color: Self)
        ensures
            color.channels() == (r, g, b, a),
            color == Self::from_channels((r, g, b, a)),
    {
        Self { r, g, b, a }
    }

    /// The channels as bytes, for conversion to the floating point form that
    /// a graphics backend takes.
    pub fn rgba(&self) -> (c: [u8; 4])
        ensures
            c@ == seq![self.channels().0, self.channels().1, self.channels().2, self.channels().3],
    {
        [self.r, self.g, self.b, self.a]
    }

    /// The colour as text, such as `#1D2128E5`.
    pub fn to_string(&self) -> (s: String)
        ensures
            s@ == self.hex_text(),
    {
        let mut s = String::new();
        s.push('#');
        push_upper_hex_byte(&mut s, self.r);
        push_upper_hex_byte(&mut s, self.g);
        push_upper_hex_byte(&mut s, self.b);
        push_upper_hex_byte(&mut s, self.a);
        assert(s@ =~= self.hex_text());
        s
    }
}

} // verus!
