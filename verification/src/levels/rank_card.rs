//! Colours of the first, circular rank card.

use vstd::prelude::*;

use crate::ranks::colour::rgba_of_hex;

verus! {

/// An opaque RGB colour, eight bits per channel.
pub struct Colour {
    red: u8,
    green: u8,
    blue: u8,
}

impl View for Colour {
    type V = (u8, u8, u8);

    closed spec fn view(&self) -> (u8, u8, u8) {
        (self.red, self.green, self.blue)
    }
}

impl Colour {
    /// Reads an `0xRRGGBB` value. Values outside `0..=0xFFFFFF` are not
    /// colours: a channel would fall outside a byte.
    pub fn from_hex(hex: i32) -> (c: Colour)
        requires
            0 <= hex < 0x100_0000,
        ensures
            c@ == ((hex / 0x1_0000) as u8, ((hex / 0x100) % 0x100) as u8, (hex % 0x100) as u8),
    {
        Colour { red: (hex / 65536) as u8, green: ((hex / 256) % 256) as u8, blue: (hex % 256) as u8 }
    }

    /// The red channel.
    pub fn red(&self) -> (r: u8)
        ensures
            r == self@.0,
    {
        self.red
    }

    /// The green channel.
    pub fn green(&self) -> (g: u8)
        ensures
            g == self@.1,
    {
        self.green
    }

    /// The blue channel.
    pub fn blue(&self) -> (b: u8)
        ensures
            b == self@.2,
    {
        self.blue
    }
}

/// For every colour value, the card's RGB reading agrees with the opaque
/// RGBA reading of the rank module.
pub proof fn lemma_rgb_agrees_with_rgba(hex: i32)
    requires
        0 <= hex < 0x100_0000,
    ensures
        ((hex / 0x1_0000) as u8, ((hex / 0x100) % 0x100) as u8, (hex % 0x100) as u8) == (
            rgba_of_hex(hex).0,
            rgba_of_hex(hex).1,
            rgba_of_hex(hex).2,
        ),
{
    assert((hex as u32) == hex);
    assert(hex / 0x1_0000 < 0x100);
}

} // verus!
