use vstd::prelude::*;

verus! {

/// A colour as handed to a draw call.
#[derive(Clone, Copy, Debug, PartialEq, Eq, Structural)]
pub enum Colour {
    /// Red, green, blue and alpha channels. Alpha is accepted but not presented.
    RGBA(u8, u8, u8, u8),
    /// A packed `0xRRGGBB` value; bits above the lowest 24 are ignored.
    HEX(u32),
}

impl Colour {
    /// The `(red, green, blue)` triple that a pixel stores for this colour.
    pub open spec fn raw(self) -> (u8, u8, u8) {
        match self {
            Colour::RGBA(r, g, b, _) => (r, g, b),
            Colour::HEX(h) => (
                ((h / 0x10000) % 0x100) as u8,
                ((h / 0x100) % 0x100) as u8,
                (h % 0x100) as u8,
            ),
        }
    }

    /// Converts to the raw triple stored per pixel.
    pub fn to_raw(&self) -> (r: (u8, u8, u8))
        ensures
            r == self.raw(),
    {
        match *self {
            Colour::RGBA(r, g, b, _) => (r, g, b),
            Colour::HEX(h) => {
                let red = (h & 0xFF0000) >> 16;
                let green = (h & 0x00FF00) >> 8;
                let blue = h & 0x0000FF;
                assert(red == (h / 0x10000) % 0x100 && red < 0x100) by (bit_vector)
                    requires
                        red == (h & 0xFF0000) >> 16,
                ;
                assert(green == (h / 0x100) % 0x100 && green < 0x100) by (bit_vector)
                    requires
                        green == (h & 0x00FF00) >> 8,
                ;
                assert(blue == h % 0x100 && blue < 0x100) by (bit_vector)
                    requires
                        blue == h & 0x0000FF,
                ;
                (red as u8, green as u8, blue as u8)
            },
        }
    }
}

/// Packing three channels as `0xRRGGBB` and converting back gives the same
/// channels; a four-channel colour converts to its first three channels,
/// whatever its alpha.
pub proof fn lemma_colour_round_trip(r: u8, g: u8, b: u8, a: u8)
    ensures
        Colour::HEX(((r as u32) << 16) | ((g as u32) << 8) | (b as u32)).raw() == (r, g, b),
        Colour::RGBA(r, g, b, a).raw() == (r, g, b),
{
    let h: u32 = ((r as u32) << 16) | ((g as u32) << 8) | (b as u32);
    assert((h / 0x10000) % 0x100 == r as u32 && (h / 0x100) % 0x100 == g as u32 && h % 0x100
        == b as u32)
        by (bit_vector)
        requires
            h == ((r as u32) << 16) | ((g as u32) << 8) | (b as u32),
    ;
}

} // verus!
