//! The colour of the LED: three 8-bit channels and their packed form.

use vstd::prelude::*;

verus! {

/// Number of distinct values a freshly drawn channel can take: `0..=254`.
pub const DRAW_MODULUS: u32 = 255;

/// One colour, a channel per field, in the order the LED receives them.
#[derive(PartialEq, Eq, Structural, Clone, Copy, Debug)]
pub struct RGB {
    pub green: u8,
    pub red: u8,
    pub blue: u8,
}

/// The channel value that a raw draw of the entropy source stands for.
pub open spec fn drawn_channel(draw: u32) -> int {
    draw as int % DRAW_MODULUS as int
}

/// The packed 24-bit word of three channels: green above red above blue.
pub open spec fn packed_word(green: int, red: int, blue: int) -> int {
    green * 0x1_0000 + red * 0x100 + blue
}

/// The colour that three raw draws of the entropy source stand for.
pub open spec fn drawn(green_draw: u32, red_draw: u32, blue_draw: u32) -> RGB {
    RGB {
        green: drawn_channel(green_draw) as u8,
        red: drawn_channel(red_draw) as u8,
        blue: drawn_channel(blue_draw) as u8,
    }
}

impl RGB {
    /// The packed 24-bit word of this colour.
    pub open spec fn packed(self) -> int {
        packed_word(self.green as int, self.red as int, self.blue as int)
    }

    /// Whether every channel lies in the range that a draw can produce.
    pub open spec fn drawable(self) -> bool {
        self.green < DRAW_MODULUS && self.red < DRAW_MODULUS && self.blue < DRAW_MODULUS
    }

    /// Builds a colour from three raw draws of the entropy source, one per
    /// channel, each reduced modulo 255 so that no channel is ever 255.
    pub fn new(green_draw: u32, red_draw: u32, blue_draw: u32) -> (color: RGB)
        ensures
            color == drawn(green_draw, red_draw, blue_draw),
            color.green == drawn_channel(green_draw),
            color.red == drawn_channel(red_draw),
            color.blue == drawn_channel(blue_draw),
            color.drawable(),
    {
        RGB {
            green: (green_draw % DRAW_MODULUS) as u8,
            red: (red_draw % DRAW_MODULUS) as u8,
            blue: (blue_draw % DRAW_MODULUS) as u8,
        }
    }

    /// Packs the colour into the 24-bit word that is sent to the LED:
    /// green in bits 16 to 23, red in bits 8 to 15, blue in bits 0 to 7.
    pub fn to_u32(self) -> (word: u32)
        ensures
            word == self.packed(),
            word < 0x100_0000,
    {
        let blue: u32 = self.blue as u32;
        let red: u32 = self.red as u32;
        let green: u32 = self.green as u32;
        assert(red << 8 == red * 0x100) by (bit_vector)
            requires
                red < 0x100,
        ;
        assert(green << 16 == green * 0x1_0000) by (bit_vector)
            requires
                green < 0x100,
        ;
        blue + (red << 8) + (green << 16)
    }
}

} // verus!
