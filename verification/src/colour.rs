use vstd::prelude::*;

verus! {

/// An RGBA colour with one byte per channel.
#[derive(Clone, Copy, Debug, PartialEq, Eq, Structural)]
pub struct Colour {
    pub red: u8,
    pub green: u8,
    pub blue: u8,
    pub alpha: u8,
}

/// The `u32` whose bytes, from the most significant down, are red, green, blue and alpha.
pub open spec fn packed_rgba(colour: Colour) -> int {
    colour.red * 0x100_0000 + colour.green * 0x1_0000 + colour.blue * 0x100 + colour.alpha
}

/// The colour whose channels are the bytes of `raw`, from the most significant down.
pub open spec fn unpacked_rgba(raw: u32) -> Colour {
    Colour {
        red: (raw / 0x100_0000) as u8,
        green: ((raw / 0x1_0000) % 0x100) as u8,
        blue: ((raw / 0x100) % 0x100) as u8,
        alpha: (raw % 0x100) as u8,
    }
}

impl Colour {
    /// Opaque black.
    pub fn black() -> (colour: Colour)
        ensures
            colour == (Colour { red: 0, green: 0, blue: 0, alpha: 255 }),
    {
        Colour { red: 0, green: 0, blue: 0, alpha: 255 }
    }

    /// Serialises `self` as a `u32` where each byte represents a component of `Colour`.
    pub fn serialise_to_u32(self) -> (raw: u32)
        ensures
            raw == packed_rgba(self),
    {
        let red = self.red as u32;
        let green = self.green as u32;
        let blue = self.blue as u32;
        let alpha = self.alpha as u32;
        let raw = (red << 24u32) | (green << 16u32) | (blue << 8u32) | alpha;
        assert(raw == red * 0x100_0000 + green * 0x1_0000 + blue * 0x100 + alpha) by (bit_vector)
            requires
                red < 256,
                green < 256,
                blue < 256,
                alpha < 256,
                raw == (red << 24u32) | (green << 16u32) | (blue << 8u32) | alpha,
        ;
        raw
    }

    /// Creates a `Colour` from a `u32` whose byte layout is assumed to be RGBA, as
    /// [`Self::serialise_to_u32`] makes it.
    pub fn deserialise_from_u32(raw: u32) -> (colour: Self)
        ensures
            colour == unpacked_rgba(raw),
    {
        let red = raw >> 24u32;
        let green = (raw >> 16u32) & 0xFF;
        let blue = (raw >> 8u32) & 0xFF;
        let alpha = raw & 0xFF;
        assert(red == raw / 0x100_0000 && green == (raw / 0x1_0000) % 0x100 && blue == (raw
            / 0x100) % 0x100 && alpha == raw % 0x100) by (bit_vector)
            requires
                red == raw >> 24u32,
                green == (raw >> 16u32) & 0xFF,
                blue == (raw >> 8u32) & 0xFF,
                alpha == raw & 0xFF,
        ;
        Colour { red: red as u8, green: green as u8, blue: blue as u8, alpha: alpha as u8 }
    }
}

/// Deserialising what was serialised gives back the same colour.
pub proof fn lemma_deserialise_serialise(colour: Colour)
    ensures
        packed_rgba(colour) <= u32::MAX,
        unpacked_rgba(packed_rgba(colour) as u32) == colour,
{
    let (r, g, b, a) = (colour.red as u32, colour.green as u32, colour.blue as u32, colour.alpha as u32);
    assert(r * 0x100_0000 + g * 0x1_0000 + b * 0x100 + a <= 0xFFFF_FFFF) by (nonlinear_arith)
        requires
            r < 256,
            g < 256,
            b < 256,
            a < 256,
    ;
    let raw = (r * 0x100_0000 + g * 0x1_0000 + b * 0x100 + a) as u32;
    assert(raw / 0x100_0000 == r && (raw / 0x1_0000) % 0x100 == g && (raw / 0x100) % 0x100 == b
        && raw % 0x100 == a) by (nonlinear_arith)
        requires
            r < 256,
            g < 256,
            b < 256,
            a < 256,
            raw == r * 0x100_0000 + g * 0x1_0000 + b * 0x100 + a,
    ;
}

/// Serialising what was deserialised gives back the same `u32`.
pub proof fn lemma_serialise_deserialise(raw: u32)
    ensures
        packed_rgba(unpacked_rgba(raw)) == raw,
{
    assert((raw / 0x100_0000) * 0x100_0000 + ((raw / 0x1_0000) % 0x100) * 0x1_0000 + ((raw
        / 0x100) % 0x100) * 0x100 + raw % 0x100 == raw) by (nonlinear_arith);
}

} // verus!
