//! Packed 8-bit-per-channel colors.
//!
//! The display collaborator takes the rendered frame as one `u32` per pixel,
//! channel order `R<<16 | G<<8 | B`. The scaling between floating-point
//! radiance and 8-bit channels happens in the renderer; this module owns the
//! exact packing and unpacking of the three channels.

use vstd::prelude::*;

verus! {

/// The packed form of a color: red in bits 16..24, green in 8..16, blue in 0..8.
pub open spec fn pack_rgb8_spec(r: u8, g: u8, b: u8) -> u32 {
    ((r as u32) << 16) | ((g as u32) << 8) | (b as u32)
}

/// The red channel of a packed color.
pub open spec fn red_of(c: u32) -> u32 {
    (c >> 16) & 0xFF
}

/// The green channel of a packed color.
pub open spec fn green_of(c: u32) -> u32 {
    (c >> 8) & 0xFF
}

/// The blue channel of a packed color.
pub open spec fn blue_of(c: u32) -> u32 {
    c & 0xFF
}

/// Packs three 8-bit channels into one `u32`, red high.
pub fn pack_rgb8(r: u8, g: u8, b: u8) -> (c: u32)
    ensures
        c == pack_rgb8_spec(r, g, b),
{
    ((r as u32) << 16) | ((g as u32) << 8) | (b as u32)
}

/// Recovers the three channels of a packed color, red first.
pub fn unpack_rgb8(c: u32) -> (rgb: (u8, u8, u8))
    ensures
        rgb.0 == red_of(c),
        rgb.1 == green_of(c),
        rgb.2 == blue_of(c),
{
    proof {
        assert((c >> 16) & 0xFF < 256 && (c >> 8) & 0xFF < 256 && c & 0xFF < 256)
            by (bit_vector);
    }
    let r: u8 = ((c >> 16) & 0xFF) as u8;
    let g: u8 = ((c >> 8) & 0xFF) as u8;
    let b: u8 = (c & 0xFF) as u8;
    (r, g, b)
}

/// Law: packing never mixes channels; unpacking a packed color returns the
/// three channels it was built from.
pub proof fn lemma_rgb8_round_trip(r: u8, g: u8, b: u8)
    ensures
        red_of(pack_rgb8_spec(r, g, b)) == r,
        green_of(pack_rgb8_spec(r, g, b)) == g,
        blue_of(pack_rgb8_spec(r, g, b)) == b,
{
    assert(((((r as u32) << 16) | ((g as u32) << 8) | (b as u32)) >> 16) & 0xFF == r)
        by (bit_vector);
    assert(((((r as u32) << 16) | ((g as u32) << 8) | (b as u32)) >> 8) & 0xFF == g)
        by (bit_vector);
    assert(((((r as u32) << 16) | ((g as u32) << 8) | (b as u32))) & 0xFF == b)
        by (bit_vector);
}

} // verus!
