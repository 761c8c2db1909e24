//! Packed ARGB pixel values: 8 bits of alpha above 24 bits of RGB.

use vstd::prelude::*;

verus! {

/// The packed pixel whose alpha channel is `alpha` and whose colour channels
/// are the low 24 bits of `color`.
pub open spec fn tinted(alpha: u8, color: u32) -> u32 {
    ((alpha as u32) << 24) | (color & 0x00FF_FFFFu32)
}

/// The top byte of a tinted pixel is the alpha, and its low 24 bits are those
/// of the colour: the colour's own alpha leaves no trace.
pub proof fn lemma_tinted_channels(alpha: u8, color: u32)
    ensures
        tinted(alpha, color) >> 24 == alpha,
        tinted(alpha, color) & 0x00FF_FFFFu32 == color & 0x00FF_FFFFu32,
{
    assert((((alpha as u32) << 24) | (color & 0x00FF_FFFFu32)) >> 24 == alpha) by (bit_vector);
    assert((((alpha as u32) << 24) | (color & 0x00FF_FFFFu32)) & 0x00FF_FFFFu32 == color
        & 0x00FF_FFFFu32) by (bit_vector);
}

/// Packs a coverage-derived alpha over the RGB bits of `color`; whatever alpha
/// `color` carried is overwritten.
pub fn pack_argb(alpha: u8, color: u32) -> (packed: u32)
    ensures
        packed == tinted(alpha, color),
        packed >> 24 == alpha,
        packed & 0x00FF_FFFFu32 == color & 0x00FF_FFFFu32,
{
    proof {
        lemma_tinted_channels(alpha, color);
    }
    ((alpha as u32) << 24) | (color & 0x00FF_FFFFu32)
}

} // verus!
