//! Plain values that pass through the plugin unchanged.
//!
//! Floating-point quantities (colour channels, line widths, matrix entries,
//! vertex data) are carried as their IEEE-754 single-precision bit patterns,
//! so that "unchanged since the last upload" is an exact comparison of words.

use vstd::prelude::*;

verus! {

/// The bit pattern of the single-precision value one.
pub const ONE_BITS: u32 = 0x3F80_0000;

/// The bit pattern of the single-precision value zero.
pub const ZERO_BITS: u32 = 0;

/// A colour with alpha; each channel is a single-precision bit pattern.
#[derive(Clone, Copy, Debug, PartialEq, Eq, Structural)]
pub struct Rgba {
    pub red: u32,
    pub green: u32,
    pub blue: u32,
    pub alpha: u32,
}

impl Rgba {
    /// Solid black, fully opaque.
    pub open spec fn spec_opaque_black() -> Rgba {
        Rgba { red: ZERO_BITS, green: ZERO_BITS, blue: ZERO_BITS, alpha: ONE_BITS }
    }

    /// Solid black, fully opaque: the background used when no camera is active.
    #[verifier::when_used_as_spec(spec_opaque_black)]
    pub fn opaque_black() -> (color: Rgba)
        ensures
            color == Rgba::spec_opaque_black(),
    {
        Rgba { red: ZERO_BITS, green: ZERO_BITS, blue: ZERO_BITS, alpha: ONE_BITS }
    }
}

/// The words of a fixed-size array, as a list.
pub fn words_of<const N: usize>(array: &[u32; N]) -> (words: Vec<u32>)
    ensures
        words@ == array@,
{
    let mut words: Vec<u32> = Vec::new();
    let mut i: usize = 0;
    while i < N
        invariant
            i <= N,
            words@ == array@.take(i as int),
        decreases N - i,
    {
        words.push(array[i]);
        assert(array@.take(i + 1) =~= array@.take(i as int).push(array@[i as int]));
        i = i + 1;
    }
    assert(array@.take(N as int) =~= array@);
    words
}

/// The rectangle of the window that is drawn to.
#[derive(Clone, Copy, Debug, PartialEq, Eq, Structural)]
pub struct Viewport {
    pub x: usize,
    pub y: usize,
    pub width: usize,
    pub height: usize,
}

} // verus!
