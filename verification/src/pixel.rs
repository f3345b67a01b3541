//! Pixel kinds: the channel layout of one pixel.

use vstd::prelude::*;

verus! {

/// A pixel kind. Its channels lie side by side in the backing store, so a
/// kind is known to the conversions by its channel count alone.
pub trait Pixel: Sized {
    /// The number of channels of one pixel.
    spec fn spec_channel_count() -> u8;

    /// A pixel has between one and four channels.
    proof fn lemma_channel_count_bounds()
        ensures
            1 <= Self::spec_channel_count() <= 4,
    ;

    fn channel_count() -> (n: u8)
        ensures
            n == Self::spec_channel_count(),
    ;
}

/// Grayscale.
#[derive(Debug, Clone, Copy, PartialEq, Eq)]
pub struct Luma;

/// Grayscale with alpha.
#[derive(Debug, Clone, Copy, PartialEq, Eq)]
pub struct LumaA;

/// Red, green, blue.
#[derive(Debug, Clone, Copy, PartialEq, Eq)]
pub struct Rgb;

/// Red, green, blue with alpha.
#[derive(Debug, Clone, Copy, PartialEq, Eq)]
pub struct Rgba;

impl Pixel for Luma {
    open spec fn spec_channel_count() -> u8 {
        1
    }

    proof fn lemma_channel_count_bounds() {
    }

    fn channel_count() -> (n: u8) {
        1
    }
}

impl Pixel for LumaA {
    open spec fn spec_channel_count() -> u8 {
        2
    }

    proof fn lemma_channel_count_bounds() {
    }

    fn channel_count() -> (n: u8) {
        2
    }
}

impl Pixel for Rgb {
    open spec fn spec_channel_count() -> u8 {
        3
    }

    proof fn lemma_channel_count_bounds() {
    }

    fn channel_count() -> (n: u8) {
        3
    }
}

impl Pixel for Rgba {
    open spec fn spec_channel_count() -> u8 {
        4
    }

    proof fn lemma_channel_count_bounds() {
    }

    fn channel_count() -> (n: u8) {
        4
    }
}

} // verus!
