//! Why a conversion was refused.

use vstd::prelude::*;
use crate::element::Depth;

verus! {

/// The reasons for which a conversion fails. Each is found before any
/// element is copied.
#[derive(Debug, Clone, Copy, PartialEq, Eq)]
pub enum Error {
    /// The matrix has more than two dimensions.
    UnsupportedDimensions,
    /// The matrix does not have the channel count of the pixel kind asked for.
    ChannelMismatch { expected_channels: i32, actual_channels: i32 },
    /// The matrix does not hold the element type asked for.
    DepthMismatch { expected_depth: Depth, actual_depth: Depth },
    /// No kind of image stands for a matrix of this depth and channel count.
    UnsupportedType { depth: Depth, channels: i32 },
    /// The matrix could not be created.
    Allocation,
}

} // verus!
