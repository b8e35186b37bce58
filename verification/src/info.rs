//! Typed host video information.

use vstd::prelude::*;

verus! {

/// A frame rate as the exact ratio `numerator / denominator`.
#[derive(Clone, Copy, PartialEq, Eq, Structural, Debug)]
pub struct FramesPerSecond {
    pub numerator: u32,
    pub denominator: u32,
}

impl FramesPerSecond {
    /// Length of one frame in microseconds, rounded down to the grid:
    /// `1_000_000 * denominator / numerator`. Used to drive the animation
    /// engine at the host's reported rate.
    pub fn frame_micros(&self) -> (r: u64)
        requires
            self.numerator > 0,
        ensures
            r == 1_000_000 * self.denominator as int / self.numerator as int,
    {
        1_000_000u64 * (self.denominator as u64) / (self.numerator as u64)
    }
}

} // verus!
