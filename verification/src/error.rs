//! The failures a detector hands to its caller.

use vstd::prelude::*;

verus! {

/// Why a detector could not be built, or why a frame was not analysed.
#[derive(Clone, Copy, Debug, PartialEq, Eq, Structural)]
pub enum PitchError {
    /// The frame holds fewer samples than one analysis window.
    InsufficientSamples {
        /// The window size the detector was built with.
        expected: usize,
        /// The number of samples in the refused frame.
        actual: usize,
    },
    /// The sample rate or the window size is zero.
    InvalidConfig,
}

} // verus!
