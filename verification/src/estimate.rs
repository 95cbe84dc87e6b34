//! The result of one detection.

use vstd::prelude::*;

verus! {

/// A pitch found in a frame. `F` is the number type of the estimator.
#[derive(Clone, Copy, Debug, PartialEq)]
pub struct PitchEstimate<F> {
    /// The fundamental frequency, in hertz.
    pub frequency: F,
    /// Strength of the periodicity at the chosen lag.
    pub clarity: F,
}

impl<F> PitchEstimate<F> {
    /// The frequency of `estimate`, or `no_pitch` where there is none.
    ///
    /// This is the surface for hosts that take one bare number per frame and
    /// reserve a value of their choice for "no pitch".
    pub fn frequency_or(estimate: Option<PitchEstimate<F>>, no_pitch: F) -> (frequency: F)
        ensures
            frequency == (match estimate {
                Some(pitch) => pitch.frequency,
                None => no_pitch,
            }),
    {
        match estimate {
            Some(pitch) => pitch.frequency,
            None => no_pitch,
        }
    }
}

} // verus!
