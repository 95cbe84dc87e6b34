//! The detector: construction, its parameters, and the per-frame decision.

use vstd::prelude::*;
use vstd::slice::slice_subrange;

use crate::config::DetectorConfig;
use crate::error::PitchError;
use crate::estimate::PitchEstimate;

verus! {

/// One pitch-detection session: a sample rate and an analysis window.
#[derive(Clone, Copy, Debug)]
pub struct WasmPitchDetector {
    sample_rate: usize,
    window_size: usize,
    padding: usize,
}

impl View for WasmPitchDetector {
    type V = DetectorConfig;

    closed spec fn view(&self) -> DetectorConfig {
        DetectorConfig {
            sample_rate: self.sample_rate as nat,
            window_size: self.window_size as nat,
            padding: self.padding as nat,
        }
    }
}

impl WasmPitchDetector {
    /// Every detector is a valid configuration.
    #[verifier::type_invariant]
    spec fn inv(self) -> bool {
        self@.valid()
    }

    /// Builds a detector for frames of `window_size` samples taken at
    /// `sample_rate` samples per second. The padding is half the window.
    ///
    /// Fails with [`PitchError::InvalidConfig`] exactly when one of the two
    /// is zero. The buffer length `window_size + window_size / 2` must be a
    /// machine size.
    pub fn new(sample_rate: usize, window_size: usize) -> (res: Result<
        WasmPitchDetector,
        PitchError,
    >)
        requires
            window_size + window_size / 2 <= usize::MAX,
        ensures
            sample_rate == 0 || window_size == 0 ==> res == Err::<WasmPitchDetector, PitchError>(
                PitchError::InvalidConfig,
            ),
            sample_rate > 0 && window_size > 0 ==> res is Ok && res->Ok_0@
                == DetectorConfig::derived(sample_rate as nat, window_size as nat),
            res is Ok ==> res->Ok_0@.valid(),
    {
        if sample_rate == 0 || window_size == 0 {
            return Err(PitchError::InvalidConfig);
        }
        let padding: usize = window_size / 2;
        Ok(WasmPitchDetector { sample_rate, window_size, padding })
    }

    /// Samples per second of the signal.
    pub fn sample_rate(&self) -> (rate: usize)
        ensures
            rate == self@.sample_rate,
            self@.valid(),
    {
        proof {
            use_type_invariant(self);
        }
        self.sample_rate
    }

    /// Number of samples analysed per frame.
    pub fn window_size(&self) -> (size: usize)
        ensures
            size == self@.window_size,
            self@.valid(),
    {
        proof {
            use_type_invariant(self);
        }
        self.window_size
    }

    /// Number of zero samples the estimator appends to the window.
    pub fn padding(&self) -> (padding: usize)
        ensures
            padding == self@.padding,
            self@.valid(),
    {
        proof {
            use_type_invariant(self);
        }
        self.padding
    }

    /// Length of each working buffer of the estimator: one element per lag.
    pub fn buffer_len(&self) -> (len: usize)
        ensures
            len == self@.lags(),
            self@.valid(),
    {
        proof {
            use_type_invariant(self);
        }
        self.window_size + self.padding
    }

    /// Checks `frame` and selects the samples to analyse.
    ///
    /// A frame shorter than the window is refused with the two lengths; of
    /// any other frame the first `window_size` samples are returned, which
    /// is the length an estimator built for this detector takes.
    pub fn analysis_window<'a, S>(&self, frame: &'a [S]) -> (res: Result<&'a [S], PitchError>)
        ensures
            self@.valid(),
            !self@.accepts(frame@.len()) ==> res == Err::<&[S], PitchError>(
                self@.refusal(frame@.len()),
            ),
            self@.accepts(frame@.len()) ==> res is Ok && res->Ok_0@ == self@.window(frame@),
    {
        proof {
            use_type_invariant(self);
        }
        if frame.len() < self.window_size {
            Err(
                PitchError::InsufficientSamples {
                    expected: self.window_size,
                    actual: frame.len(),
                },
            )
        } else {
            Ok(slice_subrange(frame, 0, self.window_size))
        }
    }

    /// Detects the pitch of `audio_samples` with `estimate`.
    ///
    /// A frame shorter than the window is refused and `estimate` is not
    /// run. Otherwise `estimate` is run once, on the first `window_size`
    /// samples and the detector's sample rate, and its answer is returned:
    /// `Some` estimate, or `None` where it finds no pitch.
    ///
    /// `estimate` must accept the window of every frame that is not refused.
    pub fn detect_pitch<S, F, E>(&self, audio_samples: &[S], estimate: E) -> (res: Result<
        Option<PitchEstimate<F>>,
        PitchError,
    >)
        where E: FnOnce(&[S], usize) -> Option<PitchEstimate<F>>
        requires
            self@.accepts(audio_samples@.len()) ==> self@.may_estimate(audio_samples@, estimate),
        ensures
            self@.valid(),
            self@.is_outcome(audio_samples@, estimate, res),
    {
        match self.analysis_window(audio_samples) {
            Err(e) => Err(e),
            Ok(window) => {
                let pitch = estimate(window, self.sample_rate);
                assert(estimate.ensures((window, self@.sample_rate as usize), pitch));
                Ok(pitch)
            },
        }
    }
}

} // verus!
