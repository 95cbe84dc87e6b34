//! The mathematical model of a detector, and what holds of every detection.

use vstd::prelude::*;

use crate::error::PitchError;
use crate::estimate::PitchEstimate;

verus! {

/// What a detector is, as plain numbers.
pub struct DetectorConfig {
    /// Samples per second of the signal.
    pub sample_rate: nat,
    /// Number of samples analysed per frame.
    pub window_size: nat,
    /// Number of zero samples the estimator appends to the window.
    pub padding: nat,
}

impl DetectorConfig {
    /// The configuration that a sample rate and a window size determine:
    /// the padding is half the window, rounded down.
    pub open spec fn derived(sample_rate: nat, window_size: nat) -> DetectorConfig {
        DetectorConfig { sample_rate, window_size, padding: window_size / 2 }
    }

    /// Number of lags the estimator scans, which is also the length of each
    /// of its working buffers.
    pub open spec fn lags(self) -> nat {
        self.window_size + self.padding
    }

    /// The sample rate and the window size are positive, the padding is the
    /// derived one, and the sample rate and the buffer length are machine
    /// sizes.
    pub open spec fn valid(self) -> bool {
        &&& 0 < self.sample_rate <= usize::MAX
        &&& 0 < self.window_size
        &&& self.padding == self.window_size / 2
        &&& self.lags() <= usize::MAX
    }

    /// A frame of `frame_len` samples holds a whole analysis window.
    pub open spec fn accepts(self, frame_len: nat) -> bool {
        frame_len >= self.window_size
    }

    /// The error that answers a frame of `frame_len` samples that is not
    /// accepted.
    pub open spec fn refusal(self, frame_len: nat) -> PitchError {
        PitchError::InsufficientSamples {
            expected: self.window_size as usize,
            actual: frame_len as usize,
        }
    }

    /// The samples of `frame` that are analysed: its first `window_size`.
    pub open spec fn window<S>(self, frame: Seq<S>) -> Seq<S> {
        frame.subrange(0, self.window_size as int)
    }

    /// `estimate` may be run on the window of `frame` at this sample rate.
    pub open spec fn may_estimate<S, F, E>(self, frame: Seq<S>, estimate: E) -> bool
        where E: FnOnce(&[S], usize) -> Option<PitchEstimate<F>>
    {
        forall|samples: &[S]|
            samples@ == self.window(frame) ==> #[trigger] estimate.requires(
                (samples, self.sample_rate as usize),
            )
    }

    /// `pitch` is an answer of `estimate` for the window of `frame` and this
    /// sample rate.
    pub open spec fn is_estimate<S, F, E>(
        self,
        frame: Seq<S>,
        estimate: E,
        pitch: Option<PitchEstimate<F>>,
    ) -> bool
        where E: FnOnce(&[S], usize) -> Option<PitchEstimate<F>>
    {
        exists|samples: &[S]|
            samples@ == self.window(frame) && #[trigger] estimate.ensures(
                (samples, self.sample_rate as usize),
                pitch,
            )
    }

    /// `outcome` is a result of detecting the pitch of `frame` with
    /// `estimate`: the refusal of a frame that is too short, and otherwise an
    /// answer of `estimate` for the frame's window.
    pub open spec fn is_outcome<S, F, E>(
        self,
        frame: Seq<S>,
        estimate: E,
        outcome: Result<Option<PitchEstimate<F>>, PitchError>,
    ) -> bool
        where E: FnOnce(&[S], usize) -> Option<PitchEstimate<F>>
    {
        if self.accepts(frame.len()) {
            outcome matches Ok(pitch) && self.is_estimate(frame, estimate, pitch)
        } else {
            outcome == Err::<Option<PitchEstimate<F>>, PitchError>(self.refusal(frame.len()))
        }
    }
}

/// The answer of `estimate` is determined by the samples and the sample rate
/// it is given.
pub open spec fn is_function_of_samples<S, F, E>(estimate: E) -> bool
    where E: FnOnce(&[S], usize) -> Option<PitchEstimate<F>>
{
    forall|
        a: &[S],
        b: &[S],
        rate: usize,
        p: Option<PitchEstimate<F>>,
        q: Option<PitchEstimate<F>>,
    |
        a@ == b@ && #[trigger] estimate.ensures((a, rate), p) && #[trigger] estimate.ensures(
            (b, rate),
            q,
        ) ==> p == q
}

/// A frame shorter than the window is refused, whatever the estimator: the
/// outcome is the error that holds the window size and the frame's length,
/// both as they are.
pub proof fn lemma_short_frame_refused<S, F, E>(
    config: DetectorConfig,
    frame: Seq<S>,
    estimate: E,
    outcome: Result<Option<PitchEstimate<F>>, PitchError>,
)
    where E: FnOnce(&[S], usize) -> Option<PitchEstimate<F>>
    requires
        config.valid(),
        frame.len() < config.window_size,
        config.is_outcome(frame, estimate, outcome),
    ensures
        (outcome matches Err(PitchError::InsufficientSamples { expected, actual })
            && expected == config.window_size && actual == frame.len()),
{
}

/// Detection is repeatable: with an estimator whose answer is determined by
/// what it is given, any two detections on one frame give the same outcome.
/// Nothing but the configuration, the frame and the estimator enters an
/// outcome.
pub proof fn lemma_detection_repeatable<S, F, E>(
    config: DetectorConfig,
    frame: Seq<S>,
    estimate: E,
    first: Result<Option<PitchEstimate<F>>, PitchError>,
    second: Result<Option<PitchEstimate<F>>, PitchError>,
)
    where E: FnOnce(&[S], usize) -> Option<PitchEstimate<F>>
    requires
        config.valid(),
        is_function_of_samples::<S, F, E>(estimate),
        config.is_outcome(frame, estimate, first),
        config.is_outcome(frame, estimate, second),
    ensures
        first == second,
{
    if config.accepts(frame.len()) {
        let p = first->Ok_0;
        let q = second->Ok_0;
        let a = choose|samples: &[S]|
            samples@ == config.window(frame) && #[trigger] estimate.ensures(
                (samples, config.sample_rate as usize),
                p,
            );
        let b = choose|samples: &[S]|
            samples@ == config.window(frame) && #[trigger] estimate.ensures(
                (samples, config.sample_rate as usize),
                q,
            );
        assert(a@ == b@);
    }
}

/// Samples after the window do not enter an outcome: two accepted frames
/// with the same first `window_size` samples have the same outcomes.
pub proof fn lemma_only_the_window_matters<S, F, E>(
    config: DetectorConfig,
    frame: Seq<S>,
    other: Seq<S>,
    estimate: E,
    outcome: Result<Option<PitchEstimate<F>>, PitchError>,
)
    where E: FnOnce(&[S], usize) -> Option<PitchEstimate<F>>
    requires
        config.valid(),
        config.accepts(frame.len()),
        config.accepts(other.len()),
        forall|i: int| 0 <= i < config.window_size ==> frame[i] == other[i],
        config.is_outcome(frame, estimate, outcome),
    ensures
        config.is_outcome(other, estimate, outcome),
{
    assert(config.window(frame) =~= config.window(other));
}

} // verus!
