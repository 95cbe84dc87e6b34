//! Framing for a pitch detector of the McLeod family.
//!
//! A [`WasmPitchDetector`] fixes the sample rate and the analysis window of a
//! detection session. For each incoming frame it decides whether the frame
//! can be analysed and exactly which samples the pitch estimator is run on:
//! a frame shorter than the window is refused with
//! [`PitchError::InsufficientSamples`], and of any other frame the first
//! `window_size` samples are analysed, never more and never fewer.
//!
//! The numeric estimate comes from an estimator that the caller supplies,
//! built for the detector's window size and padding. The crate is generic in
//! the sample type and in the number type of the estimate, and never reads a
//! sample's value.
//!
//! Contracts are stated over [`DetectorConfig`], the view of a detector.

pub mod config;
pub mod detector;
pub mod error;
pub mod estimate;

pub use config::DetectorConfig;
pub use detector::WasmPitchDetector;
pub use error::PitchError;
pub use estimate::PitchEstimate;
