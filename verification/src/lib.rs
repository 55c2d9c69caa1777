//! The decisions of a windowed pitch detector, verified.
//!
//! A detector is configured once with a sample rate and a window size. For
//! every frame it decides whether the frame may be analysed, what the
//! estimator is run with, and what is reported for the estimator's outcome.
//! The numerical estimation itself is floating-point work and is done by the
//! caller between [`detector::WasmPitchDetector::accept_frame`] and
//! [`detector::WasmPitchDetector::detect_pitch`].

pub mod detector;
pub mod frequency;

pub use detector::{ConstructionError, EstimatorInput, LengthMismatch, WasmPitchDetector};
