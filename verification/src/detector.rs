//! The detector's configuration and its per-frame decisions.

use crate::frequency::{
    is_frequency, report, reported, CLARITY_THRESHOLD, NO_PITCH, POWER_THRESHOLD,
};
use vstd::prelude::*;

verus! {

/// Number of zero samples appended to a window of `window_size` samples
/// before autocorrelation.
pub open spec fn padding_of(window_size: nat) -> nat {
    window_size / 2
}

/// A detector as a mathematical value.
pub struct DetectorModel {
    /// Samples per second.
    pub sample_rate: nat,
    /// Samples per frame.
    pub window_size: nat,
    /// Zero samples appended to each frame.
    pub padding: nat,
}

/// Why a detector could not be constructed.
#[derive(Clone, Copy, Debug, PartialEq, Eq, Structural)]
pub enum ConstructionError {
    /// The sample rate was zero.
    ZeroSampleRate,
    /// The window size was zero.
    ZeroWindowSize,
    /// The window and its padding together do not fit in a `usize`.
    WindowTooLarge,
}

/// A frame whose length differs from the detector's window size.
#[derive(Clone, Copy, Debug, PartialEq, Eq, Structural)]
pub struct LengthMismatch {
    /// The detector's window size.
    pub expected: usize,
    /// The length of the frame that was offered.
    pub actual: usize,
}

/// What the estimator is run with for one accepted frame, besides the
/// samples themselves.
#[derive(Clone, Copy, Debug, PartialEq, Eq, Structural)]
pub struct EstimatorInput {
    /// Samples per second, the factor that turns a lag into a frequency.
    pub sample_rate: usize,
    /// Single-precision encoding of the power threshold.
    pub power_threshold: u32,
    /// Single-precision encoding of the clarity threshold.
    pub clarity_threshold: u32,
}

/// The configuration of one pitch detector, fixed at construction.
pub struct WasmPitchDetector {
    sample_rate: usize,
    fft_size: usize,
    fft_pad: usize,
}

impl DetectorModel {
    /// The model of a detector for `sample_rate` and `window_size`.
    pub open spec fn configured(sample_rate: nat, window_size: nat) -> DetectorModel {
        DetectorModel { sample_rate, window_size, padding: padding_of(window_size) }
    }

    /// Both rates are positive, the padding is half the window, and window
    /// and padding together fit in a `usize`.
    pub open spec fn valid(self) -> bool {
        &&& self.sample_rate > 0
        &&& self.window_size > 0
        &&& self.padding == padding_of(self.window_size)
        &&& self.window_size + self.padding <= usize::MAX
    }

    /// Length of each scratch buffer: the window followed by its padding.
    pub open spec fn scratch_len(self) -> nat {
        self.window_size + self.padding
    }

    /// The mismatch raised for a frame of `len` samples.
    pub open spec fn mismatch(self, len: nat) -> LengthMismatch {
        LengthMismatch { expected: self.window_size as usize, actual: len as usize }
    }

    /// What the estimator is run with.
    pub open spec fn estimator_input(self) -> EstimatorInput {
        EstimatorInput {
            sample_rate: self.sample_rate as usize,
            power_threshold: POWER_THRESHOLD,
            clarity_threshold: CLARITY_THRESHOLD,
        }
    }

    /// Acceptance of a frame of `len` samples: granted exactly when `len` is
    /// the window size.
    pub open spec fn accept(self, len: nat) -> Result<EstimatorInput, LengthMismatch> {
        if len == self.window_size {
            Ok(self.estimator_input())
        } else {
            Err(self.mismatch(len))
        }
    }

    /// The answer for a frame of `len` samples on which the estimator came
    /// back with `estimate`.
    pub open spec fn detect(self, len: nat, estimate: Option<u32>) -> Result<u32, LengthMismatch> {
        if len == self.window_size {
            Ok(reported(estimate))
        } else {
            Err(self.mismatch(len))
        }
    }
}

/// The outcome of construction from `sample_rate` and `window_size`: the
/// first of the three faults that applies, if any.
pub open spec fn construction_fault(sample_rate: nat, window_size: nat) -> Option<
    ConstructionError,
> {
    if sample_rate == 0 {
        Some(ConstructionError::ZeroSampleRate)
    } else if window_size == 0 {
        Some(ConstructionError::ZeroWindowSize)
    } else if window_size + padding_of(window_size) > usize::MAX {
        Some(ConstructionError::WindowTooLarge)
    } else {
        None
    }
}

impl View for WasmPitchDetector {
    type V = DetectorModel;

    closed spec fn view(&self) -> DetectorModel {
        DetectorModel {
            sample_rate: self.sample_rate as nat,
            window_size: self.fft_size as nat,
            padding: self.fft_pad as nat,
        }
    }
}

impl WasmPitchDetector {
    /// Holds of every detector: its model is valid.
    #[verifier::type_invariant]
    pub open spec fn wf(self) -> bool {
        self@.valid()
    }

    /// A detector for `sample_rate` samples per second and frames of
    /// `fft_size` samples, padded by half a window.
    pub fn new(sample_rate: usize, fft_size: usize) -> (detector: WasmPitchDetector)
        requires
            construction_fault(sample_rate as nat, fft_size as nat) is None,
        ensures
            detector.wf(),
            detector@ == DetectorModel::configured(sample_rate as nat, fft_size as nat),
    {
        let fft_pad: usize = fft_size / 2;
        WasmPitchDetector { sample_rate, fft_size, fft_pad }
    }

    /// Constructs a detector, or says why none can be constructed.
    pub fn try_new(sample_rate: usize, fft_size: usize) -> (r: Result<
        WasmPitchDetector,
        ConstructionError,
    >)
        ensures
            match construction_fault(sample_rate as nat, fft_size as nat) {
                Some(fault) => r == Err::<WasmPitchDetector, ConstructionError>(fault),
                None => r is Ok && r->Ok_0.wf() && r->Ok_0@ == DetectorModel::configured(
                    sample_rate as nat,
                    fft_size as nat,
                ),
            },
    {
        if sample_rate == 0 {
            Err(ConstructionError::ZeroSampleRate)
        } else if fft_size == 0 {
            Err(ConstructionError::ZeroWindowSize)
        } else if fft_size / 2 > usize::MAX - fft_size {
            Err(ConstructionError::WindowTooLarge)
        } else {
            Ok(WasmPitchDetector::new(sample_rate, fft_size))
        }
    }

    /// Samples per second.
    pub fn sample_rate(&self) -> (r: usize)
        ensures
            r == self@.sample_rate,
            r > 0,
    {
        proof {
            use_type_invariant(self);
        }
        self.sample_rate
    }

    /// Samples per frame.
    pub fn fft_size(&self) -> (r: usize)
        ensures
            r == self@.window_size,
            r > 0,
    {
        proof {
            use_type_invariant(self);
        }
        self.fft_size
    }

    /// Zero samples appended to each frame: half the window, rounded down.
    pub fn fft_pad(&self) -> (r: usize)
        ensures
            r == self@.padding,
            r == padding_of(self@.window_size),
    {
        proof {
            use_type_invariant(self);
        }
        self.fft_pad
    }

    /// Length of each scratch buffer.
    pub fn scratch_len(&self) -> (r: usize)
        ensures
            r == self@.scratch_len(),
            r == self@.window_size + padding_of(self@.window_size),
    {
        proof {
            use_type_invariant(self);
        }
        self.fft_size + self.fft_pad
    }

    /// Decides whether a frame of `len` samples may be analysed. A frame of
    /// exactly the window size is accepted, and the result says what the
    /// estimator is run with; any other length is refused with both lengths.
    pub fn accept_frame(&self, len: usize) -> (r: Result<EstimatorInput, LengthMismatch>)
        ensures
            r == self@.accept(len as nat),
    {
        if len == self.fft_size {
            Ok(
                EstimatorInput {
                    sample_rate: self.sample_rate,
                    power_threshold: POWER_THRESHOLD,
                    clarity_threshold: CLARITY_THRESHOLD,
                },
            )
        } else {
            Err(LengthMismatch { expected: self.fft_size, actual: len })
        }
    }

    /// The answer for a frame of `len` samples on which the estimator came
    /// back with `estimate`, the encoding of the frequency it found, if any.
    /// A frame of the wrong length is refused whatever the estimate; for an
    /// accepted frame the answer is the estimate when it encodes a positive
    /// finite frequency, and the no-pitch sentinel otherwise.
    pub fn detect_pitch(&self, len: usize, estimate: Option<u32>) -> (r: Result<
        u32,
        LengthMismatch,
    >)
        ensures
            r == self@.detect(len as nat, estimate),
    {
        if len == self.fft_size {
            Ok(report(estimate))
        } else {
            Err(LengthMismatch { expected: self.fft_size, actual: len })
        }
    }
}

/// A frame one sample short of the window, or one sample beyond it, is
/// refused, whatever the estimator would say of it.
pub proof fn lemma_off_by_one_refused(model: DetectorModel, estimate: Option<u32>)
    requires
        model.valid(),
    ensures
        model.accept((model.window_size - 1) as nat) is Err,
        model.accept(model.window_size + 1) is Err,
        model.detect((model.window_size - 1) as nat, estimate) is Err,
        model.detect(model.window_size + 1, estimate) is Err,
{
}

/// A frame is answered with a value exactly when it is accepted, and that is
/// exactly when its length is the window size.
pub proof fn lemma_answer_iff_accepted(model: DetectorModel, len: nat, estimate: Option<u32>)
    ensures
        model.detect(len, estimate) is Ok <==> model.accept(len) is Ok,
        model.accept(len) is Ok <==> len == model.window_size,
        model.detect(len, estimate) is Err ==> model.detect(len, estimate) == Err::<
            u32,
            LengthMismatch,
        >(model.mismatch(len)),
{
}

/// Two detectors configured alike are the same detector: they accept the same
/// frames with the same estimator input, and give the same answer to the same
/// frame length and estimate.
pub proof fn lemma_same_configuration_same_answer(
    a: DetectorModel,
    b: DetectorModel,
    len: nat,
    estimate: Option<u32>,
)
    requires
        a.valid(),
        b.valid(),
        a.sample_rate == b.sample_rate,
        a.window_size == b.window_size,
    ensures
        a == b,
        a.accept(len) == b.accept(len),
        a.detect(len, estimate) == b.detect(len, estimate),
{
}

/// An accepted frame on which the estimator found nothing is answered with
/// the sentinel, and the answer to an accepted frame is never anything but
/// the sentinel or a positive finite frequency.
pub proof fn lemma_accepted_answer(model: DetectorModel, estimate: Option<u32>)
    ensures
        model.detect(model.window_size, None) == Ok::<u32, LengthMismatch>(NO_PITCH),
        model.detect(model.window_size, estimate) is Ok,
        model.detect(model.window_size, estimate)->Ok_0 == NO_PITCH || is_frequency(
            model.detect(model.window_size, estimate)->Ok_0,
        ),
{
}

} // verus!
