//! Frequencies and thresholds as IEEE 754 single-precision bit patterns.
//!
//! Real numbers cross this library's boundary as the 32 bits of their
//! single-precision encoding: one sign bit, eight exponent bits, twenty-three
//! fraction bits. Everything decided here is decided on those bits.

use vstd::prelude::*;

verus! {

/// Encoding of `0.0`, the value reported when no pitch was found.
pub const NO_PITCH: u32 = 0;

/// Encoding of `5.0`: frames whose summed squared amplitude lies below it
/// are treated as silence by the estimator.
pub const POWER_THRESHOLD: u32 = 0x40A0_0000;

/// Encoding of `0.6`: the height a peak of the normalized square difference
/// function must exceed to be taken as the pitch period.
pub const CLARITY_THRESHOLD: u32 = 0x3F19_999A;

/// Encoding of positive infinity; every larger pattern with a clear sign bit
/// is a NaN.
pub const POSITIVE_INFINITY: u32 = 0x7F80_0000;

/// The patterns that encode a usable frequency: a positive, finite, non-zero
/// number.
pub open spec fn is_frequency(bits: u32) -> bool {
    0 < bits < POSITIVE_INFINITY
}

/// What is reported for an estimator outcome: the estimate itself when it
/// encodes a frequency, and the sentinel otherwise.
pub open spec fn reported(estimate: Option<u32>) -> u32 {
    match estimate {
        Some(bits) => if is_frequency(bits) {
            bits
        } else {
            NO_PITCH
        },
        None => NO_PITCH,
    }
}

/// Tells whether `bits` encodes a positive, finite, non-zero number.
pub fn is_positive_finite(bits: u32) -> (r: bool)
    ensures
        r == is_frequency(bits),
{
    0 < bits && bits < POSITIVE_INFINITY
}

/// Maps the estimator's outcome to the reported value. An absent estimate, and
/// one that is zero, negative, infinite or NaN, become the sentinel; any other
/// estimate is passed on bit for bit.
pub fn report(estimate: Option<u32>) -> (r: u32)
    ensures
        r == reported(estimate),
{
    match estimate {
        Some(bits) => {
            if is_positive_finite(bits) {
                bits
            } else {
                NO_PITCH
            }
        },
        None => NO_PITCH,
    }
}

/// A pattern encodes a frequency exactly when its sign bit is clear, its
/// exponent field is not all ones, and it is not zero.
pub proof fn lemma_frequency_fields(bits: u32)
    ensures
        is_frequency(bits) <==> (bits & 0x8000_0000 == 0 && (bits >> 23) & 0xFF != 0xFF && bits
            != 0),
{
    assert((0 < bits && bits < 0x7F80_0000u32) <==> (bits & 0x8000_0000 == 0 && (bits >> 23) & 0xFF
        != 0xFF && bits != 0)) by (bit_vector);
}

/// The reported value is either the sentinel or a frequency, never both: the
/// sentinel cannot be mistaken for a detected pitch, and no NaN or infinity
/// is ever reported.
pub proof fn lemma_reported_sentinel_or_frequency(estimate: Option<u32>)
    ensures
        reported(estimate) == NO_PITCH || is_frequency(reported(estimate)),
        !is_frequency(NO_PITCH),
        reported(estimate) != NO_PITCH ==> estimate == Some(reported(estimate)),
{
}

/// Both thresholds are themselves positive finite numbers, and the clarity
/// threshold lies below the encoding of `1.0`.
pub proof fn lemma_thresholds_are_numbers()
    ensures
        is_frequency(POWER_THRESHOLD),
        is_frequency(CLARITY_THRESHOLD),
        CLARITY_THRESHOLD < 0x3F80_0000,
{
}

} // verus!
