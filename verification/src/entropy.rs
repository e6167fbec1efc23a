//! Entropy samples and the anomaly test.
//!
//! A sample is a normalised Shannon entropy: a real number between zero and
//! one. It is held as the bit pattern of its IEEE-754 single-precision
//! value. Among the patterns of non-negative values the order of the
//! patterns as integers is the order of the values, zero is the pattern 0,
//! and no precision is lost on the way in or out.

use vstd::prelude::*;

verus! {

/// The bit pattern of one, the largest sample.
pub const ONE_BITS: u32 = 0x3F80_0000;

/// The bit pattern of the default anomaly threshold, nine tenths.
pub const DEFAULT_THRESHOLD_BITS: u32 = 0x3F66_6666;

/// One entropy measurement, between zero and one inclusive.
#[derive(Clone, Copy, Debug, PartialEq, Eq, Structural)]
pub struct EntropySample {
    bits: u32,
}

impl EntropySample {
    #[verifier::type_invariant]
    spec fn in_unit_interval(self) -> bool {
        self.bits <= ONE_BITS
    }

    /// The bit pattern of the sample.
    pub closed spec fn spec_bits(&self) -> u32 {
        self.bits
    }

    /// The sample with the given bit pattern, as a mathematical value.
    pub closed spec fn of_bits(bits: u32) -> EntropySample {
        EntropySample { bits }
    }

    /// A sample is its bit pattern and nothing more.
    pub proof fn lemma_bits(bits: u32, sample: EntropySample)
        ensures
            Self::of_bits(bits).bits() == bits,
            Self::of_bits(sample.bits()) == sample,
    {
    }

    /// The sample with the given bit pattern, if the pattern is that of a
    /// value between zero and one.
    pub fn from_bits(bits: u32) -> (r: Option<EntropySample>)
        ensures
            r is Some <==> bits <= ONE_BITS,
            r is Some ==> r->Some_0 == Self::of_bits(bits),
    {
        if bits <= ONE_BITS {
            Some(EntropySample { bits })
        } else {
            None
        }
    }

    /// The sample zero.
    pub fn zero() -> (sample: EntropySample)
        ensures
            sample == Self::of_bits(0),
    {
        EntropySample { bits: 0 }
    }

    /// The sample one.
    pub fn one() -> (sample: EntropySample)
        ensures
            sample == Self::of_bits(ONE_BITS),
    {
        EntropySample { bits: ONE_BITS }
    }

    /// The default anomaly threshold.
    pub fn default_threshold() -> (sample: EntropySample)
        ensures
            sample == Self::of_bits(DEFAULT_THRESHOLD_BITS),
    {
        EntropySample { bits: DEFAULT_THRESHOLD_BITS }
    }

    /// The bit pattern of the sample, never above that of one.
    #[verifier::when_used_as_spec(spec_bits)]
    pub fn bits(&self) -> (bits: u32)
        ensures
            bits == self.bits(),
            bits <= ONE_BITS,
    {
        proof {
            use_type_invariant(self);
        }
        self.bits
    }
}

/// A sample is anomalous when it lies strictly between zero and the
/// threshold. Zero itself is the mark of an empty or constant buffer and
/// says nothing.
pub open spec fn anomalous(sample: EntropySample, threshold: EntropySample) -> bool {
    0 < sample.bits() < threshold.bits()
}

/// Tells whether `sample` is anomalous under `threshold`.
pub fn is_anomalous(sample: EntropySample, threshold: EntropySample) -> (found: bool)
    ensures
        found == anomalous(sample, threshold),
{
    0 < sample.bits() && sample.bits() < threshold.bits()
}

} // verus!
