//! Samples in the accelerator's native number format.

use vstd::prelude::*;

verus! {

/// A signed fixed-point number with one sign bit and fifteen fractional
/// bits. It stands for `bits / 32768`, a value in `[-1, 1)`.
#[derive(Clone, Copy, Debug, PartialEq, Eq, Structural)]
pub struct Sample {
    bits: i16,
}

impl View for Sample {
    type V = int;

    /// The numerator of the sample over `32768`.
    closed spec fn view(&self) -> int {
        self.bits as int
    }
}

/// The sixteen-bit register word that carries numerator `n` in two's
/// complement.
pub open spec fn word_of(n: int) -> int {
    if n >= 0 {
        n
    } else {
        n + 0x1_0000
    }
}

/// The numerator carried by the register word `w`.
pub open spec fn numerator_of(w: int) -> int {
    if w < 0x8000 {
        w
    } else {
        w - 0x1_0000
    }
}

impl Sample {
    /// The word that carries the sample in the accelerator's data
    /// registers: its numerator in two's complement.
    pub closed spec fn word(self) -> u16 {
        self.bits as u16
    }

    /// The sample that the register word `w` carries.
    pub closed spec fn spec_from_word(w: u16) -> Sample {
        Sample { bits: w as i16 }
    }

    /// The sample whose numerator is `bits`.
    pub fn from_bits(bits: i16) -> (s: Sample)
        ensures
            s@ == bits,
    {
        Sample { bits }
    }

    /// The numerator of the sample.
    pub fn to_bits(self) -> (bits: i16)
        ensures
            bits == self@,
    {
        self.bits
    }

    /// The word written to the accelerator's data register for this sample.
    pub fn to_word(self) -> (w: u16)
        ensures
            w == self.word(),
            w == word_of(self@),
    {
        let bits: i16 = self.bits;
        assert(bits as u16 as int == if bits >= 0i16 {
            bits as int
        } else {
            bits + 0x1_0000
        }) by (bit_vector);
        bits as u16
    }

    /// The sample carried by a word read from the accelerator's data
    /// register.
    pub fn from_word(w: u16) -> (s: Sample)
        ensures
            s == Self::spec_from_word(w),
            s@ == numerator_of(w as int),
            s.word() == w,
    {
        assert(w as i16 as u16 == w) by (bit_vector);
        assert(w as i16 as int == if w < 0x8000u16 {
            w as int
        } else {
            w - 0x1_0000
        }) by (bit_vector);
        Sample { bits: w as i16 }
    }
}

/// Every sample's numerator fits sixteen signed bits.
pub proof fn lemma_sample_range(s: Sample)
    ensures
        -0x8000 <= s@ < 0x8000,
{
}

/// Two samples with the same numerator are the same sample.
pub proof fn lemma_sample_ext(s: Sample, t: Sample)
    requires
        s@ == t@,
    ensures
        s == t,
{
}

/// The register word of a sample is its numerator in two's complement.
pub proof fn lemma_word_value(s: Sample)
    ensures
        s.word() == word_of(s@),
{
    let bits = s.bits;
    assert(bits as u16 as int == if bits >= 0i16 {
        bits as int
    } else {
        bits + 0x1_0000
    }) by (bit_vector);
}

/// Encoding a sample as a register word and decoding the word gives the
/// sample back.
pub proof fn lemma_word_roundtrip(s: Sample)
    ensures
        numerator_of(s.word() as int) == s@,
{
    lemma_word_value(s);
}

/// The sample that a register word carries has the word's two's
/// complement value as its numerator, and encodes to the same word.
pub proof fn lemma_from_word_value(w: u16)
    ensures
        Sample::spec_from_word(w)@ == numerator_of(w as int),
        Sample::spec_from_word(w).word() == w,
{
    assert(w as i16 as int == if w < 0x8000u16 {
        w as int
    } else {
        w - 0x1_0000
    }) by (bit_vector);
    assert(w as i16 as u16 == w) by (bit_vector);
}

/// Decoding the register word of a sample gives the sample back.
pub proof fn lemma_from_word_of_word(s: Sample)
    ensures
        Sample::spec_from_word(s.word()) == s,
{
    let bits = s.bits;
    assert(bits as u16 as i16 == bits) by (bit_vector);
}

} // verus!
