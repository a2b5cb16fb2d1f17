//! Scaling rules for decoded PCM words.
//!
//! A decoder hands over raw sample words together with the encoding and the
//! bit depth that the file declares. This module decides which combinations
//! can be turned into amplitudes, and for the integer ones gives the exact
//! fraction that a word stands for: a numerator and the full-scale value it
//! is measured against.

use crate::error::DspError;
use vstd::prelude::*;

verus! {

/// How a file encodes its samples.
#[derive(Clone, Copy, Debug, PartialEq, Eq, Structural)]
pub enum SampleFormat {
    /// Signed integers.
    Int,
    /// IEEE 754 binary floating point.
    Float,
}

/// A supported combination of encoding and bit depth.
#[derive(Clone, Copy, Debug, PartialEq, Eq, Structural)]
pub enum Encoding {
    /// 16-bit integers.
    Int16,
    /// 24-bit integers.
    Int24,
    /// 32-bit integers.
    Int32,
    /// 32-bit floating point: the words are amplitudes already.
    Float32,
}

/// The supported combination for a format and bit depth, if there is one.
pub open spec fn encoding_of(format: SampleFormat, bits_per_sample: u16) -> Option<Encoding> {
    match format {
        SampleFormat::Int => if bits_per_sample == 16 {
            Some(Encoding::Int16)
        } else if bits_per_sample == 24 {
            Some(Encoding::Int24)
        } else if bits_per_sample == 32 {
            Some(Encoding::Int32)
        } else {
            None
        },
        SampleFormat::Float => if bits_per_sample == 32 {
            Some(Encoding::Float32)
        } else {
            None
        },
    }
}

impl Encoding {
    /// The value that stands for an amplitude of one, for the integer
    /// encodings. Words of 24 bits are measured on the 16-bit scale, after
    /// their low byte has been dropped.
    pub open spec fn full_scale_spec(self) -> Option<int> {
        match self {
            Encoding::Int16 => Some(0x7fff),
            Encoding::Int24 => Some(0x7fff),
            Encoding::Int32 => Some(0x7fff_ffff),
            Encoding::Float32 => None,
        }
    }

    /// The numerator that a raw word contributes: the word itself, except
    /// that a 24-bit word loses its low byte, rounding down.
    pub open spec fn numerator_spec(self, raw: int) -> int {
        match self {
            Encoding::Int24 => raw / 256,
            _ => raw,
        }
    }

    /// The range of raw words that the encoding can hold.
    pub open spec fn holds(self, raw: int) -> bool {
        match self {
            Encoding::Int16 => -0x8000 <= raw <= 0x7fff,
            Encoding::Int24 => -0x80_0000 <= raw <= 0x7f_ffff,
            Encoding::Int32 => -0x8000_0000 <= raw <= 0x7fff_ffff,
            Encoding::Float32 => false,
        }
    }

    /// The value that stands for an amplitude of one, or `None` for
    /// floating point, whose words need no scaling.
    pub fn full_scale(self) -> (scale: Option<i32>)
        ensures
            scale is Some <==> self != Encoding::Float32,
            scale matches Some(s) ==> self.full_scale_spec() == Some(s as int),
            scale is None ==> self.full_scale_spec() is None,
    {
        match self {
            Encoding::Int16 => Some(0x7fff),
            Encoding::Int24 => Some(0x7fff),
            Encoding::Int32 => Some(0x7fff_ffff),
            Encoding::Float32 => None,
        }
    }

    /// The numerator that `raw` contributes to its amplitude.
    pub fn numerator(self, raw: i32) -> (n: i32)
        ensures
            n == self.numerator_spec(raw as int),
    {
        match self {
            Encoding::Int24 => {
                if raw >= 0 {
                    raw / 256
                } else {
                    let below: i32 = -(raw + 1);
                    -(below / 256) - 1
                }
            },
            _ => raw,
        }
    }
}

/// Decides how the words of a file are to be scaled.
///
/// Integers of 16, 24 and 32 bits and floating point of 32 bits are
/// supported; every other combination is rejected.
pub fn classify(format: SampleFormat, bits_per_sample: u16) -> (made: Result<Encoding, DspError>)
    ensures
        made is Ok <==> encoding_of(format, bits_per_sample) is Some,
        made matches Ok(encoding) ==> encoding_of(format, bits_per_sample) == Some(encoding),
        made matches Err(e) ==> e == DspError::UnsupportedFormat,
{
    match format {
        SampleFormat::Int => {
            if bits_per_sample == 16 {
                Ok(Encoding::Int16)
            } else if bits_per_sample == 24 {
                Ok(Encoding::Int24)
            } else if bits_per_sample == 32 {
                Ok(Encoding::Int32)
            } else {
                Err(DspError::UnsupportedFormat)
            }
        },
        SampleFormat::Float => {
            if bits_per_sample == 32 {
                Ok(Encoding::Float32)
            } else {
                Err(DspError::UnsupportedFormat)
            }
        },
    }
}

/// A word that its encoding can hold scales to an amplitude between minus
/// one and one, with the one exception that two's complement brings: the
/// most negative word lies one step below minus one.
pub proof fn lemma_amplitude_in_range(encoding: Encoding, raw: int)
    requires
        encoding.holds(raw),
    ensures
        encoding.full_scale_spec() matches Some(scale) && -scale - 1 <= encoding.numerator_spec(raw)
            <= scale,
{
}

/// Dropping the low byte of a 24-bit word keeps the order of the words.
pub proof fn lemma_numerator_keeps_order(encoding: Encoding, a: int, b: int)
    requires
        a <= b,
    ensures
        encoding.numerator_spec(a) <= encoding.numerator_spec(b),
{
    vstd::arithmetic::div_mod::lemma_div_is_ordered(a, b, 256);
}

} // verus!
