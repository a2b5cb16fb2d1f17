//! Integer core of an audio signal-processing toolkit.
//!
//! Audio effects are built from two kinds of work: arithmetic on sample
//! amplitudes, and bookkeeping over buffers (how long a delay is in samples,
//! where a circular buffer is read and written, which input samples an
//! output sample is interpolated from, how raw PCM words are scaled). This
//! crate holds the bookkeeping. Every function in it works on integers and
//! on samples of an arbitrary copyable type, and is proved to satisfy its
//! contract for all inputs.

pub mod delay;
pub mod effects;
pub mod error;
pub mod pcm;
pub mod resample;
pub mod signal;
pub mod spectral;
pub mod timing;
