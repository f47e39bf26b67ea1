//! Core of a multi-device audio recorder: per-sample dynamic-range
//! compression, format sinks (WAV, raw PCM, FLAC), a bounded preview
//! buffer, the per-frame capture pipeline, and the recording-session
//! bookkeeping.
//!
//! Samples are fixed-point values: the real amplitude `1.0` is the
//! integer [`sample::SAMPLE_SCALE`]. Conversion between the audio
//! backend's floating-point frames and this representation is the
//! caller's concern; everything in this crate is integer arithmetic.

pub mod clock;
pub mod effect;
pub mod filename;
pub mod flac;
pub mod pipeline;
pub mod preview;
pub mod sample;
pub mod session;
pub mod settings;
pub mod sink;
pub mod wav;
