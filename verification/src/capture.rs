//! Capture-session decision rules.
//!
//! The microphone stream itself is device I/O and lives outside this
//! crate; what is decided here is whether a discovered input source is
//! acceptable, and in which shape the stream must run. Sample blocks the
//! stream delivers go through [`crate::buffer::AudioBuffer::accept_block`],
//! which drops them unless the session is listening.

use vstd::prelude::*;

use crate::errors::DictationError;

verus! {

/// What the pipeline reads of a discovered input source: the sample
/// format its default configuration would deliver.
#[derive(Debug, Clone, Copy, PartialEq, Eq)]
pub enum InputSampleFormat {
    /// 32-bit IEEE float PCM, the one format the pipeline accepts.
    FloatPcm32,
    /// Anything else the device might offer.
    Other,
}

/// The stream configuration a capture session must run with.
#[derive(Debug, Clone, Copy, PartialEq, Eq)]
pub struct CaptureConfig {
    /// Samples per second.
    pub sample_rate: u32,
    /// Interleaved channels.
    pub channels: u16,
}

/// The fixed capture shape of the pipeline: mono at 16 kHz.
pub fn capture_config() -> (c: CaptureConfig)
    ensures
        c.sample_rate == 16000,
        c.channels == 1,
{
    CaptureConfig { sample_rate: 16000, channels: 1 }
}

/// Accepts or refuses an input source: no device at all is
/// `NoInputDevice`, a device whose default format is not 32-bit float PCM
/// is `UnsupportedFormat`, and only a float-PCM device passes.
pub fn validate_input_source(source: Option<InputSampleFormat>) -> (r: Result<(), DictationError>)
    ensures
        r is Ok <==> (source matches Some(f) && f is FloatPcm32),
        source is None <==> r == Err::<(), _>(DictationError::NoInputDevice),
        (source matches Some(f) && !(f is FloatPcm32)) <==> r == Err::<(), _>(
            DictationError::UnsupportedFormat,
        ),
{
    match source {
        None => Err(DictationError::NoInputDevice),
        Some(InputSampleFormat::FloatPcm32) => Ok(()),
        Some(InputSampleFormat::Other) => Err(DictationError::UnsupportedFormat),
    }
}

} // verus!
