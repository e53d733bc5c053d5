//! Error taxonomy of the dictation pipeline.

use vstd::prelude::*;
use vstd::string::StringExecFns;

verus! {

/// Every failure the pipeline can report.
///
/// Device errors come from acquiring the microphone, state errors from
/// invalid transition requests, storage errors from the WAV staging layer,
/// backend errors from the speech-to-text step, empty-result errors from
/// sessions that produced nothing to type, and injection errors from the
/// OS input-simulation facility.
#[derive(Debug, Clone, PartialEq, Eq)]
pub enum DictationError {
    /// No audio input device is available.
    NoInputDevice,
    /// The input device cannot deliver 32-bit float PCM samples.
    UnsupportedFormat,
    /// `start` was requested while a session is already listening or
    /// still processing.
    AlreadyRecording,
    /// `stop` (or a resolution step) was requested outside the state
    /// that allows it.
    NotRecording,
    /// A staged WAV payload could not be written or read back.
    Storage(String),
    /// The local acoustic model file is absent; the payload is the full
    /// user-facing message, which names the configured path.
    ModelNotFound(String),
    /// The remote backend has no credential configured.
    CredentialMissing,
    /// The remote backend answered with a non-success HTTP status; the
    /// payload is the status code and the response body.
    HttpError(u16, String),
    /// The remote backend could not be reached.
    IoError(String),
    /// `stop` found no captured audio to transcribe.
    NoAudioCaptured,
    /// The backend returned only empty or whitespace text.
    NoSpeechDetected,
    /// The OS input-simulation facility could not be initialized.
    InjectionUnavailable,
}

/// The user-facing message of an error, as a sequence of characters.
pub open spec fn spec_message(e: DictationError) -> Seq<char> {
    match e {
        DictationError::NoInputDevice => "No input device available"@,
        DictationError::UnsupportedFormat => "Unsupported sample format"@,
        DictationError::AlreadyRecording => "Already recording"@,
        DictationError::NotRecording => "Not recording"@,
        DictationError::Storage(m) => "Storage error: "@ + m@,
        DictationError::ModelNotFound(m) => m@,
        DictationError::CredentialMissing => "No API credential configured"@,
        DictationError::HttpError(_, body) => "Transcription request failed: "@ + body@,
        DictationError::IoError(m) => "Transcription transport error: "@ + m@,
        DictationError::NoAudioCaptured => "No audio captured"@,
        DictationError::NoSpeechDetected => "No speech detected"@,
        DictationError::InjectionUnavailable => "Text injection unavailable"@,
    }
}

impl DictationError {
    /// Renders the user-facing message of this error.
    pub fn message(&self) -> (r: String)
        ensures
            r@ == spec_message(*self),
    {
        match self {
            DictationError::NoInputDevice => "No input device available".to_owned(),
            DictationError::UnsupportedFormat => "Unsupported sample format".to_owned(),
            DictationError::AlreadyRecording => "Already recording".to_owned(),
            DictationError::NotRecording => "Not recording".to_owned(),
            DictationError::Storage(m) => "Storage error: ".to_owned().concat(m.as_str()),
            DictationError::ModelNotFound(m) => m.clone(),
            DictationError::CredentialMissing => "No API credential configured".to_owned(),
            DictationError::HttpError(_, body) => {
                "Transcription request failed: ".to_owned().concat(body.as_str())
            },
            DictationError::IoError(m) => {
                "Transcription transport error: ".to_owned().concat(m.as_str())
            },
            DictationError::NoAudioCaptured => "No audio captured".to_owned(),
            DictationError::NoSpeechDetected => "No speech detected".to_owned(),
            DictationError::InjectionUnavailable => "Text injection unavailable".to_owned(),
        }
    }
}

} // verus!
