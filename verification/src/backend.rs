//! Speech-to-text backend decision rules.
//!
//! Model inference and the HTTP transport live outside this crate; what is
//! decided here is everything around them: where the local model must be,
//! the fixed decoding parameters, whether a credential is configured, what
//! an HTTP response means, and what becomes of a raw recognition result.

use vstd::prelude::*;
use vstd::string::{StrSliceExecFns, StringExecFns};

use crate::errors::DictationError;
use crate::text::{is_blank, trim_text, trimmed};

verus! {

/// Which backend a session transcribes with; a configuration input.
#[derive(Debug, Clone, Copy, PartialEq, Eq)]
pub enum BackendKind {
    /// The bundled on-device model.
    Local,
    /// The remote transcription endpoint.
    Remote,
}

/// The model file's location relative to the running executable.
pub open spec fn spec_model_path(exe_dir: Seq<char>) -> Seq<char> {
    exe_dir + "/resources/ggml-small.en.bin"@
}

/// The message a missing model is reported with: it names the configured
/// path and tells the user how to remedy the situation.
pub open spec fn model_missing_message(path: Seq<char>) -> Seq<char> {
    "Whisper model not found at: "@ + path
        + "\n\nThis build is missing the AI model. Please download Build #14 or later from GitHub Releases."@
}

/// Resolves the local model's path from the executable's directory.
pub fn model_path(exe_dir: &str) -> (r: String)
    ensures
        r@ == spec_model_path(exe_dir@),
{
    let mut p = exe_dir.to_owned();
    p.append("/resources/ggml-small.en.bin");
    p
}

/// Gate before loading the local model: given whether the file at
/// `path` exists, passes or reports `ModelNotFound` with a message that
/// names the path.
pub fn local_model_gate(path: &str, model_exists: bool) -> (r: Result<(), DictationError>)
    ensures
        r is Ok <==> model_exists,
        (r matches Err(e) ==> (e matches DictationError::ModelNotFound(m) && m@
            == model_missing_message(path@))),
{
    if model_exists {
        Ok(())
    } else {
        let mut m = "Whisper model not found at: ".to_owned();
        m.append(path);
        m.append(
            "\n\nThis build is missing the AI model. Please download Build #14 or later from GitHub Releases.",
        );
        Err(DictationError::ModelNotFound(m))
    }
}

/// The decoding parameters every local transcription runs with.
#[derive(Debug, Clone, PartialEq, Eq)]
pub struct DecodeParams {
    /// The fixed target language.
    pub language: String,
    /// Whether to translate instead of transcribe.
    pub translate: bool,
    /// Candidates kept by the greedy sampling strategy.
    pub greedy_best_of: u8,
}

/// Fixed decoding parameters: English, no translation, greedy single-best
/// decoding.
pub fn transcription_params() -> (p: DecodeParams)
    ensures
        p.language@ == "en"@,
        !p.translate,
        p.greedy_best_of == 1,
{
    DecodeParams { language: "en".to_owned(), translate: false, greedy_best_of: 1 }
}

/// Gate before any remote request: the configured credential, or
/// `CredentialMissing` when none is configured.
pub fn credential_gate(credential: Option<String>) -> (r: Result<String, DictationError>)
    ensures
        (credential matches Some(c) ==> r == Ok::<_, DictationError>(c)),
        credential is None ==> r == Err::<String, _>(DictationError::CredentialMissing),
{
    match credential {
        Some(c) => Ok(c),
        None => Err(DictationError::CredentialMissing),
    }
}

/// What a remote response means: a success status yields the trimmed
/// response body as the transcript, any other status is an `HttpError`
/// carrying the status and the full body.
pub fn classify_http_response(status: u16, body: String) -> (r: Result<String, DictationError>)
    ensures
        200 <= status < 300 ==> (r matches Ok(t) && t@ == trimmed(body@)),
        !(200 <= status < 300) ==> r == Err::<String, _>(DictationError::HttpError(status, body)),
{
    if 200 <= status && status < 300 {
        Ok(trim_text(body.as_str()))
    } else {
        Err(DictationError::HttpError(status, body))
    }
}

/// What a raw recognition result becomes: blank text (empty or
/// whitespace-only) is `NoSpeechDetected`, anything else is the trimmed
/// transcript.
pub fn finalize_transcript(text: String) -> (r: Result<String, DictationError>)
    ensures
        !is_blank(text@) ==> (r matches Ok(t) && t@ == trimmed(text@)),
        is_blank(text@) ==> r == Err::<String, _>(DictationError::NoSpeechDetected),
{
    let t = trim_text(text.as_str());
    if t.as_str().unicode_len() == 0 {
        Err(DictationError::NoSpeechDetected)
    } else {
        Ok(t)
    }
}

} // verus!
