use limbo_voice::backend::{
    classify_http_response, credential_gate, finalize_transcript, local_model_gate, model_path,
    transcription_params,
};
use limbo_voice::capture::{capture_config, validate_input_source, InputSampleFormat};
use limbo_voice::errors::DictationError;
use limbo_voice::text::{assemble_segments, trim_text, InjectionRequest};

#[test]
fn trim_removes_surrounding_whitespace_only() {
    assert_eq!(trim_text("  hello world \t\r\n"), "hello world");
    assert_eq!(trim_text("no-trim"), "no-trim");
    assert_eq!(trim_text(""), "");
    assert_eq!(trim_text(" \t\n\r"), "");
    assert_eq!(trim_text("a b"), "a b");
    assert_eq!(trim_text("  inner  space  "), "inner  space");
}

#[test]
fn trim_matches_std_trim_on_ascii_text() {
    let cases = [
        "",
        "   ",
        "word",
        "  word  ",
        "\t tabbed text \r\n",
        "inner  spaces kept",
        " \n mixed \t ",
    ];
    for s in cases {
        assert_eq!(trim_text(s), s.trim());
    }
}

#[test]
fn segments_join_with_spaces_and_trim() {
    let segs = vec![" Hello".to_string(), "there ".to_string(), "friend".to_string()];
    assert_eq!(assemble_segments(&segs), "Hello there  friend");
    assert_eq!(assemble_segments(&Vec::new()), "");
    assert_eq!(assemble_segments(&vec!["one".to_string()]), "one");
}

#[test]
fn injection_gate_refuses_blank_text() {
    assert!(InjectionRequest::new(String::new()).is_none());
    assert!(InjectionRequest::new("   ".to_string()).is_none());
    assert!(InjectionRequest::new("\t\r\n".to_string()).is_none());
}

#[test]
fn injection_gate_passes_real_text_unchanged() {
    let req = InjectionRequest::new("  Hello world ".to_string()).unwrap();
    assert_eq!(req.text(), "  Hello world ");
}

#[test]
fn model_path_is_resolved_beside_the_executable() {
    assert_eq!(
        model_path("/opt/app"),
        "/opt/app/resources/ggml-small.en.bin"
    );
}

// A missing model is a remediated, user-facing error that names the
// configured path.
#[test]
fn missing_model_is_reported_with_its_path() {
    let path = model_path("/opt/app");
    let err = local_model_gate(&path, false).unwrap_err();
    match err {
        DictationError::ModelNotFound(msg) => {
            assert!(msg.contains("/opt/app/resources/ggml-small.en.bin"));
            assert!(msg.starts_with("Whisper model not found at: "));
            assert!(msg.contains("download"));
        }
        other => panic!("expected ModelNotFound, got {:?}", other),
    }
}

#[test]
fn present_model_passes_the_gate() {
    assert!(local_model_gate("/somewhere/model.bin", true).is_ok());
}

#[test]
fn transcription_params_are_fixed() {
    let p = transcription_params();
    assert_eq!(p.language, "en");
    assert!(!p.translate);
    assert_eq!(p.greedy_best_of, 1);
}

#[test]
fn credential_gate_requires_a_configured_credential() {
    assert_eq!(
        credential_gate(None),
        Err(DictationError::CredentialMissing)
    );
    assert_eq!(
        credential_gate(Some("SECRET-REDACTED".to_string())),
        Ok("SECRET-REDACTED".to_string())
    );
}

// An unauthorized response surfaces the response body in the error.
#[test]
fn http_401_becomes_http_error_with_body() {
    let r = classify_http_response(401, "Invalid API key".to_string());
    assert_eq!(
        r,
        Err(DictationError::HttpError(401, "Invalid API key".to_string()))
    );
}

#[test]
fn http_success_yields_trimmed_body() {
    assert_eq!(
        classify_http_response(200, " hello there \n".to_string()),
        Ok("hello there".to_string())
    );
    assert_eq!(
        classify_http_response(299, "x".to_string()),
        Ok("x".to_string())
    );
    assert!(classify_http_response(300, "moved".to_string()).is_err());
    assert!(classify_http_response(500, "boom".to_string()).is_err());
}

#[test]
fn blank_transcripts_become_no_speech_detected() {
    assert_eq!(
        finalize_transcript("   \n".to_string()),
        Err(DictationError::NoSpeechDetected)
    );
    assert_eq!(
        finalize_transcript(String::new()),
        Err(DictationError::NoSpeechDetected)
    );
    assert_eq!(
        finalize_transcript(" real words ".to_string()),
        Ok("real words".to_string())
    );
}

#[test]
fn capture_shape_is_mono_16khz() {
    let c = capture_config();
    assert_eq!(c.sample_rate, 16000);
    assert_eq!(c.channels, 1);
}

#[test]
fn input_sources_are_validated() {
    assert_eq!(
        validate_input_source(None),
        Err(DictationError::NoInputDevice)
    );
    assert_eq!(
        validate_input_source(Some(InputSampleFormat::Other)),
        Err(DictationError::UnsupportedFormat)
    );
    assert!(validate_input_source(Some(InputSampleFormat::FloatPcm32)).is_ok());
}
