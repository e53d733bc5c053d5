use limbo_voice::errors::DictationError;
use limbo_voice::state::RecordingStateMachine;

#[test]
fn fresh_machine_is_idle() {
    let m = RecordingStateMachine::new();
    assert!(!m.is_recording());
    assert_eq!(m.status(), "Idle");
}

#[test]
fn start_enters_listening_and_emits_event() {
    let mut m = RecordingStateMachine::new();
    let ev = m.start().unwrap();
    assert!(ev.is_recording);
    assert_eq!(ev.status, "Listening...");
    assert!(m.is_recording());
    assert_eq!(m.status(), "Listening...");
}

#[test]
fn double_start_fails_with_already_recording_and_state_unchanged() {
    let mut m = RecordingStateMachine::new();
    m.start().unwrap();
    let err = m.start().unwrap_err();
    assert_eq!(err, DictationError::AlreadyRecording);
    assert!(m.is_recording());
    assert_eq!(m.status(), "Listening...");
}

#[test]
fn start_during_processing_fails_with_already_recording() {
    let mut m = RecordingStateMachine::new();
    m.start().unwrap();
    m.stop().unwrap();
    let err = m.start().unwrap_err();
    assert_eq!(err, DictationError::AlreadyRecording);
    assert_eq!(m.status(), "Processing...");
}

#[test]
fn stop_without_start_fails() {
    let mut m = RecordingStateMachine::new();
    let err = m.stop().unwrap_err();
    assert_eq!(err, DictationError::NotRecording);
    assert_eq!(m.status(), "Idle");
}

#[test]
fn stop_enters_processing_and_emits_event() {
    let mut m = RecordingStateMachine::new();
    m.start().unwrap();
    let ev = m.stop().unwrap();
    assert!(!ev.is_recording);
    assert_eq!(ev.status, "Processing...");
    assert!(!m.is_recording());
}

#[test]
fn resolve_success_completes_session() {
    let mut m = RecordingStateMachine::new();
    m.start().unwrap();
    m.stop().unwrap();
    let ev = m.resolve(&Ok("hello".to_string())).unwrap();
    assert!(!ev.is_recording);
    assert_eq!(ev.status, "Complete!");
    assert_eq!(m.status(), "Complete!");
}

#[test]
fn resolve_failure_enters_error_with_message() {
    let mut m = RecordingStateMachine::new();
    m.start().unwrap();
    m.stop().unwrap();
    let ev = m.resolve(&Err(DictationError::NoAudioCaptured)).unwrap();
    assert!(!ev.is_recording);
    assert_eq!(ev.status, "Error: No audio captured");
    assert_eq!(m.status(), "Error: No audio captured");
}

#[test]
fn resolve_outside_processing_fails() {
    let mut m = RecordingStateMachine::new();
    let err = m.resolve(&Ok("x".to_string())).unwrap_err();
    assert_eq!(err, DictationError::NotRecording);
    assert_eq!(m.status(), "Idle");
}

#[test]
fn start_recovers_from_error_state() {
    let mut m = RecordingStateMachine::new();
    m.start().unwrap();
    m.stop().unwrap();
    m.resolve(&Err(DictationError::NoSpeechDetected)).unwrap();
    let ev = m.start().unwrap();
    assert!(ev.is_recording);
    assert!(m.is_recording());
}

#[test]
fn start_again_after_complete_session() {
    let mut m = RecordingStateMachine::new();
    m.start().unwrap();
    m.stop().unwrap();
    m.resolve(&Ok("text".to_string())).unwrap();
    assert!(m.start().is_ok());
    assert!(m.is_recording());
}

// Recording is on exactly when the last transition that resolved was a
// start: exercised over a longer call sequence.
#[test]
fn recording_tracks_last_resolved_transition() {
    let mut m = RecordingStateMachine::new();
    assert!(!m.is_recording());
    let _ = m.stop(); // does not resolve
    assert!(!m.is_recording());
    m.start().unwrap(); // resolves
    assert!(m.is_recording());
    let _ = m.start(); // does not resolve
    assert!(m.is_recording());
    m.stop().unwrap(); // resolves
    assert!(!m.is_recording());
    let _ = m.stop(); // does not resolve
    assert!(!m.is_recording());
    m.resolve(&Ok("t".to_string())).unwrap(); // resolves, not a start
    assert!(!m.is_recording());
    m.start().unwrap();
    assert!(m.is_recording());
}

#[test]
fn error_messages_are_actionable() {
    assert_eq!(
        DictationError::NoInputDevice.message(),
        "No input device available"
    );
    assert_eq!(
        DictationError::HttpError(401, "Unauthorized".to_string()).message(),
        "Transcription request failed: Unauthorized"
    );
    assert_eq!(
        DictationError::Storage("disk full".to_string()).message(),
        "Storage error: disk full"
    );
    assert_eq!(
        DictationError::IoError("timeout".to_string()).message(),
        "Transcription transport error: timeout"
    );
    assert_eq!(
        DictationError::ModelNotFound("model at /x is gone".to_string()).message(),
        "model at /x is gone"
    );
}
