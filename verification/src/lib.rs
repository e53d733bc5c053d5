//! Core of a push-to-talk dictation pipeline.
//!
//! Captured microphone audio is buffered, sliced into fixed-duration chunks,
//! staged as WAV payloads for a speech-to-text backend, and the recognized
//! text is handed to an OS-level text injector. A recording state machine
//! gates every step. This crate holds the verified logic of that pipeline:
//! the state machine, the append-only audio buffer, the chunking windower,
//! the WAV staging codec, the backend decision rules, the in-order release
//! of chunk transcripts, and the injection gate. Device I/O, model
//! inference, keystroke simulation and the GUI shell live outside, and
//! talk to this crate through plain values.

pub mod backend;
pub mod buffer;
pub mod capture;
pub mod errors;
pub mod orchestrator;
pub mod sequencer;
pub mod state;
pub mod text;
pub mod wav;
pub mod windower;

pub use errors::DictationError;
