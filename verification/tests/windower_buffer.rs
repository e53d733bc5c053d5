use limbo_voice::buffer::{AudioBuffer, SAMPLE_RATE};
use limbo_voice::errors::DictationError;
use limbo_voice::orchestrator::{poll_stream, StreamStep};
use limbo_voice::windower::{batch_range, Windower, CHUNK_SAMPLES, CHUNK_SECONDS};

#[test]
fn chunk_constants_match_two_seconds_at_16khz() {
    assert_eq!(SAMPLE_RATE, 16000);
    assert_eq!(CHUNK_SECONDS, 2);
    assert_eq!(CHUNK_SAMPLES, 32000);
}

// Five seconds of audio at 16 kHz with two-second chunks: exactly two
// chunks, [0, 32000) and [32000, 64000); the trailing second stays.
#[test]
fn five_seconds_yield_exactly_two_chunks() {
    let mut w = Windower::new(CHUNK_SAMPLES);
    let len = 5 * SAMPLE_RATE;
    assert_eq!(w.next_chunk(len), Some((0, 32000)));
    assert_eq!(w.next_chunk(len), Some((32000, 64000)));
    assert_eq!(w.next_chunk(len), None);
}

#[test]
fn chunk_ranges_are_increasing_and_gapless() {
    let mut w = Windower::new(100);
    let mut prev_end = 0;
    for _ in 0..10 {
        let (s, e) = w.next_chunk(1000).unwrap();
        assert_eq!(s, prev_end);
        assert!(e > s);
        prev_end = e;
    }
    assert_eq!(w.next_chunk(1000), None);
}

#[test]
fn no_chunk_before_a_full_chunk_accumulates() {
    let mut w = Windower::new(CHUNK_SAMPLES);
    assert_eq!(w.next_chunk(0), None);
    assert_eq!(w.next_chunk(CHUNK_SAMPLES - 1), None);
    assert_eq!(w.next_chunk(CHUNK_SAMPLES), Some((0, CHUNK_SAMPLES)));
}

#[test]
fn batch_range_covers_whole_buffer() {
    assert_eq!(batch_range(48000), Ok((0, 48000)));
}

#[test]
fn batch_range_on_empty_buffer_is_no_audio_captured() {
    assert_eq!(batch_range(0), Err(DictationError::NoAudioCaptured));
}

#[test]
fn poll_stream_finishes_once_not_recording() {
    let mut w = Windower::new(CHUNK_SAMPLES);
    // A full chunk is available, but the session has stopped: nothing new
    // is dispatched.
    assert_eq!(poll_stream(&mut w, false, 64000), StreamStep::Finished);
    assert_eq!(w.next_start(), 0);
}

#[test]
fn poll_stream_waits_then_transcribes() {
    let mut w = Windower::new(CHUNK_SAMPLES);
    assert_eq!(poll_stream(&mut w, true, 1000), StreamStep::Wait);
    assert_eq!(
        poll_stream(&mut w, true, 40000),
        StreamStep::Transcribe(0, 32000)
    );
    assert_eq!(poll_stream(&mut w, true, 40000), StreamStep::Wait);
    assert_eq!(
        poll_stream(&mut w, true, 64000),
        StreamStep::Transcribe(32000, 64000)
    );
}

#[test]
fn buffer_appends_only_while_listening() {
    let mut b = AudioBuffer::new();
    b.accept_block(true, &[1, 2, 3]);
    assert_eq!(b.len(), 3);
    // The defensive race guard: blocks arriving while not listening are
    // dropped.
    b.accept_block(false, &[4, 5]);
    assert_eq!(b.len(), 3);
    b.accept_block(true, &[6]);
    assert_eq!(b.len(), 4);
    assert_eq!(b.extract(0, 4), vec![1, 2, 3, 6]);
}

#[test]
fn buffer_extract_takes_a_slice() {
    let mut b = AudioBuffer::new();
    b.accept_block(true, &[10, 20, 30, 40, 50]);
    assert_eq!(b.extract(1, 4), vec![20, 30, 40]);
    assert_eq!(b.extract(2, 2), Vec::<u32>::new());
}

#[test]
fn buffer_clear_empties_for_next_session() {
    let mut b = AudioBuffer::new();
    b.accept_block(true, &[1, 2]);
    b.clear();
    assert_eq!(b.len(), 0);
}
