//! Session orchestration.
//!
//! Wires the state machine, the buffer, the windower and the gates into
//! the decisions a running session takes: what starting and stopping do,
//! what the streaming loop should do next, what becomes of a chunk's
//! recognition result, and how a batch session resolves. The surrounding
//! process performs the I/O each decision calls for (sleeping, running a
//! backend, typing) and feeds the outcome back in.

use vstd::arithmetic::div_mod::{lemma_div_decreases, lemma_fundamental_div_mod};
use vstd::prelude::*;
use vstd::string::StringExecFns;

use crate::buffer::AudioBuffer;
use crate::errors::DictationError;
use crate::state::{
    can_start, spec_status, RecordingStateMachine, SessionState, StateEvent,
};
use crate::text::{is_blank, trimmed, InjectionRequest};
use crate::windower::Windower;

verus! {

/// How a session transcribes: everything at once after stop, or chunk by
/// chunk while still listening.
#[derive(Debug, Clone, Copy, PartialEq, Eq)]
pub enum TranscriptionMode {
    Batch,
    Streaming,
}

/// Starts a session: the machine transitions to Listening and the buffer
/// of the previous session is cleared. A session already listening or
/// still processing refuses with `AlreadyRecording` and changes nothing.
pub fn begin_session(machine: &mut RecordingStateMachine, audio: &mut AudioBuffer) -> (r: Result<
    StateEvent,
    DictationError,
>)
    ensures
        r is Ok <==> can_start(old(machine)@),
        (r matches Ok(ev) ==> {
            &&& final(machine)@ is Listening
            &&& final(audio)@ == Seq::<u32>::empty()
            &&& ev.is_recording
            &&& ev.status@ == spec_status(SessionState::Listening)
        }),
        (r matches Err(e) ==> {
            &&& e == DictationError::AlreadyRecording
            &&& final(machine)@ == old(machine)@
            &&& final(audio)@ == old(audio)@
        }),
{
    match machine.start() {
        Ok(ev) => {
            audio.clear();
            Ok(ev)
        },
        Err(e) => Err(e),
    }
}

/// What the streaming loop should do next.
#[derive(Debug, Clone, Copy, PartialEq, Eq)]
pub enum StreamStep {
    /// The session has left Listening: dispatch nothing new and end the
    /// loop (work already in flight still completes).
    Finished,
    /// Not enough new samples yet: sleep one poll interval and ask again.
    Wait,
    /// A full chunk of new samples is ready: transcribe exactly this
    /// sample range.
    Transcribe(usize, usize),
}

/// Milliseconds the streaming loop sleeps between buffer checks.
pub const POLL_INTERVAL_MS: u64 = 500;

/// One decision of the streaming loop. While the session is recording,
/// emits the next chunk range as soon as a full chunk of unprocessed
/// samples exists; once the session stops recording, finishes without
/// dispatching anything new, whatever the buffer holds (a short tail is
/// discarded).
pub fn poll_stream(windower: &mut Windower, recording: bool, buffer_len: usize) -> (r: StreamStep)
    requires
        old(windower).wf(),
    ensures
        final(windower).wf(),
        final(windower).spec_chunk_samples() == old(windower).spec_chunk_samples(),
        !recording ==> r == StreamStep::Finished && *final(windower) == *old(windower),
        (recording ==> (r matches StreamStep::Transcribe(s, e) <==> old(windower).spec_next_start()
            + old(windower).spec_chunk_samples() <= buffer_len)),
        (r matches StreamStep::Transcribe(s, e) ==> {
            &&& recording
            &&& s == old(windower).spec_next_start()
            &&& e == s + old(windower).spec_chunk_samples()
            &&& e <= buffer_len
            &&& final(windower).spec_next_start() == e
            &&& final(windower).chunks_done() == old(windower).chunks_done() + 1
        }),
        r == StreamStep::Wait ==> *final(windower) == *old(windower),
{
    if !recording {
        return StreamStep::Finished;
    }
    match windower.next_chunk(buffer_len) {
        Some((s, e)) => StreamStep::Transcribe(s, e),
        None => StreamStep::Wait,
    }
}

/// What becomes of one streaming chunk's recognition result: blank text
/// and backend failures are dropped (a missed chunk must not end live
/// dictation), anything else becomes an injection request carrying the
/// recognized text unchanged.
pub fn handle_chunk_result(result: Result<String, DictationError>) -> (r: Option<InjectionRequest>)
    ensures
        (r matches Some(q) ==> (result matches Ok(t) && q.spec_text() == t@ && !is_blank(t@))),
        (result matches Ok(t) && !is_blank(t@) ==> r is Some),
        result is Err ==> r is None,
        (result matches Ok(t) && is_blank(t@) ==> r is None),
{
    match result {
        Ok(t) => InjectionRequest::new(t),
        Err(_) => None,
    }
}

/// How a batch session resolved.
#[derive(Debug)]
pub struct BatchResolution {
    /// The state event of the final transition, to surface to observers.
    pub event: StateEvent,
    /// The injection to perform, when there is a transcript to type.
    pub injection: Option<InjectionRequest>,
    /// The session's result: the trimmed transcript, or the failure that
    /// ended the session.
    pub outcome: Result<String, DictationError>,
}

/// Resolves a batch session from the backend's answer: blank text becomes
/// `NoSpeechDetected`, failures keep their error, and a real transcript
/// completes the session and is handed on for injection. The machine
/// always leaves Processing — to Complete on success, to Error otherwise.
/// Outside Processing nothing changes and `NotRecording` is reported.
pub fn finish_batch(
    machine: &mut RecordingStateMachine,
    backend_result: Result<String, DictationError>,
) -> (r: Result<BatchResolution, DictationError>)
    ensures
        r is Ok <==> old(machine)@ is Processing,
        (r matches Err(e) ==> e == DictationError::NotRecording && final(machine)@ == old(
            machine,
        )@),
        (r matches Ok(b) ==> {
            &&& !b.event.is_recording
            &&& b.event.status@ == spec_status(final(machine)@)
            &&& (backend_result matches Ok(t) ==> {
                &&& (!is_blank(t@) ==> {
                    &&& final(machine)@ is Complete
                    &&& (b.outcome matches Ok(out) && out@ == trimmed(t@))
                    &&& (b.injection matches Some(q) && q.spec_text() == trimmed(t@))
                })
                &&& (is_blank(t@) ==> {
                    &&& final(machine)@ is Error
                    &&& b.outcome == Err::<String, _>(DictationError::NoSpeechDetected)
                    &&& b.injection is None
                })
            })
            &&& (backend_result matches Err(e) ==> {
                &&& final(machine)@ is Error
                &&& b.outcome == Err::<String, _>(e)
                &&& b.injection is None
            })
        }),
{
    let ghost raw_result = backend_result;
    let outcome = match backend_result {
        Ok(t) => crate::backend::finalize_transcript(t),
        Err(e) => Err(e),
    };
    let event = match machine.resolve(&outcome) {
        Ok(ev) => ev,
        Err(e) => {
            return Err(e);
        },
    };
    let injection = match &outcome {
        Ok(t) => {
            proof {
                match raw_result {
                    Ok(raw) => if !is_blank(raw@) {
                        crate::text::lemma_trimmed_keeps_content(raw@);
                    },
                    Err(_) => {},
                }
            }
            InjectionRequest::new(t.clone())
        },
        Err(_) => None,
    };
    Ok(BatchResolution { event, injection, outcome })
}

/// The decimal digits of `n`, most significant first.
pub open spec fn dec_digits(n: nat) -> Seq<char>
    decreases n,
{
    if n < 10 {
        seq![digit_char(n)]
    } else {
        dec_digits(n / 10) + seq![digit_char(n % 10)]
    }
}

/// The character of one decimal digit.
pub open spec fn digit_char(d: nat) -> char {
    if d == 0 {
        '0'
    } else if d == 1 {
        '1'
    } else if d == 2 {
        '2'
    } else if d == 3 {
        '3'
    } else if d == 4 {
        '4'
    } else if d == 5 {
        '5'
    } else if d == 6 {
        '6'
    } else if d == 7 {
        '7'
    } else if d == 8 {
        '8'
    } else {
        '9'
    }
}

proof fn lemma_digit_char_injective(a: nat, b: nat)
    requires
        a < 10,
        b < 10,
        a != b,
    ensures
        digit_char(a) != digit_char(b),
{
}

proof fn lemma_dec_digits_nonempty(n: nat)
    ensures
        dec_digits(n).len() >= 1,
    decreases n,
{
    if n >= 10 {
        lemma_dec_digits_nonempty(n / 10);
    }
}

/// Distinct numbers have distinct decimal renderings.
pub proof fn lemma_dec_digits_injective(a: nat, b: nat)
    requires
        a != b,
    ensures
        dec_digits(a) != dec_digits(b),
    decreases a + b,
{
    if a < 10 && b < 10 {
        lemma_digit_char_injective(a, b);
        assert(dec_digits(a)[0] != dec_digits(b)[0]);
    } else if a < 10 && b >= 10 {
        lemma_dec_digits_nonempty(b / 10);
        assert(dec_digits(a).len() == 1);
        assert(dec_digits(b).len() >= 2);
    } else if a >= 10 && b < 10 {
        lemma_dec_digits_nonempty(a / 10);
        assert(dec_digits(b).len() == 1);
        assert(dec_digits(a).len() >= 2);
    } else {
        lemma_dec_digits_nonempty(a / 10);
        lemma_dec_digits_nonempty(b / 10);
        if a % 10 != b % 10 {
            lemma_digit_char_injective(a % 10, b % 10);
            if dec_digits(a) == dec_digits(b) {
                assert(dec_digits(a).last() == dec_digits(b).last());
                assert(false);
            }
        } else {
            if a / 10 == b / 10 {
                lemma_fundamental_div_mod(a as int, 10);
                lemma_fundamental_div_mod(b as int, 10);
                assert(false);
            }
            lemma_div_decreases(a as int, 10);
            lemma_div_decreases(b as int, 10);
            lemma_dec_digits_injective(a / 10, b / 10);
            if dec_digits(a) == dec_digits(b) {
                assert(dec_digits(a).drop_last() =~= dec_digits(a / 10));
                assert(dec_digits(b).drop_last() =~= dec_digits(b / 10));
                assert(false);
            }
        }
    }
}

/// Appends one decimal digit.
fn push_digit(out: &mut String, d: u64)
    requires
        d < 10,
    ensures
        final(out)@ == old(out)@ + seq![digit_char(d as nat)],
{
    if d == 0 {
        proof {
            reveal_strlit("0");
        }
        out.append("0");
        assert(out@ =~= old(out)@ + seq![digit_char(d as nat)]);
    } else if d == 1 {
        proof {
            reveal_strlit("1");
        }
        out.append("1");
        assert(out@ =~= old(out)@ + seq![digit_char(d as nat)]);
    } else if d == 2 {
        proof {
            reveal_strlit("2");
        }
        out.append("2");
        assert(out@ =~= old(out)@ + seq![digit_char(d as nat)]);
    } else if d == 3 {
        proof {
            reveal_strlit("3");
        }
        out.append("3");
        assert(out@ =~= old(out)@ + seq![digit_char(d as nat)]);
    } else if d == 4 {
        proof {
            reveal_strlit("4");
        }
        out.append("4");
        assert(out@ =~= old(out)@ + seq![digit_char(d as nat)]);
    } else if d == 5 {
        proof {
            reveal_strlit("5");
        }
        out.append("5");
        assert(out@ =~= old(out)@ + seq![digit_char(d as nat)]);
    } else if d == 6 {
        proof {
            reveal_strlit("6");
        }
        out.append("6");
        assert(out@ =~= old(out)@ + seq![digit_char(d as nat)]);
    } else if d == 7 {
        proof {
            reveal_strlit("7");
        }
        out.append("7");
        assert(out@ =~= old(out)@ + seq![digit_char(d as nat)]);
    } else if d == 8 {
        proof {
            reveal_strlit("8");
        }
        out.append("8");
        assert(out@ =~= old(out)@ + seq![digit_char(d as nat)]);
    } else {
        proof {
            reveal_strlit("9");
        }
        out.append("9");
        assert(out@ =~= old(out)@ + seq![digit_char(d as nat)]);
    }
}

/// Appends the decimal digits of `n`.
fn push_dec(out: &mut String, n: u64)
    ensures
        final(out)@ == old(out)@ + dec_digits(n as nat),
    decreases n,
{
    if n < 10 {
        push_digit(out, n);
    } else {
        push_dec(out, n / 10);
        push_digit(out, n % 10);
    }
}

/// The staging file name of the chunk that ends at sample `end_index`:
/// chunk ends strictly increase within a session, so each chunk gets its
/// own file.
pub fn chunk_file_name(end_index: u64) -> (r: String)
    ensures
        r@ == "limbo_chunk_"@ + dec_digits(end_index as nat) + ".wav"@,
{
    let mut name = "limbo_chunk_".to_owned();
    push_dec(&mut name, end_index);
    name.append(".wav");
    name
}

/// Staging files never collide: chunks ending at different offsets get
/// different file names, so concurrent in-flight chunks never share one.
pub proof fn lemma_chunk_file_names_unique(i: u64, j: u64)
    requires
        i != j,
    ensures
        "limbo_chunk_"@ + dec_digits(i as nat) + ".wav"@ != "limbo_chunk_"@ + dec_digits(
            j as nat,
        ) + ".wav"@,
{
    lemma_dec_digits_injective(i as nat, j as nat);
    let p = "limbo_chunk_"@;
    let s = ".wav"@;
    let x = dec_digits(i as nat);
    let y = dec_digits(j as nat);
    if p + x + s == p + y + s {
        assert((p + x + s).len() == (p + y + s).len());
        assert(x.len() == y.len());
        assert forall|k: int| 0 <= k < x.len() implies x[k] == y[k] by {
            assert((p + x + s)[p.len() + k] == x[k]);
            assert((p + y + s)[p.len() + k] == y[k]);
        }
        assert(x =~= y);
    }
}

} // verus!
