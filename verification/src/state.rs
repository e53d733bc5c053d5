//! Recording state machine.
//!
//! One session runs Idle → Listening → Processing → Complete (or Error).
//! `start` succeeds only from Idle, Complete or Error; `stop` only from
//! Listening; `resolve` only from Processing. Every transition hands back a
//! [`StateEvent`] that the caller must surface before doing anything else,
//! so observers always see the transition that gated the work that follows.

use vstd::prelude::*;
use vstd::string::StringExecFns;

use crate::errors::{spec_message, DictationError};

verus! {

/// Abstract session state. The error variant carries the user-facing
/// message of the failure that ended the session.
pub enum SessionState {
    Idle,
    Listening,
    Processing,
    Complete,
    Error(Seq<char>),
}

/// `start` may resolve exactly in these states: a fresh process, a finished
/// session, or a failed session (an error ends the session, not the process).
pub open spec fn can_start(s: SessionState) -> bool {
    s is Idle || s is Complete || s is Error
}

/// The status line observers see for a given state.
pub open spec fn spec_status(s: SessionState) -> Seq<char> {
    match s {
        SessionState::Idle => "Idle"@,
        SessionState::Listening => "Listening..."@,
        SessionState::Processing => "Processing..."@,
        SessionState::Complete => "Complete!"@,
        SessionState::Error(m) => "Error: "@ + m,
    }
}

/// A transition request. `Resolve` carries whether the pipeline succeeded
/// and, if not, the message of the failure.
pub enum SessionOp {
    Start,
    Stop,
    Resolve(bool, Seq<char>),
}

/// Whether a transition request resolves (succeeds) in a given state.
pub open spec fn op_enabled(s: SessionState, op: SessionOp) -> bool {
    match op {
        SessionOp::Start => can_start(s),
        SessionOp::Stop => s is Listening,
        SessionOp::Resolve(_, _) => s is Processing,
    }
}

/// The state after a transition request: the new state when the request
/// resolves, the old state unchanged when it fails.
pub open spec fn op_step(s: SessionState, op: SessionOp) -> SessionState {
    if op_enabled(s, op) {
        match op {
            SessionOp::Start => SessionState::Listening,
            SessionOp::Stop => SessionState::Processing,
            SessionOp::Resolve(ok, msg) => if ok {
                SessionState::Complete
            } else {
                SessionState::Error(msg)
            },
        }
    } else {
        s
    }
}

/// The state after a whole sequence of transition requests.
pub open spec fn run_ops(s: SessionState, ops: Seq<SessionOp>) -> SessionState
    decreases ops.len(),
{
    if ops.len() == 0 {
        s
    } else {
        op_step(run_ops(s, ops.drop_last()), ops.last())
    }
}

/// The last request in the sequence that resolved, if any.
pub open spec fn last_resolved(s: SessionState, ops: Seq<SessionOp>) -> Option<SessionOp>
    decreases ops.len(),
{
    if ops.len() == 0 {
        None
    } else if op_enabled(run_ops(s, ops.drop_last()), ops.last()) {
        Some(ops.last())
    } else {
        last_resolved(s, ops.drop_last())
    }
}

/// For every sequence of transition requests run from a non-listening
/// initial state, the machine is recording afterwards iff the last request
/// that resolved was `start` — a `stop` (or anything else) resolving after
/// it would have taken the machine out of Listening.
pub proof fn lemma_recording_iff_last_resolved_start(s0: SessionState, ops: Seq<SessionOp>)
    requires
        !(s0 is Listening),
    ensures
        run_ops(s0, ops) is Listening <==> last_resolved(s0, ops) == Some(SessionOp::Start),
    decreases ops.len(),
{
    if ops.len() > 0 {
        lemma_recording_iff_last_resolved_start(s0, ops.drop_last());
        let prev = run_ops(s0, ops.drop_last());
        let op = ops.last();
        if op_enabled(prev, op) {
            match op {
                SessionOp::Start => {},
                SessionOp::Stop => {},
                SessionOp::Resolve(_, _) => {},
            }
        }
    }
}

/// A state event, emitted to observers on every transition.
#[derive(Debug, Clone, PartialEq, Eq)]
pub struct StateEvent {
    /// Whether the machine is recording after the transition.
    pub is_recording: bool,
    /// The human-readable status after the transition.
    pub status: String,
}

/// Concrete session state, with the error message as a string.
#[derive(Debug, Clone, PartialEq, Eq)]
pub enum RecordingState {
    Idle,
    Listening,
    Processing,
    Complete,
    Error(String),
}

impl View for RecordingState {
    type V = SessionState;

    open spec fn view(&self) -> SessionState {
        match self {
            RecordingState::Idle => SessionState::Idle,
            RecordingState::Listening => SessionState::Listening,
            RecordingState::Processing => SessionState::Processing,
            RecordingState::Complete => SessionState::Complete,
            RecordingState::Error(m) => SessionState::Error(m@),
        }
    }
}

/// The state machine that gates every component of the pipeline.
pub struct RecordingStateMachine {
    state: RecordingState,
}

impl View for RecordingStateMachine {
    type V = SessionState;

    closed spec fn view(&self) -> SessionState {
        self.state@
    }
}

/// The transition request that `resolve` performs for a given pipeline
/// outcome.
pub open spec fn resolve_op(outcome: Result<String, DictationError>) -> SessionOp {
    match outcome {
        Ok(_) => SessionOp::Resolve(true, Seq::empty()),
        Err(e) => SessionOp::Resolve(false, spec_message(e)),
    }
}

impl RecordingStateMachine {
    /// A fresh machine, idle.
    pub fn new() -> (m: Self)
        ensures
            m@ is Idle,
    {
        RecordingStateMachine { state: RecordingState::Idle }
    }

    /// Whether a session is currently listening for audio.
    pub fn is_recording(&self) -> (r: bool)
        ensures
            r == (self@ is Listening),
    {
        match &self.state {
            RecordingState::Listening => true,
            _ => false,
        }
    }

    /// The current status line.
    pub fn status(&self) -> (r: String)
        ensures
            r@ == spec_status(self@),
    {
        match &self.state {
            RecordingState::Idle => "Idle".to_owned(),
            RecordingState::Listening => "Listening...".to_owned(),
            RecordingState::Processing => "Processing...".to_owned(),
            RecordingState::Complete => "Complete!".to_owned(),
            RecordingState::Error(m) => "Error: ".to_owned().concat(m.as_str()),
        }
    }

    /// The event observers should see for the current state.
    fn current_event(&self) -> (ev: StateEvent)
        ensures
            ev.is_recording == (self@ is Listening),
            ev.status@ == spec_status(self@),
    {
        StateEvent { is_recording: self.is_recording(), status: self.status() }
    }

    /// Requests the transition to Listening. Succeeds exactly from Idle,
    /// Complete or Error; fails with `AlreadyRecording` otherwise and
    /// leaves the state unchanged.
    pub fn start(&mut self) -> (r: Result<StateEvent, DictationError>)
        ensures
            final(self)@ == op_step(old(self)@, SessionOp::Start),
            r is Ok <==> can_start(old(self)@),
            (r matches Ok(ev) ==> ev.is_recording && ev.status@ == spec_status(
                SessionState::Listening,
            )),
            (r matches Err(e) ==> e == DictationError::AlreadyRecording && final(self)@ == old(
                self,
            )@),
    {
        match &self.state {
            RecordingState::Listening | RecordingState::Processing => {
                Err(DictationError::AlreadyRecording)
            },
            _ => {
                self.state = RecordingState::Listening;
                Ok(self.current_event())
            },
        }
    }

    /// Requests the transition to Processing. Succeeds exactly from
    /// Listening; fails with `NotRecording` otherwise and leaves the state
    /// unchanged.
    pub fn stop(&mut self) -> (r: Result<StateEvent, DictationError>)
        ensures
            final(self)@ == op_step(old(self)@, SessionOp::Stop),
            r is Ok <==> old(self)@ is Listening,
            (r matches Ok(ev) ==> !ev.is_recording && ev.status@ == spec_status(
                SessionState::Processing,
            )),
            (r matches Err(e) ==> e == DictationError::NotRecording && final(self)@ == old(self)@),
    {
        match &self.state {
            RecordingState::Listening => {
                self.state = RecordingState::Processing;
                Ok(self.current_event())
            },
            _ => Err(DictationError::NotRecording),
        }
    }

    /// Resolves the Processing state with the outcome of the final
    /// pipeline step: Complete on success, Error (carrying the failure's
    /// message) otherwise. Succeeds exactly from Processing, so no path
    /// can leave the machine stuck there; fails with `NotRecording`
    /// elsewhere and leaves the state unchanged.
    pub fn resolve(&mut self, outcome: &Result<String, DictationError>) -> (r: Result<
        StateEvent,
        DictationError,
    >)
        ensures
            final(self)@ == op_step(old(self)@, resolve_op(*outcome)),
            r is Ok <==> old(self)@ is Processing,
            (r matches Ok(ev) ==> !ev.is_recording && ev.status@ == spec_status(final(self)@)),
            (r matches Err(e) ==> e == DictationError::NotRecording && final(self)@ == old(self)@),
    {
        match &self.state {
            RecordingState::Processing => {
                match outcome {
                    Ok(_) => {
                        self.state = RecordingState::Complete;
                    },
                    Err(e) => {
                        self.state = RecordingState::Error(e.message());
                    },
                }
                Ok(self.current_event())
            },
            _ => Err(DictationError::NotRecording),
        }
    }
}

} // verus!
