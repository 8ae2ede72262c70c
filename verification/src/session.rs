use vstd::prelude::*;

use crate::decode::{decode_frame, spec_decode_frame};
use crate::depth::StreamError;
use crate::render::{render_asks, render_line};

verus! {

/// The states of the receive loop.
#[derive(Debug, Clone, Copy, PartialEq, Eq)]
pub enum SessionState {
    /// The connection is being established.
    Connecting,
    /// Frames are received, decoded and rendered, one at a time.
    Streaming,
    /// A fatal error ended the loop; nothing recovers it.
    Terminated,
}

/// What the transport hands the loop at each step.
#[derive(Debug, PartialEq, Eq)]
pub enum SessionEvent {
    /// The connection was established.
    Connected,
    /// The connection could not be established.
    ConnectFailed,
    /// A text frame arrived, carrying this text.
    TextFrame(String),
    /// A non-text frame arrived where only text was expected.
    NonTextFrame,
    /// The connection was closed or reset while waiting for a frame.
    ConnectionLost,
}

/// One step's outcome: the next state, the report lines to emit in order,
/// and the fatal error, if any, to report before stopping.
#[derive(Debug)]
pub struct StepResult {
    pub next: SessionState,
    pub lines: Vec<String>,
    pub fault: Option<StreamError>,
}

/// Decide one step of the receive loop.  This function performs no I/O: the
/// caller connects, receives frames and prints lines, and hands each event
/// here.  A decoded text frame renders one line per ask level; any failure
/// is fatal and moves the loop to `Terminated`, rendering nothing.
pub fn session_step(state: SessionState, event: SessionEvent) -> (r: StepResult)
    ensures
        state is Connecting && event is Connected ==> r.next is Streaming && r.lines@.len() == 0
            && r.fault is None,
        state is Connecting && event is ConnectFailed ==> r.next is Terminated && r.lines@.len()
            == 0 && r.fault == Some(StreamError::ConnectionError),
        state is Connecting && !(event is Connected) && !(event is ConnectFailed) ==> r.next
            is Terminated && r.lines@.len() == 0 && r.fault is None,
        state is Streaming ==> (event matches SessionEvent::TextFrame(t) ==> (match
            spec_decode_frame(t@) {
            Ok(env) => r.next is Streaming && r.fault is None && r.lines@.len()
                == env.payload.asks.len() && (forall|i: int|
                0 <= i < r.lines@.len() ==> r.lines@[i]@ == render_line(
                    i as nat,
                    env.payload.asks[i].price,
                    env.payload.asks[i].size,
                )),
            Err(reason) => r.next is Terminated && r.lines@.len() == 0 && r.fault == Some(
                StreamError::DecodeError(reason),
            ),
        })),
        state is Streaming && event is NonTextFrame ==> r.next is Terminated && r.lines@.len()
            == 0 && r.fault == Some(StreamError::UnexpectedFrameKind),
        state is Streaming && event is ConnectionLost ==> r.next is Terminated && r.lines@.len()
            == 0 && r.fault == Some(StreamError::ConnectionError),
        state is Streaming && (event is Connected || event is ConnectFailed) ==> r.next
            is Terminated && r.lines@.len() == 0 && r.fault is None,
        state is Terminated ==> r.next is Terminated && r.lines@.len() == 0 && r.fault is None,
{
    match (state, event) {
        (SessionState::Connecting, SessionEvent::Connected) => StepResult {
            next: SessionState::Streaming,
            lines: Vec::new(),
            fault: None,
        },
        (SessionState::Connecting, SessionEvent::ConnectFailed) => StepResult {
            next: SessionState::Terminated,
            lines: Vec::new(),
            fault: Some(StreamError::ConnectionError),
        },
        (SessionState::Connecting, _) => StepResult {
            next: SessionState::Terminated,
            lines: Vec::new(),
            fault: None,
        },
        (SessionState::Streaming, SessionEvent::TextFrame(t)) => match decode_frame(t.as_str()) {
            Ok(env) => StepResult {
                next: SessionState::Streaming,
                lines: render_asks(&env.payload),
                fault: None,
            },
            Err(reason) => StepResult {
                next: SessionState::Terminated,
                lines: Vec::new(),
                fault: Some(StreamError::DecodeError(reason)),
            },
        },
        (SessionState::Streaming, SessionEvent::NonTextFrame) => StepResult {
            next: SessionState::Terminated,
            lines: Vec::new(),
            fault: Some(StreamError::UnexpectedFrameKind),
        },
        (SessionState::Streaming, SessionEvent::ConnectionLost) => StepResult {
            next: SessionState::Terminated,
            lines: Vec::new(),
            fault: Some(StreamError::ConnectionError),
        },
        (SessionState::Streaming, _) => StepResult {
            next: SessionState::Terminated,
            lines: Vec::new(),
            fault: None,
        },
        (SessionState::Terminated, _) => StepResult {
            next: SessionState::Terminated,
            lines: Vec::new(),
            fault: None,
        },
    }
}

} // verus!
