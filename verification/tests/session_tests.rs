use depth_stream::depth::{DecodeReason, StreamError};
use depth_stream::session::{SessionEvent, SessionState, session_step};

#[test]
fn connecting_then_connected_streams() {
    let r = session_step(SessionState::Connecting, SessionEvent::Connected);
    assert_eq!(r.next, SessionState::Streaming);
    assert_eq!(r.lines.len(), 0);
    assert_eq!(r.fault, None);
}

#[test]
fn connect_failure_is_fatal() {
    let r = session_step(SessionState::Connecting, SessionEvent::ConnectFailed);
    assert_eq!(r.next, SessionState::Terminated);
    assert_eq!(r.lines.len(), 0);
    assert_eq!(r.fault, Some(StreamError::ConnectionError));
}

#[test]
fn text_frame_renders_while_streaming() {
    let frame = r#"{"stream":"ethbtc@depth5@100ms","data":{"lastUpdateId":160,"bids":[["0.0531","10.5"]],"asks":[["0.0532","3.2"],["0.0533","1.0"]]}}"#;
    let r = session_step(SessionState::Streaming, SessionEvent::TextFrame(frame.to_string()));
    assert_eq!(r.next, SessionState::Streaming);
    assert_eq!(r.fault, None);
    assert_eq!(
        r.lines,
        vec![
            "0. ask: 0.0532, size: 3.2".to_string(),
            "1. ask: 0.0533, size: 1.0".to_string(),
        ]
    );
}

#[test]
fn empty_asks_frame_renders_no_lines_and_keeps_streaming() {
    let frame = r#"{"stream":"s","data":{"lastUpdateId":1,"bids":[],"asks":[]}}"#;
    let r = session_step(SessionState::Streaming, SessionEvent::TextFrame(frame.to_string()));
    assert_eq!(r.next, SessionState::Streaming);
    assert_eq!(r.fault, None);
    assert_eq!(r.lines.len(), 0);
}

#[test]
fn undecodable_frame_terminates_with_decode_error() {
    let r = session_step(
        SessionState::Streaming,
        SessionEvent::TextFrame("not json".to_string()),
    );
    assert_eq!(r.next, SessionState::Terminated);
    assert_eq!(r.lines.len(), 0);
    assert_eq!(r.fault, Some(StreamError::DecodeError(DecodeReason::NotJson)));
}

#[test]
fn malformed_frame_terminates_and_renders_nothing() {
    let frame = r#"{"data":{"lastUpdateId":1,"bids":[],"asks":[]}}"#;
    let r = session_step(SessionState::Streaming, SessionEvent::TextFrame(frame.to_string()));
    assert_eq!(r.next, SessionState::Terminated);
    assert_eq!(r.lines.len(), 0);
    assert_eq!(
        r.fault,
        Some(StreamError::DecodeError(DecodeReason::MissingStream))
    );
}

#[test]
fn non_text_frame_terminates() {
    let r = session_step(SessionState::Streaming, SessionEvent::NonTextFrame);
    assert_eq!(r.next, SessionState::Terminated);
    assert_eq!(r.lines.len(), 0);
    assert_eq!(r.fault, Some(StreamError::UnexpectedFrameKind));
}

#[test]
fn connection_loss_terminates() {
    let r = session_step(SessionState::Streaming, SessionEvent::ConnectionLost);
    assert_eq!(r.next, SessionState::Terminated);
    assert_eq!(r.lines.len(), 0);
    assert_eq!(r.fault, Some(StreamError::ConnectionError));
}

#[test]
fn terminated_state_stays_terminated() {
    let frame = r#"{"stream":"s","data":{"lastUpdateId":1,"bids":[],"asks":[["0.1","2"]]}}"#;
    let r = session_step(SessionState::Terminated, SessionEvent::TextFrame(frame.to_string()));
    assert_eq!(r.next, SessionState::Terminated);
    assert_eq!(r.lines.len(), 0);
    assert_eq!(r.fault, None);
}
