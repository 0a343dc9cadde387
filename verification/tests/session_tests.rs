use gateway_client::codec::{Envelope, EnvelopePayload};
use gateway_client::session::{
    ConnectionState, Session, SessionAction, SessionConfig, SessionEvent, TransportError,
};

fn cfg() -> SessionConfig {
    SessionConfig { staleness_window_ms: 60_000, max_reconnect_attempts: None }
}

fn steady_session(last_sequence: Option<u64>, session_id: Option<&str>) -> Session {
    Session {
        session_id: session_id.map(String::from),
        last_sequence,
        heartbeat_interval_ms: 45_000,
        state: ConnectionState::Steady,
        disconnected_at: None,
        reconnect_attempts: 0,
    }
}

fn dispatch_envelope(seq: u64, name: &str) -> Envelope {
    Envelope {
        opcode: 0,
        sequence: Some(seq),
        event_name: Some(String::from(name)),
        payload: EnvelopePayload::Dispatch { payload_json: String::from("{}") },
    }
}

fn hello_envelope(interval: u64) -> Envelope {
    Envelope {
        opcode: 10,
        sequence: None,
        event_name: None,
        payload: EnvelopePayload::Hello { heartbeat_interval_ms: interval },
    }
}

#[test]
fn increasing_dispatches_leave_last_sequence_at_maximum() {
    let mut s = steady_session(None, None);
    for seq in [1u64, 5, 9] {
        s.step(SessionEvent::EnvelopeDecoded(dispatch_envelope(seq, "E")), 0, &cfg());
    }
    assert_eq!(s.last_sequence, Some(9));
    assert_eq!(s.state, ConnectionState::Steady);
}

#[test]
fn out_of_order_dispatch_is_accepted_and_noted() {
    let mut s = steady_session(Some(5), None);
    let actions = s.step(SessionEvent::EnvelopeDecoded(dispatch_envelope(3, "E")), 0, &cfg());
    assert_eq!(s.last_sequence, Some(3));
    assert!(matches!(actions[0], SessionAction::NoteAnomaly { sequence: 3 }));
    assert!(matches!(actions[1], SessionAction::Dispatch(_)));
}

#[test]
fn dispatch_reaches_the_sink_in_order() {
    let mut s = steady_session(None, None);
    let actions = s.step(SessionEvent::EnvelopeDecoded(dispatch_envelope(8, "EV")), 0, &cfg());
    assert_eq!(actions.len(), 1);
    match &actions[0] {
        SessionAction::Dispatch(ev) => {
            assert_eq!(ev.sequence, 8);
            assert_eq!(ev.name.as_deref(), Some("EV"));
            assert_eq!(ev.payload_json, "{}");
        }
        _ => panic!("expected a dispatch action"),
    }
}

#[test]
fn resume_within_staleness_window_carries_last_sequence() {
    let mut s = steady_session(Some(42), Some("sid-1"));
    // transport fails at t=1000
    let actions =
        s.step(SessionEvent::TransportFailed(TransportError::ConnectionReset), 1_000, &cfg());
    assert_eq!(s.state, ConnectionState::Reconnecting);
    assert_eq!(s.disconnected_at, Some(1_000));
    assert!(matches!(actions[2], SessionAction::WaitBackoff { attempt: 1 }));
    // backoff elapses within the window
    let actions = s.step(SessionEvent::BackoffElapsed, 2_500, &cfg());
    assert_eq!(s.state, ConnectionState::Connecting);
    assert!(matches!(actions[0], SessionAction::Connect));
    s.step(SessionEvent::ConnectSucceeded, 2_600, &cfg());
    // the handshake reply is a resume carrying last_sequence = 42
    let actions = s.step(SessionEvent::EnvelopeDecoded(hello_envelope(45_000)), 2_700, &cfg());
    assert!(matches!(actions[0], SessionAction::StartScheduler { interval_ms: 45_000 }));
    match &actions[1] {
        SessionAction::SendResume { session_id, last_sequence } => {
            assert_eq!(session_id, "sid-1");
            assert_eq!(*last_sequence, 42);
        }
        _ => panic!("expected a resume"),
    }
    assert_eq!(s.state, ConnectionState::Steady);
}

#[test]
fn reconnect_after_staleness_window_is_a_fresh_handshake() {
    let mut s = steady_session(Some(42), Some("sid-1"));
    s.step(SessionEvent::TransportFailed(TransportError::ConnectionReset), 1_000, &cfg());
    // backoff elapses long after the 60 s window
    s.step(SessionEvent::BackoffElapsed, 120_000, &cfg());
    assert!(s.session_id.is_none());
    assert!(s.last_sequence.is_none());
    s.step(SessionEvent::ConnectSucceeded, 120_100, &cfg());
    let actions = s.step(SessionEvent::EnvelopeDecoded(hello_envelope(45_000)), 120_200, &cfg());
    assert!(matches!(actions[1], SessionAction::SendIdentify));
}

#[test]
fn reconnect_at_exactly_the_window_is_a_fresh_handshake() {
    // spec: resumed only when disconnected for less than the window
    let mut s = steady_session(Some(42), Some("sid-1"));
    s.step(SessionEvent::TransportFailed(TransportError::ConnectionReset), 1_000, &cfg());
    // elapsed == staleness_window_ms exactly
    s.step(SessionEvent::BackoffElapsed, 61_000, &cfg());
    assert!(s.session_id.is_none());
    assert!(s.last_sequence.is_none());
    // one tick earlier the session would still resume
    let mut s2 = steady_session(Some(42), Some("sid-1"));
    s2.step(SessionEvent::TransportFailed(TransportError::ConnectionReset), 1_000, &cfg());
    s2.step(SessionEvent::BackoffElapsed, 60_999, &cfg());
    assert_eq!(s2.last_sequence, Some(42));
}

#[test]
fn two_missed_acks_transition_once_third_changes_nothing() {
    let mut s = steady_session(Some(1), Some("sid"));
    let a1 = s.step(SessionEvent::ZombieDetected, 1_000, &cfg());
    assert_eq!(s.state, ConnectionState::AwaitingHeartbeatAck);
    assert!(a1.is_empty());
    let a2 = s.step(SessionEvent::ZombieDetected, 2_000, &cfg());
    assert_eq!(s.state, ConnectionState::Reconnecting);
    assert!(!a2.is_empty());
    let state_before = s.state;
    let a3 = s.step(SessionEvent::ZombieDetected, 3_000, &cfg());
    assert_eq!(s.state, state_before);
    assert!(a3.is_empty());
}

#[test]
fn ack_while_awaiting_settles_back_to_steady() {
    let mut s = steady_session(Some(1), None);
    s.step(SessionEvent::ZombieDetected, 1_000, &cfg());
    assert_eq!(s.state, ConnectionState::AwaitingHeartbeatAck);
    let ack = Envelope {
        opcode: 11,
        sequence: None,
        event_name: None,
        payload: EnvelopePayload::HeartbeatAck,
    };
    let actions = s.step(SessionEvent::EnvelopeDecoded(ack), 2_000, &cfg());
    assert_eq!(s.state, ConnectionState::Steady);
    assert!(matches!(actions[0], SessionAction::MarkHeartbeatAcked));
}

#[test]
fn shutdown_during_backoff_goes_straight_to_closed() {
    let mut s = steady_session(Some(1), None);
    s.step(SessionEvent::TransportFailed(TransportError::Timeout), 1_000, &cfg());
    assert_eq!(s.state, ConnectionState::Reconnecting);
    let actions = s.step(SessionEvent::Shutdown, 1_500, &cfg());
    assert_eq!(s.state, ConnectionState::Closed);
    assert_eq!(actions.len(), 2);
    assert!(matches!(actions[0], SessionAction::StopScheduler));
    assert!(matches!(actions[1], SessionAction::CloseTransport));
    // closed is terminal: nothing further happens
    let after = s.step(SessionEvent::BackoffElapsed, 2_000, &cfg());
    assert!(after.is_empty());
    assert_eq!(s.state, ConnectionState::Closed);
}

#[test]
fn refused_resume_clears_identity_and_re_identifies() {
    let mut s = steady_session(Some(42), Some("sid-1"));
    let rejected = Envelope {
        opcode: 9,
        sequence: None,
        event_name: None,
        payload: EnvelopePayload::ResumeRejected,
    };
    let actions = s.step(SessionEvent::EnvelopeDecoded(rejected), 1_000, &cfg());
    assert!(s.session_id.is_none());
    assert!(s.last_sequence.is_none());
    assert!(matches!(actions[0], SessionAction::SendIdentify));
    assert_eq!(s.state, ConnectionState::Steady);
}

#[test]
fn decode_failure_in_steady_does_not_tear_down() {
    let mut s = steady_session(Some(1), None);
    let actions = s.step(
        SessionEvent::DecodeFailed(gateway_client::codec::DecodeError::UnknownOpcode(255)),
        1_000,
        &cfg(),
    );
    assert_eq!(s.state, ConnectionState::Steady);
    assert!(actions.is_empty());
}

#[test]
fn decode_failure_during_handshake_reconnects() {
    let mut s = Session::new();
    s.step(SessionEvent::ConnectSucceeded, 0, &cfg());
    assert_eq!(s.state, ConnectionState::AwaitingHandshake);
    s.step(
        SessionEvent::DecodeFailed(gateway_client::codec::DecodeError::MalformedEnvelope),
        100,
        &cfg(),
    );
    assert_eq!(s.state, ConnectionState::Reconnecting);
}

#[test]
fn session_identified_records_the_id() {
    let mut s = steady_session(None, None);
    s.step(SessionEvent::SessionIdentified(String::from("sid-9")), 0, &cfg());
    assert_eq!(s.session_id.as_deref(), Some("sid-9"));
    assert_eq!(s.state, ConnectionState::Steady);
}

#[test]
fn exhausting_the_reconnect_budget_is_fatal() {
    let cfg = SessionConfig { staleness_window_ms: 60_000, max_reconnect_attempts: Some(1) };
    let mut s = Session::new();
    let a1 = s.step(SessionEvent::ConnectFailed, 0, &cfg);
    assert_eq!(s.state, ConnectionState::Reconnecting);
    assert!(matches!(a1[2], SessionAction::WaitBackoff { attempt: 1 }));
    s.step(SessionEvent::BackoffElapsed, 1_000, &cfg);
    let a2 = s.step(SessionEvent::ConnectFailed, 1_100, &cfg);
    assert_eq!(s.state, ConnectionState::Closed);
    assert!(matches!(a2[2], SessionAction::ReportFatal));
}

#[test]
fn handshake_timeout_reconnects() {
    let mut s = Session::new();
    s.step(SessionEvent::ConnectSucceeded, 0, &cfg());
    let actions = s.step(SessionEvent::HandshakeTimeout, 5_000, &cfg());
    assert_eq!(s.state, ConnectionState::Reconnecting);
    assert!(matches!(actions[0], SessionAction::StopScheduler));
    assert!(matches!(actions[1], SessionAction::CloseTransport));
}
