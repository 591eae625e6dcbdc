//! The shard-session state machine: connect, heartbeat, resume and failure
//! paths, driven event by event.

use starboard::session::{
    backoff_delay_ms, SessionAction, SessionEvent, SessionState, ShardSession, BASE_BACKOFF_MS,
    MAX_BACKOFF_MS, MAX_RESUME_ATTEMPTS,
};

/// Drives a fresh session to `Connected` with the given ready payload.
fn connected_session(id: u32, token: u64, sequence: u64) -> ShardSession {
    let mut s = ShardSession::new(id);
    assert_eq!(s.step(SessionEvent::ConnectRequested), SessionAction::OpenTransport);
    assert_eq!(s.state, SessionState::Connecting);
    assert_eq!(s.step(SessionEvent::TransportUp), SessionAction::SendIdentify);
    assert_eq!(s.state, SessionState::Identifying);
    assert_eq!(
        s.step(SessionEvent::Ready { session_token: token, sequence }),
        SessionAction::SignalReady
    );
    assert_eq!(s.state, SessionState::Connected);
    s
}

#[test]
fn fresh_session_starts_disconnected() {
    let s = ShardSession::new(7);
    assert_eq!(s.id, 7);
    assert_eq!(s.state, SessionState::Disconnected);
    assert_eq!(s.session_token, None);
    assert_eq!(s.sequence, None);
    assert!(!s.halted);
}

#[test]
fn connect_identify_ready_stores_session() {
    let s = connected_session(0, 11, 5);
    assert_eq!(s.session_token, Some(11));
    assert_eq!(s.sequence, Some(5));
}

#[test]
fn two_missed_heartbeat_acks_disconnect_within_backoff_window() {
    let mut s = connected_session(0, 11, 5);
    // First interval: a heartbeat goes out.
    assert_eq!(s.step(SessionEvent::HeartbeatDue), SessionAction::SendHeartbeat);
    // Second interval: the first ack is missing.
    assert_eq!(s.step(SessionEvent::HeartbeatDue), SessionAction::SendHeartbeat);
    assert_eq!(s.missed_acks, 1);
    assert_eq!(s.state, SessionState::Connected);
    // Third interval: the second consecutive ack is missing - fatal.
    let action = s.step(SessionEvent::HeartbeatDue);
    assert_eq!(s.state, SessionState::Disconnected);
    assert_eq!(s.session_token, None);
    assert_eq!(s.sequence, None);
    match action {
        SessionAction::BackoffThenConnect { delay_ms } => {
            assert!(delay_ms >= BASE_BACKOFF_MS && delay_ms <= MAX_BACKOFF_MS);
            assert_eq!(delay_ms, BASE_BACKOFF_MS);
        }
        other => panic!("expected a backoff obligation, got {other:?}"),
    }
    // Once the delay elapsed, the reconnect attempt is observed.
    assert_eq!(s.step(SessionEvent::ConnectRequested), SessionAction::OpenTransport);
    assert_eq!(s.state, SessionState::Connecting);
}

#[test]
fn heartbeat_ack_resets_the_missed_count() {
    let mut s = connected_session(0, 11, 5);
    assert_eq!(s.step(SessionEvent::HeartbeatDue), SessionAction::SendHeartbeat);
    assert_eq!(s.step(SessionEvent::HeartbeatDue), SessionAction::SendHeartbeat);
    assert_eq!(s.missed_acks, 1);
    assert_eq!(s.step(SessionEvent::HeartbeatAck), SessionAction::NoAction);
    assert_eq!(s.missed_acks, 0);
    assert!(!s.awaiting_ack);
    assert_eq!(s.state, SessionState::Connected);
}

#[test]
fn transport_drop_resumes_with_stored_token() {
    let mut s = connected_session(3, 42, 17);
    assert_eq!(s.step(SessionEvent::TransportDown), SessionAction::OpenTransport);
    assert_eq!(s.state, SessionState::Resuming);
    assert_eq!(
        s.step(SessionEvent::TransportUp),
        SessionAction::SendResume { session_token: 42, sequence: 17 }
    );
    assert_eq!(s.step(SessionEvent::Resumed), SessionAction::NoAction);
    assert_eq!(s.state, SessionState::Connected);
    assert_eq!(s.session_token, Some(42));
}

#[test]
fn rejected_resume_falls_back_to_fresh_identify() {
    let mut s = connected_session(0, 42, 17);
    s.step(SessionEvent::TransportDown);
    s.step(SessionEvent::TransportUp);
    assert_eq!(s.state, SessionState::Resuming);
    // The provider rejects the stale session token.
    let action = s.step(SessionEvent::InvalidSession { resumable: false });
    assert_eq!(s.state, SessionState::Identifying);
    assert_eq!(action, SessionAction::SendIdentify);
    assert_eq!(s.session_token, None);
    assert_eq!(s.sequence, None);
    assert!(!s.halted);
    // The fresh identify succeeds and the session is live again.
    assert_eq!(
        s.step(SessionEvent::Ready { session_token: 43, sequence: 0 }),
        SessionAction::SignalReady
    );
    assert_eq!(s.state, SessionState::Connected);
}

#[test]
fn resume_budget_exhausts_into_backoff() {
    let mut s = connected_session(0, 42, 17);
    s.step(SessionEvent::TransportDown);
    for _ in 1..MAX_RESUME_ATTEMPTS {
        assert_eq!(s.step(SessionEvent::TransportDown), SessionAction::OpenTransport);
        assert_eq!(s.state, SessionState::Resuming);
    }
    let action = s.step(SessionEvent::TransportDown);
    assert_eq!(s.state, SessionState::Disconnected);
    assert!(matches!(action, SessionAction::BackoffThenConnect { .. }));
}

#[test]
fn dispatch_advances_sequence_monotonically() {
    let mut s = connected_session(0, 1, 5);
    assert_eq!(s.step(SessionEvent::Dispatch { sequence: 7 }), SessionAction::EmitEvent);
    assert_eq!(s.sequence, Some(7));
    // An older sequence never moves the counter backwards.
    assert_eq!(s.step(SessionEvent::Dispatch { sequence: 6 }), SessionAction::EmitEvent);
    assert_eq!(s.sequence, Some(7));
    assert_eq!(s.step(SessionEvent::Dispatch { sequence: 8 }), SessionAction::EmitEvent);
    assert_eq!(s.sequence, Some(8));
}

#[test]
fn rejected_credentials_halt_the_session_permanently() {
    let mut s = ShardSession::new(0);
    s.step(SessionEvent::ConnectRequested);
    s.step(SessionEvent::TransportUp);
    assert_eq!(s.step(SessionEvent::AuthRejected), SessionAction::ReportFatal);
    assert!(s.halted);
    assert_eq!(s.state, SessionState::Disconnected);
    // A halted session ignores everything, including connect requests.
    assert_eq!(s.step(SessionEvent::ConnectRequested), SessionAction::NoAction);
    assert_eq!(s.state, SessionState::Disconnected);
}

#[test]
fn backoff_doubles_from_base_and_caps() {
    assert_eq!(backoff_delay_ms(0), 1000);
    assert_eq!(backoff_delay_ms(1), 2000);
    assert_eq!(backoff_delay_ms(2), 4000);
    assert_eq!(backoff_delay_ms(3), 8000);
    assert_eq!(backoff_delay_ms(4), 16000);
    assert_eq!(backoff_delay_ms(5), 32000);
    assert_eq!(backoff_delay_ms(6), MAX_BACKOFF_MS);
    assert_eq!(backoff_delay_ms(1000), MAX_BACKOFF_MS);
}

#[test]
fn repeated_fatal_disconnects_back_off_exponentially() {
    let mut s = connected_session(0, 1, 1);
    let mut delays = Vec::new();
    // Exhaust the heartbeat tolerance to force the first fatal disconnect.
    while s.state == SessionState::Connected {
        let action = s.step(SessionEvent::HeartbeatDue);
        if let SessionAction::BackoffThenConnect { delay_ms } = action {
            delays.push(delay_ms);
        }
    }
    // Each following identify attempt fails in turn.
    for _ in 0..2 {
        s.step(SessionEvent::ConnectRequested);
        s.step(SessionEvent::TransportUp);
        let action = s.step(SessionEvent::InvalidSession { resumable: false });
        if let SessionAction::BackoffThenConnect { delay_ms } = action {
            delays.push(delay_ms);
        }
    }
    assert_eq!(delays, vec![1000, 2000, 4000]);
    // A successful identify clears the backoff ladder again.
    s.step(SessionEvent::ConnectRequested);
    s.step(SessionEvent::TransportUp);
    s.step(SessionEvent::Ready { session_token: 1, sequence: 1 });
    assert_eq!(s.reconnects, 0);
}

#[test]
fn close_halts_and_stops_retrying() {
    let mut s = connected_session(0, 1, 1);
    assert_eq!(s.close(), SessionAction::CloseTransport);
    assert!(s.halted);
    assert_eq!(s.state, SessionState::Disconnected);
    assert_eq!(s.step(SessionEvent::ConnectRequested), SessionAction::NoAction);
}
