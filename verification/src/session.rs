//! One shard session: the connect / identify / heartbeat / resume state
//! machine for a single persistent gateway connection.
//!
//! The session is pure: the driver owns the transport and the timers, feeds
//! each observation in as a [`SessionEvent`], and performs the returned
//! [`SessionAction`]. Every transition is stated by [`ShardSession::spec_step`].

use vstd::prelude::*;

verus! {

/// Base reconnect delay after a fatal disconnect, in milliseconds.
pub const BASE_BACKOFF_MS: u64 = 1000;

/// Cap on the reconnect delay, in milliseconds. The driver may add jitter,
/// but must attempt the reconnect within this window once the delay elapses.
pub const MAX_BACKOFF_MS: u64 = 60000;

/// How many resume attempts are made after recoverable disconnects before
/// the session degrades to a fresh identify.
pub const MAX_RESUME_ATTEMPTS: u32 = 3;

/// Connection lifecycle of one shard session.
#[derive(Clone, Copy, Debug, PartialEq, Eq, Structural)]
pub enum SessionState {
    /// No transport; waiting for the driver to start a connect attempt.
    Disconnected,
    /// Transport being established.
    Connecting,
    /// Transport up; identify sent, ready acknowledgment awaited.
    Identifying,
    /// Reconnecting with a prior session token and sequence.
    Resuming,
    /// Live: events flow and heartbeats are exchanged.
    Connected,
}

/// What the driver observed on behalf of this session.
#[derive(Clone, Copy, Debug, PartialEq, Eq, Structural)]
pub enum SessionEvent {
    /// The backoff delay elapsed; the session may connect again.
    ConnectRequested,
    /// The transport was established.
    TransportUp,
    /// The provider acknowledged the identify with a session token and an
    /// initial sequence number.
    Ready { session_token: u64, sequence: u64 },
    /// The provider accepted the resume; the stream continues.
    Resumed,
    /// An event arrived on the stream with the given sequence number.
    Dispatch { sequence: u64 },
    /// A heartbeat interval elapsed.
    HeartbeatDue,
    /// The provider acknowledged the last heartbeat.
    HeartbeatAck,
    /// The transport dropped.
    TransportDown,
    /// The provider declared the session invalid; `resumable` says whether
    /// it may still be resumed.
    InvalidSession { resumable: bool },
    /// The provider rejected the credentials; the session must halt.
    AuthRejected,
}

/// What the driver must do next for this session.
#[derive(Clone, Copy, Debug, PartialEq, Eq, Structural)]
pub enum SessionAction {
    /// Nothing to do.
    NoAction,
    /// Open the transport, then report `TransportUp` or `TransportDown`.
    OpenTransport,
    /// Send an identify request carrying the configured token, the intents
    /// and this shard's `(id, total shard count)` pair.
    SendIdentify,
    /// Send a resume request with the stored token and last sequence.
    SendResume { session_token: u64, sequence: u64 },
    /// Send a heartbeat carrying the session's current sequence.
    SendHeartbeat,
    /// Forward the event that carried this sequence number downstream.
    EmitEvent,
    /// The session just became ready; an early driver may now trigger
    /// application-identity resolution.
    SignalReady,
    /// Wait `delay_ms` milliseconds (plus optional jitter), then report
    /// `ConnectRequested`.
    BackoffThenConnect { delay_ms: u64 },
    /// The session halted on a fatal error; log and count it, other shards
    /// continue.
    ReportFatal,
    /// Close the transport and stop retrying.
    CloseTransport,
}

/// The reconnect delay after `attempts` consecutive fatal disconnects:
/// doubling from [`BASE_BACKOFF_MS`], capped at [`MAX_BACKOFF_MS`].
pub open spec fn spec_backoff_delay_ms(attempts: u32) -> u64 {
    if attempts == 0 {
        1000
    } else if attempts == 1 {
        2000
    } else if attempts == 2 {
        4000
    } else if attempts == 3 {
        8000
    } else if attempts == 4 {
        16000
    } else if attempts == 5 {
        32000
    } else {
        60000
    }
}

/// The reconnect delay after `attempts` consecutive fatal disconnects.
pub fn backoff_delay_ms(attempts: u32) -> (r: u64)
    ensures
        r == spec_backoff_delay_ms(attempts),
        BASE_BACKOFF_MS <= r <= MAX_BACKOFF_MS,
{
    if attempts == 0 {
        1000
    } else if attempts == 1 {
        2000
    } else if attempts == 2 {
        4000
    } else if attempts == 3 {
        8000
    } else if attempts == 4 {
        16000
    } else if attempts == 5 {
        32000
    } else {
        60000
    }
}

/// `n + 1`, staying put at the top of the counter's range.
pub open spec fn sat_inc(n: u32) -> u32 {
    if n == u32::MAX {
        n
    } else {
        (n + 1) as u32
    }
}

/// One shard session's state, owned exclusively by its cluster.
#[derive(Clone, Copy, Debug)]
pub struct ShardSession {
    /// Shard id within the global shard space.
    pub id: u32,
    /// Where in the connection lifecycle this session stands.
    pub state: SessionState,
    /// Token of the last acknowledged session, kept for resuming.
    pub session_token: Option<u64>,
    /// Highest sequence number observed on the current session.
    pub sequence: Option<u64>,
    /// Whether a heartbeat is in flight without an acknowledgment.
    pub awaiting_ack: bool,
    /// Consecutive heartbeat intervals that elapsed unacknowledged.
    pub missed_acks: u32,
    /// Resume attempts made since the session was last live.
    pub resume_attempts: u32,
    /// Consecutive fatal disconnects, driving the backoff delay.
    pub reconnects: u32,
    /// Set on fatal errors and on shutdown; a halted session ignores
    /// every further event.
    pub halted: bool,
}

impl ShardSession {
    /// Internal consistency of a session: the counters are in range and the
    /// resume material is present in every state that relies on it.
    pub open spec fn wf(&self) -> bool {
        &&& self.missed_acks <= 1
        &&& self.missed_acks >= 1 ==> self.awaiting_ack
        &&& !(self.state is Connected) ==> !self.awaiting_ack && self.missed_acks == 0
        &&& (self.state is Connected || self.state is Resuming) ==> self.session_token is Some
            && self.sequence is Some
        &&& self.halted ==> self.state is Disconnected
        &&& self.resume_attempts <= MAX_RESUME_ATTEMPTS
    }

    /// A fresh, disconnected session for shard `id`.
    pub fn new(id: u32) -> (s: ShardSession)
        ensures
            s.wf(),
            s.id == id,
            s.state is Disconnected,
            s.session_token is None,
            s.sequence is None,
            !s.halted,
            s.reconnects == 0,
    {
        ShardSession {
            id,
            state: SessionState::Disconnected,
            session_token: None,
            sequence: None,
            awaiting_ack: false,
            missed_acks: 0,
            resume_attempts: 0,
            reconnects: 0,
            halted: false,
        }
    }

    /// The session after a fatal disconnect: back to `Disconnected` with the
    /// resume material discarded, one more fatal disconnect on the counter.
    pub open spec fn spec_after_fatal(self) -> ShardSession {
        ShardSession {
            state: SessionState::Disconnected,
            session_token: None,
            sequence: None,
            awaiting_ack: false,
            missed_acks: 0,
            resume_attempts: 0,
            reconnects: sat_inc(self.reconnects),
            ..self
        }
    }

    /// The complete transition relation: from a session and an observed
    /// event to the next session and the driver's next obligation.
    ///
    /// - Fatal disconnects (two consecutive missed heartbeat
    ///   acknowledgments, repeated transport loss, exhausted resume budget)
    ///   discard the resume material and back off exponentially.
    /// - Recoverable disconnects while a session token exists resume
    ///   immediately, at most [`MAX_RESUME_ATTEMPTS`] times in a row.
    /// - A rejected resume falls back to a fresh identify on the open
    ///   transport rather than halting.
    /// - Rejected credentials halt the session permanently.
    pub open spec fn spec_step(self, event: SessionEvent) -> (ShardSession, SessionAction) {
        if self.halted {
            (self, SessionAction::NoAction)
        } else {
            match event {
                SessionEvent::ConnectRequested => {
                    if self.state is Disconnected {
                        (
                            ShardSession { state: SessionState::Connecting, ..self },
                            SessionAction::OpenTransport,
                        )
                    } else {
                        (self, SessionAction::NoAction)
                    }
                },
                SessionEvent::TransportUp => {
                    if self.state is Connecting {
                        (
                            ShardSession { state: SessionState::Identifying, ..self },
                            SessionAction::SendIdentify,
                        )
                    } else if self.state is Resuming {
                        (
                            self,
                            SessionAction::SendResume {
                                session_token: self.session_token->0,
                                sequence: self.sequence->0,
                            },
                        )
                    } else {
                        (self, SessionAction::NoAction)
                    }
                },
                SessionEvent::Ready { session_token, sequence } => {
                    if self.state is Identifying {
                        (
                            ShardSession {
                                state: SessionState::Connected,
                                session_token: Some(session_token),
                                sequence: Some(sequence),
                                awaiting_ack: false,
                                missed_acks: 0,
                                resume_attempts: 0,
                                reconnects: 0,
                                ..self
                            },
                            SessionAction::SignalReady,
                        )
                    } else {
                        (self, SessionAction::NoAction)
                    }
                },
                SessionEvent::Resumed => {
                    if self.state is Resuming {
                        (
                            ShardSession {
                                state: SessionState::Connected,
                                resume_attempts: 0,
                                reconnects: 0,
                                ..self
                            },
                            SessionAction::NoAction,
                        )
                    } else {
                        (self, SessionAction::NoAction)
                    }
                },
                SessionEvent::Dispatch { sequence } => {
                    if self.state is Connected {
                        let advanced = if sequence > self.sequence->0 {
                            sequence
                        } else {
                            self.sequence->0
                        };
                        (
                            ShardSession { sequence: Some(advanced), ..self },
                            SessionAction::EmitEvent,
                        )
                    } else {
                        (self, SessionAction::NoAction)
                    }
                },
                SessionEvent::HeartbeatDue => {
                    if self.state is Connected {
                        if self.awaiting_ack {
                            if self.missed_acks >= 1 {
                                (self.spec_after_fatal(), SessionAction::BackoffThenConnect {
                                    delay_ms: spec_backoff_delay_ms(self.reconnects),
                                })
                            } else {
                                (
                                    ShardSession { missed_acks: 1, ..self },
                                    SessionAction::SendHeartbeat,
                                )
                            }
                        } else {
                            (
                                ShardSession { awaiting_ack: true, ..self },
                                SessionAction::SendHeartbeat,
                            )
                        }
                    } else {
                        (self, SessionAction::NoAction)
                    }
                },
                SessionEvent::HeartbeatAck => {
                    if self.state is Connected {
                        (
                            ShardSession { awaiting_ack: false, missed_acks: 0, ..self },
                            SessionAction::NoAction,
                        )
                    } else {
                        (self, SessionAction::NoAction)
                    }
                },
                SessionEvent::TransportDown => {
                    if self.state is Connected && self.resume_attempts < MAX_RESUME_ATTEMPTS {
                        (
                            ShardSession {
                                state: SessionState::Resuming,
                                awaiting_ack: false,
                                missed_acks: 0,
                                resume_attempts: (self.resume_attempts + 1) as u32,
                                ..self
                            },
                            SessionAction::OpenTransport,
                        )
                    } else if self.state is Resuming && self.resume_attempts < MAX_RESUME_ATTEMPTS {
                        (
                            ShardSession {
                                resume_attempts: (self.resume_attempts + 1) as u32,
                                ..self
                            },
                            SessionAction::OpenTransport,
                        )
                    } else if self.state is Disconnected {
                        (self, SessionAction::NoAction)
                    } else {
                        (self.spec_after_fatal(), SessionAction::BackoffThenConnect {
                            delay_ms: spec_backoff_delay_ms(self.reconnects),
                        })
                    }
                },
                SessionEvent::InvalidSession { resumable } => {
                    if self.state is Connected && resumable
                        && self.resume_attempts < MAX_RESUME_ATTEMPTS {
                        (
                            ShardSession {
                                state: SessionState::Resuming,
                                awaiting_ack: false,
                                missed_acks: 0,
                                resume_attempts: (self.resume_attempts + 1) as u32,
                                ..self
                            },
                            SessionAction::SendResume {
                                session_token: self.session_token->0,
                                sequence: self.sequence->0,
                            },
                        )
                    } else if self.state is Resuming {
                        (
                            ShardSession {
                                state: SessionState::Identifying,
                                session_token: None,
                                sequence: None,
                                resume_attempts: 0,
                                ..self
                            },
                            SessionAction::SendIdentify,
                        )
                    } else if self.state is Connected || self.state is Identifying {
                        (self.spec_after_fatal(), SessionAction::BackoffThenConnect {
                            delay_ms: spec_backoff_delay_ms(self.reconnects),
                        })
                    } else {
                        (self, SessionAction::NoAction)
                    }
                },
                SessionEvent::AuthRejected => {
                    (
                        ShardSession {
                            state: SessionState::Disconnected,
                            session_token: None,
                            sequence: None,
                            awaiting_ack: false,
                            missed_acks: 0,
                            resume_attempts: 0,
                            halted: true,
                            ..self
                        },
                        SessionAction::ReportFatal,
                    )
                },
            }
        }
    }

    /// Advances the session by one observed event and returns the driver's
    /// next obligation, exactly as [`Self::spec_step`] states.
    pub fn step(&mut self, event: SessionEvent) -> (action: SessionAction)
        requires
            old(self).wf(),
        ensures
            final(self).wf(),
            *final(self) == old(self).spec_step(event).0,
            action == old(self).spec_step(event).1,
            final(self).id == old(self).id,
            old(self).halted ==> *final(self) == *old(self) && action is NoAction,
    {
        if self.halted {
            return SessionAction::NoAction;
        }
        match event {
            SessionEvent::ConnectRequested => {
                if self.state == SessionState::Disconnected {
                    self.state = SessionState::Connecting;
                    SessionAction::OpenTransport
                } else {
                    SessionAction::NoAction
                }
            },
            SessionEvent::TransportUp => {
                if self.state == SessionState::Connecting {
                    self.state = SessionState::Identifying;
                    SessionAction::SendIdentify
                } else if self.state == SessionState::Resuming {
                    SessionAction::SendResume {
                        session_token: self.session_token.unwrap(),
                        sequence: self.sequence.unwrap(),
                    }
                } else {
                    SessionAction::NoAction
                }
            },
            SessionEvent::Ready { session_token, sequence } => {
                if self.state == SessionState::Identifying {
                    self.state = SessionState::Connected;
                    self.session_token = Some(session_token);
                    self.sequence = Some(sequence);
                    self.awaiting_ack = false;
                    self.missed_acks = 0;
                    self.resume_attempts = 0;
                    self.reconnects = 0;
                    SessionAction::SignalReady
                } else {
                    SessionAction::NoAction
                }
            },
            SessionEvent::Resumed => {
                if self.state == SessionState::Resuming {
                    self.state = SessionState::Connected;
                    self.resume_attempts = 0;
                    self.reconnects = 0;
                    SessionAction::NoAction
                } else {
                    SessionAction::NoAction
                }
            },
            SessionEvent::Dispatch { sequence } => {
                if self.state == SessionState::Connected {
                    let current = self.sequence.unwrap();
                    let advanced = if sequence > current {
                        sequence
                    } else {
                        current
                    };
                    self.sequence = Some(advanced);
                    SessionAction::EmitEvent
                } else {
                    SessionAction::NoAction
                }
            },
            SessionEvent::HeartbeatDue => {
                if self.state == SessionState::Connected {
                    if self.awaiting_ack {
                        if self.missed_acks >= 1 {
                            self.go_fatal()
                        } else {
                            self.missed_acks = 1;
                            SessionAction::SendHeartbeat
                        }
                    } else {
                        self.awaiting_ack = true;
                        SessionAction::SendHeartbeat
                    }
                } else {
                    SessionAction::NoAction
                }
            },
            SessionEvent::HeartbeatAck => {
                if self.state == SessionState::Connected {
                    self.awaiting_ack = false;
                    self.missed_acks = 0;
                    SessionAction::NoAction
                } else {
                    SessionAction::NoAction
                }
            },
            SessionEvent::TransportDown => {
                if self.state == SessionState::Connected
                    && self.resume_attempts < MAX_RESUME_ATTEMPTS {
                    self.state = SessionState::Resuming;
                    self.awaiting_ack = false;
                    self.missed_acks = 0;
                    self.resume_attempts = self.resume_attempts + 1;
                    SessionAction::OpenTransport
                } else if self.state == SessionState::Resuming
                    && self.resume_attempts < MAX_RESUME_ATTEMPTS {
                    self.resume_attempts = self.resume_attempts + 1;
                    SessionAction::OpenTransport
                } else if self.state == SessionState::Disconnected {
                    SessionAction::NoAction
                } else {
                    self.go_fatal()
                }
            },
            SessionEvent::InvalidSession { resumable } => {
                if self.state == SessionState::Connected && resumable
                    && self.resume_attempts < MAX_RESUME_ATTEMPTS {
                    self.state = SessionState::Resuming;
                    self.awaiting_ack = false;
                    self.missed_acks = 0;
                    self.resume_attempts = self.resume_attempts + 1;
                    SessionAction::SendResume {
                        session_token: self.session_token.unwrap(),
                        sequence: self.sequence.unwrap(),
                    }
                } else if self.state == SessionState::Resuming {
                    self.state = SessionState::Identifying;
                    self.session_token = None;
                    self.sequence = None;
                    self.resume_attempts = 0;
                    SessionAction::SendIdentify
                } else if self.state == SessionState::Connected
                    || self.state == SessionState::Identifying {
                    self.go_fatal()
                } else {
                    SessionAction::NoAction
                }
            },
            SessionEvent::AuthRejected => {
                self.state = SessionState::Disconnected;
                self.session_token = None;
                self.sequence = None;
                self.awaiting_ack = false;
                self.missed_acks = 0;
                self.resume_attempts = 0;
                self.halted = true;
                SessionAction::ReportFatal
            },
        }
    }

    /// Applies a fatal disconnect and returns the backoff obligation.
    fn go_fatal(&mut self) -> (action: SessionAction)
        ensures
            *final(self) == old(self).spec_after_fatal(),
            action == (SessionAction::BackoffThenConnect {
                delay_ms: spec_backoff_delay_ms(old(self).reconnects),
            }),
    {
        let delay = backoff_delay_ms(self.reconnects);
        self.state = SessionState::Disconnected;
        self.session_token = None;
        self.sequence = None;
        self.awaiting_ack = false;
        self.missed_acks = 0;
        self.resume_attempts = 0;
        self.reconnects = if self.reconnects == u32::MAX {
            self.reconnects
        } else {
            self.reconnects + 1
        };
        SessionAction::BackoffThenConnect { delay_ms: delay }
    }

    /// Shuts the session down: the transport is to be closed and no retry
    /// will ever be made.
    pub fn close(&mut self) -> (action: SessionAction)
        ensures
            final(self).wf(),
            final(self).halted,
            final(self).state is Disconnected,
            final(self).id == old(self).id,
            action is CloseTransport,
    {
        self.state = SessionState::Disconnected;
        self.session_token = None;
        self.sequence = None;
        self.awaiting_ack = false;
        self.missed_acks = 0;
        self.resume_attempts = 0;
        self.halted = true;
        SessionAction::CloseTransport
    }
}

} // verus!
