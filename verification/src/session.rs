//! Session state machine: the coordination core. It consumes decoded
//! envelopes, transport failures, scheduler signals and caller requests, and
//! answers with a new session state plus the actions the surrounding loop
//! must perform (connect, send a handshake reply, start or stop the
//! scheduler, dispatch an event, wait out a backoff). The machine itself
//! performs no I/O: the whole transition relation is the spec function
//! `step_spec`, and the executable `step` is proved to follow it exactly.

use vstd::prelude::*;
use crate::codec::{DecodeError, Envelope, EnvelopePayload};

verus! {

/// The connection lifecycle. `Closed` is terminal and only entered by an
/// explicit shutdown (or by exhausting a configured reconnect budget); every
/// other state can fall back toward `Connecting` on failure.
#[derive(Clone, Copy, PartialEq, Eq, Structural, Debug)]
pub enum ConnectionState {
    Connecting,
    AwaitingHandshake,
    Steady,
    AwaitingHeartbeatAck,
    Reconnecting,
    Closed,
}

/// A link-level transport failure, as distinguished by the transport.
#[derive(Clone, Copy, PartialEq, Eq, Structural, Debug)]
pub enum TransportError {
    ConnectionReset,
    Timeout,
    ProtocolViolation,
}

/// Session-machine policy: how long a disconnected session stays
/// resume-eligible, and an optional cap on reconnect attempts (unbounded
/// retry when `None`).
#[derive(Clone, Copy)]
pub struct SessionConfig {
    pub staleness_window_ms: u64,
    pub max_reconnect_attempts: Option<u32>,
}

/// The session owned by the state machine: resume identity, sequence
/// tracking, the negotiated heartbeat interval, and the lifecycle state.
pub struct Session {
    pub session_id: Option<String>,
    pub last_sequence: Option<u64>,
    pub heartbeat_interval_ms: u64,
    pub state: ConnectionState,
    /// When the session first lost its connection; governs staleness.
    pub disconnected_at: Option<u64>,
    pub reconnect_attempts: u32,
}

/// The artifact handed to the event sink: one application event, as carried
/// by a dispatch-class envelope. The name is absent when the frame had none.
pub struct DispatchedEvent {
    pub name: Option<String>,
    pub sequence: u64,
    pub payload_json: String,
}

/// Everything the state machine reacts to.
pub enum SessionEvent {
    /// The transport finished connecting.
    ConnectSucceeded,
    /// The transport could not connect.
    ConnectFailed,
    /// The codec decoded an inbound envelope.
    EnvelopeDecoded(Envelope),
    /// The codec rejected an inbound frame.
    DecodeFailed(DecodeError),
    /// The transport failed mid-session.
    TransportFailed(TransportError),
    /// The scheduler found the previous heartbeat unacknowledged.
    ZombieDetected,
    /// No handshake envelope arrived in time.
    HandshakeTimeout,
    /// The backoff wait ordered by an earlier failure has elapsed.
    BackoffElapsed,
    /// The sink learned the server-assigned session id.
    SessionIdentified(String),
    /// The caller shuts the session down.
    Shutdown,
}

/// What the surrounding loop must do after a step, in order.
pub enum SessionAction {
    /// Open the transport.
    Connect,
    /// Send a fresh handshake reply.
    SendIdentify,
    /// Send a resume reply replaying the session id and last sequence.
    SendResume { session_id: String, last_sequence: u64 },
    /// Start the heartbeat scheduler at the given interval.
    StartScheduler { interval_ms: u64 },
    /// Stop the heartbeat scheduler; nothing may be sent after this.
    StopScheduler,
    /// Close the transport.
    CloseTransport,
    /// Hand an application event to the sink.
    Dispatch(DispatchedEvent),
    /// Record that the most recent heartbeat was acknowledged.
    MarkHeartbeatAcked,
    /// Wait out the backoff for the given (1-based) attempt, then report
    /// `BackoffElapsed`.
    WaitBackoff { attempt: u32 },
    /// Note a sequence number at or below the last recorded one: a protocol
    /// anomaly, accepted but worth logging.
    NoteAnomaly { sequence: u64 },
    /// The reconnect budget is exhausted; the session is over.
    ReportFatal,
}

/// `n + 1`, stopping at the largest representable value.
pub open spec fn saturating_inc(n: u32) -> u32 {
    if n == u32::MAX {
        n
    } else {
        (n + 1) as u32
    }
}

/// The transition every failure takes: count the attempt, and either give up
/// (budget exhausted) or tear the connection down and wait out a backoff.
/// The time of the first failure is kept as the disconnect time.
pub open spec fn fail_transition(s: Session, now_ms: u64, cfg: SessionConfig) -> (Session, Seq<
    SessionAction,
>) {
    let attempts = saturating_inc(s.reconnect_attempts);
    let exhausted = match cfg.max_reconnect_attempts {
        Some(m) => attempts > m,
        None => false,
    };
    if exhausted {
        (
            Session { state: ConnectionState::Closed, reconnect_attempts: attempts, ..s },
            seq![
                SessionAction::StopScheduler,
                SessionAction::CloseTransport,
                SessionAction::ReportFatal,
            ],
        )
    } else {
        (
            Session {
                state: ConnectionState::Reconnecting,
                reconnect_attempts: attempts,
                disconnected_at: if s.disconnected_at is Some {
                    s.disconnected_at
                } else {
                    Some(now_ms)
                },
                ..s
            },
            seq![
                SessionAction::StopScheduler,
                SessionAction::CloseTransport,
                SessionAction::WaitBackoff { attempt: attempts },
            ],
        )
    }
}

/// Whether a disconnected session may be resumed rather than re-identified:
/// it must know its session id and last sequence, and must have been
/// disconnected for strictly less than the staleness window.
pub open spec fn resume_eligible(s: Session, now_ms: u64, cfg: SessionConfig) -> bool {
    &&& s.session_id is Some
    &&& s.last_sequence is Some
    &&& s.disconnected_at is Some
    &&& now_ms >= s.disconnected_at->Some_0
    &&& now_ms - s.disconnected_at->Some_0 < cfg.staleness_window_ms
}

/// How a live session (Steady or AwaitingHeartbeatAck) reacts to a decoded
/// envelope: a dispatch updates the last sequence — an out-of-order number is
/// accepted but noted as an anomaly — and goes to the sink; a heartbeat
/// acknowledgement is recorded and settles the session back to Steady; a
/// refused resume clears the resume identity and forces a fresh handshake;
/// a stray handshake envelope is ignored.
pub open spec fn live_envelope(s: Session, e: Envelope) -> (Session, Seq<SessionAction>) {
    match e.payload {
        EnvelopePayload::Dispatch { payload_json } => {
            if e.sequence is Some {
                let n = e.sequence->Some_0;
                let anomaly = s.last_sequence is Some && n <= s.last_sequence->Some_0;
                let s2 = Session { last_sequence: Some(n), ..s };
                let ev = DispatchedEvent { name: e.event_name, sequence: n, payload_json };
                if anomaly {
                    (s2, seq![SessionAction::NoteAnomaly { sequence: n }, SessionAction::Dispatch(ev)])
                } else {
                    (s2, seq![SessionAction::Dispatch(ev)])
                }
            } else {
                (s, Seq::<SessionAction>::empty())
            }
        },
        EnvelopePayload::HeartbeatAck => {
            (
                Session { state: ConnectionState::Steady, ..s },
                seq![SessionAction::MarkHeartbeatAcked],
            )
        },
        EnvelopePayload::ResumeRejected => {
            (
                Session { session_id: None, last_sequence: None, ..s },
                seq![SessionAction::SendIdentify],
            )
        },
        EnvelopePayload::Hello { .. } => (s, Seq::<SessionAction>::empty()),
    }
}

/// The whole transition relation of the session state machine. `Closed` is
/// terminal; `Shutdown` closes from any state, stopping the scheduler before
/// the transport is closed; otherwise the reaction depends on the state, per
/// the lifecycle: Connecting → AwaitingHandshake → Steady ⇄
/// AwaitingHeartbeatAck, any failure → Reconnecting → Connecting.
pub open spec fn step_spec(s: Session, event: SessionEvent, now_ms: u64, cfg: SessionConfig) -> (
    Session,
    Seq<SessionAction>,
) {
    if s.state is Closed {
        (s, Seq::<SessionAction>::empty())
    } else if event is Shutdown {
        (
            Session { state: ConnectionState::Closed, ..s },
            seq![SessionAction::StopScheduler, SessionAction::CloseTransport],
        )
    } else {
        match s.state {
            ConnectionState::Connecting => match event {
                SessionEvent::ConnectSucceeded => (
                    Session { state: ConnectionState::AwaitingHandshake, ..s },
                    Seq::<SessionAction>::empty(),
                ),
                SessionEvent::ConnectFailed => fail_transition(s, now_ms, cfg),
                SessionEvent::TransportFailed(_) => fail_transition(s, now_ms, cfg),
                _ => (s, Seq::<SessionAction>::empty()),
            },
            ConnectionState::AwaitingHandshake => match event {
                SessionEvent::EnvelopeDecoded(e) => match e.payload {
                    EnvelopePayload::Hello { heartbeat_interval_ms: h } => {
                        let s2 = Session {
                            state: ConnectionState::Steady,
                            heartbeat_interval_ms: h,
                            reconnect_attempts: 0,
                            disconnected_at: None,
                            ..s
                        };
                        let reply = if s.session_id is Some && s.last_sequence is Some {
                            SessionAction::SendResume {
                                session_id: s.session_id->Some_0,
                                last_sequence: s.last_sequence->Some_0,
                            }
                        } else {
                            SessionAction::SendIdentify
                        };
                        (s2, seq![SessionAction::StartScheduler { interval_ms: h }, reply])
                    },
                    _ => fail_transition(s, now_ms, cfg),
                },
                SessionEvent::HandshakeTimeout => fail_transition(s, now_ms, cfg),
                SessionEvent::TransportFailed(_) => fail_transition(s, now_ms, cfg),
                SessionEvent::DecodeFailed(_) => fail_transition(s, now_ms, cfg),
                _ => (s, Seq::<SessionAction>::empty()),
            },
            ConnectionState::Steady => match event {
                SessionEvent::EnvelopeDecoded(e) => live_envelope(s, e),
                SessionEvent::TransportFailed(_) => fail_transition(s, now_ms, cfg),
                SessionEvent::ZombieDetected => (
                    Session { state: ConnectionState::AwaitingHeartbeatAck, ..s },
                    Seq::<SessionAction>::empty(),
                ),
                SessionEvent::SessionIdentified(id) => (
                    Session { session_id: Some(id), ..s },
                    Seq::<SessionAction>::empty(),
                ),
                _ => (s, Seq::<SessionAction>::empty()),
            },
            ConnectionState::AwaitingHeartbeatAck => match event {
                SessionEvent::EnvelopeDecoded(e) => live_envelope(s, e),
                SessionEvent::TransportFailed(_) => fail_transition(s, now_ms, cfg),
                SessionEvent::ZombieDetected => fail_transition(s, now_ms, cfg),
                SessionEvent::SessionIdentified(id) => (
                    Session { session_id: Some(id), ..s },
                    Seq::<SessionAction>::empty(),
                ),
                _ => (s, Seq::<SessionAction>::empty()),
            },
            ConnectionState::Reconnecting => match event {
                SessionEvent::BackoffElapsed => if resume_eligible(s, now_ms, cfg) {
                    (
                        Session { state: ConnectionState::Connecting, ..s },
                        seq![SessionAction::Connect],
                    )
                } else {
                    (
                        Session {
                            state: ConnectionState::Connecting,
                            session_id: None,
                            last_sequence: None,
                            ..s
                        },
                        seq![SessionAction::Connect],
                    )
                },
                _ => (s, Seq::<SessionAction>::empty()),
            },
            ConnectionState::Closed => (s, Seq::<SessionAction>::empty()),
        }
    }
}

/// A dispatch-class envelope as the codec guarantees it: a dispatch payload
/// with a sequence number.
pub open spec fn is_dispatch_envelope(e: Envelope) -> bool {
    &&& e.payload matches EnvelopePayload::Dispatch { .. }
    &&& e.sequence is Some
}

/// The sequence number of a dispatch-class envelope.
pub open spec fn env_seq(e: Envelope) -> u64 {
    e.sequence->Some_0
}

/// The session after a sequence of decoded envelopes is processed in order.
pub open spec fn run_envelopes(s: Session, envs: Seq<Envelope>, now_ms: u64, cfg: SessionConfig) -> Session
    decreases envs.len(),
{
    if envs.len() == 0 {
        s
    } else {
        run_envelopes(
            step_spec(s, SessionEvent::EnvelopeDecoded(envs[0]), now_ms, cfg).0,
            envs.drop_first(),
            now_ms,
            cfg,
        )
    }
}

/// The largest sequence number among a nonempty sequence of dispatch-class
/// envelopes.
pub open spec fn max_env_seq(envs: Seq<Envelope>) -> u64
    decreases envs.len(),
{
    if envs.len() <= 1 {
        env_seq(envs[0])
    } else if env_seq(envs[0]) >= max_env_seq(envs.drop_first()) {
        env_seq(envs[0])
    } else {
        max_env_seq(envs.drop_first())
    }
}

/// For every run of inbound dispatch frames with strictly increasing
/// sequence numbers, the session's `last_sequence` afterwards equals the
/// maximum sequence number seen, and the session stays steady.
pub proof fn lemma_increasing_dispatches_track_max(
    s: Session,
    envs: Seq<Envelope>,
    now_ms: u64,
    cfg: SessionConfig,
)
    requires
        s.state is Steady,
        envs.len() > 0,
        forall|i: int| 0 <= i < envs.len() ==> is_dispatch_envelope(#[trigger] envs[i]),
        forall|i: int, j: int| 0 <= i < j < envs.len() ==> env_seq(envs[i]) < env_seq(envs[j]),
    ensures
        run_envelopes(s, envs, now_ms, cfg).last_sequence == Some(max_env_seq(envs)),
        run_envelopes(s, envs, now_ms, cfg).state is Steady,
    decreases envs.len(),
{
    let s1 = step_spec(s, SessionEvent::EnvelopeDecoded(envs[0]), now_ms, cfg).0;
    assert(is_dispatch_envelope(envs[0]));
    assert(s1.last_sequence == Some(env_seq(envs[0])));
    assert(s1.state is Steady);
    assert(run_envelopes(s, envs, now_ms, cfg) == run_envelopes(
        s1,
        envs.drop_first(),
        now_ms,
        cfg,
    ));
    if envs.len() == 1 {
        assert(envs.drop_first().len() == 0);
        assert(run_envelopes(s1, envs.drop_first(), now_ms, cfg) == s1);
        assert(max_env_seq(envs) == env_seq(envs[0]));
    } else {
        let rest = envs.drop_first();
        assert(forall|i: int| 0 <= i < rest.len() ==> is_dispatch_envelope(#[trigger] rest[i]))
            by {
            assert(forall|i: int| 0 <= i < rest.len() ==> rest[i] == envs[i + 1]);
        }
        assert(forall|i: int, j: int|
            0 <= i < j < rest.len() ==> env_seq(rest[i]) < env_seq(rest[j])) by {
            assert(forall|i: int| 0 <= i < rest.len() ==> rest[i] == envs[i + 1]);
        }
        lemma_increasing_dispatches_track_max(s1, rest, now_ms, cfg);
        lemma_max_env_seq_of_increasing(envs);
    }
}

/// For strictly increasing sequence numbers the maximum is the last one, so
/// the maximum over the whole run equals the maximum over the tail.
proof fn lemma_max_env_seq_of_increasing(envs: Seq<Envelope>)
    requires
        envs.len() > 1,
        forall|i: int, j: int| 0 <= i < j < envs.len() ==> env_seq(envs[i]) < env_seq(envs[j]),
    ensures
        max_env_seq(envs) == max_env_seq(envs.drop_first()),
    decreases envs.len(),
{
    let rest = envs.drop_first();
    assert(forall|i: int| 0 <= i < rest.len() ==> rest[i] == envs[i + 1]);
    if rest.len() == 1 {
        assert(max_env_seq(rest) == env_seq(envs[1]));
        assert(env_seq(envs[0]) < env_seq(envs[1]));
    } else {
        lemma_max_env_seq_of_increasing(rest);
        lemma_max_env_seq_last(rest);
        assert(env_seq(envs[0]) < env_seq(rest.last()));
    }
}

/// For strictly increasing sequence numbers the maximum is the last one.
proof fn lemma_max_env_seq_last(envs: Seq<Envelope>)
    requires
        envs.len() > 0,
        forall|i: int, j: int| 0 <= i < j < envs.len() ==> env_seq(envs[i]) < env_seq(envs[j]),
    ensures
        max_env_seq(envs) == env_seq(envs.last()),
    decreases envs.len(),
{
    if envs.len() > 1 {
        let rest = envs.drop_first();
        assert(forall|i: int| 0 <= i < rest.len() ==> rest[i] == envs[i + 1]);
        lemma_max_env_seq_last(rest);
        assert(rest.last() == envs.last());
        assert(env_seq(envs[0]) < env_seq(envs.last()));
    }
}

/// The sequence numbers of the events a list of actions hands to the sink,
/// in order.
pub open spec fn dispatched_seqs(actions: Seq<SessionAction>) -> Seq<u64>
    decreases actions.len(),
{
    if actions.len() == 0 {
        Seq::<u64>::empty()
    } else {
        let rest = dispatched_seqs(actions.drop_first());
        match actions[0] {
            SessionAction::Dispatch(ev) => seq![ev.sequence] + rest,
            _ => rest,
        }
    }
}

/// The sequence numbers handed to the sink over a whole run of decoded
/// envelopes, in order.
pub open spec fn run_dispatched_seqs(
    s: Session,
    envs: Seq<Envelope>,
    now_ms: u64,
    cfg: SessionConfig,
) -> Seq<u64>
    decreases envs.len(),
{
    if envs.len() == 0 {
        Seq::<u64>::empty()
    } else {
        let r = step_spec(s, SessionEvent::EnvelopeDecoded(envs[0]), now_ms, cfg);
        dispatched_seqs(r.1) + run_dispatched_seqs(r.0, envs.drop_first(), now_ms, cfg)
    }
}

/// One step on a dispatch envelope hands exactly that envelope's sequence
/// number to the sink, whether or not it is an anomaly.
proof fn lemma_step_dispatches_once(s: Session, e: Envelope, now_ms: u64, cfg: SessionConfig)
    requires
        s.state is Steady,
        is_dispatch_envelope(e),
    ensures
        dispatched_seqs(step_spec(s, SessionEvent::EnvelopeDecoded(e), now_ms, cfg).1) =~= seq![
            env_seq(e),
        ],
{
    let acts = step_spec(s, SessionEvent::EnvelopeDecoded(e), now_ms, cfg).1;
    if acts.len() == 2 {
        assert(acts[0] is NoteAnomaly);
        assert(acts[1] matches SessionAction::Dispatch(ev) && ev.sequence == env_seq(e));
        let tail = acts.drop_first();
        assert(tail.drop_first() =~= Seq::<SessionAction>::empty());
        assert(dispatched_seqs(tail.drop_first()) =~= Seq::<u64>::empty());
        assert(tail[0] == acts[1]);
        assert(dispatched_seqs(tail) =~= seq![env_seq(e)]);
        assert(dispatched_seqs(acts) == dispatched_seqs(tail));
    } else {
        assert(acts.len() == 1);
        assert(acts[0] matches SessionAction::Dispatch(ev) && ev.sequence == env_seq(e));
        assert(acts.drop_first() =~= Seq::<SessionAction>::empty());
        assert(dispatched_seqs(acts.drop_first()) =~= Seq::<u64>::empty());
        assert(dispatched_seqs(acts) =~= seq![env_seq(e)]);
    }
}

/// Within one connection, dispatched events preserve the order observed on
/// the wire: a run of dispatch envelopes from steady state hands their
/// sequence numbers to the sink in exactly wire order — nothing reordered,
/// dropped or duplicated.
pub proof fn lemma_dispatch_preserves_wire_order(
    s: Session,
    envs: Seq<Envelope>,
    now_ms: u64,
    cfg: SessionConfig,
)
    requires
        s.state is Steady,
        forall|i: int| 0 <= i < envs.len() ==> is_dispatch_envelope(#[trigger] envs[i]),
    ensures
        run_dispatched_seqs(s, envs, now_ms, cfg) =~= envs.map_values(|e: Envelope| env_seq(e)),
    decreases envs.len(),
{
    if envs.len() > 0 {
        let r = step_spec(s, SessionEvent::EnvelopeDecoded(envs[0]), now_ms, cfg);
        lemma_step_dispatches_once(s, envs[0], now_ms, cfg);
        assert(r.0.state is Steady);
        let rest = envs.drop_first();
        assert(forall|i: int| 0 <= i < rest.len() ==> is_dispatch_envelope(#[trigger] rest[i]))
            by {
            assert(forall|i: int| 0 <= i < rest.len() ==> rest[i] == envs[i + 1]);
        }
        lemma_dispatch_preserves_wire_order(r.0, rest, now_ms, cfg);
        assert(forall|i: int| 0 <= i < rest.len() ==> rest[i] == envs[i + 1]);
    }
}

/// Two consecutive missed heartbeat acknowledgements cause exactly one
/// transition from Steady to Reconnecting: the first missed acknowledgement
/// escalates to AwaitingHeartbeatAck, the second reconnects, and a further
/// missed acknowledgement while already reconnecting changes nothing and
/// orders no action. Holds whenever the reconnect budget is not exhausted —
/// always under the default unbounded-retry policy; with a configured
/// maximum whose budget the second missed acknowledgement would exceed, the
/// session closes as fatal instead of reconnecting.
pub proof fn lemma_missed_acks_transition_once(
    s: Session,
    t1: u64,
    t2: u64,
    t3: u64,
    cfg: SessionConfig,
)
    requires
        s.state is Steady,
        match cfg.max_reconnect_attempts {
            Some(m) => saturating_inc(s.reconnect_attempts) <= m,
            None => true,
        },
    ensures
        ({
            let r1 = step_spec(s, SessionEvent::ZombieDetected, t1, cfg);
            let r2 = step_spec(r1.0, SessionEvent::ZombieDetected, t2, cfg);
            let r3 = step_spec(r2.0, SessionEvent::ZombieDetected, t3, cfg);
            &&& r1.0.state is AwaitingHeartbeatAck
            &&& r2.0.state is Reconnecting
            &&& r3.0 == r2.0
            &&& r3.1 == Seq::<SessionAction>::empty()
        }),
{
}

/// Shutdown while a backoff wait is pending in Reconnecting transitions
/// directly to Closed: the very first action stops the scheduler, the only
/// other action closes the transport, and no frame of any kind — heartbeat
/// included — is ordered.
pub proof fn lemma_shutdown_during_backoff(s: Session, now_ms: u64, cfg: SessionConfig)
    requires
        s.state is Reconnecting,
    ensures
        ({
            let r = step_spec(s, SessionEvent::Shutdown, now_ms, cfg);
            &&& r.0.state is Closed
            &&& r.1 =~= seq![SessionAction::StopScheduler, SessionAction::CloseTransport]
            &&& r.1[0] is StopScheduler
        }),
{
}

impl Session {
    /// A fresh session, about to make its first connection attempt.
    pub fn new() -> (r: Session)
        ensures
            r.session_id is None,
            r.last_sequence is None,
            r.heartbeat_interval_ms == 0,
            r.state is Connecting,
            r.disconnected_at is None,
            r.reconnect_attempts == 0,
    {
        Session {
            session_id: None,
            last_sequence: None,
            heartbeat_interval_ms: 0,
            state: ConnectionState::Connecting,
            disconnected_at: None,
            reconnect_attempts: 0,
        }
    }

    /// The failure path shared by every state: count the attempt and either
    /// give up or back off.
    fn apply_failure(&mut self, now_ms: u64, cfg: &SessionConfig) -> (actions: Vec<SessionAction>)
        ensures
            ({
                let r = fail_transition(*old(self), now_ms, *cfg);
                &&& *final(self) == r.0
                &&& actions@ == r.1
            }),
    {
        let attempts: u32 = if self.reconnect_attempts == u32::MAX {
            u32::MAX
        } else {
            self.reconnect_attempts + 1
        };
        self.reconnect_attempts = attempts;
        let exhausted: bool = match cfg.max_reconnect_attempts {
            Some(m) => attempts > m,
            None => false,
        };
        let mut actions: Vec<SessionAction> = Vec::new();
        actions.push(SessionAction::StopScheduler);
        actions.push(SessionAction::CloseTransport);
        if exhausted {
            self.state = ConnectionState::Closed;
            actions.push(SessionAction::ReportFatal);
            proof {
                assert(actions@ =~= fail_transition(*old(self), now_ms, *cfg).1);
            }
        } else {
            self.state = ConnectionState::Reconnecting;
            if self.disconnected_at.is_none() {
                self.disconnected_at = Some(now_ms);
            }
            actions.push(SessionAction::WaitBackoff { attempt: attempts });
            proof {
                assert(actions@ =~= fail_transition(*old(self), now_ms, *cfg).1);
            }
        }
        actions
    }

    /// Reacts to one event: updates the session and returns the actions the
    /// surrounding loop must perform, in order. Follows `step_spec` exactly.
    pub fn step(&mut self, event: SessionEvent, now_ms: u64, cfg: &SessionConfig) -> (actions: Vec<
        SessionAction,
    >)
        ensures
            ({
                let r = step_spec(*old(self), event, now_ms, *cfg);
                &&& *final(self) == r.0
                &&& actions@ == r.1
            }),
    {
        let ghost event0 = event;
        let mut actions: Vec<SessionAction> = Vec::new();
        proof {
            assert(actions@ =~= Seq::<SessionAction>::empty());
        }
        if matches!(self.state, ConnectionState::Closed) {
            return actions;
        }
        if matches!(event, SessionEvent::Shutdown) {
            self.state = ConnectionState::Closed;
            actions.push(SessionAction::StopScheduler);
            actions.push(SessionAction::CloseTransport);
            proof {
                assert(actions@ =~= step_spec(*old(self), event, now_ms, *cfg).1);
            }
            return actions;
        }
        match self.state {
            ConnectionState::Connecting => match event {
                SessionEvent::ConnectSucceeded => {
                    self.state = ConnectionState::AwaitingHandshake;
                }
                SessionEvent::ConnectFailed => {
                    return self.apply_failure(now_ms, cfg);
                }
                SessionEvent::TransportFailed(_) => {
                    return self.apply_failure(now_ms, cfg);
                }
                _ => {}
            },
            ConnectionState::AwaitingHandshake => match event {
                SessionEvent::EnvelopeDecoded(e) => match e.payload {
                    EnvelopePayload::Hello { heartbeat_interval_ms: h } => {
                        let reply: SessionAction =
                            if self.session_id.is_some() && self.last_sequence.is_some() {
                                let sid = match &self.session_id {
                                    Some(id) => id.clone(),
                                    None => String::new(),
                                };
                                let seq_no = match self.last_sequence {
                                    Some(n) => n,
                                    None => 0,
                                };
                                SessionAction::SendResume { session_id: sid, last_sequence: seq_no }
                            } else {
                                SessionAction::SendIdentify
                            };
                        self.state = ConnectionState::Steady;
                        self.heartbeat_interval_ms = h;
                        self.reconnect_attempts = 0;
                        self.disconnected_at = None;
                        actions.push(SessionAction::StartScheduler { interval_ms: h });
                        actions.push(reply);
                        proof {
                            assert(actions@ =~= step_spec(*old(self), event, now_ms, *cfg).1);
                        }
                    }
                    _ => {
                        return self.apply_failure(now_ms, cfg);
                    }
                },
                SessionEvent::HandshakeTimeout => {
                    return self.apply_failure(now_ms, cfg);
                }
                SessionEvent::TransportFailed(_) => {
                    return self.apply_failure(now_ms, cfg);
                }
                SessionEvent::DecodeFailed(_) => {
                    return self.apply_failure(now_ms, cfg);
                }
                _ => {}
            },
            ConnectionState::Steady => match event {
                SessionEvent::EnvelopeDecoded(e) => {
                    return self.apply_live_envelope(e);
                }
                SessionEvent::TransportFailed(_) => {
                    return self.apply_failure(now_ms, cfg);
                }
                SessionEvent::ZombieDetected => {
                    self.state = ConnectionState::AwaitingHeartbeatAck;
                }
                SessionEvent::SessionIdentified(id) => {
                    self.session_id = Some(id);
                }
                _ => {}
            },
            ConnectionState::AwaitingHeartbeatAck => match event {
                SessionEvent::EnvelopeDecoded(e) => {
                    return self.apply_live_envelope(e);
                }
                SessionEvent::TransportFailed(_) => {
                    return self.apply_failure(now_ms, cfg);
                }
                SessionEvent::ZombieDetected => {
                    return self.apply_failure(now_ms, cfg);
                }
                SessionEvent::SessionIdentified(id) => {
                    self.session_id = Some(id);
                }
                _ => {}
            },
            ConnectionState::Reconnecting => match event {
                SessionEvent::BackoffElapsed => {
                    let eligible: bool = self.session_id.is_some() && self.last_sequence.is_some()
                        && match self.disconnected_at {
                        Some(d) => now_ms >= d && now_ms - d < cfg.staleness_window_ms,
                        None => false,
                    };
                    if !eligible {
                        self.session_id = None;
                        self.last_sequence = None;
                    }
                    self.state = ConnectionState::Connecting;
                    actions.push(SessionAction::Connect);
                    proof {
                        assert(actions@ =~= step_spec(*old(self), event, now_ms, *cfg).1);
                    }
                }
                _ => {}
            },
            ConnectionState::Closed => {}
        }
        actions
    }

    /// A live session reacting to a decoded envelope; follows
    /// `live_envelope` exactly.
    fn apply_live_envelope(&mut self, e: Envelope) -> (actions: Vec<SessionAction>)
        requires
            old(self).state is Steady || old(self).state is AwaitingHeartbeatAck,
        ensures
            ({
                let r = live_envelope(*old(self), e);
                &&& *final(self) == r.0
                &&& actions@ == r.1
            }),
    {
        let ghost e0 = e;
        let mut actions: Vec<SessionAction> = Vec::new();
        proof {
            assert(actions@ =~= Seq::<SessionAction>::empty());
        }
        let Envelope { opcode: _, sequence, event_name, payload } = e;
        match payload {
            EnvelopePayload::Dispatch { payload_json } => {
                match sequence {
                    Some(n) => {
                        let anomaly: bool = match self.last_sequence {
                            Some(l) => n <= l,
                            None => false,
                        };
                        self.last_sequence = Some(n);
                        if anomaly {
                            actions.push(SessionAction::NoteAnomaly { sequence: n });
                        }
                        actions.push(
                            SessionAction::Dispatch(
                                DispatchedEvent { name: event_name, sequence: n, payload_json },
                            ),
                        );
                        proof {
                            assert(actions@ =~= live_envelope(*old(self), e).1);
                        }
                    }
                    None => {}
                }
            }
            EnvelopePayload::HeartbeatAck => {
                self.state = ConnectionState::Steady;
                actions.push(SessionAction::MarkHeartbeatAcked);
                proof {
                    assert(actions@ =~= live_envelope(*old(self), e).1);
                }
            }
            EnvelopePayload::ResumeRejected => {
                self.session_id = None;
                self.last_sequence = None;
                actions.push(SessionAction::SendIdentify);
                proof {
                    assert(actions@ =~= live_envelope(*old(self), e).1);
                }
            }
            EnvelopePayload::Hello { .. } => {}
        }
        actions
    }
}

} // verus!
