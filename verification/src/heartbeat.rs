//! Heartbeat scheduling and reconnect backoff. The scheduler runs at a
//! server-supplied interval, jittered once per connection into a 90–110%
//! band; before sending a new heartbeat it checks that the previous one was
//! acknowledged, and signals a zombie connection instead of sending again
//! when it was not. All timing decisions are pure functions of timestamps
//! that the caller supplies; waiting itself is the caller's business, so the
//! scheduler can be cancelled promptly.

use vstd::prelude::*;

verus! {

/// What the scheduler keeps per connection: the acknowledgement state of the
/// most recent heartbeat. Written only on the session machine's orders;
/// read by the scheduler's tick.
pub struct HeartbeatStatus {
    /// When the most recent heartbeat was sent; `None` before the first.
    pub last_sent_at: Option<u64>,
    /// Whether the most recent heartbeat has been acknowledged. Vacuously
    /// true before the first heartbeat.
    pub ack_received: bool,
}

/// The per-connection timer: the base interval from the handshake and the
/// jittered interval actually used, fixed once at connection start.
pub struct HeartbeatScheduler {
    pub base_interval_ms: u64,
    pub interval_ms: u64,
    /// When the session reached steady state; anchors the first heartbeat.
    pub started_at: u64,
}

/// What a scheduler tick decides.
#[derive(Clone, Copy, PartialEq, Eq, Structural, Debug)]
pub enum SchedulerDecision {
    /// Not due yet; check again later.
    Wait,
    /// Send a heartbeat now and record the send time.
    SendHeartbeat,
    /// The previous heartbeat was never acknowledged: the connection is a
    /// zombie; signal the session machine instead of sending again.
    Zombie,
}

/// The jittered interval: the base interval shifted into the band from 90%
/// to 110% by a jitter of at most two tenths of the base.
pub open spec fn jittered_interval(base_ms: u64, jitter_ms: u64) -> int {
    base_ms - base_ms / 10 + jitter_ms
}

/// The scheduler's invariant: its interval lies in the 90–110% band around
/// the base interval.
pub open spec fn scheduler_wf(s: HeartbeatScheduler) -> bool {
    &&& s.base_interval_ms - s.base_interval_ms / 10 <= s.interval_ms
    &&& s.interval_ms <= s.base_interval_ms + s.base_interval_ms / 10
}

/// When the next heartbeat is due: one jittered interval after the previous
/// send, or after steady-state entry when none has been sent yet.
pub open spec fn next_due(s: HeartbeatScheduler, st: HeartbeatStatus) -> int {
    match st.last_sent_at {
        Some(t) => t + s.interval_ms,
        None => s.started_at + s.interval_ms,
    }
}

/// What a tick at time `now_ms` decides: wait while the next heartbeat is
/// not due; at or after the due time, send — unless the previous heartbeat
/// was never acknowledged, which makes the connection a zombie.
pub open spec fn tick_spec(s: HeartbeatScheduler, st: HeartbeatStatus, now_ms: u64) -> SchedulerDecision {
    if (now_ms as int) < next_due(s, st) {
        SchedulerDecision::Wait
    } else if !st.ack_received {
        SchedulerDecision::Zombie
    } else {
        SchedulerDecision::SendHeartbeat
    }
}

impl HeartbeatStatus {
    /// The status of a connection that has not sent a heartbeat yet.
    pub fn new() -> (r: HeartbeatStatus)
        ensures
            r.last_sent_at is None,
            r.ack_received,
    {
        HeartbeatStatus { last_sent_at: None, ack_received: true }
    }

    /// Records that a heartbeat went out now; it is unacknowledged until the
    /// session machine observes an acknowledgement envelope.
    pub fn note_sent(&mut self, now_ms: u64)
        ensures
            final(self).last_sent_at == Some(now_ms),
            !final(self).ack_received,
    {
        self.last_sent_at = Some(now_ms);
        self.ack_received = false;
    }

    /// Records the acknowledgement of the most recent heartbeat; called only
    /// on the session machine's order.
    pub fn note_ack(&mut self)
        ensures
            final(self).last_sent_at == old(self).last_sent_at,
            final(self).ack_received,
    {
        self.ack_received = true;
    }
}

impl HeartbeatScheduler {
    /// A scheduler for a connection that reached steady state at `now_ms`
    /// with the given handshake interval, jittered once by `jitter_ms`. The
    /// jitter may move the interval anywhere in the 90–110% band.
    pub fn new(base_interval_ms: u64, jitter_ms: u64, now_ms: u64) -> (r: HeartbeatScheduler)
        requires
            jitter_ms <= 2 * (base_interval_ms / 10),
            base_interval_ms + base_interval_ms / 10 <= u64::MAX,
        ensures
            r.base_interval_ms == base_interval_ms,
            r.interval_ms == jittered_interval(base_interval_ms, jitter_ms),
            r.started_at == now_ms,
            scheduler_wf(r),
    {
        let interval_ms = base_interval_ms - base_interval_ms / 10 + jitter_ms;
        HeartbeatScheduler { base_interval_ms, interval_ms, started_at: now_ms }
    }

    /// One timer tick: decides whether to wait, send a heartbeat, or signal
    /// a zombie connection. Follows `tick_spec` exactly.
    pub fn tick(&self, status: &HeartbeatStatus, now_ms: u64) -> (r: SchedulerDecision)
        requires
            self.started_at + self.interval_ms <= u64::MAX,
            status.last_sent_at matches Some(t) ==> t + self.interval_ms <= u64::MAX,
        ensures
            r == tick_spec(*self, *status, now_ms),
    {
        let due: u64 = match status.last_sent_at {
            Some(t) => t + self.interval_ms,
            None => self.started_at + self.interval_ms,
        };
        if now_ms < due {
            SchedulerDecision::Wait
        } else if !status.ack_received {
            SchedulerDecision::Zombie
        } else {
            SchedulerDecision::SendHeartbeat
        }
    }
}

/// The first heartbeat of a connection goes out no earlier than 90% and no
/// later than 110% of the handshake interval after steady-state entry: a
/// tick before `started_at` plus 90% of the base interval always waits, and
/// the first send happens exactly at the jittered due time, which lies in
/// the band.
pub proof fn lemma_first_heartbeat_window(
    s: HeartbeatScheduler,
    st: HeartbeatStatus,
    now_ms: u64,
)
    requires
        scheduler_wf(s),
        st.last_sent_at is None,
        st.ack_received,
    ensures
        tick_spec(s, st, now_ms) == SchedulerDecision::SendHeartbeat <==> now_ms >= s.started_at
            + s.interval_ms,
        s.started_at + s.base_interval_ms - s.base_interval_ms / 10 <= s.started_at
            + s.interval_ms <= s.started_at + s.base_interval_ms + s.base_interval_ms / 10,
        tick_spec(s, st, now_ms) != SchedulerDecision::Zombie,
{
}

/// The base reconnect delay for the given attempt (1-based): exponential
/// with base one second and factor two, capped at one minute.
pub open spec fn backoff_raw(attempt: u32) -> u64 {
    if attempt <= 1 {
        1000
    } else if attempt == 2 {
        2000
    } else if attempt == 3 {
        4000
    } else if attempt == 4 {
        8000
    } else if attempt == 5 {
        16000
    } else if attempt == 6 {
        32000
    } else {
        60000
    }
}

/// The jittered backoff delay: spread by `rand_val` over the whole range
/// from the one-second base up to the exponential delay for this attempt.
pub open spec fn backoff_delay(attempt: u32, rand_val: u64) -> u64 {
    (1000 + rand_val % ((backoff_raw(attempt) - 1000 + 1) as u64)) as u64
}

/// The delay to wait before the given reconnect attempt (1-based), jittered
/// by `rand_val` (any value; the caller draws it). Always between one second
/// and the capped exponential delay for this attempt.
pub fn backoff_delay_ms(attempt: u32, rand_val: u64) -> (r: u64)
    ensures
        r == backoff_delay(attempt, rand_val),
        1000 <= r <= backoff_raw(attempt) <= 60000,
{
    let raw: u64 = if attempt <= 1 {
        1000
    } else if attempt == 2 {
        2000
    } else if attempt == 3 {
        4000
    } else if attempt == 4 {
        8000
    } else if attempt == 5 {
        16000
    } else if attempt == 6 {
        32000
    } else {
        60000
    };
    1000 + rand_val % (raw - 1000 + 1)
}

/// The backoff delay never shrinks below the base second, never exceeds the
/// one-minute cap, and grows monotonically in the attempt number before the
/// cap.
pub proof fn lemma_backoff_bounds(attempt: u32, rand_val: u64)
    ensures
        1000 <= backoff_delay(attempt, rand_val) <= 60000,
        attempt >= 7 ==> backoff_raw(attempt) == 60000,
        backoff_raw(attempt) <= backoff_raw(crate::session::saturating_inc(attempt)),
{
}

} // verus!
