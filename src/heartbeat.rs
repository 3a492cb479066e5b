//! Liveness: when to send the next heartbeat, and when a missing
//! acknowledgment means the connection is dead. Times are milliseconds on a
//! monotonic clock.
use vstd::prelude::*;

verus! {

/// Time between heartbeats.
pub const HEARTBEAT_INTERVAL_MS: u64 = 30_000;

/// How long an acknowledgment may take.
pub const ACK_TIMEOUT_MS: u64 = 6_000;

/// What the session should do at this moment.
#[derive(Clone, Copy, Debug, PartialEq, Eq, Structural)]
pub enum HeartbeatAction {
    /// Send a heartbeat now (the monitor has recorded it as sent).
    SendHeartbeat,
    /// A heartbeat is outstanding; wait at most this long for its acknowledgment.
    AwaitAck(u64),
    /// Nothing is outstanding; the next heartbeat is due after this long.
    Idle(u64),
    /// The outstanding heartbeat went unacknowledged: the connection is dead.
    Timeout,
}

/// Heartbeat bookkeeping for one connection.
#[derive(Clone, Copy, Debug, PartialEq, Eq, Structural)]
pub struct HeartbeatMonitor {
    pub last_sent: u64,
    pub awaiting_ack: bool,
    pub interval: u64,
    pub ack_timeout: u64,
}

/// Time from `since` to `now`; a clock that reads earlier counts as no time.
pub open spec fn elapsed(since: u64, now: u64) -> u64 {
    if now >= since {
        (now - since) as u64
    } else {
        0
    }
}

/// One tick at time `now`: the monitor afterwards, and the action.
pub open spec fn tick_spec(m: HeartbeatMonitor, now: u64) -> (HeartbeatMonitor, HeartbeatAction) {
    let e = elapsed(m.last_sent, now);
    if m.awaiting_ack {
        if e >= m.ack_timeout {
            (HeartbeatMonitor { awaiting_ack: false, last_sent: now, ..m }, HeartbeatAction::Timeout)
        } else {
            (m, HeartbeatAction::AwaitAck((m.ack_timeout - e) as u64))
        }
    } else {
        if e >= m.interval {
            (HeartbeatMonitor { awaiting_ack: true, last_sent: now, ..m }, HeartbeatAction::SendHeartbeat)
        } else {
            (m, HeartbeatAction::Idle((m.interval - e) as u64))
        }
    }
}

/// After a heartbeat sent at `t0` with no acknowledgment since, a tick
/// before `t0 + ack_timeout` only waits, the first tick at or after it
/// reports `Timeout`, and no tick after that reports `Timeout` again until
/// another heartbeat has been sent.
pub proof fn lemma_timeout_once(m: HeartbeatMonitor, t0: u64, t1: u64, t2: u64)
    requires
        tick_spec(m, t0).1 == HeartbeatAction::SendHeartbeat,
    ensures
        ({
            let sent = tick_spec(m, t0).0;
            &&& t0 <= t1 && t1 - t0 < m.ack_timeout ==> tick_spec(sent, t1) == (sent, HeartbeatAction::AwaitAck(
                (m.ack_timeout - (t1 - t0)) as u64,
            ))
            &&& t0 <= t1 && t1 - t0 >= m.ack_timeout ==> tick_spec(sent, t1).1 == HeartbeatAction::Timeout
            &&& tick_spec(sent, t1).1 == HeartbeatAction::Timeout ==> tick_spec(tick_spec(sent, t1).0, t2).1
                != HeartbeatAction::Timeout
        }),
{
}

/// A monitor for a connection that starts at `now`, with the standard timing.
pub open spec fn fresh_monitor(now: u64) -> HeartbeatMonitor {
    HeartbeatMonitor {
        last_sent: now,
        awaiting_ack: false,
        interval: HEARTBEAT_INTERVAL_MS,
        ack_timeout: ACK_TIMEOUT_MS,
    }
}

impl HeartbeatMonitor {
    /// A monitor for a connection that starts at `now`, with the standard
    /// interval and acknowledgment timeout: the first heartbeat is due one
    /// interval later.
    pub fn new(now: u64) -> (r: Self)
        ensures
            r == fresh_monitor(now),
    {
        HeartbeatMonitor {
            last_sent: now,
            awaiting_ack: false,
            interval: HEARTBEAT_INTERVAL_MS,
            ack_timeout: ACK_TIMEOUT_MS,
        }
    }

    /// Decides what to do at time `now`. A heartbeat it asks for is recorded
    /// as sent at `now`; a `Timeout` clears the outstanding heartbeat, so it
    /// is reported once.
    pub fn tick(&mut self, now: u64) -> (r: HeartbeatAction)
        ensures
            (*final(self), r) == tick_spec(*old(self), now),
    {
        let e: u64 = if now >= self.last_sent {
            now - self.last_sent
        } else {
            0
        };
        if self.awaiting_ack {
            if e >= self.ack_timeout {
                self.awaiting_ack = false;
                self.last_sent = now;
                HeartbeatAction::Timeout
            } else {
                HeartbeatAction::AwaitAck(self.ack_timeout - e)
            }
        } else {
            if e >= self.interval {
                self.awaiting_ack = true;
                self.last_sent = now;
                HeartbeatAction::SendHeartbeat
            } else {
                HeartbeatAction::Idle(self.interval - e)
            }
        }
    }

    /// Records an acknowledgment; a stray one, with nothing outstanding, is harmless.
    pub fn on_ack(&mut self)
        ensures
            *final(self) == (HeartbeatMonitor { awaiting_ack: false, ..*old(self) }),
    {
        self.awaiting_ack = false;
    }
}

} // verus!
