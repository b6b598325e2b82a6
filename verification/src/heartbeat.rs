//! Heartbeat supervision: a recurring timer and ack tracking, detecting
//! zombie connections.  The supervisor knows nothing of session semantics.

use vstd::prelude::*;

verus! {

/// `a + b`, stopping at the largest `u64` value.
pub open spec fn sat_add_u64(a: u64, b: u64) -> u64 {
    if a + b > u64::MAX {
        u64::MAX
    } else {
        (a + b) as u64
    }
}

/// Executable twin of [`sat_add_u64`].
pub fn sat_add(a: u64, b: u64) -> (r: u64)
    ensures
        r == sat_add_u64(a, b),
{
    if a <= u64::MAX - b {
        a + b
    } else {
        u64::MAX
    }
}

/// What the supervisor tells the state machine when its timer fires.
#[derive(Debug, Clone, Copy, PartialEq, Eq, Structural)]
pub enum HeartbeatSignal {
    /// The previous heartbeat was acknowledged: send the next one.
    SendHeartbeat,
    /// The previous heartbeat was never acknowledged: the connection is a
    /// zombie and must be closed and reconnected.
    Zombie,
}

/// Heartbeat bookkeeping.  Invariant kept by the state machine: if a new
/// heartbeat becomes due while the last one is unacknowledged, the
/// connection is zombied, force-closed and reconnected.
#[derive(Debug, Clone, Copy, PartialEq, Eq, Structural)]
pub struct HeartbeatState {
    /// Server-declared interval between heartbeats, in milliseconds.
    pub interval_ms: u64,
    /// The last heartbeat sent has been acknowledged (or none was sent yet).
    pub last_ack_received: bool,
    /// When the next heartbeat is due, in milliseconds.
    pub next_due_ms: u64,
    /// The supervisor is active; firing requires it, and detecting a
    /// zombie or stopping clears it.
    pub running: bool,
}

/// The state [`HeartbeatState::start`] produces: armed, satisfied, with
/// the first deadline one interval ahead less the one-time start jitter.
pub open spec fn spec_hb_start(interval_ms: u64, jitter_ms: u64, now_ms: u64) -> HeartbeatState {
    HeartbeatState {
        interval_ms,
        last_ack_received: true,
        next_due_ms: sat_add_u64(
            now_ms,
            if jitter_ms > interval_ms {
                0
            } else {
                (interval_ms - jitter_ms) as u64
            },
        ),
        running: true,
    }
}

/// The state and signal one timer firing produces: a missed ack yields
/// `Zombie` and halts the supervisor; otherwise a heartbeat is owed, the
/// ack flag is cleared and the next deadline armed.
pub open spec fn spec_hb_fire(h: HeartbeatState, now_ms: u64) -> (HeartbeatState, HeartbeatSignal) {
    if !h.last_ack_received {
        (HeartbeatState { running: false, ..h }, HeartbeatSignal::Zombie)
    } else {
        (
            HeartbeatState {
                last_ack_received: false,
                next_due_ms: sat_add_u64(now_ms, h.interval_ms),
                ..h
            },
            HeartbeatSignal::SendHeartbeat,
        )
    }
}

impl HeartbeatState {
    /// A supervisor that is not running.
    pub fn idle() -> (h: HeartbeatState)
        ensures
            !h.running,
            h.last_ack_received,
    {
        HeartbeatState { interval_ms: 0, last_ack_received: true, next_due_ms: 0, running: false }
    }

    /// Starts the timer at the server-declared interval; `jitter_ms` is
    /// the one-time random offset the caller drew, applied only to the
    /// first deadline and clamped to the interval.
    pub fn start(interval_ms: u64, jitter_ms: u64, now_ms: u64) -> (h: HeartbeatState)
        ensures
            h == spec_hb_start(interval_ms, jitter_ms, now_ms),
    {
        let delay = if jitter_ms > interval_ms {
            0
        } else {
            interval_ms - jitter_ms
        };
        HeartbeatState {
            interval_ms,
            last_ack_received: true,
            next_due_ms: sat_add(now_ms, delay),
            running: true,
        }
    }

    /// Registers a heartbeat acknowledgement frame.
    pub fn on_ack(&mut self)
        ensures
            *final(self) == (HeartbeatState { last_ack_received: true, ..*old(self) }),
    {
        self.last_ack_received = true;
    }

    /// The timer fired.  Exactly one of two things happens: the missed
    /// ack is reported as a zombie (and the supervisor halts), or a
    /// heartbeat is owed and the next firing is armed.
    pub fn fire(&mut self, now_ms: u64) -> (sig: HeartbeatSignal)
        requires
            old(self).running,
        ensures
            (*final(self), sig) == spec_hb_fire(*old(self), now_ms),
    {
        if !self.last_ack_received {
            self.running = false;
            HeartbeatSignal::Zombie
        } else {
            self.last_ack_received = false;
            self.next_due_ms = sat_add(now_ms, self.interval_ms);
            HeartbeatSignal::SendHeartbeat
        }
    }

    /// Halts the supervisor.
    pub fn stop(&mut self)
        ensures
            *final(self) == (HeartbeatState { running: false, ..*old(self) }),
    {
        self.running = false;
    }
}

/// A missed heartbeat ack triggers exactly one zombie signal, never more:
/// the firing that finds the ack missing reports `Zombie` and halts the
/// supervisor, and a halted supervisor cannot fire again until the state
/// machine starts a new one (which arms it satisfied).
pub proof fn lemma_missed_ack_fires_once(h: HeartbeatState, now_ms: u64)
    requires
        h.running,
        !h.last_ack_received,
    ensures
        spec_hb_fire(h, now_ms).1 == HeartbeatSignal::Zombie,
        !spec_hb_fire(h, now_ms).0.running,
{
}

/// A firing that sees the previous ack yields a heartbeat, not a zombie,
/// and leaves the supervisor running with the deadline one interval ahead.
pub proof fn lemma_acked_fire_sends(h: HeartbeatState, now_ms: u64)
    requires
        h.running,
        h.last_ack_received,
    ensures
        spec_hb_fire(h, now_ms).1 == HeartbeatSignal::SendHeartbeat,
        spec_hb_fire(h, now_ms).0.running,
        !spec_hb_fire(h, now_ms).0.last_ack_received,
        spec_hb_fire(h, now_ms).0.next_due_ms == sat_add_u64(now_ms, h.interval_ms),
{
}

} // verus!
