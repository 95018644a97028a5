//! The supervisor loop's decision logic: one state machine stepped once per
//! tick, with the deadman timer and the heartbeat schedule.
//!
//! The surrounding process owns the actual polling, sending and sleeping; it
//! reports what happened during the tick (a frame arrived, a heartbeat send
//! failed, the worker terminated) and this module decides the next state and
//! whether the process continues, shuts down cleanly, or exits hard.

use vstd::prelude::*;
use crate::frames::{ToRadioMsg, ToRadioVariant};
use crate::structs::IPCMessage;

verus! {

/// Elapsed seconds between two clock readings, zero if the clock moved
/// backwards.
pub open spec fn sat_sub(a: u64, b: u64) -> u64 {
    if a >= b {
        (a - b) as u64
    } else {
        0
    }
}

/// Relies on `std::time::SystemTime::now`: seconds of the system clock since
/// the Unix epoch, or zero if the clock reads earlier than the epoch.  The
/// result depends on the clock, so nothing is promised of it; every function
/// that needs the time takes it as an argument.
#[verifier::external_body]
pub fn get_secs() -> u64 {
    match std::time::SystemTime::now().duration_since(std::time::UNIX_EPOCH) {
        Ok(d) => d.as_secs(),
        Err(_) => 0,
    }
}

/// The supervisor's phase: it runs until a shutdown trigger fires, and the
/// shutting-down phase is terminal.
#[derive(Clone, Copy, Debug, PartialEq, Eq, Structural)]
pub enum Phase {
    Running,
    ShuttingDown,
}

/// What the process should do after one tick.
#[derive(Clone, Copy, Debug, PartialEq, Eq, Structural)]
pub enum StepVerdict {
    /// Sleep one pause and run the next tick.
    Continue,
    /// Leave the loop and let the process end cleanly.
    CleanExit,
    /// Terminate the process with the carried exit status: the device link
    /// is lost.
    HardExit(u8),
}

/// The supervisor's state: its phase, when the last inbound frame was
/// processed, and when the last heartbeat was sent.
#[derive(Clone, Copy, Debug, PartialEq, Eq, Structural)]
pub struct SupervisorState {
    pub phase: Phase,
    pub last_seen: u64,
    pub last_heartbeat: u64,
}

/// The state after one tick: a processed frame resets the deadman timer; a
/// due heartbeat either records its send time or, on a send failure, starts
/// the shutdown; and the deadman timer starts the shutdown once its timeout
/// has elapsed (not reached if the worker terminated: the process exits hard
/// first).
pub open spec fn step_state_spec(s: SupervisorState, now: u64, frame_arrived: bool,
    heartbeat_send_ok: bool, worker_finished: bool, heartbeat_interval: u64, deadman_timeout: u64)
    -> SupervisorState {
    let s1 = if frame_arrived {
        SupervisorState { last_seen: now, ..s }
    } else {
        s
    };
    let s2 = if sat_sub(now, s1.last_heartbeat) > heartbeat_interval {
        if heartbeat_send_ok {
            SupervisorState { last_heartbeat: now, ..s1 }
        } else {
            SupervisorState { phase: Phase::ShuttingDown, ..s1 }
        }
    } else {
        s1
    };
    if worker_finished {
        s2
    } else {
        if sat_sub(now, s2.last_seen) > deadman_timeout {
            SupervisorState { phase: Phase::ShuttingDown, ..s2 }
        } else {
            s2
        }
    }
}

/// The verdict of one tick: a terminated worker is unrecoverable and exits
/// the process with status 2; otherwise the loop continues exactly while the
/// phase is still running.
pub open spec fn step_verdict_spec(s: SupervisorState, now: u64, frame_arrived: bool,
    heartbeat_send_ok: bool, worker_finished: bool, heartbeat_interval: u64, deadman_timeout: u64)
    -> StepVerdict {
    if worker_finished {
        StepVerdict::HardExit(2)
    } else {
        let s3 = step_state_spec(s, now, frame_arrived, heartbeat_send_ok, worker_finished,
            heartbeat_interval, deadman_timeout);
        if s3.phase is ShuttingDown {
            StepVerdict::CleanExit
        } else {
            StepVerdict::Continue
        }
    }
}

impl SupervisorState {
    /// The state at startup: running, with both timers primed at the current
    /// time.
    pub fn new(now: u64) -> (s: Self)
        ensures
            s.phase is Running,
            s.last_seen == now,
            s.last_heartbeat == now,
    {
        SupervisorState { phase: Phase::Running, last_seen: now, last_heartbeat: now }
    }

    /// Resets the deadman timer: an inbound frame was just processed.
    pub fn update_deadman(&mut self, now: u64)
        ensures
            *final(self) == (SupervisorState { last_seen: now, ..*old(self) }),
    {
        self.last_seen = now;
    }

    /// Checks the deadman timer: starts the shutdown exactly when more than
    /// the timeout has elapsed since the last processed frame.
    pub fn check_deadman(&mut self, now: u64, deadman_timeout: u64)
        ensures
            *final(self) == (if sat_sub(now, old(self).last_seen) > deadman_timeout {
                SupervisorState { phase: Phase::ShuttingDown, ..*old(self) }
            } else {
                *old(self)
            }),
    {
        let elapsed = if now >= self.last_seen {
            now - self.last_seen
        } else {
            0
        };
        if elapsed > deadman_timeout {
            self.phase = Phase::ShuttingDown;
        }
    }

    /// Whether a heartbeat is due this tick.
    pub fn heartbeat_due(&self, now: u64, heartbeat_interval: u64) -> (r: bool)
        ensures
            r == (sat_sub(now, self.last_heartbeat) > heartbeat_interval),
    {
        let elapsed = if now >= self.last_heartbeat {
            now - self.last_heartbeat
        } else {
            0
        };
        elapsed > heartbeat_interval
    }

    /// Records the outcome of a heartbeat send: success re-arms the
    /// schedule, failure means the link is presumed broken and the shutdown
    /// starts.
    pub fn record_heartbeat_result(&mut self, now: u64, send_ok: bool)
        ensures
            *final(self) == (if send_ok {
                SupervisorState { last_heartbeat: now, ..*old(self) }
            } else {
                SupervisorState { phase: Phase::ShuttingDown, ..*old(self) }
            }),
    {
        if send_ok {
            self.last_heartbeat = now;
        } else {
            self.phase = Phase::ShuttingDown;
        }
    }

    /// Runs the decisions of one tick, in the loop's order: deadman reset
    /// for a processed frame, the heartbeat schedule, the worker liveness
    /// check, and the deadman timeout.
    pub fn supervisor_step(&mut self, now: u64, frame_arrived: bool, heartbeat_send_ok: bool,
        worker_finished: bool, heartbeat_interval: u64, deadman_timeout: u64) -> (v: StepVerdict)
        ensures
            *final(self) == step_state_spec(*old(self), now, frame_arrived, heartbeat_send_ok,
                worker_finished, heartbeat_interval, deadman_timeout),
            v == step_verdict_spec(*old(self), now, frame_arrived, heartbeat_send_ok,
                worker_finished, heartbeat_interval, deadman_timeout),
            worker_finished ==> v == StepVerdict::HardExit(2),
    {
        if frame_arrived {
            self.update_deadman(now);
        }
        if self.heartbeat_due(now, heartbeat_interval) {
            self.record_heartbeat_result(now, heartbeat_send_ok);
        }
        if worker_finished {
            return StepVerdict::HardExit(2);
        }
        self.check_deadman(now, deadman_timeout);
        match self.phase {
            Phase::ShuttingDown => StepVerdict::CleanExit,
            Phase::Running => StepVerdict::Continue,
        }
    }
}

/// Deadman shutdown fires: a tick that processes no frame, after more than
/// the timeout has elapsed since the last processed frame, moves the
/// supervisor to the shutting-down phase and ends the loop cleanly,
/// whichever way the heartbeat went and as long as the worker still runs.
pub proof fn lemma_deadman_fires(s: SupervisorState, now: u64, heartbeat_send_ok: bool,
    heartbeat_interval: u64, deadman_timeout: u64)
    requires
        sat_sub(now, s.last_seen) > deadman_timeout,
    ensures
        step_state_spec(s, now, false, heartbeat_send_ok, false, heartbeat_interval,
            deadman_timeout).phase is ShuttingDown,
        step_verdict_spec(s, now, false, heartbeat_send_ok, false, heartbeat_interval,
            deadman_timeout) is CleanExit,
{
}

/// ...and not before: while the worker runs, heartbeats go out, and either a
/// frame arrived this tick or the timeout has not yet elapsed, a running
/// supervisor keeps running.
pub proof fn lemma_deadman_not_before(s: SupervisorState, now: u64, frame_arrived: bool,
    heartbeat_send_ok: bool, heartbeat_interval: u64, deadman_timeout: u64)
    requires
        s.phase is Running,
        frame_arrived || sat_sub(now, s.last_seen) <= deadman_timeout,
        sat_sub(now, s.last_heartbeat) > heartbeat_interval ==> heartbeat_send_ok,
    ensures
        step_state_spec(s, now, frame_arrived, heartbeat_send_ok, false, heartbeat_interval,
            deadman_timeout).phase is Running,
        step_verdict_spec(s, now, frame_arrived, heartbeat_send_ok, false, heartbeat_interval,
            deadman_timeout) is Continue,
{
}

/// The keepalive envelope the supervisor enqueues for the worker.
pub fn make_heartbeat() -> (m: IPCMessage)
    ensures
        m matches IPCMessage::ToRadio(t) && t.payload_variant == Some(ToRadioVariant::Heartbeat),
{
    IPCMessage::ToRadio(ToRadioMsg { payload_variant: Some(ToRadioVariant::Heartbeat) })
}

} // verus!
