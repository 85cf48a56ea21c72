//! Session lifecycle: Idle, Configured, Running, Stopped — with the
//! duration-bounded auto-stop of the cooperative scheduler.

use vstd::prelude::*;

use crate::error::Error;

verus! {

/// Where a collection session stands. `Stopped` is terminal for the
/// session; a fresh `init` is needed to run again.
#[derive(Clone, Copy, Debug, PartialEq, Eq, Structural)]
pub enum SessionState {
    /// Nothing brought up yet.
    Idle,
    /// Bring-up done; collection not started.
    Configured,
    /// Collection in progress.
    Running,
    /// The session ended, by duration expiry or an explicit stop.
    Stopped,
}

/// The session state machine and its auto-stop bookkeeping.
pub struct CollectionController {
    state: SessionState,
    started_at: u64,
    deadline: Option<u64>,
}

impl CollectionController {
    /// Where the session stands.
    pub closed spec fn spec_state(&self) -> SessionState {
        self.state
    }

    /// When the running session started.
    pub closed spec fn spec_started_at(&self) -> u64 {
        self.started_at
    }

    /// When the running session stops by itself, if a duration was given.
    pub closed spec fn spec_deadline(&self) -> Option<u64> {
        self.deadline
    }

    /// A fresh, idle controller.
    pub fn new() -> (r: Self)
        ensures
            r.spec_state() is Idle,
            r.spec_deadline() is None,
    {
        CollectionController { state: SessionState::Idle, started_at: 0, deadline: None }
    }

    /// Where the session stands.
    pub fn state_value(&self) -> (r: SessionState)
        ensures
            r == self.spec_state(),
    {
        self.state
    }

    /// Records a completed bring-up. Anywhere but `Idle` this is an
    /// invariant violation and changes nothing.
    pub fn mark_configured(&mut self) -> (r: Result<(), Error>)
        ensures
            r is Ok <==> old(self).spec_state() is Idle,
            r is Ok ==> (final(self).spec_state() is Configured && final(self).spec_deadline()
                == old(self).spec_deadline()),
            r is Err ==> *final(self) == *old(self),
            r matches Err(e) ==> e is SystemError,
    {
        if matches!(self.state, SessionState::Idle) {
            self.state = SessionState::Configured;
            Ok(())
        } else {
            Err(Error::SystemError("bring-up recorded outside the idle state"))
        }
    }

    /// Starts the session at `now`, with an automatic stop after `duration`
    /// when one is given. Starting while already `Running` is a re-entrant
    /// start and fails with `SystemError`, as does starting before a
    /// bring-up or after the session ended; the state is unchanged on every
    /// failure.
    pub fn start(&mut self, duration: Option<u64>, now: u64) -> (r: Result<(), Error>)
        requires
            duration matches Some(d) ==> d <= u64::MAX - now,
        ensures
            r is Ok <==> old(self).spec_state() is Configured,
            r is Ok ==> {
                &&& final(self).spec_state() is Running
                &&& final(self).spec_started_at() == now
                &&& (duration matches Some(d) ==> final(self).spec_deadline() == Some(
                    (now + d) as u64,
                ))
                &&& (duration is None ==> final(self).spec_deadline() is None)
            },
            r is Err ==> *final(self) == *old(self),
            r matches Err(e) ==> e is SystemError,
    {
        if !matches!(self.state, SessionState::Configured) {
            return Err(
                Error::SystemError("collection can start only once, after a completed bring-up"),
            );
        }
        self.state = SessionState::Running;
        self.started_at = now;
        self.deadline = match duration {
            Some(d) => Some(now + d),
            None => None,
        };
        Ok(())
    }

    /// Whether the duration-bounded session is due to stop by itself at
    /// `now`.
    pub fn auto_stop_due(&self, now: u64) -> (r: bool)
        ensures
            r == (self.spec_state() is Running && (self.spec_deadline() matches Some(dl) && now
                >= dl)),
    {
        match self.deadline {
            Some(dl) => matches!(self.state, SessionState::Running) && now >= dl,
            None => false,
        }
    }

    /// Ends the session. Idempotent: stopping an already stopped session
    /// changes nothing.
    pub fn mark_stopped(&mut self)
        ensures
            final(self).spec_state() is Stopped,
            final(self).spec_started_at() == old(self).spec_started_at(),
            final(self).spec_deadline() == old(self).spec_deadline(),
    {
        self.state = SessionState::Stopped;
    }
}

/// When a blocking collection that started at `now` with duration `d` wakes
/// for good: the first scheduler tick at or after `now + d`, with ticks
/// every `tick_ms` counted from `now`. The result lies no earlier than
/// `now + d` and within one tick after it.
pub fn completion_tick(now: u64, d: u64, tick_ms: u64) -> (r: u64)
    requires
        tick_ms >= 1,
        d + tick_ms <= u64::MAX - now,
    ensures
        now + d <= r < now + d + tick_ms,
        (r - now) % (tick_ms as int) == 0,
{
    if d == 0 {
        return now;
    }
    let x = d + tick_ms - 1;
    let q = x / tick_ms;
    proof {
        let xi = x as int;
        let t = tick_ms as int;
        assert(xi == (xi / t) * t + (xi % t) && 0 <= xi % t < t) by (nonlinear_arith)
            requires
                t >= 1,
                xi >= 0,
        ;
        let qi = q as int;
        assert(qi * t == xi - (xi % t));
        assert(d <= qi * t <= xi);
        assert((qi * t) % t == 0) by (nonlinear_arith)
            requires
                t >= 1,
        ;
    }
    now + q * tick_ms
}

} // verus!
