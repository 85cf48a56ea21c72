//! Periodic traffic generation, to stimulate frame arrival where ambient
//! traffic is sparse.
//!
//! The generator is the decision half of a background task: it keeps the
//! emission schedule and the failure count, while the actual send through
//! the network stack happens outside and reports back a plain outcome. A
//! failed send is counted and reported, never fatal: the task carries on
//! with its next scheduled interval.

use vstd::prelude::*;

use crate::architecture::ArchitectureProfile;
use crate::config::TrafficConfig;
use crate::config::TrafficType;
use crate::error::Error;

verus! {

/// When the `k`-th packet (counting from one) is due: exactly `k` intervals
/// past the start, whatever happens in between.
pub open spec fn emission_due(start_ms: u64, interval_ms: u64, k: nat) -> int {
    start_ms + k * interval_ms
}

/// The emission schedule has a fixed cadence: consecutive packets are due
/// exactly one interval apart, independent of frame arrival, send failures,
/// or anything else the task observes.
pub proof fn lemma_uniform_emission_spacing(start_ms: u64, interval_ms: u64, k: nat)
    ensures
        emission_due(start_ms, interval_ms, k + 1) - emission_due(start_ms, interval_ms, k)
            == interval_ms,
{
    assert((k + 1) * interval_ms == k * interval_ms + interval_ms) by (nonlinear_arith);
}

/// The generator runs only when explicitly enabled and only for roles whose
/// captured frames come from this device's own traffic.
pub fn traffic_task_needed(enabled: bool, profile: &ArchitectureProfile) -> (r: bool)
    ensures
        r == (enabled && profile.csi_source is OwnTraffic),
{
    enabled && matches!(profile.csi_source, crate::architecture::CsiSource::OwnTraffic)
}

/// The periodic background task's state: the emission schedule and the
/// failure count.
pub struct TrafficGenerator {
    traffic_type: TrafficType,
    interval_ms: u64,
    start_ms: u64,
    emitted: u64,
    next_due: u64,
    failures: u64,
    stopped: bool,
}

impl TrafficGenerator {
    /// The kind of packet emitted.
    pub closed spec fn spec_traffic_type(&self) -> TrafficType {
        self.traffic_type
    }

    /// Milliseconds between packets.
    pub closed spec fn spec_interval(&self) -> u64 {
        self.interval_ms
    }

    /// When the generator started.
    pub closed spec fn spec_start(&self) -> u64 {
        self.start_ms
    }

    /// Packets emitted so far.
    pub closed spec fn spec_emitted(&self) -> u64 {
        self.emitted
    }

    /// When the next packet is due.
    pub closed spec fn spec_next_due(&self) -> u64 {
        self.next_due
    }

    /// Sends that failed so far.
    pub closed spec fn spec_failures(&self) -> u64 {
        self.failures
    }

    /// Whether the task was told to exit (or its schedule ran off the end
    /// of the clock).
    pub closed spec fn spec_stopped(&self) -> bool {
        self.stopped
    }

    /// The interval is positive, the running schedule sits exactly
    /// `emitted + 1` intervals past the start, and at most one failure was
    /// counted per emission.
    pub closed spec fn wf(&self) -> bool {
        &&& self.interval_ms >= 1
        &&& !self.stopped ==> self.next_due == self.start_ms + (self.emitted + 1)
            * self.interval_ms
        &&& self.failures <= self.emitted
    }

    /// A generator for the given configuration, started at `now`: the first
    /// packet is due one interval later. A zero interval is contradictory
    /// and rejected; a first deadline past the end of the clock is rejected
    /// the same way.
    pub fn new(cfg: &TrafficConfig, now: u64) -> (r: Result<Self, Error>)
        ensures
            r is Ok <==> (cfg.traffic_interval_ms >= 1 && now + cfg.traffic_interval_ms
                <= u64::MAX),
            r matches Ok(g) ==> {
                &&& g.wf()
                &&& g.spec_traffic_type() == cfg.traffic_type
                &&& g.spec_interval() == cfg.traffic_interval_ms
                &&& g.spec_start() == now
                &&& g.spec_emitted() == 0
                &&& g.spec_failures() == 0
                &&& !g.spec_stopped()
                &&& g.spec_next_due() == emission_due(now, cfg.traffic_interval_ms, 1)
            },
            r matches Err(e) ==> e is ConfigError,
    {
        if cfg.traffic_interval_ms == 0 {
            return Err(Error::ConfigError("the traffic interval must be at least one millisecond"));
        }
        if cfg.traffic_interval_ms > u64::MAX - now {
            return Err(Error::ConfigError("the traffic schedule would overflow the clock"));
        }
        proof {
            assert(1 * (cfg.traffic_interval_ms as int) == cfg.traffic_interval_ms as int);
        }
        Ok(
            TrafficGenerator {
                traffic_type: cfg.traffic_type,
                interval_ms: cfg.traffic_interval_ms,
                start_ms: now,
                emitted: 0,
                next_due: now + cfg.traffic_interval_ms,
                failures: 0,
                stopped: false,
            },
        )
    }

    /// Whether a packet is due at `now`: the running task wakes at its next
    /// deadline and emits one packet.
    pub fn due(&self, now: u64) -> (r: bool)
        ensures
            r == (!self.spec_stopped() && now >= self.spec_next_due()),
    {
        !self.stopped && now >= self.next_due
    }

    /// Records one emission and the outcome of its send, and schedules the
    /// next packet exactly one interval later. A failed send is counted and
    /// reported as `TrafficError`, and the task carries on: only a deadline
    /// past the end of the clock ends the schedule.
    pub fn emit(&mut self, send_ok: bool) -> (r: Result<(), Error>)
        requires
            old(self).wf(),
        ensures
            final(self).wf(),
            final(self).spec_traffic_type() == old(self).spec_traffic_type(),
            final(self).spec_interval() == old(self).spec_interval(),
            final(self).spec_start() == old(self).spec_start(),
            old(self).spec_stopped() ==> (*final(self) == *old(self) && (r matches Err(e)
                && e is SystemError)),
            !old(self).spec_stopped() ==> {
                &&& final(self).spec_emitted() == old(self).spec_emitted() + 1
                &&& (send_ok ==> r is Ok && final(self).spec_failures() == old(self).spec_failures())
                &&& (!send_ok ==> (r matches Err(e) && e is TrafficError)
                    && final(self).spec_failures() == old(self).spec_failures() + 1)
                &&& final(self).spec_stopped() == (old(self).spec_next_due()
                    + old(self).spec_interval() > u64::MAX)
                &&& (!final(self).spec_stopped() ==> final(self).spec_next_due() == emission_due(
                    old(self).spec_start(),
                    old(self).spec_interval(),
                    (old(self).spec_emitted() + 2) as nat,
                ))
            },
    {
        if self.stopped {
            return Err(Error::SystemError("the traffic generator has exited"));
        }
        proof {
            assert(self.emitted + 1 <= self.emitted + 1);
            assert(self.next_due == self.start_ms + (self.emitted + 1) * self.interval_ms);
            assert((self.emitted + 1) * self.interval_ms >= self.emitted + 1) by (nonlinear_arith)
                requires
                    self.interval_ms >= 1,
            ;
        }
        self.emitted = self.emitted + 1;
        if self.interval_ms > u64::MAX - self.next_due {
            self.stopped = true;
        } else {
            self.next_due = self.next_due + self.interval_ms;
            proof {
                let e = old(self).emitted as int;
                let iv = self.interval_ms as int;
                assert((e + 2) * iv == (e + 1) * iv + iv) by (nonlinear_arith);
            }
        }
        if send_ok {
            Ok(())
        } else {
            self.failures = self.failures + 1;
            Err(Error::TrafficError("a traffic send failed"))
        }
    }

    /// Tells the task to exit at its next suspension point. Idempotent and
    /// terminal.
    pub fn stop(&mut self)
        requires
            old(self).wf(),
        ensures
            final(self).wf(),
            final(self).spec_stopped(),
            final(self).spec_traffic_type() == old(self).spec_traffic_type(),
            final(self).spec_interval() == old(self).spec_interval(),
            final(self).spec_start() == old(self).spec_start(),
            final(self).spec_emitted() == old(self).spec_emitted(),
            final(self).spec_failures() == old(self).spec_failures(),
    {
        self.stopped = true;
    }

    /// Packets emitted so far.
    pub fn emitted(&self) -> (r: u64)
        ensures
            r == self.spec_emitted(),
    {
        self.emitted
    }

    /// Sends that failed so far.
    pub fn failures(&self) -> (r: u64)
        ensures
            r == self.spec_failures(),
    {
        self.failures
    }

    /// Whether the task has exited.
    pub fn is_stopped(&self) -> (r: bool)
        ensures
            r == self.spec_stopped(),
    {
        self.stopped
    }

    /// The kind of packet emitted.
    pub fn traffic_type(&self) -> (r: TrafficType)
        ensures
            r == self.spec_traffic_type(),
    {
        self.traffic_type
    }
}

} // verus!
