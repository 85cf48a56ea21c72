//! Connection lifecycle: station association with retry and backoff, access
//! point activation, and the best-effort time sync that follows bring-up.
//!
//! The radio and the scheduler live outside this crate, so the retry loop is
//! split in two: a state machine (`start_station`, `step`) that makes every
//! decision, and a driver (`bring_up`) that folds the machine over the
//! outcomes the radio reported. Association outcomes and the stop request
//! arrive as plain values; the contracts hold for every value of them.

use vstd::prelude::*;

use crate::architecture::arch_has_uplink;
use crate::architecture::compatible;
use crate::architecture::select;
use crate::architecture::spec_profile;
use crate::architecture::ArchitectureProfile;
use crate::architecture::NetworkArchitecture;
use crate::architecture::WiFiMode;
use crate::config::wifi_config_ok;
use crate::config::WiFiConfig;
use crate::error::Error;

verus! {

/// The read-only capability handed out once the link is up; the capture
/// pipe and the traffic generator hold it to know they may operate.
#[derive(Clone, Copy, Debug, PartialEq, Eq, Structural)]
pub struct LinkHandle {
    /// The profile the link was brought up under.
    pub profile: ArchitectureProfile,
}

/// Where station bring-up stands.
#[derive(Clone, Copy, Debug, PartialEq, Eq, Structural)]
pub enum BringUpPhase {
    /// An association attempt is in flight.
    Associating,
    /// The last attempt failed; the machine sleeps before the next one.
    Waiting,
    /// Associated; terminal.
    Connected,
    /// Every allowed attempt failed; terminal.
    Failed,
    /// A stop request ended bring-up early; terminal.
    Aborted,
}

/// What the cooperative loop observes at a suspension point.
#[derive(Clone, Copy, Debug, PartialEq, Eq, Structural)]
pub enum LinkEvent {
    /// The in-flight association attempt finished, well or badly.
    AssociationResult(bool),
    /// The backoff wait ran out.
    WaitElapsed,
    /// The shared stop flag was found set.
    Stop,
}

/// What the cooperative loop must do next.
#[derive(Clone, Copy, Debug, PartialEq, Eq, Structural)]
pub enum LinkAction {
    /// Start an association attempt.
    Associate,
    /// Sleep this many seconds before the next attempt.
    Wait(u32),
    /// Announce link-up to the capture pipe and the traffic generator.
    EmitLinkUp,
    /// Report that every allowed attempt failed.
    ReportFailure,
    /// Nothing; the machine is terminal or the event did not apply.
    Idle,
}

/// The station bring-up machine: retry bookkeeping against the configured
/// bounds.
#[derive(Clone, Copy, Debug, PartialEq, Eq, Structural)]
pub struct StationBringUp {
    /// Most association attempts allowed.
    pub max_retries: u32,
    /// Seconds slept between attempts.
    pub timeout_secs: u32,
    /// Association attempts completed so far.
    pub attempts: u32,
    /// Where bring-up stands.
    pub phase: BringUpPhase,
}

/// Phases from which no further attempt is ever made.
pub open spec fn phase_terminal(p: BringUpPhase) -> bool {
    p is Connected || p is Failed || p is Aborted
}

impl StationBringUp {
    /// Attempts stay within the configured bound; a non-terminal machine
    /// still has room to try; failure means the bound is spent.
    pub open spec fn inv(&self) -> bool {
        &&& self.attempts <= self.max_retries
        &&& (self.phase is Associating || self.phase is Waiting) ==> self.attempts
            < self.max_retries
        &&& self.phase is Failed ==> self.attempts == self.max_retries
        &&& self.phase is Connected ==> self.attempts >= 1
    }
}

/// The machine a station starts with: one attempt in flight, or immediate
/// failure when no attempt is allowed at all.
pub open spec fn spec_start_station(max_retries: u32, timeout_secs: u32) -> (StationBringUp,
    LinkAction) {
    if max_retries == 0 {
        (
            StationBringUp { max_retries, timeout_secs, attempts: 0, phase: BringUpPhase::Failed },
            LinkAction::ReportFailure,
        )
    } else {
        (
            StationBringUp {
                max_retries,
                timeout_secs,
                attempts: 0,
                phase: BringUpPhase::Associating,
            },
            LinkAction::Associate,
        )
    }
}

/// One decision of the station bring-up machine.
///
/// A stop request in a non-terminal phase aborts at once: no further wait,
/// no further attempt. A finished attempt either connects or counts the
/// failure, failing for good once the bound is spent and backing off
/// otherwise. An elapsed wait starts the next attempt. Anything else is
/// ignored.
pub open spec fn spec_step(s: StationBringUp, ev: LinkEvent) -> (StationBringUp, LinkAction) {
    if phase_terminal(s.phase) {
        (s, LinkAction::Idle)
    } else if ev is Stop {
        (StationBringUp { phase: BringUpPhase::Aborted, ..s }, LinkAction::Idle)
    } else if s.phase is Associating && ev is AssociationResult {
        let ok = ev->0;
        if ok {
            (
                StationBringUp {
                    attempts: (s.attempts + 1) as u32,
                    phase: BringUpPhase::Connected,
                    ..s
                },
                LinkAction::EmitLinkUp,
            )
        } else if s.attempts + 1 == s.max_retries {
            (
                StationBringUp {
                    attempts: (s.attempts + 1) as u32,
                    phase: BringUpPhase::Failed,
                    ..s
                },
                LinkAction::ReportFailure,
            )
        } else {
            (
                StationBringUp {
                    attempts: (s.attempts + 1) as u32,
                    phase: BringUpPhase::Waiting,
                    ..s
                },
                LinkAction::Wait(s.timeout_secs),
            )
        }
    } else if s.phase is Waiting && ev is WaitElapsed {
        (StationBringUp { phase: BringUpPhase::Associating, ..s }, LinkAction::Associate)
    } else {
        (s, LinkAction::Idle)
    }
}

/// Starts station bring-up against the configured bounds.
pub fn start_station(cfg: &WiFiConfig) -> (r: (StationBringUp, LinkAction))
    ensures
        r == spec_start_station(cfg.max_retries, cfg.timeout_secs),
        r.0.inv(),
{
    if cfg.max_retries == 0 {
        (
            StationBringUp {
                max_retries: cfg.max_retries,
                timeout_secs: cfg.timeout_secs,
                attempts: 0,
                phase: BringUpPhase::Failed,
            },
            LinkAction::ReportFailure,
        )
    } else {
        (
            StationBringUp {
                max_retries: cfg.max_retries,
                timeout_secs: cfg.timeout_secs,
                attempts: 0,
                phase: BringUpPhase::Associating,
            },
            LinkAction::Associate,
        )
    }
}

/// Feeds one event to the station bring-up machine.
pub fn step(s: &mut StationBringUp, ev: LinkEvent) -> (act: LinkAction)
    requires
        old(s).inv(),
    ensures
        (*final(s), act) == spec_step(*old(s), ev),
        final(s).inv(),
        final(s).max_retries == old(s).max_retries,
        final(s).timeout_secs == old(s).timeout_secs,
{
    match s.phase {
        BringUpPhase::Connected | BringUpPhase::Failed | BringUpPhase::Aborted => LinkAction::Idle,
        _ => {
            match ev {
                LinkEvent::Stop => {
                    s.phase = BringUpPhase::Aborted;
                    LinkAction::Idle
                },
                LinkEvent::AssociationResult(ok) => {
                    if matches!(s.phase, BringUpPhase::Associating) {
                        s.attempts = s.attempts + 1;
                        if ok {
                            s.phase = BringUpPhase::Connected;
                            LinkAction::EmitLinkUp
                        } else if s.attempts == s.max_retries {
                            s.phase = BringUpPhase::Failed;
                            LinkAction::ReportFailure
                        } else {
                            s.phase = BringUpPhase::Waiting;
                            LinkAction::Wait(s.timeout_secs)
                        }
                    } else {
                        LinkAction::Idle
                    }
                },
                LinkEvent::WaitElapsed => {
                    if matches!(s.phase, BringUpPhase::Waiting) {
                        s.phase = BringUpPhase::Associating;
                        LinkAction::Associate
                    } else {
                        LinkAction::Idle
                    }
                },
            }
        },
    }
}

/// A stop request found at any suspension point of a live bring-up — in
/// particular mid-retry-wait — moves the machine to its terminal `Aborted`
/// phase in that single step, issuing no further wait and no further
/// association: the caller returns within one scheduler tick.
pub proof fn lemma_stop_aborts_promptly(s: StationBringUp)
    requires
        s.inv(),
        !phase_terminal(s.phase),
    ensures
        spec_step(s, LinkEvent::Stop).0.phase is Aborted,
        spec_step(s, LinkEvent::Stop).1 is Idle,
        spec_step(s, LinkEvent::Stop).0.attempts == s.attempts,
{
}

/// The position of the first successful outcome among the first `bound`,
/// if any.
pub open spec fn first_success(outcomes: Seq<bool>, bound: int) -> Option<int>
    decreases bound,
{
    if bound <= 0 {
        Option::None
    } else {
        match first_success(outcomes, bound - 1) {
            Option::Some(i) => Option::Some(i),
            Option::None => if outcomes[bound - 1] {
                Option::Some(bound - 1)
            } else {
                Option::None
            },
        }
    }
}

/// A success found within a shorter prefix is the one any longer prefix
/// finds.
pub proof fn lemma_first_success_mono(outcomes: Seq<bool>, b1: int, b2: int)
    requires
        b1 <= b2,
        first_success(outcomes, b1) is Some,
    ensures
        first_success(outcomes, b2) == first_success(outcomes, b1),
    decreases b2 - b1,
{
    if b1 < b2 {
        lemma_first_success_mono(outcomes, b1, b2 - 1);
    }
}

/// How many association attempts the cooperative run allows: the configured
/// bound, cut short when a stop request arrives during the backoff wait that
/// follows the `w`-th failed attempt (`w` counted from zero).
pub open spec fn spec_attempt_bound(max_retries: u32, stop_during_wait: Option<u32>) -> int {
    match stop_during_wait {
        Option::Some(w) => if w + 1 < max_retries {
            w + 1
        } else {
            max_retries as int
        },
        Option::None => max_retries as int,
    }
}

/// Runs station bring-up to completion against the reported association
/// outcomes: attempt `i + 1` observes `outcomes[i]`. A stop request found
/// during the backoff wait after attempt `w + 1` aborts the run there.
/// Returns the result together with how many attempts were made — never
/// more than `max_retries`, and none past the first success or the stop.
pub fn run_station_bring_up(cfg: &WiFiConfig, outcomes: &[bool], stop_during_wait: Option<u32>) -> (r:
    (Result<(), Error>, u32))
    requires
        outcomes@.len() >= cfg.max_retries,
    ensures
        r.1 <= cfg.max_retries,
        r.1 <= spec_attempt_bound(cfg.max_retries, stop_during_wait),
        ({
            let bound = spec_attempt_bound(cfg.max_retries, stop_during_wait);
            match first_success(outcomes@, bound) {
                Option::Some(i) => r.0 is Ok && r.1 == i + 1,
                Option::None => (r.0 matches Err(e) && e is WiFiError) && r.1 == bound,
            }
        }),
{
    let ghost bound = spec_attempt_bound(cfg.max_retries, stop_during_wait);
    let (mut st, act) = start_station(cfg);
    if matches!(act, LinkAction::ReportFailure) {
        return (Err(Error::WiFiError("association failed: no attempt allowed")), 0);
    }
    loop
        invariant
            st.inv(),
            st.phase is Associating,
            st.max_retries == cfg.max_retries,
            st.attempts < cfg.max_retries,
            outcomes@.len() >= cfg.max_retries,
            first_success(outcomes@, st.attempts as int) is None,
            stop_during_wait matches Some(w) ==> w >= st.attempts,
            bound == spec_attempt_bound(cfg.max_retries, stop_during_wait),
        decreases cfg.max_retries - st.attempts,
    {
        let idx = st.attempts as usize;
        let ok = outcomes[idx];
        let _act = step(&mut st, LinkEvent::AssociationResult(ok));
        if ok {
            proof {
                assert(first_success(outcomes@, st.attempts as int) == Option::Some(
                    st.attempts - 1,
                ));
                assert(bound >= st.attempts as int);
                lemma_first_success_mono(outcomes@, st.attempts as int, bound);
            }
            return (Ok(()), st.attempts);
        }
        if matches!(st.phase, BringUpPhase::Failed) {
            proof {
                assert(first_success(outcomes@, st.attempts as int) is None);
                assert(bound == st.attempts as int);
            }
            return (Err(Error::WiFiError("association failed: retries exhausted")), st.attempts);
        }
        let stop_now = match stop_during_wait {
            Some(w) => w == st.attempts - 1,
            None => false,
        };
        if stop_now {
            let _act2 = step(&mut st, LinkEvent::Stop);
            proof {
                assert(bound == st.attempts as int);
            }
            return (Err(Error::WiFiError("bring-up aborted by stop")), st.attempts);
        }
        let _act3 = step(&mut st, LinkEvent::WaitElapsed);
    }
}

/// Roles that activate the radio directly (hosting an access point, or
/// promiscuous capture), reported ready at once, with no retry loop.
pub open spec fn needs_activation(mode: WiFiMode) -> bool {
    mode is Sniffer || mode is AccessPoint || mode is AccessPointStation
}

/// Roles that associate to a host, with retry and backoff.
pub open spec fn needs_association(mode: WiFiMode) -> bool {
    mode is Station || mode is AccessPointStation
}

/// What one bring-up run did: attempts made, and how the best-effort time
/// sync went.
#[derive(Clone, Copy, Debug, PartialEq, Eq, Structural)]
pub struct BringUpReport {
    /// Association attempts made (zero for pure activation roles).
    pub attempts: u32,
    /// Whether a time sync was attempted; only after a successful bring-up
    /// of an architecture with an uplink.
    pub sync_attempted: bool,
    /// Whether that attempt failed. Recorded, never fatal: frame timestamps
    /// degrade gracefully without wall-clock accuracy.
    pub sync_failed: bool,
}

/// Brings the link up for the requested role and topology.
///
/// The configuration is checked first, then the role's radio work runs:
/// activation roles configure and activate the radio and are ready at once;
/// association roles retry against the reported outcomes, at most
/// `cfg.max_retries` attempts, aborting early on a stop request. On success
/// over an uplink architecture a time sync is attempted; its failure is
/// reported but never aborts bring-up.
pub fn bring_up(
    cfg: &WiFiConfig,
    mode: WiFiMode,
    arch: NetworkArchitecture,
    activation_ok: bool,
    assoc_outcomes: &[bool],
    stop_during_wait: Option<u32>,
    sync_ok: bool,
) -> (r: (Result<LinkHandle, Error>, BringUpReport))
    requires
        assoc_outcomes@.len() >= cfg.max_retries,
    ensures
        r.1.attempts <= cfg.max_retries,
        !compatible(mode, arch) ==> (r.0 matches Err(e) && e is ConfigError),
        compatible(mode, arch) && !wifi_config_ok(cfg@, mode) ==> (r.0 matches Err(e)
            && e is ConfigError),
        compatible(mode, arch) && wifi_config_ok(cfg@, mode) && needs_activation(mode)
            && !activation_ok ==> ((r.0 matches Err(e) && e is WiFiError) && r.1.attempts == 0),
        compatible(mode, arch) && wifi_config_ok(cfg@, mode) && (needs_activation(mode)
            ==> activation_ok) ==> ({
            let bound = spec_attempt_bound(cfg.max_retries, stop_during_wait);
            if needs_association(mode) {
                match first_success(assoc_outcomes@, bound) {
                    Option::Some(i) => r.0 is Ok && r.1.attempts == i + 1,
                    Option::None => (r.0 matches Err(e) && e is WiFiError) && r.1.attempts == bound,
                }
            } else {
                r.0 is Ok && r.1.attempts == 0
            }
        }),
        r.0 matches Ok(h) ==> h.profile == spec_profile(mode, arch),
        r.0 is Ok ==> (r.1.sync_attempted <==> arch_has_uplink(arch)),
        r.0 is Ok ==> (r.1.sync_failed <==> (arch_has_uplink(arch) && !sync_ok)),
        r.0 is Err ==> (!r.1.sync_attempted && !r.1.sync_failed),
{
    let no_report = BringUpReport { attempts: 0, sync_attempted: false, sync_failed: false };
    let profile = match select(mode, arch) {
        Ok(p) => p,
        Err(e) => {
            return (Err(e), no_report);
        },
    };
    if let Err(e) = cfg.validate(mode) {
        return (Err(e), no_report);
    }
    let needs_act = matches!(mode, WiFiMode::Sniffer | WiFiMode::AccessPoint | WiFiMode::AccessPointStation);
    if needs_act && !activation_ok {
        return (Err(Error::WiFiError("radio activation failed")), no_report);
    }
    let needs_assoc = matches!(mode, WiFiMode::Station | WiFiMode::AccessPointStation);
    let mut attempts: u32 = 0;
    if needs_assoc {
        let (outcome, used) = run_station_bring_up(cfg, assoc_outcomes, stop_during_wait);
        attempts = used;
        if let Err(e) = outcome {
            return (
                Err(e),
                BringUpReport { attempts, sync_attempted: false, sync_failed: false },
            );
        }
    }
    let sync_attempted = profile.time_sync;
    let sync_failed = sync_attempted && !sync_ok;
    (
        Ok(LinkHandle { profile }),
        BringUpReport { attempts, sync_attempted, sync_failed },
    )
}

} // verus!
