//! The collector facade: one value owning the configuration, the link, the
//! capture pipe, the distribution channel, the traffic generator and the
//! session state machine.
//!
//! The radio, the network stack and the scheduler live outside this crate;
//! every outcome they decide (an activation report, association results, a
//! stop request found mid-wait, a send result, the time) reaches the
//! collector as a plain value, and each contract holds for every value of
//! them.

use vstd::prelude::*;

use crate::architecture::arch_has_uplink;
use crate::architecture::compatible;
use crate::architecture::mode_csi_source;
use crate::architecture::select;
use crate::architecture::spec_profile;
use crate::architecture::NetworkArchitecture;
use crate::architecture::WiFiMode;
use crate::capture::spec_kept_samples;
use crate::capture::CSICapturePipe;
use crate::capture::CSIFrameView;
use crate::channel::push_lossy;
use crate::channel::DistributionChannel;
use crate::channel::NextPoll;
use crate::config::wifi_config_ok;
use crate::config::CSIConfig;
use crate::config::TrafficConfig;
use crate::config::WiFiConfig;
use crate::connection::bring_up;
use crate::connection::first_success;
use crate::connection::needs_activation;
use crate::connection::needs_association;
use crate::connection::spec_attempt_bound;
use crate::connection::LinkHandle;
use crate::controller::completion_tick;
use crate::controller::CollectionController;
use crate::controller::SessionState;
use crate::error::Error;
use crate::traffic::traffic_task_needed;
use crate::traffic::TrafficGenerator;
use crate::FRAME_CAPACITY;

verus! {

/// Frames each subscriber's queue holds before the oldest is evicted.
pub const CHANNEL_CAPACITY: usize = 4;

/// Most subscribers the distribution channel takes.
pub const MAX_SUBSCRIBERS: usize = 2;

/// The CSI collector: configuration, link, capture pipe, distribution
/// channel, traffic generator and session state under one roof.
pub struct CSICollector {
    wifi: WiFiConfig,
    mode: WiFiMode,
    csi: CSIConfig,
    traffic: TrafficConfig,
    traffic_enabled: bool,
    architecture: NetworkArchitecture,
    capture_limit: Option<usize>,
    defer_start: bool,
    seed: u64,
    link: Option<LinkHandle>,
    pipe: Option<CSICapturePipe>,
    channel: Option<DistributionChannel>,
    generator: Option<TrafficGenerator>,
    controller: CollectionController,
    sync_failures: u32,
}

impl CSICollector {
    /// The stored WiFi configuration.
    pub closed spec fn spec_wifi(&self) -> crate::config::WiFiConfigView {
        self.wifi@
    }

    /// The requested radio role.
    pub closed spec fn spec_mode(&self) -> WiFiMode {
        self.mode
    }

    /// The stored capture feature selector.
    pub closed spec fn spec_csi(&self) -> CSIConfig {
        self.csi
    }

    /// The stored traffic configuration.
    pub closed spec fn spec_traffic(&self) -> TrafficConfig {
        self.traffic
    }

    /// Whether traffic generation was requested.
    pub closed spec fn spec_traffic_enabled(&self) -> bool {
        self.traffic_enabled
    }

    /// The requested topology.
    pub closed spec fn spec_architecture(&self) -> NetworkArchitecture {
        self.architecture
    }

    /// The requested capture byte limit.
    pub closed spec fn spec_capture_limit(&self) -> Option<usize> {
        self.capture_limit
    }

    /// Whether the embedding asked to defer the start of collection.
    pub closed spec fn spec_defer_start(&self) -> bool {
        self.defer_start
    }

    /// Where the session stands.
    pub closed spec fn spec_state(&self) -> SessionState {
        self.controller.spec_state()
    }

    /// The link capability, once bring-up succeeded.
    pub closed spec fn spec_link(&self) -> Option<LinkHandle> {
        self.link
    }

    /// The frames each subscriber has yet to read; empty before `init`.
    pub closed spec fn spec_models(&self) -> Seq<Seq<CSIFrameView>> {
        match self.channel {
            Option::Some(c) => c.models(),
            Option::None => Seq::empty(),
        }
    }

    /// Whether the distribution channel has been closed.
    pub closed spec fn spec_channel_closed(&self) -> bool {
        match self.channel {
            Option::Some(c) => c.spec_closed(),
            Option::None => false,
        }
    }

    /// The traffic generator, where one was spawned.
    pub closed spec fn spec_generator(&self) -> Option<TrafficGenerator> {
        self.generator
    }

    /// Whether a traffic generator task was spawned.
    pub closed spec fn spec_generator_spawned(&self) -> bool {
        self.generator is Some
    }

    /// The session's auto-stop deadline, where a duration was given.
    pub closed spec fn spec_deadline(&self) -> Option<u64> {
        self.controller.spec_deadline()
    }

    /// The samples kept per captured frame.
    pub closed spec fn spec_frame_limit(&self) -> usize {
        match self.pipe {
            Option::Some(p) => p.limit,
            Option::None => FRAME_CAPACITY,
        }
    }

    /// The traffic generator runs only when asked for and only where frames
    /// come from this device's own traffic.
    pub open spec fn spec_traffic_needed(&self) -> bool {
        self.spec_traffic_enabled() && mode_csi_source(self.spec_mode()) is OwnTraffic
    }

    /// Everything `init` checks before touching the radio: a compatible
    /// role/topology pair, a well-formed WiFi configuration, and — where a
    /// traffic task will be spawned — a positive interval whose first
    /// deadline fits the clock.
    pub open spec fn spec_config_accepted(&self, now: u64) -> bool {
        &&& compatible(self.spec_mode(), self.spec_architecture())
        &&& wifi_config_ok(self.spec_wifi(), self.spec_mode())
        &&& self.spec_traffic_needed() ==> (self.spec_traffic().traffic_interval_ms >= 1
            && self.spec_traffic().traffic_interval_ms <= u64::MAX - now)
    }

    /// The radio work `init` depends on: activation roles need the radio
    /// active, association roles need one successful attempt within the
    /// allowed bound.
    pub open spec fn spec_radio_ok(
        &self,
        activation_ok: bool,
        outcomes: Seq<bool>,
        stop_during_wait: Option<u32>,
    ) -> bool {
        &&& needs_activation(self.spec_mode()) ==> activation_ok
        &&& needs_association(self.spec_mode()) ==> first_success(
            outcomes,
            spec_attempt_bound(self.spec_wifi().max_retries, stop_during_wait),
        ) is Some
    }

    /// The collector's internal consistency, established by `new` and kept
    /// by every method.
    pub closed spec fn wf(&self) -> bool {
        &&& (self.controller.spec_state() is Configured || self.controller.spec_state()
            is Running) ==> (self.link is Some && self.pipe is Some && self.channel is Some)
        &&& self.controller.spec_state() is Idle ==> (self.link is None && self.pipe is None
            && self.channel is None && self.generator is None)
        &&& (self.controller.spec_state() is Configured || self.controller.spec_state()
            is Running) ==> !self.spec_channel_closed()
        &&& (self.channel matches Option::Some(c) ==> (c.wf() && c.spec_capacity()
            == CHANNEL_CAPACITY && c.spec_max_subscribers() == MAX_SUBSCRIBERS))
        &&& (self.generator matches Option::Some(g) ==> g.wf())
        &&& (self.pipe matches Option::Some(p) ==> p.limit <= FRAME_CAPACITY)
    }

    /// Pure value construction; no side effects. Bring-up, hook
    /// registration and task spawning happen in `init`.
    pub fn new(
        wifi: WiFiConfig,
        mode: WiFiMode,
        csi: CSIConfig,
        traffic: TrafficConfig,
        traffic_enabled: bool,
        architecture: NetworkArchitecture,
        capture_limit: Option<usize>,
        defer_start: bool,
    ) -> (r: Self)
        ensures
            r.wf(),
            r.spec_wifi() == wifi@,
            r.spec_mode() == mode,
            r.spec_csi() == csi,
            r.spec_traffic() == traffic,
            r.spec_traffic_enabled() == traffic_enabled,
            r.spec_architecture() == architecture,
            r.spec_capture_limit() == capture_limit,
            r.spec_defer_start() == defer_start,
            r.spec_state() is Idle,
            r.spec_models() == Seq::<Seq<CSIFrameView>>::empty(),
            !r.spec_generator_spawned(),
    {
        CSICollector {
            wifi,
            mode,
            csi,
            traffic,
            traffic_enabled,
            architecture,
            capture_limit,
            defer_start,
            seed: 0,
            link: None,
            pipe: None,
            channel: None,
            generator: None,
            controller: CollectionController::new(),
            sync_failures: 0,
        }
    }

    /// One-time bring-up: checks the configuration, brings the link up for
    /// the role (activation at once, association with retry and backoff,
    /// then a best-effort time sync whose failure is recorded, never
    /// fatal), registers the capture hook, builds the distribution channel
    /// and spawns the traffic generator where one is needed.
    ///
    /// The radio's and scheduler's answers arrive as plain values:
    /// `activation_ok` is the activation report, `assoc_outcomes[i]` is the
    /// outcome of association attempt `i + 1`, `stop_during_wait` says
    /// during which backoff wait (if any) a stop request was found,
    /// `sync_ok` is the time-sync report and `hook_accepted` the driver's
    /// answer to hook registration.
    ///
    /// Every failure leaves the collector exactly as it was: a repaired
    /// call can be made again.
    pub fn init(
        &mut self,
        seed: u64,
        activation_ok: bool,
        assoc_outcomes: &[bool],
        stop_during_wait: Option<u32>,
        sync_ok: bool,
        hook_accepted: bool,
        now: u64,
    ) -> (r: Result<(), Error>)
        requires
            old(self).wf(),
            assoc_outcomes@.len() >= old(self).spec_wifi().max_retries,
        ensures
            final(self).wf(),
            old(self).spec_state() !is Idle ==> ((r matches Err(e) && e is SystemError) && *final(self) == *old(self)),
            old(self).spec_state() is Idle ==> {
                &&& (r is Ok <==> (old(self).spec_config_accepted(now) && old(self).spec_radio_ok(
                    activation_ok,
                    assoc_outcomes@,
                    stop_during_wait,
                ) && hook_accepted))
                &&& (r is Err ==> *final(self) == *old(self))
                &&& (!old(self).spec_config_accepted(now) ==> (r matches Err(e)
                    && e is ConfigError))
                &&& ((old(self).spec_config_accepted(now) && !old(self).spec_radio_ok(
                    activation_ok,
                    assoc_outcomes@,
                    stop_during_wait,
                )) ==> (r matches Err(e) && e is WiFiError))
                &&& ((old(self).spec_config_accepted(now) && old(self).spec_radio_ok(
                    activation_ok,
                    assoc_outcomes@,
                    stop_during_wait,
                ) && !hook_accepted) ==> (r matches Err(e) && e is CSIError))
            },
            r is Ok ==> {
                &&& final(self).spec_state() is Configured
                &&& final(self).spec_link() == Some(
                    LinkHandle {
                        profile: spec_profile(
                            old(self).spec_mode(),
                            old(self).spec_architecture(),
                        ),
                    },
                )
                &&& final(self).spec_generator_spawned() == old(self).spec_traffic_needed()
                &&& final(self).spec_models() == Seq::<Seq<CSIFrameView>>::empty()
                &&& !final(self).spec_channel_closed()
                &&& final(self).spec_sync_failures() == (if arch_has_uplink(
                    old(self).spec_architecture(),
                ) && !sync_ok {
                    1int
                } else {
                    0int
                })
                &&& final(self).spec_wifi() == old(self).spec_wifi()
                &&& final(self).spec_mode() == old(self).spec_mode()
                &&& final(self).spec_architecture() == old(self).spec_architecture()
                &&& final(self).spec_traffic() == old(self).spec_traffic()
                &&& final(self).spec_frame_limit() == crate::capture::spec_effective_limit(
                    old(self).spec_capture_limit(),
                )
            },
    {
        if !matches!(self.controller_state(), SessionState::Idle) {
            return Err(Error::SystemError("init is allowed only in the idle state"));
        }
        let profile = match select(self.mode, self.architecture) {
            Ok(p) => p,
            Err(e) => {
                return Err(e);
            },
        };
        if let Err(e) = self.wifi.validate(self.mode) {
            return Err(e);
        }
        let needed = traffic_task_needed(self.traffic_enabled, &profile);
        let mut generator: Option<TrafficGenerator> = None;
        if needed {
            match TrafficGenerator::new(&self.traffic, now) {
                Ok(g) => {
                    generator = Some(g);
                },
                Err(e) => {
                    return Err(e);
                },
            }
        }
        let (outcome, report) = bring_up(
            &self.wifi,
            self.mode,
            self.architecture,
            activation_ok,
            assoc_outcomes,
            stop_during_wait,
            sync_ok,
        );
        let handle = match outcome {
            Ok(h) => h,
            Err(e) => {
                return Err(e);
            },
        };
        let mut pipe = CSICapturePipe::new(self.csi, self.capture_limit);
        if let Err(e) = pipe.register(&handle.profile, hook_accepted) {
            return Err(e);
        }
        let channel = match DistributionChannel::new(CHANNEL_CAPACITY, MAX_SUBSCRIBERS) {
            Ok(c) => c,
            Err(e) => {
                return Err(e);
            },
        };
        self.seed = seed;
        self.link = Some(handle);
        self.pipe = Some(pipe);
        self.channel = Some(channel);
        self.generator = generator;
        self.sync_failures = if report.sync_failed {
            1
        } else {
            0
        };
        let marked = self.controller.mark_configured();
        proof {
            assert(marked is Ok);
        }
        Ok(())
    }

    /// Best-effort time syncs that failed; recorded, never fatal.
    pub closed spec fn spec_sync_failures(&self) -> int {
        self.sync_failures as int
    }

    /// Where the session stands.
    pub fn controller_state(&self) -> (r: SessionState)
        ensures
            r == self.spec_state(),
    {
        self.controller.state_value()
    }

    /// Whether a time-sync uplink is in use: fixed by the architecture at
    /// bring-up, false before `init`.
    pub fn time_sync_enabled(&self) -> (r: bool)
        ensures
            r == (self.spec_link() matches Some(h) && h.profile.time_sync),
    {
        match &self.link {
            Some(h) => h.profile.time_sync,
            None => false,
        }
    }

    /// Whether a traffic generator task was spawned at `init`.
    pub fn traffic_task_spawned(&self) -> (r: bool)
        ensures
            r == self.spec_generator_spawned(),
    {
        self.generator.is_some()
    }

    /// Whether the embedding asked to defer the start of collection; stored
    /// at construction for the embedding to honour, never read by the
    /// collector itself.
    pub fn defer_start(&self) -> (r: bool)
        ensures
            r == self.spec_defer_start(),
    {
        self.defer_start
    }

    /// The requested capture byte limit, before it is cut to the frame
    /// capacity.
    pub fn capture_limit(&self) -> (r: Option<usize>)
        ensures
            r == self.spec_capture_limit(),
    {
        self.capture_limit
    }

    /// Best-effort time syncs that failed.
    pub fn sync_failures(&self) -> (r: u32)
        ensures
            r as int == self.spec_sync_failures(),
    {
        self.sync_failures
    }

    /// Attaches a subscriber. Allowed while the session is configured or
    /// running; past the subscriber bound the call fails with `CSIError`
    /// and every existing subscriber is untouched.
    pub fn subscribe(&mut self) -> (r: Result<usize, Error>)
        requires
            old(self).wf(),
        ensures
            final(self).wf(),
            r is Ok <==> ((old(self).spec_state() is Configured || old(self).spec_state()
                is Running) && old(self).spec_models().len() < MAX_SUBSCRIBERS),
            r matches Ok(id) ==> {
                &&& id == old(self).spec_models().len()
                &&& final(self).spec_models() == old(self).spec_models().push(
                    Seq::<CSIFrameView>::empty(),
                )
            },
            final(self).spec_state() == old(self).spec_state(),
            final(self).spec_deadline() == old(self).spec_deadline(),
            final(self).spec_link() == old(self).spec_link(),
            final(self).spec_generator() == old(self).spec_generator(),
            final(self).spec_channel_closed() == old(self).spec_channel_closed(),
            r is Err ==> *final(self) == *old(self),
            r matches Err(e) ==> (e is CSIError || e is SystemError),
            ((old(self).spec_state() is Configured || old(self).spec_state() is Running) && old(self).spec_models().len() >= MAX_SUBSCRIBERS) ==> (r matches Err(e) && e is CSIError),
    {
        let st = self.controller_state();
        if !matches!(st, SessionState::Configured | SessionState::Running) {
            return Err(Error::SystemError("subscribing needs a configured or running session"));
        }
        let mut ch = match self.channel.take() {
            Some(c) => c,
            None => {
                return Err(Error::SystemError("no channel"));
            },
        };
        let out = ch.subscribe();
        self.channel = Some(ch);
        proof {
            if out is Err {
                assert(*self =~= *old(self));
            }
        }
        out
    }

    /// Starts collection and returns a subscriber handle at once; the
    /// caller consumes frames independently. With a duration, the session
    /// stops by itself once `on_tick` sees the deadline passed; without
    /// one, it runs until `stop`. Starting anywhere but the configured
    /// state — in particular re-entrantly — fails with `SystemError` and
    /// changes nothing.
    pub fn collect_stream(&mut self, duration: Option<u64>, now: u64) -> (r: Result<usize, Error>)
        requires
            old(self).wf(),
            duration matches Some(d) ==> d <= u64::MAX - now,
        ensures
            final(self).wf(),
            r is Ok <==> (old(self).spec_state() is Configured && old(self).spec_models().len()
                < MAX_SUBSCRIBERS),
            r matches Ok(id) ==> {
                &&& id == old(self).spec_models().len()
                &&& final(self).spec_state() is Running
                &&& final(self).spec_models() == old(self).spec_models().push(
                    Seq::<CSIFrameView>::empty(),
                )
                &&& (duration matches Some(d) ==> final(self).spec_deadline() == Some(
                    (now + d) as u64,
                ))
                &&& (duration is None ==> final(self).spec_deadline() is None)
            },
            r is Err ==> *final(self) == *old(self),
            old(self).spec_state() !is Configured ==> (r matches Err(e) && e is SystemError),
    {
        let st = self.controller_state();
        if !matches!(st, SessionState::Configured) {
            return Err(
                Error::SystemError("collection can start only once, after a completed bring-up"),
            );
        }
        let id = match self.subscribe() {
            Ok(id) => id,
            Err(e) => {
                return Err(e);
            },
        };
        let started = self.controller.start(duration, now);
        proof {
            assert(started is Ok);
        }
        Ok(id)
    }

    /// Collects for exactly the given duration, suspending the caller until
    /// the session completes: the call returns no earlier than `d`
    /// milliseconds past `now` and within one scheduler tick after that,
    /// with the session stopped, the channel closed and the traffic task
    /// told to exit. Anywhere but the configured state the call fails with
    /// `SystemError` and changes nothing.
    pub fn collect_for(&mut self, d: u64, now: u64, tick_ms: u64) -> (r: Result<u64, Error>)
        requires
            old(self).wf(),
            tick_ms >= 1,
            d + tick_ms <= u64::MAX - now,
        ensures
            final(self).wf(),
            r is Ok <==> old(self).spec_state() is Configured,
            r matches Ok(t) ==> {
                &&& now + d <= t < now + d + tick_ms
                &&& final(self).spec_state() is Stopped
                &&& final(self).spec_channel_closed()
                &&& (final(self).spec_generator() matches Some(g) ==> g.spec_stopped())
                &&& final(self).spec_models() == old(self).spec_models()
            },
            r is Err ==> (*final(self) == *old(self) && (r matches Err(e) && e is SystemError)),
    {
        let st = self.controller_state();
        if !matches!(st, SessionState::Configured) {
            return Err(
                Error::SystemError("collection can start only once, after a completed bring-up"),
            );
        }
        let started = self.controller.start(Some(d), now);
        proof {
            assert(started is Ok);
        }
        let t = completion_tick(now, d, tick_ms);
        self.stop();
        Ok(t)
    }

    /// Ends the session: tells the traffic task to exit, closes the
    /// distribution channel (subscribers drain what remains and then
    /// observe the closure) and marks the session stopped. Idempotent:
    /// stopping a stopped session changes nothing it already did.
    pub fn stop(&mut self)
        requires
            old(self).wf(),
        ensures
            final(self).wf(),
            final(self).spec_state() is Stopped,
            final(self).spec_models() == old(self).spec_models(),
            old(self).channel_present() ==> final(self).spec_channel_closed(),
            final(self).spec_generator() matches Some(g) ==> g.spec_stopped(),
            final(self).spec_generator_spawned() == old(self).spec_generator_spawned(),
            final(self).spec_link() == old(self).spec_link(),
    {
        self.controller.mark_stopped();
        match self.channel.take() {
            Some(mut c) => {
                c.close();
                self.channel = Some(c);
            },
            None => {},
        }
        match self.generator.take() {
            Some(mut g) => {
                g.stop();
                self.generator = Some(g);
            },
            None => {},
        }
    }

    /// Whether a distribution channel exists (it does from `init` on).
    pub closed spec fn channel_present(&self) -> bool {
        self.channel is Some
    }

    /// The cooperative scheduler's periodic check: stops the session once a
    /// duration-bounded run has passed its deadline. Returns whether it
    /// stopped the session now.
    pub fn on_tick(&mut self, now: u64) -> (r: bool)
        requires
            old(self).wf(),
        ensures
            final(self).wf(),
            r == (old(self).spec_state() is Running && (old(self).spec_deadline() matches Some(dl)
                && now >= dl)),
            r ==> (final(self).spec_state() is Stopped && final(self).spec_channel_closed() && (
            final(self).spec_generator() matches Some(g) ==> g.spec_stopped())),
            !r ==> *final(self) == *old(self),
            final(self).spec_models() == old(self).spec_models(),
    {
        if self.controller.auto_stop_due(now) {
            self.stop();
            true
        } else {
            false
        }
    }

    /// The capture hook's work, in scheduler-visible form: while the
    /// session runs, copy the raw delivery into a frame (truncated to the
    /// configured limit, stamped with the capture time) and publish it to
    /// every subscriber, losing only each full queue's oldest frame. Off a
    /// running session the delivery is dropped.
    pub fn handle_capture(&mut self, raw: &[i8], now: u64)
        requires
            old(self).wf(),
        ensures
            final(self).wf(),
            old(self).spec_state() !is Running ==> *final(self) == *old(self),
            old(self).spec_state() is Running ==> {
                &&& final(self).spec_models().len() == old(self).spec_models().len()
                &&& forall|i: int|
                    0 <= i < old(self).spec_models().len() ==> #[trigger] final(self).spec_models()[i] == push_lossy(
                        old(self).spec_models()[i],
                        (CSIFrameView {
                            samples: raw@.take(
                                spec_kept_samples(
                                    raw@.len(),
                                    old(self).spec_frame_limit() as nat,
                                ) as int,
                            ),
                            timestamp: now,
                        }),
                        CHANNEL_CAPACITY as nat,
                    )
                &&& final(self).spec_state() is Running
                &&& final(self).spec_link() == old(self).spec_link()
                &&& final(self).spec_generator() == old(self).spec_generator()
            },
    {
        let st = self.controller_state();
        if !matches!(st, SessionState::Running) {
            return ;
        }
        let pipe = match self.pipe.take() {
            Some(p) => p,
            None => {
                return ;
            },
        };
        let frame = pipe.capture(raw, now);
        self.pipe = Some(pipe);
        let mut ch = match self.channel.take() {
            Some(c) => c,
            None => {
                return ;
            },
        };
        ch.publish(&frame);
        self.channel = Some(ch);
    }

    /// One subscriber poll: the oldest unread frame when one is there, the
    /// closure signal once the session was stopped and the queue drained,
    /// and otherwise nothing yet. An unknown handle is refused with
    /// `SystemError`.
    pub fn poll_next(&mut self, sub: usize) -> (r: Result<NextPoll, Error>)
        requires
            old(self).wf(),
        ensures
            final(self).wf(),
            r is Ok <==> sub < old(self).spec_models().len(),
            r is Err ==> (*final(self) == *old(self) && (r matches Err(e) && e is SystemError)),
            r is Ok ==> final(self).spec_models().len() == old(self).spec_models().len(),
            r is Ok ==> forall|k: int|
                0 <= k < old(self).spec_models().len() && k != sub ==> #[trigger] final(self).spec_models()[k] == old(self).spec_models()[k],
            (sub < old(self).spec_models().len() && old(self).spec_models()[sub as int].len() > 0)
                ==> {
                &&& (r matches Ok(p) && p matches NextPoll::Ready(f) && f@ == old(self).spec_models()[sub as int][0])
                &&& final(self).spec_models()[sub as int] == old(self).spec_models()[
                    sub as int
                ].drop_first()
            },
            (sub < old(self).spec_models().len() && old(self).spec_models()[sub as int].len() == 0)
                ==> {
                &&& final(self).spec_models() == old(self).spec_models()
                &&& (r matches Ok(p) && p == (if old(self).spec_channel_closed() {
                    NextPoll::Closed
                } else {
                    NextPoll::Pending
                }))
            },
    {
        let mut ch = match self.channel.take() {
            Some(c) => c,
            None => {
                return Err(Error::SystemError("no such subscriber"));
            },
        };
        if sub >= ch.subscriber_count() {
            self.channel = Some(ch);
            proof {
                assert(*self =~= *old(self));
            }
            return Err(Error::SystemError("no such subscriber"));
        }
        let p = ch.poll_next(sub);
        self.channel = Some(ch);
        Ok(p)
    }

    /// One wake-up of the traffic task at `now`: when the next packet is
    /// due, it is emitted and the send outcome recorded — a failure is
    /// counted and reported as `TrafficError`, and the task carries on.
    /// Before the deadline, or with no task spawned, or off a running
    /// session, nothing happens.
    pub fn traffic_tick(&mut self, now: u64, send_ok: bool) -> (r: Result<bool, Error>)
        requires
            old(self).wf(),
        ensures
            final(self).wf(),
            final(self).spec_models() == old(self).spec_models(),
            final(self).spec_state() == old(self).spec_state(),
            ({
                let due = old(self).spec_state() is Running && (old(self).spec_generator()
                    matches Some(g) && !g.spec_stopped() && now >= g.spec_next_due());
                &&& (!due ==> (*final(self) == *old(self) && r == Result::<bool, Error>::Ok(false)))
                &&& (due ==> (old(self).spec_generator() matches Some(g) && final(self).spec_generator() matches Some(h) && h.spec_emitted() == g.spec_emitted() + 1 && (
                send_ok ==> (r == Result::<bool, Error>::Ok(true) && h.spec_failures()
                    == g.spec_failures())) && (!send_ok ==> ((r matches Err(e)
                    && e is TrafficError) && h.spec_failures() == g.spec_failures() + 1))))
            }),
    {
        let st = self.controller_state();
        if !matches!(st, SessionState::Running) {
            return Ok(false);
        }
        let mut g = match self.generator.take() {
            Some(g) => g,
            None => {
                return Ok(false);
            },
        };
        if !g.due(now) {
            self.generator = Some(g);
            proof {
                assert(*self =~= *old(self));
            }
            return Ok(false);
        }
        let out = g.emit(send_ok);
        self.generator = Some(g);
        match out {
            Ok(()) => Ok(true),
            Err(e) => Err(e),
        }
    }
}

} // verus!
