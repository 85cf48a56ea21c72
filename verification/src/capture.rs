//! Frame capture: the interrupt-context hook's work, stated over plain
//! values.
//!
//! The radio driver hands the hook a raw sample slice; the hook copies it
//! into a fixed-capacity frame (truncating, never growing), stamps a capture
//! time and publishes the frame. The copy is non-blocking and allocation
//! free: it touches nothing but the frame it builds.

use vstd::prelude::*;

use crate::architecture::ArchitectureProfile;
use crate::bounded::buf_samples;
use crate::bounded::sample_buf_clone;
use crate::bounded::sample_buf_get;
use crate::bounded::sample_buf_len;
use crate::bounded::sample_buf_new;
use crate::bounded::sample_buf_push;
use crate::config::CSIConfig;
use crate::error::Error;
use crate::FRAME_CAPACITY;

verus! {

/// One captured frame: per-subcarrier samples and a capture timestamp.
/// Immutable once captured.
pub struct CSIFrame {
    /// The per-subcarrier samples, at most `FRAME_CAPACITY` of them.
    pub samples: heapless::Vec<i8, 616>,
    /// Milliseconds at which the frame was captured.
    pub timestamp: u64,
}

/// The mathematical content of a frame.
pub ghost struct CSIFrameView {
    pub samples: Seq<i8>,
    pub timestamp: u64,
}

impl View for CSIFrame {
    type V = CSIFrameView;

    open spec fn view(&self) -> CSIFrameView {
        CSIFrameView { samples: buf_samples(self.samples), timestamp: self.timestamp }
    }
}

impl Clone for CSIFrame {
    fn clone(&self) -> (r: Self)
        ensures
            r@ == self@,
    {
        CSIFrame { samples: sample_buf_clone(&self.samples), timestamp: self.timestamp }
    }
}

impl CSIFrame {
    /// How many samples the frame holds.
    pub fn len(&self) -> (r: usize)
        ensures
            r == self@.samples.len(),
    {
        sample_buf_len(&self.samples)
    }

    /// The sample at position `i`.
    pub fn sample(&self, i: usize) -> (r: i8)
        requires
            i < self@.samples.len(),
        ensures
            r == self@.samples[i as int],
    {
        sample_buf_get(&self.samples, i)
    }
}

/// How many leading samples of a raw delivery of length `raw_len` end up in
/// the frame: the delivery, cut to the configured byte limit.
pub open spec fn spec_kept_samples(raw_len: nat, limit: nat) -> nat {
    if raw_len <= limit {
        raw_len
    } else {
        limit
    }
}

/// Copies the driver-delivered raw samples into a fresh fixed-capacity
/// frame, truncating at `limit` and stamping the capture time. Never grows
/// the buffer and never fails.
pub fn build_frame(raw: &[i8], timestamp: u64, limit: usize) -> (f: CSIFrame)
    requires
        limit <= FRAME_CAPACITY,
    ensures
        f@.samples == raw@.take(spec_kept_samples(raw@.len(), limit as nat) as int),
        f@.timestamp == timestamp,
{
    let n = if raw.len() <= limit {
        raw.len()
    } else {
        limit
    };
    let mut samples = sample_buf_new();
    let mut i: usize = 0;
    while i < n
        invariant
            i <= n,
            n == spec_kept_samples(raw@.len(), limit as nat),
            n <= raw@.len(),
            n <= FRAME_CAPACITY,
            buf_samples(samples) == raw@.take(i as int),
        decreases n - i,
    {
        let x = raw[i];
        let pushed = sample_buf_push(&mut samples, x);
        assert(pushed is Ok);
        assert(raw@.take(i + 1 as int) =~= raw@.take(i as int).push(raw@[i as int]));
        i = i + 1;
    }
    CSIFrame { samples, timestamp }
}

/// The capture byte limit actually applied: the requested limit where one
/// was given, cut to the frame capacity; the full capacity otherwise.
pub open spec fn spec_effective_limit(requested: Option<usize>) -> usize {
    match requested {
        Option::Some(l) => if l <= FRAME_CAPACITY {
            l
        } else {
            FRAME_CAPACITY
        },
        Option::None => FRAME_CAPACITY,
    }
}

/// Cuts an optional requested capture byte limit to the frame capacity.
pub fn effective_limit(requested: Option<usize>) -> (r: usize)
    ensures
        r == spec_effective_limit(requested),
        r <= FRAME_CAPACITY,
{
    match requested {
        Some(l) => if l <= FRAME_CAPACITY {
            l
        } else {
            FRAME_CAPACITY
        },
        None => FRAME_CAPACITY,
    }
}

/// The capture hook's registration state: the feature selector forwarded
/// verbatim to the radio driver, the applied byte limit, and whether the
/// driver accepted the hook.
pub struct CSICapturePipe {
    /// The capture feature selector, never interpreted here.
    pub csi_config: CSIConfig,
    /// Samples kept per frame.
    pub limit: usize,
    /// Whether the hook is registered with the radio driver.
    pub registered: bool,
}

impl CSICapturePipe {
    /// A pipe for the given selector and requested byte limit, not yet
    /// registered.
    pub fn new(csi_config: CSIConfig, requested_limit: Option<usize>) -> (r: Self)
        ensures
            r.csi_config == csi_config,
            r.limit == spec_effective_limit(requested_limit),
            !r.registered,
    {
        let limit = effective_limit(requested_limit);
        CSICapturePipe { csi_config, limit, registered: false }
    }

    /// Records the driver's answer to the hook registration made once the
    /// link is up. `accepted` is the driver's report; a refusal is a
    /// `CSIError` and leaves the pipe unregistered.
    pub fn register(&mut self, profile: &ArchitectureProfile, accepted: bool) -> (r: Result<
        (),
        Error,
    >)
        ensures
            r is Ok <==> accepted,
            final(self).registered == accepted,
            final(self).csi_config == old(self).csi_config,
            final(self).limit == old(self).limit,
            r matches Err(e) ==> e is CSIError,
    {
        let _ = profile;
        if accepted {
            self.registered = true;
            Ok(())
        } else {
            self.registered = false;
            Err(Error::CSIError("the radio driver refused the capture hook"))
        }
    }

    /// The hook body: copies the raw delivery into a frame, truncated to the
    /// configured limit, stamped with the capture time.
    pub fn capture(&self, raw: &[i8], timestamp: u64) -> (f: CSIFrame)
        requires
            self.limit <= FRAME_CAPACITY,
        ensures
            f@.samples == raw@.take(spec_kept_samples(raw@.len(), self.limit as nat) as int),
            f@.timestamp == timestamp,
    {
        build_frame(raw, timestamp, self.limit)
    }
}

} // verus!
