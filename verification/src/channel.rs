//! A bounded, multi-subscriber, lossy broadcast queue for captured frames.
//!
//! Each subscriber owns an independent bounded queue of the configured
//! capacity. Publishing writes the frame into every subscriber's queue; a
//! full queue loses its single oldest unread frame first, so the producer
//! never blocks and freshness wins over completeness. Closing is terminal;
//! a subscriber drains what remains and then observes the closure.

use vstd::prelude::*;

use crate::capture::CSIFrame;
use crate::capture::CSIFrameView;
use crate::error::Error;

verus! {

/// The frames a subscriber's queue holds, oldest first.
pub open spec fn queue_model(q: Vec<CSIFrame>) -> Seq<CSIFrameView> {
    q@.map(|i: int, f: CSIFrame| f@)
}

/// One lossy publish into one bounded queue: append below capacity, evict
/// exactly the oldest unread frame at capacity.
pub open spec fn push_lossy(q: Seq<CSIFrameView>, f: CSIFrameView, cap: nat) -> Seq<CSIFrameView> {
    if q.len() < cap {
        q.push(f)
    } else {
        q.drop_first().push(f)
    }
}

/// The queue contents after publishing `frames` in order into an initially
/// empty bounded queue of capacity `cap`, with no reads in between.
pub open spec fn queue_after_publishes(frames: Seq<CSIFrameView>, cap: nat) -> Seq<CSIFrameView>
    decreases frames.len(),
{
    if frames.len() == 0 {
        Seq::empty()
    } else {
        push_lossy(queue_after_publishes(frames.drop_last(), cap), frames.last(), cap)
    }
}

/// Lossy backpressure keeps exactly the newest frames, in capture order:
/// publishing any sequence of frames into an empty queue with no reads
/// leaves the last `cap` of them (all of them while they fit), each eviction
/// dropping exactly the then-oldest frame and reordering nothing.
pub proof fn lemma_queue_keeps_newest(frames: Seq<CSIFrameView>, cap: nat)
    requires
        cap >= 1,
    ensures
        frames.len() <= cap ==> queue_after_publishes(frames, cap) == frames,
        frames.len() > cap ==> queue_after_publishes(frames, cap) == frames.skip(
            frames.len() - cap,
        ),
    decreases frames.len(),
{
    if frames.len() == 0 {
        assert(queue_after_publishes(frames, cap) =~= frames);
    } else {
        let head = frames.drop_last();
        lemma_queue_keeps_newest(head, cap);
        if frames.len() <= cap {
            assert(queue_after_publishes(frames, cap) =~= frames);
        } else if frames.len() == cap + 1 {
            assert(queue_after_publishes(frames, cap) =~= frames.skip(frames.len() - cap));
        } else {
            assert(queue_after_publishes(head, cap) == head.skip(head.len() - cap));
            assert(queue_after_publishes(frames, cap) =~= frames.skip(frames.len() - cap));
        }
    }
}

/// What a subscriber's poll yields: a frame, nothing yet (the caller
/// suspends and polls again), or the terminal closure signal.
pub enum NextPoll {
    /// The oldest unread frame, now consumed.
    Ready(CSIFrame),
    /// No frame yet; the channel is still open.
    Pending,
    /// The channel is closed and drained.
    Closed,
}

/// The bounded broadcast channel: one bounded queue per subscriber.
pub struct DistributionChannel {
    capacity: usize,
    max_subscribers: usize,
    queues: Vec<Vec<CSIFrame>>,
    closed: bool,
}

impl DistributionChannel {
    /// The frames each subscriber has yet to read, oldest first.
    pub closed spec fn models(&self) -> Seq<Seq<CSIFrameView>> {
        self.queues@.map(|i: int, q: Vec<CSIFrame>| queue_model(q))
    }

    /// The fixed per-subscriber queue capacity.
    pub closed spec fn spec_capacity(&self) -> usize {
        self.capacity
    }

    /// The fixed subscriber bound.
    pub closed spec fn spec_max_subscribers(&self) -> usize {
        self.max_subscribers
    }

    /// Whether `close` has been called; terminal.
    pub closed spec fn spec_closed(&self) -> bool {
        self.closed
    }

    /// Every queue respects the capacity; the subscriber count respects its
    /// bound; both bounds were validated at construction.
    pub closed spec fn wf(&self) -> bool {
        &&& self.capacity >= 1
        &&& self.max_subscribers >= 1
        &&& self.queues@.len() <= self.max_subscribers
        &&& forall|i: int|
            0 <= i < self.queues@.len() ==> #[trigger] self.queues@[i]@.len() <= self.capacity
    }

    /// A channel with the given per-subscriber capacity and subscriber
    /// bound, open and with no subscribers. Zero for either bound is
    /// contradictory and rejected.
    pub fn new(capacity: usize, max_subscribers: usize) -> (r: Result<Self, Error>)
        ensures
            r is Ok <==> (capacity >= 1 && max_subscribers >= 1),
            r matches Ok(c) ==> {
                &&& c.wf()
                &&& c.models() == Seq::<Seq<CSIFrameView>>::empty()
                &&& c.spec_capacity() == capacity
                &&& c.spec_max_subscribers() == max_subscribers
                &&& !c.spec_closed()
            },
            r matches Err(e) ==> e is ConfigError,
    {
        if capacity == 0 {
            return Err(Error::ConfigError("the frame capacity must be at least one"));
        }
        if max_subscribers == 0 {
            return Err(Error::ConfigError("the subscriber bound must be at least one"));
        }
        let c = DistributionChannel { capacity, max_subscribers, queues: Vec::new(), closed: false };
        proof {
            assert(c.models() =~= Seq::<Seq<CSIFrameView>>::empty());
        }
        Ok(c)
    }

    /// How many subscribers are attached.
    pub fn subscriber_count(&self) -> (r: usize)
        ensures
            r == self.models().len(),
    {
        self.queues.len()
    }

    /// The fixed per-subscriber queue capacity.
    pub fn capacity(&self) -> (r: usize)
        ensures
            r == self.spec_capacity(),
    {
        self.capacity
    }

    /// The fixed subscriber bound.
    pub fn max_subscribers(&self) -> (r: usize)
        ensures
            r == self.spec_max_subscribers(),
    {
        self.max_subscribers
    }

    /// Whether the channel has been closed.
    pub fn is_closed(&self) -> (r: bool)
        ensures
            r == self.spec_closed(),
    {
        self.closed
    }

    /// Attaches a new subscriber with an empty queue and returns its handle.
    /// Beyond the subscriber bound, and on a closed channel, the call fails
    /// with `CSIError` and every existing subscriber is untouched.
    pub fn subscribe(&mut self) -> (r: Result<usize, Error>)
        requires
            old(self).wf(),
        ensures
            final(self).wf(),
            final(self).spec_capacity() == old(self).spec_capacity(),
            final(self).spec_max_subscribers() == old(self).spec_max_subscribers(),
            final(self).spec_closed() == old(self).spec_closed(),
            r is Ok <==> (old(self).models().len() < old(self).spec_max_subscribers() && !old(
                self,
            ).spec_closed()),
            r matches Ok(id) ==> {
                &&& id == old(self).models().len()
                &&& final(self).models() == old(self).models().push(Seq::<CSIFrameView>::empty())
            },
            r is Err ==> *final(self) == *old(self),
            r matches Err(e) ==> e is CSIError,
    {
        if self.closed {
            return Err(Error::CSIError("the channel is closed"));
        }
        if self.queues.len() >= self.max_subscribers {
            return Err(Error::CSIError("the subscriber bound is reached"));
        }
        let id = self.queues.len();
        self.queues.push(Vec::new());
        proof {
            assert(queue_model(self.queues@[id as int]) =~= Seq::<CSIFrameView>::empty());
            assert(self.models() =~= old(self).models().push(Seq::<CSIFrameView>::empty()));
        }
        Ok(id)
    }

    /// Publishes one frame to every subscriber: appended to each queue with
    /// room, replacing exactly the oldest unread frame of each full queue.
    /// Never blocks, never fails; on a closed channel the frame is dropped.
    pub fn publish(&mut self, frame: &CSIFrame)
        requires
            old(self).wf(),
        ensures
            final(self).wf(),
            final(self).spec_capacity() == old(self).spec_capacity(),
            final(self).spec_max_subscribers() == old(self).spec_max_subscribers(),
            final(self).spec_closed() == old(self).spec_closed(),
            final(self).models().len() == old(self).models().len(),
            old(self).spec_closed() ==> final(self).models() == old(self).models(),
            !old(self).spec_closed() ==> forall|i: int|
                0 <= i < old(self).models().len() ==> #[trigger] final(self).models()[i]
                    == push_lossy(
                    old(self).models()[i],
                    frame@,
                    old(self).spec_capacity() as nat,
                ),
    {
        if self.closed {
            return ;
        }
        let ghost pre = *self;
        let mut i: usize = 0;
        while i < self.queues.len()
            invariant
                self.wf(),
                i <= self.queues@.len(),
                self.capacity == pre.capacity,
                self.max_subscribers == pre.max_subscribers,
                self.closed == pre.closed,
                self.queues@.len() == pre.queues@.len(),
                forall|k: int|
                    0 <= k < i ==> #[trigger] self.models()[k] == push_lossy(
                        pre.models()[k],
                        frame@,
                        pre.capacity as nat,
                    ),
                forall|k: int|
                    i <= k < self.queues@.len() ==> #[trigger] self.queues@[k] == pre.queues@[k],
            decreases self.queues@.len() - i,
        {
            let ghost at_head = *self;
            if self.queues[i].len() >= self.capacity {
                let _evicted = self.queues[i].remove(0);
                proof {
                    assert(queue_model(self.queues@[i as int]) =~= queue_model(
                        at_head.queues@[i as int],
                    ).drop_first());
                }
            }
            let copy = frame.clone();
            self.queues[i].push(copy);
            proof {
                assert(self.models()[i as int] =~= push_lossy(
                    pre.models()[i as int],
                    frame@,
                    pre.capacity as nat,
                ));
                assert forall|k: int| 0 <= k < i implies #[trigger] self.models()[k] == push_lossy(
                    pre.models()[k],
                    frame@,
                    pre.capacity as nat,
                ) by {
                    assert(self.queues@[k] == at_head.queues@[k]);
                    assert(self.models()[k] == queue_model(self.queues@[k]));
                    assert(at_head.models()[k] == queue_model(at_head.queues@[k]));
                }
            }
            i = i + 1;
        }
        proof {
            assert(forall|k: int|
                0 <= k < pre.models().len() ==> #[trigger] self.models()[k] == push_lossy(
                    pre.models()[k],
                    frame@,
                    pre.capacity as nat,
                ));
        }
    }

    /// One subscriber poll: the oldest unread frame when one is there, the
    /// closure signal once the channel is closed and drained, and otherwise
    /// nothing yet (the caller suspends and polls again). Frames come out in
    /// capture order; other subscribers are untouched.
    pub fn poll_next(&mut self, sub: usize) -> (r: NextPoll)
        requires
            old(self).wf(),
            sub < old(self).models().len(),
        ensures
            final(self).wf(),
            final(self).spec_capacity() == old(self).spec_capacity(),
            final(self).spec_max_subscribers() == old(self).spec_max_subscribers(),
            final(self).spec_closed() == old(self).spec_closed(),
            final(self).models().len() == old(self).models().len(),
            forall|k: int|
                0 <= k < old(self).models().len() && k != sub ==> #[trigger] final(self).models()[k]
                    == old(self).models()[k],
            old(self).models()[sub as int].len() > 0 ==> {
                &&& r matches NextPoll::Ready(f) && f@ == old(self).models()[sub as int][0]
                &&& final(self).models()[sub as int] == old(self).models()[
                    sub as int
                ].drop_first()
            },
            old(self).models()[sub as int].len() == 0 ==> {
                &&& final(self).models() == old(self).models()
                &&& r == (if old(self).spec_closed() {
                    NextPoll::Closed
                } else {
                    NextPoll::Pending
                })
            },
    {
        let closed = self.closed;
        let ghost pre = *self;
        if self.queues[sub].len() > 0 {
            let f = self.queues[sub].remove(0);
            proof {
                assert(queue_model(self.queues@[sub as int]) =~= queue_model(
                    pre.queues@[sub as int],
                ).drop_first());
                assert(self.models()[sub as int] == queue_model(self.queues@[sub as int]));
                assert(forall|k: int|
                    0 <= k < pre.models().len() && k != sub ==> #[trigger] self.models()[k]
                        == pre.models()[k]);
            }
            NextPoll::Ready(f)
        } else {
            if closed {
                NextPoll::Closed
            } else {
                NextPoll::Pending
            }
        }
    }

    /// Closes the channel: terminal and idempotent. Unread frames stay
    /// readable; once a queue is drained its subscriber observes the
    /// closure.
    pub fn close(&mut self)
        requires
            old(self).wf(),
        ensures
            final(self).wf(),
            final(self).spec_capacity() == old(self).spec_capacity(),
            final(self).spec_max_subscribers() == old(self).spec_max_subscribers(),
            final(self).spec_closed(),
            final(self).models() == old(self).models(),
    {
        self.closed = true;
    }
}

} // verus!
