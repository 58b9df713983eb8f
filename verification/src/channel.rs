//! Transport for telemetry samples between the simulation's execution context
//! and the visualizer's.
//!
//! The queue is bounded and drops its oldest entry when a send overflows it:
//! the client only needs the freshest state, so freshness wins over
//! completeness. `send` and `try_receive` never block; the consumer is meant
//! to poll at most once per rendered frame. Samples come out in the order
//! they went in (FIFO), and under the bounded policy no sample is ever
//! delivered twice.

use std::collections::VecDeque;
use vstd::prelude::*;

use crate::sample::Sample;

verus! {

/// Bounded single-producer/single-consumer queue of telemetry samples with a
/// drop-oldest overflow policy.
pub struct TelemetryChannel {
    pub queue: VecDeque<Sample>,
    pub capacity: usize,
}

impl TelemetryChannel {
    /// The pending samples, oldest first.
    pub open spec fn view(self) -> Seq<Sample> {
        self.queue@
    }

    /// The bound chosen at construction.
    pub open spec fn spec_capacity(self) -> int {
        self.capacity as int
    }

    /// The queue never holds more than its bound.
    pub open spec fn wf(self) -> bool {
        &&& self.capacity >= 1
        &&& self.queue@.len() <= self.capacity
    }

    /// An empty channel that will hold at most `capacity` pending samples.
    pub fn new(capacity: usize) -> (c: TelemetryChannel)
        requires
            capacity >= 1,
        ensures
            c.wf(),
            c@ == Seq::<Sample>::empty(),
            c.spec_capacity() == capacity,
    {
        TelemetryChannel { queue: VecDeque::new(), capacity }
    }

    /// How many samples are pending.
    pub fn len(&self) -> (n: usize)
        ensures
            n == self@.len(),
    {
        self.queue.len()
    }

    /// The bound chosen at construction.
    pub fn capacity(&self) -> (n: usize)
        ensures
            n == self.spec_capacity(),
    {
        self.capacity
    }

    /// Enqueues a sample without ever blocking the producer. When the queue
    /// is already full, the oldest pending sample is dropped to make room, so
    /// the newest sample is always kept.
    pub fn send(&mut self, s: Sample)
        requires
            old(self).wf(),
        ensures
            final(self).wf(),
            final(self).spec_capacity() == old(self).spec_capacity(),
            old(self)@.len() < old(self).spec_capacity() ==> final(self)@ == old(self)@.push(s),
            old(self)@.len() == old(self).spec_capacity() ==> final(self)@ == old(self)@.subrange(
                1,
                old(self)@.len() as int,
            ).push(s),
    {
        if self.queue.len() == self.capacity {
            // full: the oldest sample makes room for the newest
            let _oldest = self.queue.pop_front();
        }
        self.queue.push_back(s);
    }

    /// Returns the oldest pending sample, or `None` when the queue is empty;
    /// never blocks the consumer.
    pub fn try_receive(&mut self) -> (r: Option<Sample>)
        requires
            old(self).wf(),
        ensures
            final(self).wf(),
            final(self).spec_capacity() == old(self).spec_capacity(),
            old(self)@.len() == 0 ==> r is None && final(self)@ == old(self)@,
            old(self)@.len() > 0 ==> r == Some(old(self)@[0]) && final(self)@ == old(
                self,
            )@.subrange(1, old(self)@.len() as int),
    {
        self.queue.pop_front()
    }
}

} // verus!
