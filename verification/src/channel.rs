//! The ingestion channel, modelled: the in-process queue that decouples the
//! concurrent message-arrival handlers from the single sequential
//! persistence consumer. The model is the queue's content in arrival order;
//! the real conduit at the process boundary blocks its consumer where this
//! model asks the caller for a non-empty queue, and its `send` never blocks.

use vstd::prelude::*;

use crate::envpayload::EnvSensorReading;

verus! {

/// A first-in, first-out queue of in-transit readings.
#[derive(Debug)]
pub struct IngestionChannel {
    pub queue: Vec<EnvSensorReading>,
}

impl IngestionChannel {
    /// An empty channel.
    pub fn new() -> (c: IngestionChannel)
        ensures
            c.queue@.len() == 0,
    {
        IngestionChannel { queue: Vec::new() }
    }

    /// How many readings are in transit.
    pub fn len(&self) -> (n: usize)
        ensures
            n == self.queue@.len(),
    {
        self.queue.len()
    }

    /// Enqueue one reading; never blocks, never drops.
    pub fn send(&mut self, rd: EnvSensorReading)
        ensures
            final(self).queue@ == old(self).queue@.push(rd),
    {
        self.queue.push(rd);
    }

    /// Dequeue the oldest reading. The real conduit blocks here instead;
    /// the model asks its caller not to read from an empty queue.
    pub fn receive(&mut self) -> (rd: EnvSensorReading)
        requires
            old(self).queue@.len() > 0,
        ensures
            rd == old(self).queue@[0],
            final(self).queue@ == old(self).queue@.drop_first(),
    {
        self.queue.remove(0)
    }
}

} // verus!
