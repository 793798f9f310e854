//! The pull side of the queue: a source that always has a sample to give.
//!
//! Where the capture thread has fallen behind and the queue is empty, the
//! source gives silence instead of waiting, so everything downstream can
//! pull without ever stalling.

use crate::ring::reads;
use crate::ring::RingConsumer;
use vstd::prelude::*;

verus! {

/// The encoding of a sample at rest: the 32 bits of a floating-point zero.
pub const SILENCE: u32 = 0;

/// The sample that a read stands for: the one that was read, or silence.
pub open spec fn or_silence(popped: Option<u32>) -> u32 {
    match popped {
        Some(sample) => sample,
        None => SILENCE,
    }
}

/// Turns the outcome of a read into a sample: the one that was read, or
/// silence where the queue had none.
pub fn silence_if_starved(popped: Option<u32>) -> (sample: u32)
    ensures
        sample == or_silence(popped),
{
    match popped {
        Some(sample) => sample,
        None => SILENCE,
    }
}

/// A source of samples over the reading half of a queue.
pub struct SampleSource {
    consumer: RingConsumer,
}

impl View for SampleSource {
    type V = Seq<u32>;

    /// The samples that were in the queue when the source last read it,
    /// oldest first.
    closed spec fn view(&self) -> Seq<u32> {
        self.consumer@
    }
}

impl SampleSource {
    /// A source that reads from `consumer`, and knows of the queue what
    /// `consumer` knows.
    pub fn new(consumer: RingConsumer) -> (source: SampleSource)
        ensures
            source@ == consumer@,
    {
        SampleSource { consumer }
    }

    /// The next sample: the oldest in the queue, or silence where the queue
    /// is empty at this moment. Never waits and never fails.
    ///
    /// The queue is read as it is found: what the source knew of it, and
    /// behind that what the capture thread added meanwhile. So a sample that
    /// was known to wait is the one returned, and the rest of what was known
    /// stays, in order, at the front.
    pub fn next(&mut self) -> (sample: u32)
        ensures
            exists|popped: Option<u32>|
                #[trigger] reads(old(self)@, popped, final(self)@) && sample == or_silence(popped),
            old(self)@.len() > 0 ==> sample == old(self)@[0]
                && old(self)@.drop_first().is_prefix_of(final(self)@),
    {
        let popped: Option<u32> = self.consumer.pop();
        assert(reads(old(self)@, popped, self@));
        silence_if_starved(popped)
    }
}

} // verus!
