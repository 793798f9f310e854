//! The two ends of a session, wired together.
//!
//! [`wire`] makes the queue for a capture configuration, parts it, and puts
//! the rate converter and the channel converter behind the reading half.
//! What comes back is one value for each callback: [`Capture`] for the one
//! that delivers samples, [`Playback`] for the one that fills buffers.

use crate::channel::ChannelConverter;
use crate::channel::Slot;
use crate::config::StreamConfig;
use crate::resampler::Position;
use crate::resampler::Resampler;
use crate::ring::accepted;
use crate::ring::writes;
use crate::ring::RingBuffer;
use crate::ring::RingError;
use crate::ring::RingProducer;
use crate::ring::RING_SECONDS;
use crate::source::SampleSource;
use vstd::prelude::*;

verus! {

/// The capture end: what the input callback owns.
pub struct Capture {
    producer: RingProducer,
}

impl View for Capture {
    type V = Seq<u32>;

    /// The samples that were in the queue when the capture end last
    /// delivered, oldest first.
    closed spec fn view(&self) -> Seq<u32> {
        self.producer@
    }
}

impl Capture {
    /// The number of samples that the queue was made for.
    pub closed spec fn capacity_spec(&self) -> nat {
        self.producer.capacity_spec()
    }

    /// Hands a block of captured samples to the queue and returns how many
    /// it took. Never waits; samples that find no room are dropped.
    ///
    /// The block is pushed onto the queue as it is found: what the capture
    /// end knew of it, less what playback took meanwhile. The first samples
    /// that fit are appended in order, so at least as many are taken as were
    /// known to fit.
    pub fn deliver(&mut self, samples: &[u32]) -> (written: usize)
        ensures
            writes(
                old(self)@,
                old(self).capacity_spec(),
                samples@,
                written as nat,
                final(self)@,
            ),
            final(self).capacity_spec() == old(self).capacity_spec(),
            accepted(old(self)@.len(), old(self).capacity_spec(), samples@.len()) <= written
                <= samples@.len(),
    {
        self.producer.push(samples)
    }
}

/// The playback end: what the output callback owns.
pub struct Playback {
    channels: ChannelConverter,
    converter: Resampler,
}

impl Playback {
    /// The channel converter.
    pub closed spec fn channels(self) -> ChannelConverter {
        self.channels
    }

    /// Where the rate converter stands.
    pub closed spec fn position(self) -> Position {
        self.converter@
    }

    /// What fills the next sample slot of the output buffer: one call of the
    /// channel converter on the rate converter.
    pub fn next(&mut self) -> (slot: Slot)
        ensures
            old(self).channels().fills(
                old(self).position(),
                slot,
                final(self).channels(),
                final(self).position(),
            ),
    {
        self.channels.next(&mut self.converter)
    }
}

/// Wires a session from capture at `input` to playback at `output`: a queue
/// of [`RING_SECONDS`] seconds of the capture rate, a rate converter from the
/// capture rate to the playback rate at the start of its walk, and the
/// channel converter for the two channel counts.
///
/// Fails where the queue does not fit the machine or the allocator refuses
/// it, and on nothing else.
pub fn wire(
    input: &StreamConfig,
    output: &StreamConfig,
) -> (wired: Result<(Capture, Playback), RingError>)
    ensures
        RING_SECONDS * input.sample_rate_spec() > usize::MAX <==> wired == Err::<
            (Capture, Playback),
            RingError,
        >(RingError::CapacityOverflow),
        wired is Err ==> wired->Err_0 == RingError::CapacityOverflow || wired->Err_0
            == RingError::OutOfMemory,
        wired matches Ok(ends) ==> {
            &&& ends.0@ == Seq::<u32>::empty()
            &&& ends.0.capacity_spec() == RING_SECONDS * input.sample_rate_spec()
            &&& ends.1.channels() == ChannelConverter::for_channels_spec(
                input.channels_spec(),
                output.channels_spec(),
            )
            &&& ends.1.position() == Position::start(
                input.sample_rate_spec(),
                output.sample_rate_spec(),
            )
        },
{
    let rate_in = input.sample_rate();
    let rate_out = output.sample_rate();
    let ring = match RingBuffer::for_sample_rate(rate_in) {
        Ok(ring) => ring,
        Err(error) => {
            return Err(error);
        },
    };
    let (producer, consumer) = ring.split();
    let source = SampleSource::new(consumer);
    match Resampler::from_hz_to_hz(source, rate_in, rate_out) {
        Some(converter) => {
            let channels = ChannelConverter::for_channels(input.channels(), output.channels());
            Ok((Capture { producer }, Playback { channels, converter }))
        },
        None => vstd::pervasive::unreached(),
    }
}

} // verus!
