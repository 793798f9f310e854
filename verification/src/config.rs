//! Stream configurations and the buffer-size policy.
//!
//! A device reports which buffer sizes it supports; the policy picks the
//! smallest for the lowest latency, or about [`DELAY_SECONDS`] seconds of
//! audio where a deliberate delay is asked for.

use vstd::prelude::*;

verus! {

/// The seconds of audio that a delayed stream buffers.
pub const DELAY_SECONDS: u32 = 2;

/// The buffer sizes, in frames, that a device reports as supported.
#[derive(Clone, Copy, Debug, PartialEq, Eq, Structural)]
pub enum SupportedBufferSize {
    /// Any size from `min` to `max`.
    Range { min: u32, max: u32 },
    /// The device does not say.
    Unknown,
}

/// The buffer size that a stream is opened with.
#[derive(Clone, Copy, Debug, PartialEq, Eq, Structural)]
pub enum BufferSize {
    /// Whatever the device prefers.
    Default,
    /// This many frames.
    Fixed(u32),
}

/// The policy: the device's own default where it reports no range; else the
/// smallest supported size, or, delayed, [`DELAY_SECONDS`] seconds of frames
/// capped at the largest supported size.
pub open spec fn buffer_size_for(
    supported: SupportedBufferSize,
    sample_rate: u32,
    is_delayed: bool,
) -> BufferSize {
    match supported {
        SupportedBufferSize::Range { min, max } => {
            if !is_delayed {
                BufferSize::Fixed(min)
            } else if sample_rate * DELAY_SECONDS <= max {
                BufferSize::Fixed((sample_rate * DELAY_SECONDS) as u32)
            } else {
                BufferSize::Fixed(max)
            }
        },
        SupportedBufferSize::Unknown => BufferSize::Default,
    }
}

/// Picks the buffer size for a stream of `sample_rate` Hz on a device that
/// supports `supported`.
pub fn get_buffer_size(
    supported: &SupportedBufferSize,
    sample_rate: u32,
    is_delayed: bool,
) -> (chosen: BufferSize)
    ensures
        chosen == buffer_size_for(*supported, sample_rate, is_delayed),
{
    match supported {
        SupportedBufferSize::Range { min, max } => {
            if is_delayed {
                let frames: u32 = match sample_rate.checked_mul(DELAY_SECONDS) {
                    Some(frames) => frames,
                    None => u32::MAX,
                };
                if frames <= *max {
                    BufferSize::Fixed(frames)
                } else {
                    BufferSize::Fixed(*max)
                }
            } else {
                BufferSize::Fixed(*min)
            }
        },
        SupportedBufferSize::Unknown => BufferSize::Default,
    }
}

/// A fixed size is never above the largest that the device supports, and
/// without delay it is the smallest.
pub proof fn lemma_fixed_size_is_supported(
    supported: SupportedBufferSize,
    sample_rate: u32,
    is_delayed: bool,
)
    ensures
        supported is Unknown <==> buffer_size_for(supported, sample_rate, is_delayed) is Default,
        supported matches SupportedBufferSize::Range { min, max } ==> {
            &&& buffer_size_for(supported, sample_rate, is_delayed) matches BufferSize::Fixed(frames)
            &&& (!is_delayed ==> frames == min)
            &&& (is_delayed ==> frames <= max && frames <= sample_rate * DELAY_SECONDS)
            &&& (is_delayed ==> frames == max || frames == sample_rate * DELAY_SECONDS)
        },
{
}

/// What a stream is opened with. Channels and sample rate are positive, and
/// nothing changes once the configuration is made.
#[derive(Clone, Copy, Debug)]
pub struct StreamConfig {
    channels: u16,
    sample_rate: u32,
    buffer_size: BufferSize,
}

impl StreamConfig {
    #[verifier::type_invariant]
    spec fn well_formed(self) -> bool {
        self.channels > 0 && self.sample_rate > 0
    }

    /// The number of channels.
    pub closed spec fn channels_spec(self) -> u16 {
        self.channels
    }

    /// The sample rate in Hz.
    pub closed spec fn sample_rate_spec(self) -> u32 {
        self.sample_rate
    }

    /// The buffer size.
    pub closed spec fn buffer_size_spec(self) -> BufferSize {
        self.buffer_size
    }

    /// A configuration of `channels` channels at `sample_rate` Hz, or nothing
    /// where one of the two is zero.
    pub fn new(
        channels: u16,
        sample_rate: u32,
        buffer_size: BufferSize,
    ) -> (made: Option<StreamConfig>)
        ensures
            made is Some <==> channels > 0 && sample_rate > 0,
            made matches Some(config) ==> config.channels_spec() == channels
                && config.sample_rate_spec() == sample_rate && config.buffer_size_spec()
                == buffer_size,
    {
        if channels == 0 || sample_rate == 0 {
            None
        } else {
            Some(StreamConfig { channels, sample_rate, buffer_size })
        }
    }

    /// The configuration of a device's default stream, with the buffer size
    /// that the policy picks from what the device supports.
    pub fn resolve(
        channels: u16,
        sample_rate: u32,
        supported: &SupportedBufferSize,
        is_delayed: bool,
    ) -> (made: Option<StreamConfig>)
        ensures
            made is Some <==> channels > 0 && sample_rate > 0,
            made matches Some(config) ==> config.channels_spec() == channels
                && config.sample_rate_spec() == sample_rate && config.buffer_size_spec()
                == buffer_size_for(*supported, sample_rate, is_delayed),
    {
        StreamConfig::new(channels, sample_rate, get_buffer_size(supported, sample_rate, is_delayed))
    }

    /// The number of channels; never zero.
    pub fn channels(&self) -> (channels: u16)
        ensures
            channels == self.channels_spec(),
            channels > 0,
    {
        proof {
            use_type_invariant(self);
        }
        self.channels
    }

    /// The sample rate in Hz; never zero.
    pub fn sample_rate(&self) -> (sample_rate: u32)
        ensures
            sample_rate == self.sample_rate_spec(),
            sample_rate > 0,
    {
        proof {
            use_type_invariant(self);
        }
        self.sample_rate
    }

    /// The buffer size.
    pub fn buffer_size(&self) -> (buffer_size: BufferSize)
        ensures
            buffer_size == self.buffer_size_spec(),
    {
        self.buffer_size
    }
}

} // verus!
