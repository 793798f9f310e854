//! The audio pipeline of a microphone monitor: live samples travel from a
//! capture callback to a playback callback, across devices that differ in
//! sample rate and channel count.
//!
//! - [`ring`]: the bounded queue between the two callbacks, and its two halves.
//! - [`source`]: the pull side of the queue, which gives silence when starved.
//! - [`resampler`]: the walk through the source at the pace of the output.
//! - [`channel`]: mono to stereo, stereo to mono, or passthrough.
//! - [`pipeline`]: the above, wired for one session.
//! - [`config`]: stream configurations and the buffer-size policy.
//! - [`session`]: bringing the streams up, and taking them down again.
//! - [`ring_laws`], [`resampler_laws`], [`channel_laws`]: what holds of every
//!   history of a queue, a walk and a conversion.
//!
//! A sample is an amplitude; here it travels as the 32 bits of its encoding,
//! and nothing in this crate looks inside. Where an output is a point between
//! two samples, or the mean of two, the crate says which samples and what
//! point, exactly and in whole numbers, and leaves the arithmetic on
//! amplitudes to its caller.

pub mod channel;
pub mod channel_laws;
pub mod config;
pub mod pipeline;
pub mod resampler;
pub mod resampler_laws;
pub mod ring;
pub mod ring_laws;
pub mod session;
pub mod source;
