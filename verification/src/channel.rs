//! Reconciling the channel counts of capture and playback.
//!
//! The converter is asked once for every sample slot of the output, one per
//! channel per frame. It pulls from the rate converter what the slot needs
//! and says what fills the slot: one blend as it is, or the arithmetic mean
//! of two. Like a blend, a mean is handed out unevaluated.

use crate::resampler::Blend;
use crate::resampler::Position;
use crate::resampler::Resampler;
use vstd::prelude::*;

verus! {

/// What fills one slot of the output.
#[derive(Clone, Copy, Debug, PartialEq, Eq, Structural)]
pub enum Slot {
    /// This blend.
    Single(Blend),
    /// The arithmetic mean of the two blends, left and right.
    Mean(Blend, Blend),
}

/// How the channels of the source map to the channels of the output.
#[derive(Clone, Copy, Debug, PartialEq, Eq, Structural)]
pub enum ChannelConverter {
    /// Direct passthrough for channels of the same width.
    Passthrough,
    /// Two channels to one: each output is the mean of a left and a right.
    StereoToMono,
    /// One channel to two: each sample is put out twice. The field holds a
    /// sample that was put out for the left slot and awaits the right one.
    MonoToStereo(Option<Blend>),
}

impl ChannelConverter {
    /// The converter for a source of `input_channels` and an output of
    /// `output_channels`, with no sample pending.
    pub open spec fn for_channels_spec(input_channels: u16, output_channels: u16) -> ChannelConverter {
        if input_channels == 1 && output_channels == 2 {
            ChannelConverter::MonoToStereo(None)
        } else if input_channels == 2 && output_channels == 1 {
            ChannelConverter::StereoToMono
        } else {
            ChannelConverter::Passthrough
        }
    }

    /// How many blends the next slot consumes.
    pub open spec fn demand(self) -> nat {
        match self {
            ChannelConverter::Passthrough => 1,
            ChannelConverter::StereoToMono => 2,
            ChannelConverter::MonoToStereo(None) => 1,
            ChannelConverter::MonoToStereo(Some(_)) => 0,
        }
    }

    /// What fills the next slot, given the blends that it consumes.
    pub open spec fn slot(self, pulled: Seq<Blend>) -> Slot {
        match self {
            ChannelConverter::Passthrough => Slot::Single(pulled[0]),
            ChannelConverter::StereoToMono => Slot::Mean(pulled[0], pulled[1]),
            ChannelConverter::MonoToStereo(None) => Slot::Single(pulled[0]),
            ChannelConverter::MonoToStereo(Some(pending)) => Slot::Single(pending),
        }
    }

    /// The converter after the next slot, given the blends that it consumes.
    pub open spec fn after(self, pulled: Seq<Blend>) -> ChannelConverter {
        match self {
            ChannelConverter::Passthrough => ChannelConverter::Passthrough,
            ChannelConverter::StereoToMono => ChannelConverter::StereoToMono,
            ChannelConverter::MonoToStereo(None) => ChannelConverter::MonoToStereo(Some(pulled[0])),
            ChannelConverter::MonoToStereo(Some(_)) => ChannelConverter::MonoToStereo(None),
        }
    }

    /// One slot, seen from outside: the rate converter walked from `from` to
    /// `to` through as many outputs as the slot demands, whatever came of its
    /// source, and `slot` and `next` are what [`Self::slot`] and
    /// [`Self::after`] say of the blends that it gave.
    pub open spec fn fills(
        self,
        from: Position,
        slot: Slot,
        next: ChannelConverter,
        to: Position,
    ) -> bool {
        &&& self.demand() == 0 ==> {
            &&& to == from
            &&& slot == self.slot(Seq::empty())
            &&& next == self.after(Seq::empty())
        }
        &&& self.demand() == 1 ==> exists|only: Blend|
            {
                &&& #[trigger] from.yields(to, only)
                &&& slot == self.slot(seq![only])
                &&& next == self.after(seq![only])
            }
        &&& self.demand() == 2 ==> exists|left: Blend, right: Blend, middle: Position|
            {
                &&& #[trigger] from.yields(middle, left)
                &&& #[trigger] middle.yields(to, right)
                &&& slot == self.slot(seq![left, right])
                &&& next == self.after(seq![left, right])
            }
    }

    /// Picks the converter for a source of `input_channels` and an output of
    /// `output_channels`: duplication from one to two, averaging from two to
    /// one, passthrough for every other pair.
    pub fn for_channels(input_channels: u16, output_channels: u16) -> (converter: ChannelConverter)
        ensures
            converter == Self::for_channels_spec(input_channels, output_channels),
    {
        if input_channels == 1 && output_channels == 2 {
            ChannelConverter::MonoToStereo(None)
        } else if input_channels == 2 && output_channels == 1 {
            ChannelConverter::StereoToMono
        } else {
            ChannelConverter::Passthrough
        }
    }

    /// Fills the next slot of the output. Passthrough pulls one blend and
    /// forwards it. Stereo to mono pulls two, left then right, and asks for
    /// their mean. Mono to stereo pulls one for the left slot, keeps it, and
    /// gives the same one for the right slot without pulling.
    ///
    /// The rate converter is pulled exactly as often as the slot demands.
    pub fn next(&mut self, converter: &mut Resampler) -> (slot: Slot)
        ensures
            old(self).fills(old(converter)@, slot, *final(self), final(converter)@),
    {
        let ghost before = converter@;
        match *self {
            ChannelConverter::Passthrough => {
                let only = converter.next();
                assert(before.yields(converter@, only));
                assert(seq![only][0] == only);
                Slot::Single(only)
            },
            ChannelConverter::StereoToMono => {
                let left = converter.next();
                let ghost middle = converter@;
                let right = converter.next();
                assert(before.yields(middle, left) && middle.yields(converter@, right));
                assert(seq![left, right][0] == left && seq![left, right][1] == right);
                Slot::Mean(left, right)
            },
            ChannelConverter::MonoToStereo(None) => {
                let only = converter.next();
                *self = ChannelConverter::MonoToStereo(Some(only));
                assert(before.yields(converter@, only));
                assert(seq![only][0] == only);
                Slot::Single(only)
            },
            ChannelConverter::MonoToStereo(Some(pending)) => {
                *self = ChannelConverter::MonoToStereo(None);
                Slot::Single(pending)
            },
        }
    }
}

} // verus!
