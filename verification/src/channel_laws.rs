//! What holds of every output that a channel converter fills.
//!
//! The rate converter is an endless stream of blends, given as a function of
//! the index. [`fill`] replays a number of slots with the specification
//! functions of [`ChannelConverter`], pulling from the stream in order. The
//! laws give each slot in closed form, and say that filling a buffer in two
//! goes is filling it in one.

use crate::channel::ChannelConverter;
use crate::channel::Slot;
use crate::resampler::Blend;
use vstd::prelude::*;

verus! {

/// Where a number of slots has led.
pub struct Filled {
    /// The converter after the last slot.
    pub converter: ChannelConverter,
    /// What fills the slots, in order.
    pub slots: Seq<Slot>,
    /// How many blends were pulled.
    pub consumed: nat,
}

/// The `count` blends of the stream from `from` on.
pub open spec fn upcoming(blends: spec_fn(nat) -> Blend, from: nat, count: nat) -> Seq<Blend> {
    Seq::new(count, |i: int| blends((from + i) as nat))
}

/// The stream from `from` on.
pub open spec fn rest(blends: spec_fn(nat) -> Blend, from: nat) -> spec_fn(nat) -> Blend {
    |i: nat| blends(from + i)
}

/// `slots` slots filled from `start` on, pulling from `blends`.
pub open spec fn fill(start: ChannelConverter, blends: spec_fn(nat) -> Blend, slots: nat) -> Filled
    decreases slots,
{
    if slots == 0 {
        Filled { converter: start, slots: Seq::empty(), consumed: 0 }
    } else {
        let before = fill(start, blends, (slots - 1) as nat);
        let pulled = upcoming(blends, before.consumed, before.converter.demand());
        Filled {
            converter: before.converter.after(pulled),
            slots: before.slots.push(before.converter.slot(pulled)),
            consumed: before.consumed + before.converter.demand(),
        }
    }
}

/// Passthrough forwards the stream: slot `k` is blend `k`.
pub proof fn lemma_passthrough_forwards(blends: spec_fn(nat) -> Blend, slots: nat)
    ensures
        fill(ChannelConverter::Passthrough, blends, slots).converter
            == ChannelConverter::Passthrough,
        fill(ChannelConverter::Passthrough, blends, slots).consumed == slots,
        fill(ChannelConverter::Passthrough, blends, slots).slots.len() == slots,
        forall|k: int|
            0 <= k < slots ==> #[trigger] fill(ChannelConverter::Passthrough, blends, slots).slots[k]
                == Slot::Single(blends(k as nat)),
    decreases slots,
{
    if slots > 0 {
        lemma_passthrough_forwards(blends, (slots - 1) as nat);
        let before = fill(ChannelConverter::Passthrough, blends, (slots - 1) as nat);
        let after = fill(ChannelConverter::Passthrough, blends, slots);
        assert forall|k: int| 0 <= k < slots implies #[trigger] after.slots[k] == Slot::Single(
            blends(k as nat),
        ) by {
            if k < slots - 1 {
                assert(after.slots[k] == before.slots[k]);
            }
        }
    }
}

/// Stereo to mono pairs the stream: slot `k` is the mean of blends `2k`,
/// the left one, and `2k + 1`, the right one.
pub proof fn lemma_stereo_to_mono_averages_pairs(blends: spec_fn(nat) -> Blend, slots: nat)
    ensures
        fill(ChannelConverter::StereoToMono, blends, slots).converter
            == ChannelConverter::StereoToMono,
        fill(ChannelConverter::StereoToMono, blends, slots).consumed == 2 * slots,
        fill(ChannelConverter::StereoToMono, blends, slots).slots.len() == slots,
        forall|k: int|
            0 <= k < slots ==> #[trigger] fill(
                ChannelConverter::StereoToMono,
                blends,
                slots,
            ).slots[k] == Slot::Mean(blends((2 * k) as nat), blends((2 * k + 1) as nat)),
    decreases slots,
{
    if slots > 0 {
        lemma_stereo_to_mono_averages_pairs(blends, (slots - 1) as nat);
        let before = fill(ChannelConverter::StereoToMono, blends, (slots - 1) as nat);
        let after = fill(ChannelConverter::StereoToMono, blends, slots);
        assert forall|k: int| 0 <= k < slots implies #[trigger] after.slots[k] == Slot::Mean(
            blends((2 * k) as nat),
            blends((2 * k + 1) as nat),
        ) by {
            if k < slots - 1 {
                assert(after.slots[k] == before.slots[k]);
            }
        }
    }
}

/// Mono to stereo puts every blend out twice, in order: slots `2k` and
/// `2k + 1` are both blend `k`. After an even number of slots nothing is
/// pending; after an odd number the blend of the left slot is.
pub proof fn lemma_mono_to_stereo_duplicates(blends: spec_fn(nat) -> Blend, slots: nat)
    ensures
        fill(ChannelConverter::MonoToStereo(None), blends, slots).converter == if slots % 2 == 0 {
            ChannelConverter::MonoToStereo(None)
        } else {
            ChannelConverter::MonoToStereo(Some(blends((slots / 2) as nat)))
        },
        fill(ChannelConverter::MonoToStereo(None), blends, slots).consumed == (slots + 1) / 2,
        fill(ChannelConverter::MonoToStereo(None), blends, slots).slots.len() == slots,
        forall|k: int|
            0 <= k < slots ==> #[trigger] fill(
                ChannelConverter::MonoToStereo(None),
                blends,
                slots,
            ).slots[k] == Slot::Single(blends((k / 2) as nat)),
    decreases slots,
{
    if slots > 0 {
        lemma_mono_to_stereo_duplicates(blends, (slots - 1) as nat);
        let before = fill(ChannelConverter::MonoToStereo(None), blends, (slots - 1) as nat);
        let after = fill(ChannelConverter::MonoToStereo(None), blends, slots);
        assert forall|k: int| 0 <= k < slots implies #[trigger] after.slots[k] == Slot::Single(
            blends((k / 2) as nat),
        ) by {
            if k < slots - 1 {
                assert(after.slots[k] == before.slots[k]);
            }
        }
    }
}

/// Filling a buffer in two goes is filling it in one: the second go takes up
/// the converter and the stream where the first left them, so a sample that
/// is pending at the end of one buffer opens the next, and left and right
/// never swap.
pub proof fn lemma_refill_continues(
    start: ChannelConverter,
    blends: spec_fn(nat) -> Blend,
    first: nat,
    second: nat,
)
    ensures
        ({
            let one = fill(start, blends, first);
            let two = fill(one.converter, rest(blends, one.consumed), second);
            let whole = fill(start, blends, first + second);
            &&& whole.converter == two.converter
            &&& whole.consumed == one.consumed + two.consumed
            &&& whole.slots == one.slots + two.slots
        }),
    decreases second,
{
    let one = fill(start, blends, first);
    let later = rest(blends, one.consumed);
    let two = fill(one.converter, later, second);
    let whole = fill(start, blends, first + second);
    if second == 0 {
        assert(whole.slots =~= one.slots + two.slots);
    } else {
        lemma_refill_continues(start, blends, first, (second - 1) as nat);
        let two_before = fill(one.converter, later, (second - 1) as nat);
        let whole_before = fill(start, blends, (first + second - 1) as nat);
        let demand = two_before.converter.demand();
        assert(upcoming(later, two_before.consumed, demand) =~= upcoming(
            blends,
            whole_before.consumed,
            demand,
        ));
        assert(whole.slots =~= one.slots + two.slots);
    }
}

} // verus!
