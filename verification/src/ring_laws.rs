//! What holds of every history of a [`RingBuffer`](crate::ring::RingBuffer):
//! the order of arrival is the order of departure, nothing comes out that
//! did not go in, and a push that does not fit loses exactly its excess.
//!
//! A history is a sequence of operations; [`run`] replays it with the same
//! specification functions that the contracts of `push` and `pop` are
//! written in.

use crate::ring::accepted;
use crate::ring::after_pop;
use crate::ring::after_push;
use crate::ring::front;
use vstd::prelude::*;

verus! {

/// One operation on a buffer.
pub enum RingOp {
    /// Offer these samples.
    Push(Seq<u32>),
    /// Read one sample.
    Pop,
}

/// Where a history has led.
pub struct RingRun {
    /// The samples held, oldest first.
    pub contents: Seq<u32>,
    /// Every sample that was offered, in order.
    pub offered: Seq<u32>,
    /// Every sample that was taken in, in order.
    pub taken: Seq<u32>,
    /// Every sample that was read, in order.
    pub popped: Seq<u32>,
}

/// The state of a buffer of `capacity`, empty at first, after `ops`.
pub open spec fn run(capacity: nat, ops: Seq<RingOp>) -> RingRun
    decreases ops.len(),
{
    if ops.len() == 0 {
        RingRun {
            contents: Seq::empty(),
            offered: Seq::empty(),
            taken: Seq::empty(),
            popped: Seq::empty(),
        }
    } else {
        let before = run(capacity, ops.drop_last());
        match ops.last() {
            RingOp::Push(samples) => RingRun {
                contents: after_push(before.contents, capacity, samples),
                offered: before.offered + samples,
                taken: before.taken + samples.take(
                    accepted(before.contents.len(), capacity, samples.len()) as int,
                ),
                popped: before.popped,
            },
            RingOp::Pop => RingRun {
                contents: after_pop(before.contents),
                offered: before.offered,
                taken: before.taken,
                popped: match front(before.contents) {
                    Some(sample) => before.popped.push(sample),
                    None => before.popped,
                },
            },
        }
    }
}

/// Every push of the history found room for all of its samples.
pub open spec fn within_capacity(capacity: nat, ops: Seq<RingOp>) -> bool {
    forall|i: int|
        0 <= i < ops.len() ==> (#[trigger] ops[i] matches RingOp::Push(samples) ==> run(
            capacity,
            ops.take(i),
        ).contents.len() + samples.len() <= capacity)
}

/// A buffer never holds more than its capacity, and what was taken in
/// leaves in the order in which it came: the samples read so far, followed
/// by the samples still held, are exactly the samples taken in.
pub proof fn lemma_first_in_first_out(capacity: nat, ops: Seq<RingOp>)
    ensures
        run(capacity, ops).contents.len() <= capacity,
        run(capacity, ops).taken == run(capacity, ops).popped + run(capacity, ops).contents,
    decreases ops.len(),
{
    if ops.len() > 0 {
        lemma_first_in_first_out(capacity, ops.drop_last());
        let before = run(capacity, ops.drop_last());
        let after = run(capacity, ops);
        match ops.last() {
            RingOp::Push(samples) => {
                assert(after.taken =~= after.popped + after.contents);
            },
            RingOp::Pop => {
                if before.contents.len() > 0 {
                    assert(after.taken =~= after.popped + after.contents);
                }
            },
        }
    }
}

/// Nothing is read that was not offered: every sample that came out of the
/// buffer, and every sample still in it, was offered to it before.
pub proof fn lemma_nothing_invented(capacity: nat, ops: Seq<RingOp>)
    ensures
        forall|sample: u32| #[trigger]
            run(capacity, ops).popped.contains(sample) ==> run(capacity, ops).offered.contains(
                sample,
            ),
        forall|sample: u32| #[trigger]
            run(capacity, ops).contents.contains(sample) ==> run(capacity, ops).offered.contains(
                sample,
            ),
{
    lemma_first_in_first_out(capacity, ops);
    lemma_taken_was_offered(capacity, ops);
    let end = run(capacity, ops);
    assert forall|sample: u32| #[trigger] end.popped.contains(sample) implies end.offered.contains(
        sample,
    ) by {
        let i = choose|i: int| 0 <= i < end.popped.len() && end.popped[i] == sample;
        assert(end.taken[i] == sample);
        assert(end.taken.contains(sample));
    }
    assert forall|sample: u32| #[trigger]
        end.contents.contains(sample) implies end.offered.contains(sample) by {
        let i = choose|i: int| 0 <= i < end.contents.len() && end.contents[i] == sample;
        assert(end.taken[end.popped.len() + i] == sample);
        assert(end.taken.contains(sample));
    }
}

/// Every sample that was taken in was offered.
proof fn lemma_taken_was_offered(capacity: nat, ops: Seq<RingOp>)
    ensures
        forall|sample: u32| #[trigger]
            run(capacity, ops).taken.contains(sample) ==> run(capacity, ops).offered.contains(
                sample,
            ),
    decreases ops.len(),
{
    if ops.len() > 0 {
        lemma_taken_was_offered(capacity, ops.drop_last());
        let before = run(capacity, ops.drop_last());
        let after = run(capacity, ops);
        match ops.last() {
            RingOp::Push(samples) => {
                let count = accepted(before.contents.len(), capacity, samples.len()) as int;
                assert forall|sample: u32| #[trigger]
                    after.taken.contains(sample) implies after.offered.contains(sample) by {
                    let i = choose|i: int| 0 <= i < after.taken.len() && after.taken[i] == sample;
                    if i < before.taken.len() {
                        assert(before.taken[i] == sample);
                        assert(before.taken.contains(sample));
                        let j = choose|j: int|
                            0 <= j < before.offered.len() && before.offered[j] == sample;
                        assert(after.offered[j] == sample);
                    } else {
                        let k = i - before.taken.len();
                        assert(samples.take(count)[k] == sample);
                        assert(after.offered[before.offered.len() + k] == sample);
                    }
                }
            },
            RingOp::Pop => {},
        }
    }
}

/// While every push finds room, nothing is lost: the samples read so far,
/// followed by the samples still held, are exactly the samples offered, in
/// the order in which they were offered.
pub proof fn lemma_nothing_lost_within_capacity(capacity: nat, ops: Seq<RingOp>)
    requires
        within_capacity(capacity, ops),
    ensures
        run(capacity, ops).taken == run(capacity, ops).offered,
        run(capacity, ops).offered == run(capacity, ops).popped + run(capacity, ops).contents,
    decreases ops.len(),
{
    lemma_first_in_first_out(capacity, ops);
    if ops.len() > 0 {
        let shorter = ops.drop_last();
        assert forall|i: int| 0 <= i < shorter.len() implies (#[trigger] shorter[i] matches RingOp::Push(
            samples,
        ) ==> run(capacity, shorter.take(i)).contents.len() + samples.len() <= capacity) by {
            assert(shorter[i] == ops[i]);
            assert(shorter.take(i) =~= ops.take(i));
        }
        lemma_nothing_lost_within_capacity(capacity, shorter);
        let before = run(capacity, shorter);
        let after = run(capacity, ops);
        match ops.last() {
            RingOp::Push(samples) => {
                let last = ops.len() - 1;
                assert(ops[last] == ops.last());
                assert(ops.take(last) =~= shorter);
                assert(samples.take(samples.len() as int) =~= samples);
            },
            RingOp::Pop => {},
        }
    }
}

/// A push that fits is taken whole; one that does not fills the buffer with
/// its first samples and loses exactly the excess.
pub proof fn lemma_push_drops_exactly_the_excess(
    contents: Seq<u32>,
    capacity: nat,
    samples: Seq<u32>,
)
    requires
        contents.len() <= capacity,
    ensures
        samples.len() <= capacity - contents.len() ==> after_push(contents, capacity, samples)
            == contents + samples,
        samples.len() > capacity - contents.len() ==> {
            let free = capacity - contents.len();
            &&& accepted(contents.len(), capacity, samples.len()) == free
            &&& samples.len() - accepted(contents.len(), capacity, samples.len()) == samples.len()
                - free
            &&& after_push(contents, capacity, samples) == contents + samples.take(free)
            &&& after_push(contents, capacity, samples).len() == capacity
        },
{
    if samples.len() <= capacity - contents.len() {
        assert(samples.take(samples.len() as int) =~= samples);
    }
}

/// A read comes back empty-handed from an empty buffer and from no other,
/// and otherwise removes the one sample that it returns.
pub proof fn lemma_pop_is_empty_only_when_empty(contents: Seq<u32>)
    ensures
        front(contents) is None <==> contents.len() == 0,
        front(contents) matches Some(sample) ==> contents == seq![sample] + after_pop(contents),
        front(contents) is None ==> after_pop(contents) == contents,
{
    if contents.len() > 0 {
        assert(contents =~= seq![contents[0]] + contents.drop_first());
    }
}

} // verus!
