//! A bounded first-in first-out queue of samples.
//!
//! The storage is a heap ring buffer of the `ringbuf` crate. Its contents and
//! capacity are named by two specification functions; the few calls into the
//! crate are the private functions at the top of this file, whose contracts
//! are taken on trust. The buffer itself, with its overflow policy, is proved
//! from them.
//!
//! A buffer is used whole, by one owner, or parted into a writing and a
//! reading half for two threads. Whole, its contracts are exact. Parted, each
//! half knows the queue as it was when that half last touched it. What the
//! other half has done since is not known, but it can only be one thing: the
//! reader can only have taken samples from the front, the writer can only
//! have added samples at the back. So an operation of a half is the same
//! operation of the whole buffer, on a queue that is what the half knew less
//! some of its front, or plus something at its back.

use ringbuf::HeapConsumer;
use ringbuf::HeapProducer;
use ringbuf::HeapRb;
use ringbuf::Rb;
use vstd::prelude::*;

verus! {

/// The ring buffer of the `ringbuf` crate, with `u32` items. Opaque to the
/// verifier: what it holds is spoken of through [`ring_contents`] and
/// [`ring_capacity`] only. It is wrapped in a struct of this crate because
/// the crate's own type is bounded by traits that the verifier does not know.
#[verifier::external_body]
pub struct RingStore {
    inner: HeapRb<u32>,
}

/// The items that a store holds, oldest first.
pub uninterp spec fn ring_contents(store: RingStore) -> Seq<u32>;

/// The number of items that a store was made for.
pub uninterp spec fn ring_capacity(store: RingStore) -> nat;

/// `HeapRb::try_new`: a store for `capacity` items, empty at first, or nothing
/// where the allocator refuses. The crate panics on a capacity of zero, which
/// the precondition leaves out.
#[verifier::external_body]
fn store_try_new(capacity: usize) -> (made: Option<RingStore>)
    requires
        capacity > 0,
    ensures
        made matches Some(store) ==> ring_contents(store) == Seq::<u32>::empty() && ring_capacity(
            store,
        ) == capacity,
{
    match HeapRb::<u32>::try_new(capacity) {
        Ok(inner) => Some(RingStore { inner }),
        Err(_) => None,
    }
}

/// `Rb::free_len`: the number of places that are still vacant.
#[verifier::external_body]
fn store_free_len(store: &RingStore) -> (free: usize)
    ensures
        free == ring_capacity(*store) - ring_contents(*store).len(),
{
    store.inner.free_len()
}

/// `Rb::push_slice`: appends every item of the slice, in order, behind what is
/// held. The crate panics on a slice longer than the vacant space, which the
/// precondition leaves out.
#[verifier::external_body]
fn store_push_slice(store: &mut RingStore, items: &[u32])
    requires
        ring_contents(*old(store)).len() + items@.len() <= ring_capacity(*old(store)),
    ensures
        ring_contents(*final(store)) == ring_contents(*old(store)) + items@,
        ring_capacity(*final(store)) == ring_capacity(*old(store)),
    no_unwind
{
    store.inner.push_slice(items)
}

/// `Rb::pop`: takes the oldest item out, or returns nothing and changes
/// nothing where the store is empty.
#[verifier::external_body]
fn store_pop(store: &mut RingStore) -> (popped: Option<u32>)
    ensures
        ring_capacity(*final(store)) == ring_capacity(*old(store)),
        ring_contents(*old(store)).len() == 0 ==> popped.is_none() && ring_contents(*final(store))
            == ring_contents(*old(store)),
        ring_contents(*old(store)).len() > 0 ==> popped == Some(ring_contents(*old(store))[0])
            && ring_contents(*final(store)) == ring_contents(*old(store)).drop_first(),
    no_unwind
{
    store.inner.pop()
}

/// The writing half of a store that was split, as the `ringbuf` crate hands
/// it out. Opaque to the verifier: the queue as this half knows it is spoken
/// of through [`producer_contents`] and [`producer_capacity`] only.
#[verifier::external_body]
pub struct RingProducer {
    inner: HeapProducer<u32>,
}

/// The reading half of a store that was split. Opaque to the verifier: the
/// queue as this half knows it is spoken of through [`consumer_contents`]
/// only.
#[verifier::external_body]
pub struct RingConsumer {
    inner: HeapConsumer<u32>,
}

/// The items that were in the queue when the writing half last touched it,
/// oldest first.
pub uninterp spec fn producer_contents(producer: RingProducer) -> Seq<u32>;

/// The number of items that the queue of a writing half was made for.
pub uninterp spec fn producer_capacity(producer: RingProducer) -> nat;

/// The items that were in the queue when the reading half last touched it,
/// oldest first.
pub uninterp spec fn consumer_contents(consumer: RingConsumer) -> Seq<u32>;

/// `SharedRb::split`: the two halves of a store, for two threads. The store
/// moves behind them as it is, so each half starts out knowing all of it.
#[verifier::external_body]
fn store_split(store: RingStore) -> (halves: (RingProducer, RingConsumer))
    ensures
        producer_contents(halves.0) == ring_contents(store),
        producer_capacity(halves.0) == ring_capacity(store),
        consumer_contents(halves.1) == ring_contents(store),
{
    let (producer, consumer) = store.inner.split();
    (RingProducer { inner: producer }, RingConsumer { inner: consumer })
}

/// `Producer::push_slice`: looks how much room there is, appends as many
/// items of the slice as fit, in order, and returns their number. Since this
/// half last touched the queue the reading half can only have taken items
/// from its front, so what is found is a suffix of what was known.
#[verifier::external_body]
fn producer_push_slice(producer: &mut RingProducer, items: &[u32]) -> (written: usize)
    ensures
        writes(
            producer_contents(*old(producer)),
            producer_capacity(*old(producer)),
            items@,
            written as nat,
            producer_contents(*final(producer)),
        ),
        producer_capacity(*final(producer)) == producer_capacity(*old(producer)),
{
    producer.inner.push_slice(items)
}

/// `Consumer::pop`: looks what is in the queue and takes the oldest item out,
/// or returns nothing where it finds none. Since this half last touched the
/// queue the writing half can only have added items at its back, so what was
/// known is a prefix of what is found.
#[verifier::external_body]
fn consumer_pop(consumer: &mut RingConsumer) -> (popped: Option<u32>)
    ensures
        reads(consumer_contents(*old(consumer)), popped, consumer_contents(*final(consumer))),
{
    consumer.inner.pop()
}

/// Why a buffer could not be made.
#[derive(Clone, Copy, Debug, PartialEq, Eq, Structural)]
pub enum RingError {
    /// A buffer for no samples was asked for.
    ZeroCapacity,
    /// The capacity does not fit the machine's address width.
    CapacityOverflow,
    /// The allocator refused the storage.
    OutOfMemory,
}

/// The seconds of audio that a session's buffer holds.
pub const RING_SECONDS: usize = 2;

/// How many of `offered` samples a buffer of `capacity` that holds `held`
/// takes in: all of them, or as many as there are vacant places.
pub open spec fn accepted(held: nat, capacity: nat, offered: nat) -> nat {
    if held + offered <= capacity {
        offered
    } else if held <= capacity {
        (capacity - held) as nat
    } else {
        0
    }
}

/// The contents after `samples` were offered: the first ones that fit are
/// appended, the excess is dropped.
pub open spec fn after_push(contents: Seq<u32>, capacity: nat, samples: Seq<u32>) -> Seq<u32> {
    contents + samples.take(accepted(contents.len(), capacity, samples.len()) as int)
}

/// What a read returns: the oldest sample, or nothing from an empty buffer.
pub open spec fn front(contents: Seq<u32>) -> Option<u32> {
    if contents.len() == 0 {
        None
    } else {
        Some(contents[0])
    }
}

/// The contents after a read.
pub open spec fn after_pop(contents: Seq<u32>) -> Seq<u32> {
    if contents.len() == 0 {
        contents
    } else {
        contents.drop_first()
    }
}

/// One push by a writing half that knew the queue as `known`: it found the
/// queue with some of that taken from the front, and did to what it found
/// what a push does to a whole buffer.
pub open spec fn writes(
    known: Seq<u32>,
    capacity: nat,
    samples: Seq<u32>,
    written: nat,
    after: Seq<u32>,
) -> bool {
    exists|found: Seq<u32>|
        {
            &&& #[trigger] found.is_suffix_of(known)
            &&& written == accepted(found.len(), capacity, samples.len())
            &&& after == after_push(found, capacity, samples)
        }
}

/// One read by a reading half that knew the queue as `known`: it found the
/// queue with something added at the back, and did to what it found what a
/// read does to a whole buffer.
pub open spec fn reads(known: Seq<u32>, popped: Option<u32>, after: Seq<u32>) -> bool {
    exists|found: Seq<u32>|
        {
            &&& #[trigger] known.is_prefix_of(found)
            &&& popped == front(found)
            &&& after == after_pop(found)
        }
}

/// A bounded queue of samples: the hand-off between capture and playback.
pub struct RingBuffer {
    store: RingStore,
    capacity: usize,
}

impl View for RingBuffer {
    type V = Seq<u32>;

    closed spec fn view(&self) -> Seq<u32> {
        ring_contents(self.store)
    }
}

impl RingBuffer {
    #[verifier::type_invariant]
    spec fn well_formed(self) -> bool {
        &&& self.capacity > 0
        &&& ring_capacity(self.store) == self.capacity
        &&& ring_contents(self.store).len() <= self.capacity
    }

    /// The number of samples that the buffer was made for.
    pub closed spec fn capacity_spec(&self) -> nat {
        self.capacity as nat
    }

    /// An empty buffer for `capacity` samples.
    pub fn new(capacity: usize) -> (made: Result<RingBuffer, RingError>)
        ensures
            capacity == 0 <==> made == Err::<RingBuffer, RingError>(RingError::ZeroCapacity),
            made is Err ==> made->Err_0 == RingError::ZeroCapacity || made->Err_0
                == RingError::OutOfMemory,
            made matches Ok(ring) ==> ring@ == Seq::<u32>::empty() && ring.capacity_spec()
                == capacity,
    {
        if capacity == 0 {
            return Err(RingError::ZeroCapacity);
        }
        match store_try_new(capacity) {
            Some(store) => Ok(RingBuffer { store, capacity }),
            None => Err(RingError::OutOfMemory),
        }
    }

    /// An empty buffer that holds [`RING_SECONDS`] seconds of one channel
    /// sampled at `sample_rate` Hz.
    pub fn for_sample_rate(sample_rate: u32) -> (made: Result<RingBuffer, RingError>)
        ensures
            sample_rate == 0 <==> made == Err::<RingBuffer, RingError>(RingError::ZeroCapacity),
            RING_SECONDS * sample_rate > usize::MAX <==> made == Err::<RingBuffer, RingError>(
                RingError::CapacityOverflow,
            ),
            made matches Ok(ring) ==> ring@ == Seq::<u32>::empty() && ring.capacity_spec()
                == RING_SECONDS * sample_rate,
    {
        let rate: usize = sample_rate as usize;
        match rate.checked_mul(RING_SECONDS) {
            Some(capacity) => RingBuffer::new(capacity),
            None => Err(RingError::CapacityOverflow),
        }
    }

    /// Parts the buffer into a writing and a reading half, one for each of
    /// two threads. What was held stays in the queue.
    pub fn split(self) -> (halves: (RingProducer, RingConsumer))
        ensures
            halves.0@ == self@,
            halves.0.capacity_spec() == self.capacity_spec(),
            halves.1@ == self@,
    {
        proof {
            use_type_invariant(&self);
        }
        store_split(self.store)
    }

    /// The number of samples that the buffer was made for.
    pub fn capacity(&self) -> (capacity: usize)
        ensures
            capacity == self.capacity_spec(),
            capacity > 0,
            self@.len() <= capacity,
    {
        proof {
            use_type_invariant(self);
        }
        self.capacity
    }

    /// The number of vacant places.
    pub fn free_len(&self) -> (free: usize)
        ensures
            free == self.capacity_spec() - self@.len(),
    {
        proof {
            use_type_invariant(self);
        }
        store_free_len(&self.store)
    }

    /// The number of samples held.
    pub fn len(&self) -> (held: usize)
        ensures
            held == self@.len(),
            held <= self.capacity_spec(),
    {
        proof {
            use_type_invariant(self);
        }
        self.capacity - store_free_len(&self.store)
    }

    /// Whether no sample is held.
    pub fn is_empty(&self) -> (empty: bool)
        ensures
            empty <==> self@.len() == 0,
    {
        self.len() == 0
    }

    /// Whether every place is taken.
    pub fn is_full(&self) -> (full: bool)
        ensures
            full <==> self@.len() == self.capacity_spec(),
    {
        self.free_len() == 0
    }

    /// Offers `samples` to the buffer and returns how many it took. The first
    /// ones that fit are appended in order; the excess is dropped. Never waits.
    pub fn push(&mut self, samples: &[u32]) -> (written: usize)
        ensures
            written == accepted(old(self)@.len(), old(self).capacity_spec(), samples@.len()),
            final(self)@ == after_push(old(self)@, old(self).capacity_spec(), samples@),
            final(self).capacity_spec() == old(self).capacity_spec(),
    {
        proof {
            use_type_invariant(&*self);
        }
        let free: usize = store_free_len(&self.store);
        let written: usize = if samples.len() <= free {
            samples.len()
        } else {
            free
        };
        let head = vstd::slice::slice_subrange(samples, 0, written);
        assert(head@ == samples@.take(written as int));
        store_push_slice(&mut self.store, head);
        written
    }

    /// Takes the oldest sample out, or returns nothing from an empty buffer.
    /// Never waits.
    pub fn pop(&mut self) -> (popped: Option<u32>)
        ensures
            popped == front(old(self)@),
            final(self)@ == after_pop(old(self)@),
            final(self).capacity_spec() == old(self).capacity_spec(),
    {
        proof {
            use_type_invariant(&*self);
        }
        store_pop(&mut self.store)
    }
}

impl View for RingProducer {
    type V = Seq<u32>;

    open spec fn view(&self) -> Seq<u32> {
        producer_contents(*self)
    }
}

impl View for RingConsumer {
    type V = Seq<u32>;

    open spec fn view(&self) -> Seq<u32> {
        consumer_contents(*self)
    }
}

impl RingProducer {
    /// The number of samples that the queue was made for.
    pub open spec fn capacity_spec(&self) -> nat {
        producer_capacity(*self)
    }

    /// Offers `samples` to the queue and returns how many it took. The first
    /// ones that fit are appended in order; the excess is dropped. Never
    /// waits.
    ///
    /// The push is the push of a whole buffer, on the queue as it is found:
    /// what this half knew, less what the reading half took meanwhile. So at
    /// least as many samples are taken as were known to fit.
    pub fn push(&mut self, samples: &[u32]) -> (written: usize)
        ensures
            writes(
                old(self)@,
                old(self).capacity_spec(),
                samples@,
                written as nat,
                final(self)@,
            ),
            final(self).capacity_spec() == old(self).capacity_spec(),
            accepted(old(self)@.len(), old(self).capacity_spec(), samples@.len()) <= written
                <= samples@.len(),
    {
        let written: usize = producer_push_slice(self, samples);
        proof {
            lemma_writes_at_least_what_fits(
                old(self)@,
                old(self).capacity_spec(),
                samples@,
                written as nat,
                self@,
            );
        }
        written
    }
}

impl RingConsumer {
    /// Takes the oldest sample out, or returns nothing where none is there.
    /// Never waits.
    ///
    /// The read is the read of a whole buffer, on the queue as it is found:
    /// what this half knew, and behind it what the writing half added
    /// meanwhile. So a sample that was known to wait is the one returned,
    /// and the rest of what was known stays, in order, at the front.
    pub fn pop(&mut self) -> (popped: Option<u32>)
        ensures
            reads(old(self)@, popped, final(self)@),
            old(self)@.len() > 0 ==> popped == Some(old(self)@[0])
                && old(self)@.drop_first().is_prefix_of(final(self)@),
            popped is None ==> old(self)@.len() == 0 && final(self)@.len() == 0,
    {
        let popped: Option<u32> = consumer_pop(self);
        proof {
            lemma_reads_what_was_known_first(old(self)@, popped, self@);
        }
        popped
    }
}

/// A push by a writing half takes at least as many samples as it knew room
/// for, and never more than were offered.
pub proof fn lemma_writes_at_least_what_fits(
    known: Seq<u32>,
    capacity: nat,
    samples: Seq<u32>,
    written: nat,
    after: Seq<u32>,
)
    requires
        writes(known, capacity, samples, written, after),
    ensures
        accepted(known.len(), capacity, samples.len()) <= written <= samples.len(),
{
    let found = choose|found: Seq<u32>|
        {
            &&& #[trigger] found.is_suffix_of(known)
            &&& written == accepted(found.len(), capacity, samples.len())
            &&& after == after_push(found, capacity, samples)
        };
    assert(found.len() <= known.len());
}

/// A read by a reading half returns the sample that it knew to be the
/// oldest, where it knew of one, and leaves the rest of what it knew at the
/// front; it comes back empty-handed only where it knew of none and none
/// has come.
pub proof fn lemma_reads_what_was_known_first(
    known: Seq<u32>,
    popped: Option<u32>,
    after: Seq<u32>,
)
    requires
        reads(known, popped, after),
    ensures
        known.len() > 0 ==> popped == Some(known[0]) && known.drop_first().is_prefix_of(after),
        popped is None ==> known.len() == 0 && after.len() == 0,
{
    let found = choose|found: Seq<u32>|
        {
            &&& #[trigger] known.is_prefix_of(found)
            &&& popped == front(found)
            &&& after == after_pop(found)
        };
    if known.len() > 0 {
        assert(found[0] == found.subrange(0, known.len() as int)[0]);
        assert(known.drop_first() =~= found.drop_first().subrange(0, known.len() - 1));
    }
}

} // verus!
