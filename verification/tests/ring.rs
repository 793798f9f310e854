use chemic::ring::RingBuffer;
use chemic::ring::RingError;

#[test]
fn ring_starts_empty_with_its_capacity() {
    let ring = RingBuffer::new(4).unwrap();
    assert_eq!(ring.capacity(), 4);
    assert_eq!(ring.len(), 0);
    assert_eq!(ring.free_len(), 4);
    assert!(ring.is_empty());
    assert!(!ring.is_full());
}

#[test]
fn ring_of_no_capacity_is_refused() {
    assert!(matches!(RingBuffer::new(0), Err(RingError::ZeroCapacity)));
}

#[test]
fn ring_too_large_for_the_allocator_is_refused() {
    assert!(matches!(
        RingBuffer::new(usize::MAX),
        Err(RingError::OutOfMemory)
    ));
}

#[test]
fn ring_for_a_sample_rate_holds_two_seconds() {
    let ring = RingBuffer::for_sample_rate(48_000).unwrap();
    assert_eq!(ring.capacity(), 96_000);
    assert!(ring.is_empty());
    let ring = RingBuffer::for_sample_rate(1).unwrap();
    assert_eq!(ring.capacity(), 2);
}

#[test]
fn ring_for_a_sample_rate_of_zero_is_refused() {
    assert!(matches!(
        RingBuffer::for_sample_rate(0),
        Err(RingError::ZeroCapacity)
    ));
}

#[test]
fn ring_pops_in_the_order_of_the_pushes() {
    let mut ring = RingBuffer::new(8).unwrap();
    assert_eq!(ring.push(&[10, 20, 30]), 3);
    assert_eq!(ring.pop(), Some(10));
    assert_eq!(ring.push(&[40, 50]), 2);
    assert_eq!(ring.pop(), Some(20));
    assert_eq!(ring.pop(), Some(30));
    assert_eq!(ring.push(&[60]), 1);
    assert_eq!(ring.pop(), Some(40));
    assert_eq!(ring.pop(), Some(50));
    assert_eq!(ring.pop(), Some(60));
    assert_eq!(ring.pop(), None);
}

#[test]
fn ring_push_drops_exactly_the_excess() {
    let mut ring = RingBuffer::new(4).unwrap();
    assert_eq!(ring.push(&[1, 2, 3]), 3);
    assert_eq!(ring.free_len(), 1);
    assert_eq!(ring.push(&[4, 5, 6]), 1);
    assert!(ring.is_full());
    assert_eq!(ring.len(), 4);
    assert_eq!(ring.push(&[7]), 0);
    assert_eq!(ring.pop(), Some(1));
    assert_eq!(ring.pop(), Some(2));
    assert_eq!(ring.pop(), Some(3));
    assert_eq!(ring.pop(), Some(4));
    assert_eq!(ring.pop(), None);
}

#[test]
fn ring_push_longer_than_the_capacity_keeps_the_first() {
    let mut ring = RingBuffer::new(2).unwrap();
    assert_eq!(ring.push(&[1, 2, 3, 4, 5]), 2);
    assert_eq!(ring.pop(), Some(1));
    assert_eq!(ring.pop(), Some(2));
    assert_eq!(ring.pop(), None);
}

#[test]
fn ring_pop_is_empty_only_when_the_ring_is() {
    let mut ring = RingBuffer::new(2).unwrap();
    assert_eq!(ring.pop(), None);
    assert_eq!(ring.pop(), None);
    assert_eq!(ring.push(&[0]), 1);
    assert!(!ring.is_empty());
    assert_eq!(ring.pop(), Some(0));
    assert!(ring.is_empty());
    assert_eq!(ring.pop(), None);
}

#[test]
fn ring_push_of_nothing_changes_nothing() {
    let mut ring = RingBuffer::new(2).unwrap();
    assert_eq!(ring.push(&[]), 0);
    assert!(ring.is_empty());
    assert_eq!(ring.push(&[9]), 1);
    assert_eq!(ring.push(&[]), 0);
    assert_eq!(ring.len(), 1);
    assert_eq!(ring.pop(), Some(9));
}

#[test]
fn ring_keeps_its_order_around_the_end_of_its_storage() {
    let mut ring = RingBuffer::new(3).unwrap();
    let mut next_in: u32 = 0;
    let mut next_out: u32 = 0;
    for round in 0..10 {
        let block = [next_in, next_in + 1];
        let written = ring.push(&block);
        assert_eq!(written, 2, "round {}", round);
        next_in += 2;
        assert_eq!(ring.pop(), Some(next_out));
        assert_eq!(ring.pop(), Some(next_out + 1));
        next_out += 2;
        assert_eq!(ring.capacity(), 3);
    }
    assert_eq!(ring.pop(), None);
}

#[test]
fn ring_halves_hand_samples_over_in_order() {
    let ring = RingBuffer::new(4).unwrap();
    let (mut producer, mut consumer) = ring.split();
    assert_eq!(consumer.pop(), None);
    assert_eq!(producer.push(&[1, 2, 3]), 3);
    assert_eq!(consumer.pop(), Some(1));
    assert_eq!(producer.push(&[4, 5, 6]), 2);
    assert_eq!(consumer.pop(), Some(2));
    assert_eq!(consumer.pop(), Some(3));
    assert_eq!(consumer.pop(), Some(4));
    assert_eq!(consumer.pop(), Some(5));
    assert_eq!(consumer.pop(), None);
}

#[test]
fn ring_split_keeps_what_was_held() {
    let mut ring = RingBuffer::new(4).unwrap();
    assert_eq!(ring.push(&[7, 8]), 2);
    let (mut producer, mut consumer) = ring.split();
    assert_eq!(producer.push(&[9, 10, 11]), 2);
    assert_eq!(consumer.pop(), Some(7));
    assert_eq!(consumer.pop(), Some(8));
    assert_eq!(consumer.pop(), Some(9));
    assert_eq!(consumer.pop(), Some(10));
    assert_eq!(consumer.pop(), None);
}
