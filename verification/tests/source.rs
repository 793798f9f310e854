use chemic::ring::RingBuffer;
use chemic::source::silence_if_starved;
use chemic::source::SampleSource;
use chemic::source::SILENCE;

#[test]
fn silence_is_the_encoding_of_zero() {
    assert_eq!(SILENCE, 0.0f32.to_bits());
    assert_eq!(f32::from_bits(SILENCE), 0.0);
    assert!(f32::from_bits(SILENCE).is_sign_positive());
}

#[test]
fn silence_stands_in_for_a_missing_sample() {
    assert_eq!(silence_if_starved(None), SILENCE);
    assert_eq!(silence_if_starved(Some(0)), 0);
    assert_eq!(silence_if_starved(Some(1.0f32.to_bits())), 0x3f80_0000);
    assert_eq!(silence_if_starved(Some(u32::MAX)), u32::MAX);
}

#[test]
fn source_gives_silence_while_starved() {
    let (_producer, consumer) = RingBuffer::new(4).unwrap().split();
    let mut source = SampleSource::new(consumer);
    assert_eq!(source.next(), SILENCE);
    assert_eq!(source.next(), SILENCE);
}

#[test]
fn source_gives_the_samples_in_order_then_silence() {
    let (mut producer, consumer) = RingBuffer::new(4).unwrap().split();
    let mut source = SampleSource::new(consumer);
    assert_eq!(producer.push(&[5, 6, 7]), 3);
    assert_eq!(source.next(), 5);
    assert_eq!(source.next(), 6);
    assert_eq!(source.next(), 7);
    assert_eq!(source.next(), SILENCE);
    assert_eq!(producer.push(&[8]), 1);
    assert_eq!(source.next(), 8);
    assert_eq!(source.next(), SILENCE);
}

#[test]
fn source_reads_what_was_held_before_the_split() {
    let mut ring = RingBuffer::new(4).unwrap();
    assert_eq!(ring.push(&[7, 8]), 2);
    let (mut producer, consumer) = ring.split();
    let mut source = SampleSource::new(consumer);
    assert_eq!(source.next(), 7);
    assert_eq!(producer.push(&[9]), 1);
    assert_eq!(source.next(), 8);
    assert_eq!(source.next(), 9);
    assert_eq!(source.next(), SILENCE);
}
