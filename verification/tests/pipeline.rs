use chemic::channel::Slot;
use chemic::config::BufferSize;
use chemic::config::StreamConfig;
use chemic::pipeline::wire;
use chemic::resampler::Blend;

fn config_of(channels: u16, sample_rate: u32) -> StreamConfig {
    StreamConfig::new(channels, sample_rate, BufferSize::Default).unwrap()
}

fn sample_of(blend: &Blend) -> f32 {
    match blend.exact() {
        Some(bits) => f32::from_bits(bits),
        None => {
            let left = f32::from_bits(blend.left);
            let right = f32::from_bits(blend.right);
            left + (right - left) * (blend.num as f32 / blend.den as f32)
        }
    }
}

fn played(slot: Slot) -> f32 {
    match slot {
        Slot::Single(blend) => sample_of(&blend),
        Slot::Mean(left, right) => (sample_of(&left) + sample_of(&right)) / 2.0,
    }
}

#[test]
fn pipeline_plays_what_was_captured() {
    let (mut capture, mut playback) = wire(&config_of(2, 48_000), &config_of(2, 48_000)).unwrap();
    let block: Vec<u32> = [0.5f32, -0.5, 0.25].iter().map(|sample| sample.to_bits()).collect();
    assert_eq!(capture.deliver(&block), 3);
    let outputs: Vec<f32> = (0..6).map(|_| played(playback.next())).collect();
    assert_eq!(outputs, vec![0.0, 0.0, 0.5, -0.5, 0.25, 0.0]);
}

#[test]
fn pipeline_plays_silence_before_anything_is_captured() {
    let (_capture, mut playback) = wire(&config_of(1, 44_100), &config_of(2, 48_000)).unwrap();
    for _ in 0..32 {
        assert_eq!(played(playback.next()), 0.0);
    }
}

#[test]
fn pipeline_holds_two_seconds_of_capture_and_drops_the_rest() {
    let (mut capture, mut playback) = wire(&config_of(1, 4), &config_of(1, 4)).unwrap();
    let block: Vec<u32> = (1..=10).collect();
    assert_eq!(capture.deliver(&block), 8);
    assert_eq!(capture.deliver(&block), 0);
    assert_eq!(playback.next(), Slot::Single(Blend { left: 0, right: 0, num: 0, den: 4 }));
    assert_eq!(capture.deliver(&block), 0);
    assert_eq!(playback.next(), Slot::Single(Blend { left: 0, right: 1, num: 0, den: 4 }));
    assert_eq!(capture.deliver(&[11, 12]), 1);
    for expected in [1u32, 2, 3, 4, 5, 6, 7, 8, 11] {
        match playback.next() {
            Slot::Single(blend) => assert_eq!(blend.exact(), Some(expected)),
            other => panic!("not a single blend: {:?}", other),
        }
    }
}

#[test]
fn pipeline_from_mono_to_stereo_at_twice_the_rate() {
    let (mut capture, mut playback) = wire(&config_of(1, 8_000), &config_of(2, 16_000)).unwrap();
    let block: Vec<u32> = [0.0f32, 1.0].iter().map(|sample| sample.to_bits()).collect();
    assert_eq!(capture.deliver(&block), 2);
    let outputs: Vec<f32> = (0..16).map(|_| played(playback.next())).collect();
    assert_eq!(
        outputs,
        vec![0.0, 0.0, 0.0, 0.0, 0.0, 0.0, 0.0, 0.0, 0.0, 0.0, 0.5, 0.5, 1.0, 1.0, 0.5, 0.5]
    );
}

#[test]
fn pipeline_from_stereo_to_mono() {
    let (mut capture, mut playback) = wire(&config_of(2, 48_000), &config_of(1, 48_000)).unwrap();
    let block: Vec<u32> = [1.0f32, -1.0, 0.5, 0.5].iter().map(|sample| sample.to_bits()).collect();
    assert_eq!(capture.deliver(&block), 4);
    let outputs: Vec<f32> = (0..4).map(|_| played(playback.next())).collect();
    assert_eq!(outputs, vec![0.0, 0.0, 0.5, 0.0]);
}
