use chemic::config::get_buffer_size;
use chemic::config::BufferSize;
use chemic::config::StreamConfig;
use chemic::config::SupportedBufferSize;
use chemic::config::DELAY_SECONDS;

#[test]
fn buffer_size_is_the_smallest_without_delay() {
    let supported = SupportedBufferSize::Range { min: 64, max: 4096 };
    assert_eq!(
        get_buffer_size(&supported, 48_000, false),
        BufferSize::Fixed(64)
    );
}

#[test]
fn buffer_size_with_delay_is_capped_at_the_largest() {
    let supported = SupportedBufferSize::Range { min: 64, max: 4096 };
    assert_eq!(
        get_buffer_size(&supported, 48_000, true),
        BufferSize::Fixed(4096)
    );
}

#[test]
fn buffer_size_with_delay_is_two_seconds_where_they_fit() {
    assert_eq!(DELAY_SECONDS, 2);
    let supported = SupportedBufferSize::Range { min: 64, max: 200_000 };
    assert_eq!(
        get_buffer_size(&supported, 48_000, true),
        BufferSize::Fixed(96_000)
    );
    let exact = SupportedBufferSize::Range { min: 64, max: 96_000 };
    assert_eq!(
        get_buffer_size(&exact, 48_000, true),
        BufferSize::Fixed(96_000)
    );
    let below = SupportedBufferSize::Range { min: 64, max: 95_999 };
    assert_eq!(
        get_buffer_size(&below, 48_000, true),
        BufferSize::Fixed(95_999)
    );
}

#[test]
fn buffer_size_with_delay_may_lie_below_the_smallest() {
    let supported = SupportedBufferSize::Range { min: 512, max: 4096 };
    assert_eq!(
        get_buffer_size(&supported, 100, true),
        BufferSize::Fixed(200)
    );
}

#[test]
fn buffer_size_does_not_wrap_at_huge_rates() {
    let supported = SupportedBufferSize::Range { min: 1, max: u32::MAX };
    assert_eq!(
        get_buffer_size(&supported, u32::MAX, true),
        BufferSize::Fixed(u32::MAX)
    );
    assert_eq!(
        get_buffer_size(&supported, 0x8000_0000, true),
        BufferSize::Fixed(u32::MAX)
    );
    let narrow = SupportedBufferSize::Range { min: 1, max: 1024 };
    assert_eq!(
        get_buffer_size(&narrow, 0x8000_0001, true),
        BufferSize::Fixed(1024)
    );
}

#[test]
fn buffer_size_is_the_default_where_the_device_says_nothing() {
    assert_eq!(
        get_buffer_size(&SupportedBufferSize::Unknown, 48_000, false),
        BufferSize::Default
    );
    assert_eq!(
        get_buffer_size(&SupportedBufferSize::Unknown, 48_000, true),
        BufferSize::Default
    );
}

#[test]
fn stream_config_keeps_what_it_was_made_with() {
    let config = StreamConfig::new(2, 44_100, BufferSize::Fixed(128)).unwrap();
    assert_eq!(config.channels(), 2);
    assert_eq!(config.sample_rate(), 44_100);
    assert_eq!(config.buffer_size(), BufferSize::Fixed(128));
}

#[test]
fn stream_config_needs_a_channel_and_a_rate() {
    assert!(StreamConfig::new(0, 44_100, BufferSize::Default).is_none());
    assert!(StreamConfig::new(1, 0, BufferSize::Default).is_none());
    assert!(StreamConfig::new(0, 0, BufferSize::Default).is_none());
    assert!(StreamConfig::new(1, 1, BufferSize::Default).is_some());
}

#[test]
fn stream_config_is_resolved_with_the_policy() {
    let supported = SupportedBufferSize::Range { min: 64, max: 4096 };
    let plain = StreamConfig::resolve(1, 48_000, &supported, false).unwrap();
    assert_eq!(plain.buffer_size(), BufferSize::Fixed(64));
    assert_eq!(plain.channels(), 1);
    assert_eq!(plain.sample_rate(), 48_000);
    let delayed = StreamConfig::resolve(2, 48_000, &supported, true).unwrap();
    assert_eq!(delayed.buffer_size(), BufferSize::Fixed(4096));
    let unknown = StreamConfig::resolve(2, 48_000, &SupportedBufferSize::Unknown, true).unwrap();
    assert_eq!(unknown.buffer_size(), BufferSize::Default);
    assert!(StreamConfig::resolve(0, 48_000, &supported, true).is_none());
    assert!(StreamConfig::resolve(2, 0, &supported, false).is_none());
}
