use rivulets::info::Info;

#[test]
fn new_and_default() {
    let info = Info::new(48000, 2, 16, Some(10));
    assert_eq!(info.sample_rate, 48000);
    assert_eq!(info.channels, 2);
    assert_eq!(info.bits_per_sample, 16);
    assert_eq!(info.num_frames, Some(10));
    let d = Info::default();
    assert_eq!(d, Info::new(0, 0, 0, None));
    assert!(!d.vaild());
}

#[test]
fn durations_and_frames() {
    let mut info = Info::new(48000, 2, 16, None);
    assert_eq!(info.get_duration_ms(), None);
    info.set_duration_ms(250);
    assert_eq!(info.num_frames, Some(12000));
    assert_eq!(info.get_duration_ms(), Some(250));
    info.set_num_frames(4800);
    assert_eq!(info.get_duration_ms(), Some(100));
    let mut slow = Info::new(44100, 1, 8, None);
    slow.set_duration_ms(1);
    assert_eq!(slow.num_frames, Some(44));
}

#[test]
fn validity() {
    assert!(Info::new(48000, 2, 16, None).vaild());
    assert!(!Info::new(48000, 2, 12, None).vaild());
    assert!(!Info::new(0, 2, 16, None).vaild());
    assert!(!Info::new(48000, 0, 16, None).vaild());
    assert!(!Info::new(48000, 2, 0, None).vaild());
}

#[test]
fn alignment_and_bit_rate() {
    let info = Info::new(48000, 2, 16, None);
    assert_eq!(info.get_alignment_bytes(), 4);
    assert_eq!(info.get_bit_rate(), 1_536_000);
    assert_eq!(info.down_to_alignment(10u32), 8);
    assert_eq!(info.down_to_alignment(12usize), 12);
    assert!(info.is_aligned(12u32));
    assert!(!info.is_aligned(13u64));
    let mono24 = Info::new(96000, 1, 24, None);
    assert_eq!(mono24.get_alignment_bytes(), 3);
    assert_eq!(mono24.down_to_alignment(100u16), 99);
    // 255 channels of 32-bit samples: 1020 bytes per frame, kept to a byte.
    let wide = Info::new(8000, 255, 32, None);
    assert_eq!(wide.get_alignment_bytes(), (1020u32 % 256) as u8);
}

#[test]
fn rounding_down_gives_an_aligned_size_that_rounds_to_itself() {
    let info = Info::new(44100, 1, 24, None);
    for x in [0u64, 1, 2, 3, 4, 100, 1001] {
        let r = info.down_to_alignment(x);
        assert!(r <= x && x - r < 3);
        assert!(info.is_aligned(r));
        assert_eq!(info.down_to_alignment(r), r);
        assert_eq!(info.is_aligned(x), x % 3 == 0);
    }
    let r = info.down_to_alignment(65535u16);
    assert_eq!(r, 65535);
    assert_eq!(info.down_to_alignment(10usize), 9);
}
