use snapcast_receiver::volume::{apply_gain, gain_for_volume, MAX_VOLUME, VOL_STEP_COUNT};

#[test]
fn volume_zero_is_silence() {
    assert_eq!(gain_for_volume(0), 0);
}

#[test]
fn volume_one_is_the_foot_of_the_curve() {
    assert_eq!(gain_for_volume(1), 0);
}

#[test]
fn full_volume_is_unity() {
    assert_eq!(gain_for_volume(MAX_VOLUME), VOL_STEP_COUNT);
    assert_eq!(VOL_STEP_COUNT, 128);
}

#[test]
fn curve_at_chosen_volumes() {
    assert_eq!(gain_for_volume(2), 0);
    assert_eq!(gain_for_volume(7), 0);
    assert_eq!(gain_for_volume(8), 1);
    assert_eq!(gain_for_volume(20), 5);
    assert_eq!(gain_for_volume(50), 31);
    assert_eq!(gain_for_volume(71), 64);
    assert_eq!(gain_for_volume(99), 125);
    assert_eq!(gain_for_volume(101), 131);
    assert_eq!(gain_for_volume(255), 843);
}

#[test]
fn curve_is_the_rounded_square() {
    for volume in 1..=255u8 {
        let normalized = (f64::from(volume) - 1.0) / 99.0;
        let expected = (normalized.powf(2.0) * 128.0).round() as i16;
        assert_eq!(gain_for_volume(volume), expected, "volume {}", volume);
    }
}

#[test]
fn curve_never_falls() {
    let mut last = gain_for_volume(0);
    for volume in 1..=100u8 {
        let gain = gain_for_volume(volume);
        assert!(gain >= last, "volume {}", volume);
        last = gain;
    }
}

#[test]
fn curve_gives_the_same_gain_every_time() {
    for volume in 0..=100u8 {
        assert_eq!(gain_for_volume(volume), gain_for_volume(volume));
    }
}

#[test]
fn gain_scales_towards_zero() {
    let mut buf = [0i16, 1, -1, 3, -3, 127, -127, 128, -128, 1000, -1000, i16::MAX, i16::MIN];
    apply_gain(&mut buf, 64);
    assert_eq!(buf, [0, 0, 0, 1, -1, 63, -63, 64, -64, 500, -500, 16_383, -16_384]);
}

#[test]
fn gain_of_zero_silences() {
    let mut buf = [5i16, -5, i16::MAX, i16::MIN];
    apply_gain(&mut buf, 0);
    assert_eq!(buf, [0, 0, 0, 0]);
}

#[test]
fn gain_just_below_unity() {
    let mut buf = [128i16, -128, 129, -129, i16::MAX, i16::MIN];
    apply_gain(&mut buf, 127);
    assert_eq!(buf, [127, -127, 127, -127, 32_511, -32_512]);
}

#[test]
fn gain_of_unity_or_more_leaves_the_samples() {
    let samples = [0i16, 1, -1, 1234, -1234, i16::MAX, i16::MIN];
    let mut at_unity = samples;
    apply_gain(&mut at_unity, 128);
    assert_eq!(at_unity, samples);
    let mut above = samples;
    apply_gain(&mut above, 843);
    assert_eq!(above, samples);
}

#[test]
fn gain_on_an_empty_buffer() {
    let mut buf: [i16; 0] = [];
    apply_gain(&mut buf, 5);
    assert_eq!(buf.len(), 0);
}
