use snapcast_receiver::player::{
    I2sPlayerBuilder, InitError, DEFAULT_VOLUME, OUTPUT_LATENCY_MS,
};

#[test]
fn builder_hands_over_the_peripherals_once() {
    let mut builder = I2sPlayerBuilder::new("i2s0", 19u8, 18u16, 21u32);
    assert!(builder.is_armed());
    let (parts, player) = builder.init(48_000).unwrap();
    assert_eq!(parts.i2s, "i2s0");
    assert_eq!(parts.dout, 19);
    assert_eq!(parts.bclk, 18);
    assert_eq!(parts.ws, 21);
    assert_eq!(player.sample_rate(), 48_000);
    assert!(!builder.is_armed());
}

#[test]
fn second_init_is_an_error() {
    let mut builder = I2sPlayerBuilder::new((), (), (), ());
    assert!(builder.init(44_100).is_ok());
    assert_eq!(builder.init(44_100).err(), Some(InitError::AlreadyInitialized));
    assert_eq!(builder.init(48_000).err(), Some(InitError::AlreadyInitialized));
    assert!(!builder.is_armed());
}

#[test]
fn init_error_in_words() {
    assert_eq!(InitError::AlreadyInitialized.message(), "Initialized I2s twice");
}

#[test]
fn fresh_player_has_the_default_volume() {
    assert_eq!(DEFAULT_VOLUME, 20);
    let mut builder = I2sPlayerBuilder::new((), (), (), ());
    let (_, player) = builder.init(48_000).unwrap();
    let mut buf = [128i16, -128, 1_280, 25, -25, 26, -26];
    player.write(&mut buf);
    assert_eq!(buf, [5, -5, 50, 0, 0, 1, -1]);
}

#[test]
fn play_asks_for_transmission_once() {
    let mut builder = I2sPlayerBuilder::new((), (), (), ());
    let (_, mut player) = builder.init(48_000).unwrap();
    assert!(player.play());
    assert!(!player.play());
    assert!(!player.play());
}

#[test]
fn set_volume_returns_the_gain() {
    let mut builder = I2sPlayerBuilder::new((), (), (), ());
    let (_, mut player) = builder.init(48_000).unwrap();
    assert_eq!(player.set_volume(0), 0);
    assert_eq!(player.set_volume(50), 31);
    assert_eq!(player.set_volume(100), 128);
    assert_eq!(player.set_volume(255), 843);
}

#[test]
fn write_applies_the_volume_that_was_set() {
    let mut builder = I2sPlayerBuilder::new((), (), (), ());
    let (_, mut player) = builder.init(48_000).unwrap();
    player.set_volume(50);
    let mut buf = [1_000i16, -1_000, 4, -4, 5, -5, i16::MAX, i16::MIN];
    player.write(&mut buf);
    assert_eq!(buf, [242, -242, 0, 0, 1, -1, 7_935, -7_936]);
}

#[test]
fn write_at_silence_and_at_full_volume() {
    let mut builder = I2sPlayerBuilder::new((), (), (), ());
    let (_, mut player) = builder.init(48_000).unwrap();
    let samples = [1i16, -1, 300, -300, i16::MAX, i16::MIN];
    player.set_volume(0);
    let mut silent = samples;
    player.write(&mut silent);
    assert_eq!(silent, [0; 6]);
    player.set_volume(100);
    let mut full = samples;
    player.write(&mut full);
    assert_eq!(full, samples);
}

#[test]
fn volume_and_play_leave_the_rate() {
    let mut builder = I2sPlayerBuilder::new((), (), (), ());
    let (_, mut player) = builder.init(44_100).unwrap();
    player.set_volume(80);
    player.play();
    assert_eq!(player.sample_rate(), 44_100);
}

#[test]
fn output_adds_no_latency() {
    let mut builder = I2sPlayerBuilder::new((), (), (), ());
    let (_, player) = builder.init(48_000).unwrap();
    assert_eq!(player.latency_ms(), 0);
    assert_eq!(OUTPUT_LATENCY_MS, 0);
}
