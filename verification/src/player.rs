//! The output's state, without the device.
//!
//! The device itself belongs to the caller. What is kept here is everything
//! about the output that does not touch hardware: the one-shot hand-over of
//! the peripherals, whether transmission was switched on, the gain that the
//! volume curve gave, and the sample rate of the stream.

use crate::volume::{apply_gain, curve, gain_for_volume, scaled};
use vstd::prelude::*;

verus! {

/// The volume of an output that no server has set yet.
pub const DEFAULT_VOLUME: u8 = 20;

/// Milliseconds of latency that the output adds by itself.
pub const OUTPUT_LATENCY_MS: u16 = 0;

/// Why an output could not be set up.
#[derive(Clone, Copy, Debug, PartialEq, Eq, Structural)]
pub enum InitError {
    /// The peripherals were handed over before: they cannot be had twice.
    AlreadyInitialized,
}

impl InitError {
    /// The error in words.
    pub fn message(&self) -> (text: &'static str)
        ensures
            text@ == "Initialized I2s twice"@,
    {
        "Initialized I2s twice"
    }
}

/// The peripherals that make up one output: the serial audio unit and its
/// data, bit-clock and word-select pins.
pub struct I2sParts<I, P, Q, R> {
    pub i2s: I,
    pub dout: P,
    pub bclk: Q,
    pub ws: R,
}

/// Holds the peripherals until the first stream says how to configure them.
pub struct I2sPlayerBuilder<I, P, Q, R> {
    parts: Option<I2sParts<I, P, Q, R>>,
}

impl<I, P, Q, R> View for I2sPlayerBuilder<I, P, Q, R> {
    type V = Option<I2sParts<I, P, Q, R>>;

    /// The peripherals that are still held, if any.
    closed spec fn view(&self) -> Option<I2sParts<I, P, Q, R>> {
        self.parts
    }
}

impl<I, P, Q, R> I2sPlayerBuilder<I, P, Q, R> {
    /// Takes the peripherals into keeping.
    pub fn new(i2s: I, dout: P, bclk: Q, ws: R) -> (builder: Self)
        ensures
            builder@ == Some(I2sParts { i2s, dout, bclk, ws }),
    {
        I2sPlayerBuilder { parts: Some(I2sParts { i2s, dout, bclk, ws }) }
    }

    /// Whether the peripherals are still to be had.
    pub fn is_armed(&self) -> (armed: bool)
        ensures
            armed == self@.is_some(),
    {
        self.parts.is_some()
    }

    /// Hands over the peripherals, once, together with the state of an output
    /// for a stream of `sample_rate` samples per second: not transmitting yet,
    /// at the default volume. Every later call fails, and the builder stays
    /// empty.
    pub fn init(&mut self, sample_rate: u16) -> (r: Result<
        (I2sParts<I, P, Q, R>, I2sPlayer),
        InitError,
    >)
        ensures
            final(self)@ is None,
            match r {
                Ok((parts, player)) => {
                    &&& old(self)@ == Some(parts)
                    &&& player@ == (PlayerState {
                        playing: false,
                        gain: curve(DEFAULT_VOLUME as int),
                        rate: sample_rate,
                    })
                },
                Err(e) => old(self)@ is None && e == InitError::AlreadyInitialized,
            },
    {
        match self.parts.take() {
            Some(parts) => {
                let mut player = I2sPlayer { is_playing: false, volume: 0, sample_rate };
                let _ = player.set_volume(DEFAULT_VOLUME);
                Ok((parts, player))
            },
            None => Err(InitError::AlreadyInitialized),
        }
    }
}

/// What a configured output amounts to.
pub struct PlayerState {
    /// Whether transmission was switched on.
    pub playing: bool,
    /// The gain in steps of `1 / VOL_STEP_COUNT`.
    pub gain: int,
    /// Samples per second of the stream the output was set up for.
    pub rate: u16,
}

/// The state of a configured output.
#[derive(Debug)]
pub struct I2sPlayer {
    is_playing: bool,
    volume: i16,
    sample_rate: u16,
}

impl View for I2sPlayer {
    type V = PlayerState;

    closed spec fn view(&self) -> PlayerState {
        PlayerState { playing: self.is_playing, gain: self.volume as int, rate: self.sample_rate }
    }
}

impl I2sPlayer {
    #[verifier::type_invariant]
    spec fn gain_is_of_the_curve(self) -> bool {
        0 <= self.volume <= 843
    }

    /// Marks the output as transmitting. Returns whether the caller has to
    /// switch transmission on: `true` on the first call, `false` from then on.
    pub fn play(&mut self) -> (enable: bool)
        ensures
            enable == !old(self)@.playing,
            final(self)@ == (PlayerState { playing: true, ..old(self)@ }),
    {
        proof {
            use_type_invariant(&*self);
        }
        let enable = !self.is_playing;
        self.is_playing = true;
        enable
    }

    /// Applies the current gain to the samples that are about to be sent to
    /// the device, in place.
    pub fn write(&self, buf: &mut [i16])
        ensures
            final(buf)@.len() == old(buf)@.len(),
            forall|i: int|
                0 <= i < old(buf)@.len() ==> final(buf)@[i] == scaled(
                    old(buf)@[i] as int,
                    self@.gain,
                ),
    {
        proof {
            use_type_invariant(self);
        }
        apply_gain(buf, self.volume)
    }

    /// The latency that the output adds, in milliseconds.
    pub fn latency_ms(&self) -> (ms: u16)
        ensures
            ms == OUTPUT_LATENCY_MS,
    {
        OUTPUT_LATENCY_MS
    }

    /// Sets the gain to that of volume `val` on the curve, and returns it.
    pub fn set_volume(&mut self, val: u8) -> (gain: i16)
        ensures
            gain == curve(val as int),
            final(self)@ == (PlayerState { gain: curve(val as int), ..old(self)@ }),
    {
        self.volume = gain_for_volume(val);
        self.volume
    }

    /// Samples per second of the stream the output was set up for.
    pub fn sample_rate(&self) -> (rate: u16)
        ensures
            rate == self@.rate,
    {
        self.sample_rate
    }
}

} // verus!
