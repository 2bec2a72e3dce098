//! Comfort noise: a faint triangle wave that keeps the output busy while the
//! network is silent.
//!
//! The wave climbs from 1 to 128 over 128 samples and falls back to 0 over the
//! next 128; every sample is an eighth of that amplitude.

use vstd::prelude::*;

verus! {

/// Samples in one rise or one fall of the wave.
pub const NOISE_HALF_PERIOD: usize = 128;

/// By how much the amplitude is divided on its way into the buffer.
pub const NOISE_ATTENUATION: i16 = 8;

/// The wave's amplitude at sample `i`, before it is attenuated.
pub open spec fn noise_amplitude(i: int) -> int {
    let phase = i % 256;
    if phase < 128 {
        phase + 1
    } else {
        255 - phase
    }
}

/// The comfort-noise sample at index `i`.
pub open spec fn noise_sample(i: int) -> int {
    noise_amplitude(i) / 8
}

/// The direction in which the wave moves on its way to sample `i`.
pub open spec fn noise_slope(i: int) -> int {
    if i % 256 < 128 {
        1
    } else {
        -1
    }
}

/// Overwrites all of `buf` with comfort noise, starting at the foot of a rise.
pub fn fill_comfort_noise(buf: &mut [i16])
    ensures
        final(buf)@.len() == old(buf)@.len(),
        forall|i: int| 0 <= i < old(buf)@.len() ==> final(buf)@[i] == noise_sample(i),
{
    let n: usize = buf.len();
    let mut slope: i16 = -1;
    let mut amplitude: i16 = 0;
    let mut i: usize = 0;
    while i < n
        invariant
            n == old(buf)@.len(),
            buf@.len() == n,
            0 <= i <= n,
            i == 0 ==> slope == -1 && amplitude == 0,
            i > 0 ==> slope == noise_slope(i - 1) && amplitude == noise_amplitude(i - 1),
            forall|j: int| 0 <= j < i ==> buf@[j] == noise_sample(j),
        decreases n - i,
    {
        if i % NOISE_HALF_PERIOD == 0 {
            slope = -slope;
        }
        amplitude += slope;
        assert(slope == noise_slope(i as int));
        assert(amplitude == noise_amplitude(i as int));
        buf[i] = amplitude / NOISE_ATTENUATION;
        i += 1;
    }
}

} // verus!
