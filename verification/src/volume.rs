//! The volume curve and the gain it yields.
//!
//! A volume of 0 to 100 is mapped to a gain counted in steps of
//! `1 / VOL_STEP_COUNT`: zero for volume 0, and for every other volume the
//! square of `(volume - 1) / 99`, times `VOL_STEP_COUNT`, rounded to the
//! nearest step. A sample scaled by a gain is `sample * gain / VOL_STEP_COUNT`,
//! rounded towards zero.

use vstd::prelude::*;

verus! {

/// Gain steps that make up unity: a gain of `VOL_STEP_COUNT` or more leaves
/// every sample as it is.
pub const VOL_STEP_COUNT: i16 = 128;

/// The highest volume the curve is meant for.
pub const MAX_VOLUME: u8 = 100;

/// The gain, in steps, of a volume: `VOL_STEP_COUNT * ((volume - 1) / 99)^2`
/// rounded to the nearest step, and zero for volume 0.
pub open spec fn curve(volume: int) -> int {
    if volume <= 0 {
        0
    } else {
        (256 * ((volume - 1) * (volume - 1)) + 9_801) / 19_602
    }
}

/// `n / d` rounded towards zero, for a positive `d`.
pub open spec fn div_toward_zero(n: int, d: int) -> int {
    if n >= 0 {
        n / d
    } else {
        -((-n) / d)
    }
}

/// A sample after a gain of `gain` steps was applied to it.
pub open spec fn scaled(sample: int, gain: int) -> int {
    if gain < VOL_STEP_COUNT {
        div_toward_zero(sample * gain, VOL_STEP_COUNT as int)
    } else {
        sample
    }
}

/// The gain of a volume. Volumes above 100 follow the same formula.
pub fn gain_for_volume(volume: u8) -> (gain: i16)
    ensures
        gain == curve(volume as int),
        volume == 0 ==> gain == 0,
        volume >= 1 ==> -9_801 <= 256 * ((volume - 1) * (volume - 1)) - 19_602 * gain < 9_801,
        0 <= gain <= 843,
{
    if volume == 0 {
        return 0;
    }
    let below: u32 = (volume - 1) as u32;
    assert(below * below <= 254 * 254) by (nonlinear_arith)
        requires
            0 <= below <= 254,
    ;
    let square: u32 = below * below;
    let steps: u32 = (256 * square + 9_801) / 19_602;
    steps as i16
}

/// Applies a gain of `gain` steps to every sample of `buf`, in place.
pub fn apply_gain(buf: &mut [i16], gain: i16)
    requires
        0 <= gain,
    ensures
        final(buf)@.len() == old(buf)@.len(),
        forall|i: int|
            0 <= i < old(buf)@.len() ==> final(buf)@[i] == scaled(old(buf)@[i] as int, gain as int),
{
    if gain < VOL_STEP_COUNT {
        let n: usize = buf.len();
        let mut i: usize = 0;
        while i < n
            invariant
                0 <= gain < VOL_STEP_COUNT,
                n == old(buf)@.len(),
                buf@.len() == n,
                0 <= i <= n,
                forall|j: int| 0 <= j < i ==> buf@[j] == scaled(old(buf)@[j] as int, gain as int),
                forall|j: int| i <= j < n ==> buf@[j] == old(buf)@[j],
            decreases n - i,
        {
            let sample: i32 = buf[i] as i32;
            proof {
                lemma_scaled_is_no_louder(sample as int, gain as int);
            }
            assert(-32_768 * 128 <= sample * gain <= 32_768 * 128) by (nonlinear_arith)
                requires
                    -32_768 <= sample <= 32_767,
                    0 <= gain < 128,
            ;
            let product: i32 = sample * gain as i32;
            buf[i] = (product / VOL_STEP_COUNT as i32) as i16;
            i += 1;
        }
    }
}

/// The curve never falls as the volume rises.
pub proof fn lemma_curve_is_monotonic(lower: int, higher: int)
    requires
        0 <= lower <= higher,
    ensures
        curve(lower) <= curve(higher),
{
    if lower >= 1 {
        assert((lower - 1) * (lower - 1) <= (higher - 1) * (higher - 1)) by (nonlinear_arith)
            requires
                1 <= lower <= higher,
        ;
    } else if higher >= 1 {
        assert(0 <= (higher - 1) * (higher - 1)) by (nonlinear_arith);
    }
}

/// The gain depends on the volume alone: the same volume gives the same gain,
/// whenever it is asked for.
pub proof fn lemma_same_volume_same_gain(first: u8, second: u8, gain_first: i16, gain_second: i16)
    requires
        first == second,
        gain_first == curve(first as int),
        gain_second == curve(second as int),
    ensures
        gain_first == gain_second,
{
}

/// The ends of the curve: volume 0 is silence, volume 100 is unity, and every
/// volume below 100 stays below unity.
pub proof fn lemma_curve_ends(volume: int)
    ensures
        curve(0) == 0,
        curve(1) == 0,
        curve(MAX_VOLUME as int) == VOL_STEP_COUNT,
        0 <= volume < MAX_VOLUME ==> 0 <= curve(volume) < VOL_STEP_COUNT,
        volume >= MAX_VOLUME ==> curve(volume) >= VOL_STEP_COUNT,
{
    assert(curve(100) == 128) by {
        assert(99 * 99 == 9_801) by (nonlinear_arith);
    }
    lemma_curve_is_monotonic(100, if volume >= 100 {
        volume
    } else {
        100
    });
    if 0 <= volume < 100 {
        lemma_curve_is_monotonic(0, volume);
        lemma_curve_is_monotonic(volume, 99);
        assert(curve(99) == 125) by {
            assert(98 * 98 == 9_604) by (nonlinear_arith);
        }
    }
}

/// A gain below unity never makes a sample louder, nor changes its sign.
pub proof fn lemma_scaled_is_no_louder(sample: int, gain: int)
    requires
        0 <= gain < VOL_STEP_COUNT,
    ensures
        sample >= 0 ==> 0 <= scaled(sample, gain) <= sample,
        sample <= 0 ==> sample <= scaled(sample, gain) <= 0,
{
    if sample >= 0 {
        assert(0 <= sample * gain <= sample * 128) by (nonlinear_arith)
            requires
                sample >= 0,
                0 <= gain < 128,
        ;
    } else {
        assert(0 <= (-sample) * gain <= (-sample) * 128 && sample * gain == -((-sample) * gain))
            by (nonlinear_arith)
            requires
                sample < 0,
                0 <= gain < 128,
        ;
    }
}

} // verus!
