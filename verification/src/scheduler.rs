//! The playback scheduler's decisions.
//!
//! For every queue entry the scheduler compares the entry's audible timestamp
//! with the server-relative time that has elapsed, and settles what becomes of
//! the entry: it is cut when it is a second or more away in either direction,
//! played after a wait when it is early, and played without its leading
//! samples when it is late. How many samples a late entry loses is settled
//! once the output is at hand, from the output's own sample rate. The caller
//! owns the queue, the clock, the decoder and the output; it performs what is
//! decided here and hands back what it observed.

use crate::noise::{fill_comfort_noise, noise_sample};
use crate::player::I2sPlayer;
use crate::timeval::TimeVal;
use crate::volume::scaled;
use vstd::prelude::*;

verus! {

/// Microseconds taken off every wait, to make up for a late wake-up.
pub const GUARD_MICROS: u32 = 1_500;

/// What becomes of a queue entry, by the time that remains until it is due.
#[derive(Clone, Copy, Debug, PartialEq, Eq, Structural)]
pub enum Disposition {
    /// A second or more away from now: the entry is discarded undecoded.
    HardCut,
    /// Early: block for `micros` microseconds, then play every sample.
    Wait { micros: u32 },
    /// Due or late by `millis` whole milliseconds: play at once, without the
    /// samples that the output plays in that time.
    Late { millis: u32 },
}

/// The wait for an entry that is due in `usec` microseconds: `usec` less the
/// guard interval, and never negative.
pub open spec fn guarded_wait(usec: int) -> int {
    if usec > GUARD_MICROS {
        usec - GUARD_MICROS
    } else {
        0
    }
}

/// Whole milliseconds by which an entry is late whose remaining microseconds
/// are `usec <= 0`.
#[verifier::inline]
pub open spec fn lateness_ms(usec: int) -> int {
    (-usec) / 1_000
}

/// Samples to drop from an entry that is `lateness_ms` milliseconds late.
pub open spec fn skip_samples(lateness_ms: int, samples_per_ms: int) -> int {
    lateness_ms * samples_per_ms
}

/// The disposition of an entry with `remaining` left until it is due.
pub open spec fn disposition_of(remaining: TimeVal) -> Disposition {
    if remaining.sec != 0 {
        Disposition::HardCut
    } else if remaining.usec > 0 {
        Disposition::Wait { micros: guarded_wait(remaining.usec as int) as u32 }
    } else {
        Disposition::Late { millis: lateness_ms(remaining.usec as int) as u32 }
    }
}

/// Samples per millisecond of an output that plays `rate` samples per second.
#[verifier::inline]
pub open spec fn samples_per_ms_of(rate: u16) -> u16 {
    rate / 1_000
}

/// The leading samples that an entry is played without, on an output of
/// `samples_per_ms` samples per millisecond: none for an early entry, the
/// lateness times that rate for a late one. `None` for an entry that is cut
/// and not played at all.
pub open spec fn leading_skip(disposition: Disposition, samples_per_ms: u16) -> Option<u64> {
    match disposition {
        Disposition::HardCut => None,
        Disposition::Wait { .. } => Some(0u64),
        Disposition::Late { millis } => Some(
            skip_samples(millis as int, samples_per_ms as int) as u64,
        ),
    }
}

/// The time that remains until `audible` when `elapsed` has passed: their
/// difference with the borrow undone, or `None` when the difference cannot be
/// stored.
pub open spec fn remaining_of(audible: TimeVal, elapsed: TimeVal) -> Option<TimeVal> {
    if crate::timeval::fits_i32(audible.diff_sec(elapsed)) && crate::timeval::fits_i32(
        audible.diff_usec(elapsed),
    ) {
        Some(
            TimeVal {
                sec: audible.diff_sec(elapsed) as i32,
                usec: audible.diff_usec(elapsed) as i32,
            }.borrow_normalized(),
        )
    } else {
        None
    }
}

/// The samples of a decoded chunk that are played: those from `skip` up to
/// `decoded`, or none at all when more are to be skipped than were decoded.
pub open spec fn emitted(samples: Seq<i16>, decoded: int, skip: int) -> Option<Seq<i16>> {
    if skip > decoded {
        None
    } else {
        Some(samples.subrange(skip, decoded))
    }
}

/// The time that remains until an entry stamped `audible` is due.
pub fn remaining(audible: TimeVal, elapsed: TimeVal) -> (r: Option<TimeVal>)
    ensures
        r == remaining_of(audible, elapsed),
        r matches Some(t) ==> t.micros() == audible.micros() - elapsed.micros(),
{
    match audible.checked_sub(elapsed) {
        Some(diff) => Some(diff.normalize_borrow()),
        None => None,
    }
}

/// Settles what becomes of an entry with `remaining` left until it is due.
pub fn dispose(remaining: TimeVal) -> (d: Disposition)
    ensures
        d == disposition_of(remaining),
        remaining.sec != 0 ==> d == Disposition::HardCut,
        remaining.sec == 0 && remaining.usec > 0 ==> d == (Disposition::Wait {
            micros: guarded_wait(remaining.usec as int) as u32,
        }),
        remaining.sec == 0 && remaining.usec <= 0 ==> d == (Disposition::Late {
            millis: lateness_ms(remaining.usec as int) as u32,
        }),
        d is Wait ==> d->micros == guarded_wait(remaining.usec as int),
        d is Late ==> d->millis == lateness_ms(remaining.usec as int),
{
    if remaining.sec != 0 {
        Disposition::HardCut
    } else if remaining.usec > 0 {
        let due: u32 = remaining.usec as u32;
        let guard: u32 = if due < GUARD_MICROS {
            due
        } else {
            GUARD_MICROS
        };
        Disposition::Wait { micros: due - guard }
    } else {
        let late_ms: i64 = (-(remaining.usec as i64)) / 1_000;
        Disposition::Late { millis: late_ms as u32 }
    }
}

/// Whether a polled wait is over: the time that remains is no more than the
/// `latency_ms` milliseconds that the output itself takes. A caller that polls
/// in place of one long wait takes the remaining time afresh at short, fixed
/// intervals, and plays as soon as this holds.
pub fn within_latency(remaining: TimeVal, latency_ms: u16) -> (over: bool)
    ensures
        over == (remaining.micros() <= latency_ms * 1_000),
{
    let left: i64 = remaining.sec as i64 * 1_000_000 + remaining.usec as i64;
    left <= latency_ms as i64 * 1_000
}

/// The scheduler's state over one connection: the output's samples per
/// millisecond, bound by the first entry that finds decoder and output ready,
/// and unbound until then.
#[derive(Clone, Copy, Debug, PartialEq, Eq, Structural)]
pub struct Scheduler {
    pub samples_per_ms: Option<u16>,
}

impl Scheduler {
    /// The samples per millisecond that an entry is played at which finds an
    /// output of `sink_rate` samples per second: the rate that was bound
    /// before, or else that of this output.
    #[verifier::inline]
    pub open spec fn rate_for(self, sink_rate: u16) -> u16 {
        match self.samples_per_ms {
            Some(bound) => bound,
            None => samples_per_ms_of(sink_rate),
        }
    }

    /// Whether an entry is let through to decoding: it was not cut, and
    /// decoder and output both exist.
    pub open spec fn lets_through(
        disposition: Disposition,
        decoder_ready: bool,
        sink_ready: bool,
    ) -> bool {
        disposition != Disposition::HardCut && decoder_ready && sink_ready
    }

    /// A scheduler that has not yet seen its output.
    pub fn new() -> (s: Scheduler)
        ensures
            s.samples_per_ms is None,
    {
        Scheduler { samples_per_ms: None }
    }

    /// Settles what becomes of an entry stamped `audible` when `elapsed` has
    /// passed on the server-relative clock, whatever the entry carries:
    /// comfort noise is judged as audio is. An entry so far away that the
    /// remaining time cannot be stored is cut.
    pub fn plan(&self, audible: TimeVal, elapsed: TimeVal) -> (d: Disposition)
        ensures
            d == match remaining_of(audible, elapsed) {
                Some(left) => disposition_of(left),
                None => Disposition::HardCut,
            },
            audible.is_carried() && elapsed.is_carried() ==> (d == Disposition::HardCut <==> !(
            -1_000_000 < audible.micros() - elapsed.micros() < 1_000_000)),
            audible.is_carried() && elapsed.is_carried() && d is Wait ==> d->micros
                == guarded_wait(audible.micros() - elapsed.micros()),
            audible.is_carried() && elapsed.is_carried() && d is Late ==> d->millis == lateness_ms(
                audible.micros() - elapsed.micros(),
            ),
    {
        proof {
            if audible.is_carried() && elapsed.is_carried() {
                lemma_cut_beyond_one_second(audible, elapsed);
            }
        }
        match remaining(audible, elapsed) {
            Some(left) => dispose(left),
            None => Disposition::HardCut,
        }
    }

    /// Lets an entry through to decoding once decoder and output both exist,
    /// and settles how many leading samples it is played without.
    /// `sink_rate` is the output's sample rate; it is not looked at while
    /// there is no output.
    ///
    /// An entry that was cut, or that finds decoder or output missing, is
    /// dropped: the answer is `None` and the scheduler stays as it was. Every
    /// other entry is let through. The first of them binds the samples per
    /// millisecond to a thousandth of the output's rate, before its own skip
    /// is taken; an early entry then skips nothing, and a late one skips its
    /// lateness in milliseconds times the bound rate.
    pub fn acquire(
        &mut self,
        disposition: Disposition,
        decoder_ready: bool,
        sink_ready: bool,
        sink_rate: u16,
    ) -> (skip: Option<u64>)
        ensures
            skip is Some <==> Self::lets_through(disposition, decoder_ready, sink_ready),
            skip == if Self::lets_through(disposition, decoder_ready, sink_ready) {
                leading_skip(disposition, old(self).rate_for(sink_rate))
            } else {
                None
            },
            final(self).samples_per_ms == if Self::lets_through(
                disposition,
                decoder_ready,
                sink_ready,
            ) {
                Some(old(self).rate_for(sink_rate))
            } else {
                old(self).samples_per_ms
            },
            skip is Some && disposition is Wait ==> skip->0 == 0,
            skip is Some && disposition is Late && old(self).rate_for(sink_rate) == sink_rate
                / 1_000 ==> skip->0 == disposition->millis * (sink_rate / 1_000),
            skip is Some && old(self).rate_for(sink_rate) == sink_rate / 1_000
                ==> final(self).samples_per_ms == Some((sink_rate / 1_000) as u16),
    {
        if !decoder_ready || !sink_ready {
            return None;
        }
        match disposition {
            Disposition::HardCut => None,
            Disposition::Wait { .. } => {
                let _ = self.bind(sink_rate);
                Some(0)
            },
            Disposition::Late { millis } => {
                let per_ms: u16 = self.bind(sink_rate);
                assert(millis * per_ms <= 4_294_967_295 * 65_535) by (nonlinear_arith)
                    requires
                        0 <= millis <= 4_294_967_295,
                        0 <= per_ms <= 65_535,
                ;
                Some(millis as u64 * per_ms as u64)
            },
        }
    }

    /// Binds the samples per millisecond to those of an output of `sink_rate`
    /// samples per second, unless they were bound before, and returns them.
    fn bind(&mut self, sink_rate: u16) -> (per_ms: u16)
        ensures
            per_ms == old(self).rate_for(sink_rate),
            final(self).samples_per_ms == Some(per_ms),
    {
        match self.samples_per_ms {
            Some(bound) => bound,
            None => {
                let per_ms: u16 = sink_rate / 1_000;
                self.samples_per_ms = Some(per_ms);
                per_ms
            },
        }
    }
}

/// The part of a decoded chunk that is played. Of the `decoded` samples at the
/// front of `buf` the first `skip` are left out; when more are to be skipped
/// than were decoded, nothing is played. The buffer itself is not changed
/// here: what the caller writes through the returned window is all that
/// changes in it.
pub fn trim_chunk(buf: &mut [i16], decoded: usize, skip: u64) -> (window: Option<&mut [i16]>)
    requires
        decoded <= old(buf)@.len(),
    ensures
        match window {
            Some(w) => {
                &&& skip <= decoded
                &&& emitted(old(buf)@, decoded as int, skip as int) == Some(w@)
                &&& w@.len() == decoded - skip
                &&& final(buf)@ == old(buf)@.subrange(0, skip as int) + final(w)@ + old(
                    buf,
                )@.subrange(decoded as int, old(buf)@.len() as int)
            },
            None => skip > decoded && final(buf)@ == old(buf)@,
        },
{
    if skip > decoded as u64 {
        return None;
    }
    let start: usize = skip as usize;
    let (front, _) = buf.split_at_mut(decoded);
    let (_, window) = front.split_at_mut(start);
    Some(window)
}

/// What stands in the buffer when an entry reaches the output.
#[derive(Clone, Copy, Debug, PartialEq, Eq, Structural)]
pub enum Staged {
    /// A chunk whose `decoded` samples stand at the front of the buffer, and
    /// of which the first `skip` are to be left out.
    Chunk { decoded: usize, skip: u64 },
    /// Nothing yet: the whole buffer is to be filled with comfort noise.
    Noise,
}

/// The samples that go to the device for what was staged in a buffer that
/// held `before`, at a gain of `gain` steps: the part of the chunk that is
/// played, or a buffer full of comfort noise, with the gain applied.
pub open spec fn staged_output(before: Seq<i16>, staged: Staged, gain: int) -> Option<Seq<int>> {
    match staged {
        Staged::Chunk { decoded, skip } => match emitted(before, decoded as int, skip as int) {
            Some(window) => Some(Seq::new(window.len(), |i: int| scaled(window[i] as int, gain))),
            None => None,
        },
        Staged::Noise => Some(Seq::new(before.len(), |i: int| scaled(noise_sample(i), gain))),
    }
}

/// Makes ready what goes to the device: trims a decoded chunk or fills in
/// comfort noise, applies the output's gain in place, and hands out the
/// samples to send. A chunk from which more is to be skipped than was decoded
/// yields nothing, and the buffer stays as it was.
pub fn stage_output<'a>(player: &I2sPlayer, buf: &'a mut [i16], staged: Staged) -> (out: Option<
    &'a mut [i16],
>)
    requires
        staged is Chunk ==> staged->decoded <= old(buf)@.len(),
    ensures
        match out {
            Some(samples) => {
                &&& staged_output(old(buf)@, staged, player@.gain) matches Some(expected)
                &&& samples@.len() == expected.len()
                &&& forall|i: int| 0 <= i < expected.len() ==> samples@[i] == expected[i]
                &&& final(buf)@ == match staged {
                    Staged::Chunk { decoded, skip } => old(buf)@.subrange(0, skip as int)
                        + final(samples)@ + old(buf)@.subrange(
                        decoded as int,
                        old(buf)@.len() as int,
                    ),
                    Staged::Noise => final(samples)@,
                }
            },
            None => staged_output(old(buf)@, staged, player@.gain) is None && final(buf)@ == old(
                buf,
            )@,
        },
{
    match staged {
        Staged::Chunk { decoded, skip } => {
            match trim_chunk(buf, decoded, skip) {
                Some(window) => {
                    player.write(window);
                    Some(window)
                },
                None => None,
            }
        },
        Staged::Noise => {
            fill_comfort_noise(buf);
            player.write(buf);
            Some(buf)
        },
    }
}

/// Between two carried times the remaining time has seconds, with the borrow
/// undone, exactly when the two are a second or more apart: entries within a
/// second of now are the ones that are played. A remaining time that cannot
/// be stored is more than a second away.
pub proof fn lemma_cut_beyond_one_second(audible: TimeVal, elapsed: TimeVal)
    requires
        audible.is_carried(),
        elapsed.is_carried(),
    ensures
        match remaining_of(audible, elapsed) {
            Some(left) => {
                &&& left.micros() == audible.micros() - elapsed.micros()
                &&& (left.sec == 0 <==> -1_000_000 < audible.micros() - elapsed.micros()
                    < 1_000_000)
                &&& (left.sec == 0 ==> left.usec == audible.micros() - elapsed.micros())
            },
            None => !(-1_000_000 < audible.micros() - elapsed.micros() < 1_000_000),
        },
{
}

/// A late chunk that can still catch up is played from the first sample that
/// is not skipped to the last one decoded: when the lateness in milliseconds
/// is at most `decoded / samples_per_ms`, the window holds `decoded - skip`
/// samples and begins `skip` samples into the chunk.
pub proof fn lemma_late_chunk_is_trimmed(
    samples: Seq<i16>,
    decoded: int,
    late_ms: int,
    samples_per_ms: int,
)
    requires
        0 < samples_per_ms,
        0 <= decoded <= samples.len(),
        0 <= late_ms <= decoded / samples_per_ms,
    ensures
        skip_samples(late_ms, samples_per_ms) <= decoded,
        emitted(samples, decoded, skip_samples(late_ms, samples_per_ms)) is Some,
        emitted(samples, decoded, skip_samples(late_ms, samples_per_ms))->0.len() == decoded
            - skip_samples(late_ms, samples_per_ms),
        forall|i: int|
            0 <= i < decoded - skip_samples(late_ms, samples_per_ms) ==> emitted(
                samples,
                decoded,
                skip_samples(late_ms, samples_per_ms),
            )->0[i] == samples[skip_samples(late_ms, samples_per_ms) + i],
{
    let skip = skip_samples(late_ms, samples_per_ms);
    assert(0 <= skip <= decoded) by (nonlinear_arith)
        requires
            0 < samples_per_ms,
            0 <= decoded,
            0 <= late_ms <= decoded / samples_per_ms,
            skip == late_ms * samples_per_ms,
    ;
}

/// A chunk from which more is to be skipped than was decoded is not played.
pub proof fn lemma_overlong_skip_plays_nothing(samples: Seq<i16>, decoded: int, skip: int)
    requires
        skip > decoded,
    ensures
        emitted(samples, decoded, skip) is None,
{
}

} // verus!
