//! Diagnostics: timing of calls that are expected to be quick, and the low
//! water mark of the free heap.

use std::time::{Duration, Instant};
use vstd::prelude::*;

verus! {

/// `std::time::Instant`, a reading of the monotonic clock. Nothing is known of
/// what it holds.
#[verifier::external_type_specification]
#[verifier::external_body]
pub struct ExInstant(Instant);

/// `Instant::now` reads the monotonic clock. Nothing is claimed of the
/// reading.
pub assume_specification[ Instant::now ]() -> (now: Instant)
;

/// `Instant::checked_duration_since` gives the time from `earlier` to `later`,
/// or nothing when `earlier` is the later one. Nothing is claimed of the
/// result.
pub assume_specification[ Instant::checked_duration_since ](
    later: &Instant,
    earlier: Instant,
) -> (elapsed: Option<Duration>)
;

/// `Duration::as_nanos` gives a duration in nanoseconds. Nothing is claimed
/// of the number.
pub assume_specification[ Duration::as_nanos ](duration: &Duration) -> (nanos: u128)
;

/// A call that took longer than it should have.
#[derive(Clone, Copy, Debug, PartialEq, Eq)]
pub struct SlowCall<'a> {
    /// What was called.
    pub name: &'a str,
    /// How long it took, in nanoseconds.
    pub elapsed_nanos: u128,
}

/// The report on a call named `name` that took `elapsed_nanos`, a duration
/// that is missing when the clock could not tell: the call is reported when
/// it took longer than `threshold_nanos`, and only then.
pub fn slow_call<'a>(name: &'a str, elapsed_nanos: Option<u128>, threshold_nanos: u128) -> (report:
    Option<SlowCall<'a>>)
    ensures
        report == match elapsed_nanos {
            Some(elapsed) => if elapsed > threshold_nanos {
                Some(SlowCall { name, elapsed_nanos: elapsed })
            } else {
                None
            },
            None => None,
        },
{
    match elapsed_nanos {
        Some(elapsed) => {
            if elapsed > threshold_nanos {
                Some(SlowCall { name, elapsed_nanos: elapsed })
            } else {
                None
            }
        },
        None => None,
    }
}

/// Calls `f` and measures on the monotonic clock how long it takes. The call
/// is reported when it took longer than `threshold_nanos`; what the clock says
/// decides, so all that is known of a report is that it names this call and
/// lies over the threshold.
pub fn measure_exec<'a, F: FnOnce()>(name: &'a str, f: F, threshold_nanos: u128) -> (report: Option<
    SlowCall<'a>,
>)
    requires
        f.requires(()),
    ensures
        f.ensures((), ()),
        report matches Some(slow) ==> slow.name == name && slow.elapsed_nanos > threshold_nanos,
{
    let start = Instant::now();
    f();
    let end = Instant::now();
    let elapsed_nanos = match end.checked_duration_since(start) {
        Some(duration) => Some(duration.as_nanos()),
        None => None,
    };
    slow_call(name, elapsed_nanos, threshold_nanos)
}

/// A fall of the free heap by more than this many bytes is worth a report.
pub const HEAP_DROP_REPORTED: u32 = 512;

/// Follows the free heap downwards: remembers the lowest reading so far.
#[derive(Clone, Copy, Debug, PartialEq, Eq, Structural)]
pub struct HeapWatch {
    pub free_heap: u32,
}

impl HeapWatch {
    /// Starts from a first reading of the free heap.
    pub fn new(free: u32) -> (watch: HeapWatch)
        ensures
            watch.free_heap == free,
    {
        HeapWatch { free_heap: free }
    }

    /// Takes a reading of the free heap. A reading below the lowest so far
    /// becomes the new mark, and is to be reported when it lies more than
    /// `HEAP_DROP_REPORTED` bytes below the old one.
    pub fn observe(&mut self, free: u32) -> (report: bool)
        ensures
            report == (old(self).free_heap - free > HEAP_DROP_REPORTED),
            final(self).free_heap == if free < old(self).free_heap {
                free
            } else {
                old(self).free_heap
            },
    {
        if free < self.free_heap {
            let report = self.free_heap - free > HEAP_DROP_REPORTED;
            self.free_heap = free;
            report
        } else {
            false
        }
    }
}

} // verus!
