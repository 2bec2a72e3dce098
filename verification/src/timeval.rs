//! Signed durations as a pair of seconds and microseconds.
//!
//! A [`TimeVal`] stands for `sec * 1_000_000 + usec` microseconds relative to
//! some epoch. The pair is not unique: `-0.3 s` may be written `(0, -300_000)`
//! or `(-1, 700_000)`. Subtraction hands out the second, "carried" form, in
//! which `usec` is never negative; [`TimeVal::normalize_borrow`] turns a
//! carried value just below zero into the form whose `usec` has the sign of
//! the duration.

use vstd::prelude::*;

verus! {

/// A signed duration: `sec` whole seconds plus `usec` microseconds.
#[derive(Clone, Copy, Debug, PartialEq, Eq, Structural)]
pub struct TimeVal {
    pub sec: i32,
    pub usec: i32,
}

/// How many whole seconds must be borrowed to lift a microsecond difference
/// of `usec_diff` to zero or above.
pub open spec fn borrowed_secs(usec_diff: int) -> int {
    if usec_diff < 0 {
        (999_999 - usec_diff) / 1_000_000
    } else {
        0
    }
}

/// How many whole seconds a microsecond sum of `usec_sum` carries over.
pub open spec fn carried_secs(usec_sum: int) -> int {
    if usec_sum >= 1_000_000 {
        usec_sum / 1_000_000
    } else {
        0
    }
}

/// Whether `v` can be stored in an `i32`.
pub open spec fn fits_i32(v: int) -> bool {
    i32::MIN <= v <= i32::MAX
}

impl TimeVal {
    /// The duration in microseconds.
    pub open spec fn micros(self) -> int {
        self.sec * 1_000_000 + self.usec
    }

    /// Carried form: the microsecond field lies in `0..1_000_000`.
    pub open spec fn is_carried(self) -> bool {
        0 <= self.usec < 1_000_000
    }

    /// Seconds field of `self - rhs`, before it is stored.
    pub open spec fn diff_sec(self, rhs: TimeVal) -> int {
        self.sec - rhs.sec - borrowed_secs(self.usec - rhs.usec)
    }

    /// Microsecond field of `self - rhs`, before it is stored.
    pub open spec fn diff_usec(self, rhs: TimeVal) -> int {
        self.usec - rhs.usec + borrowed_secs(self.usec - rhs.usec) * 1_000_000
    }

    /// Seconds field of `self + rhs`, before it is stored.
    pub open spec fn sum_sec(self, rhs: TimeVal) -> int {
        self.sec + rhs.sec + carried_secs(self.usec + rhs.usec)
    }

    /// Microsecond field of `self + rhs`, before it is stored.
    pub open spec fn sum_usec(self, rhs: TimeVal) -> int {
        self.usec + rhs.usec - carried_secs(self.usec + rhs.usec) * 1_000_000
    }

    /// The value [`TimeVal::normalize_borrow`] returns.
    pub open spec fn borrow_normalized(self) -> TimeVal {
        if self.sec == -1 && self.usec > 0 {
            TimeVal { sec: 0, usec: (self.usec - 1_000_000) as i32 }
        } else {
            self
        }
    }

    /// The duration of `sec` seconds and `usec` microseconds, as given.
    pub fn new(sec: i32, usec: i32) -> (t: TimeVal)
        ensures
            t.sec == sec,
            t.usec == usec,
    {
        TimeVal { sec, usec }
    }

    /// The carried `TimeVal` of a non-negative count of microseconds, such as
    /// the time elapsed on a monotonic clock. `None` when the seconds do not
    /// fit the field.
    pub fn from_micros(micros: u64) -> (r: Option<TimeVal>)
        ensures
            match r {
                Some(t) => t.micros() == micros && t.is_carried(),
                None => micros / 1_000_000 > i32::MAX,
            },
    {
        let sec: u64 = micros / 1_000_000;
        let usec: u64 = micros % 1_000_000;
        if sec > i32::MAX as u64 {
            None
        } else {
            Some(TimeVal { sec: sec as i32, usec: usec as i32 })
        }
    }

    /// `self - rhs`, field by field, borrowing whole seconds until the
    /// microsecond field is no longer negative. `None` when a field of the
    /// difference does not fit.
    pub fn checked_sub(self, rhs: TimeVal) -> (r: Option<TimeVal>)
        ensures
            match r {
                Some(t) => t.sec == self.diff_sec(rhs) && t.usec == self.diff_usec(rhs),
                None => !(fits_i32(self.diff_sec(rhs)) && fits_i32(self.diff_usec(rhs))),
            },
            r matches Some(t) ==> t.micros() == self.micros() - rhs.micros() && t.usec >= 0,
            r matches Some(t) ==> (self.is_carried() && rhs.is_carried() ==> t.is_carried()),
    {
        let usec_diff: i64 = self.usec as i64 - rhs.usec as i64;
        let borrow: i64 = if usec_diff < 0 {
            (999_999 - usec_diff) / 1_000_000
        } else {
            0
        };
        let sec: i64 = self.sec as i64 - rhs.sec as i64 - borrow;
        let usec: i64 = usec_diff + borrow * 1_000_000;
        if sec < i32::MIN as i64 || sec > i32::MAX as i64 || usec > i32::MAX as i64 {
            None
        } else {
            Some(TimeVal { sec: sec as i32, usec: usec as i32 })
        }
    }

    /// `self + rhs`, field by field, carrying whole seconds out of a
    /// microsecond sum of one second or more. `None` when a field of the sum
    /// does not fit.
    pub fn checked_add(self, rhs: TimeVal) -> (r: Option<TimeVal>)
        ensures
            match r {
                Some(t) => t.sec == self.sum_sec(rhs) && t.usec == self.sum_usec(rhs),
                None => !(fits_i32(self.sum_sec(rhs)) && fits_i32(self.sum_usec(rhs))),
            },
            r matches Some(t) ==> t.micros() == self.micros() + rhs.micros() && t.usec < 1_000_000,
            r matches Some(t) ==> (self.is_carried() && rhs.is_carried() ==> t.is_carried()),
    {
        let usec_sum: i64 = self.usec as i64 + rhs.usec as i64;
        let carry: i64 = if usec_sum >= 1_000_000 {
            usec_sum / 1_000_000
        } else {
            0
        };
        let sec: i64 = self.sec as i64 + rhs.sec as i64 + carry;
        let usec: i64 = usec_sum - carry * 1_000_000;
        if sec < i32::MIN as i64 || sec > i32::MAX as i64 || usec < i32::MIN as i64 {
            None
        } else {
            Some(TimeVal { sec: sec as i32, usec: usec as i32 })
        }
    }

    /// Undoes the borrow of a difference just below zero: `(-1, usec)` with a
    /// positive `usec` becomes `(0, usec - 1_000_000)`. Every other value is
    /// handed back as it is.
    pub fn normalize_borrow(self) -> (t: TimeVal)
        ensures
            t == self.borrow_normalized(),
            t.micros() == self.micros(),
            t.sec == 0 ==> t.usec == self.micros(),
            self.is_carried() && -1_000_000 < self.micros() < 1_000_000 ==> t.sec == 0,
    {
        if self.sec == -1 && self.usec > 0 {
            TimeVal { sec: 0, usec: self.usec - 1_000_000 }
        } else {
            self
        }
    }

    /// The magnitude of the duration, in carried form. `None` when its
    /// seconds do not fit the field.
    pub fn abs(self) -> (r: Option<TimeVal>)
        ensures
            match r {
                Some(t) => t.is_carried() && t.sec >= 0 && t.micros() == vstd::math::abs(
                    self.micros(),
                ),
                None => vstd::math::abs(self.micros()) / 1_000_000 > i32::MAX,
            },
    {
        let total: i64 = self.sec as i64 * 1_000_000 + self.usec as i64;
        let magnitude: i64 = if total < 0 {
            -total
        } else {
            total
        };
        let sec: i64 = magnitude / 1_000_000;
        let usec: i64 = magnitude % 1_000_000;
        if sec > i32::MAX as i64 {
            None
        } else {
            Some(TimeVal { sec: sec as i32, usec: usec as i32 })
        }
    }

    /// The duration in whole milliseconds, rounded towards zero. `None` for a
    /// negative duration and for one of more than `u16::MAX` milliseconds.
    pub fn millis(self) -> (r: Option<u16>)
        ensures
            match r {
                Some(ms) => 0 <= self.micros() && ms == self.micros() / 1_000,
                None => self.micros() < 0 || self.micros() / 1_000 > u16::MAX,
            },
    {
        let total: i64 = self.sec as i64 * 1_000_000 + self.usec as i64;
        if total < 0 {
            None
        } else {
            let ms: i64 = total / 1_000;
            if ms > u16::MAX as i64 {
                None
            } else {
                Some(ms as u16)
            }
        }
    }
}

/// Undoing the borrow keeps the duration, and once no seconds are left the
/// microsecond field has the sign of the duration. For a carried value of
/// less than one second either way no seconds are left.
pub proof fn lemma_normalized_sign(t: TimeVal)
    requires
        -1_000_000 < t.micros() < 1_000_000,
    ensures
        t.borrow_normalized().micros() == t.micros(),
        t.borrow_normalized().sec == 0 ==> {
            &&& t.borrow_normalized().usec == t.micros()
            &&& (t.micros() > 0 <==> t.borrow_normalized().usec > 0)
            &&& (t.micros() < 0 <==> t.borrow_normalized().usec < 0)
            &&& (t.micros() == 0 <==> t.borrow_normalized().usec == 0)
        },
        t.is_carried() ==> t.borrow_normalized().sec == 0,
{
}

} // verus!
