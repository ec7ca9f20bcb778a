//! Time values of the user ABI and their conversions.

use vstd::prelude::*;

verus! {

/// Seconds and nanoseconds.
#[derive(Debug, Clone, Copy, PartialEq, Eq, Structural)]
pub struct TimeSpec {
    pub sec: isize,
    pub nsec: isize,
}

impl Default for TimeSpec {
    fn default() -> (r: Self)
        ensures
            r == (TimeSpec { sec: 0, nsec: 0 }),
    {
        TimeSpec { sec: 0, nsec: 0 }
    }
}

/// A duration has a non-negative second count and less than a second of
/// nanoseconds.
pub open spec fn valid_duration(t: TimeSpec) -> bool {
    0 <= t.sec && 0 <= t.nsec < 1_000_000_000
}

/// The duration in units of which `per_sec` make a second, rounded up.
pub open spec fn duration_units(t: TimeSpec, per_sec: int, nsec_per_unit: int) -> int {
    t.sec * per_sec + (t.nsec + nsec_per_unit - 1) / nsec_per_unit
}

/// The duration in microseconds, rounded up, if valid and representable.
pub open spec fn duration_us(t: TimeSpec) -> Option<usize> {
    if valid_duration(t) && duration_units(t, 1_000_000, 1000) <= usize::MAX {
        Some(duration_units(t, 1_000_000, 1000) as usize)
    } else {
        None
    }
}

/// The duration in milliseconds, rounded up, if valid and representable.
pub open spec fn duration_ms(t: TimeSpec) -> Option<usize> {
    if valid_duration(t) && duration_units(t, 1000, 1_000_000) <= usize::MAX {
        Some(duration_units(t, 1000, 1_000_000) as usize)
    } else {
        None
    }
}

/// The time value of a microsecond count.
pub open spec fn spec_of_us(us: usize) -> TimeSpec {
    TimeSpec { sec: (us / 1_000_000) as isize, nsec: ((us % 1_000_000) * 1000) as isize }
}

/// The time value of a millisecond count.
pub open spec fn spec_of_ms(ms: usize) -> TimeSpec {
    TimeSpec { sec: (ms / 1000) as isize, nsec: ((ms % 1000) * 1_000_000) as isize }
}

impl TimeSpec {
    /// Tells whether this is a duration.
    pub fn is_valid_duration(&self) -> (r: bool)
        ensures
            r == valid_duration(*self),
    {
        self.sec >= 0 && self.nsec >= 0 && self.nsec < 1_000_000_000
    }

    /// Tells whether this is the zero duration.
    pub fn is_zero(&self) -> (r: bool)
        ensures
            r == (self.sec == 0 && self.nsec == 0),
    {
        self.sec == 0 && self.nsec == 0
    }

    /// The duration in microseconds, rounded up.
    pub fn checked_duration_us(&self) -> (r: Option<usize>)
        ensures
            r == duration_us(*self),
    {
        if !self.is_valid_duration() {
            return None;
        }
        let sub: usize = ((self.nsec + 999) / 1000) as usize;
        match (self.sec as usize).checked_mul(1_000_000) {
            Some(us) => us.checked_add(sub),
            None => None,
        }
    }

    /// The duration in milliseconds, rounded up.
    pub fn checked_duration_ms(&self) -> (r: Option<usize>)
        ensures
            r == duration_ms(*self),
    {
        if !self.is_valid_duration() {
            return None;
        }
        let sub: usize = ((self.nsec + 999_999) / 1_000_000) as usize;
        match (self.sec as usize).checked_mul(1000) {
            Some(ms) => ms.checked_add(sub),
            None => None,
        }
    }
}

/// Seconds and microseconds of a microsecond count as a time value.
pub fn timespec_from_us(us: usize) -> (r: TimeSpec)
    ensures
        r == spec_of_us(us),
{
    TimeSpec { sec: (us / 1_000_000) as isize, nsec: ((us % 1_000_000) * 1000) as isize }
}

/// Seconds and milliseconds of a millisecond count as a time value.
pub fn ms_to_timespec(ms: usize) -> (r: TimeSpec)
    ensures
        r == spec_of_ms(ms),
{
    TimeSpec { sec: (ms / 1000) as isize, nsec: ((ms % 1000) * 1_000_000) as isize }
}

/// A microsecond count survives the conversion to a time value and back.
pub proof fn us_round_trip(us: usize)
    ensures
        duration_us(spec_of_us(us)) == Some(us),
{
    let t = spec_of_us(us);
    assert(t.sec == us / 1_000_000);
    assert(t.nsec == (us % 1_000_000) * 1000);
    assert((t.nsec + 999) / 1000 == us % 1_000_000);
}

/// A millisecond count survives the conversion to a time value and back.
pub proof fn ms_round_trip(ms: usize)
    ensures
        duration_ms(spec_of_ms(ms)) == Some(ms),
{
    let t = spec_of_ms(ms);
    assert(t.sec == ms / 1000);
    assert(t.nsec == (ms % 1000) * 1_000_000);
    assert((t.nsec + 999_999) / 1_000_000 == ms % 1000);
}

/// A wait never ends before the requested duration has passed: the unit
/// counts are not below the requested time.
pub proof fn durations_round_up(t: TimeSpec)
    requires
        valid_duration(t),
    ensures
        duration_us(t) matches Some(us) ==> us * 1000 >= t.sec * 1_000_000_000 + t.nsec,
        duration_ms(t) matches Some(ms) ==> ms * 1_000_000 >= t.sec * 1_000_000_000 + t.nsec,
{
}

} // verus!
