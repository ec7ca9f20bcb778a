//! Device requests: the size of a terminal, waiting bytes, the clock.

use crate::errno::{Errno, SysResult};
use crate::text::chars_of;
use crate::user::UserOut;
use vstd::prelude::*;

verus! {

/// The size of a terminal.
#[derive(Debug, Clone, Copy, PartialEq, Eq, Structural)]
pub struct WinSize {
    pub row: u16,
    pub col: u16,
    pub xpixel: u16,
    pub ypixel: u16,
}

/// A date and time of day. Years count from 1900, months and days of the year
/// from zero, days of the month from one, days of the week from Sunday.
#[derive(Debug, Clone, Copy, PartialEq, Eq, Structural)]
pub struct RtcTime {
    pub tm_sec: i32,
    pub tm_min: i32,
    pub tm_hour: i32,
    pub tm_mday: i32,
    pub tm_mon: i32,
    pub tm_year: i32,
    pub tm_wday: i32,
    pub tm_yday: i32,
    pub tm_isdst: i32,
}

/// Every fourth year, but of those that end a century only every fourth.
pub open spec fn leap(year: int) -> bool {
    (year % 4 == 0 && year % 100 != 0) || year % 400 == 0
}

/// Days of a year.
pub open spec fn year_days(year: int) -> int {
    if leap(year) {
        366
    } else {
        365
    }
}

/// Days from the start of 1970 to the start of a year.
pub open spec fn days_to_year(year: int) -> int
    decreases year,
{
    if year <= 1970 {
        0
    } else {
        days_to_year(year - 1) + year_days(year - 1)
    }
}

/// Days of a month, counted from zero.
pub open spec fn month_days(is_leap: bool, month: int) -> int {
    if month == 1 {
        if is_leap {
            29
        } else {
            28
        }
    } else if month == 3 || month == 5 || month == 8 || month == 10 {
        30
    } else {
        31
    }
}

/// Days of a year before a month.
pub open spec fn days_to_month(is_leap: bool, month: int) -> int
    decreases month,
{
    if month <= 0 {
        0
    } else {
        days_to_month(is_leap, month - 1) + month_days(is_leap, month - 1)
    }
}

/// The year of the day that comes `day` days after the start of `year`.
pub open spec fn year_at(year: int, day: int) -> int
    decreases day,
{
    if day < year_days(year) {
        year
    } else {
        year_at(year + 1, day - year_days(year))
    }
}

/// The year of a number of seconds since the start of 1970.
pub open spec fn unix_year(secs: int) -> int {
    year_at(1970, secs / 86_400)
}

/// The low 32 bits of a number, as a signed number.
pub open spec fn low_word(n: int) -> int {
    let low = n % 0x1_0000_0000;
    if low >= 0x8000_0000 {
        low - 0x1_0000_0000
    } else {
        low
    }
}

/// The date and time of day that lie a number of seconds behind the start of
/// 1970, which was a Thursday.
pub open spec fn is_date_of(t: RtcTime, secs: int) -> bool {
    is_date_in(t, secs, t.tm_year + 1900)
}

/// A date in a year, whatever is noted as its year.
pub open spec fn is_date_in(t: RtcTime, secs: int, year: int) -> bool {
    &&& 0 <= t.tm_sec < 60
    &&& 0 <= t.tm_min < 60
    &&& 0 <= t.tm_hour < 24
    &&& 1970 <= year
    &&& 0 <= t.tm_mon < 12
    &&& 1 <= t.tm_mday <= month_days(leap(year), t.tm_mon as int)
    &&& t.tm_yday == days_to_month(leap(year), t.tm_mon as int) + t.tm_mday - 1
    &&& secs == (days_to_year(year) + t.tm_yday) * 86_400 + t.tm_hour * 3600 + t.tm_min * 60
        + t.tm_sec
    &&& t.tm_wday == (secs / 86_400 + 4) % 7
    &&& t.tm_isdst == 0
}

fn is_leap_year(year: usize) -> (r: bool)
    ensures
        r == leap(year as int),
{
    (year % 4 == 0 && year % 100 != 0) || year % 400 == 0
}

fn days_before_month(is_leap: bool, month: usize) -> (r: usize)
    requires
        month < 12,
    ensures
        r == days_to_month(is_leap, month as int),
        r <= 335,
{
    proof {
        reveal_with_fuel(days_to_month, 13);
    }
    let common: [usize; 12] = [0, 31, 59, 90, 120, 151, 181, 212, 243, 273, 304, 334];
    let days: usize = common[month];
    if is_leap && month >= 2 {
        days + 1
    } else {
        days
    }
}

proof fn years_have_days(year: int)
    requires
        1970 <= year,
    ensures
        days_to_year(year) >= 365 * (year - 1970),
    decreases year,
{
    if year > 1970 {
        years_have_days(year - 1);
    }
}

proof fn years_are_near(year: int, day: int)
    requires
        0 <= day,
    ensures
        year <= year_at(year, day) <= year + day / 365,
    decreases day,
{
    if day >= year_days(year) {
        years_are_near(year + 1, day - year_days(year));
    }
}

/// The low 32 bits of a year, as a signed number.
fn year_word(year: usize) -> (r: i32)
    ensures
        r == low_word(year as int),
{
    let low: u64 = (year as u64) % 0x1_0000_0000;
    if low >= 0x8000_0000 {
        (low as i64 - 0x1_0000_0000) as i32
    } else {
        low as i32
    }
}

/// The date and time of day of a number of seconds since the start of 1970. Of the
/// year the low 32 bits are noted, as years since 1900, so that a year that takes
/// no more of them is noted in full. Years whose low bits lie below the smallest
/// number that can be noted are left out.
pub fn rtc_time_from_unix(secs: usize) -> (r: RtcTime)
    requires
        low_word(unix_year(secs as int)) - 1900 >= i32::MIN,
    ensures
        is_date_in(r, secs as int, unix_year(secs as int)),
        r.tm_year == low_word(unix_year(secs as int)) - 1900,
        unix_year(secs as int) <= i32::MAX ==> is_date_of(r, secs as int),
{
    let days: usize = secs / 86_400;
    let rem: usize = secs % 86_400;
    let hour: usize = rem / 3600;
    let rest: usize = rem % 3600;
    let min: usize = rest / 60;
    let sec: usize = rest % 60;

    let mut year: usize = 1970;
    let mut day_of_year: usize = days;
    loop
        invariant
            1970 <= year,
            days <= usize::MAX / 86_400,
            year_at(year as int, day_of_year as int) == year_at(1970, days as int),
            days_to_year(year as int) + day_of_year == days,
            days_to_year(year as int) >= 365 * (year - 1970),
        ensures
            1970 <= year,
            days_to_year(year as int) + day_of_year == days,
            days_to_year(year as int) >= 365 * (year - 1970),
            day_of_year < year_days(year as int),
            year == year_at(1970, days as int),
        decreases day_of_year,
    {
        let len: usize = if is_leap_year(year) {
            366
        } else {
            365
        };
        if day_of_year < len {
            break;
        }
        proof {
            years_have_days(year as int);
        }
        day_of_year = day_of_year - len;
        year = year + 1;
    }
    let is_leap = is_leap_year(year);
    let mut month: usize = 0;
    while month + 1 < 12 && day_of_year >= days_before_month(is_leap, month + 1)
        invariant
            month < 12,
            days_to_month(is_leap, month as int) <= day_of_year,
        decreases 12 - month,
    {
        month = month + 1;
    }
    proof {
        reveal_with_fuel(days_to_month, 13);
    }
    let mday: usize = day_of_year - days_before_month(is_leap, month) + 1;
    RtcTime {
        tm_sec: sec as i32,
        tm_min: min as i32,
        tm_hour: hour as i32,
        tm_mday: mday as i32,
        tm_mon: month as i32,
        tm_year: year_word(year) - 1900,
        tm_wday: ((days + 4) % 7) as i32,
        tm_yday: day_of_year as i32,
        tm_isdst: 0,
    }
}

proof fn later_years_start_later(a: int, b: int)
    requires
        1970 <= a < b,
    ensures
        days_to_year(a) + year_days(a) <= days_to_year(b),
    decreases b,
{
    if a < b - 1 {
        later_years_start_later(a, b - 1);
    }
}

proof fn later_months_start_later(l: bool, a: int, b: int)
    requires
        0 <= a < b,
    ensures
        days_to_month(l, a) + month_days(l, a) <= days_to_month(l, b),
    decreases b,
{
    if a < b - 1 {
        later_months_start_later(l, a, b - 1);
    }
}

proof fn months_make_a_year(year: int)
    ensures
        days_to_month(leap(year), 12) == year_days(year),
{
    reveal_with_fuel(days_to_month, 13);
}

proof fn months_are_not_negative(l: bool, m: int)
    ensures
        days_to_month(l, m) >= 0,
    decreases m,
{
    if m > 0 {
        months_are_not_negative(l, m - 1);
    }
}

proof fn day_of_year_in_range(t: RtcTime, secs: int)
    requires
        is_date_of(t, secs),
    ensures
        0 <= t.tm_yday < year_days(t.tm_year + 1900),
{
    let year = t.tm_year + 1900;
    months_are_not_negative(leap(year), t.tm_mon as int);
    later_months_start_later(leap(year), t.tm_mon as int, 12);
    months_make_a_year(year);
}

proof fn same_day(d1: int, r1: int, d2: int, r2: int)
    requires
        0 <= r1 < 86_400,
        0 <= r2 < 86_400,
        d1 * 86_400 + r1 == d2 * 86_400 + r2,
    ensures
        d1 == d2,
        r1 == r2,
{
}

proof fn same_time_of_day(h1: int, m1: int, s1: int, h2: int, m2: int, s2: int)
    requires
        0 <= m1 < 60,
        0 <= s1 < 60,
        0 <= m2 < 60,
        0 <= s2 < 60,
        h1 * 3600 + m1 * 60 + s1 == h2 * 3600 + m2 * 60 + s2,
    ensures
        h1 == h2,
        m1 == m2,
        s1 == s2,
{
}

proof fn same_year(a: int, i: int, b: int, j: int)
    requires
        1970 <= a,
        1970 <= b,
        0 <= i < year_days(a),
        0 <= j < year_days(b),
        days_to_year(a) + i == days_to_year(b) + j,
    ensures
        a == b,
        i == j,
{
    if a < b {
        later_years_start_later(a, b);
    } else if b < a {
        later_years_start_later(b, a);
    }
}

proof fn same_month(l: bool, a: int, i: int, b: int, j: int)
    requires
        0 <= a < 12,
        0 <= b < 12,
        1 <= i <= month_days(l, a),
        1 <= j <= month_days(l, b),
        days_to_month(l, a) + i == days_to_month(l, b) + j,
    ensures
        a == b,
        i == j,
{
    if a < b {
        later_months_start_later(l, a, b);
    } else if b < a {
        later_months_start_later(l, b, a);
    }
}

/// There is only one date and time of day for a number of seconds, and two
/// different numbers have different ones.
pub proof fn dates_are_unique(a: RtcTime, b: RtcTime, x: int, y: int)
    requires
        is_date_of(a, x),
        is_date_of(b, y),
    ensures
        x == y <==> a == b,
{
    if x == y {
        let ya = a.tm_year + 1900;
        let yb = b.tm_year + 1900;
        day_of_year_in_range(a, x);
        day_of_year_in_range(b, y);
        same_day(
            days_to_year(ya) + a.tm_yday,
            a.tm_hour * 3600 + a.tm_min * 60 + a.tm_sec,
            days_to_year(yb) + b.tm_yday,
            b.tm_hour * 3600 + b.tm_min * 60 + b.tm_sec,
        );
        same_time_of_day(
            a.tm_hour as int,
            a.tm_min as int,
            a.tm_sec as int,
            b.tm_hour as int,
            b.tm_min as int,
            b.tm_sec as int,
        );
        same_year(ya, a.tm_yday as int, yb, b.tm_yday as int);
        same_month(
            leap(ya),
            a.tm_mon as int,
            a.tm_mday as int,
            b.tm_mon as int,
            b.tm_mday as int,
        );
    }
}

pub const TIOCGWINSZ: usize = 0x5413;

pub const FIONREAD: usize = 0x541b;

pub const RTC_RD_TIME: usize = 0x8024_7009;

/// What is behind a descriptor that a request is made to.
#[derive(Debug)]
pub struct IoctlFile {
    pub tty: bool,
    /// The bytes that wait in a pipe.
    pub pipe: Option<usize>,
    /// The path of a file of a file system.
    pub path: Option<String>,
    /// It is a loop device or the control file of these.
    pub loop_device: bool,
}

/// What a request comes to.
#[derive(Debug, Clone, Copy, PartialEq, Eq, Structural)]
pub enum IoctlAction {
    Fail(Errno),
    WinSize(WinSize),
    Waiting(i32),
    Time(RtcTime),
    /// The device itself decides.
    Device,
}

/// The text ends with the other.
pub open spec fn ends_with(s: Seq<char>, t: Seq<char>) -> bool {
    t.len() <= s.len() && s.skip(s.len() - t.len()) == t
}

fn is_rtc_path(path: &str) -> (r: bool)
    ensures
        r == ends_with(path@, "/rtc"@),
{
    let s = chars_of(path);
    let n: usize = s.len();
    proof {
        reveal_strlit("/rtc");
        if n >= 4 {
            let t = s@.skip(n - 4);
            assert(t.len() == 4);
            assert(t[0] == s@[n - 4] && t[1] == s@[n - 3] && t[2] == s@[n - 2] && t[3] == s@[n - 1]);
            if t[0] == '/' && t[1] == 'r' && t[2] == 't' && t[3] == 'c' {
                assert(t =~= "/rtc"@);
            }
        }
    }
    n >= 4 && s[n - 4] == '/' && s[n - 3] == 'r' && s[n - 2] == 't' && s[n - 1] == 'c'
}

/// The file is the clock device.
pub open spec fn is_rtc(f: IoctlFile) -> bool {
    f.path is Some && ends_with(f.path->0@, "/rtc"@)
}

/// Writing an answer needs a good pointer.
pub open spec fn answered(out: UserOut, a: IoctlAction) -> IoctlAction {
    if out == UserOut::Writable {
        a
    } else {
        IoctlAction::Fail(Errno::EFAULT)
    }
}

fn answer(out: UserOut, a: IoctlAction) -> (r: IoctlAction)
    ensures
        r == answered(out, a),
{
    match out {
        UserOut::Writable => a,
        _ => IoctlAction::Fail(Errno::EFAULT),
    }
}

/// Whether a request to a device leads to `r`.
pub open spec fn ioctl_done(
    file: SysResult<IoctlFile>,
    request: usize,
    out: UserOut,
    now_ms: usize,
    r: IoctlAction,
) -> bool {
    match file {
        Err(e) => r == IoctlAction::Fail(e),
        Ok(f) => if request == TIOCGWINSZ && f.tty {
            r == answered(
                out,
                IoctlAction::WinSize(WinSize { row: 24, col: 80, xpixel: 0, ypixel: 0 }),
            )
        } else if request == FIONREAD {
            r == (match f.pipe {
                Some(n) => answered(out, IoctlAction::Waiting(n as i32)),
                None => IoctlAction::Fail(Errno::ENOTTY),
            })
        } else if is_rtc(f) && request & 0xffff == RTC_RD_TIME & 0xffff {
            if out == UserOut::Writable {
                r matches IoctlAction::Time(t) && is_date_of(t, (now_ms / 1000) as int)
            } else {
                r == IoctlAction::Fail(Errno::EFAULT)
            }
        } else if f.path is Some && f.loop_device {
            r == IoctlAction::Device
        } else {
            r == IoctlAction::Fail(Errno::ENOTTY)
        },
    }
}

/// Decides what a request to a device comes to. `out` is the argument as a
/// pointer, `now_ms` the time in milliseconds.
pub fn sys_ioctl(file: SysResult<IoctlFile>, request: usize, out: UserOut, now_ms: usize) -> (r:
    IoctlAction)
    ensures
        ioctl_done(file, request, out, now_ms, r),
{
    let f = match file {
        Ok(f) => f,
        Err(e) => {
            return IoctlAction::Fail(e);
        },
    };
    if request == TIOCGWINSZ && f.tty {
        return answer(
            out,
            IoctlAction::WinSize(WinSize { row: 24, col: 80, xpixel: 0, ypixel: 0 }),
        );
    }
    if request == FIONREAD {
        return match f.pipe {
            Some(n) => answer(out, IoctlAction::Waiting(n as i32)),
            None => IoctlAction::Fail(Errno::ENOTTY),
        };
    }
    match &f.path {
        None => IoctlAction::Fail(Errno::ENOTTY),
        Some(p) => {
            if is_rtc_path(p.as_str()) && request & 0xffff == RTC_RD_TIME & 0xffff {
                let now_s: usize = now_ms / 1000;
                proof {
                    years_are_near(1970, now_s as int / 86_400);
                    assert(now_s <= 18_446_744_073_709_551);
                    assert(now_s as int / 86_400 / 365 <= 600_000_000);
                }
                return answer(out, IoctlAction::Time(rtc_time_from_unix(now_s)));
            }
            if f.loop_device {
                IoctlAction::Device
            } else {
                IoctlAction::Fail(Errno::ENOTTY)
            }
        },
    }
}

/// A terminal tells its size, a pipe what waits in it and the clock device the date; each
/// request goes to its own kind of device and is refused elsewhere.
pub proof fn requests_go_to_their_device(
    f: IoctlFile,
    request: usize,
    out: UserOut,
    now_ms: usize,
    r: IoctlAction,
)
    requires
        ioctl_done(Ok(f), request, out, now_ms, r),
    ensures
        request == 0x5413 && f.tty
            && out == UserOut::Writable ==> (r matches IoctlAction::WinSize(w)
            && w.row == 24 && w.col == 80),
        request == 0x541b && f.pipe is None ==> r == IoctlAction::Fail(Errno::ENOTTY),
        request == 0x541b && out == UserOut::Writable ==> (f.pipe matches Some(n) ==> r
            == IoctlAction::Waiting(n as i32)),
        request != 0x5413 && request != 0x541b && f.path is None ==> r == IoctlAction::Fail(
            Errno::ENOTTY,
        ),
        r is WinSize ==> f.tty && request == 0x5413,
        r is Waiting ==> f.pipe is Some && request == 0x541b,
        r matches IoctlAction::Time(t) ==> is_rtc(f) && out == UserOut::Writable && (
        days_to_year(t.tm_year + 1900) + t.tm_yday) * 86_400 + t.tm_hour * 3600 + t.tm_min * 60
            + t.tm_sec == now_ms / 1000,
        r is Device ==> f.loop_device && f.path is Some,
        out != UserOut::Writable && (request == 0x5413 && f.tty || request == 0x541b
            && f.pipe is Some) ==> r == IoctlAction::Fail(Errno::EFAULT),
{
}

/// A leap year comes every four years but for centuries that four hundred does not divide; it
/// has one day more, in its second month.
pub proof fn leap_years_have_a_day_more(year: int)
    requires
        year >= 0,
    ensures
        leap(year) == (year % 4 == 0) || (year % 100 == 0 && !leap(year) && year % 400 != 0),
        year % 400 == 0 ==> leap(year),
        leap(year) ==> year % 4 == 0,
        days_to_month(leap(year), 12) == year_days(year),
        year_days(year) == 365 + (if leap(year) {
            1int
        } else {
            0
        }),
        month_days(leap(year), 1) == year_days(year) - 337,
        days_to_year(1970) == 0,
        year >= 1970 ==> days_to_year(year + 1) - days_to_year(year) == year_days(year),
{
    reveal_with_fuel(days_to_month, 13);
}

/// The year of a day is the one that begins on or before it and whose days reach past it.
pub proof fn years_hold_their_days(secs: int)
    requires
        secs >= 0,
    ensures
        unix_year(secs) >= 1970,
        days_to_year(unix_year(secs)) <= secs / 86_400 < days_to_year(unix_year(secs)) + year_days(
            unix_year(secs),
        ),
{
    years_hold_days_from(1970, secs / 86_400);
}

proof fn years_hold_days_from(year: int, day: int)
    requires
        year >= 1970,
        day >= 0,
    ensures
        year_at(year, day) >= year,
        days_to_year(year_at(year, day)) <= days_to_year(year) + day < days_to_year(
            year_at(year, day),
        ) + year_days(year_at(year, day)),
    decreases day,
{
    if day >= year_days(year) {
        years_hold_days_from(year + 1, day - year_days(year));
        assert(days_to_year(year + 1) == days_to_year(year) + year_days(year));
    }
}

} // verus!
