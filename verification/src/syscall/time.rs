//! Clocks, interval timers and clock adjustment.

use crate::errno::{err, ok, Errno, SysResult};
use crate::timer::{
    duration_us, spec_of_us, timespec_from_us, valid_duration, TimeSpec,
};
use crate::user::{failed, read_result, silent, write_reply, Reply, UserIn, UserOut};
use vstd::prelude::*;

verus! {

pub const CLOCK_REALTIME: usize = 0;

pub const CLOCK_MONOTONIC: usize = 1;

pub const CLOCK_PROCESS_CPUTIME_ID: usize = 2;

pub const CLOCK_THREAD_CPUTIME_ID: usize = 3;

pub const CLOCK_MONOTONIC_RAW: usize = 4;

pub const CLOCK_REALTIME_COARSE: usize = 5;

pub const CLOCK_MONOTONIC_COARSE: usize = 6;

pub const CLOCK_BOOTTIME: usize = 7;

/// Seconds and microseconds.
#[derive(Debug, Clone, Copy, PartialEq, Eq, Structural)]
pub struct TimeVal {
    pub sec: usize,
    pub usec: usize,
}

/// A time zone; the system's is always UTC.
#[derive(Debug, Clone, Copy, PartialEq, Eq, Structural)]
pub struct TimeZone {
    pub minuteswest: i32,
    pub dsttime: i32,
}

/// Period and remaining time of an interval timer.
#[derive(Debug, Clone, Copy, PartialEq, Eq, Structural)]
pub struct ITimerVal {
    pub interval: TimeVal,
    pub value: TimeVal,
}

/// Processor time of a process and of its children, in ticks.
#[derive(Debug, Clone, Copy, PartialEq, Eq, Structural)]
pub struct Tms {
    pub tms_utime: usize,
    pub tms_stime: usize,
    pub tms_cutime: usize,
    pub tms_cstime: usize,
}

/// Period and remaining time with nanoseconds.
#[derive(Debug, Clone, Copy, PartialEq, Eq, Structural)]
pub struct ITimerSpec {
    pub interval: TimeSpec,
    pub value: TimeSpec,
}

/// How a timer tells that it has expired.
#[derive(Debug, Clone, Copy, PartialEq, Eq, Structural)]
pub struct SigEvent {
    pub value: usize,
    pub signo: i32,
    pub notify: i32,
}

/// What the clocks show now.
#[derive(Debug, Clone, Copy, PartialEq, Eq, Structural)]
pub struct Clocks {
    /// Time since the start.
    pub monotonic_us: usize,
    /// Real time minus time since the start.
    pub realtime_offset_us: isize,
    /// Processor time of the calling process, if there is one.
    pub process_cpu_us: Option<usize>,
    /// Processor time of the calling thread, if there is one.
    pub thread_cpu_us: Option<usize>,
}

/// A value cut to the signed range.
pub open spec fn cut(v: int) -> isize {
    if v > isize::MAX {
        isize::MAX
    } else if v < isize::MIN {
        isize::MIN
    } else {
        v as isize
    }
}

fn saturating_sum(a: isize, b: isize) -> (r: isize)
    ensures
        r == cut(a + b),
{
    match a.checked_add(b) {
        Some(v) => v,
        None => if b > 0 {
            isize::MAX
        } else {
            isize::MIN
        },
    }
}

fn saturating_difference(a: isize, b: isize) -> (r: isize)
    ensures
        r == cut(a - b),
{
    match a.checked_sub(b) {
        Some(v) => v,
        None => if b < 0 {
            isize::MAX
        } else {
            isize::MIN
        },
    }
}

/// Real time; never before the epoch.
pub open spec fn realtime_of(c: Clocks) -> usize {
    let t = cut(c.monotonic_us as isize + c.realtime_offset_us);
    if t < 0 {
        0
    } else {
        t as usize
    }
}

/// What a clock shows, in microseconds.
pub open spec fn clock_us(c: Clocks, clock_id: usize) -> SysResult<usize> {
    if clock_id == CLOCK_REALTIME {
        Ok(realtime_of(c))
    } else if clock_id == CLOCK_MONOTONIC || clock_id == CLOCK_MONOTONIC_RAW || clock_id
        == CLOCK_BOOTTIME {
        Ok(c.monotonic_us)
    } else if clock_id == CLOCK_PROCESS_CPUTIME_ID {
        match c.process_cpu_us {
            Some(t) => Ok(t),
            None => Err(Errno::ESRCH),
        }
    } else if clock_id == CLOCK_THREAD_CPUTIME_ID {
        match c.thread_cpu_us {
            Some(t) => Ok(t),
            None => Err(Errno::ESRCH),
        }
    } else if clock_id == CLOCK_REALTIME_COARSE {
        Ok((realtime_of(c) / 1000 * 1000) as usize)
    } else if clock_id == CLOCK_MONOTONIC_COARSE {
        Ok((c.monotonic_us / 1000 * 1000) as usize)
    } else {
        Err(Errno::EINVAL)
    }
}

fn realtime_us(c: &Clocks) -> (r: usize)
    ensures
        r == realtime_of(*c),
{
    let t: isize = saturating_sum(c.monotonic_us as isize, c.realtime_offset_us);
    if t < 0 {
        0
    } else {
        t as usize
    }
}

/// What a clock shows, in microseconds.
pub fn clock_time_us(c: &Clocks, clock_id: usize) -> (r: SysResult<usize>)
    ensures
        r == clock_us(*c, clock_id),
{
    if clock_id == CLOCK_REALTIME {
        Ok(realtime_us(c))
    } else if clock_id == CLOCK_MONOTONIC || clock_id == CLOCK_MONOTONIC_RAW || clock_id
        == CLOCK_BOOTTIME {
        Ok(c.monotonic_us)
    } else if clock_id == CLOCK_PROCESS_CPUTIME_ID {
        match c.process_cpu_us {
            Some(t) => Ok(t),
            None => Err(Errno::ESRCH),
        }
    } else if clock_id == CLOCK_THREAD_CPUTIME_ID {
        match c.thread_cpu_us {
            Some(t) => Ok(t),
            None => Err(Errno::ESRCH),
        }
    } else if clock_id == CLOCK_REALTIME_COARSE {
        let t: usize = realtime_us(c);
        Ok(t - t % 1000)
    } else if clock_id == CLOCK_MONOTONIC_COARSE {
        Ok(c.monotonic_us - c.monotonic_us % 1000)
    } else {
        Err(Errno::EINVAL)
    }
}

/// The time of a clock in milliseconds.
pub open spec fn clock_ms(c: Clocks, clock_id: usize) -> SysResult<usize> {
    match clock_us(c, clock_id) {
        Ok(us) => ok((us / 1000) as usize),
        Err(e) => err(e),
    }
}

/// What a clock shows, in milliseconds.
pub fn clock_time_ms(c: &Clocks, clock_id: usize) -> (r: SysResult<usize>)
    ensures
        r == clock_ms(*c, clock_id),
{
    match clock_time_us(c, clock_id) {
        Ok(us) => Ok(us / 1000),
        Err(e) => Err(e),
    }
}

/// Reports processor time. User and system time are not told apart.
pub fn sys_times(elapsed_ticks: usize, child_utime: usize, child_stime: usize, buf: UserOut) -> (r:
    Reply<Tms>)
    ensures
        r == write_reply(
            buf,
            elapsed_ticks,
            Tms {
                tms_utime: elapsed_ticks,
                tms_stime: elapsed_ticks,
                tms_cutime: child_utime,
                tms_cstime: child_stime,
            },
        ),
{
    buf.reply(
        elapsed_ticks,
        Tms {
            tms_utime: elapsed_ticks,
            tms_stime: elapsed_ticks,
            tms_cutime: child_utime,
            tms_cstime: child_stime,
        },
    )
}

/// Seconds and microseconds of a microsecond count.
pub open spec fn val_of_us(us: usize) -> TimeVal {
    TimeVal { sec: us / 1_000_000, usec: us % 1_000_000 }
}

/// The time of day and the time zone as written to user memory.
pub struct TimeOfDay {
    pub ret: SysResult<usize>,
    pub time: Option<TimeVal>,
    pub zone: Option<TimeZone>,
}

/// Whether asking for the time of day comes to `r`.
pub open spec fn day_told(c: Clocks, tv: UserOut, tz: UserOut, r: TimeOfDay) -> bool {
    &&& r.time == (if tv == UserOut::Writable {
        Some(val_of_us(realtime_of(c)))
    } else {
        None
    })
    &&& r.zone == (if tv != UserOut::Fault && tz == UserOut::Writable {
        Some(TimeZone { minuteswest: 0, dsttime: 0 })
    } else {
        None
    })
    &&& r.ret == (if tv == UserOut::Fault || tz == UserOut::Fault {
        err(Errno::EFAULT)
    } else {
        ok(0)
    })
}

/// Reports real time and the time zone, which is UTC.
pub fn sys_gettimeofday(c: &Clocks, tv: UserOut, tz: UserOut) -> (r: TimeOfDay)
    ensures
        day_told(*c, tv, tz, r),
{
    let time = match tv {
        UserOut::Null => None,
        UserOut::Fault => {
            return TimeOfDay { ret: Err(Errno::EFAULT), time: None, zone: None };
        },
        UserOut::Writable => {
            let us: usize = realtime_us(c);
            Some(TimeVal { sec: us / 1_000_000, usec: us % 1_000_000 })
        },
    };
    match tz {
        UserOut::Null => TimeOfDay { ret: Ok(0), time, zone: None },
        UserOut::Fault => TimeOfDay { ret: Err(Errno::EFAULT), time, zone: None },
        UserOut::Writable => TimeOfDay {
            ret: Ok(0),
            time,
            zone: Some(TimeZone { minuteswest: 0, dsttime: 0 }),
        },
    }
}

/// The offset that makes real time show `target_us`.
pub open spec fn offset_for(c: Clocks, target_us: int) -> isize {
    cut(target_us - c.monotonic_us as isize)
}

/// Whether setting the time of day changes the clocks from `before` to `after` and returns `r`.
pub open spec fn day_set(
    before: Clocks,
    after: Clocks,
    cap_sys_time: bool,
    tv: UserIn<TimeVal>,
    tz_null: bool,
    r: SysResult<usize>,
) -> bool {
    match tv {
        UserIn::Null => r == (if !tz_null && !cap_sys_time {
            err(Errno::EPERM)
        } else {
            ok(0)
        }),
        UserIn::Fault => r == err(Errno::EFAULT),
        UserIn::Value(t) => if (t.sec as isize) < 0 || t.usec >= 1_000_000 {
            r == err(Errno::EINVAL)
        } else if !cap_sys_time {
            r == err(Errno::EPERM)
        } else if t.sec * 1_000_000 + t.usec > isize::MAX {
            r == err(Errno::EINVAL)
        } else {
            &&& r == ok(0)
            &&& after == (Clocks {
                realtime_offset_us: offset_for(before, t.sec * 1_000_000 + t.usec),
                ..before
            })
        },
    }
}

/// Sets real time. A time zone alone is accepted from privileged callers and
/// has no effect.
pub fn sys_settimeofday(c: &mut Clocks, cap_sys_time: bool, tv: UserIn<TimeVal>, tz_null: bool) -> (r:
    SysResult<usize>)
    ensures
        r is Err || tv is Null ==> *final(c) == *old(c),
        day_set(*old(c), *final(c), cap_sys_time, tv, tz_null, r),
{
    if tv.is_null() {
        if !tz_null && !cap_sys_time {
            return Err(Errno::EPERM);
        }
        return Ok(0);
    }
    let t = match tv.read() {
        Ok(t) => t,
        Err(e) => {
            return Err(e);
        },
    };
    if (t.sec as isize) < 0 || t.usec >= 1_000_000 {
        return Err(Errno::EINVAL);
    }
    if !cap_sys_time {
        return Err(Errno::EPERM);
    }
    let target: usize = match t.sec.checked_mul(1_000_000) {
        Some(us) => match us.checked_add(t.usec) {
            Some(v) => v,
            None => {
                return Err(Errno::EINVAL);
            },
        },
        None => {
            return Err(Errno::EINVAL);
        },
    };
    if target > isize::MAX as usize {
        return Err(Errno::EINVAL);
    }
    c.realtime_offset_us = saturating_difference(target as isize, c.monotonic_us as isize);
    Ok(0)
}

/// Whether setting a clock changes the clocks from `before` to `after` and returns `r`.
pub open spec fn clock_set(
    before: Clocks,
    after: Clocks,
    cap_sys_time: bool,
    clock_id: usize,
    tp: UserIn<TimeSpec>,
    r: SysResult<usize>,
) -> bool {
    if clock_id != CLOCK_REALTIME {
        r == err(Errno::EINVAL)
    } else {
        match read_result(tp) {
            Err(e) => r == err(e),
            Ok(t) => if !valid_duration(t) {
                r == err(Errno::EINVAL)
            } else if !cap_sys_time {
                r == err(Errno::EPERM)
            } else {
                match duration_us(t) {
                    None => r == err(Errno::EINVAL),
                    Some(us) => if us > isize::MAX {
                        r == err(Errno::EINVAL)
                    } else {
                        &&& r == ok(0)
                        &&& after == (Clocks {
                            realtime_offset_us: offset_for(before, us as int),
                            ..before
                        })
                    },
                }
            },
        }
    }
}

/// Sets real time with nanoseconds; no other clock can be set.
pub fn sys_clock_settime(c: &mut Clocks, cap_sys_time: bool, clock_id: usize, tp: UserIn<TimeSpec>) -> (r:
    SysResult<usize>)
    ensures
        r is Err ==> *final(c) == *old(c),
        clock_set(*old(c), *final(c), cap_sys_time, clock_id, tp, r),
{
    if clock_id != CLOCK_REALTIME {
        return Err(Errno::EINVAL);
    }
    let t = match tp.read() {
        Ok(t) => t,
        Err(e) => {
            return Err(e);
        },
    };
    if !t.is_valid_duration() {
        return Err(Errno::EINVAL);
    }
    if !cap_sys_time {
        return Err(Errno::EPERM);
    }
    let us: usize = match t.checked_duration_us() {
        Some(us) => us,
        None => {
            return Err(Errno::EINVAL);
        },
    };
    if us > isize::MAX as usize {
        return Err(Errno::EINVAL);
    }
    c.realtime_offset_us = saturating_difference(us as isize, c.monotonic_us as isize);
    Ok(0)
}

/// Real time shows what it was set to, as long as the time since the start has
/// not passed the signed range.
pub proof fn set_time_is_shown(c: Clocks, target_us: isize)
    requires
        0 <= target_us,
        c.monotonic_us <= isize::MAX,
    ensures
        realtime_of(Clocks { realtime_offset_us: offset_for(c, target_us as int), ..c })
            == target_us,
{
}

/// What reading a clock returns.
pub open spec fn clock_reply(c: Clocks, clock_id: usize, tp: UserOut) -> Reply<TimeSpec> {
    match clock_us(c, clock_id) {
        Err(e) => failed::<TimeSpec>(e),
        Ok(us) => write_reply(tp, 0, spec_of_us(us)),
    }
}

/// Reports a clock.
pub fn sys_clock_gettime(c: &Clocks, clock_id: usize, tp: UserOut) -> (r: Reply<TimeSpec>)
    ensures
        r == clock_reply(*c, clock_id, tp),
{
    match clock_time_us(c, clock_id) {
        Err(e) => Reply::fail(e),
        Ok(us) => tp.reply(0, timespec_from_us(us)),
    }
}

/// The clocks that exist.
pub open spec fn readable_clock(clock_id: usize) -> bool {
    clock_id <= CLOCK_BOOTTIME
}

/// What asking for a clock's resolution returns.
pub open spec fn resolution_reply(clock_id: usize, res: UserOut) -> Reply<TimeSpec> {
    if !readable_clock(clock_id) {
        failed::<TimeSpec>(Errno::EINVAL)
    } else if res == UserOut::Null {
        silent::<TimeSpec>(0)
    } else {
        write_reply(
            res,
            0,
            TimeSpec {
                sec: 0,
                nsec: if clock_id == CLOCK_REALTIME_COARSE || clock_id
                    == CLOCK_MONOTONIC_COARSE {
                    1_000_000
                } else {
                    1_000
                },
            },
        )
    }
}

/// Reports the resolution of a clock: 1 ms for coarse clocks, else 1 us.
pub fn sys_clock_getres(clock_id: usize, res: UserOut) -> (r: Reply<TimeSpec>)
    ensures
        r == resolution_reply(clock_id, res),
{
    if clock_id > CLOCK_BOOTTIME {
        return Reply::fail(Errno::EINVAL);
    }
    match res {
        UserOut::Null => Reply::done(0),
        _ => {
            let nsec: isize = if clock_id == CLOCK_REALTIME_COARSE || clock_id
                == CLOCK_MONOTONIC_COARSE {
                1_000_000
            } else {
                1_000
            };
            res.reply(0, TimeSpec { sec: 0, nsec })
        },
    }
}

/// Exactly the clocks that can be read have a resolution, given a caller.
pub proof fn readable_clocks_have_a_time(c: Clocks, clock_id: usize)
    requires
        c.process_cpu_us is Some,
        c.thread_cpu_us is Some,
    ensures
        readable_clock(clock_id) <==> clock_us(c, clock_id) is Ok,
{
}

/// State of the clock adjustment.
#[derive(Debug, Clone, Copy, PartialEq, Eq, Structural)]
pub struct Timex {
    pub modes: u32,
    pub offset: isize,
    pub freq: isize,
    pub maxerror: isize,
    pub esterror: isize,
    pub status: i32,
    pub constant: isize,
    pub precision: isize,
    pub tolerance: isize,
    pub time: TimeVal,
    pub tick: isize,
    pub ppsfreq: isize,
    pub jitter: isize,
    pub shift: i32,
    pub stabil: isize,
    pub jitcnt: isize,
    pub calcnt: isize,
    pub errcnt: isize,
    pub stbcnt: isize,
    pub tai: i32,
}

pub const ADJ_OFFSET: u32 = 0x0001;

pub const ADJ_FREQUENCY: u32 = 0x0002;

pub const ADJ_MAXERROR: u32 = 0x0004;

pub const ADJ_ESTERROR: u32 = 0x0008;

pub const ADJ_STATUS: u32 = 0x0010;

pub const ADJ_TIMECONST: u32 = 0x0020;

pub const ADJ_TAI: u32 = 0x0080;

pub const ADJ_TICK: u32 = 0x4000;

impl Timex {
    /// The state after the start.
    pub fn initial() -> (r: Self)
        ensures
            r == initial_timex(),
    {
        Timex {
            modes: 0,
            offset: 0,
            freq: 0,
            maxerror: 0,
            esterror: 0,
            status: 0,
            constant: 0,
            precision: 1,
            tolerance: 32_768_000,
            time: TimeVal { sec: 0, usec: 0 },
            tick: 10_000,
            ppsfreq: 0,
            jitter: 0,
            shift: 0,
            stabil: 0,
            jitcnt: 0,
            calcnt: 0,
            errcnt: 0,
            stbcnt: 0,
            tai: 0,
        }
    }
}

/// The state after the start.
pub open spec fn initial_timex() -> Timex {
    Timex {
        modes: 0,
        offset: 0,
        freq: 0,
        maxerror: 0,
        esterror: 0,
        status: 0,
        constant: 0,
        precision: 1,
        tolerance: 32_768_000,
        time: TimeVal { sec: 0, usec: 0 },
        tick: 10_000,
        ppsfreq: 0,
        jitter: 0,
        shift: 0,
        stabil: 0,
        jitcnt: 0,
        calcnt: 0,
        errcnt: 0,
        stbcnt: 0,
        tai: 0,
    }
}

/// A tick length is within ten percent of the nominal one.
pub open spec fn tick_in_range(t: Timex) -> bool {
    t.modes & ADJ_TICK != 0 ==> 9_000 <= t.tick <= 11_000
}

/// The state after an adjustment: the fields that the modes name are taken
/// over, and the time is refreshed.
pub open spec fn adjusted(s: Timex, n: Timex, real_us: usize) -> Timex {
    Timex {
        modes: n.modes,
        offset: if n.modes & ADJ_OFFSET != 0 {
            n.offset
        } else {
            s.offset
        },
        freq: if n.modes & ADJ_FREQUENCY != 0 {
            n.freq
        } else {
            s.freq
        },
        maxerror: if n.modes & ADJ_MAXERROR != 0 {
            n.maxerror
        } else {
            s.maxerror
        },
        esterror: if n.modes & ADJ_ESTERROR != 0 {
            n.esterror
        } else {
            s.esterror
        },
        status: if n.modes & ADJ_STATUS != 0 {
            n.status
        } else {
            s.status
        },
        constant: if n.modes & ADJ_TIMECONST != 0 {
            n.constant
        } else {
            s.constant
        },
        tai: if n.modes & ADJ_TAI != 0 {
            n.tai
        } else {
            s.tai
        },
        tick: if n.modes & ADJ_TICK != 0 {
            n.tick
        } else {
            s.tick
        },
        time: val_of_us(real_us),
        ..s
    }
}

fn apply_timex_update(state: &mut Timex, n: &Timex, real_us: usize)
    ensures
        *final(state) == adjusted(*old(state), *n, real_us),
{
    let modes: u32 = n.modes;
    if modes & ADJ_OFFSET != 0 {
        state.offset = n.offset;
    }
    if modes & ADJ_FREQUENCY != 0 {
        state.freq = n.freq;
    }
    if modes & ADJ_MAXERROR != 0 {
        state.maxerror = n.maxerror;
    }
    if modes & ADJ_ESTERROR != 0 {
        state.esterror = n.esterror;
    }
    if modes & ADJ_STATUS != 0 {
        state.status = n.status;
    }
    if modes & ADJ_TIMECONST != 0 {
        state.constant = n.constant;
    }
    if modes & ADJ_TAI != 0 {
        state.tai = n.tai;
    }
    if modes & ADJ_TICK != 0 {
        state.tick = n.tick;
    }
    state.modes = modes;
    state.time = TimeVal { sec: real_us / 1_000_000, usec: real_us % 1_000_000 };
}

/// What an adjustment returns and does. An accepted adjustment stays in effect
/// even if its report cannot be written.
pub open spec fn adjtimex_outcome(
    before: Timex,
    after: Timex,
    c: Clocks,
    euid: usize,
    wish: UserIn<Timex>,
    buf: UserOut,
    r: Reply<Timex>,
) -> bool {
    match read_result(wish) {
        Err(e) => r == failed::<Timex>(e) && after == before,
        Ok(n) => if n.modes != 0 && euid != 0 {
            r == failed::<Timex>(Errno::EPERM) && after == before
        } else if !tick_in_range(n) {
            r == failed::<Timex>(Errno::EINVAL) && after == before
        } else {
            &&& after == adjusted(before, n, realtime_of(c))
            &&& r == write_reply(buf, 0, after)
        },
    }
}

/// Queries and changes the clock adjustment.
pub fn sys_adjtimex(state: &mut Timex, c: &Clocks, euid: usize, wish: UserIn<Timex>, buf: UserOut) -> (r:
    Reply<Timex>)
    ensures
        adjtimex_outcome(*old(state), *final(state), *c, euid, wish, buf, r),
{
    let n = match wish.read() {
        Ok(n) => n,
        Err(e) => {
            return Reply::fail(e);
        },
    };
    if n.modes != 0 && euid != 0 {
        return Reply::fail(Errno::EPERM);
    }
    if n.modes & ADJ_TICK != 0 {
        if n.tick < 9_000 || n.tick > 11_000 {
            return Reply::fail(Errno::EINVAL);
        }
    }
    let now: usize = realtime_us(c);
    apply_timex_update(state, &n, now);
    buf.reply(0, *state)
}

/// Queries and changes the adjustment of the real-time clock; no other clock
/// can be adjusted.
pub fn sys_clock_adjtime(
    state: &mut Timex,
    c: &Clocks,
    euid: usize,
    clock_id: usize,
    wish: UserIn<Timex>,
    buf: UserOut,
) -> (r: Reply<Timex>)
    ensures
        clock_id != CLOCK_REALTIME ==> r == failed::<Timex>(Errno::EINVAL) && *final(state) == *old(
            state,
        ),
        clock_id == CLOCK_REALTIME ==> adjtimex_outcome(
            *old(state),
            *final(state),
            *c,
            euid,
            wish,
            buf,
            r,
        ),
{
    if clock_id != CLOCK_REALTIME {
        return Reply::fail(Errno::EINVAL);
    }
    sys_adjtimex(state, c, euid, wish, buf)
}

/// A query without modes changes nothing but the reported time.
pub proof fn plain_query_keeps_the_adjustment(s: Timex, n: Timex, real_us: usize)
    requires
        n.modes == 0,
    ensures
        adjusted(s, n, real_us) == (Timex { modes: 0, time: val_of_us(real_us), ..s }),
{
    let m = n.modes;
    assert(m & 0x0001 == 0 && m & 0x0002 == 0 && m & 0x0004 == 0 && m & 0x0008 == 0 && m & 0x0010
        == 0 && m & 0x0020 == 0 && m & 0x0080 == 0 && m & 0x4000 == 0) by (bit_vector)
        requires
            m == 0,
    ;
}

/// The milliseconds of a time value, rounded up.
pub open spec fn val_ms(t: TimeVal) -> SysResult<usize> {
    if t.usec >= 1_000_000 || t.sec * 1000 + (t.usec + 999) / 1000 > usize::MAX {
        Err(Errno::EINVAL)
    } else {
        Ok((t.sec * 1000 + (t.usec + 999) / 1000) as usize)
    }
}

/// The time value of a millisecond count.
pub open spec fn val_of_ms(ms: usize) -> TimeVal {
    TimeVal { sec: ms / 1000, usec: ((ms % 1000) * 1000) as usize }
}

fn timeval_to_ms(t: &TimeVal) -> (r: SysResult<usize>)
    ensures
        r == val_ms(*t),
{
    if t.usec >= 1_000_000 {
        return Err(Errno::EINVAL);
    }
    let sub: usize = (t.usec + 999) / 1000;
    match t.sec.checked_mul(1000) {
        Some(ms) => match ms.checked_add(sub) {
            Some(v) => Ok(v),
            None => Err(Errno::EINVAL),
        },
        None => Err(Errno::EINVAL),
    }
}

fn ms_to_timeval(ms: usize) -> (r: TimeVal)
    ensures
        r == val_of_ms(ms),
{
    TimeVal { sec: ms / 1000, usec: (ms % 1000) * 1000 }
}

/// A millisecond count survives the conversion to a time value and back.
pub proof fn timeval_round_trip(ms: usize)
    ensures
        val_ms(val_of_ms(ms)) == ok(ms),
{
    assert((val_of_ms(ms).usec + 999) / 1000 == ms % 1000);
}

/// Period and remaining time of one interval timer, in milliseconds.
#[derive(Debug, Clone, Copy, PartialEq, Eq, Structural)]
pub struct ITimer {
    pub interval_ms: usize,
    pub remaining_ms: usize,
}

/// What is reported of an interval timer.
pub open spec fn itimer_report(t: ITimer) -> ITimerVal {
    ITimerVal { interval: val_of_ms(t.interval_ms), value: val_of_ms(t.remaining_ms) }
}

/// What reading an interval timer returns.
pub open spec fn itimer_reply(
    timers: Seq<ITimer>,
    which: usize,
    curr_value: UserOut,
) -> Reply<ITimerVal> {
    if which > 2 {
        failed::<ITimerVal>(Errno::EINVAL)
    } else {
        write_reply(curr_value, 0, itimer_report(timers[which as int]))
    }
}

/// Reports one of the three interval timers.
pub fn sys_getitimer(timers: &[ITimer; 3], which: usize, curr_value: UserOut) -> (r: Reply<ITimerVal>)
    ensures
        r == itimer_reply(timers@, which, curr_value),
{
    if which > 2 {
        return Reply::fail(Errno::EINVAL);
    }
    let t = timers[which];
    curr_value.reply(
        0,
        ITimerVal {
            interval: ms_to_timeval(t.interval_ms),
            value: ms_to_timeval(t.remaining_ms),
        },
    )
}

/// What a new setting of an interval timer comes to.
pub open spec fn itimer_wish(new_value: UserIn<ITimerVal>) -> SysResult<ITimer> {
    match read_result(new_value) {
        Err(e) => Err(e),
        Ok(v) => match val_ms(v.value) {
            Err(e) => Err(e),
            Ok(value) => match val_ms(v.interval) {
                Err(e) => Err(e),
                Ok(interval) => Ok(ITimer { interval_ms: interval, remaining_ms: value }),
            },
        },
    }
}

/// Whether setting an interval timer goes from `before` to `after` and returns `r`.
pub open spec fn itimer_set(
    before: Seq<ITimer>,
    after: Seq<ITimer>,
    which: usize,
    new_value: UserIn<ITimerVal>,
    old_value: UserOut,
    r: Reply<ITimerVal>,
) -> bool {
    which <= 2 && old_value != UserOut::Fault ==> {
        &&& r.out == (if old_value == UserOut::Writable {
            Some(itimer_report(before[which as int]))
        } else {
            None
        })
        &&& match itimer_wish(new_value) {
            Err(e) => r.ret == err(e) && after == before,
            Ok(t) => r.ret == ok(0) && after == before.update(which as int, t),
        }
    }
}

/// Sets one of the three interval timers. The old setting is reported first; a
/// failing call sets nothing.
pub fn sys_setitimer(
    timers: &mut [ITimer; 3],
    which: usize,
    new_value: UserIn<ITimerVal>,
    old_value: UserOut,
) -> (r: Reply<ITimerVal>)
    ensures
        which > 2 ==> r == failed::<ITimerVal>(Errno::EINVAL) && final(timers)@ == old(timers)@,
        which <= 2 && old_value == UserOut::Fault ==> r == failed::<ITimerVal>(Errno::EFAULT)
            && final(timers)@ == old(timers)@,
        itimer_set(old(timers)@, final(timers)@, which, new_value, old_value, r),
{
    if which > 2 {
        return Reply::fail(Errno::EINVAL);
    }
    let t = timers[which];
    let out = match old_value {
        UserOut::Null => None,
        UserOut::Fault => {
            return Reply::fail(Errno::EFAULT);
        },
        UserOut::Writable => Some(
            ITimerVal {
                interval: ms_to_timeval(t.interval_ms),
                value: ms_to_timeval(t.remaining_ms),
            },
        ),
    };
    let v = match new_value.read() {
        Ok(v) => v,
        Err(e) => {
            return Reply { ret: Err(e), out };
        },
    };
    let value: usize = match timeval_to_ms(&v.value) {
        Ok(n) => n,
        Err(e) => {
            return Reply { ret: Err(e), out };
        },
    };
    let interval: usize = match timeval_to_ms(&v.interval) {
        Ok(n) => n,
        Err(e) => {
            return Reply { ret: Err(e), out };
        },
    };
    timers[which] = ITimer { interval_ms: interval, remaining_ms: value };
    Reply { ret: Ok(0), out }
}

/// The monotonic clocks show the time since the start, the real-time clock shows it moved by
/// the offset, each CPU clock its own time, and the coarse clocks are whole milliseconds not
/// after the fine ones. Every other clock is unknown.
pub proof fn clocks_show_their_own_time(c: Clocks)
    requires
        c.monotonic_us <= isize::MAX,
    ensures
        clock_us(c, 1) == ok(c.monotonic_us),
        clock_us(c, 4) == ok(c.monotonic_us),
        clock_us(c, 7) == ok(c.monotonic_us),
        0 <= c.monotonic_us + c.realtime_offset_us <= isize::MAX ==> clock_us(c, 0) == ok(
            (c.monotonic_us + c.realtime_offset_us) as usize,
        ),
        c.monotonic_us + c.realtime_offset_us < 0 ==> clock_us(c, 0) == ok(0),
        clock_us(c, 2) == (match c.process_cpu_us {
            Some(t) => ok(t),
            None => err(Errno::ESRCH),
        }),
        clock_us(c, 3) == (match c.thread_cpu_us {
            Some(t) => ok(t),
            None => err(Errno::ESRCH),
        }),
        clock_us(c, 5) is Ok && clock_us(c, 5)->Ok_0 % 1000 == 0 && clock_us(c, 5)->Ok_0
            <= clock_us(c, 0)->Ok_0 < clock_us(c, 5)->Ok_0 + 1000,
        clock_us(c, 6) is Ok && clock_us(c, 6)->Ok_0 % 1000 == 0 && clock_us(c, 6)->Ok_0
            <= c.monotonic_us < clock_us(c, 6)->Ok_0 + 1000,
        forall|id: usize| id > 7 ==> #[trigger] clock_us(c, id) == err(Errno::EINVAL),
{
}

/// Reading a clock writes its time: the seconds and the nanoseconds written make up the
/// microseconds that the clock shows.
pub proof fn clock_readings_make_up_the_time(c: Clocks, clock_id: usize, tp: UserOut)
    ensures
        clock_reply(c, clock_id, tp).out matches Some(t) ==> {
            &&& clock_us(c, clock_id) is Ok
            &&& (clock_us(c, clock_id)->Ok_0 <= isize::MAX ==> t.sec * 1_000_000 + t.nsec / 1000
                == clock_us(c, clock_id)->Ok_0 && 0 <= t.nsec < 1_000_000_000 && t.nsec % 1000
                == 0)
            &&& clock_reply(c, clock_id, tp).ret == ok(0)
        },
        (clock_reply(c, clock_id, tp).out is Some) == (tp == UserOut::Writable && clock_us(
            c,
            clock_id,
        ) is Ok),
        clock_us(c, clock_id) matches Err(e) ==> clock_reply(c, clock_id, tp).ret == err(e),
        clock_us(c, clock_id) is Ok && tp != UserOut::Writable ==> clock_reply(c, clock_id, tp).ret
            == err(Errno::EFAULT),
        clock_us(c, clock_id) matches Ok(us) ==> clock_ms(c, clock_id) is Ok && clock_ms(
            c,
            clock_id,
        )->Ok_0 * 1000 <= us < clock_ms(c, clock_id)->Ok_0 * 1000 + 1000,
        clock_us(c, clock_id) matches Err(e) ==> clock_ms(c, clock_id) == err(e),
{
}

/// The coarse clocks tick every millisecond, the other six every microsecond.
pub proof fn coarse_clocks_tick_slower(clock_id: usize)
    ensures
        clock_id > 7 ==> forall|o: UserOut|
            #[trigger] resolution_reply(clock_id, o) == failed::<TimeSpec>(Errno::EINVAL),
        clock_id <= 7 ==> (resolution_reply(clock_id, UserOut::Writable).out matches Some(t)
            && t.sec == 0 && t.nsec == (if clock_id == 5 || clock_id == 6 {
            1_000_000int
        } else {
            1_000int
        })),
        clock_id <= 7 ==> resolution_reply(clock_id, UserOut::Writable).ret == ok(0),
        clock_id <= 7 ==> resolution_reply(clock_id, UserOut::Null) == silent::<TimeSpec>(0),
        clock_id <= 7 ==> resolution_reply(clock_id, UserOut::Fault).ret == err(Errno::EFAULT),
{
}

/// After the time of day was set, the real-time clock shows the time given to the microsecond,
/// and no other clock has changed.
pub proof fn a_set_day_is_shown(
    before: Clocks,
    after: Clocks,
    t: TimeVal,
    tz_null: bool,
    r: SysResult<usize>,
)
    requires
        day_set(before, after, true, UserIn::Value(t), tz_null, r),
        before.monotonic_us <= isize::MAX,
        t.usec < 1_000_000,
        t.sec <= isize::MAX,
        t.sec * 1_000_000 + t.usec <= isize::MAX,
    ensures
        r == ok(0),
        clock_us(after, 0) == ok((t.sec * 1_000_000 + t.usec) as usize),
        clock_us(after, 1) == clock_us(before, 1),
        clock_us(after, 2) == clock_us(before, 2),
        clock_us(after, 3) == clock_us(before, 3),
{
}

/// Setting the time of day needs the right to do so, and a fraction under a second.
pub proof fn only_the_entitled_set_the_day(
    before: Clocks,
    after: Clocks,
    t: TimeVal,
    tz_null: bool,
    r: SysResult<usize>,
)
    requires
        day_set(before, after, false, UserIn::Value(t), tz_null, r),
        t.sec <= isize::MAX,
    ensures
        t.usec >= 1_000_000 ==> r == err(Errno::EINVAL),
        t.usec < 1_000_000 ==> r == err(Errno::EPERM),
{
}

/// After the real-time clock was set, it shows the time given, rounded up to a microsecond.
/// No other clock can be set, and only who is entitled sets this one.
pub proof fn a_set_clock_is_shown(
    before: Clocks,
    after: Clocks,
    entitled: bool,
    clock_id: usize,
    t: TimeSpec,
    r: SysResult<usize>,
)
    requires
        clock_set(before, after, entitled, clock_id, UserIn::Value(t), r),
        before.monotonic_us <= isize::MAX,
    ensures
        clock_id != 0 ==> r == err(Errno::EINVAL),
        clock_id == 0 && (t.sec < 0 || t.nsec < 0 || t.nsec >= 1_000_000_000) ==> r == err(
            Errno::EINVAL,
        ),
        clock_id == 0 && t.sec >= 0 && 0 <= t.nsec < 1_000_000_000 && !entitled ==> r == err(
            Errno::EPERM,
        ),
        clock_id == 0 && t.sec >= 0 && 0 <= t.nsec < 1_000_000_000 && entitled && t.sec * 1_000_000
            + (t.nsec + 999) / 1000 <= isize::MAX ==> r == ok(0) && clock_us(after, 0) == ok(
            (t.sec * 1_000_000 + (t.nsec + 999) / 1000) as usize,
        ) && after.monotonic_us == before.monotonic_us,
{
}

/// An adjustment takes over the values whose bits are set in its mode word and no others.
pub proof fn adjustments_are_selected_by_mode(s: Timex, n: Timex, real_us: usize)
    ensures
        adjusted(s, n, real_us).offset == (if n.modes & 1 != 0 {
            n.offset
        } else {
            s.offset
        }),
        adjusted(s, n, real_us).freq == (if n.modes & 2 != 0 {
            n.freq
        } else {
            s.freq
        }),
        adjusted(s, n, real_us).maxerror == (if n.modes & 4 != 0 {
            n.maxerror
        } else {
            s.maxerror
        }),
        adjusted(s, n, real_us).esterror == (if n.modes & 8 != 0 {
            n.esterror
        } else {
            s.esterror
        }),
        adjusted(s, n, real_us).status == (if n.modes & 0x10 != 0 {
            n.status
        } else {
            s.status
        }),
        adjusted(s, n, real_us).constant == (if n.modes & 0x20 != 0 {
            n.constant
        } else {
            s.constant
        }),
        adjusted(s, n, real_us).tai == (if n.modes & 0x80 != 0 {
            n.tai
        } else {
            s.tai
        }),
        adjusted(s, n, real_us).tick == (if n.modes & 0x4000 != 0 {
            n.tick
        } else {
            s.tick
        }),
        adjusted(s, n, real_us).time.sec * 1_000_000 + adjusted(s, n, real_us).time.usec == real_us,
        adjusted(s, n, real_us).time.usec < 1_000_000,
        adjusted(s, n, real_us).precision == s.precision && adjusted(s, n, real_us).tolerance
            == s.tolerance,
{
}

/// Adjusting anything takes the superuser, and a tick is within a tenth of its usual length.
pub proof fn adjustments_are_limited(
    before: Timex,
    after: Timex,
    c: Clocks,
    euid: usize,
    n: Timex,
    r: Reply<Timex>,
)
    requires
        adjtimex_outcome(before, after, c, euid, UserIn::Value(n), UserOut::Writable, r),
    ensures
        n.modes != 0 && euid != 0 ==> r.ret == err(Errno::EPERM) && after == before,
        (n.modes == 0 || euid == 0) && n.modes & 0x4000 != 0 && (n.tick < 9_000 || n.tick > 11_000)
            ==> r.ret == err(Errno::EINVAL) && after == before,
        (n.modes == 0 || euid == 0) && (n.modes & 0x4000 == 0 || 9_000 <= n.tick <= 11_000)
            ==> r.ret == ok(0) && r.out == Some(after) && after.time == val_of_us(realtime_of(c)),
{
}

/// A duration in microseconds becomes the least number of milliseconds that is not shorter.
pub proof fn timer_values_round_up(t: TimeVal)
    ensures
        t.usec >= 1_000_000 ==> val_ms(t) == err(Errno::EINVAL),
        t.usec < 1_000_000 && t.sec * 1000 + 1000 <= usize::MAX ==> val_ms(t) is Ok,
        val_ms(t) matches Ok(ms) ==> ms * 1000 >= t.sec * 1_000_000 + t.usec && (ms - 1) * 1000
            < t.sec * 1_000_000 + t.usec,
{
}

/// A timer's value and its period are each what was asked for, and what a reading shows is
/// again value and period of that timer.
pub proof fn interval_timers_keep_value_and_period(v: ITimerVal, timers: Seq<ITimer>, which: usize)
    requires
        timers.len() == 3,
    ensures
        itimer_wish(UserIn::Value(v)) matches Ok(t) ==> t.remaining_ms * 1000 >= v.value.sec
            * 1_000_000 + v.value.usec && (t.remaining_ms - 1) * 1000 < v.value.sec * 1_000_000
            + v.value.usec && t.interval_ms * 1000 >= v.interval.sec * 1_000_000 + v.interval.usec
            && (t.interval_ms - 1) * 1000 < v.interval.sec * 1_000_000 + v.interval.usec,
        which < 3 ==> (itimer_reply(timers, which, UserOut::Writable).out matches Some(shown)
            && shown.value.sec * 1000 + shown.value.usec / 1000
            == timers[which as int].remaining_ms && shown.interval.sec * 1000 + shown.interval.usec
            / 1000 == timers[which as int].interval_ms && shown.value.usec < 1_000_000
            && shown.interval.usec < 1_000_000),
        which >= 3 ==> forall|o: UserOut|
            #[trigger] itimer_reply(timers, which, o) == failed::<ITimerVal>(Errno::EINVAL),
{
}

/// The time of day is that of the real-time clock, and the zone is none; each goes to its own
/// place, and an unwritable time leaves the zone unwritten.
pub proof fn the_day_told_is_the_real_time(c: Clocks, tv: UserOut, tz: UserOut, r: TimeOfDay)
    requires
        day_told(c, tv, tz, r),
    ensures
        r.time matches Some(t) ==> t.sec * 1_000_000 + t.usec == realtime_of(c)
            && t.usec < 1_000_000,
        (r.time is Some) == (tv == UserOut::Writable),
        (r.zone is Some) == (tz == UserOut::Writable && tv != UserOut::Fault),
        r.zone matches Some(z) ==> z.minuteswest == 0 && z.dsttime == 0,
        (r.ret is Ok) == (tv != UserOut::Fault && tz != UserOut::Fault),
        r.ret is Err ==> r.ret == err(Errno::EFAULT),
{
}

/// Setting an interval timer changes that one alone, to the value and period asked for, and
/// tells what it was.
pub proof fn set_interval_timers_change_alone(
    before: Seq<ITimer>,
    after: Seq<ITimer>,
    which: usize,
    v: ITimerVal,
    r: Reply<ITimerVal>,
)
    requires
        itimer_set(before, after, which, UserIn::Value(v), UserOut::Writable, r),
        before.len() == 3,
        which < 3,
    ensures
        r.out is Some,
        r.out->0.value.sec * 1000 + r.out->0.value.usec / 1000 == before[which as int].remaining_ms,
        r.out->0.interval.sec * 1000 + r.out->0.interval.usec / 1000
            == before[which as int].interval_ms,
        r.ret is Ok ==> r.ret == ok(0) && after.len() == 3
            && after[which as int].remaining_ms * 1000
            >= v.value.sec * 1_000_000 + v.value.usec && after[which as int].interval_ms * 1000
            >= v.interval.sec * 1_000_000 + v.interval.usec && (forall|k: int|
            0 <= k < 3 && k != which ==> after[k] == before[k]),
        r.ret is Err ==> after == before && r.ret == err(Errno::EINVAL),
        v.value.usec < 1_000_000 && v.interval.usec < 1_000_000 && v.value.sec < 1_000_000_000
            && v.interval.sec < 1_000_000_000 && usize::MAX > 0xffff_ffff_ffff ==> r.ret is Ok,
{
}

/// A clock that was never adjusted has its usual tick and tolerance and no offset.
pub proof fn fresh_clocks_are_unadjusted()
    ensures
        initial_timex().tick == 10_000 && initial_timex().precision == 1
            && initial_timex().tolerance == 32_768_000,
        initial_timex().modes == 0 && initial_timex().offset == 0 && initial_timex().freq == 0
            && initial_timex().status == 0 && initial_timex().tai == 0 && initial_timex().maxerror
            == 0 && initial_timex().esterror == 0 && initial_timex().constant == 0,
{
}

} // verus!
