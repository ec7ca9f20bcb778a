//! Event counters, timer descriptors and anonymous files.

use crate::errno::{err, ok, Errno, SysResult};
use crate::syscall::file::{O_CLOEXEC, O_NONBLOCK, O_RDWR};
use crate::syscall::time::{ITimerSpec, CLOCK_BOOTTIME, CLOCK_MONOTONIC, CLOCK_REALTIME};
use crate::timer::{
    duration_ms, ms_to_timespec, spec_of_ms, valid_duration, TimeSpec,
};
use crate::user::{failed, read_result, write_reply, Reply, UserIn, UserOut};
use vstd::bytes::*;
use vstd::prelude::*;

verus! {

/// The flags of a new descriptor.
pub open spec fn descriptor_flags(nonblock: bool, cloexec: bool) -> u32 {
    let a = if nonblock {
        O_RDWR | O_NONBLOCK
    } else {
        O_RDWR
    };
    if cloexec {
        a | O_CLOEXEC
    } else {
        a
    }
}

fn fd_flags(nonblock: bool, cloexec: bool) -> (r: u32)
    ensures
        r == descriptor_flags(nonblock, cloexec),
{
    let mut flags: u32 = O_RDWR;
    if nonblock {
        flags = flags | O_NONBLOCK;
    }
    if cloexec {
        flags = flags | O_CLOEXEC;
    }
    flags
}

/// In the flags of a new descriptor: operations do not wait.
pub const FD_NONBLOCK: usize = 0o4000;

/// In the flags of a new descriptor: it is closed when a new program is started.
pub const FD_CLOSE_ON_EXEC: usize = 0o2000000;

/// The flags that a creation call asks for, if only `allowed` bits are set.
pub open spec fn checked_flags(flags: usize, allowed: usize) -> SysResult<u32> {
    if flags & !allowed != 0 {
        Err(Errno::EINVAL)
    } else {
        Ok(descriptor_flags(flags & FD_NONBLOCK != 0, flags & FD_CLOSE_ON_EXEC != 0))
    }
}

/// The flags that a creation call asks for.
pub fn flags_from_o_flags(flags: usize, allowed: usize) -> (r: SysResult<u32>)
    ensures
        r == checked_flags(flags, allowed),
{
    if flags & !allowed != 0 {
        return Err(Errno::EINVAL);
    }
    Ok(fd_flags(flags & FD_NONBLOCK != 0, flags & FD_CLOSE_ON_EXEC != 0))
}

/// What a wait for a descriptor comes to before the thread sleeps: it ends where
/// the descriptor is ready after all, and where a signal has arrived.
pub fn wait_for_file_event(ready: bool, interrupted: bool) -> (r: Option<SysResult<()>>)
    ensures
        r == (if ready {
            Some(Ok::<(), Errno>(()))
        } else if interrupted {
            Some(Err(Errno::EINTR))
        } else {
            None
        }),
{
    if ready {
        return Some(Ok(()));
    }
    if interrupted {
        return Some(Err(Errno::EINTR));
    }
    None
}

/// What a wait for a descriptor comes to after the thread has slept.
pub fn file_event_resumed(interrupted: bool) -> (r: SysResult<()>)
    ensures
        r == (if interrupted {
            Err::<(), Errno>(Errno::EINTR)
        } else {
            Ok(())
        }),
{
    if interrupted {
        return Err(Errno::EINTR);
    }
    Ok(())
}

/// Result of an operation on a descriptor that may have to wait.
pub enum Attempt {
    /// The operation is done; `bytes` go to the reader.
    Done { n: usize, bytes: Vec<u8> },
    Fail(Errno),
    /// The caller waits until the descriptor is ready and tries again.
    Wait,
}

/// Reads count down in steps of one.
pub const EFD_SEMAPHORE: usize = 1;

/// A counter that threads can wait for.
#[derive(Debug, Clone, Copy, PartialEq, Eq, Structural)]
pub struct EventFd {
    pub flags: u32,
    pub semaphore: bool,
    pub counter: u64,
}

/// What a read takes from a counter.
pub open spec fn taken(e: EventFd) -> u64 {
    if e.semaphore {
        1
    } else {
        e.counter
    }
}

/// A value fits on top of a counter. The highest counter value is reserved.
pub open spec fn fits(counter: u64, value: u64) -> bool {
    counter + value <= u64::MAX - 1 || value == 0
}

/// Whether reading an event counter changes it from `before` to `after` and gives `r`.
pub open spec fn eventfd_read(before: EventFd, after: EventFd, buflen: usize, r: Attempt) -> bool {
    if buflen < 8 {
        &&& r matches Attempt::Fail(e) && e == Errno::EINVAL
        &&& after == before
    } else if before.counter == 0 {
        &&& after == before
        &&& if before.flags & O_NONBLOCK != 0 {
            r matches Attempt::Fail(e) && e == Errno::EAGAIN
        } else {
            r is Wait
        }
    } else {
        &&& r matches Attempt::Done { n, bytes } && n == 8 && bytes@
            == spec_u64_to_le_bytes(taken(before))
        &&& after.counter == before.counter - taken(before)
    }
}

/// Whether writing `buf` changes an event counter from `before` to `after` and gives `r`.
pub open spec fn eventfd_written(
    before: EventFd,
    after: EventFd,
    buf: Seq<u8>,
    r: Attempt,
) -> bool {
    if buf.len() < 8 {
        &&& r matches Attempt::Fail(e) && e == Errno::EINVAL
        &&& after == before
    } else {
        let value = spec_u64_from_le_bytes(buf.subrange(0, 8));
        if value == u64::MAX {
            &&& r matches Attempt::Fail(e) && e == Errno::EINVAL
            &&& after == before
        } else if fits(before.counter, value) {
            &&& r matches Attempt::Done { n, bytes } && n == 8 && bytes@.len() == 0
            &&& after.counter == before.counter + value
        } else {
            &&& after == before
            &&& if before.flags & O_NONBLOCK != 0 {
                r matches Attempt::Fail(e) && e == Errno::EAGAIN
            } else {
                r is Wait
            }
        }
    }
}

impl EventFd {
    /// A counter with a start value.
    pub fn new(initval: u64, flags: u32, semaphore: bool) -> (r: Self)
        ensures
            r == (EventFd { flags, semaphore, counter: initval }),
    {
        EventFd { flags, semaphore, counter: initval }
    }

    /// Reads the counter: all of it, or one in semaphore mode. A zero counter is
    /// waited for.
    pub fn read(&mut self, buflen: usize) -> (r: Attempt)
        ensures
            final(self).flags == old(self).flags,
            final(self).semaphore == old(self).semaphore,
            eventfd_read(*old(self), *final(self), buflen, r),
    {
        if buflen < 8 {
            return Attempt::Fail(Errno::EINVAL);
        }
        if self.counter != 0 {
            let value: u64 = if self.semaphore {
                1
            } else {
                self.counter
            };
            self.counter = self.counter - value;
            return Attempt::Done { n: 8, bytes: u64_to_le_bytes(value) };
        }
        if self.flags & O_NONBLOCK != 0 {
            return Attempt::Fail(Errno::EAGAIN);
        }
        Attempt::Wait
    }

    /// Adds the first eight bytes of `buf` to the counter. A value that does not
    /// fit is waited for.
    pub fn write(&mut self, buf: &[u8]) -> (r: Attempt)
        ensures
            final(self).flags == old(self).flags,
            final(self).semaphore == old(self).semaphore,
            eventfd_written(*old(self), *final(self), buf@, r),
    {
        if buf.len() < 8 {
            return Attempt::Fail(Errno::EINVAL);
        }
        let value: u64 = u64_from_le_bytes(vstd::slice::slice_subrange(buf, 0, 8));
        if value == u64::MAX {
            return Attempt::Fail(Errno::EINVAL);
        }
        let room: u64 = (u64::MAX - 1).saturating_sub(self.counter);
        if value <= room {
            self.counter = self.counter + value;
            return Attempt::Done { n: 8, bytes: Vec::new() };
        }
        if self.flags & O_NONBLOCK != 0 {
            return Attempt::Fail(Errno::EAGAIN);
        }
        Attempt::Wait
    }

    /// A read would not wait.
    pub fn read_ready(&self) -> (r: bool)
        ensures
            r == (self.counter != 0),
    {
        self.counter != 0
    }

    /// A write of one would not wait.
    pub fn write_ready(&self) -> (r: bool)
        ensures
            r == fits(self.counter, 1),
    {
        self.counter < u64::MAX - 1
    }

    /// Changes whether operations wait; other flags stay.
    pub fn set_status_flags(&mut self, flags: u32)
        ensures
            *final(self) == (EventFd {
                flags: (old(self).flags & !O_NONBLOCK) | (flags & O_NONBLOCK),
                ..*old(self)
            }),
    {
        self.flags = (self.flags & !O_NONBLOCK) | (flags & O_NONBLOCK);
    }

    /// Counters have no position.
    pub fn seek(&self) -> (r: SysResult<usize>)
        ensures
            r == err(Errno::ESPIPE),
    {
        Err(Errno::ESPIPE)
    }
}

/// What was written is what is read, as long as nothing else happens: a read
/// of a whole counter takes all that was added to an empty one.
pub proof fn eventfd_gives_back_what_was_written(e: EventFd, value: u64)
    requires
        e.counter == 0,
        !e.semaphore,
        fits(e.counter, value),
    ensures
        taken(EventFd { counter: value, ..e }) == value,
{
}

/// A readable counter never becomes negative, and semaphore reads take exactly
/// one.
pub proof fn eventfd_reads_take_at_most_the_counter(e: EventFd)
    requires
        e.counter != 0,
    ensures
        taken(e) <= e.counter,
        e.semaphore ==> taken(e) == 1,
{
}

/// The event counter that a call makes.
pub open spec fn new_eventfd(initval: u64, flags: usize) -> SysResult<EventFd> {
    match checked_flags(flags, EFD_SEMAPHORE | FD_NONBLOCK | FD_CLOSE_ON_EXEC) {
        Err(e) => Err::<EventFd, Errno>(e),
        Ok(f) => Ok(
            EventFd { flags: f, semaphore: flags & EFD_SEMAPHORE != 0, counter: initval },
        ),
    }
}

/// Makes a counter.
pub fn sys_eventfd2(initval: u64, flags: usize) -> (r: SysResult<EventFd>)
    ensures
        r == new_eventfd(initval, flags),
{
    match flags_from_o_flags(flags, EFD_SEMAPHORE | FD_NONBLOCK | FD_CLOSE_ON_EXEC) {
        Err(e) => Err(e),
        Ok(f) => Ok(EventFd::new(initval, f, flags & EFD_SEMAPHORE != 0)),
    }
}

/// A timer that is read like a file.
#[derive(Debug, Clone, Copy, PartialEq, Eq, Structural)]
pub struct TimerFd {
    pub clockid: usize,
    pub flags: u32,
    /// Period, or 0 for a single expiry.
    pub interval_ms: usize,
    /// First expiry, or 0 while the timer is not armed.
    pub deadline_ms: usize,
    /// Expiries that were read already.
    pub consumed: u64,
}

/// How often a timer has expired.
pub open spec fn expirations(t: TimerFd, now_ms: usize) -> u64 {
    if t.deadline_ms == 0 || now_ms < t.deadline_ms {
        0
    } else if t.interval_ms == 0 {
        1
    } else {
        (1 + (now_ms - t.deadline_ms) / (t.interval_ms as int)) as u64
    }
}

/// Expiries that were not read yet.
pub open spec fn pending_expirations(t: TimerFd, now_ms: usize) -> u64 {
    expirations(t, now_ms).saturating_sub(t.consumed)
}

/// The time until the next expiry.
pub open spec fn time_left(t: TimerFd, now_ms: usize) -> usize {
    if t.deadline_ms == 0 {
        0
    } else if now_ms < t.deadline_ms {
        (t.deadline_ms - now_ms) as usize
    } else if t.interval_ms == 0 || (now_ms - t.deadline_ms) % (t.interval_ms as int) == 0 {
        0
    } else {
        (t.interval_ms - (now_ms - t.deadline_ms) % (t.interval_ms as int)) as usize
    }
}

/// What is reported of a timer.
pub open spec fn timerfd_report(t: TimerFd, now_ms: usize) -> ITimerSpec {
    ITimerSpec { interval: spec_of_ms(t.interval_ms), value: spec_of_ms(time_left(t, now_ms)) }
}

/// Whether reading a timer descriptor changes it from `before` to `after` and gives `r`.
pub open spec fn timerfd_read(
    before: TimerFd,
    after: TimerFd,
    buflen: usize,
    now_ms: SysResult<usize>,
    r: Attempt,
) -> bool {
    if buflen < 8 {
        &&& r matches Attempt::Fail(e) && e == Errno::EINVAL
        &&& after == before
    } else {
        match now_ms {
            Err(x) => (r matches Attempt::Fail(e) && e == x) && after == before,
            Ok(now) => {
                let pending = pending_expirations(before, now);
                if pending != 0 {
                    &&& r matches Attempt::Done { n, bytes } && n == 8 && bytes@
                        == spec_u64_to_le_bytes(pending)
                    &&& after == (TimerFd {
                        consumed: expirations(before, now),
                        ..before
                    })
                } else {
                    &&& after == before
                    &&& if before.flags & O_NONBLOCK != 0 {
                        r matches Attempt::Fail(e) && e == Errno::EAGAIN
                    } else {
                        r is Wait
                    }
                }
            },
        }
    }
}

impl TimerFd {
    /// A timer that is not armed.
    pub fn new(clockid: usize, flags: u32) -> (r: Self)
        ensures
            r == (TimerFd { clockid, flags, interval_ms: 0, deadline_ms: 0, consumed: 0 }),
    {
        TimerFd { clockid, flags, interval_ms: 0, deadline_ms: 0, consumed: 0 }
    }

    fn expirations_at(&self, now_ms: usize) -> (r: u64)
        ensures
            r == expirations(*self, now_ms),
    {
        if self.deadline_ms == 0 || now_ms < self.deadline_ms {
            return 0;
        }
        if self.interval_ms == 0 {
            return 1;
        }
        let periods: usize = (now_ms - self.deadline_ms) / self.interval_ms;
        assert(periods <= now_ms - self.deadline_ms) by (nonlinear_arith)
            requires
                periods == (now_ms - self.deadline_ms) / (self.interval_ms as int),
                self.interval_ms >= 1,
                now_ms >= self.deadline_ms,
        ;
        1 + periods as u64
    }

    /// Expiries that were not read yet.
    pub fn pending(&self, now_ms: usize) -> (r: u64)
        ensures
            r == pending_expirations(*self, now_ms),
    {
        self.expirations_at(now_ms).saturating_sub(self.consumed)
    }

    /// Period and time until the next expiry.
    pub fn current_spec(&self, now_ms: usize) -> (r: ITimerSpec)
        ensures
            r == timerfd_report(*self, now_ms),
    {
        let left: usize = if self.deadline_ms == 0 {
            0
        } else if now_ms < self.deadline_ms {
            self.deadline_ms - now_ms
        } else if self.interval_ms == 0 {
            0
        } else {
            let elapsed: usize = now_ms - self.deadline_ms;
            let part: usize = elapsed % self.interval_ms;
            if part == 0 {
                0
            } else {
                self.interval_ms - part
            }
        };
        ITimerSpec { interval: ms_to_timespec(self.interval_ms), value: ms_to_timespec(left) }
    }

    /// Reads the number of expiries since the last read. `now_ms` is the time of
    /// the timer's clock.
    pub fn read(&mut self, buflen: usize, now_ms: SysResult<usize>) -> (r: Attempt)
        ensures
            timerfd_read(*old(self), *final(self), buflen, now_ms, r),
    {
        if buflen < 8 {
            return Attempt::Fail(Errno::EINVAL);
        }
        let now: usize = match now_ms {
            Ok(now) => now,
            Err(e) => {
                return Attempt::Fail(e);
            },
        };
        let expired: u64 = self.expirations_at(now);
        let pending: u64 = expired.saturating_sub(self.consumed);
        if pending != 0 {
            self.consumed = expired;
            return Attempt::Done { n: 8, bytes: u64_to_le_bytes(pending) };
        }
        if self.flags & O_NONBLOCK != 0 {
            return Attempt::Fail(Errno::EAGAIN);
        }
        Attempt::Wait
    }

    /// A read would not wait.
    pub fn read_ready(&self, now_ms: usize) -> (r: bool)
        ensures
            r == (pending_expirations(*self, now_ms) > 0),
    {
        self.pending(now_ms) > 0
    }

    /// Changes whether reads wait; other flags stay.
    pub fn set_status_flags(&mut self, flags: u32)
        ensures
            *final(self) == (TimerFd {
                flags: (old(self).flags & !O_NONBLOCK) | (flags & O_NONBLOCK),
                ..*old(self)
            }),
    {
        self.flags = (self.flags & !O_NONBLOCK) | (flags & O_NONBLOCK);
    }

    /// Timers cannot be written.
    pub fn write(&self) -> (r: SysResult<usize>)
        ensures
            r == err(Errno::EINVAL),
    {
        Err(Errno::EINVAL)
    }
}

/// Each expiry is read once: after a read nothing is pending at the same time.
pub proof fn expirations_are_read_once(t: TimerFd, now_ms: usize)
    ensures
        pending_expirations(TimerFd { consumed: expirations(t, now_ms), ..t }, now_ms) == 0,
{
}

/// Time never takes an expiry back.
pub proof fn expirations_only_grow(t: TimerFd, a: usize, b: usize)
    requires
        a <= b,
    ensures
        expirations(t, a) <= expirations(t, b),
{
    if t.deadline_ms != 0 && a >= t.deadline_ms && t.interval_ms != 0 {
        let x = a - t.deadline_ms;
        let y = b - t.deadline_ms;
        let d = t.interval_ms as int;
        assert(x / d <= y / d) by (nonlinear_arith)
            requires
                0 <= x <= y,
                d >= 1,
        ;
        assert(0 <= y / d <= y) by (nonlinear_arith)
            requires
                0 <= y,
                d >= 1,
        ;
    }
}

/// The descriptors that become readable, by index. `now_ms` holds the time of
/// each one's clock, or 0 where the clock cannot be read.
pub fn check_timerfd_expirations(timers: &Vec<TimerFd>, now_ms: &Vec<usize>) -> (r: Vec<usize>)
    requires
        now_ms@.len() == timers@.len(),
    ensures
        r@.no_duplicates(),
        forall|i: int, j: int| 0 <= i < j < r@.len() ==> r@[i] < r@[j],
        forall|i: usize| #[trigger]
            r@.contains(i) <==> i < timers@.len() && pending_expirations(
                timers@[i as int],
                now_ms@[i as int],
            ) > 0,
{
    let mut ready: Vec<usize> = Vec::new();
    let mut i: usize = 0;
    while i < timers.len()
        invariant
            now_ms@.len() == timers@.len(),
            i <= timers@.len(),
            ready@.no_duplicates(),
            forall|a: int, b: int| 0 <= a < b < ready@.len() ==> ready@[a] < ready@[b],
            forall|k: usize| #[trigger]
                ready@.contains(k) <==> k < i && pending_expirations(
                    timers@[k as int],
                    now_ms@[k as int],
                ) > 0,
        decreases timers@.len() - i,
    {
        if timers[i].read_ready(now_ms[i]) {
            let ghost before = ready@;
            assert(!before.contains(i));
            assert forall|a: int| 0 <= a < before.len() implies before[a] < i by {
                assert(before.contains(before[a]));
            }
            ready.push(i);
            proof {
                assert forall|k: usize| #[trigger] ready@.contains(k) <==> (before.contains(k) || k
                    == i) by {
                    if before.contains(k) {
                        let q = choose|q: int| 0 <= q < before.len() && before[q] == k;
                        assert(ready@[q] == k);
                    }
                    assert(ready@[before.len() as int] == i);
                }
            }
        }
        i = i + 1;
    }
    ready
}

/// The clocks that timer descriptors can use.
pub open spec fn timerfd_clock(clockid: usize) -> bool {
    clockid == CLOCK_REALTIME || clockid == CLOCK_MONOTONIC || clockid == CLOCK_BOOTTIME
}

/// The timer descriptor that a call makes.
pub open spec fn new_timerfd(clockid: usize, flags: usize) -> SysResult<TimerFd> {
    if clockid == 8 || clockid == 9 {
        Err::<TimerFd, Errno>(Errno::EOPNOTSUPP)
    } else if !timerfd_clock(clockid) {
        Err(Errno::EINVAL)
    } else {
        match checked_flags(flags, FD_NONBLOCK | FD_CLOSE_ON_EXEC) {
            Err(e) => Err(e),
            Ok(f) => Ok(
                TimerFd { clockid, flags: f, interval_ms: 0, deadline_ms: 0, consumed: 0 },
            ),
        }
    }
}

/// Makes a timer descriptor; clocks that wake a sleeping machine are not
/// offered.
pub fn sys_timerfd_create(clockid: usize, flags: usize) -> (r: SysResult<TimerFd>)
    ensures
        r == new_timerfd(clockid, flags),
{
    if clockid == 8 || clockid == 9 {
        return Err(Errno::EOPNOTSUPP);
    }
    if clockid != CLOCK_REALTIME && clockid != CLOCK_MONOTONIC && clockid != CLOCK_BOOTTIME {
        return Err(Errno::EINVAL);
    }
    match flags_from_o_flags(flags, FD_NONBLOCK | FD_CLOSE_ON_EXEC) {
        Err(e) => Err(e),
        Ok(f) => Ok(TimerFd::new(clockid, f)),
    }
}

/// What reading the setting of a timer descriptor returns.
pub open spec fn timerfd_reply(
    timer: SysResult<TimerFd>,
    now_ms: usize,
    curr_value: UserOut,
) -> Reply<ITimerSpec> {
    match timer {
        Err(e) => failed::<ITimerSpec>(e),
        Ok(t) => write_reply(curr_value, 0, timerfd_report(t, now_ms)),
    }
}

/// Reports a timer descriptor; `timer` is the one behind the descriptor, or
/// the reason there is none.
pub fn sys_timerfd_gettime(timer: SysResult<TimerFd>, now_ms: usize, curr_value: UserOut) -> (r:
    Reply<ITimerSpec>)
    ensures
        r == timerfd_reply(timer, now_ms, curr_value),
{
    match timer {
        Err(e) => Reply::fail(e),
        Ok(t) => curr_value.reply(0, t.current_spec(now_ms)),
    }
}

pub const TFD_TIMER_ABSTIME: usize = 1;

pub const TFD_TIMER_CANCEL_ON_SET: usize = 2;

/// The milliseconds of an absolute time, rounded down.
pub open spec fn absolute_ms(t: TimeSpec) -> SysResult<usize> {
    if !valid_duration(t) || t.sec * 1000 + t.nsec / 1_000_000 > usize::MAX {
        Err(Errno::EINVAL)
    } else {
        Ok((t.sec * 1000 + t.nsec / 1_000_000) as usize)
    }
}

fn absolute_timespec_ms(t: &TimeSpec) -> (r: SysResult<usize>)
    ensures
        r == absolute_ms(*t),
{
    if !t.is_valid_duration() {
        return Err(Errno::EINVAL);
    }
    let sub: usize = (t.nsec / 1_000_000) as usize;
    match (t.sec as usize).checked_mul(1000) {
        Some(ms) => match ms.checked_add(sub) {
            Some(v) => Ok(v),
            None => Err(Errno::EINVAL),
        },
        None => Err(Errno::EINVAL),
    }
}

/// The value of a new setting in milliseconds.
pub open spec fn setting_ms(t: TimeSpec, absolute: bool) -> SysResult<usize> {
    if absolute {
        absolute_ms(t)
    } else {
        match duration_ms(t) {
            Some(ms) => Ok(ms),
            None => Err(Errno::EINVAL),
        }
    }
}

fn setting_value(t: &TimeSpec, absolute: bool) -> (r: SysResult<usize>)
    ensures
        r == setting_ms(*t, absolute),
{
    if absolute {
        absolute_timespec_ms(t)
    } else {
        match t.checked_duration_ms() {
            Some(ms) => Ok(ms),
            None => Err(Errno::EINVAL),
        }
    }
}

/// A timer with a new setting.
pub open spec fn timer_set(t: TimerFd, value: usize, interval: usize, absolute: bool, now: usize) -> TimerFd {
    TimerFd {
        interval_ms: interval,
        deadline_ms: if value == 0 {
            0
        } else if absolute {
            value
        } else {
            now.saturating_add(value)
        },
        consumed: 0,
        ..t
    }
}

/// Whether arming a timer descriptor changes it from `before` to `after` and returns `r`.
pub open spec fn timerfd_armed(
    before: TimerFd,
    after: TimerFd,
    flags: usize,
    new_value: UserIn<ITimerSpec>,
    now_ms: SysResult<usize>,
    old_value: UserOut,
    r: Reply<ITimerSpec>,
) -> bool {
    ({
        let absolute = flags & TFD_TIMER_ABSTIME != 0;
        let now = match now_ms {
            Ok(n) => n,
            Err(_) => 0,
        };
        if flags & !(TFD_TIMER_ABSTIME | TFD_TIMER_CANCEL_ON_SET) != 0 {
            r == failed::<ITimerSpec>(Errno::EINVAL)
        } else if flags & TFD_TIMER_CANCEL_ON_SET != 0 {
            r == failed::<ITimerSpec>(Errno::EOPNOTSUPP)
        } else {
            match read_result(new_value) {
                Err(e) => r == failed::<ITimerSpec>(e),
                Ok(v) => if !valid_duration(v.value) || !valid_duration(v.interval) {
                    r == failed::<ITimerSpec>(Errno::EINVAL)
                } else if old_value == UserOut::Fault {
                    r == failed::<ITimerSpec>(Errno::EFAULT)
                } else {
                    &&& r.out == (if old_value == UserOut::Writable {
                        Some(timerfd_report(before, now))
                    } else {
                        None
                    })
                    &&& match setting_ms(v.value, absolute) {
                        Err(e) => r.ret == err(e),
                        Ok(value) => match duration_ms(v.interval) {
                            None => r.ret == err(Errno::EINVAL),
                            Some(interval) => match now_ms {
                                Err(e) => r.ret == err(e),
                                Ok(n) => r.ret == ok(0) && after == timer_set(
                                    before,
                                    value,
                                    interval,
                                    absolute,
                                    n,
                                ),
                            },
                        },
                    }
                },
            }
        }
    })
}

/// Arms or disarms a timer descriptor. The old setting is reported before the
/// new one takes effect; a failing call sets nothing.
pub fn sys_timerfd_settime(
    timer: &mut TimerFd,
    flags: usize,
    new_value: UserIn<ITimerSpec>,
    now_ms: SysResult<usize>,
    old_value: UserOut,
) -> (r: Reply<ITimerSpec>)
    ensures
        r.ret is Err ==> *final(timer) == *old(timer),
        timerfd_armed(*old(timer), *final(timer), flags, new_value, now_ms, old_value, r),
{
    if flags & !(TFD_TIMER_ABSTIME | TFD_TIMER_CANCEL_ON_SET) != 0 {
        return Reply::fail(Errno::EINVAL);
    }
    if flags & TFD_TIMER_CANCEL_ON_SET != 0 {
        return Reply::fail(Errno::EOPNOTSUPP);
    }
    let shown: usize = match now_ms {
        Ok(n) => n,
        Err(_) => 0,
    };
    let old_setting = timer.current_spec(shown);
    let v = match new_value.read() {
        Ok(v) => v,
        Err(e) => {
            return Reply::fail(e);
        },
    };
    if !v.value.is_valid_duration() || !v.interval.is_valid_duration() {
        return Reply::fail(Errno::EINVAL);
    }
    let out = match old_value {
        UserOut::Null => None,
        UserOut::Fault => {
            return Reply::fail(Errno::EFAULT);
        },
        UserOut::Writable => Some(old_setting),
    };
    let absolute = flags & TFD_TIMER_ABSTIME != 0;
    let value: usize = match setting_value(&v.value, absolute) {
        Ok(n) => n,
        Err(e) => {
            return Reply { ret: Err(e), out };
        },
    };
    let interval: usize = match v.interval.checked_duration_ms() {
        Some(n) => n,
        None => {
            return Reply { ret: Err(Errno::EINVAL), out };
        },
    };
    let now: usize = match now_ms {
        Ok(n) => n,
        Err(e) => {
            return Reply { ret: Err(e), out };
        },
    };
    let deadline_ms: usize = if value == 0 {
        0
    } else if absolute {
        value
    } else {
        now.saturating_add(value)
    };
    timer.interval_ms = interval;
    timer.deadline_ms = deadline_ms;
    timer.consumed = 0;
    Reply { ret: Ok(0), out }
}

/// A relative setting is reported back as long as no time passes.
pub proof fn set_timerfd_is_reported(t: TimerFd, value: usize, interval: usize, now: usize)
    requires
        value > 0,
        now + value <= usize::MAX,
    ensures
        timerfd_report(timer_set(t, value, interval, false, now), now) == (ITimerSpec {
            interval: spec_of_ms(interval),
            value: spec_of_ms(value),
        }),
        pending_expirations(timer_set(t, value, interval, false, now), now) == 0,
{
}

pub const MFD_CLOEXEC: usize = 0x0001;

pub const MFD_ALLOW_SEALING: usize = 0x0002;

pub const MFD_HUGETLB: usize = 0x0004;

pub const MFD_HUGE_MASK: usize = 0xfc00_0000;

/// The longest name of an anonymous file.
pub const MEMFD_NAME_MAX: usize = 249;

/// An anonymous file to be made.
#[derive(Debug, Clone, Copy, PartialEq, Eq, Structural)]
pub struct MemFd {
    pub flags: u32,
    pub sealing: bool,
}

/// The memory file that a call makes.
pub open spec fn new_memfd(name_len: SysResult<usize>, flags: usize) -> SysResult<MemFd> {
    if flags & !(MFD_CLOEXEC | MFD_ALLOW_SEALING | MFD_HUGETLB | MFD_HUGE_MASK) != 0 {
        Err::<MemFd, Errno>(Errno::EINVAL)
    } else if flags & MFD_HUGE_MASK != 0 && flags & MFD_HUGETLB == 0 {
        Err(Errno::EINVAL)
    } else if flags & MFD_HUGETLB != 0 {
        Err(Errno::EOPNOTSUPP)
    } else {
        match name_len {
            Err(e) => Err(e),
            Ok(n) => if n > MEMFD_NAME_MAX {
                Err(Errno::EINVAL)
            } else {
                Ok(
                    MemFd {
                        flags: descriptor_flags(false, flags & MFD_CLOEXEC != 0),
                        sealing: flags & MFD_ALLOW_SEALING != 0,
                    },
                )
            },
        }
    }
}

/// Makes an anonymous file; huge pages are not offered. Of its name only the
/// length matters.
pub fn sys_memfd_create(name_len: SysResult<usize>, flags: usize) -> (r: SysResult<MemFd>)
    ensures
        r == new_memfd(name_len, flags),
{
    if flags & !(MFD_CLOEXEC | MFD_ALLOW_SEALING | MFD_HUGETLB | MFD_HUGE_MASK) != 0 {
        return Err(Errno::EINVAL);
    }
    if flags & MFD_HUGE_MASK != 0 && flags & MFD_HUGETLB == 0 {
        return Err(Errno::EINVAL);
    }
    if flags & MFD_HUGETLB != 0 {
        return Err(Errno::EOPNOTSUPP);
    }
    let n: usize = match name_len {
        Ok(n) => n,
        Err(e) => {
            return Err(e);
        },
    };
    if n > MEMFD_NAME_MAX {
        return Err(Errno::EINVAL);
    }
    Ok(
        MemFd {
            flags: fd_flags(false, flags & MFD_CLOEXEC != 0),
            sealing: flags & MFD_ALLOW_SEALING != 0,
        },
    )
}

/// Inode events are not offered.
pub fn sys_inotify_init1(_flags: usize) -> (r: SysResult<usize>)
    ensures
        r == err(Errno::ENOSYS),
{
    Err(Errno::ENOSYS)
}

/// Signals are not read through descriptors.
pub fn sys_signalfd4(_fd: isize, _mask: usize, _sizemask: usize, _flags: usize) -> (r: SysResult<
    usize,
>)
    ensures
        r == err(Errno::ENOSYS),
{
    Err(Errno::ENOSYS)
}

/// Process descriptors are not offered.
pub fn sys_pidfd_open(_pid: usize, _flags: usize) -> (r: SysResult<usize>)
    ensures
        r == err(Errno::ENOSYS),
{
    Err(Errno::ENOSYS)
}

/// File system events are not offered.
pub fn sys_fanotify_init(_flags: usize, _event_f_flags: usize) -> (r: SysResult<usize>)
    ensures
        r == err(Errno::ENOSYS),
{
    Err(Errno::ENOSYS)
}

/// Page faults are not handed to user programs.
pub fn sys_userfaultfd(_flags: usize) -> (r: SysResult<usize>)
    ensures
        r == err(Errno::ENOSYS),
{
    Err(Errno::ENOSYS)
}

/// Hardware counters are not offered.
pub fn sys_perf_event_open(_attr: usize, _pid: isize, _cpu: isize, _group_fd: isize, _flags: usize) -> (r:
    SysResult<usize>)
    ensures
        r == err(Errno::ENOSYS),
{
    Err(Errno::ENOSYS)
}

/// Submission rings are not offered.
pub fn sys_io_uring_setup(_entries: usize, _params: usize) -> (r: SysResult<usize>)
    ensures
        r == err(Errno::ENOSYS),
{
    Err(Errno::ENOSYS)
}

/// Kernel programs are not offered.
pub fn sys_bpf(_cmd: usize, _attr: usize, _size: usize) -> (r: SysResult<usize>)
    ensures
        r == err(Errno::ENOSYS),
{
    Err(Errno::ENOSYS)
}

/// File system contexts are not offered.
pub fn sys_fsopen(_fs_name: usize, _flags: usize) -> (r: SysResult<usize>)
    ensures
        r == err(Errno::ENOSYS),
{
    Err(Errno::ENOSYS)
}

/// File system contexts of mounts are not offered.
pub fn sys_fspick(_dfd: isize, _path: usize, _flags: usize) -> (r: SysResult<usize>)
    ensures
        r == err(Errno::ENOSYS),
{
    Err(Errno::ENOSYS)
}

/// Detached mount trees are not offered.
pub fn sys_open_tree(_dfd: isize, _path: usize, _flags: usize) -> (r: SysResult<usize>)
    ensures
        r == err(Errno::ENOSYS),
{
    Err(Errno::ENOSYS)
}

/// Secret memory is not offered.
pub fn sys_memfd_secret(_flags: usize) -> (r: SysResult<usize>)
    ensures
        r == err(Errno::ENOSYS),
{
    Err(Errno::ENOSYS)
}

/// A full read of an event counter that is not zero succeeds with eight bytes, lowest first,
/// and takes off the counter exactly what the bytes say: one of a semaphore, else everything.
pub proof fn counter_reads_take_what_they_give(before: EventFd, after: EventFd, r: Attempt)
    requires
        eventfd_read(before, after, 8, r),
        after.semaphore == before.semaphore,
        before.counter != 0,
    ensures
        r matches Attempt::Done { n, bytes } ==> n == 8 && bytes@.len() == 8 && (
        spec_u64_from_le_bytes(bytes@) + after.counter == before.counter) && (before.semaphore
            ==> spec_u64_from_le_bytes(bytes@) == 1) && (!before.semaphore ==> after.counter == 0),
        r is Done,
{
    lemma_auto_spec_u64_to_from_le_bytes();
}

/// Reading an empty counter leaves it empty: it fails where the descriptor does not wait and
/// waits otherwise. A buffer under eight bytes is refused in either state.
pub proof fn empty_counters_give_nothing(before: EventFd, after: EventFd, buflen: usize, r: Attempt)
    requires
        eventfd_read(before, after, buflen, r),
        buflen < 8 || before.counter == 0,
    ensures
        after == before,
        buflen < 8 ==> r == Attempt::Fail(Errno::EINVAL),
        buflen >= 8 && before.flags & 0o4000 != 0 ==> r == Attempt::Fail(Errno::EAGAIN),
        buflen >= 8 && before.flags & 0o4000 == 0 ==> r is Wait,
{
}

/// Writing to an event counter adds the value, unless the sum would reach the largest word.
pub proof fn counter_writes_add(before: EventFd, after: EventFd, value: u64, r: Attempt)
    requires
        eventfd_written(before, after, spec_u64_to_le_bytes(value), r),
        before.counter < u64::MAX,
    ensures
        value == u64::MAX ==> r == Attempt::Fail(Errno::EINVAL),
        value < u64::MAX && before.counter + value < u64::MAX ==> (r matches Attempt::Done {
            n,
            bytes,
        } && n == 8 && bytes@.len() == 0) && after.counter == before.counter + value,
        value < u64::MAX && before.counter + value >= u64::MAX ==> (before.flags & 0o4000 != 0
            ==> r == Attempt::Fail(Errno::EAGAIN)) && (before.flags & 0o4000 == 0 ==> r is Wait),
        !(r is Done) ==> after == before,
{
    lemma_auto_spec_u64_to_from_le_bytes();
    assert(spec_u64_to_le_bytes(value).subrange(0, 8) =~= spec_u64_to_le_bytes(value));
}

/// A new event counter starts at the given value, and is a semaphore if the lowest flag says
/// so. Flags other than the three known ones are refused.
pub proof fn new_counters_start_as_told(initval: u64, flags: usize)
    ensures
        new_eventfd(initval, flags) matches Ok(e) ==> e.counter == initval && e.semaphore == (flags
            & 1 != 0),
        new_eventfd(initval, flags) is Err ==> new_eventfd(initval, flags) == Err::<EventFd, Errno>(
            Errno::EINVAL,
        ),
        (new_eventfd(initval, flags) is Ok) == (flags & !(1usize | 0o4000usize | 0o2000000usize) == 0),
{
}

/// A periodic timer has expired once at its deadline and once more with every period since.
/// A timer without a period expires once, and an unarmed one never does.
pub proof fn expirations_come_every_period(t: TimerFd, now_ms: usize)
    ensures
        t.deadline_ms == 0 ==> expirations(t, now_ms) == 0,
        t.deadline_ms != 0 ==> (expirations(t, now_ms) == 0) == (now_ms < t.deadline_ms),
        t.deadline_ms != 0 && t.interval_ms == 0 && now_ms >= t.deadline_ms ==> expirations(
            t,
            now_ms,
        ) == 1,
        t.deadline_ms != 0 && t.interval_ms != 0 && now_ms >= t.deadline_ms && (now_ms
            - t.deadline_ms) / (t.interval_ms as int) < u64::MAX ==> {
            &&& t.deadline_ms + (expirations(t, now_ms) - 1) * t.interval_ms <= now_ms
            &&& now_ms < t.deadline_ms + expirations(t, now_ms) * t.interval_ms
        },
{
    if t.deadline_ms != 0 && t.interval_ms != 0 && now_ms >= t.deadline_ms {
        let d = now_ms - t.deadline_ms;
        let p = t.interval_ms as int;
        vstd::arithmetic::div_mod::lemma_fundamental_div_mod(d, p);
        vstd::arithmetic::div_mod::lemma_div_is_ordered_by_denominator(d, 1, p);
        let q = d / p;
        assert(0 <= q <= d) by (nonlinear_arith)
            requires
                q == d / p,
                p > 0,
                d >= 0,
        ;
        assert(q * p <= d && d < (q + 1) * p) by (nonlinear_arith)
            requires
                d == p * q + d % p,
                0 <= d % p < p,
        ;
    }
}

/// Reading a timer descriptor gives every expiration since the last read, and a second read at
/// the same time finds none.
pub proof fn timer_reads_give_the_new_expirations(
    before: TimerFd,
    after: TimerFd,
    again: TimerFd,
    now: usize,
    r: Attempt,
    r2: Attempt,
)
    requires
        timerfd_read(before, after, 8, Ok(now), r),
        timerfd_read(after, again, 8, Ok(now), r2),
    ensures
        (r is Done) == (expirations(before, now) > before.consumed),
        r matches Attempt::Done { n, bytes } ==> n == 8 && before.consumed
            + spec_u64_from_le_bytes(bytes@) == expirations(before, now),
        r is Done ==> after.deadline_ms == before.deadline_ms && after.interval_ms
            == before.interval_ms && after.flags == before.flags && after.clockid
            == before.clockid,
        !(r2 is Done),
        again == after,
        !(r is Done) && before.flags & 0o4000 != 0 ==> r == Attempt::Fail(Errno::EAGAIN),
        !(r is Done) && before.flags & 0o4000 == 0 ==> r is Wait,
        !(r is Done) ==> after == before,
{
    lemma_auto_spec_u64_to_from_le_bytes();
}

/// What is left of an armed timer is the distance to its next expiration: the time now and the
/// time left add up to the deadline, or to the deadline and some whole periods. A timer that
/// will not expire again has nothing left.
pub proof fn time_left_ends_at_an_expiration(t: TimerFd, now_ms: usize)
    ensures
        t.deadline_ms == 0 ==> time_left(t, now_ms) == 0,
        now_ms < t.deadline_ms ==> now_ms + time_left(t, now_ms) == t.deadline_ms,
        now_ms >= t.deadline_ms && t.interval_ms == 0 ==> time_left(t, now_ms) == 0,
        t.deadline_ms != 0 && now_ms >= t.deadline_ms && t.interval_ms != 0 ==> {
            &&& (now_ms + time_left(t, now_ms) - t.deadline_ms) % (t.interval_ms as int) == 0
            &&& time_left(t, now_ms) < t.interval_ms
        },
{
    if t.deadline_ms != 0 && now_ms >= t.deadline_ms && t.interval_ms != 0 {
        let d = now_ms - t.deadline_ms;
        let p = t.interval_ms as int;
        if d % p != 0 {
            vstd::arithmetic::div_mod::lemma_fundamental_div_mod(d, p);
            assert(d + (p - d % p) == p * (d / p + 1)) by (nonlinear_arith)
                requires
                    d == p * (d / p) + d % p,
            ;
            vstd::arithmetic::div_mod::lemma_mod_multiples_basic(d / p + 1, p);
            assert(p * (d / p + 1) == (d / p + 1) * p) by (nonlinear_arith);
        }
    }
}

/// A setting keeps its period and starts counting anew. An absolute setting expires at the time
/// given; a relative one that long after now. A setting of zero disarms the timer.
pub proof fn settings_expire_when_asked(
    before: TimerFd,
    after: TimerFd,
    flags: usize,
    value: ITimerSpec,
    now: usize,
    old_value: UserOut,
    r: Reply<ITimerSpec>,
)
    requires
        timerfd_armed(before, after, flags, UserIn::Value(value), Ok(now), old_value, r),
        r.ret is Ok,
    ensures
        r.ret == ok(0),
        after.consumed == 0 && after.clockid == before.clockid && after.flags == before.flags,
        duration_ms(value.interval) == Some(after.interval_ms),
        value.value.sec == 0 && value.value.nsec == 0 ==> after.deadline_ms == 0,
        flags & 1 != 0 ==> after.deadline_ms == value.value.sec * 1000 + value.value.nsec
            / 1_000_000,
        flags & 1 == 0 && !(value.value.sec == 0 && value.value.nsec == 0) ==> {
            ||| after.deadline_ms == usize::MAX
            ||| after.deadline_ms - now == value.value.sec * 1000 + (value.value.nsec + 999_999)
                / 1_000_000
        },
        old_value == UserOut::Null ==> r.out is None,
        old_value == UserOut::Writable ==> r.out == Some(
            ITimerSpec {
                interval: spec_of_ms(before.interval_ms),
                value: spec_of_ms(time_left(before, now)),
            },
        ),
{
}

/// Arming a timer descriptor is refused for unknown flags, for the unsupported one, for a
/// duration that is negative or whose fraction is a second or more, and for an unwritable
/// place for the previous setting.
pub proof fn unsound_settings_are_refused(
    before: TimerFd,
    after: TimerFd,
    flags: usize,
    value: ITimerSpec,
    now: usize,
    old_value: UserOut,
    r: Reply<ITimerSpec>,
)
    requires
        timerfd_armed(before, after, flags, UserIn::Value(value), Ok(now), old_value, r),
    ensures
        flags & !(1usize | 2usize) != 0 ==> r == failed::<ITimerSpec>(Errno::EINVAL),
        flags & !(1usize | 2usize) == 0
            && flags & 2 != 0 ==> r == failed::<ITimerSpec>(Errno::EOPNOTSUPP),
        flags & !(1usize | 2usize) == 0 && flags & 2 == 0
            && (value.value.sec < 0 || value.value.nsec < 0
            || value.value.nsec >= 1_000_000_000 || value.interval.sec < 0 || value.interval.nsec
            < 0 || value.interval.nsec >= 1_000_000_000) ==> r == failed::<ITimerSpec>(
            Errno::EINVAL,
        ),
        r.ret is Ok ==> old_value != UserOut::Fault,
{
}

/// A new timer descriptor is unarmed and runs on one of three clocks. The two alarm clocks are
/// not supported, and every other clock is unknown.
pub proof fn new_timers_are_unarmed(clockid: usize, flags: usize)
    ensures
        new_timerfd(clockid, flags) matches Ok(t) ==> (t.clockid == clockid && t.deadline_ms == 0
            && t.interval_ms == 0 && t.consumed == 0 && (clockid == 0 || clockid == 1 || clockid
            == 7)),
        clockid == 8 || clockid == 9 ==> new_timerfd(clockid, flags) == Err::<TimerFd, Errno>(
            Errno::EOPNOTSUPP,
        ),
        new_timerfd(clockid, flags) is Err && clockid != 8 && clockid != 9 ==> new_timerfd(
            clockid,
            flags,
        ) == Err::<TimerFd, Errno>(Errno::EINVAL),
        clockid == 0 || clockid == 1 || clockid == 7 ==> (new_timerfd(clockid, flags) is Ok) == (
        flags & !(0o4000usize | 0o2000000usize) == 0),
{
}

/// A memory file can be sealed if asked for and is named by at most 249 bytes. Huge pages are
/// not supported, and a page size without them is an error.
pub proof fn memory_files_are_as_asked_for(name_len: SysResult<usize>, flags: usize)
    ensures
        new_memfd(name_len, flags) matches Ok(m) ==> m.sealing == (flags & 2 != 0) && flags & 4 == 0
            && (name_len matches Ok(n) && n <= 249),
        flags & !(1usize | 2usize | 4usize | 0xfc00_0000usize) != 0 ==> new_memfd(name_len, flags) == Err::<MemFd, Errno>(
            Errno::EINVAL,
        ),
        flags & !(1usize | 2usize | 4usize | 0xfc00_0000usize) == 0
            && flags & 4 != 0 ==> new_memfd(name_len, flags) == Err::<
            MemFd,
            Errno,
        >(Errno::EOPNOTSUPP),
        flags & !(1usize | 2usize | 4usize | 0xfc00_0000usize) == 0 && flags & 4 == 0
            && flags & 0xfc00_0000 == 0 ==> (match name_len {
            Err(e) => new_memfd(name_len, flags) == Err::<MemFd, Errno>(e),
            Ok(n) => (new_memfd(name_len, flags) is Ok) == (n <= 249),
        }),
{
}

/// The open flags of a new descriptor tell reading and writing, and each of the two options by
/// its own bit.
pub proof fn descriptor_options_are_separate(nonblock: bool, cloexec: bool)
    ensures
        descriptor_flags(nonblock, cloexec) & 3 == 2,
        (descriptor_flags(nonblock, cloexec) & 0o4000 != 0) == nonblock,
        (descriptor_flags(nonblock, cloexec) & 0o2000000 != 0) == cloexec,
        descriptor_flags(nonblock, cloexec) & !0o2004002u32 == 0,
{
    assert forall|a: u32, b: u32|
        (a == 0 || a == 0o4000)
            && (b == 0 || b == 0o2000000) implies #[trigger] ((2u32 | a) | b) & 3
        == 2 && (((2u32 | a) | b) & 0o4000 != 0) == (a != 0) && (((2u32 | a) | b) & 0o2000000 != 0)
        == (b != 0) && ((2u32 | a) | b) & !0o2004002u32 == 0 && (2u32 | 0) == 2u32 && ((2u32 | a)
        | 0) == (2u32 | a) by {
        assert((a == 0 || a == 0o4000) && (b == 0 || b == 0o2000000) ==> ((2u32 | a) | b) & 3 == 2
            && (((2u32 | a) | b) & 0o4000 != 0) == (a != 0) && (((2u32 | a) | b) & 0o2000000 != 0)
            == (b != 0) && ((2u32 | a) | b) & !0o2004002u32 == 0 && (2u32 | 0) == 2u32 && ((2u32
            | a) | 0) == (2u32 | a)) by (bit_vector);
    }
    let a: u32 = if nonblock {
        0o4000
    } else {
        0
    };
    let b: u32 = if cloexec {
        0o2000000
    } else {
        0
    };
    assert(((2u32 | a) | b) & 3 == 2);
    assert(((2u32 | 0) | b) & 3 == 2);
}

/// The two options of a new descriptor are those of the call.
pub proof fn new_descriptors_have_the_calls_options(initval: u64, clockid: usize, flags: usize)
    ensures
        new_eventfd(initval, flags) matches Ok(e) ==> (e.flags & 0o4000 != 0) == (flags & 0o4000
            != 0) && (e.flags & 0o2000000 != 0) == (flags & 0o2000000 != 0),
        new_timerfd(clockid, flags) matches Ok(t) ==> (t.flags & 0o4000 != 0) == (flags & 0o4000
            != 0) && (t.flags & 0o2000000 != 0) == (flags & 0o2000000 != 0),
        forall|n: SysResult<usize>|
            #![trigger new_memfd(n, flags)]
            new_memfd(n, flags) matches Ok(m) ==> (m.flags & 0o2000000 != 0) == (flags & 1 != 0)
                && m.flags & 0o4000 == 0,
{
    descriptor_options_are_separate(flags & 0o4000 != 0, flags & 0o2000000 != 0);
    descriptor_options_are_separate(false, flags & 1 != 0);
}

} // verus!
