//! Timers that send a signal when they expire.

use crate::errno::{err, ok, Errno, SysResult};
use crate::signal::sig_struct::{valid_signum, Sig, SIGALRM};
use crate::sorted_map::SortedMap;
use crate::syscall::sleep::TIMER_ABSTIME;
use crate::syscall::time::{
    ITimerSpec, SigEvent, CLOCK_BOOTTIME, CLOCK_MONOTONIC, CLOCK_PROCESS_CPUTIME_ID,
    CLOCK_REALTIME, CLOCK_THREAD_CPUTIME_ID,
};
use crate::timer::{duration_ms, ms_to_timespec, spec_of_ms};
use crate::user::{failed, read_result, write_reply, Reply, UserIn, UserOut};
use vstd::prelude::*;

verus! {

/// A timer.
#[derive(Debug, Clone, Copy, PartialEq, Eq, Structural)]
pub struct PosixTimer {
    pub owner_tgid: usize,
    pub clock_id: usize,
    pub signo: i32,
    /// Next expiry, or 0 while the timer is not armed.
    pub deadline_ms: usize,
    /// Period, or 0 for a single expiry.
    pub interval_ms: usize,
}

/// All timers by number.
#[derive(Debug)]
pub struct PosixTimers {
    pub timers: SortedMap<PosixTimer>,
    pub next_id: usize,
}

/// The clocks that timers can use.
pub open spec fn timer_clock(clock_id: usize) -> bool {
    clock_id == CLOCK_REALTIME || clock_id == CLOCK_MONOTONIC || clock_id
        == CLOCK_PROCESS_CPUTIME_ID || clock_id == CLOCK_THREAD_CPUTIME_ID || clock_id
        == CLOCK_BOOTTIME
}

/// The signal of a new timer.
pub open spec fn timer_signal(sevp: UserIn<SigEvent>) -> SysResult<i32> {
    match sevp {
        UserIn::Null => Ok(SIGALRM),
        UserIn::Fault => Err(Errno::EFAULT),
        UserIn::Value(e) => if e.notify != 0 || !valid_signum(e.signo as int) {
            Err(Errno::EINVAL)
        } else {
            Ok(e.signo)
        },
    }
}

impl PosixTimers {
    /// Every timer sends a valid signal.
    pub open spec fn wf(&self) -> bool {
        &&& self.timers.wf()
        &&& forall|id: usize| #[trigger]
            self.timers@.contains_key(id) ==> valid_signum(self.timers@[id].signo as int)
    }

    /// Timer `id` belongs to process `tgid`.
    pub open spec fn owned(&self, id: usize, tgid: usize) -> bool {
        self.timers@.contains_key(id) && self.timers@[id].owner_tgid == tgid
    }

    /// No timers.
    pub fn new() -> (r: Self)
        ensures
            r.wf(),
            r.timers@ == Map::<usize, PosixTimer>::empty(),
            r.next_id == 1,
    {
        PosixTimers { timers: SortedMap::new(), next_id: 1 }
    }
}

/// Whether making a timer changes the timers from `before` to `after` and returns `r`.
pub open spec fn timer_made(
    before: PosixTimers,
    after: PosixTimers,
    tgid: usize,
    clock_id: usize,
    sevp: UserIn<SigEvent>,
    timerid: UserOut,
    r: Reply<i32>,
) -> bool {
    if !timer_clock(clock_id) {
        r == failed::<i32>(Errno::EINVAL) && after == before
    } else {
        match timer_signal(sevp) {
            Err(e) => r == failed::<i32>(e) && after == before,
            Ok(signo) => {
                let id = before.next_id as i32;
                &&& r == write_reply(timerid, 0, id)
                &&& after.next_id == before.next_id.wrapping_add(1)
                &&& after.timers@ == (if timerid == UserOut::Writable {
                    before.timers@.insert(
                        id as usize,
                        PosixTimer {
                            owner_tgid: tgid,
                            clock_id,
                            signo,
                            deadline_ms: 0,
                            interval_ms: 0,
                        },
                    )
                } else {
                    before.timers@
                })
            },
        }
    }
}

/// Makes a timer that is not armed. The timer exists only once its number was
/// written to user memory; a number is used up in any case.
pub fn sys_timer_create(
    t: &mut PosixTimers,
    tgid: usize,
    clock_id: usize,
    sevp: UserIn<SigEvent>,
    timerid: UserOut,
) -> (r: Reply<i32>)
    requires
        old(t).wf(),
    ensures
        final(t).wf(),
        timer_made(*old(t), *final(t), tgid, clock_id, sevp, timerid, r),
{
    if clock_id != CLOCK_REALTIME && clock_id != CLOCK_MONOTONIC && clock_id
        != CLOCK_PROCESS_CPUTIME_ID && clock_id != CLOCK_THREAD_CPUTIME_ID && clock_id
        != CLOCK_BOOTTIME {
        return Reply::fail(Errno::EINVAL);
    }
    let signo: i32 = match sevp {
        UserIn::Null => SIGALRM,
        UserIn::Fault => {
            return Reply::fail(Errno::EFAULT);
        },
        UserIn::Value(e) => {
            if e.notify != 0 {
                return Reply::fail(Errno::EINVAL);
            }
            if !Sig::from(e.signo).is_valid() {
                return Reply::fail(Errno::EINVAL);
            }
            e.signo
        },
    };
    let id: i32 = t.next_id as i32;
    t.next_id = t.next_id.wrapping_add(1);
    match timerid {
        UserOut::Writable => {
            t.timers.insert(
                id as usize,
                PosixTimer {
                    owner_tgid: tgid,
                    clock_id,
                    signo,
                    deadline_ms: 0,
                    interval_ms: 0,
                },
            );
            Reply { ret: Ok(0), out: Some(id) }
        },
        _ => Reply::fail(Errno::EFAULT),
    }
}

/// Removes the timers of a process that has ended.
pub fn remove_posix_timers_for_owner(t: &mut PosixTimers, owner_tgid: usize)
    requires
        old(t).wf(),
    ensures
        final(t).wf(),
        final(t).next_id == old(t).next_id,
        forall|id: usize| #[trigger]
            final(t).timers@.contains_key(id) <==> old(t).timers@.contains_key(id) && old(
                t,
            ).timers@[id].owner_tgid != owner_tgid,
        forall|id: usize| #[trigger]
            final(t).timers@.contains_key(id) ==> final(t).timers@[id] == old(t).timers@[id],
{
    let old_timers = &t.timers;
    let mut kept: SortedMap<PosixTimer> = SortedMap::new();
    let mut i: usize = 0;
    while i < old_timers.entries.len()
        invariant
            old_timers.wf(),
            kept.wf(),
            i <= old_timers.entries@.len(),
            forall|id: usize| #[trigger]
                kept@.contains_key(id) ==> old_timers@.contains_key(id) && kept@[id]
                    == old_timers@[id] && old_timers@[id].owner_tgid != owner_tgid,
            forall|k: int|
                0 <= k < i && (#[trigger] old_timers.entries@[k]).1.owner_tgid != owner_tgid
                    ==> kept@.contains_key(old_timers.entries@[k].0),
        decreases old_timers.entries@.len() - i,
    {
        let (id, timer) = old_timers.entries[i];
        proof {
            old_timers.entry_in_view(i as int);
        }
        if timer.owner_tgid != owner_tgid {
            kept.insert(id, timer);
        }
        i = i + 1;
    }
    proof {
        assert forall|id: usize|
            old_timers@.contains_key(id) && old_timers@[id].owner_tgid != owner_tgid implies
            #[trigger] kept@.contains_key(id) by {
            let k = old_timers.view_has_entry(id);
        }
    }
    t.timers = kept;
}

/// Removes a timer of the calling process.
pub fn sys_timer_delete(t: &mut PosixTimers, tgid: usize, timerid: usize) -> (r: SysResult<usize>)
    requires
        old(t).wf(),
    ensures
        final(t).wf(),
        final(t).next_id == old(t).next_id,
        old(t).owned(timerid, tgid) ==> r == ok(0) && final(t).timers@ == old(t).timers@.remove(
            timerid,
        ),
        !old(t).owned(timerid, tgid) ==> r == err(Errno::EINVAL) && *final(t) == *old(t),
{
    match t.timers.get(timerid) {
        Some(timer) => {
            if timer.owner_tgid != tgid {
                return Err(Errno::EINVAL);
            }
        },
        None => {
            return Err(Errno::EINVAL);
        },
    }
    t.timers.remove(timerid);
    Ok(0)
}

/// Overruns are not counted: always 0 for a timer of the calling process.
pub fn sys_timer_getoverrun(t: &PosixTimers, tgid: usize, timerid: usize) -> (r: SysResult<usize>)
    requires
        t.wf(),
    ensures
        r == (if t.owned(timerid, tgid) {
            ok(0)
        } else {
            err(Errno::EINVAL)
        }),
{
    match t.timers.get(timerid) {
        Some(timer) => if timer.owner_tgid == tgid {
            Ok(0)
        } else {
            Err(Errno::EINVAL)
        },
        None => Err(Errno::EINVAL),
    }
}

/// The time until a timer expires; `now_ms` is the time of its clock, if that
/// can be read.
pub open spec fn remaining_ms(timer: PosixTimer, now_ms: SysResult<usize>) -> usize {
    if timer.deadline_ms == 0 {
        0
    } else {
        match now_ms {
            Ok(now) => timer.deadline_ms.saturating_sub(now),
            Err(_) => 0,
        }
    }
}

/// What is reported of a timer.
pub open spec fn timer_report(timer: PosixTimer, now_ms: SysResult<usize>) -> ITimerSpec {
    ITimerSpec {
        interval: spec_of_ms(timer.interval_ms),
        value: spec_of_ms(remaining_ms(timer, now_ms)),
    }
}

fn posix_timer_snapshot(timer: &PosixTimer, now_ms: &SysResult<usize>) -> (r: ITimerSpec)
    ensures
        r == timer_report(*timer, *now_ms),
{
    let left: usize = if timer.deadline_ms == 0 {
        0
    } else {
        match now_ms {
            Ok(now) => timer.deadline_ms.saturating_sub(*now),
            Err(_) => 0,
        }
    };
    ITimerSpec { interval: ms_to_timespec(timer.interval_ms), value: ms_to_timespec(left) }
}

/// What reading a timer returns.
pub open spec fn timer_reply(
    t: PosixTimers,
    tgid: usize,
    timerid: usize,
    now_ms: SysResult<usize>,
    curr_value: UserOut,
) -> Reply<ITimerSpec> {
    if t.owned(timerid, tgid) {
        write_reply(curr_value, 0, timer_report(t.timers@[timerid], now_ms))
    } else {
        failed::<ITimerSpec>(Errno::EINVAL)
    }
}

/// Reports period and remaining time of a timer of the calling process.
pub fn sys_timer_gettime(
    t: &PosixTimers,
    tgid: usize,
    timerid: usize,
    now_ms: SysResult<usize>,
    curr_value: UserOut,
) -> (r: Reply<ITimerSpec>)
    requires
        t.wf(),
    ensures
        r == timer_reply(*t, tgid, timerid, now_ms, curr_value),
{
    match t.timers.get(timerid) {
        Some(timer) => {
            if timer.owner_tgid != tgid {
                return Reply::fail(Errno::EINVAL);
            }
            curr_value.reply(0, posix_timer_snapshot(timer, &now_ms))
        },
        None => Reply::fail(Errno::EINVAL),
    }
}

/// The deadline of a new setting: none for a zero value, never in the past for
/// an absolute one.
pub open spec fn new_deadline(value_ms: usize, absolute: bool, now_ms: usize) -> usize {
    if value_ms == 0 {
        0
    } else if absolute {
        if value_ms < now_ms {
            now_ms
        } else {
            value_ms
        }
    } else {
        now_ms.saturating_add(value_ms)
    }
}

/// The setting that is asked for, as value and period.
pub open spec fn settime_wish(flags: usize, new_value: UserIn<ITimerSpec>) -> SysResult<
    (usize, usize),
> {
    if new_value is Null || flags & !TIMER_ABSTIME != 0 {
        Err(Errno::EINVAL)
    } else {
        match read_result(new_value) {
            Err(e) => Err(e),
            Ok(v) => match duration_ms(v.value) {
                None => Err(Errno::EINVAL),
                Some(value) => match duration_ms(v.interval) {
                    None => Err(Errno::EINVAL),
                    Some(interval) => Ok((value, interval)),
                },
            },
        }
    }
}

fn read_setting(flags: usize, new_value: UserIn<ITimerSpec>) -> (r: SysResult<(usize, usize)>)
    ensures
        r == settime_wish(flags, new_value),
{
    if new_value.is_null() {
        return Err(Errno::EINVAL);
    }
    if flags & !TIMER_ABSTIME != 0 {
        return Err(Errno::EINVAL);
    }
    let v = match new_value.read() {
        Ok(v) => v,
        Err(e) => {
            return Err(e);
        },
    };
    let value: usize = match v.value.checked_duration_ms() {
        Some(n) => n,
        None => {
            return Err(Errno::EINVAL);
        },
    };
    match v.interval.checked_duration_ms() {
        Some(n) => Ok((value, n)),
        None => Err(Errno::EINVAL),
    }
}

/// Whether arming a timer changes the timers from `before` to `after` and returns `r`.
pub open spec fn timer_armed(
    before: PosixTimers,
    after: PosixTimers,
    tgid: usize,
    timerid: usize,
    flags: usize,
    new_value: UserIn<ITimerSpec>,
    now_ms: SysResult<usize>,
    old_value: UserOut,
    r: Reply<ITimerSpec>,
) -> bool {
    match settime_wish(flags, new_value) {
        Err(e) => r.ret == err(e),
        Ok((value, interval)) => if !before.owned(timerid, tgid) {
            r.ret == err(Errno::EINVAL)
        } else {
            match now_ms {
                Err(e) => r.ret == err(e),
                Ok(now) => if old_value == UserOut::Fault {
                    r.ret == err(Errno::EFAULT)
                } else {
                    let timer = before.timers@[timerid];
                    &&& r.ret == ok(0)
                    &&& r.out == (if old_value == UserOut::Writable {
                        Some(timer_report(timer, now_ms))
                    } else {
                        None
                    })
                    &&& after.timers@ == before.timers@.insert(
                        timerid,
                        PosixTimer {
                            deadline_ms: new_deadline(
                                value,
                                flags & TIMER_ABSTIME != 0,
                                now,
                            ),
                            interval_ms: interval,
                            ..timer
                        },
                    )
                },
            }
        },
    }
}

/// Arms or disarms a timer of the calling process. The old setting is reported
/// first; a failing call sets nothing.
pub fn sys_timer_settime(
    t: &mut PosixTimers,
    tgid: usize,
    timerid: usize,
    flags: usize,
    new_value: UserIn<ITimerSpec>,
    now_ms: SysResult<usize>,
    old_value: UserOut,
) -> (r: Reply<ITimerSpec>)
    requires
        old(t).wf(),
    ensures
        final(t).wf(),
        final(t).next_id == old(t).next_id,
        r.ret is Err ==> r.out is None && *final(t) == *old(t),
        timer_armed(*old(t), *final(t), tgid, timerid, flags, new_value, now_ms, old_value, r),
{
    let (value, interval) = match read_setting(flags, new_value) {
        Ok(x) => x,
        Err(e) => {
            return Reply::fail(e);
        },
    };
    let timer = match t.timers.get(timerid) {
        Some(timer) => *timer,
        None => {
            return Reply::fail(Errno::EINVAL);
        },
    };
    if timer.owner_tgid != tgid {
        return Reply::fail(Errno::EINVAL);
    }
    let old_setting = posix_timer_snapshot(&timer, &now_ms);
    let now: usize = match now_ms {
        Ok(now) => now,
        Err(e) => {
            return Reply::fail(e);
        },
    };
    let deadline_ms: usize = if value == 0 {
        0
    } else if flags & TIMER_ABSTIME != 0 {
        if value < now {
            now
        } else {
            value
        }
    } else {
        now.saturating_add(value)
    };
    let out = match old_value {
        UserOut::Null => None,
        UserOut::Fault => {
            return Reply::fail(Errno::EFAULT);
        },
        UserOut::Writable => Some(old_setting),
    };
    t.timers.insert(timerid, PosixTimer { deadline_ms, interval_ms: interval, ..timer });
    Reply { ret: Ok(0), out }
}

/// A signal that an expired timer sends.
#[derive(Debug, Clone, Copy, PartialEq, Eq, Structural)]
pub struct TimerSignal {
    pub owner_tgid: usize,
    pub signo: i32,
}

/// A timer has expired; `now` is the time of its clock, if that can be read.
pub open spec fn expired(timer: PosixTimer, now: Option<usize>) -> bool {
    now is Some && timer.deadline_ms != 0 && now->0 >= timer.deadline_ms
}

/// A timer after it was looked at: an expired one starts its next period.
pub open spec fn renewed(timer: PosixTimer, now: Option<usize>) -> PosixTimer {
    if expired(timer, now) {
        PosixTimer {
            deadline_ms: if timer.interval_ms == 0 {
                0
            } else {
                now->0.saturating_add(timer.interval_ms)
            },
            ..timer
        }
    } else {
        timer
    }
}

/// The time of the clock of timer `id`.
pub open spec fn timer_now(now: Map<usize, usize>, id: usize) -> Option<usize> {
    if now.contains_key(id) {
        Some(now[id])
    } else {
        None
    }
}

/// The signals of the expired timers, in order of their numbers.
pub open spec fn expiry_signals(s: Seq<(usize, PosixTimer)>, now: Map<usize, usize>) -> Seq<
    TimerSignal,
>
    decreases s.len(),
{
    if s.len() == 0 {
        Seq::empty()
    } else {
        let (id, timer) = s.last();
        let rest = expiry_signals(s.drop_last(), now);
        if expired(timer, timer_now(now, id)) {
            rest.push(TimerSignal { owner_tgid: timer.owner_tgid, signo: timer.signo })
        } else {
            rest
        }
    }
}

/// Looks at all timers. `now` holds, by timer number, the time of each timer's
/// clock that can be read. Answers with the signals to send.
pub fn check_posix_timers(t: &mut PosixTimers, now: &SortedMap<usize>) -> (r: Vec<TimerSignal>)
    requires
        old(t).wf(),
        now.wf(),
    ensures
        final(t).wf(),
        final(t).next_id == old(t).next_id,
        r@ == expiry_signals(old(t).timers.entries@, now@),
        final(t).timers.entries@ == old(t).timers.entries@.map_values(
            |e: (usize, PosixTimer)| (e.0, renewed(e.1, timer_now(now@, e.0))),
        ),
{
    let mut signals: Vec<TimerSignal> = Vec::new();
    let ghost s = t.timers.entries@;
    let ghost f = |e: (usize, PosixTimer)| (e.0, renewed(e.1, timer_now(now@, e.0)));
    let mut i: usize = 0;
    while i < t.timers.entries.len()
        invariant
            now.wf(),
            t.next_id == old(t).next_id,
            s == old(t).timers.entries@,
            old(t).wf(),
            i <= t.timers.entries@.len(),
            t.timers.entries@.len() == s.len(),
            f == (|e: (usize, PosixTimer)| (e.0, renewed(e.1, timer_now(now@, e.0)))),
            forall|k: int| 0 <= k < i ==> #[trigger] t.timers.entries@[k] == f(s[k]),
            forall|k: int| i <= k < s.len() ==> #[trigger] t.timers.entries@[k] == s[k],
            signals@ == expiry_signals(s.take(i as int), now@),
        decreases s.len() - i,
    {
        let (id, timer) = t.timers.entries[i];
        proof {
            assert(s.take(i + 1).drop_last() =~= s.take(i as int));
            assert(s.take(i + 1).last() == s[i as int]);
        }
        match now.get(id) {
            Some(n) => {
                let n: usize = *n;
                if timer.deadline_ms != 0 && n >= timer.deadline_ms {
                    signals.push(
                        TimerSignal { owner_tgid: timer.owner_tgid, signo: timer.signo },
                    );
                    let deadline_ms: usize = if timer.interval_ms == 0 {
                        0
                    } else {
                        n.saturating_add(timer.interval_ms)
                    };
                    t.timers.entries.set(i, (id, PosixTimer { deadline_ms, ..timer }));
                }
            },
            None => {},
        }
        i = i + 1;
    }
    proof {
        assert(s.take(i as int) =~= s);
        assert(t.timers.entries@ =~= s.map_values(f));
        assert(t.timers.wf());
        assert forall|id: usize| #[trigger] t.timers@.contains_key(id) implies valid_signum(
            t.timers@[id].signo as int,
        ) by {
            let k = t.timers.view_has_entry(id);
            old(t).timers.entry_in_view(k);
            assert(old(t).timers@.contains_key(id));
        }
    }
    signals
}

/// A single-shot timer sends its signal once: after it has expired it is not
/// armed any more.
pub proof fn single_shot_expires_once(timer: PosixTimer, now: Option<usize>, later: Option<usize>)
    requires
        timer.interval_ms == 0,
        expired(timer, now),
    ensures
        !expired(renewed(timer, now), later),
{
}

/// A periodic timer does not expire again before a whole period has passed.
pub proof fn periodic_timer_waits_a_period(timer: PosixTimer, now: usize, later: usize)
    requires
        timer.interval_ms > 0,
        expired(timer, Some(now)),
        now + timer.interval_ms <= usize::MAX,
        later < now + timer.interval_ms,
    ensures
        !expired(renewed(timer, Some(now)), Some(later)),
{
}

/// A relative setting is reported back as long as no time passes.
pub proof fn set_timer_is_reported(timer: PosixTimer, value: usize, interval: usize, now: usize)
    requires
        value > 0,
        now + value <= usize::MAX,
    ensures
        timer_report(
            PosixTimer {
                deadline_ms: new_deadline(value, false, now),
                interval_ms: interval,
                ..timer
            },
            Ok(now),
        ) == (ITimerSpec { interval: spec_of_ms(interval), value: spec_of_ms(value) }),
{
}

/// A new timer belongs to its maker, is unarmed, runs on the clock asked for and sends the
/// signal asked for, the alarm signal if none was. No other timer changes.
pub proof fn new_timers_belong_to_their_maker(
    before: PosixTimers,
    after: PosixTimers,
    tgid: usize,
    clock_id: usize,
    sevp: UserIn<SigEvent>,
    r: Reply<i32>,
)
    requires
        timer_made(before, after, tgid, clock_id, sevp, UserOut::Writable, r),
        before.next_id < 0x7fff_ffff,
    ensures
        r.ret is Ok ==> {
            let id = before.next_id as usize;
            &&& r.ret == ok(0)
            &&& r.out == Some(before.next_id as i32)
            &&& after.owned(id, tgid)
            &&& after.timers@[id].clock_id == clock_id
            &&& after.timers@[id].deadline_ms == 0
            &&& after.timers@[id].interval_ms == 0
            &&& after.timers@[id].signo == (match sevp {
                UserIn::Value(e) => e.signo,
                _ => 14,
            })
            &&& after.next_id == before.next_id + 1
            &&& forall|k: usize|
                k != id ==> before.timers@.contains_key(k) == after.timers@.contains_key(k) && (
                before.timers@.contains_key(k) ==> #[trigger] after.timers@[k]
                    == before.timers@[k])
        },
        r.ret is Err ==> after == before,
        (r.ret is Ok) == ((clock_id <= 3 || clock_id == 7) && (match sevp {
            UserIn::Null => true,
            UserIn::Fault => false,
            UserIn::Value(e) => e.notify == 0 && 1 <= e.signo <= 64,
        })),
{
}

/// A timer that was armed goes off at the deadline asked for: as long after now as told, or at
/// the time told but not in the past; and then every period told. Other timers, and what the
/// timer is for, stay.
pub proof fn armed_timers_go_off_when_asked(
    before: PosixTimers,
    after: PosixTimers,
    tgid: usize,
    id: usize,
    flags: usize,
    v: ITimerSpec,
    now: usize,
    old_value: UserOut,
    r: Reply<ITimerSpec>,
)
    requires
        timer_armed(before, after, tgid, id, flags, UserIn::Value(v), Ok(now), old_value, r),
        r.ret is Ok,
    ensures
        before.owned(id, tgid),
        after.owned(id, tgid),
        after.timers@[id].signo == before.timers@[id].signo,
        after.timers@[id].clock_id == before.timers@[id].clock_id,
        after.timers@[id].interval_ms == v.interval.sec * 1000 + (v.interval.nsec + 999_999)
            / 1_000_000,
        v.value.sec == 0 && v.value.nsec == 0 ==> after.timers@[id].deadline_ms == 0,
        !(v.value.sec == 0 && v.value.nsec == 0) ==> {
            let ms = v.value.sec * 1000 + (v.value.nsec + 999_999) / 1_000_000;
            let d = after.timers@[id].deadline_ms as int;
            &&& d >= now
            &&& flags & 1 != 0 ==> d == ms || (d == now && ms < now)
            &&& flags & 1 == 0 ==> d == now + ms || (d == usize::MAX && now + ms > usize::MAX)
        },
        forall|k: usize|
            k != id ==> before.timers@.contains_key(k) == after.timers@.contains_key(k) && (
            before.timers@.contains_key(k) ==> #[trigger] after.timers@[k] == before.timers@[k]),
        old_value == UserOut::Null ==> r.out is None,
        old_value == UserOut::Writable ==> r.out is Some,
{
}

/// Arming is refused for unknown flags, without a setting, for a timer of someone else, and
/// for a setting that is no duration.
pub proof fn unsound_arming_is_refused(
    before: PosixTimers,
    after: PosixTimers,
    tgid: usize,
    id: usize,
    flags: usize,
    new_value: UserIn<ITimerSpec>,
    now: usize,
    r: Reply<ITimerSpec>,
)
    requires
        timer_armed(before, after, tgid, id, flags, new_value, Ok(now), UserOut::Null, r),
    ensures
        flags & !1usize != 0 || new_value is Null || !before.owned(id, tgid) ==> r.ret is Err,
        flags & !1usize != 0 || new_value is Null ==> r.ret == err(Errno::EINVAL),
        flags & !1usize == 0 && new_value is Fault ==> r.ret == err(Errno::EFAULT),
        new_value matches UserIn::Value(v) ==> (v.value.sec < 0 || v.value.nsec < 0 || v.value.nsec
            >= 1_000_000_000 || v.interval.sec < 0 || v.interval.nsec < 0 || v.interval.nsec
            >= 1_000_000_000 ==> r.ret == err(Errno::EINVAL)),
        flags & !1usize == 0 && before.owned(id, tgid) && (new_value matches UserIn::Value(v)
            && duration_ms(v.value) is Some && duration_ms(v.interval) is Some) ==> r.ret == ok(0),
{
}

/// What is shown of a timer is what is missing to its deadline and its period. Only its owner
/// sees it.
pub proof fn timers_show_what_is_missing(t: PosixTimers, tgid: usize, id: usize, now: usize)
    ensures
        timer_reply(t, tgid, id, Ok(now), UserOut::Writable).out matches Some(shown) ==> {
            let timer = t.timers@[id];
            &&& t.owned(id, tgid)
            &&& (timer.deadline_ms >= now ==> now + shown.value.sec * 1000 + shown.value.nsec
                / 1_000_000 == timer.deadline_ms || timer.deadline_ms == 0)
            &&& (timer.deadline_ms <= now ==> shown.value.sec == 0 && shown.value.nsec == 0)
            &&& shown.interval.sec * 1000 + shown.interval.nsec / 1_000_000 == timer.interval_ms
        },
        (timer_reply(t, tgid, id, Ok(now), UserOut::Writable).ret is Ok) == t.owned(id, tgid),
        !t.owned(id, tgid) ==> timer_reply(t, tgid, id, Ok(now), UserOut::Writable) == failed::<
            ITimerSpec,
        >(Errno::EINVAL),
{
    assert(usize::MAX / 1000 <= isize::MAX);
}

/// A timer goes off if it is armed and its deadline has come, and then sends its signal to its
/// owner. Signals come in the order of the timers, one for each that goes off.
pub proof fn expired_timers_signal_their_owner(
    s: Seq<(usize, PosixTimer)>,
    now: Map<usize, usize>,
    i: int,
)
    requires
        0 <= i < s.len(),
        now.contains_key(s[i].0),
        s[i].1.deadline_ms != 0,
        s[i].1.deadline_ms <= now[s[i].0],
    ensures
        expiry_signals(s, now).contains(
            TimerSignal { owner_tgid: s[i].1.owner_tgid, signo: s[i].1.signo },
        ),
    decreases s.len(),
{
    let t = TimerSignal { owner_tgid: s[i].1.owner_tgid, signo: s[i].1.signo };
    let whole = expiry_signals(s, now);
    if i == s.len() - 1 {
        assert(whole.last() == t);
    } else {
        expired_timers_signal_their_owner(s.drop_last(), now, i);
        let rest = expiry_signals(s.drop_last(), now);
        let k = choose|k: int| 0 <= k < rest.len() && rest[k] == t;
        assert(whole[k] == t);
    }
}

/// While no deadline has come no signal is sent.
pub proof fn quiet_timers_send_nothing(s: Seq<(usize, PosixTimer)>, now: Map<usize, usize>)
    requires
        forall|i: int|
            0 <= i < s.len() ==> (#[trigger] s[i]).1.deadline_ms == 0 || !now.contains_key(s[i].0)
                || now[s[i].0] < s[i].1.deadline_ms,
    ensures
        expiry_signals(s, now).len() == 0,
    decreases s.len(),
{
    if s.len() > 0 {
        assert forall|i: int| 0 <= i < s.drop_last().len() implies (
        #[trigger] s.drop_last()[i]).1.deadline_ms == 0 || !now.contains_key(s.drop_last()[i].0)
            || now[s.drop_last()[i].0] < s.drop_last()[i].1.deadline_ms by {
            assert(s.drop_last()[i] == s[i]);
        }
        quiet_timers_send_nothing(s.drop_last(), now);
        assert(s.last() == s[s.len() - 1]);
    }
}

/// A timer of someone else cannot be armed, and reading one's own succeeds with zero.
pub proof fn foreign_timers_are_refused(
    before: PosixTimers,
    after: PosixTimers,
    tgid: usize,
    id: usize,
    flags: usize,
    v: ITimerSpec,
    now: usize,
    r: Reply<ITimerSpec>,
)
    requires
        timer_armed(
            before,
            after,
            tgid,
            id,
            flags,
            UserIn::Value(v),
            Ok(now),
            UserOut::Writable,
            r,
        ),
        duration_ms(v.value) is Some,
        duration_ms(v.interval) is Some,
        flags & !1usize == 0,
    ensures
        !before.owned(id, tgid) ==> r.ret == err(Errno::EINVAL),
        before.owned(id, tgid) ==> r.ret == ok(0),
        before.owned(id, tgid) ==> timer_reply(before, tgid, id, Ok(now), UserOut::Writable).ret
            == ok(0),
        before.owned(id, tgid) ==> timer_reply(before, tgid, id, Ok(now), UserOut::Fault).ret == err(
            Errno::EFAULT,
        ),
{
}

/// A timer on an unknown clock, or with a signal that is none, is invalid; a description that
/// cannot be read is a fault.
pub proof fn unsound_timers_are_not_made(
    before: PosixTimers,
    after: PosixTimers,
    tgid: usize,
    clock_id: usize,
    e: SigEvent,
    r: Reply<i32>,
    after2: PosixTimers,
    r2: Reply<i32>,
)
    requires
        timer_made(before, after, tgid, clock_id, UserIn::Value(e), UserOut::Writable, r),
        timer_made(before, after2, tgid, clock_id, UserIn::Fault, UserOut::Writable, r2),
    ensures
        clock_id > 7 || 4 <= clock_id <= 6 ==> r == failed::<i32>(Errno::EINVAL) && r2 == failed::<
            i32,
        >(Errno::EINVAL),
        clock_id <= 3 || clock_id == 7 ==> r2 == failed::<i32>(Errno::EFAULT),
        (clock_id <= 3 || clock_id == 7) && (e.notify != 0 || e.signo < 1 || e.signo > 64) ==> r
            == failed::<i32>(Errno::EINVAL),
{
}

} // verus!
