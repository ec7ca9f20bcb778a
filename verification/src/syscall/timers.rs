//! One look at everything that can expire.

use crate::sorted_map::SortedMap;
use crate::syscall::posix_timer::{
    check_posix_timers, expiry_signals, renewed, timer_now, PosixTimer, PosixTimers, TimerSignal,
};
use crate::syscall::sleep::{
    check_nanosleep_timeouts, first_deadlines, looked_at, passed, still_ahead, woken, Expired,
    NanosleepWaits,
};
use crate::syscall::special_fd::{check_timerfd_expirations, pending_expirations, TimerFd};
use vstd::prelude::*;

verus! {

/// What a look at all timers gives.
pub struct TimerWork {
    /// The sleeping threads to wake, and when to look again.
    pub sleepers: Expired,
    /// The timer descriptors that have become readable.
    pub readable: Vec<usize>,
    /// The signals of the timers that expired.
    pub signals: Vec<TimerSignal>,
}

/// Looks at the sleeping threads, the timer descriptors and the timers that
/// send signals. `clocks` holds the time of each clock in microseconds, `now_ms`
/// that of each descriptor's clock in milliseconds, `timer_now_ms` that of each
/// timer's clock.
pub fn check_all_task_timers(
    waits: &mut NanosleepWaits,
    clocks: &SortedMap<usize>,
    timerfds: &Vec<TimerFd>,
    now_ms: &Vec<usize>,
    timers: &mut PosixTimers,
    timer_now_ms: &SortedMap<usize>,
) -> (r: TimerWork)
    requires
        old(waits).wf(),
        clocks.wf(),
        now_ms@.len() == timerfds@.len(),
        old(timers).wf(),
        timer_now_ms.wf(),
    ensures
        final(waits).wf(),
        r.sleepers.tids@ == woken(old(waits).buckets@, old(waits).waits@, clocks@),
        r.sleepers.tids@.no_duplicates(),
        forall|tid: usize| #[trigger]
            r.sleepers.tids@.contains(tid) <==> old(waits).waits@.contains_key(tid) && !old(
                waits,
            ).waits@[tid].timed_out && passed(
                clocks@,
                old(waits).waits@[tid].clock_id,
                old(waits).waits@[tid].deadline_us,
            ),
        final(waits).waits@.dom() == old(waits).waits@.dom(),
        forall|tid: usize| #[trigger]
            final(waits).waits@.contains_key(tid) ==> final(waits).waits@[tid] == looked_at(
                clocks@,
                old(waits).waits@[tid],
            ),
        final(waits).buckets@ == old(waits).buckets@.filter(still_ahead(clocks@)),
        r.sleepers.next@ == first_deadlines(final(waits).buckets@),
        r.readable@.no_duplicates(),
        forall|i: int, j: int| 0 <= i < j < r.readable@.len() ==> r.readable@[i] < r.readable@[j],
        forall|i: usize| #[trigger]
            r.readable@.contains(i) <==> i < timerfds@.len() && pending_expirations(
                timerfds@[i as int],
                now_ms@[i as int],
            ) > 0,
        final(timers).wf(),
        final(timers).next_id == old(timers).next_id,
        r.signals@ == expiry_signals(old(timers).timers.entries@, timer_now_ms@),
        final(timers).timers.entries@ == old(timers).timers.entries@.map_values(
            |e: (usize, PosixTimer)| (e.0, renewed(e.1, timer_now(timer_now_ms@, e.0))),
        ),
{
    let sleepers = check_nanosleep_timeouts(waits, clocks);
    let readable = check_timerfd_expirations(timerfds, now_ms);
    let signals = check_posix_timers(timers, timer_now_ms);
    TimerWork { sleepers, readable, signals }
}

} // verus!
