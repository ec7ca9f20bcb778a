//! Resource usage and resource limits.

use crate::errno::{ok, Errno, SysResult};
use crate::syscall::time::TimeVal;
use crate::user::{failed, write_reply, Reply, UserIn, UserOut};
use vstd::prelude::*;

verus! {

/// Accounting ticks per second.
pub const CLK_TCK: usize = 100;

/// Counters of the resources a thread or process has used.
#[derive(Debug, Clone, Copy, PartialEq, Eq, Structural)]
pub struct ResourceUsage {
    pub maxrss_pages: usize,
    pub minflt: usize,
    pub majflt: usize,
    pub inblock: usize,
    pub oublock: usize,
    pub nvcsw: usize,
    pub nivcsw: usize,
}

/// Resource usage in user memory.
#[derive(Debug, Clone, Copy, PartialEq, Eq, Structural)]
pub struct RUsage {
    pub ru_utime: TimeVal,
    pub ru_stime: TimeVal,
    pub ru_maxrss: isize,
    pub ru_ixrss: isize,
    pub ru_idrss: isize,
    pub ru_isrss: isize,
    pub ru_minflt: isize,
    pub ru_majflt: isize,
    pub ru_nswap: isize,
    pub ru_inblock: isize,
    pub ru_oublock: isize,
    pub ru_msgsnd: isize,
    pub ru_msgrcv: isize,
    pub ru_nsignals: isize,
    pub ru_nvcsw: isize,
    pub ru_nivcsw: isize,
}

/// Usage of nothing.
pub open spec fn no_usage() -> RUsage {
    RUsage {
        ru_utime: TimeVal { sec: 0, usec: 0 },
        ru_stime: TimeVal { sec: 0, usec: 0 },
        ru_maxrss: 0,
        ru_ixrss: 0,
        ru_idrss: 0,
        ru_isrss: 0,
        ru_minflt: 0,
        ru_majflt: 0,
        ru_nswap: 0,
        ru_inblock: 0,
        ru_oublock: 0,
        ru_msgsnd: 0,
        ru_msgrcv: 0,
        ru_nsignals: 0,
        ru_nvcsw: 0,
        ru_nivcsw: 0,
    }
}

impl Default for RUsage {
    fn default() -> (r: Self)
        ensures
            r == no_usage(),
    {
        RUsage {
            ru_utime: TimeVal { sec: 0, usec: 0 },
            ru_stime: TimeVal { sec: 0, usec: 0 },
            ru_maxrss: 0,
            ru_ixrss: 0,
            ru_idrss: 0,
            ru_isrss: 0,
            ru_minflt: 0,
            ru_majflt: 0,
            ru_nswap: 0,
            ru_inblock: 0,
            ru_oublock: 0,
            ru_msgsnd: 0,
            ru_msgrcv: 0,
            ru_nsignals: 0,
            ru_nvcsw: 0,
            ru_nivcsw: 0,
        }
    }
}

/// Seconds and microseconds of a tick count.
pub open spec fn time_of_ticks(t: usize) -> TimeVal {
    TimeVal { sec: (t / CLK_TCK) as usize, usec: ((t % CLK_TCK) * 10_000) as usize }
}

/// A counter cut to the signed range.
pub open spec fn clamped(v: int) -> isize {
    if v < isize::MAX {
        v as isize
    } else {
        isize::MAX
    }
}

/// The usage that user programs see; the resident set is given in KiB.
pub open spec fn usage_of(utime: usize, stime: usize, r: ResourceUsage) -> RUsage {
    RUsage {
        ru_utime: time_of_ticks(utime),
        ru_stime: time_of_ticks(stime),
        ru_maxrss: clamped(r.maxrss_pages * 4),
        ru_minflt: clamped(r.minflt as int),
        ru_majflt: clamped(r.majflt as int),
        ru_inblock: clamped(r.inblock as int),
        ru_oublock: clamped(r.oublock as int),
        ru_nvcsw: clamped(r.nvcsw as int),
        ru_nivcsw: clamped(r.nivcsw as int),
        ..no_usage()
    }
}

fn clamp(value: usize) -> (r: isize)
    ensures
        r == clamped(value as int),
{
    if value < isize::MAX as usize {
        value as isize
    } else {
        isize::MAX
    }
}

fn ticks_to_timeval(t: usize) -> (r: TimeVal)
    ensures
        r == time_of_ticks(t),
{
    TimeVal { sec: t / CLK_TCK, usec: (t % CLK_TCK) * 10_000 }
}

/// The usage that user programs see.
pub fn rusage_from_snapshot(utime: usize, stime: usize, r: &ResourceUsage) -> (u: RUsage)
    ensures
        u == usage_of(utime, stime, *r),
{
    let rss: usize = match r.maxrss_pages.checked_mul(4) {
        Some(n) => n,
        None => usize::MAX,
    };
    let mut u = RUsage::default();
    u.ru_utime = ticks_to_timeval(utime);
    u.ru_stime = ticks_to_timeval(stime);
    u.ru_maxrss = clamp(rss);
    u.ru_minflt = clamp(r.minflt);
    u.ru_majflt = clamp(r.majflt);
    u.ru_inblock = clamp(r.inblock);
    u.ru_oublock = clamp(r.oublock);
    u.ru_nvcsw = clamp(r.nvcsw);
    u.ru_nivcsw = clamp(r.nivcsw);
    u
}

/// Processor time and resources of a thread, its process and the children that
/// were waited for.
#[derive(Debug, Clone, Copy)]
pub struct Accounting {
    pub process_ticks: (usize, usize),
    pub child_ticks: (usize, usize),
    pub thread_ticks: (usize, usize),
    pub process: ResourceUsage,
    pub child: ResourceUsage,
    pub thread: ResourceUsage,
}

pub const RUSAGE_SELF: isize = 0;

pub const RUSAGE_CHILDREN: isize = -1;

pub const RUSAGE_THREAD: isize = 1;

/// The larger of two page counts.
pub open spec fn larger(a: usize, b: usize) -> usize {
    if a < b {
        b
    } else {
        a
    }
}

/// Whether asking for the resources used goes from `before` to `after` and returns `r`.
pub open spec fn usage_told(
    before: Accounting,
    after: Accounting,
    who: isize,
    resident: usize,
    usage: UserOut,
    r: Reply<RUsage>,
) -> bool {
    ({
        let seen = larger(before.process.maxrss_pages, resident);
        &&& after == (if who == RUSAGE_SELF || who == RUSAGE_THREAD {
            Accounting {
                process: ResourceUsage { maxrss_pages: seen, ..before.process },
                ..before
            }
        } else {
            before
        })
        &&& r == (if who == RUSAGE_SELF {
            write_reply(
                usage,
                0,
                usage_of(
                    before.process_ticks.0,
                    before.process_ticks.1,
                    ResourceUsage { maxrss_pages: seen, ..before.process },
                ),
            )
        } else if who == RUSAGE_CHILDREN {
            write_reply(
                usage,
                0,
                usage_of(before.child_ticks.0, before.child_ticks.1, before.child),
            )
        } else if who == RUSAGE_THREAD {
            write_reply(
                usage,
                0,
                usage_of(
                    before.thread_ticks.0,
                    before.thread_ticks.1,
                    ResourceUsage { maxrss_pages: seen, ..before.thread },
                ),
            )
        } else {
            failed::<RUsage>(Errno::EINVAL)
        })
    })
}

/// Reports resource usage. `resident` pages are mapped now; a query of the
/// process or the thread counts them towards the largest resident set. A
/// thread's largest resident set is that of its process.
pub fn sys_getrusage(a: &mut Accounting, who: isize, resident: usize, usage: UserOut) -> (r: Reply<
    RUsage,
>)
    ensures
        usage_told(*old(a), *final(a), who, resident, usage, r),
{
    if who == RUSAGE_SELF || who == RUSAGE_THREAD {
        if a.process.maxrss_pages < resident {
            a.process.maxrss_pages = resident;
        }
    }
    let out = if who == RUSAGE_SELF {
        rusage_from_snapshot(a.process_ticks.0, a.process_ticks.1, &a.process)
    } else if who == RUSAGE_CHILDREN {
        rusage_from_snapshot(a.child_ticks.0, a.child_ticks.1, &a.child)
    } else if who == RUSAGE_THREAD {
        let mut res = a.thread;
        res.maxrss_pages = a.process.maxrss_pages;
        rusage_from_snapshot(a.thread_ticks.0, a.thread_ticks.1, &res)
    } else {
        return Reply::fail(Errno::EINVAL);
    };
    usage.reply(0, out)
}

/// A resource limit.
#[derive(Debug, Clone, Copy, PartialEq, Eq, Structural)]
pub struct RLimit {
    pub cur: usize,
    pub max: usize,
}

/// The number of limited resources.
pub const RLIMIT_COUNT: usize = 16;

/// Why a new limit is refused; `valid` tells whether the resource itself
/// accepts the values.
pub open spec fn limit_error(old_limit: RLimit, l: RLimit, euid: usize, valid: SysResult<()>) -> Option<
    Errno,
> {
    if l.cur > l.max {
        Some(Errno::EINVAL)
    } else if l.max > old_limit.max && euid != 0 {
        Some(Errno::EPERM)
    } else {
        match valid {
            Err(e) => Some(e),
            Ok(_) => None,
        }
    }
}

/// Queries and replaces a limit of a process. `limits` are those of the target,
/// or the reason there is none. The old limit is reported before the new one
/// takes effect; a failing call changes nothing.
pub fn sys_prlimit64(
    limits: &mut SysResult<Vec<RLimit>>,
    euid: usize,
    resource: usize,
    new_limit: UserIn<RLimit>,
    valid: SysResult<()>,
    old_limit: UserOut,
) -> (r: Reply<RLimit>)
    requires
        *old(limits) matches Ok(v) ==> v@.len() == RLIMIT_COUNT,
    ensures
        *final(limits) matches Ok(v) ==> v@.len() == RLIMIT_COUNT,
        r.ret is Err ==> *final(limits) == *old(limits),
        match *old(limits) {
            Err(e) => r == failed::<RLimit>(e) && *final(limits) == *old(limits),
            Ok(v) => {
                &&& prlimit_outcome(v@, euid, resource, new_limit, valid, old_limit, r)
                &&& *final(limits) is Ok
                &&& final(limits)->Ok_0@ == prlimit_state(v@, resource, new_limit, r)
            },
        },
{
    match limits {
        Err(e) => Reply::fail(*e),
        Ok(v) => {
            if resource >= RLIMIT_COUNT {
                return Reply::fail(Errno::EINVAL);
            }
            let old_value = v[resource];
            let prepared: Option<RLimit> = match new_limit {
                UserIn::Null => None,
                UserIn::Fault => {
                    return Reply::fail(Errno::EFAULT);
                },
                UserIn::Value(l) => {
                    if l.cur > l.max {
                        return Reply::fail(Errno::EINVAL);
                    }
                    if l.max > old_value.max && euid != 0 {
                        return Reply::fail(Errno::EPERM);
                    }
                    match valid {
                        Err(e) => {
                            return Reply::fail(e);
                        },
                        Ok(_) => {},
                    }
                    Some(l)
                },
            };
            let out = match old_limit {
                UserOut::Null => None,
                UserOut::Writable => Some(old_value),
                UserOut::Fault => {
                    return Reply::fail(Errno::EFAULT);
                },
            };
            match prepared {
                Some(l) => {
                    v.set(resource, l);
                },
                None => {},
            }
            Reply { ret: Ok(0), out }
        },
    }
}

/// The answer of a limit call.
pub open spec fn prlimit_outcome(
    v: Seq<RLimit>,
    euid: usize,
    resource: usize,
    new_limit: UserIn<RLimit>,
    valid: SysResult<()>,
    old_limit: UserOut,
    r: Reply<RLimit>,
) -> bool {
    if resource >= RLIMIT_COUNT {
        r == failed::<RLimit>(Errno::EINVAL)
    } else if new_limit is Fault {
        r == failed::<RLimit>(Errno::EFAULT)
    } else if new_limit is Value && limit_error(
        v[resource as int],
        new_limit->Value_0,
        euid,
        valid,
    ) is Some {
        r == failed::<RLimit>(
            limit_error(v[resource as int], new_limit->Value_0, euid, valid)->0,
        )
    } else if old_limit == UserOut::Fault {
        r == failed::<RLimit>(Errno::EFAULT)
    } else {
        &&& r.ret == ok(0)
        &&& r.out == (if old_limit == UserOut::Writable {
            Some(v[resource as int])
        } else {
            None
        })
    }
}

/// The limits after a limit call.
pub open spec fn prlimit_state(
    v: Seq<RLimit>,
    resource: usize,
    new_limit: UserIn<RLimit>,
    r: Reply<RLimit>,
) -> Seq<RLimit> {
    if r.ret is Ok && new_limit is Value {
        v.update(resource as int, new_limit->Value_0)
    } else {
        v
    }
}

/// Queries a limit of the caller.
pub fn sys_getrlimit(limits: &mut SysResult<Vec<RLimit>>, resource: usize, old_limit: UserOut) -> (r:
    Reply<RLimit>)
    requires
        *old(limits) matches Ok(v) && v@.len() == RLIMIT_COUNT,
    ensures
        *final(limits) is Ok,
        final(limits)->Ok_0@ == old(limits)->Ok_0@,
        prlimit_outcome(
            old(limits)->Ok_0@,
            0,
            resource,
            UserIn::Null,
            Ok(()),
            old_limit,
            r,
        ),
{
    sys_prlimit64(limits, 0, resource, UserIn::Null, Ok(()), old_limit)
}

/// Replaces a limit of the caller.
pub fn sys_setrlimit(
    limits: &mut SysResult<Vec<RLimit>>,
    euid: usize,
    resource: usize,
    new_limit: UserIn<RLimit>,
    valid: SysResult<()>,
) -> (r: SysResult<usize>)
    requires
        *old(limits) matches Ok(v) && v@.len() == RLIMIT_COUNT,
    ensures
        *final(limits) is Ok,
        prlimit_outcome(
            old(limits)->Ok_0@,
            euid,
            resource,
            new_limit,
            valid,
            UserOut::Null,
            (Reply { ret: r, out: None }),
        ),
        final(limits)->Ok_0@ == prlimit_state(
            old(limits)->Ok_0@,
            resource,
            new_limit,
            (Reply { ret: r, out: None }),
        ),
{
    let r = sys_prlimit64(limits, euid, resource, new_limit, valid, UserOut::Null);
    r.ret
}

/// No limit ever has its soft value above its hard value, as long as changes
/// go through these calls and all limits start that way.
pub proof fn limits_stay_ordered(
    v: Seq<RLimit>,
    euid: usize,
    resource: usize,
    new_limit: UserIn<RLimit>,
    valid: SysResult<()>,
    old_limit: UserOut,
    r: Reply<RLimit>,
    k: int,
)
    requires
        v.len() == RLIMIT_COUNT,
        0 <= k < v.len(),
        v[k].cur <= v[k].max,
        prlimit_outcome(v, euid, resource, new_limit, valid, old_limit, r),
    ensures
        prlimit_state(v, resource, new_limit, r)[k].cur <= prlimit_state(
            v,
            resource,
            new_limit,
            r,
        )[k].max,
{
}

/// Without root a hard limit never grows.
pub proof fn hard_limits_only_shrink(
    v: Seq<RLimit>,
    euid: usize,
    resource: usize,
    new_limit: UserIn<RLimit>,
    valid: SysResult<()>,
    old_limit: UserOut,
    r: Reply<RLimit>,
    k: int,
)
    requires
        v.len() == RLIMIT_COUNT,
        0 <= k < v.len(),
        euid != 0,
        prlimit_outcome(v, euid, resource, new_limit, valid, old_limit, r),
    ensures
        prlimit_state(v, resource, new_limit, r)[k].max <= v[k].max,
{
}

/// Hundredths of a second become seconds and microseconds that add up to the same time.
pub proof fn ticks_are_hundredths(t: usize)
    ensures
        time_of_ticks(t).sec * 1_000_000 + time_of_ticks(t).usec == t * 10_000,
        time_of_ticks(t).usec < 1_000_000,
{
}

/// What is told of a usage is its own counts, each in its own place, with the memory in
/// kilobytes of four to a page.
pub proof fn usages_are_told_in_their_places(utime: usize, stime: usize, u: ResourceUsage)
    ensures
        usage_of(utime, stime, u).ru_utime.sec == utime / 100 && usage_of(
            utime,
            stime,
            u,
        ).ru_stime.sec == stime / 100,
        u.maxrss_pages * 4 <= isize::MAX ==> usage_of(utime, stime, u).ru_maxrss == u.maxrss_pages
            * 4,
        u.minflt <= isize::MAX ==> usage_of(utime, stime, u).ru_minflt == u.minflt,
        u.majflt <= isize::MAX ==> usage_of(utime, stime, u).ru_majflt == u.majflt,
        u.inblock <= isize::MAX ==> usage_of(utime, stime, u).ru_inblock == u.inblock,
        u.oublock <= isize::MAX ==> usage_of(utime, stime, u).ru_oublock == u.oublock,
        u.nvcsw <= isize::MAX ==> usage_of(utime, stime, u).ru_nvcsw == u.nvcsw,
        u.nivcsw <= isize::MAX ==> usage_of(utime, stime, u).ru_nivcsw == u.nivcsw,
        u.minflt > isize::MAX ==> usage_of(utime, stime, u).ru_minflt == isize::MAX,
        usage_of(utime, stime, u).ru_nswap == 0 && usage_of(utime, stime, u).ru_nsignals == 0,
{
}

/// The caller asks about the whole process, its children or its thread, and is told of that
/// one. The largest memory seen never shrinks, and is that of the process for a thread too.
pub proof fn usages_are_of_whom_was_asked(
    before: Accounting,
    after: Accounting,
    who: isize,
    resident: usize,
    r: Reply<RUsage>,
)
    requires
        usage_told(before, after, who, resident, UserOut::Writable, r),
    ensures
        after.process.maxrss_pages >= before.process.maxrss_pages,
        after.child == before.child && after.thread == before.thread && after.process_ticks
            == before.process_ticks && after.child_ticks == before.child_ticks
            && after.thread_ticks == before.thread_ticks,
        who == 0 ==> after.process.maxrss_pages >= resident && r.out == Some(
            usage_of(before.process_ticks.0, before.process_ticks.1, after.process),
        ),
        who == -1 ==> after == before && r.out == Some(
            usage_of(before.child_ticks.0, before.child_ticks.1, before.child),
        ),
        who == 1 ==> after.process.maxrss_pages >= resident && (r.out matches Some(u)
            && u.ru_utime == time_of_ticks(before.thread_ticks.0) && u.ru_stime == time_of_ticks(
            before.thread_ticks.1,
        ) && (before.thread.minflt <= isize::MAX ==> u.ru_minflt == before.thread.minflt) && (
        after.process.maxrss_pages * 4 <= isize::MAX ==> u.ru_maxrss == after.process.maxrss_pages
            * 4)),
        who < -1 || who > 1 ==> r == failed::<RUsage>(Errno::EINVAL) && after == before,
{
}

/// A limit is told as it was before the call and is the one given after it; no other limit
/// changes. A soft limit over the hard one is invalid, and only the superuser raises a hard one.
pub proof fn limits_are_replaced_as_given(
    v: Seq<RLimit>,
    euid: usize,
    resource: usize,
    l: RLimit,
    r: Reply<RLimit>,
)
    requires
        v.len() == 16,
        prlimit_outcome(v, euid, resource, UserIn::Value(l), Ok(()), UserOut::Writable, r),
    ensures
        resource >= 16 ==> r == failed::<RLimit>(Errno::EINVAL),
        resource < 16 && l.cur > l.max ==> r == failed::<RLimit>(Errno::EINVAL),
        resource < 16 && l.cur <= l.max && l.max > v[resource as int].max && euid != 0 ==> r
            == failed::<RLimit>(Errno::EPERM),
        resource < 16 && l.cur <= l.max && (l.max <= v[resource as int].max || euid == 0) ==> {
            let after = prlimit_state(v, resource, UserIn::Value(l), r);
            &&& r.ret == ok(0)
            &&& r.out == Some(v[resource as int])
            &&& after[resource as int] == l
            &&& forall|k: int| 0 <= k < 16 && k != resource ==> after[k] == v[k]
        },
{
}

} // verus!
