//! Scheduling policies, priorities and processor affinity.

use crate::errno::{err, ok, Errno, SysResult};
use crate::perf::counters::{counted, process_yield, syscall_yield, Counters, Snapshot};
use crate::task::{distinct_processes, process_at, Process};
use crate::timer::TimeSpec;
use crate::user::{failed, read_result, write_reply, Reply, UserIn, UserOut};
use vstd::bytes::*;
use vstd::prelude::*;

verus! {

pub const SCHED_OTHER: usize = 0;

pub const SCHED_FIFO: usize = 1;

pub const SCHED_RR: usize = 2;

pub const SCHED_BATCH: usize = 3;

pub const SCHED_IDLE: usize = 5;

pub const SCHED_DEADLINE: usize = 6;

pub const SCHED_RESET_ON_FORK: usize = 0x4000_0000;

pub const SCHED_ATTR_MIN_SIZE: u32 = 24;

pub const SCHED_ATTR_SIZE: u32 = 48;

/// Scheduling attributes in user memory.
#[derive(Debug, Clone, Copy, PartialEq, Eq, Structural)]
pub struct SchedAttr {
    pub size: u32,
    pub sched_policy: u32,
    pub sched_flags: u64,
    pub sched_nice: i32,
    pub sched_priority: u32,
    pub sched_runtime: u64,
    pub sched_deadline: u64,
    pub sched_period: u64,
}

/// A thread as the scheduler sees it.
#[derive(Debug, Clone, Copy, PartialEq, Eq, Structural)]
pub struct SchedTask {
    pub tid: usize,
    pub uid: usize,
    pub euid: usize,
    pub policy: usize,
    pub priority: i32,
    pub nice: i32,
    pub reset_on_fork: bool,
    /// Processors the thread may run on, one bit each.
    pub affinity: u64,
}

/// All threads, and which of them makes the call.
#[derive(Debug)]
pub struct SchedTable {
    pub tasks: Vec<SchedTask>,
    pub current: usize,
    /// The caller may schedule any thread.
    pub cap_sys_nice: bool,
    /// The highest real-time priority the caller may give.
    pub rtprio_limit: usize,
    /// Processors that run, one bit each.
    pub online: u64,
}

/// Thread `tid` is at index `i`.
pub open spec fn task_at(tasks: Seq<SchedTask>, tid: usize, i: int) -> bool {
    0 <= i < tasks.len() && tasks[i].tid == tid
}

impl SchedTable {
    /// The caller exists and thread numbers are unique.
    pub open spec fn wf(&self) -> bool {
        &&& self.current < self.tasks@.len()
        &&& forall|i: int, j: int|
            0 <= i < self.tasks@.len() && 0 <= j < self.tasks@.len() && #[trigger] self.tasks@[i].tid
                == #[trigger] self.tasks@[j].tid ==> i == j
    }

    /// The thread that `pid` names: 0 names the caller.
    pub open spec fn target(&self, pid: isize) -> SysResult<int> {
        if pid < 0 {
            Err(Errno::EINVAL)
        } else if pid == 0 {
            Ok(self.current as int)
        } else if exists|i: int| #[trigger] task_at(self.tasks@, pid as usize, i) {
            Ok(choose|i: int| #[trigger] task_at(self.tasks@, pid as usize, i))
        } else {
            Err(Errno::ESRCH)
        }
    }

    /// Only the thread at `i` differs from `t`.
    pub open spec fn only_changes(&self, t: &SchedTable, i: int, task: SchedTask) -> bool {
        &&& self.tasks@ == t.tasks@.update(i, task)
        &&& self.current == t.current
        &&& self.cap_sys_nice == t.cap_sys_nice
        &&& self.rtprio_limit == t.rtprio_limit
        &&& self.online == t.online
    }

    fn sched_task(&self, pid: isize) -> (r: SysResult<usize>)
        requires
            self.wf(),
        ensures
            match r {
                Ok(i) => self.target(pid) == Ok::<int, Errno>(i as int) && i < self.tasks@.len(),
                Err(e) => self.target(pid) == Err::<int, Errno>(e),
            },
    {
        if pid < 0 {
            return Err(Errno::EINVAL);
        }
        if pid == 0 {
            return Ok(self.current);
        }
        let mut i: usize = 0;
        while i < self.tasks.len()
            invariant
                self.wf(),
                pid > 0,
                i <= self.tasks@.len(),
                forall|k: int| 0 <= k < i ==> (#[trigger] self.tasks@[k]).tid != pid as usize,
            decreases self.tasks@.len() - i,
        {
            if self.tasks[i].tid == pid as usize {
                assert(task_at(self.tasks@, pid as usize, i as int));
                return Ok(i);
            }
            i = i + 1;
        }
        Err(Errno::ESRCH)
    }

    fn replace(&mut self, i: usize, task: SchedTask)
        requires
            old(self).wf(),
            i < old(self).tasks@.len(),
            task.tid == old(self).tasks@[i as int].tid,
        ensures
            final(self).wf(),
            final(self).only_changes(old(self), i as int, task),
    {
        self.tasks.set(i, task);
    }
}

/// Policies for ordinary threads.
pub open spec fn regular_policy(policy: usize) -> bool {
    policy == SCHED_OTHER || policy == SCHED_BATCH || policy == SCHED_IDLE
}

/// Policies for real-time threads.
pub open spec fn rt_policy(policy: usize) -> bool {
    policy == SCHED_FIFO || policy == SCHED_RR
}

fn is_regular_sched_policy(policy: usize) -> (r: bool)
    ensures
        r == regular_policy(policy),
{
    policy == SCHED_OTHER || policy == SCHED_BATCH || policy == SCHED_IDLE
}

fn is_rt_sched_policy(policy: usize) -> (r: bool)
    ensures
        r == rt_policy(policy),
{
    policy == SCHED_FIFO || policy == SCHED_RR
}

/// Policy number and reset flag of a policy argument; unknown bits are refused.
pub open spec fn normalized(policy: usize) -> SysResult<(usize, bool)> {
    if policy & !(SCHED_RESET_ON_FORK | 0xff) != 0 {
        Err(Errno::EINVAL)
    } else {
        Ok((policy & !SCHED_RESET_ON_FORK, policy & SCHED_RESET_ON_FORK != 0))
    }
}

fn normalize_sched_policy(policy: usize) -> (r: SysResult<(usize, bool)>)
    ensures
        r == normalized(policy),
{
    let base: usize = policy & !SCHED_RESET_ON_FORK;
    if policy & !(SCHED_RESET_ON_FORK | 0xff) != 0 {
        return Err(Errno::EINVAL);
    }
    Ok((base, policy & SCHED_RESET_ON_FORK != 0))
}

/// Real-time threads have priority 1 to 99, ordinary threads priority 0.
pub open spec fn valid_param(policy: usize, priority: i32) -> bool {
    (rt_policy(policy) && 1 <= priority <= 99) || (regular_policy(policy) && priority == 0)
}

fn check_sched_param(policy: usize, priority: i32) -> (r: SysResult<()>)
    ensures
        r == (if valid_param(policy, priority) {
            Ok::<(), Errno>(())
        } else {
            Err(Errno::EINVAL)
        }),
{
    if is_rt_sched_policy(policy) {
        if priority < 1 || priority > 99 {
            return Err(Errno::EINVAL);
        }
    } else if is_regular_sched_policy(policy) {
        if priority != 0 {
            return Err(Errno::EINVAL);
        }
    } else {
        return Err(Errno::EINVAL);
    }
    Ok(())
}

/// Without the capability a caller schedules only threads of its own user, and
/// gives no real-time priority above its limit.
pub open spec fn may_schedule(t: &SchedTable, i: int, policy: usize, priority: i32) -> bool {
    let me = t.tasks@[t.current as int];
    let target = t.tasks@[i];
    t.cap_sys_nice || ((me.euid == target.uid || me.euid == target.euid) && (rt_policy(policy)
        ==> priority <= t.rtprio_limit))
}

fn check_sched_permission(t: &SchedTable, i: usize, policy: usize, priority: i32) -> (r: SysResult<
    (),
>)
    requires
        t.wf(),
        i < t.tasks@.len(),
        valid_param(policy, priority),
    ensures
        r == (if may_schedule(t, i as int, policy, priority) {
            Ok::<(), Errno>(())
        } else {
            Err(Errno::EPERM)
        }),
{
    if t.cap_sys_nice {
        return Ok(());
    }
    let me = t.tasks[t.current];
    let target = t.tasks[i];
    if me.euid != target.uid && me.euid != target.euid {
        return Err(Errno::EPERM);
    }
    if is_rt_sched_policy(policy) {
        if priority as usize > t.rtprio_limit {
            return Err(Errno::EPERM);
        }
    }
    Ok(())
}

/// Why a new policy and priority are refused for the thread at `i`.
pub open spec fn sched_refused(t: &SchedTable, i: int, policy: usize, priority: i32) -> Option<Errno> {
    if !valid_param(policy, priority) {
        Some(Errno::EINVAL)
    } else if !may_schedule(t, i, policy, priority) {
        Some(Errno::EPERM)
    } else {
        None
    }
}

/// Eight bytes, of which missing ones are zero.
pub open spec fn padded(bytes: Seq<u8>) -> Seq<u8> {
    Seq::new(
        8,
        |i: int|
            if i < bytes.len() {
                bytes[i]
            } else {
                0u8
            },
    )
}

/// The processor mask that user memory holds.
pub open spec fn mask_of(bytes: Seq<u8>) -> u64 {
    spec_u64_from_le_bytes(padded(bytes))
}

/// Why a new affinity is refused, up to the reading of the mask.
pub open spec fn affinity_denied(t: &SchedTable, i: int) -> bool {
    let me = t.tasks@[t.current as int];
    let target = t.tasks@[i];
    !t.cap_sys_nice && me.euid != target.uid && me.euid != target.euid
}

/// Whether setting the processors of a task goes from `before` to `after` and returns `r`.
pub open spec fn affinity_set(
    before: &SchedTable,
    after: &SchedTable,
    pid: isize,
    cpusetsize: usize,
    mask: UserIn<Vec<u8>>,
    r: SysResult<usize>,
) -> bool {
    match before.target(pid) {
        Err(e) => r == err(e) && *after == *before,
        Ok(i) => if affinity_denied(before, i) {
            r == err(Errno::EPERM) && *after == *before
        } else if cpusetsize == 0 {
            r == err(Errno::EINVAL) && *after == *before
        } else {
            match read_result(mask) {
                Err(e) => r == err(e) && *after == *before,
                Ok(v) => {
                    let effective = mask_of(v@) & before.online;
                    if effective == 0 {
                        r == err(Errno::EINVAL) && *after == *before
                    } else {
                        &&& r == ok(0)
                        &&& after.only_changes(
                            before,
                            i,
                            (SchedTask { affinity: effective, ..before.tasks@[i] }),
                        )
                    }
                },
            }
        },
    }
}

/// Restricts a thread to the running processors of a mask; a mask without any
/// running processor is refused.
pub fn sys_sched_setaffinity(
    t: &mut SchedTable,
    pid: isize,
    cpusetsize: usize,
    mask: UserIn<Vec<u8>>,
) -> (r: SysResult<usize>)
    requires
        old(t).wf(),
        mask matches UserIn::Value(v) ==> v@.len() == cpusetsize,
    ensures
        final(t).wf(),
        affinity_set(old(t), final(t), pid, cpusetsize, mask, r),
{
    let i: usize = match t.sched_task(pid) {
        Ok(i) => i,
        Err(e) => {
            return Err(e);
        },
    };
    let me = t.tasks[t.current];
    let target = t.tasks[i];
    if !t.cap_sys_nice && me.euid != target.uid && me.euid != target.euid {
        return Err(Errno::EPERM);
    }
    if cpusetsize == 0 {
        return Err(Errno::EINVAL);
    }
    let bytes = match mask.read() {
        Ok(v) => v,
        Err(e) => {
            return Err(e);
        },
    };
    let mut word: Vec<u8> = Vec::new();
    let mut k: usize = 0;
    while k < 8
        invariant
            k <= 8,
            word@.len() == k,
            forall|j: int| 0 <= j < k ==> #[trigger] word@[j] == padded(bytes@)[j],
        decreases 8 - k,
    {
        if k < bytes.len() {
            word.push(bytes[k]);
        } else {
            word.push(0);
        }
        k = k + 1;
    }
    assert(word@ =~= padded(bytes@));
    let requested: u64 = u64_from_le_bytes(word.as_slice());
    let effective: u64 = requested & t.online;
    if effective == 0 {
        return Err(Errno::EINVAL);
    }
    t.replace(i, SchedTask { affinity: effective, ..target });
    Ok(0)
}

/// The bytes that report a processor mask in a buffer of `size` bytes.
pub open spec fn mask_bytes(mask: u64, size: usize) -> Seq<u8> {
    Seq::new(
        size as nat,
        |i: int|
            if i < 8 {
                spec_u64_to_le_bytes(mask)[i]
            } else {
                0u8
            },
    )
}

/// Whether asking for the processors of a task returns `r`.
pub open spec fn affinity_told(
    t: &SchedTable,
    pid: isize,
    cpusetsize: usize,
    mask: UserOut,
    r: Reply<Vec<u8>>,
) -> bool {
    match t.target(pid) {
        Err(e) => r.ret == err(e) && r.out is None,
        Ok(i) => if cpusetsize == 0 {
            r.ret == err(Errno::EINVAL) && r.out is None
        } else if mask != UserOut::Writable {
            r.ret == err(Errno::EFAULT) && r.out is None
        } else {
            &&& r.ret == ok(cpusetsize)
            &&& r.out is Some
            &&& r.out->0@ == mask_bytes(t.tasks@[i].affinity & t.online, cpusetsize)
        },
    }
}

/// Reports the running processors a thread may run on.
pub fn sys_sched_getaffinity(t: &SchedTable, pid: isize, cpusetsize: usize, mask: UserOut) -> (r:
    Reply<Vec<u8>>)
    requires
        t.wf(),
    ensures
        affinity_told(t, pid, cpusetsize, mask, r),
{
    let i: usize = match t.sched_task(pid) {
        Ok(i) => i,
        Err(e) => {
            return Reply::fail(e);
        },
    };
    if cpusetsize == 0 {
        return Reply::fail(Errno::EINVAL);
    }
    if mask.check().is_err() {
        return Reply::fail(Errno::EFAULT);
    }
    let affinity: u64 = t.tasks[i].affinity & t.online;
    proof {
        lemma_auto_spec_u64_to_from_le_bytes();
    }
    let word = u64_to_le_bytes(affinity);
    let mut out: Vec<u8> = Vec::new();
    let mut k: usize = 0;
    while k < cpusetsize
        invariant
            k <= cpusetsize,
            word@ == spec_u64_to_le_bytes(affinity),
            word@.len() == 8,
            out@.len() == k,
            forall|j: int|
                0 <= j < k ==> #[trigger] out@[j] == mask_bytes(affinity, cpusetsize)[j],
        decreases cpusetsize - k,
    {
        if k < 8 {
            out.push(word[k]);
        } else {
            out.push(0);
        }
        k = k + 1;
    }
    assert(out@ =~= mask_bytes(affinity, cpusetsize));
    Reply { ret: Ok(cpusetsize), out: Some(out) }
}

/// What a set affinity mask reads back as: an eight byte report of `mask` holds
/// `mask` again.
pub proof fn affinity_round_trip(mask: u64)
    ensures
        mask_of(mask_bytes(mask, 8)) == mask,
{
    lemma_auto_spec_u64_to_from_le_bytes();
    assert(padded(mask_bytes(mask, 8)) =~= spec_u64_to_le_bytes(mask));
}

/// Whether setting the policy of a task goes from `before` to `after` and returns `r`.
pub open spec fn policy_set(
    before: &SchedTable,
    after: &SchedTable,
    pid: isize,
    policy: usize,
    param: UserIn<i32>,
    r: SysResult<usize>,
) -> bool {
    match before.target(pid) {
        Err(e) => r == err(e),
        Ok(i) => match normalized(policy) {
            Err(e) => r == err(e),
            Ok((base, reset)) => match param {
                UserIn::Null => r == err(Errno::EINVAL),
                UserIn::Fault => r == err(Errno::EFAULT),
                UserIn::Value(p) => match sched_refused(before, i, base, p) {
                    Some(e) => r == err(e),
                    None => r == ok(0) && after.only_changes(
                        before,
                        i,
                        (SchedTask {
                            policy: base,
                            priority: p,
                            reset_on_fork: reset,
                            ..before.tasks@[i]
                        }),
                    ),
                },
            },
        },
    }
}

/// Changes policy and priority of a thread.
pub fn sys_sched_setscheduler(
    t: &mut SchedTable,
    pid: isize,
    policy: usize,
    param: UserIn<i32>,
) -> (r: SysResult<usize>)
    requires
        old(t).wf(),
    ensures
        final(t).wf(),
        r is Err ==> *final(t) == *old(t),
        policy_set(old(t), final(t), pid, policy, param, r),
{
    let i: usize = match t.sched_task(pid) {
        Ok(i) => i,
        Err(e) => {
            return Err(e);
        },
    };
    let (base, reset) = match normalize_sched_policy(policy) {
        Ok(x) => x,
        Err(e) => {
            return Err(e);
        },
    };
    if param.is_null() {
        return Err(Errno::EINVAL);
    }
    let priority: i32 = match param.read() {
        Ok(p) => p,
        Err(e) => {
            return Err(e);
        },
    };
    match check_sched_param(base, priority) {
        Ok(_) => {},
        Err(e) => {
            return Err(e);
        },
    }
    match check_sched_permission(t, i, base, priority) {
        Ok(_) => {},
        Err(e) => {
            return Err(e);
        },
    }
    let task = t.tasks[i];
    t.replace(i, SchedTask { policy: base, priority, reset_on_fork: reset, ..task });
    Ok(0)
}

/// What asking for the policy of a task returns.
pub open spec fn policy_told(t: &SchedTable, pid: isize) -> SysResult<usize> {
    match t.target(pid) {
        Err(e) => err(e),
        Ok(i) => ok(t.tasks@[i].policy),
    }
}

/// The policy of a thread.
pub fn sys_sched_getscheduler(t: &SchedTable, pid: isize) -> (r: SysResult<usize>)
    requires
        t.wf(),
    ensures
        r == policy_told(t, pid),
{
    match t.sched_task(pid) {
        Ok(i) => Ok(t.tasks[i].policy),
        Err(e) => Err(e),
    }
}

/// Whether setting the priority of a task goes from `before` to `after` and returns `r`.
pub open spec fn param_set(
    before: &SchedTable,
    after: &SchedTable,
    pid: isize,
    param: UserIn<i32>,
    r: SysResult<usize>,
) -> bool {
    match before.target(pid) {
        Err(e) => r == err(e),
        Ok(i) => match param {
            UserIn::Null => r == err(Errno::EINVAL),
            UserIn::Fault => r == err(Errno::EFAULT),
            UserIn::Value(p) => match sched_refused(before, i, before.tasks@[i].policy, p) {
                Some(e) => r == err(e),
                None => r == ok(0) && after.only_changes(
                    before,
                    i,
                    (SchedTask { priority: p, ..before.tasks@[i] }),
                ),
            },
        },
    }
}

/// Changes the priority of a thread within its policy.
pub fn sys_sched_setparam(t: &mut SchedTable, pid: isize, param: UserIn<i32>) -> (r: SysResult<
    usize,
>)
    requires
        old(t).wf(),
    ensures
        final(t).wf(),
        r is Err ==> *final(t) == *old(t),
        param_set(old(t), final(t), pid, param, r),
{
    let i: usize = match t.sched_task(pid) {
        Ok(i) => i,
        Err(e) => {
            return Err(e);
        },
    };
    if param.is_null() {
        return Err(Errno::EINVAL);
    }
    let priority: i32 = match param.read() {
        Ok(p) => p,
        Err(e) => {
            return Err(e);
        },
    };
    let task = t.tasks[i];
    match check_sched_param(task.policy, priority) {
        Ok(_) => {},
        Err(e) => {
            return Err(e);
        },
    }
    match check_sched_permission(t, i, task.policy, priority) {
        Ok(_) => {},
        Err(e) => {
            return Err(e);
        },
    }
    t.replace(i, SchedTask { priority, ..task });
    Ok(0)
}

/// What asking for the priority of a task returns.
pub open spec fn param_told(t: &SchedTable, pid: isize, param: UserOut) -> Reply<i32> {
    if param == UserOut::Null {
        failed::<i32>(Errno::EINVAL)
    } else {
        match t.target(pid) {
            Err(e) => failed::<i32>(e),
            Ok(i) => write_reply(param, 0, t.tasks@[i].priority),
        }
    }
}

/// Reports the priority of a thread.
pub fn sys_sched_getparam(t: &SchedTable, pid: isize, param: UserOut) -> (r: Reply<i32>)
    requires
        t.wf(),
    ensures
        r == param_told(t, pid, param),
{
    match param {
        UserOut::Null => {
            return Reply::fail(Errno::EINVAL);
        },
        _ => {},
    }
    match t.sched_task(pid) {
        Ok(i) => param.reply(0, t.tasks[i].priority),
        Err(e) => Reply::fail(e),
    }
}

/// The bound on priorities of a policy, where `top` is that of real-time ones.
pub open spec fn priority_bound(policy: usize, top: usize) -> SysResult<usize> {
    match normalized(policy) {
        Err(e) => Err(e),
        Ok((base, _)) => if rt_policy(base) {
            Ok(top)
        } else if regular_policy(base) || base == SCHED_DEADLINE {
            Ok(0)
        } else {
            Err(Errno::EINVAL)
        },
    }
}

fn bound(policy: usize, top: usize) -> (r: SysResult<usize>)
    ensures
        r == priority_bound(policy, top),
{
    match normalize_sched_policy(policy) {
        Err(e) => Err(e),
        Ok((base, _)) => if is_rt_sched_policy(base) {
            Ok(top)
        } else if is_regular_sched_policy(base) || base == SCHED_DEADLINE {
            Ok(0)
        } else {
            Err(Errno::EINVAL)
        },
    }
}

/// The highest priority of a policy.
pub fn sys_sched_get_priority_max(policy: isize) -> (r: SysResult<usize>)
    ensures
        r == priority_bound(policy as usize, 99),
{
    bound(policy as usize, 99)
}

/// The lowest priority of a policy.
pub fn sys_sched_get_priority_min(policy: isize) -> (r: SysResult<usize>)
    ensures
        r == priority_bound(policy as usize, 1),
{
    bound(policy as usize, 1)
}

/// What asking for the time slice of a task returns.
pub open spec fn interval_told(t: &SchedTable, pid: isize, interval: UserOut) -> Reply<TimeSpec> {
    if interval == UserOut::Null {
        failed::<TimeSpec>(Errno::EINVAL)
    } else {
        match t.target(pid) {
            Err(e) => failed::<TimeSpec>(e),
            Ok(i) => write_reply(
                interval,
                0,
                TimeSpec {
                    sec: 0,
                    nsec: if t.tasks@[i].policy == SCHED_RR {
                        100_000_000
                    } else {
                        0
                    },
                },
            ),
        }
    }
}

/// Reports the time slice of a thread: 100 ms for round-robin threads, else 0.
pub fn sys_sched_rr_get_interval(t: &SchedTable, pid: isize, interval: UserOut) -> (r: Reply<
    TimeSpec,
>)
    requires
        t.wf(),
    ensures
        r == interval_told(t, pid, interval),
{
    match interval {
        UserOut::Null => {
            return Reply::fail(Errno::EINVAL);
        },
        _ => {},
    }
    match t.sched_task(pid) {
        Ok(i) => {
            let nsec: isize = if t.tasks[i].policy == SCHED_RR {
                100_000_000
            } else {
                0
            };
            interval.reply(0, TimeSpec { sec: 0, nsec })
        },
        Err(e) => Reply::fail(e),
    }
}

/// The scheduling state that an attribute structure asks for.
pub struct SchedWish {
    pub policy: usize,
    pub priority: i32,
    pub reset_on_fork: bool,
    pub nice: Option<i32>,
}

/// Reads an attribute structure. The deadline policy is not offered.
pub open spec fn attr_wish(a: SchedAttr) -> SysResult<SchedWish> {
    if a.size < SCHED_ATTR_MIN_SIZE || a.sched_flags & !(SCHED_RESET_ON_FORK as u64) != 0 {
        Err(Errno::EINVAL)
    } else {
        match normalized(a.sched_policy as usize) {
            Err(e) => Err(e),
            Ok((policy, reset)) => if policy == SCHED_DEADLINE {
                Err(Errno::EINVAL)
            } else if rt_policy(policy) {
                Ok(
                    SchedWish {
                        policy,
                        priority: a.sched_priority as i32,
                        reset_on_fork: reset || a.sched_flags & SCHED_RESET_ON_FORK as u64 != 0,
                        nice: None,
                    },
                )
            } else if !(-20 <= a.sched_nice <= 19) || a.sched_priority != 0 {
                Err(Errno::EINVAL)
            } else {
                Ok(
                    SchedWish {
                        policy,
                        priority: 0,
                        reset_on_fork: reset || a.sched_flags & SCHED_RESET_ON_FORK as u64 != 0,
                        nice: if regular_policy(policy) {
                            Some(a.sched_nice)
                        } else {
                            None
                        },
                    },
                )
            },
        }
    }
}

fn read_attr(a: &SchedAttr) -> (r: SysResult<SchedWish>)
    ensures
        r == attr_wish(*a),
{
    if a.size < SCHED_ATTR_MIN_SIZE {
        return Err(Errno::EINVAL);
    }
    if a.sched_flags & !(SCHED_RESET_ON_FORK as u64) != 0 {
        return Err(Errno::EINVAL);
    }
    let (policy, reset) = match normalize_sched_policy(a.sched_policy as usize) {
        Ok(x) => x,
        Err(e) => {
            return Err(e);
        },
    };
    let reset_on_fork = reset || a.sched_flags & SCHED_RESET_ON_FORK as u64 != 0;
    if policy == SCHED_DEADLINE {
        return Err(Errno::EINVAL);
    }
    if is_rt_sched_policy(policy) {
        return Ok(
            SchedWish { policy, priority: a.sched_priority as i32, reset_on_fork, nice: None },
        );
    }
    if a.sched_nice < -20 || a.sched_nice > 19 {
        return Err(Errno::EINVAL);
    }
    if a.sched_priority != 0 {
        return Err(Errno::EINVAL);
    }
    let nice = if is_regular_sched_policy(policy) {
        Some(a.sched_nice)
    } else {
        None
    };
    Ok(SchedWish { policy, priority: 0, reset_on_fork, nice })
}

/// The thread after the wish was granted.
pub open spec fn granted(task: SchedTask, w: SchedWish) -> SchedTask {
    SchedTask {
        policy: w.policy,
        priority: w.priority,
        reset_on_fork: w.reset_on_fork,
        nice: match w.nice {
            Some(n) => n,
            None => task.nice,
        },
        ..task
    }
}

/// Whether setting the attributes of a task goes from `before` to `after` and returns `r`.
pub open spec fn attr_set(
    before: &SchedTable,
    after: &SchedTable,
    pid: isize,
    attr: UserIn<SchedAttr>,
    flags: u32,
    r: SysResult<usize>,
) -> bool {
    if attr is Null || flags != 0 {
        r == err(Errno::EINVAL)
    } else {
        match before.target(pid) {
            Err(e) => r == err(e),
            Ok(i) => match read_result(attr) {
                Err(e) => r == err(e),
                Ok(a) => match attr_wish(a) {
                    Err(e) => r == err(e),
                    Ok(w) => match sched_refused(before, i, w.policy, w.priority) {
                        Some(e) => r == err(e),
                        None => r == ok(0) && after.only_changes(
                            before,
                            i,
                            granted(before.tasks@[i], w),
                        ),
                    },
                },
            },
        }
    }
}

/// Changes all scheduling attributes of a thread at once; a failing call
/// changes nothing.
pub fn sys_sched_setattr(t: &mut SchedTable, pid: isize, attr: UserIn<SchedAttr>, flags: u32) -> (r:
    SysResult<usize>)
    requires
        old(t).wf(),
    ensures
        final(t).wf(),
        r is Err ==> *final(t) == *old(t),
        attr_set(old(t), final(t), pid, attr, flags, r),
{
    if attr.is_null() || flags != 0 {
        return Err(Errno::EINVAL);
    }
    let i: usize = match t.sched_task(pid) {
        Ok(i) => i,
        Err(e) => {
            return Err(e);
        },
    };
    let a = match attr.read() {
        Ok(a) => a,
        Err(e) => {
            return Err(e);
        },
    };
    let w = match read_attr(&a) {
        Ok(w) => w,
        Err(e) => {
            return Err(e);
        },
    };
    match check_sched_param(w.policy, w.priority) {
        Ok(_) => {},
        Err(e) => {
            return Err(e);
        },
    }
    match check_sched_permission(t, i, w.policy, w.priority) {
        Ok(_) => {},
        Err(e) => {
            return Err(e);
        },
    }
    let task = t.tasks[i];
    let nice: i32 = match w.nice {
        Some(n) => n,
        None => task.nice,
    };
    t.replace(
        i,
        SchedTask {
            policy: w.policy,
            priority: w.priority,
            reset_on_fork: w.reset_on_fork,
            nice,
            ..task
        },
    );
    Ok(0)
}

/// The attribute structure of a thread.
pub open spec fn attr_of(task: SchedTask) -> SchedAttr {
    SchedAttr {
        size: SCHED_ATTR_SIZE,
        sched_policy: task.policy as u32,
        sched_flags: 0,
        sched_nice: task.nice,
        sched_priority: if rt_policy(task.policy) {
            task.priority as u32
        } else {
            0
        },
        sched_runtime: 0,
        sched_deadline: 0,
        sched_period: 0,
    }
}

/// An attribute structure and how many of its bytes are written.
pub struct AttrOut {
    pub attr: SchedAttr,
    pub bytes: u32,
}

/// What asking for the attributes of a task returns.
pub open spec fn attr_told(
    t: &SchedTable,
    pid: isize,
    attr: UserOut,
    size: u32,
    flags: u32,
) -> Reply<AttrOut> {
    if attr == UserOut::Null || flags != 0 || size < SCHED_ATTR_MIN_SIZE {
        failed::<AttrOut>(Errno::EINVAL)
    } else {
        match t.target(pid) {
            Err(e) => failed::<AttrOut>(e),
            Ok(i) => write_reply(
                attr,
                0,
                AttrOut {
                    attr: attr_of(t.tasks@[i]),
                    bytes: if size < SCHED_ATTR_SIZE {
                        size
                    } else {
                        SCHED_ATTR_SIZE
                    },
                },
            ),
        }
    }
}

/// Reports the scheduling attributes of a thread, in at most `size` bytes.
pub fn sys_sched_getattr(t: &SchedTable, pid: isize, attr: UserOut, size: u32, flags: u32) -> (r:
    Reply<AttrOut>)
    requires
        t.wf(),
    ensures
        r == attr_told(t, pid, attr, size, flags),
{
    match attr {
        UserOut::Null => {
            return Reply::fail(Errno::EINVAL);
        },
        _ => {},
    }
    if flags != 0 || size < SCHED_ATTR_MIN_SIZE {
        return Reply::fail(Errno::EINVAL);
    }
    match t.sched_task(pid) {
        Ok(i) => {
            let task = t.tasks[i];
            let sched_priority: u32 = if is_rt_sched_policy(task.policy) {
                task.priority as u32
            } else {
                0
            };
            let a = SchedAttr {
                size: SCHED_ATTR_SIZE,
                sched_policy: task.policy as u32,
                sched_flags: 0,
                sched_nice: task.nice,
                sched_priority,
                sched_runtime: 0,
                sched_deadline: 0,
                sched_period: 0,
            };
            let bytes: u32 = if size < SCHED_ATTR_SIZE {
                size
            } else {
                SCHED_ATTR_SIZE
            };
            attr.reply(0, AttrOut { attr: a, bytes })
        },
        Err(e) => Reply::fail(e),
    }
}

/// No thread ever has a policy and priority that do not belong together, as
/// long as changes go through the calls above.
pub proof fn granted_parameters_are_valid(t: &SchedTable, i: int, policy: usize, priority: i32)
    requires
        sched_refused(t, i, policy, priority) is None,
    ensures
        valid_param(policy, priority),
        may_schedule(t, i, policy, priority),
{
}

pub const PRIO_PROCESS: usize = 0;

pub const PRIO_PGRP: usize = 1;

pub const PRIO_USER: usize = 2;

/// The number that a priority call speaks of: 0 means the caller's own.
pub open spec fn priority_id(which: usize, who: usize, me: Process) -> usize {
    if who != 0 {
        who
    } else if which == PRIO_PROCESS {
        me.tgid
    } else if which == PRIO_PGRP {
        me.pgid
    } else {
        me.uid
    }
}

/// Whether a priority call speaks of process `p`.
pub open spec fn priority_selects(which: usize, id: usize, p: Process) -> bool {
    p.alive && (if which == PRIO_PROCESS {
        p.tgid == id
    } else if which == PRIO_PGRP {
        p.pgid == id
    } else {
        p.uid == id
    })
}

fn selects(which: usize, id: usize, p: &Process) -> (r: bool)
    ensures
        r == priority_selects(which, id, *p),
{
    p.alive && (if which == PRIO_PROCESS {
        p.tgid == id
    } else if which == PRIO_PGRP {
        p.pgid == id
    } else {
        p.uid == id
    })
}

fn target_id(which: usize, who: usize, me: &Process) -> (r: usize)
    ensures
        r == priority_id(which, who, *me),
{
    if who != 0 {
        who
    } else if which == PRIO_PROCESS {
        me.tgid
    } else if which == PRIO_PGRP {
        me.pgid
    } else {
        me.uid
    }
}

/// A nice value from an argument, cut to the range -20 to 19.
pub open spec fn clamped_nice(prio: isize) -> i32 {
    let n = prio as i32;
    if n < -20 {
        (-20) as i32
    } else if n > 19 {
        19
    } else {
        n
    }
}

/// `me` owns `p`.
pub open spec fn same_user(me: Process, p: Process) -> bool {
    me.euid == p.uid || me.euid == p.euid
}

/// Some process is spoken of.
pub open spec fn any_selected(which: usize, id: usize, procs: Seq<Process>) -> bool {
    exists|i: int| 0 <= i < procs.len() && #[trigger] priority_selects(which, id, procs[i])
}

/// Some process of the caller's user would get a better priority.
pub open spec fn any_raised(me: Process, which: usize, id: usize, nice: i32, procs: Seq<Process>) -> bool {
    me.euid != 0 && exists|i: int|
        0 <= i < procs.len() && #[trigger] priority_selects(which, id, procs[i]) && same_user(
            me,
            procs[i],
        ) && nice < procs[i].nice
}

/// Some process belongs to another user.
pub open spec fn any_foreign(me: Process, which: usize, id: usize, procs: Seq<Process>) -> bool {
    me.euid != 0 && exists|i: int|
        0 <= i < procs.len() && #[trigger] priority_selects(which, id, procs[i]) && !same_user(
            me,
            procs[i],
        )
}

/// Whether setting the niceness of processes goes from `before` to `after` and returns `r`.
pub open spec fn priority_set(
    before: Seq<Process>,
    after: Seq<Process>,
    me: Process,
    which: usize,
    who: usize,
    prio: isize,
    r: SysResult<usize>,
) -> bool {
    ({
        let id = priority_id(which, who, me);
        let nice = clamped_nice(prio);
        &&& r == (if which > PRIO_USER {
            err(Errno::EINVAL)
        } else if !any_selected(which, id, before) {
            err(Errno::ESRCH)
        } else if any_raised(me, which, id, nice, before) {
            err(Errno::EACCES)
        } else if any_foreign(me, which, id, before) {
            err(Errno::EPERM)
        } else {
            ok(0)
        })
        &&& r is Err ==> after == before
        &&& r is Ok ==> after == before.map_values(
            |p: Process|
                if priority_selects(which, id, p) {
                    Process { nice, ..p }
                } else {
                    p
                },
        )
    })
}

/// Changes the nice value of processes. Only root may lower a nice value or
/// touch processes of other users; a failing call changes nothing.
pub fn sys_setpriority(
    procs: &mut Vec<Process>,
    me: &Process,
    which: usize,
    who: usize,
    prio: isize,
) -> (r: SysResult<usize>)
    ensures
        priority_set(old(procs)@, final(procs)@, *me, which, who, prio, r),
{
    let n: i32 = prio as i32;
    let nice: i32 = if n < -20 {
        -20
    } else if n > 19 {
        19
    } else {
        n
    };
    if which > PRIO_USER {
        return Err(Errno::EINVAL);
    }
    let id: usize = target_id(which, who, me);
    let mut found = false;
    let mut raised = false;
    let mut foreign = false;
    let mut i: usize = 0;
    while i < procs.len()
        invariant
            i <= procs@.len(),
            procs@ == old(procs)@,
            found == any_selected(which, id, procs@.take(i as int)),
            raised == any_raised(*me, which, id, nice, procs@.take(i as int)),
            foreign == any_foreign(*me, which, id, procs@.take(i as int)),
        decreases procs@.len() - i,
    {
        let p = procs[i];
        let ghost a = procs@.take(i as int);
        let ghost b = procs@.take(i + 1);
        proof {
            assert(b =~= a.push(p));
            lemma_selection_push(*me, which, id, nice, a, p);
        }
        if selects(which, id, &p) {
            found = true;
            if me.euid != 0 {
                let same = me.euid == p.uid || me.euid == p.euid;
                if same && nice < p.nice {
                    raised = true;
                }
                if !same {
                    foreign = true;
                }
            }
        }
        i = i + 1;
    }
    proof {
        assert(procs@.take(i as int) =~= procs@);
    }
    if !found {
        return Err(Errno::ESRCH);
    }
    if raised {
        return Err(Errno::EACCES);
    }
    if foreign {
        return Err(Errno::EPERM);
    }
    let mut k: usize = 0;
    while k < procs.len()
        invariant
            k <= procs@.len(),
            procs@.len() == old(procs)@.len(),
            forall|j: int|
                0 <= j < k ==> #[trigger] procs@[j] == (if priority_selects(
                    which,
                    id,
                    old(procs)@[j],
                ) {
                    Process { nice, ..old(procs)@[j] }
                } else {
                    old(procs)@[j]
                }),
            forall|j: int| k <= j < procs@.len() ==> #[trigger] procs@[j] == old(procs)@[j],
        decreases procs@.len() - k,
    {
        let p = procs[k];
        if selects(which, id, &p) {
            procs.set(k, Process { nice, ..p });
        }
        k = k + 1;
    }
    proof {
        assert(procs@ =~= old(procs)@.map_values(
            |p: Process|
                if priority_selects(which, id, p) {
                    Process { nice, ..p }
                } else {
                    p
                },
        ));
    }
    Ok(0)
}

proof fn lemma_selection_push(
    me: Process,
    which: usize,
    id: usize,
    nice: i32,
    a: Seq<Process>,
    p: Process,
)
    ensures
        any_selected(which, id, a.push(p)) == (any_selected(which, id, a) || priority_selects(
            which,
            id,
            p,
        )),
        any_raised(me, which, id, nice, a.push(p)) == (any_raised(me, which, id, nice, a) || (
        me.euid != 0 && priority_selects(which, id, p) && same_user(me, p) && nice < p.nice)),
        any_foreign(me, which, id, a.push(p)) == (any_foreign(me, which, id, a) || (me.euid != 0
            && priority_selects(which, id, p) && !same_user(me, p))),
{
    let b = a.push(p);
    assert forall|i: int| 0 <= i < a.len() implies b[i] == a[i] by {}
    assert(b[a.len() as int] == p);
    if any_selected(which, id, a) {
        let i = choose|i: int| 0 <= i < a.len() && #[trigger] priority_selects(which, id, a[i]);
        assert(priority_selects(which, id, b[i]));
    }
    if any_raised(me, which, id, nice, a) {
        let i = choose|i: int|
            0 <= i < a.len() && #[trigger] priority_selects(which, id, a[i]) && same_user(me, a[i])
                && nice < a[i].nice;
        assert(priority_selects(which, id, b[i]));
    }
    if any_foreign(me, which, id, a) {
        let i = choose|i: int|
            0 <= i < a.len() && #[trigger] priority_selects(which, id, a[i]) && !same_user(
                me,
                a[i],
            );
        assert(priority_selects(which, id, b[i]));
    }
    assert(priority_selects(which, id, p) ==> priority_selects(which, id, b[a.len() as int]));
}

/// `n` is the lowest nice value of the processes spoken of.
pub open spec fn lowest_nice(which: usize, id: usize, procs: Seq<Process>, n: i32) -> bool {
    &&& exists|i: int|
        0 <= i < procs.len() && #[trigger] priority_selects(which, id, procs[i]) && procs[i].nice
            == n
    &&& forall|i: int|
        0 <= i < procs.len() && #[trigger] priority_selects(which, id, procs[i]) ==> n
            <= procs[i].nice
}

/// Whether asking for the niceness of processes returns `r`.
pub open spec fn priority_told(
    procs: Seq<Process>,
    me: Process,
    which: usize,
    who: usize,
    r: SysResult<usize>,
) -> bool {
    ({
        let id = priority_id(which, who, me);
        if which > PRIO_USER {
            r == err(Errno::EINVAL)
        } else if !any_selected(which, id, procs) {
            r == err(Errno::ESRCH)
        } else {
            &&& r is Ok
            &&& 1 <= r->Ok_0 <= 40
            &&& lowest_nice(which, id, procs, (20 - r->Ok_0) as i32)
        }
    })
}

/// Reports 20 minus the lowest nice value of the processes spoken of.
pub fn sys_getpriority(procs: &Vec<Process>, me: &Process, which: usize, who: usize) -> (r:
    SysResult<usize>)
    requires
        forall|i: int| 0 <= i < procs@.len() ==> -20 <= (#[trigger] procs@[i]).nice <= 19,
    ensures
        priority_told(procs@, *me, which, who, r),
{
    if which > PRIO_USER {
        return Err(Errno::EINVAL);
    }
    let id: usize = target_id(which, who, me);
    let mut best: i32 = 20;
    let mut i: usize = 0;
    while i < procs.len()
        invariant
            i <= procs@.len(),
            forall|k: int| 0 <= k < procs@.len() ==> -20 <= (#[trigger] procs@[k]).nice <= 19,
            -20 <= best <= 20,
            best == 20 <==> !(exists|k: int|
                0 <= k < i && #[trigger] priority_selects(which, id, procs@[k])),
            best != 20 ==> exists|k: int|
                0 <= k < i && #[trigger] priority_selects(which, id, procs@[k]) && procs@[k].nice
                    == best,
            forall|k: int|
                0 <= k < i && #[trigger] priority_selects(which, id, procs@[k]) ==> best
                    <= procs@[k].nice,
        decreases procs@.len() - i,
    {
        let p = procs[i];
        if selects(which, id, &p) {
            assert(priority_selects(which, id, procs@[i as int]));
            if p.nice < best {
                best = p.nice;
            }
        }
        i = i + 1;
    }
    if best == 20 {
        return Err(Errno::ESRCH);
    }
    Ok((20 - best) as usize)
}

/// The nice value that was set is what is reported, for a single process.
pub proof fn set_priority_is_reported(p: Process, prio: isize)
    requires
        p.alive,
    ensures
        lowest_nice(
            PRIO_PROCESS,
            p.tgid,
            seq![Process { nice: clamped_nice(prio), ..p }],
            clamped_nice(prio),
        ),
        -20 <= clamped_nice(prio) <= 19,
{
    let s = seq![Process { nice: clamped_nice(prio), ..p }];
    assert(priority_selects(PRIO_PROCESS, p.tgid, s[0]));
}

/// Gives up the processor: the yield is counted, and the caller lets another
/// thread run.
pub fn sys_sched_yield(c: &mut Counters) -> (r: SysResult<usize>)
    ensures
        r == ok(0),
        *final(c) == counted(
            *old(c),
            Snapshot {
                syscall_yields: old(c).counts.syscall_yields.wrapping_add(1),
                process_yields: old(c).counts.process_yields.wrapping_add(1),
                ..old(c).counts
            },
        ),
{
    syscall_yield(c, 1);
    process_yield(c, 1);
    Ok(0)
}

/// A task is found by its number, the caller by zero. No task has a negative number.
pub proof fn tasks_are_found_by_number(t: &SchedTable, pid: isize, i: int)
    requires
        t.wf(),
    ensures
        t.target(0) == Ok::<int, Errno>(t.current as int),
        pid < 0 ==> t.target(pid) == Err::<int, Errno>(Errno::EINVAL),
        pid > 0 && 0 <= i < t.tasks@.len() && t.tasks@[i].tid == pid ==> t.target(pid) == Ok::<
            int,
            Errno,
        >(i),
        pid > 0 && (forall|k: int| 0 <= k < t.tasks@.len() ==> (#[trigger] t.tasks@[k]).tid != pid)
            ==> t.target(pid) == Err::<int, Errno>(Errno::ESRCH),
{
    if pid > 0 && 0 <= i < t.tasks@.len() && t.tasks@[i].tid == pid {
        assert(task_at(t.tasks@, pid as usize, i));
    }
}

/// The two real-time policies have priorities from 1 to 99, the three regular ones only zero,
/// and no other policy can be set.
pub proof fn priorities_fit_their_policy(policy: usize, priority: i32)
    ensures
        policy == 1 || policy == 2 ==> valid_param(policy, priority) == (1 <= priority && priority
            <= 99),
        policy == 0 || policy == 3 || policy == 5 ==> valid_param(policy, priority) == (priority
            == 0),
        policy == 4 || policy > 5 ==> !valid_param(policy, priority),
{
}

/// A policy that was set is the policy told, with the priority told, of that task alone.
pub proof fn set_policies_are_told(
    before: &SchedTable,
    after: &SchedTable,
    pid: isize,
    policy: usize,
    p: i32,
    r: SysResult<usize>,
)
    requires
        policy_set(before, after, pid, policy, UserIn::Value(p), r),
        before.wf(),
        after.wf(),
        policy & !(0x4000_0000usize | 0xff) == 0,
    ensures
        r is Ok ==> {
            let i = before.target(pid)->Ok_0;
            &&& policy_told(after, pid) == ok(policy & !0x4000_0000usize)
            &&& param_told(after, pid, UserOut::Writable).out == Some(p)
            &&& after.tasks@[i].reset_on_fork == (policy & 0x4000_0000 != 0)
            &&& after.tasks@[i].nice == before.tasks@[i].nice && after.tasks@[i].affinity
                == before.tasks@[i].affinity
            &&& forall|k: int|
                0 <= k < before.tasks@.len() && k != i ==> after.tasks@[k] == before.tasks@[k]
        },
        before.cap_sys_nice && before.target(pid) is Ok && (policy == 0 && p == 0 || (policy == 1
            || policy == 2) && 1 <= p <= 99) && policy & !0x4000_0000usize == policy ==> r == ok(0),
{
    if r is Ok {
        let i = before.target(pid)->Ok_0;
        if pid != 0 {
            assert(task_at(before.tasks@, pid as usize, i));
            assert(task_at(after.tasks@, pid as usize, i));
        }
    }
}

/// A change of scheduling needs the right to do so, or the same user and, for a real-time
/// policy, a priority within the limit.
pub proof fn scheduling_is_the_users_own(t: &SchedTable, i: int, policy: usize, p: i32)
    ensures
        sched_refused(t, i, policy, p) == Some(Errno::EINVAL) || (sched_refused(t, i, policy, p)
            is None) == (t.cap_sys_nice || ((t.tasks@[t.current as int].euid == t.tasks@[i].uid
            || t.tasks@[t.current as int].euid == t.tasks@[i].euid) && ((policy == 1 || policy == 2)
            ==> p <= t.rtprio_limit))),
        sched_refused(t, i, policy, p) matches Some(e) ==> e == Errno::EINVAL || e == Errno::EPERM,
        (sched_refused(t, i, policy, p) == Some(Errno::EINVAL)) == !valid_param(policy, p),
{
}

/// Setting a priority keeps the policy and changes that task alone.
pub proof fn set_priorities_keep_the_policy(
    before: &SchedTable,
    after: &SchedTable,
    pid: isize,
    p: i32,
    r: SysResult<usize>,
)
    requires
        param_set(before, after, pid, UserIn::Value(p), r),
        before.wf(),
        r is Ok,
    ensures
        ({
            let i = before.target(pid)->Ok_0;
            &&& r == ok(0)
            &&& after.tasks@[i].priority == p
            &&& after.tasks@[i].policy == before.tasks@[i].policy
            &&& valid_param(before.tasks@[i].policy, p)
            &&& forall|k: int|
                0 <= k < before.tasks@.len() && k != i ==> after.tasks@[k] == before.tasks@[k]
        }),
{
    let i = before.target(pid)->Ok_0;
    if pid != 0 {
        assert(task_at(before.tasks@, pid as usize, i));
    }
}

/// A task is confined to the processors named that are there. Naming none that is there is an
/// error.
pub proof fn affinities_are_processors_present(
    before: &SchedTable,
    after: &SchedTable,
    pid: isize,
    cpusetsize: usize,
    v: Vec<u8>,
    r: SysResult<usize>,
)
    requires
        affinity_set(before, after, pid, cpusetsize, UserIn::Value(v), r),
        before.wf(),
    ensures
        r is Ok ==> {
            let i = before.target(pid)->Ok_0;
            &&& r == ok(0)
            &&& after.tasks@[i].affinity == mask_of(v@) & before.online
            &&& after.tasks@[i].affinity != 0
            &&& after.tasks@[i].policy == before.tasks@[i].policy
            &&& forall|k: int|
                0 <= k < before.tasks@.len() && k != i ==> after.tasks@[k] == before.tasks@[k]
        },
        before.cap_sys_nice && before.target(pid) is Ok && cpusetsize > 0 ==> r == (if mask_of(v@)
            & before.online == 0 {
            err(Errno::EINVAL)
        } else {
            ok(0)
        }),
        !before.cap_sys_nice && (before.target(pid) matches Ok(i)
            && before.tasks@[before.current as int].euid
            != before.tasks@[i].uid && before.tasks@[before.current as int].euid
            != before.tasks@[i].euid) ==> r == err(Errno::EPERM),
{
    if before.target(pid) is Ok && pid != 0 {
        assert(task_at(before.tasks@, pid as usize, before.target(pid)->Ok_0));
    }
}

/// What is told of a task's processors fills the whole buffer: the mask, lowest byte first, and
/// zeros.
pub proof fn affinities_are_told_lowest_first(
    t: &SchedTable,
    pid: isize,
    cpusetsize: usize,
    r: Reply<Vec<u8>>,
)
    requires
        affinity_told(t, pid, cpusetsize, UserOut::Writable, r),
        cpusetsize >= 8,
        t.target(pid) is Ok,
    ensures
        r.ret == ok(cpusetsize),
        r.out is Some,
        r.out->0@.len() == cpusetsize,
        spec_u64_from_le_bytes(r.out->0@.subrange(0, 8)) == t.tasks@[t.target(pid)->Ok_0].affinity
            & t.online,
        forall|i: int| 8 <= i < cpusetsize ==> r.out->0@[i] == 0,
{
    lemma_auto_spec_u64_to_from_le_bytes();
    let m = t.tasks@[t.target(pid)->Ok_0].affinity & t.online;
    assert(r.out->0@.subrange(0, 8) =~= spec_u64_to_le_bytes(m));
}

/// The bounds of a policy's priorities are the first and the last that can be set.
pub proof fn bounds_are_the_priorities_ends(policy: usize)
    requires
        policy & !(0x4000_0000usize | 0xff) == 0,
        policy & !0x4000_0000usize == policy,
    ensures
        policy == 1 || policy == 2 ==> priority_bound(policy, 99) == ok(99) && priority_bound(
            policy,
            1,
        ) == ok(1),
        policy == 0 || policy == 3 || policy == 5 || policy == 6 ==> priority_bound(policy, 99)
            == ok(0) && priority_bound(policy, 1) == ok(0),
        policy == 4 || policy > 6 ==> priority_bound(policy, 99) == err(Errno::EINVAL),
{
}

/// A wish for a real-time policy has a priority and no niceness; one for a regular policy has a
/// niceness from -20 to 19 and no priority. Deadlines cannot be wished for.
pub proof fn wishes_fit_their_policy(a: SchedAttr)
    ensures
        attr_wish(a) matches Ok(w) ==> {
            &&& a.size >= 24
            &&& w.policy != 6
            &&& (w.policy == 1 || w.policy == 2) ==> w.priority == a.sched_priority as i32
                && w.nice is None
            &&& (w.policy == 0 || w.policy == 3 || w.policy == 5) ==> w.priority == 0 && w.nice
                == Some(a.sched_nice) && -20 <= a.sched_nice <= 19 && a.sched_priority == 0
            &&& w.policy == (a.sched_policy as usize & !0x4000_0000usize)
            &&& w.reset_on_fork == (a.sched_policy as usize & 0x4000_0000 != 0 || a.sched_flags
                & 0x4000_0000 != 0)
        },
        attr_wish(a) matches Err(e) ==> e == Errno::EINVAL,
        a.size < 24 ==> attr_wish(a) is Err,
        a.size >= 24 && a.sched_flags & !0x4000_0000u64 == 0 && a.sched_policy as usize & !(
        0x4000_0000usize | 0xff) == 0 && a.sched_policy as usize & !0x4000_0000usize == 0 && -20
            <= a.sched_nice <= 19 && a.sched_priority == 0 ==> attr_wish(a) is Ok,
{
}

/// Attributes that were set are told again: policy, niceness and real-time priority.
pub proof fn set_attributes_are_told(
    before: &SchedTable,
    after: &SchedTable,
    pid: isize,
    a: SchedAttr,
    r: SysResult<usize>,
)
    requires
        attr_set(before, after, pid, UserIn::Value(a), 0, r),
        before.wf(),
        after.wf(),
        r is Ok,
    ensures
        r == ok(0),
        attr_told(after, pid, UserOut::Writable, 48, 0).out matches Some(o) && o.bytes == 48
            && o.attr.size == 48 && o.attr.sched_policy == (a.sched_policy as usize
            & !0x4000_0000usize) as u32 && (o.attr.sched_policy == 1 || o.attr.sched_policy == 2
            ==> a.sched_priority <= 0x7fff_ffff ==> o.attr.sched_priority == a.sched_priority)
                && (o.attr.sched_policy == 0
            || o.attr.sched_policy == 3 || o.attr.sched_policy == 5 ==> o.attr.sched_nice
            == a.sched_nice && o.attr.sched_priority == 0),
{
    let i = before.target(pid)->Ok_0;
    if pid != 0 {
        assert(task_at(before.tasks@, pid as usize, i));
        assert(task_at(after.tasks@, pid as usize, i));
    }
    let w = attr_wish(a)->Ok_0;
    assert(valid_param(w.policy, w.priority));
}

/// The caller learns as many bytes as it has room for, but at least 24 and at most 48.
pub proof fn attributes_are_told_as_they_fit(t: &SchedTable, pid: isize, size: u32, flags: u32)
    ensures
        flags != 0 || size < 24 ==> attr_told(t, pid, UserOut::Writable, size, flags) == failed::<
            AttrOut,
        >(Errno::EINVAL),
        flags == 0 && size >= 24 && t.target(pid) is Ok ==> (attr_told(
            t,
            pid,
            UserOut::Writable,
            size,
            flags,
        ).out matches Some(o) && o.bytes <= 48 && o.bytes <= size && (o.bytes == 48 || o.bytes
            == size)),
{
}

/// Only tasks that take turns have a time slice, of a tenth of a second.
pub proof fn only_turns_have_a_slice(t: &SchedTable, pid: isize)
    requires
        t.target(pid) is Ok,
    ensures
        interval_told(t, pid, UserOut::Writable).out matches Some(s) && s.sec == 0 && s.nsec == (
        if t.tasks@[t.target(pid)->Ok_0].policy == 2 {
            100_000_000int
        } else {
            0int
        }),
        interval_told(t, pid, UserOut::Null).ret == err(Errno::EINVAL),
{
}

/// A niceness goes to the living processes selected by number, group or user, the caller's own
/// for zero, and is kept between -20 and 19. Only the superuser makes any nicer or reaches
/// another's.
pub proof fn niceness_goes_to_the_selected(
    before: Seq<Process>,
    after: Seq<Process>,
    me: Process,
    which: usize,
    who: usize,
    prio: isize,
    r: SysResult<usize>,
)
    requires
        priority_set(before, after, me, which, who, prio, r),
        -1000 < prio < 1000,
    ensures
        r is Ok ==> which <= 2 && r == ok(0) && after.len() == before.len(),
        r is Ok ==> forall|i: int|
            #![trigger after[i]]
            0 <= i < before.len() ==> {
                let p = before[i];
                let id = if who != 0 {
                    who
                } else if which == 0 {
                    me.tgid
                } else if which == 1 {
                    me.pgid
                } else {
                    me.uid
                };
                let chosen = p.alive && (which == 0 ==> p.tgid == id) && (which == 1 ==> p.pgid
                    == id) && (which == 2 ==> p.uid == id);
                &&& chosen ==> after[i].nice == (if prio < -20 {
                    -20
                } else if prio > 19 {
                    19
                } else {
                    prio as int
                })
                &&& !chosen ==> after[i] == p
                &&& chosen && me.euid != 0 ==> (me.euid == p.uid || me.euid == p.euid)
                    && after[i].nice >= p.nice
                &&& after[i].tgid == p.tgid && after[i].pgid == p.pgid && after[i].uid == p.uid
            },
        r is Err ==> after == before,
        which > 2 ==> r == err(Errno::EINVAL),
{
    if r is Ok {
        let id = priority_id(which, who, me);
        assert forall|i: int| #![trigger after[i]] 0 <= i < before.len() && me.euid != 0
            && priority_selects(which, id, before[i]) implies same_user(me, before[i])
            && clamped_nice(prio) >= before[i].nice by {
            assert(!any_foreign(me, which, id, before));
            assert(!any_raised(me, which, id, clamped_nice(prio), before));
        }
    }
}

/// What is told is 20 less the lowest niceness of those selected.
pub proof fn niceness_is_told_from_the_lowest(
    procs: Seq<Process>,
    me: Process,
    who: usize,
    r: SysResult<usize>,
    i: int,
)
    requires
        priority_told(procs, me, 0, who, r),
        who != 0,
        distinct_processes(procs),
        process_at(procs, who, i),
    ensures
        procs[i].alive ==> r is Ok && r->Ok_0 == 20 - procs[i].nice,
        !procs[i].alive ==> r == err(Errno::ESRCH),
{
    if procs[i].alive {
        assert(priority_selects(0, who, procs[i]));
    }
}

/// Asking without a place for the answer is invalid; a place that cannot be written is a fault;
/// and a task that is not there is told as such.
pub proof fn answers_need_a_place(t: &SchedTable, pid: isize, e: Errno)
    ensures
        param_told(t, pid, UserOut::Null) == failed::<i32>(Errno::EINVAL),
        t.target(pid) is Ok ==> param_told(t, pid, UserOut::Fault) == failed::<i32>(Errno::EFAULT),
        t.target(pid) is Ok ==> interval_told(t, pid, UserOut::Fault) == failed::<TimeSpec>(
            Errno::EFAULT,
        ),
        t.target(pid) matches Err(x) ==> policy_told(t, pid) == err(x) && param_told(
            t,
            pid,
            UserOut::Writable,
        ) == failed::<i32>(x) && interval_told(t, pid, UserOut::Writable) == failed::<TimeSpec>(x)
            && attr_told(t, pid, UserOut::Writable, 48, 0) == failed::<AttrOut>(x),
        attr_told(t, pid, UserOut::Null, 48, 0) == failed::<AttrOut>(Errno::EINVAL),
        t.target(pid) is Ok ==> attr_told(t, pid, UserOut::Fault, 48, 0) == failed::<AttrOut>(
            Errno::EFAULT,
        ),
{
}

/// A change of scheduling without parameters is invalid, and one whose parameters cannot be
/// read is a fault; a policy with unknown bits is invalid.
pub proof fn changes_need_their_parameters(
    before: &SchedTable,
    after: &SchedTable,
    pid: isize,
    policy: usize,
    p: UserIn<i32>,
    r: SysResult<usize>,
    after2: &SchedTable,
    r2: SysResult<usize>,
)
    requires
        policy_set(before, after, pid, policy, p, r),
        param_set(before, after2, pid, p, r2),
        before.target(pid) is Ok,
    ensures
        policy & !(0x4000_0000usize | 0xff) != 0 ==> r == err(Errno::EINVAL),
        p is Null ==> r == err(Errno::EINVAL) && r2 == err(Errno::EINVAL),
        policy & !(0x4000_0000usize | 0xff) == 0 && p is Fault ==> r == err(Errno::EFAULT),
        p is Fault ==> r2 == err(Errno::EFAULT),
{
}

} // verus!
