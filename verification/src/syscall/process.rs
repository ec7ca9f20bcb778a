//! Process numbers, groups, sessions, capabilities and small process calls.

use crate::errno::{err, ok, Errno, SysResult};
use crate::task::{distinct_processes, find_process, process_at, process_exists, Process};
use crate::user::{failed, read_result, silent, wrote, Reply, UserIn, UserOut};
use vstd::prelude::*;

verus! {

/// What a thread knows of itself.
#[derive(Debug, Clone, Copy, PartialEq, Eq, Structural)]
pub struct ThreadState {
    pub tid: usize,
    pub tgid: usize,
    /// Process number of the parent, if it has one.
    pub parent: Option<usize>,
    /// Where a zero is written when the thread ends.
    pub clear_child_tid: usize,
    /// Head and length of the list of robust futexes.
    pub robust_head: Option<usize>,
    pub robust_len: usize,
    pub cap_effective: u64,
    pub cap_permitted: u64,
    pub cap_inheritable: u64,
}

/// The number of the thread.
pub fn sys_gettid(t: &ThreadState) -> (r: SysResult<usize>)
    ensures
        r == ok(t.tid),
{
    Ok(t.tid)
}

/// The number of the process.
pub fn sys_getpid(t: &ThreadState) -> (r: SysResult<usize>)
    ensures
        r == ok(t.tgid),
{
    Ok(t.tgid)
}

/// The number of the parent process, or 0.
pub fn sys_getppid(t: &ThreadState) -> (r: SysResult<usize>)
    ensures
        r == ok(
            match t.parent {
                Some(p) => p,
                None => 0,
            },
        ),
{
    match t.parent {
        Some(p) => Ok(p),
        None => Ok(0),
    }
}

/// Sets where a zero is written when the thread ends.
pub fn sys_set_tid_address(t: &mut ThreadState, tidptr: usize) -> (r: SysResult<usize>)
    ensures
        r == ok(old(t).tid),
        *final(t) == (ThreadState { clear_child_tid: tidptr, ..*old(t) }),
{
    t.clear_child_tid = tidptr;
    Ok(t.tid)
}

/// Bytes of the head of a list of robust futexes.
pub const ROBUST_LIST_HEAD_SIZE: usize = 24;

/// Sets the list of robust futexes.
pub fn sys_set_robust_list(t: &mut ThreadState, head: usize, len: usize) -> (r: SysResult<usize>)
    ensures
        len != ROBUST_LIST_HEAD_SIZE ==> r == err(Errno::EINVAL) && *final(t) == *old(t),
        len == ROBUST_LIST_HEAD_SIZE ==> r == ok(0) && *final(t) == (ThreadState {
            robust_head: Some(head),
            robust_len: len,
            ..*old(t)
        }),
{
    if len != ROBUST_LIST_HEAD_SIZE {
        return Err(Errno::EINVAL);
    }
    t.robust_head = Some(head);
    t.robust_len = len;
    Ok(0)
}

/// Head and length of a robust list as they are written to user memory.
pub struct RobustReply {
    pub ret: SysResult<usize>,
    pub head: Option<usize>,
    pub len: Option<usize>,
}

/// Whether asking for a thread's list of held locks returns `r`.
pub open spec fn robust_told(
    t: ThreadState,
    pid: usize,
    head_ptr: UserOut,
    len_ptr: UserOut,
    r: RobustReply,
) -> bool {
    pid == 0 || pid == t.tid ==> {
        &&& r.head == (if head_ptr == UserOut::Writable {
            Some(
                match t.robust_head {
                    Some(h) => h,
                    None => 0,
                },
            )
        } else {
            None
        })
        &&& r.len == (if head_ptr == UserOut::Writable && len_ptr == UserOut::Writable {
            Some(
                if t.robust_head is Some {
                    t.robust_len
                } else {
                    ROBUST_LIST_HEAD_SIZE
                },
            )
        } else {
            None
        })
        &&& r.ret == (if r.len is Some {
            ok(0)
        } else {
            err(Errno::EFAULT)
        })
    }
}

/// Reports the list of robust futexes of the calling thread.
pub fn sys_get_robust_list(t: &ThreadState, pid: usize, head_ptr: UserOut, len_ptr: UserOut) -> (r:
    RobustReply)
    ensures
        pid != 0 && pid != t.tid ==> r.ret == err(Errno::ESRCH) && r.head is None && r.len is None,
        robust_told(*t, pid, head_ptr, len_ptr, r),
{
    if pid != 0 && pid != t.tid {
        return RobustReply { ret: Err(Errno::ESRCH), head: None, len: None };
    }
    let (head, len): (usize, usize) = match t.robust_head {
        Some(h) => (h, t.robust_len),
        None => (0, ROBUST_LIST_HEAD_SIZE),
    };
    if head_ptr.check().is_err() {
        return RobustReply { ret: Err(Errno::EFAULT), head: None, len: None };
    }
    if len_ptr.check().is_err() {
        return RobustReply { ret: Err(Errno::EFAULT), head: Some(head), len: None };
    }
    RobustReply { ret: Ok(0), head: Some(head), len: Some(len) }
}

/// What a memory barrier call returns.
pub open spec fn barrier_answer(cmd: isize, flags: usize) -> SysResult<usize> {
    if flags != 0 {
        err(Errno::EINVAL)
    } else if cmd == 0 {
        ok(1)
    } else if cmd == 1 {
        ok(0)
    } else if cmd == 8 {
        err(Errno::EPERM)
    } else {
        err(Errno::EINVAL)
    }
}

/// Memory barriers: a query tells that only the global barrier is offered. The
/// caller issues the barrier where the result asks for one.
pub fn sys_membarrier(cmd: isize, flags: usize) -> (r: SysResult<usize>)
    ensures
        r == barrier_answer(cmd, flags),
{
    if flags != 0 {
        return Err(Errno::EINVAL);
    }
    if cmd == 0 {
        Ok(1)
    } else if cmd == 1 {
        Ok(0)
    } else if cmd == 8 {
        Err(Errno::EPERM)
    } else {
        Err(Errno::EINVAL)
    }
}

/// What ends, and with which code.
#[derive(Debug, Clone, Copy, PartialEq, Eq, Structural)]
pub enum Ending {
    Thread(i32),
    Group(i32),
}

/// Ends the calling thread.
pub fn sys_exit(exit_code: i32) -> (r: Ending)
    ensures
        r == Ending::Thread(exit_code),
{
    Ending::Thread(exit_code)
}

/// Ends the whole process.
pub fn sys_exit_group(exit_code: i32) -> (r: Ending)
    ensures
        r == Ending::Group(exit_code),
{
    Ending::Group(exit_code)
}

/// A capability request or report names a version and a process.
#[derive(Debug, Clone, Copy, PartialEq, Eq, Structural)]
pub struct CapUserHeader {
    pub version: u32,
    pub pid: i32,
}

/// Lower half of the capabilities.
#[derive(Debug, Clone, Copy, PartialEq, Eq, Structural)]
pub struct CapUserData {
    pub effective: u32,
    pub permitted: u32,
    pub inheritable: u32,
}

/// Only three versions exist and only the caller can be asked about.
pub open spec fn cap_header_error(t: ThreadState, h: CapUserHeader) -> Option<Errno> {
    if h.version != 0x1998_0330 && h.version != 0x2007_1026 && h.version != 0x2008_0522 {
        Some(Errno::EINVAL)
    } else if h.pid < 0 {
        Some(Errno::EINVAL)
    } else if h.pid != 0 && h.pid != t.tid && h.pid != t.tgid {
        Some(Errno::ESRCH)
    } else {
        None
    }
}

fn check_cap_header(t: &ThreadState, h: &CapUserHeader) -> (r: SysResult<()>)
    ensures
        match cap_header_error(*t, *h) {
            Some(e) => r == Err::<(), Errno>(e),
            None => r is Ok,
        },
{
    if h.version != 0x1998_0330 && h.version != 0x2007_1026 && h.version != 0x2008_0522 {
        return Err(Errno::EINVAL);
    }
    if h.pid < 0 {
        return Err(Errno::EINVAL);
    }
    if h.pid != 0 && h.pid as usize != t.tid && h.pid as usize != t.tgid {
        return Err(Errno::ESRCH);
    }
    Ok(())
}

/// The lower halves of the capabilities of a thread.
pub open spec fn cap_data(t: ThreadState) -> CapUserData {
    CapUserData {
        effective: (t.cap_effective & 0xffff_ffff) as u32,
        permitted: (t.cap_permitted & 0xffff_ffff) as u32,
        inheritable: (t.cap_inheritable & 0xffff_ffff) as u32,
    }
}

/// What asking for the capabilities of a thread returns.
pub open spec fn capabilities_told(
    t: ThreadState,
    hdrp: UserIn<CapUserHeader>,
    target: SysResult<ThreadState>,
    datap: UserOut,
) -> Reply<CapUserData> {
    match read_result(hdrp) {
        Err(e) => failed::<CapUserData>(e),
        Ok(h) => match cap_header_error(t, h) {
            Some(e) => failed::<CapUserData>(e),
            None => match target {
                Err(e) => failed::<CapUserData>(e),
                Ok(task) => match datap {
                    UserOut::Null => silent::<CapUserData>(0),
                    UserOut::Fault => failed::<CapUserData>(Errno::EFAULT),
                    UserOut::Writable => wrote(0, cap_data(task)),
                },
            },
        },
    }
}

/// Reports the capabilities of `target`, the thread that the header names, or
/// the reason there is none. The upper half of the report is always zero.
pub fn sys_capget(
    t: &ThreadState,
    hdrp: UserIn<CapUserHeader>,
    target: SysResult<ThreadState>,
    datap: UserOut,
) -> (r: Reply<CapUserData>)
    ensures
        r == capabilities_told(*t, hdrp, target, datap),
{
    let h = match hdrp.read() {
        Ok(h) => h,
        Err(e) => {
            return Reply::fail(e);
        },
    };
    match check_cap_header(t, &h) {
        Ok(_) => {},
        Err(e) => {
            return Reply::fail(e);
        },
    }
    let task = match target {
        Ok(task) => task,
        Err(e) => {
            return Reply::fail(e);
        },
    };
    match datap {
        UserOut::Null => Reply::done(0),
        _ => datap.reply(
            0,
            CapUserData {
                effective: (task.cap_effective & 0xffff_ffff) as u32,
                permitted: (task.cap_permitted & 0xffff_ffff) as u32,
                inheritable: (task.cap_inheritable & 0xffff_ffff) as u32,
            },
        ),
    }
}

/// The capability to add to inheritable sets.
pub const CAP_SETPCAP_BIT: u64 = 0x100;

/// Why new capabilities are refused: they cannot exceed the permitted ones, and
/// only with CAP_SETPCAP can the inheritable ones.
pub open spec fn capset_refused(t: ThreadState, low: CapUserData, high: CapUserData) -> bool {
    ||| high.effective != 0 || high.permitted != 0 || high.inheritable != 0
    ||| low.effective as u64 & !(low.permitted as u64) != 0
    ||| low.permitted as u64 & !t.cap_permitted != 0
    ||| (t.cap_effective & CAP_SETPCAP_BIT == 0 && low.inheritable as u64 & !t.cap_permitted != 0)
}

/// Whether setting capabilities goes from `before` to `after` and returns `r`.
pub open spec fn capabilities_set(
    before: ThreadState,
    after: ThreadState,
    hdrp: UserIn<CapUserHeader>,
    target_tid: SysResult<usize>,
    data: UserIn<(CapUserData, CapUserData)>,
    r: SysResult<usize>,
) -> bool {
    match read_result(hdrp) {
        Err(e) => r == err(e),
        Ok(h) => match cap_header_error(before, h) {
            Some(e) => r == err(e),
            None => match target_tid {
                Err(e) => r == err(e),
                Ok(tid) => if tid != before.tid {
                    r == err(Errno::EPERM)
                } else {
                    match read_result(data) {
                        Err(e) => r == err(e),
                        Ok((low, high)) => if capset_refused(before, low, high) {
                            r == err(Errno::EPERM)
                        } else {
                            r == ok(0) && after == (ThreadState {
                                cap_effective: low.effective as u64,
                                cap_permitted: low.permitted as u64,
                                cap_inheritable: low.inheritable as u64,
                                ..before
                            })
                        },
                    }
                },
            },
        },
    }
}

/// Changes the capabilities of the calling thread. `target_tid` is the thread
/// that the header names, or the reason there is none; `data` holds the lower
/// and the upper halves.
pub fn sys_capset(
    t: &mut ThreadState,
    hdrp: UserIn<CapUserHeader>,
    target_tid: SysResult<usize>,
    data: UserIn<(CapUserData, CapUserData)>,
) -> (r: SysResult<usize>)
    ensures
        r is Err ==> *final(t) == *old(t),
        capabilities_set(*old(t), *final(t), hdrp, target_tid, data, r),
{
    let h = match hdrp.read() {
        Ok(h) => h,
        Err(e) => {
            return Err(e);
        },
    };
    match check_cap_header(t, &h) {
        Ok(_) => {},
        Err(e) => {
            return Err(e);
        },
    }
    let tid: usize = match target_tid {
        Ok(tid) => tid,
        Err(e) => {
            return Err(e);
        },
    };
    if tid != t.tid {
        return Err(Errno::EPERM);
    }
    let (low, high) = match data.read() {
        Ok(d) => d,
        Err(e) => {
            return Err(e);
        },
    };
    if high.effective != 0 || high.permitted != 0 || high.inheritable != 0 {
        return Err(Errno::EPERM);
    }
    let effective: u64 = low.effective as u64;
    let permitted: u64 = low.permitted as u64;
    let inheritable: u64 = low.inheritable as u64;
    if effective & !permitted != 0 {
        return Err(Errno::EPERM);
    }
    if permitted & !t.cap_permitted != 0 {
        return Err(Errno::EPERM);
    }
    if t.cap_effective & CAP_SETPCAP_BIT == 0 && inheritable & !t.cap_permitted != 0 {
        return Err(Errno::EPERM);
    }
    t.cap_effective = effective;
    t.cap_permitted = permitted;
    t.cap_inheritable = inheritable;
    Ok(0)
}

/// A thread never gains a permitted capability, and never has an effective one
/// that is not permitted.
pub proof fn capabilities_only_shrink(t: ThreadState, low: CapUserData, high: CapUserData)
    requires
        !capset_refused(t, low, high),
    ensures
        (low.permitted as u64) & !t.cap_permitted == 0,
        (low.effective as u64) & !(low.permitted as u64) == 0,
        (low.effective as u64) & !t.cap_permitted == 0,
{
    let e = low.effective as u64;
    let p = low.permitted as u64;
    let q = t.cap_permitted;
    assert(e & !q == 0) by (bit_vector)
        requires
            e & !p == 0,
            p & !q == 0,
    ;
}

/// A change of a process group whose effects on orphaned groups the terminal
/// layer has to look at.
#[derive(Debug, Clone, Copy, PartialEq, Eq, Structural)]
pub struct GroupChange {
    pub sid: usize,
    pub old_pgid: usize,
    pub new_pgid: usize,
}

/// Some process of the session is in the group.
pub open spec fn group_in_session(procs: Seq<Process>, sid: usize, pgid: usize) -> bool {
    exists|i: int|
        0 <= i < procs.len() && (#[trigger] procs[i]).sid == sid && procs[i].pgid == pgid
}

/// The group that is asked for: 0 means a group of the process's own number.
pub open spec fn wanted_group(target: Process, pgid: isize) -> usize {
    if pgid == 0 {
        target.tgid
    } else {
        pgid as usize
    }
}

/// Why process `target` cannot move to the group, as far as target and caller
/// decide.
pub open spec fn setpgid_error(me: Process, target: Process) -> Option<Errno> {
    if !target.leader {
        Some(Errno::ESRCH)
    } else if target.tgid != me.tgid && target.parent != me.tgid {
        Some(Errno::ESRCH)
    } else if target.tgid != me.tgid && target.did_exec {
        Some(Errno::EACCES)
    } else if target.sid != me.sid || target.sid == target.tgid {
        Some(Errno::EPERM)
    } else {
        None
    }
}

fn any_in_group(procs: &Vec<Process>, sid: usize, pgid: usize) -> (r: bool)
    ensures
        r == group_in_session(procs@, sid, pgid),
{
    let mut i: usize = 0;
    while i < procs.len()
        invariant
            i <= procs@.len(),
            forall|k: int|
                0 <= k < i ==> !((#[trigger] procs@[k]).sid == sid && procs@[k].pgid == pgid),
        decreases procs@.len() - i,
    {
        if procs[i].sid == sid && procs[i].pgid == pgid {
            assert(procs@[i as int].sid == sid);
            return true;
        }
        i = i + 1;
    }
    false
}

/// The number of the process that `pid` names for `caller`.
pub open spec fn named_process(caller: Process, pid: isize) -> usize {
    if pid == 0 {
        caller.tgid
    } else {
        pid as usize
    }
}

/// Whether moving a process to a group goes from `before` to `after` and returns `r`.
pub open spec fn group_changed(
    before: Seq<Process>,
    after: Seq<Process>,
    me: int,
    pid: isize,
    pgid: isize,
    r: SysResult<GroupChange>,
) -> bool {
    ({
        let caller = before[me];
        let target_tgid = named_process(caller, pid);
        if pgid < 0 {
            r == Err::<GroupChange, Errno>(Errno::EINVAL)
        } else if pid < 0 {
            r == Err::<GroupChange, Errno>(Errno::ESRCH)
        } else {
            &&& !process_exists(before, target_tgid) ==> r == Err::<GroupChange, Errno>(
                Errno::ESRCH,
            )
            &&& forall|i: int| #[trigger]
                process_at(before, target_tgid, i) ==> {
                    let target = before[i];
                    let group = wanted_group(target, pgid);
                    if pid != 0 && !target.alive {
                        r == Err::<GroupChange, Errno>(Errno::ESRCH)
                    } else if setpgid_error(caller, target) is Some {
                        r == Err::<GroupChange, Errno>(setpgid_error(caller, target)->0)
                    } else if group != target.tgid && !group_in_session(
                        before,
                        caller.sid,
                        group,
                    ) {
                        r == Err::<GroupChange, Errno>(Errno::EPERM)
                    } else {
                        &&& r == Ok::<GroupChange, Errno>(
                            GroupChange {
                                sid: target.sid,
                                old_pgid: target.pgid,
                                new_pgid: group,
                            },
                        )
                        &&& after == before.update(
                            i,
                            Process { pgid: group, ..target },
                        )
                    }
                }
        }
    })
}

/// Moves a process to a process group of its session.
pub fn sys_setpgid(procs: &mut Vec<Process>, me: usize, pid: isize, pgid: isize) -> (r: SysResult<
    GroupChange,
>)
    requires
        me < old(procs)@.len(),
        distinct_processes(old(procs)@),
    ensures
        distinct_processes(final(procs)@),
        r is Err ==> final(procs)@ == old(procs)@,
        group_changed(old(procs)@, final(procs)@, me as int, pid, pgid, r),
{
    let caller = procs[me];
    if pgid < 0 {
        return Err(Errno::EINVAL);
    }
    if pid < 0 {
        return Err(Errno::ESRCH);
    }
    let target_tgid: usize = if pid == 0 {
        caller.tgid
    } else {
        pid as usize
    };
    let i: usize = match find_process(procs, target_tgid) {
        Some(i) => i,
        None => {
            return Err(Errno::ESRCH);
        },
    };
    assert(forall|k: int| #[trigger] process_at(procs@, target_tgid, k) ==> k == i);
    let target = procs[i];
    if pid != 0 && !target.alive {
        return Err(Errno::ESRCH);
    }
    if !target.leader {
        return Err(Errno::ESRCH);
    }
    if target.tgid != caller.tgid {
        if target.parent != caller.tgid {
            return Err(Errno::ESRCH);
        }
        if target.did_exec {
            return Err(Errno::EACCES);
        }
    }
    if target.sid != caller.sid {
        return Err(Errno::EPERM);
    }
    if target.sid == target.tgid {
        return Err(Errno::EPERM);
    }
    let group: usize = if pgid == 0 {
        target.tgid
    } else {
        pgid as usize
    };
    if group != target.tgid {
        if !any_in_group(procs, caller.sid, group) {
            return Err(Errno::EPERM);
        }
    }
    procs.set(i, Process { pgid: group, ..target });
    Ok(GroupChange { sid: target.sid, old_pgid: target.pgid, new_pgid: group })
}

/// The process that a query names: 0 names the caller.
pub open spec fn queried_process(procs: Seq<Process>, me: int, pid: usize, p: Process) -> bool {
    if pid == 0 {
        p == procs[me]
    } else {
        exists|i: int| #[trigger] process_at(procs, pid, i) && procs[i] == p && p.alive
    }
}

fn query(procs: &Vec<Process>, me: usize, pid: usize) -> (r: SysResult<Process>)
    requires
        me < procs@.len(),
        distinct_processes(procs@),
    ensures
        match r {
            Ok(p) => queried_process(procs@, me as int, pid, p) && forall|q: Process|
                queried_process(procs@, me as int, pid, q) ==> q == p,
            Err(e) => e == Errno::ESRCH && forall|q: Process|
                !queried_process(procs@, me as int, pid, q),
        },
{
    if pid == 0 {
        return Ok(procs[me]);
    }
    match find_process(procs, pid) {
        Some(i) => {
            assert(process_at(procs@, pid, i as int));
            assert(forall|k: int| #[trigger] process_at(procs@, pid, k) ==> k == i);
            if procs[i].alive {
                Ok(procs[i])
            } else {
                Err(Errno::ESRCH)
            }
        },
        None => Err(Errno::ESRCH),
    }
}

/// The process group of a process.
pub fn sys_getpgid(procs: &Vec<Process>, me: usize, pid: usize) -> (r: SysResult<usize>)
    requires
        me < procs@.len(),
        distinct_processes(procs@),
    ensures
        forall|p: Process| queried_process(procs@, me as int, pid, p) ==> r == ok(p.pgid),
        (forall|p: Process| !queried_process(procs@, me as int, pid, p)) ==> r == err(Errno::ESRCH),
{
    match query(procs, me, pid) {
        Ok(p) => Ok(p.pgid),
        Err(e) => Err(e),
    }
}

/// The session of a process.
pub fn sys_getsid(procs: &Vec<Process>, me: usize, pid: usize) -> (r: SysResult<usize>)
    requires
        me < procs@.len(),
        distinct_processes(procs@),
    ensures
        forall|p: Process| queried_process(procs@, me as int, pid, p) ==> r == ok(p.sid),
        (forall|p: Process| !queried_process(procs@, me as int, pid, p)) ==> r == err(Errno::ESRCH),
{
    match query(procs, me, pid) {
        Ok(p) => Ok(p.sid),
        Err(e) => Err(e),
    }
}

/// A new session: its number, the session that was left and the process groups
/// that may have become orphaned.
pub struct NewSession {
    pub sid: usize,
    pub old_sid: usize,
    pub affected: Vec<usize>,
}

/// A group that loses a member or a parent of a member in its session.
pub open spec fn affected_group(procs: Seq<Process>, me: int, g: usize) -> bool {
    ||| g == procs[me].pgid
    ||| exists|i: int|
        0 <= i < procs.len() && (#[trigger] procs[i]).parent == procs[me].tgid && procs[i].sid
            == procs[me].sid && procs[i].pgid == g
}

/// Whether starting a session goes from `before` to `after` and returns `r`.
pub open spec fn session_begun(
    before: Seq<Process>,
    after: Seq<Process>,
    me: int,
    r: SysResult<NewSession>,
) -> bool {
    ({
        let caller = before[me];
        if caller.pgid == caller.tgid {
            r is Err && r->Err_0 == Errno::EPERM && after == before
        } else {
            &&& r is Ok
            &&& r->Ok_0.sid == caller.tgid
            &&& r->Ok_0.old_sid == caller.sid
            &&& r->Ok_0.affected@.no_duplicates()
            &&& forall|g: usize| #[trigger]
                r->Ok_0.affected@.contains(g) <==> affected_group(before, me, g)
            &&& after == before.update(
                me,
                Process { sid: caller.tgid, pgid: caller.tgid, ..caller },
            )
        }
    })
}

/// Starts a session. The leader of a process group cannot; otherwise the caller
/// leads a new session and a new group of its own number.
pub fn sys_setsid(procs: &mut Vec<Process>, me: usize) -> (r: SysResult<NewSession>)
    requires
        me < old(procs)@.len(),
        distinct_processes(old(procs)@),
    ensures
        distinct_processes(final(procs)@),
        session_begun(old(procs)@, final(procs)@, me as int, r),
{
    let caller = procs[me];
    if caller.pgid == caller.tgid {
        return Err(Errno::EPERM);
    }
    let mut affected: Vec<usize> = Vec::new();
    affected.push(caller.pgid);
    assert(affected@.contains(caller.pgid)) by {
        assert(affected@[0] == caller.pgid);
    }
    let mut i: usize = 0;
    while i < procs.len()
        invariant
            me < procs@.len(),
            i <= procs@.len(),
            procs@ == old(procs)@,
            caller == procs@[me as int],
            affected@.no_duplicates(),
            affected@.contains(caller.pgid),
            forall|g: usize| #[trigger]
                affected@.contains(g) ==> affected_group(procs@, me as int, g),
            forall|k: int|
                0 <= k < i && (#[trigger] procs@[k]).parent == caller.tgid && procs@[k].sid
                    == caller.sid ==> affected@.contains(procs@[k].pgid),
        decreases procs@.len() - i,
    {
        let p = procs[i];
        if p.parent == caller.tgid && p.sid == caller.sid {
            let mut known = false;
            let mut j: usize = 0;
            while j < affected.len()
                invariant
                    j <= affected@.len(),
                    known == exists|k: int| 0 <= k < j && affected@[k] == p.pgid,
                decreases affected@.len() - j,
            {
                if affected[j] == p.pgid {
                    known = true;
                }
                j = j + 1;
            }
            if !known {
                let ghost before = affected@;
                affected.push(p.pgid);
                proof {
                    assert(affected_group(procs@, me as int, p.pgid)) by {
                        assert(procs@[i as int].parent == caller.tgid);
                    }
                    assert forall|g: usize| #[trigger] affected@.contains(g) implies affected_group(
                        procs@,
                        me as int,
                        g,
                    ) by {
                        let k = choose|k: int| 0 <= k < affected@.len() && affected@[k] == g;
                        if k < before.len() {
                            assert(before[k] == g);
                            assert(before.contains(g));
                        }
                    }
                    assert(forall|g: usize| before.contains(g) ==> affected@.contains(g)) by {
                        assert forall|g: usize| before.contains(g) implies affected@.contains(g) by {
                            let k = choose|k: int| 0 <= k < before.len() && before[k] == g;
                            assert(affected@[k] == g);
                        }
                    }
                    assert(affected@[before.len() as int] == p.pgid);
                }
            }
        }
        i = i + 1;
    }
    procs.set(me, Process { sid: caller.tgid, pgid: caller.tgid, ..caller });
    Ok(NewSession { sid: caller.tgid, old_sid: caller.sid, affected })
}

/// After starting a session a process leads both its session and its group, so
/// it can start no other.
pub proof fn session_leader_cannot_start_another(p: Process)
    ensures
        ({
            let q = Process { sid: p.tgid, pgid: p.tgid, ..p };
            q.pgid == q.tgid && q.sid == q.tgid && setpgid_error(q, q) is Some
        }),
{
}

/// The state of the byte generator before byte `n`.
pub open spec fn random_seed(start: u64, n: nat) -> u64
    decreases n,
{
    if n == 0 {
        start
    } else {
        let s = random_seed(start, (n - 1) as nat);
        let a = s ^ (s << 7u64);
        let b = a ^ (a >> 9u64);
        b ^ ((n - 1) as u64).wrapping_mul(0x9e37_79b9)
    }
}

/// The start of the byte generator at a time.
pub open spec fn time_seed(now_ms: u64) -> u64 {
    now_ms ^ 0x7265_7370_6f73
}

/// The bytes that a request made at `now_ms` gets.
pub open spec fn random_bytes(now_ms: u64, n: nat) -> Seq<u8> {
    Seq::new(n, |i: int| random_seed(time_seed(now_ms), (i + 1) as nat) as u8)
}

/// Fills a buffer with generated bytes. The bytes depend on the time alone and
/// are no cryptographic random numbers.
pub fn sys_getrandom(buf: UserOut, buflen: usize, flags: usize, now_ms: u64) -> (r: Reply<Vec<u8>>)
    ensures
        flags & !0x7usize != 0 ==> r.ret == err(Errno::EINVAL) && r.out is None,
        flags & !0x7usize == 0 && buflen == 0 ==> r.ret == ok(0) && r.out is None,
        flags & !0x7usize == 0 && buflen != 0 && buf != UserOut::Writable ==> r.ret == err(
            Errno::EFAULT,
        ) && r.out is None,
        flags & !0x7usize == 0 && buflen != 0 && buf == UserOut::Writable ==> {
            &&& r.ret == ok(buflen)
            &&& r.out is Some
            &&& r.out->0@ == random_bytes(now_ms, buflen as nat)
        },
{
    if flags & !0x7usize != 0 {
        return Reply::fail(Errno::EINVAL);
    }
    if buflen == 0 {
        return Reply::done(0);
    }
    if buf.check().is_err() {
        return Reply::fail(Errno::EFAULT);
    }
    let mut bytes: Vec<u8> = Vec::new();
    let mut seed: u64 = now_ms ^ 0x7265_7370_6f73;
    let mut idx: usize = 0;
    while idx < buflen
        invariant
            idx <= buflen,
            seed == random_seed(time_seed(now_ms), idx as nat),
            bytes@.len() == idx,
            forall|i: int|
                0 <= i < idx ==> #[trigger] bytes@[i] == random_seed(
                    time_seed(now_ms),
                    (i + 1) as nat,
                ) as u8,
        decreases buflen - idx,
    {
        let a: u64 = seed ^ (seed << 7u64);
        let b: u64 = a ^ (a >> 9u64);
        seed = b ^ (idx as u64).wrapping_mul(0x9e37_79b9);
        bytes.push(seed as u8);
        idx = idx + 1;
    }
    assert(bytes@ =~= Seq::new(
        buflen as nat,
        |i: int| random_seed(time_seed(now_ms), (i + 1) as nat) as u8,
    ));
    Reply { ret: Ok(buflen), out: Some(bytes) }
}

/// A process goes to the group named, or to one of its own number for the name zero. It is the
/// caller or a child of the caller that runs no new program yet, in the caller's session and
/// not leading it; and the group is its own or one of the session.
pub proof fn groups_change_as_asked(
    before: Seq<Process>,
    after: Seq<Process>,
    me: int,
    pid: isize,
    pgid: isize,
    i: int,
    r: SysResult<GroupChange>,
)
    requires
        group_changed(before, after, me, pid, pgid, r),
        0 <= me < before.len(),
        distinct_processes(before),
        pid >= 0,
        pgid >= 0,
        process_at(
            before,
            if pid == 0 {
                before[me].tgid
            } else {
                pid as usize
            },
            i,
        ),
    ensures
        r matches Ok(change) ==> {
            &&& after.len() == before.len()
            &&& after[i].pgid == (if pgid == 0 {
                before[i].tgid as int
            } else {
                pgid as int
            })
            &&& after[i].sid == before[i].sid && after[i].tgid == before[i].tgid
            &&& change.sid == before[i].sid && change.old_pgid == before[i].pgid && change.new_pgid
                == after[i].pgid
            &&& forall|j: int| 0 <= j < before.len() && j != i ==> after[j] == before[j]
            &&& before[i].tgid == before[me].tgid || (before[i].parent == before[me].tgid
                && !before[i].did_exec)
            &&& before[i].sid == before[me].sid && before[i].sid != before[i].tgid
            &&& after[i].pgid == before[i].tgid || exists|j: int|
                0 <= j < before.len() && (#[trigger] before[j]).sid == before[me].sid
                    && before[j].pgid == after[i].pgid
        },
        before[i].leader && (pid == 0 || before[i].alive) && before[i].tgid == before[me].tgid
            && before[i].sid != before[i].tgid && pgid == 0 ==> r is Ok,
        before[i].leader && (pid == 0 || before[i].alive) && before[i].tgid != before[me].tgid
            && before[i].parent == before[me].tgid && before[i].did_exec ==> r == Err::<
            GroupChange,
            Errno,
        >(Errno::EACCES),
        before[i].tgid != before[me].tgid && before[i].parent != before[me].tgid ==> r == Err::<
            GroupChange,
            Errno,
        >(Errno::ESRCH),
{
    let tgid = named_process(before[me], pid);
    let target = before[i];
    let group = wanted_group(target, pgid);
    assert(process_at(before, tgid, i));
    assert(process_exists(before, tgid));
    if r is Ok {
        assert(setpgid_error(before[me], target) is None);
        assert(r == Ok::<GroupChange, Errno>(
            GroupChange { sid: target.sid, old_pgid: target.pgid, new_pgid: group },
        ));
        assert(after == before.update(i, Process { pgid: group, ..target }));
    }
}

/// A negative group is invalid, a negative process unknown.
pub proof fn negative_numbers_name_nothing(
    before: Seq<Process>,
    after: Seq<Process>,
    me: int,
    pid: isize,
    pgid: isize,
    r: SysResult<GroupChange>,
)
    requires
        group_changed(before, after, me, pid, pgid, r),
        pid < 0 || pgid < 0,
    ensures
        pgid < 0 ==> r == Err::<GroupChange, Errno>(Errno::EINVAL),
        pgid >= 0 ==> r == Err::<GroupChange, Errno>(Errno::ESRCH),
{
}

/// A new session, and its one group, have the number of the process that starts it. No other
/// process changes. Who leads a group cannot start one.
pub proof fn sessions_are_named_after_their_leader(
    before: Seq<Process>,
    after: Seq<Process>,
    me: int,
    r: SysResult<NewSession>,
)
    requires
        session_begun(before, after, me, r),
        0 <= me < before.len(),
    ensures
        (r is Ok) == (before[me].pgid != before[me].tgid),
        r matches Ok(s) ==> {
            &&& s.sid == before[me].tgid && s.old_sid == before[me].sid
            &&& after.len() == before.len()
            &&& after[me].sid == before[me].tgid && after[me].pgid == before[me].tgid
            &&& after[me].tgid == before[me].tgid && after[me].parent == before[me].parent
            &&& forall|j: int| 0 <= j < before.len() && j != me ==> after[j] == before[j]
            &&& s.affected@.contains(before[me].pgid)
            &&& forall|j: int|
                0 <= j < before.len() && (#[trigger] before[j]).parent == before[me].tgid
                    && before[j].sid == before[me].sid ==> s.affected@.contains(before[j].pgid)
        },
        r is Err ==> r->Err_0 == Errno::EPERM && after == before,
{
    if r is Ok {
        assert(affected_group(before, me, before[me].pgid));
        assert forall|j: int|
            0 <= j < before.len() && (#[trigger] before[j]).parent == before[me].tgid
                && before[j].sid == before[me].sid implies r->Ok_0.affected@.contains(
            before[j].pgid,
        ) by {
            assert(affected_group(before, me, before[j].pgid));
        }
    }
}

/// The process asked about is the caller for the number zero, else the living one of that
/// number.
pub proof fn queries_find_the_numbered_process(procs: Seq<Process>, me: int, pid: usize, i: int)
    requires
        0 <= me < procs.len(),
        distinct_processes(procs),
    ensures
        queried_process(procs, me, 0, procs[me]),
        pid != 0 && process_at(procs, pid, i) ==> (forall|p: Process| #[trigger]
            queried_process(procs, me, pid, p) ==> p == procs[i]) && queried_process(
            procs,
            me,
            pid,
            procs[i],
        ) == procs[i].alive,
{
}

/// Capabilities are set to the sets given if none is over 32 bits, the effective ones are
/// permitted, and nothing is permitted that was not before. Otherwise nothing changes.
pub proof fn capabilities_are_set_as_given(
    before: ThreadState,
    after: ThreadState,
    h: CapUserHeader,
    tid: usize,
    low: CapUserData,
    high: CapUserData,
    r: SysResult<usize>,
)
    requires
        capabilities_set(before, after, UserIn::Value(h), Ok(tid), UserIn::Value((low, high)), r),
    ensures
        r is Ok ==> {
            &&& r == ok(0)
            &&& after.cap_effective == low.effective as u64
            &&& after.cap_permitted == low.permitted as u64
            &&& after.cap_inheritable == low.inheritable as u64
            &&& low.effective as u64 & !(low.permitted as u64) == 0
            &&& low.permitted as u64 & !before.cap_permitted == 0
            &&& high.effective == 0 && high.permitted == 0 && high.inheritable == 0
            &&& tid == before.tid
            &&& after.tid == before.tid && after.tgid == before.tgid
        },
        (h.version == 0x1998_0330 || h.version == 0x2007_1026 || h.version == 0x2008_0522) && h.pid
            == 0 && tid == before.tid && high.effective == 0 && high.permitted == 0
            && high.inheritable == 0 && low.effective as u64 & !(low.permitted as u64) == 0
            && low.permitted as u64 & !before.cap_permitted == 0 && (low.inheritable as u64
            & !before.cap_permitted == 0 || before.cap_effective & 0x100 != 0) ==> r == ok(0),
        h.version != 0x1998_0330 && h.version != 0x2007_1026 && h.version != 0x2008_0522 ==> r
            == err(Errno::EINVAL),
        (h.version == 0x1998_0330 || h.version == 0x2007_1026 || h.version == 0x2008_0522) && h.pid
            > 0 && h.pid != before.tid && h.pid != before.tgid ==> r == err(Errno::ESRCH),
{
}

/// What is told of a thread's capabilities is the low half of each of its sets.
pub proof fn capabilities_are_told_by_their_low_half(
    t: ThreadState,
    h: CapUserHeader,
    task: ThreadState,
)
    requires
        h.version == 0x1998_0330 || h.version == 0x2007_1026 || h.version == 0x2008_0522,
        h.pid == 0,
    ensures
        capabilities_told(t, UserIn::Value(h), Ok(task), UserOut::Writable).ret == ok(0),
        capabilities_told(t, UserIn::Value(h), Ok(task), UserOut::Writable).out matches Some(d)
            && d.effective == (task.cap_effective & 0xffff_ffff) as u32 && d.permitted == (
        task.cap_permitted & 0xffff_ffff) as u32 && d.inheritable == (task.cap_inheritable
            & 0xffff_ffff) as u32,
        capabilities_told(t, UserIn::Value(h), Ok(task), UserOut::Null).out is None,
        capabilities_told(t, UserIn::Value(h), Ok(task), UserOut::Null).ret == ok(0),
        capabilities_told(t, UserIn::Value(h), Ok(task), UserOut::Fault).ret == err(Errno::EFAULT),
{
}

/// A memory barrier is given to every command but the query, which tells that there is one, and
/// the private one, which needs registering first.
pub proof fn barriers_are_told_and_given(cmd: isize, flags: usize)
    ensures
        flags != 0 ==> barrier_answer(cmd, flags) == err(Errno::EINVAL),
        barrier_answer(0, 0) == ok(1) && barrier_answer(1, 0) == ok(0) && barrier_answer(8, 0)
            == err(Errno::EPERM),
        cmd != 0 && cmd != 1 && cmd != 8 ==> barrier_answer(cmd, 0) == err(Errno::EINVAL),
{
}

/// The list of held locks that is told is the one that was set, with its length of 24 bytes.
pub proof fn set_lock_lists_are_told(t: ThreadState, pid: usize, head: usize, r: RobustReply)
    requires
        robust_told(t, pid, UserOut::Writable, UserOut::Writable, r),
        pid == 0 || pid == t.tid,
    ensures
        r.ret == ok(0),
        t.robust_head == Some(head) ==> r.head == Some(head) && r.len == Some(t.robust_len),
        t.robust_head is None ==> r.head == Some(0usize) && r.len == Some(24usize),
{
}

/// A longer request made at the same time begins with the bytes of a shorter one, and each
/// state follows from the one before it and its place.
pub proof fn random_bytes_continue(now_ms: u64, m: nat, n: nat)
    requires
        m <= n,
    ensures
        random_bytes(now_ms, n).len() == n,
        random_bytes(now_ms, m).is_prefix_of(random_bytes(now_ms, n)),
        random_seed(time_seed(now_ms), 0) == now_ms ^ 0x7265_7370_6f73,
        ({
            let s = random_seed(time_seed(now_ms), n);
            let t = s ^ (s << 7u64);
            random_seed(time_seed(now_ms), n + 1) == (t ^ (t >> 9u64)) ^ (n as u64).wrapping_mul(
                0x9e37_79b9,
            )
        }),
{
}

/// The byte at a place is the low byte of the state that follows as many steps and one.
pub proof fn random_bytes_are_low_bytes(now_ms: u64, n: nat, i: int)
    requires
        0 <= i < n,
    ensures
        random_bytes(now_ms, n)[i] == random_seed(time_seed(now_ms), (i + 1) as nat) as u8,
{
}

} // verus!
