//! Signal system calls: sending, waiting, masks and actions.

use crate::errno::{err, ok, Errno, SysResult};
use crate::signal::sig_deliver::{restored_regs, returned_mask, SignalTask};
use crate::signal::sig_handler::{unblockable_kept, SigAction, SigHandler};
use crate::signal::sig_info::{user_info, LinuxSigInfo, SiField, SigInfo};
use crate::signal::sig_stack::{frame_context, SigContext, SignalFrame, SignalStack, SS_DISABLE};
use crate::signal::sig_struct::{
    blockable_part, has_signal, unblockable, valid_signum, Sig, SigPending, SigSet, SIGCONT,
};
use crate::syscall::waiting::{undisturbed, WaitState};
use crate::task::Process;
use crate::timer::{duration_ms, TimeSpec};
use crate::user::{failed, read_result, Reply, UserIn, UserOut};
use vstd::prelude::*;

verus! {

/// Bytes of a signal set in user memory.
pub const SIGSET_SIZE: usize = 8;

/// The sender of a signal.
#[derive(Debug, Clone, Copy)]
pub struct Sender {
    pub tid: usize,
    pub tgid: usize,
    pub pgid: usize,
    pub uid: usize,
    pub euid: usize,
}

/// A sender may signal a process if it is root, or if one of its user numbers
/// is the real or saved user of the process.
pub open spec fn may_signal(s: Sender, p: Process) -> bool {
    s.euid == 0 || s.euid == p.uid || s.euid == p.suid || s.uid == p.uid || s.uid == p.suid
}

fn permitted(s: &Sender, p: &Process) -> (r: bool)
    ensures
        r == may_signal(*s, *p),
{
    s.euid == 0 || s.euid == p.uid || s.euid == p.suid || s.uid == p.uid || s.uid == p.suid
}

/// Whether `kill(pid)` of this sender speaks of process `p`.
pub open spec fn kill_selects(s: Sender, pid: isize, p: Process) -> bool {
    if pid > 0 {
        p.tgid == pid
    } else if pid == 0 {
        p.pgid == s.pgid
    } else if pid == -1 {
        p.tgid != s.tgid
    } else {
        p.pgid == -pid
    }
}

fn selects(s: &Sender, pid: isize, p: &Process) -> (r: bool)
    ensures
        r == kill_selects(*s, pid, *p),
{
    if pid > 0 {
        p.tgid == pid as usize
    } else if pid == 0 {
        p.pgid == s.pgid
    } else if pid == -1 {
        p.tgid != s.tgid
    } else {
        let low: usize = (-(pid + 1)) as usize;
        p.pgid == low + 1
    }
}

/// A signal to be queued to a process.
#[derive(Debug, Clone, Copy)]
pub struct SignalSend {
    /// Process number of the receiver.
    pub tgid: usize,
    pub info: SigInfo,
    /// The receiver is stopped and continues.
    pub resumes: bool,
}

/// What sending `signum` to `p` queues.
pub open spec fn send_to(s: Sender, signum: i32, p: Process) -> SignalSend {
    SignalSend {
        tgid: p.tgid,
        info: SigInfo { signo: signum, code: SigInfo::USER, fields: SiField::Kill { tid: s.tgid } },
        resumes: signum == SIGCONT && p.stopped,
    }
}

/// The signals that `kill` queues, in the order of the process table.
pub open spec fn kill_sends(s: Sender, pid: isize, signum: i32, procs: Seq<Process>) -> Seq<SignalSend>
    decreases procs.len(),
{
    if procs.len() == 0 {
        Seq::empty()
    } else {
        let p = procs.last();
        let before = kill_sends(s, pid, signum, procs.drop_last());
        if signum != 0 && kill_selects(s, pid, p) && may_signal(s, p) && p.alive {
            before.push(send_to(s, signum, p))
        } else {
            before
        }
    }
}

/// The result of `kill` and the signals it queues.
pub struct KillOutcome {
    pub ret: SysResult<usize>,
    pub sends: Vec<SignalSend>,
}

/// What sending a signal returns.
pub open spec fn kill_answer(s: Sender, pid: isize, procs: Seq<Process>) -> SysResult<usize> {
    if exists|i: int|
        0 <= i < procs.len() && #[trigger] kill_selects(s, pid, procs[i]) && may_signal(
            s,
            procs[i],
        ) {
        ok(0)
    } else if exists|i: int| 0 <= i < procs.len() && #[trigger] kill_selects(s, pid, procs[i]) {
        Err(Errno::EPERM)
    } else {
        Err(Errno::ESRCH)
    }
}

/// Sends a signal to a process, a process group or every other process.
///
/// Signal 0 only checks that a permitted target exists. A zombie counts as a
/// target although nothing is queued to it. The call fails with `EPERM` only
/// if every target is forbidden.
pub fn sys_kill(s: &Sender, pid: isize, signum: i32, procs: &Vec<Process>) -> (r: KillOutcome)
    ensures
        signum != 0 && !valid_signum(signum as int) ==> r.ret == err(Errno::EINVAL)
            && r.sends@.len() == 0,
        signum == 0 || valid_signum(signum as int) ==> {
            &&& r.sends@ == kill_sends(*s, pid, signum, procs@)
            &&& r.ret == kill_answer(*s, pid, procs@)
        },
{
    let sig = Sig::from(signum);
    let mut sends: Vec<SignalSend> = Vec::new();
    if signum != 0 && !sig.is_valid() {
        return KillOutcome { ret: Err(Errno::EINVAL), sends };
    }
    let mut delivered = false;
    let mut found = false;
    let mut i: usize = 0;
    while i < procs.len()
        invariant
            i <= procs@.len(),
            sends@ == kill_sends(*s, pid, signum, procs@.take(i as int)),
            found == exists|k: int|
                0 <= k < i && #[trigger] kill_selects(*s, pid, procs@[k]),
            delivered == exists|k: int|
                0 <= k < i && #[trigger] kill_selects(*s, pid, procs@[k]) && may_signal(
                    *s,
                    procs@[k],
                ),
        decreases procs@.len() - i,
    {
        let p = procs[i];
        proof {
            assert(procs@.take(i + 1).drop_last() =~= procs@.take(i as int));
            assert(procs@.take(i + 1).last() == procs@[i as int]);
        }
        if selects(s, pid, &p) {
            assert(kill_selects(*s, pid, procs@[i as int]));
            found = true;
            if permitted(s, &p) {
                delivered = true;
                if signum != 0 && p.alive {
                    let info = SigInfo::new(
                        signum,
                        SigInfo::USER,
                        SiField::Kill { tid: s.tgid },
                    );
                    sends.push(
                        SignalSend { tgid: p.tgid, info, resumes: signum == SIGCONT && p.stopped },
                    );
                }
            }
        }
        i = i + 1;
    }
    proof {
        assert(procs@.take(procs@.len() as int) =~= procs@);
    }
    let ret: SysResult<usize> = if delivered {
        Ok(0)
    } else if found {
        Err(Errno::EPERM)
    } else {
        Err(Errno::ESRCH)
    };
    KillOutcome { ret, sends }
}

/// The signal that `tkill` queues to an existing thread; nothing for the
/// probing signal 0.
pub open spec fn tkill_result(
    sender_tid: usize,
    tid: isize,
    signum: i32,
    exists_target: bool,
) -> SysResult<Option<SigInfo>> {
    if tid <= 0 || (signum != 0 && !valid_signum(signum as int)) {
        Err(Errno::EINVAL)
    } else if !exists_target {
        Err(Errno::ESRCH)
    } else if signum == 0 {
        Ok(None)
    } else {
        Ok(
            Some(
                SigInfo {
                    signo: signum,
                    code: SigInfo::TKILL,
                    fields: SiField::Kill { tid: sender_tid },
                },
            ),
        )
    }
}

/// Sends a signal to one thread. Answers with the signal to queue.
pub fn sys_tkill(s: &Sender, tid: isize, signum: i32, exists_target: bool) -> (r: SysResult<
    Option<SigInfo>,
>)
    ensures
        r == tkill_result(s.tid, tid, signum, exists_target),
{
    if tid <= 0 {
        return Err(Errno::EINVAL);
    }
    let sig = Sig::from(signum);
    if signum != 0 && !sig.is_valid() {
        return Err(Errno::EINVAL);
    }
    if !exists_target {
        return Err(Errno::ESRCH);
    }
    if signum == 0 {
        return Ok(None);
    }
    Ok(Some(SigInfo::new(signum, SigInfo::TKILL, SiField::Kill { tid: s.tid })))
}

/// What signalling a thread of a process comes to.
pub open spec fn tgkill_result(
    sender: usize,
    tgid: isize,
    tid: isize,
    signum: i32,
    target: Option<usize>,
) -> SysResult<Option<SigInfo>> {
    if tgid <= 0 || tid <= 0 {
        Err(Errno::EINVAL)
    } else if target is None || target->0 != tgid {
        Err(Errno::ESRCH)
    } else if signum == 0 {
        Ok(None)
    } else {
        tkill_result(sender, tid, signum, true)
    }
}

/// Sends a signal to one thread of one process. `target` is the process of
/// thread `tid`, if that thread exists.
pub fn sys_tgkill(
    s: &Sender,
    tgid: isize,
    tid: isize,
    signum: i32,
    target: Option<usize>,
) -> (r: SysResult<Option<SigInfo>>)
    ensures
        r == tgkill_result(s.tid, tgid, tid, signum, target),
{
    if tgid <= 0 || tid <= 0 {
        return Err(Errno::EINVAL);
    }
    match target {
        None => {
            return Err(Errno::ESRCH);
        },
        Some(owner) => {
            if owner != tgid as usize {
                return Err(Errno::ESRCH);
            }
        },
    }
    if signum == 0 {
        return Ok(None);
    }
    sys_tkill(s, tid, signum, true)
}

/// What a call returns once a queue has taken or refused the signal.
pub fn queued_result(accepted: bool) -> (r: SysResult<usize>)
    ensures
        r == (if accepted {
            ok(0)
        } else {
            Err(Errno::EAGAIN)
        }),
{
    if accepted {
        Ok(0)
    } else {
        Err(Errno::EAGAIN)
    }
}

/// The signal that `rt_sigqueueinfo` queues.
pub open spec fn sigqueueinfo_result(
    s: Sender,
    tgid: isize,
    signum: i32,
    target: Option<Process>,
    uinfo: UserIn<LinuxSigInfo>,
) -> SysResult<Option<SigInfo>> {
    if tgid <= 0 || (signum != 0 && !valid_signum(signum as int)) {
        Err(Errno::EINVAL)
    } else {
        match target {
            None => Err(Errno::ESRCH),
            Some(p) => if !may_signal(s, p) {
                Err(Errno::EPERM)
            } else {
                match read_result(uinfo) {
                    Err(e) => Err(e),
                    Ok(info) => if signum == 0 {
                        Ok(None)
                    } else if tgid != s.tgid && info.si_code >= 0 {
                        Err(Errno::EPERM)
                    } else if !p.alive {
                        Ok(None)
                    } else {
                        Ok(
                            Some(
                                SigInfo {
                                    signo: signum,
                                    code: info.si_code,
                                    fields: SiField::Kill { tid: info.si_pid },
                                },
                            ),
                        )
                    },
                }
            },
        }
    }
}

/// Queues a signal with details from user memory. Only a process itself may
/// claim that the kernel or `kill` sent the signal.
pub fn sys_rt_sigqueueinfo(
    s: &Sender,
    tgid: isize,
    signum: i32,
    target: Option<Process>,
    uinfo: UserIn<LinuxSigInfo>,
) -> (r: SysResult<Option<SigInfo>>)
    ensures
        r == sigqueueinfo_result(*s, tgid, signum, target, uinfo),
{
    if tgid <= 0 {
        return Err(Errno::EINVAL);
    }
    let sig = Sig::from(signum);
    if signum != 0 && !sig.is_valid() {
        return Err(Errno::EINVAL);
    }
    let p = match target {
        Some(p) => p,
        None => {
            return Err(Errno::ESRCH);
        },
    };
    if !permitted(s, &p) {
        return Err(Errno::EPERM);
    }
    let info = match uinfo.read() {
        Ok(info) => info,
        Err(e) => {
            return Err(e);
        },
    };
    if signum == 0 {
        return Ok(None);
    }
    if tgid as usize != s.tgid && info.si_code >= 0 {
        return Err(Errno::EPERM);
    }
    if !p.alive {
        return Ok(None);
    }
    Ok(Some(SigInfo::new(signum, info.si_code, SiField::Kill { tid: info.si_pid })))
}

/// The smallest usable alternate stack.
pub const MINSIGSTKSZ: usize = 2048;

/// Why a new alternate stack is refused.
pub open spec fn altstack_error(s: SignalStack) -> Option<Errno> {
    if s.ss_flags & !SS_DISABLE != 0 || s.ss_flags & 2 != 0 {
        Some(Errno::EINVAL)
    } else if s.ss_flags & SS_DISABLE == 0 && s.ss_size < MINSIGSTKSZ {
        Some(Errno::ENOMEM)
    } else {
        None
    }
}

/// Whether setting the alternate stack goes from `before` to `after` and returns `r`.
pub open spec fn stack_changed(
    before: SignalStack,
    after: SignalStack,
    new_stack: UserIn<SignalStack>,
    old_stack: UserOut,
    r: Reply<SignalStack>,
) -> bool {
    old_stack != UserOut::Fault ==> {
        &&& r.out == (if old_stack == UserOut::Writable {
            Some(before)
        } else {
            None
        })
        &&& match new_stack {
            UserIn::Null => r.ret == ok(0) && after == before,
            UserIn::Fault => r.ret == err(Errno::EFAULT) && after
                == before,
            UserIn::Value(s) => match altstack_error(s) {
                Some(e) => r.ret == err(e) && after == before,
                None => r.ret == ok(0) && after == s,
            },
        }
    }
}

/// Reports the alternate stack and replaces it. The new stack takes effect only
/// if the old one could be reported and the new one is usable.
pub fn sys_sigaltstack(
    stack: &mut SignalStack,
    new_stack: UserIn<SignalStack>,
    old_stack: UserOut,
) -> (r: Reply<SignalStack>)
    ensures
        old_stack == UserOut::Fault ==> {
            &&& r == failed::<SignalStack>(Errno::EFAULT)
            &&& *final(stack) == *old(stack)
        },
        stack_changed(*old(stack), *final(stack), new_stack, old_stack, r),
{
    let out = match old_stack {
        UserOut::Null => None,
        UserOut::Writable => Some(*stack),
        UserOut::Fault => {
            return Reply::fail(Errno::EFAULT);
        },
    };
    let ret: SysResult<usize> = match new_stack {
        UserIn::Null => Ok(0),
        UserIn::Fault => Err(Errno::EFAULT),
        UserIn::Value(s) => {
            if s.ss_flags & !SS_DISABLE != 0 || s.ss_flags & 2 != 0 {
                Err(Errno::EINVAL)
            } else if s.ss_flags & SS_DISABLE == 0 && s.ss_size < MINSIGSTKSZ {
                Err(Errno::ENOMEM)
            } else {
                *stack = s;
                Ok(0)
            }
        },
    };
    Reply { ret, out }
}

/// Reports the pending signals that are blocked. Signals that can be delivered
/// right away are not reported.
pub fn sys_rt_sigpending(sig: &SigPending, set: UserOut, sigsetsize: usize) -> (r: Reply<SigSet>)
    ensures
        sigsetsize != SIGSET_SIZE ==> r == failed::<SigSet>(Errno::EINVAL),
        sigsetsize == SIGSET_SIZE && set != UserOut::Writable ==> r == failed::<SigSet>(
            Errno::EFAULT,
        ),
        sigsetsize == SIGSET_SIZE && set == UserOut::Writable ==> {
            &&& r.ret == ok(0)
            &&& r.out is Some
            &&& forall|n: int|
                valid_signum(n) ==> has_signal(r.out->0, n) == (has_signal(sig.pending, n)
                    && has_signal(sig.mask, n))
        },
{
    if sigsetsize != SIGSET_SIZE {
        return Reply::fail(Errno::EINVAL);
    }
    set.reply(0, sig.pending.intersection(sig.mask))
}

/// Replaces the mask until a signal arrives and remembers the former mask for
/// the signal frame. SIGKILL and SIGSTOP stay deliverable. The caller then
/// sleeps until a signal is deliverable and returns `EINTR`.
pub fn sys_rt_sigsuspend(task: &mut SignalTask, mask: UserIn<SigSet>, sigsetsize: usize) -> (r:
    SysResult<()>)
    ensures
        r == (if sigsetsize != SIGSET_SIZE {
            Err::<(), Errno>(Errno::EINVAL)
        } else {
            match read_result(mask) {
                Err(e) => Err(e),
                Ok(_) => Ok(()),
            }
        }),
        r is Err ==> *final(task) == *old(task),
        r is Ok ==> {
            &&& final(task).suspended_mask == Some(old(task).sig.mask)
            &&& blockable_part(mask->Value_0, final(task).sig.mask)
            &&& final(task).sig.pending == old(task).sig.pending
            &&& final(task).sig.info == old(task).sig.info
            &&& final(task).trap == old(task).trap
            &&& final(task).handlers == old(task).handlers
            &&& final(task).altstack == old(task).altstack
            &&& final(task).sig_context_addr == old(task).sig_context_addr
        },
{
    if sigsetsize != SIGSET_SIZE {
        return Err(Errno::EINVAL);
    }
    match mask.read() {
        Err(e) => Err(e),
        Ok(m) => {
            let new_mask = m.without_unblockable();
            task.suspended_mask = Some(task.sig.mask);
            task.sig.mask = new_mask;
            Ok(())
        },
    }
}

/// Why an action of signal `signum` can be neither queried nor changed.
pub open spec fn sigaction_error(signum: i32, sigsetsize: usize) -> bool {
    sigsetsize != SIGSET_SIZE || !valid_signum(signum as int) || unblockable(signum as int)
}

/// Whether setting an action goes from `before` to `after` and returns `r`.
pub open spec fn action_changed(
    before: &SigHandler,
    after: &SigHandler,
    signum: i32,
    act: UserIn<SigAction>,
    oldact: UserOut,
    r: Reply<SigAction>,
) -> bool {
    r.ret is Ok ==> {
        &&& r.out == (if oldact == UserOut::Writable {
            Some(before.action(signum as int))
        } else {
            None
        })
        &&& act is Null ==> after.actions@ == before.actions@
        &&& act matches UserIn::Value(a) ==> {
            &&& after.actions@ == before.actions@.update(
                signum - 1,
                after.action(signum as int),
            )
            &&& after.action(signum as int).sa_handler == a.sa_handler
            &&& after.action(signum as int).flags == a.flags
            &&& after.action(signum as int).restorer == a.restorer
            &&& blockable_part(a.mask, after.action(signum as int).mask)
        }
    }
}

/// Queries and replaces the action for a signal. The new action is read and the
/// old one is reported before anything changes; a failing call changes nothing.
pub fn sys_sigaction(
    handlers: &mut SigHandler,
    signum: i32,
    act: UserIn<SigAction>,
    oldact: UserOut,
    sigsetsize: usize,
) -> (r: Reply<SigAction>)
    requires
        old(handlers).wf(),
    ensures
        final(handlers).wf(),
        unblockable_kept(*old(handlers), *final(handlers)),
        r.ret is Ok <==> !sigaction_error(signum, sigsetsize) && !(act is Fault) && oldact
            != UserOut::Fault,
        r.ret is Ok ==> r.ret == ok(0),
        r.ret is Err ==> {
            &&& r.ret == err(
                if sigaction_error(signum, sigsetsize) {
                    Errno::EINVAL
                } else {
                    Errno::EFAULT
                },
            )
            &&& r.out is None
            &&& final(handlers).actions@ == old(handlers).actions@
        },
        action_changed(old(handlers), final(handlers), signum, act, oldact, r),
{
    if sigsetsize != SIGSET_SIZE {
        return Reply::fail(Errno::EINVAL);
    }
    if signum <= 0 || signum > 64 {
        return Reply::fail(Errno::EINVAL);
    }
    let sig = Sig::from(signum);
    if sig.is_kill_or_stop() {
        return Reply::fail(Errno::EINVAL);
    }
    let prepared: Option<SigAction> = match act {
        UserIn::Null => None,
        UserIn::Fault => {
            return Reply::fail(Errno::EFAULT);
        },
        UserIn::Value(a) => Some(
            SigAction {
                sa_handler: a.sa_handler,
                flags: a.flags,
                restorer: a.restorer,
                mask: a.mask.without_unblockable(),
            },
        ),
    };
    let out = match oldact {
        UserOut::Null => None,
        UserOut::Writable => Some(handlers.get(sig)),
        UserOut::Fault => {
            return Reply::fail(Errno::EFAULT);
        },
    };
    match prepared {
        Some(a) => handlers.update(sig, a),
        None => {},
    }
    Reply { ret: Ok(0), out }
}

pub const SIG_BLOCK: usize = 0;

pub const SIG_UNBLOCK: usize = 1;

pub const SIG_SETMASK: usize = 2;

/// Whether signal `n` is blocked after a change of the mask.
pub open spec fn blocked_after(how: usize, before: SigSet, set: SigSet, n: int) -> bool {
    if how == SIG_BLOCK {
        has_signal(before, n) || (has_signal(set, n) && !unblockable(n))
    } else if how == SIG_UNBLOCK {
        has_signal(before, n) && !(has_signal(set, n) && !unblockable(n))
    } else {
        has_signal(set, n) && !unblockable(n)
    }
}

/// Whether changing the mask of a thread returns `r`.
pub open spec fn mask_answer(
    set: UserIn<SigSet>,
    how: usize,
    oldset: UserOut,
    sigsetsize: usize,
    r: Reply<SigSet>,
) -> bool {
    r.ret == (if sigsetsize != SIGSET_SIZE {
        err(Errno::EINVAL)
    } else if oldset == UserOut::Fault {
        Err(Errno::EFAULT)
    } else {
        match set {
            UserIn::Null => Ok(0),
            _ if how > SIG_SETMASK => Err(Errno::EINVAL),
            UserIn::Fault => Err(Errno::EFAULT),
            UserIn::Value(_) => Ok(0),
        }
    })
}

/// Queries and changes the signal mask. The former mask is reported before the
/// change; a failing call changes nothing.
pub fn sys_sigprocmask(
    sig: &mut SigPending,
    how: usize,
    set: UserIn<SigSet>,
    oldset: UserOut,
    sigsetsize: usize,
) -> (r: Reply<SigSet>)
    ensures
        final(sig).pending == old(sig).pending,
        final(sig).info == old(sig).info,
        mask_answer(set, how, oldset, sigsetsize, r),
        r.out == (if sigsetsize == SIGSET_SIZE && oldset == UserOut::Writable {
            Some(old(sig).mask)
        } else {
            None
        }),
        r.ret is Err || set is Null ==> final(sig).mask == old(sig).mask,
        r.ret is Ok && set is Value ==> forall|n: int|
            valid_signum(n) ==> has_signal(final(sig).mask, n) == blocked_after(
                how,
                old(sig).mask,
                set->Value_0,
                n,
            ),
{
    if sigsetsize != SIGSET_SIZE {
        return Reply::fail(Errno::EINVAL);
    }
    let current = sig.mask;
    let out = match oldset {
        UserOut::Null => None,
        UserOut::Writable => Some(current),
        UserOut::Fault => {
            return Reply::fail(Errno::EFAULT);
        },
    };
    if set.is_null() {
        return Reply { ret: Ok(0), out };
    }
    if how > SIG_SETMASK {
        return Reply { ret: Err(Errno::EINVAL), out };
    }
    match set.read() {
        Err(e) => Reply { ret: Err(e), out },
        Ok(s) => {
            let wanted = s.without_unblockable();
            let mask = if how == SIG_BLOCK {
                current.union(wanted)
            } else if how == SIG_UNBLOCK {
                current.difference(wanted)
            } else {
                wanted
            };
            sig.change_mask(mask);
            Reply { ret: Ok(0), out }
        },
    }
}

/// Whatever a program asks for, SIGKILL and SIGSTOP never become blocked.
pub proof fn mask_changes_never_block_the_unblockable(how: usize, before: SigSet, set: SigSet, n: int)
    requires
        unblockable(n),
        !has_signal(before, n),
    ensures
        !blocked_after(how, before, set, n),
{
}

/// Blocking a set and unblocking it again gives back the former mask where the
/// set and the mask were disjoint.
pub proof fn unblock_undoes_block(before: SigSet, middle: SigSet, set: SigSet, n: int)
    requires
        has_signal(middle, n) == blocked_after(SIG_BLOCK, before, set, n),
        !(has_signal(before, n) && has_signal(set, n)),
    ensures
        blocked_after(SIG_UNBLOCK, middle, set, n) == has_signal(before, n),
{
}

/// How a wait for a signal under another mask goes on: it ends with `EINTR` once
/// a signal can be delivered, and never otherwise.
pub fn sigsuspend_resume(interrupted: bool) -> (r: Option<SysResult<usize>>)
    ensures
        r == (if interrupted {
            Some(err(Errno::EINTR))
        } else {
            None
        }),
{
    if interrupted {
        Some(Err(Errno::EINTR))
    } else {
        None
    }
}

/// A wait under another mask, the handler that ends it and the return from that
/// handler leave the mask as it was before the wait: the wait keeps it aside
/// (`kept`), the frame of the handler records it (`saved`), and the return brings
/// it back (`after`), without the signals that cannot be blocked.
pub proof fn suspension_gives_the_mask_back(
    before: SigSet,
    kept: SignalTask,
    saved: SigSet,
    after: SigSet,
    n: int,
)
    requires
        valid_signum(n),
        kept.suspended_mask == Some(before),
        saved == returned_mask(&kept),
        blockable_part(saved, after),
    ensures
        has_signal(after, n) == (has_signal(before, n) && !unblockable(n)),
{
}

/// Whether returning from a handler goes from `before` to `after` and returns `r`.
pub open spec fn handler_left(
    before: &SignalTask,
    after: &SignalTask,
    frame: UserIn<SignalFrame>,
    r: SysResult<usize>,
) -> bool {
    match read_result(frame) {
        Err(e) => r == err(e) && *after == *before,
        Ok(f) => match frame_context(f) {
            None => r == err(Errno::EFAULT) && *after == *before,
            Some(c) => {
                &&& r == ok(after.trap.a0())
                &&& after.trap.arch == before.trap.arch
                &&& after.trap.x@ == restored_regs(before.trap.arch, c)
                &&& after.trap.sepc == c.sepc
                &&& blockable_part(c.mask, after.sig.mask)
                &&& after.sig.pending == before.sig.pending
                &&& after.sig.info == before.sig.info
                &&& after.handlers == before.handlers
                &&& after.altstack == before.altstack
                &&& after.suspended_mask == before.suspended_mask
                &&& after.sig_context_addr == 0
            },
        },
    }
}

/// Returns from a handler: machine state and mask come from the saved frame.
/// A frame that cannot be read, or that is none, changes nothing.
pub fn sys_sigreturn(task: &mut SignalTask, frame: UserIn<SignalFrame>) -> (r: SysResult<usize>)
    requires
        old(task).wf(),
    ensures
        final(task).wf(),
        handler_left(old(task), final(task), frame, r),
{
    match frame.read() {
        Err(e) => Err(e),
        Ok(f) => match f {
            SignalFrame::Plain(c) => Ok(task.leave_handler(c)),
            SignalFrame::Rt(u) => {
                let c = SigContext {
                    x: u.uc_mcontext.x,
                    sepc: u.uc_mcontext.sepc,
                    mask: u.uc_sigmask,
                    info: u.uc_mcontext.info,
                };
                Ok(task.leave_handler(c))
            },
            SignalFrame::Unknown => Err(Errno::EFAULT),
        },
    }
}

/// The set that `rt_sigtimedwait` waits for; SIGKILL and SIGSTOP cannot be
/// waited for.
pub fn sigtimedwait_set(set: UserIn<SigSet>, sigsetsize: usize) -> (r: SysResult<SigSet>)
    ensures
        sigsetsize != SIGSET_SIZE ==> r == Err::<SigSet, Errno>(Errno::EINVAL),
        sigsetsize == SIGSET_SIZE ==> match read_result(set) {
            Err(e) => r == Err::<SigSet, Errno>(e),
            Ok(s) => r is Ok && blockable_part(s, r->Ok_0),
        },
{
    if sigsetsize != SIGSET_SIZE {
        return Err(Errno::EINVAL);
    }
    match set.read() {
        Err(e) => Err(e),
        Ok(s) => Ok(s.without_unblockable()),
    }
}

/// What is done with a pending signal that was waited for.
pub enum Taken {
    /// No such signal is pending.
    Nothing,
    /// The signal is to be consumed after `out`, if any, was written.
    Consume { info: SigInfo, out: Option<LinuxSigInfo> },
}

/// Whether taking a signal that was waited for comes to `r`.
pub open spec fn candidate_taken(
    candidate: Option<SigInfo>,
    info: UserOut,
    r: SysResult<Taken>,
) -> bool {
    match candidate {
        None => r == Ok::<Taken, Errno>(Taken::Nothing),
        Some(c) => match info {
            UserOut::Fault => r == Err::<Taken, Errno>(Errno::EFAULT),
            UserOut::Null => r == Ok::<Taken, Errno>(Taken::Consume { info: c, out: None }),
            UserOut::Writable => r == Ok::<Taken, Errno>(
                Taken::Consume { info: c, out: Some(user_info(c)) },
            ),
        },
    }
}

/// Chooses what to report of a pending signal. If its details cannot be
/// written the signal stays pending.
pub fn take_sigtimedwait_signal(candidate: Option<SigInfo>, info: UserOut) -> (r: SysResult<Taken>)
    ensures
        candidate_taken(candidate, info, r),
{
    match candidate {
        None => Ok(Taken::Nothing),
        Some(c) => match info {
            UserOut::Fault => Err(Errno::EFAULT),
            UserOut::Null => Ok(Taken::Consume { info: c, out: None }),
            UserOut::Writable => Ok(
                Taken::Consume { info: c, out: Some(LinuxSigInfo::from_info(c)) },
            ),
        },
    }
}

/// Where a wait for a signal stands. `first` holds of the look that comes before
/// the thread is marked as waiting.
#[derive(Debug, Clone, Copy, PartialEq, Eq)]
pub enum SigwaitPhase {
    /// The pending signals are looked at.
    Look { first: bool },
    /// A pending signal is consumed.
    Consume { first: bool, signo: i32 },
    /// The timeout is read.
    Timeout,
    /// The thread sleeps.
    Asleep,
    /// The call has returned.
    Over,
}

/// A wait for a signal.
#[derive(Debug, Clone, Copy)]
pub struct SigwaitCall {
    pub wanted: SigSet,
    /// Where the details of the signal go.
    pub info: UserOut,
    pub deadline_ms: Option<usize>,
    pub phase: SigwaitPhase,
}

/// What a wait for a signal does next.
#[derive(Debug)]
pub enum SigwaitAction {
    /// Look for a pending signal of the set.
    Look,
    /// Write `out`, if any, then consume this very signal.
    Consume { info: SigInfo, out: Option<LinuxSigInfo> },
    /// Read the timeout.
    ReadTimeout,
    /// Sleep until `deadline_ms`, or without limit.
    Sleep { deadline_ms: Option<usize> },
    /// The call returns.
    Return(SysResult<usize>),
}

/// What came of it.
#[derive(Debug)]
pub enum SigwaitEvent {
    /// A pending signal of the set, if there is one; whether another signal can be
    /// delivered; and the time.
    Looked { candidate: Option<SigInfo>, signal: bool, now_ms: usize },
    /// Whether the details could be written, and whether the signal was still
    /// there to be consumed.
    Consumed { written: SysResult<()>, consumed: bool, signal: bool, now_ms: usize },
    /// The timeout, if one was given, and the time.
    Timeout { timeout: UserIn<TimeSpec>, now_ms: usize },
    /// The thread runs again.
    Resumed,
}

/// The thread when it begins to wait for signals of a set.
pub open spec fn sigwaiting(t: WaitState, wanted: SigSet) -> WaitState {
    WaitState { interruptible: true, sigwait: Some(wanted), ..t }
}

/// The thread when it waits no more.
pub open spec fn sigwait_cleared(t: WaitState) -> WaitState {
    WaitState { interruptible: false, sigwait: None, ..t }
}

/// The wait ends. Before the thread was marked as waiting there is nothing to be
/// cleared.
pub open spec fn sigwait_ends(
    c: SigwaitCall,
    t: WaitState,
    first: bool,
    result: SysResult<usize>,
) -> (SigwaitCall, WaitState, SigwaitAction) {
    (
        SigwaitCall { phase: SigwaitPhase::Over, ..c },
        if first {
            t
        } else {
            sigwait_cleared(t)
        },
        SigwaitAction::Return(result),
    )
}

/// What follows when no signal of the set was consumed: another signal ends the
/// wait, then the deadline, else the thread sleeps.
pub open spec fn sigwait_without(c: SigwaitCall, t: WaitState, first: bool, signal: bool, now_ms: usize) -> (
    SigwaitCall,
    WaitState,
    SigwaitAction,
) {
    if first {
        (
            SigwaitCall { phase: SigwaitPhase::Timeout, ..c },
            sigwaiting(t, c.wanted),
            SigwaitAction::ReadTimeout,
        )
    } else if signal {
        sigwait_ends(c, WaitState { interrupted: false, ..t }, false, Err(Errno::EINTR))
    } else if c.deadline_ms matches Some(d) && now_ms >= d {
        sigwait_ends(c, t, false, Err(Errno::EAGAIN))
    } else {
        (
            SigwaitCall { phase: SigwaitPhase::Asleep, ..c },
            t,
            SigwaitAction::Sleep { deadline_ms: c.deadline_ms },
        )
    }
}

/// What follows an event.
pub open spec fn sigwait_step(c: SigwaitCall, t: WaitState, e: SigwaitEvent) -> (
    SigwaitCall,
    WaitState,
    SigwaitAction,
) {
    match c.phase {
        SigwaitPhase::Look { first } => match e->candidate {
            None => sigwait_without(c, t, first, e->Looked_signal, e->Looked_now_ms),
            Some(info) => if c.info == UserOut::Fault {
                sigwait_ends(c, t, first, Err(Errno::EFAULT))
            } else {
                (
                    SigwaitCall { phase: SigwaitPhase::Consume { first, signo: info.signo }, ..c },
                    t,
                    SigwaitAction::Consume {
                        info,
                        out: if c.info == UserOut::Writable {
                            Some(user_info(info))
                        } else {
                            None
                        },
                    },
                )
            },
        },
        SigwaitPhase::Consume { first, signo } => match e->written {
            Err(x) => sigwait_ends(c, t, first, Err(x)),
            Ok(_) => match consumed_signal(e->consumed, signo) {
                Some(n) => sigwait_ends(c, WaitState { interrupted: false, ..t }, first, Ok(n)),
                None => sigwait_without(c, t, first, e->Consumed_signal, e->Consumed_now_ms),
            },
        },
        SigwaitPhase::Timeout => match sigwait_deadline(e->timeout, e->Timeout_now_ms) {
            Err(x) => sigwait_ends(c, t, false, Err(x)),
            Ok(d) => (
                SigwaitCall { deadline_ms: d, phase: SigwaitPhase::Look { first: false }, ..c },
                t,
                SigwaitAction::Look,
            ),
        },
        SigwaitPhase::Asleep => (
            SigwaitCall { phase: SigwaitPhase::Look { first: false }, ..c },
            t,
            SigwaitAction::Look,
        ),
        SigwaitPhase::Over => sigwait_ends(c, t, true, Err(Errno::EINVAL)),
    }
}

/// The event can come of what was to be done.
pub open spec fn sigwait_event_fits(c: SigwaitCall, e: SigwaitEvent) -> bool {
    match c.phase {
        SigwaitPhase::Look { .. } => e is Looked && (e->candidate matches Some(i) ==> 0 < i.signo),
        SigwaitPhase::Consume { .. } => e is Consumed,
        SigwaitPhase::Timeout => e is Timeout,
        SigwaitPhase::Asleep => e is Resumed,
        SigwaitPhase::Over => false,
    }
}

/// The number that is reported of a signal: none where another thread has consumed
/// it first.
pub open spec fn consumed_signal(consumed: bool, signo: i32) -> Option<usize> {
    if consumed {
        Some(signo as usize)
    } else {
        None
    }
}

/// The deadline of a timeout: none without one. A zero timeout ends the wait.
pub open spec fn sigwait_deadline(timeout: UserIn<TimeSpec>, now_ms: usize) -> SysResult<Option<usize>> {
    match timeout {
        UserIn::Null => Ok(None),
        UserIn::Fault => Err(Errno::EFAULT),
        UserIn::Value(t) => match duration_ms(t) {
            None => Err(Errno::EINVAL),
            Some(ms) => if t.sec == 0 && t.nsec == 0 {
                Err(Errno::EAGAIN)
            } else {
                Ok(Some(now_ms.saturating_add(ms)))
            },
        },
    }
}

/// Starts a wait for a signal of a set: the pending signals are to be looked at
/// next, before the timeout is even read.
pub fn sys_rt_sigtimedwait(set: UserIn<SigSet>, sigsetsize: usize, info: UserOut) -> (r: SysResult<
    SigwaitCall,
>)
    ensures
        sigsetsize != SIGSET_SIZE ==> r == Err::<SigwaitCall, Errno>(Errno::EINVAL),
        sigsetsize == SIGSET_SIZE ==> match read_result(set) {
            Err(e) => r == Err::<SigwaitCall, Errno>(e),
            Ok(s) => {
                &&& r is Ok
                &&& blockable_part(s, r->Ok_0.wanted)
                &&& r->Ok_0 == (SigwaitCall {
                    wanted: r->Ok_0.wanted,
                    info,
                    deadline_ms: None,
                    phase: SigwaitPhase::Look { first: true },
                })
            },
        },
{
    match sigtimedwait_set(set, sigsetsize) {
        Err(e) => Err(e),
        Ok(wanted) => Ok(
            SigwaitCall { wanted, info, deadline_ms: None, phase: SigwaitPhase::Look { first: true } },
        ),
    }
}

impl SigwaitCall {
    fn end(&mut self, t: &mut WaitState, first: bool, result: SysResult<usize>) -> (r: SigwaitAction)
        ensures
            (*final(self), *final(t), r) == sigwait_ends(*old(self), *old(t), first, result),
    {
        self.phase = SigwaitPhase::Over;
        if !first {
            t.interruptible = false;
            t.sigwait = None;
        }
        SigwaitAction::Return(result)
    }

    fn without(&mut self, t: &mut WaitState, first: bool, signal: bool, now_ms: usize) -> (r:
        SigwaitAction)
        ensures
            (*final(self), *final(t), r) == sigwait_without(
                *old(self),
                *old(t),
                first,
                signal,
                now_ms,
            ),
    {
        if first {
            t.interruptible = true;
            t.sigwait = Some(self.wanted);
            self.phase = SigwaitPhase::Timeout;
            return SigwaitAction::ReadTimeout;
        }
        if signal {
            t.interrupted = false;
            return self.end(t, false, Err(Errno::EINTR));
        }
        let late = match self.deadline_ms {
            Some(d) => now_ms >= d,
            None => false,
        };
        if late {
            return self.end(t, false, Err(Errno::EAGAIN));
        }
        self.phase = SigwaitPhase::Asleep;
        SigwaitAction::Sleep { deadline_ms: self.deadline_ms }
    }

    /// Takes note of what came of the last thing that was done, and tells the
    /// next.
    pub fn step(&mut self, t: &mut WaitState, e: SigwaitEvent) -> (r: SigwaitAction)
        requires
            sigwait_event_fits(*old(self), e),
        ensures
            (*final(self), *final(t), r) == sigwait_step(*old(self), *old(t), e),
    {
        match self.phase {
            SigwaitPhase::Look { first } => match e {
                SigwaitEvent::Looked { candidate, signal, now_ms } => {
                    match take_sigtimedwait_signal(candidate, self.info) {
                        Err(x) => self.end(t, first, Err(x)),
                        Ok(Taken::Nothing) => self.without(t, first, signal, now_ms),
                        Ok(Taken::Consume { info, out }) => {
                            self.phase = SigwaitPhase::Consume { first, signo: info.signo };
                            SigwaitAction::Consume { info, out }
                        },
                    }
                },
                _ => SigwaitAction::Look,
            },
            SigwaitPhase::Consume { first, signo } => match e {
                SigwaitEvent::Consumed { written, consumed, signal, now_ms } => {
                    match written {
                        Err(x) => {
                            return self.end(t, first, Err(x));
                        },
                        Ok(_) => {},
                    }
                    match sigtimedwait_answer(consumed, signo) {
                        Some(n) => {
                            t.interrupted = false;
                            self.end(t, first, Ok(n))
                        },
                        None => self.without(t, first, signal, now_ms),
                    }
                },
                _ => SigwaitAction::Look,
            },
            SigwaitPhase::Timeout => match e {
                SigwaitEvent::Timeout { timeout, now_ms } => {
                    match deadline_of(timeout, now_ms) {
                        Err(x) => self.end(t, false, Err(x)),
                        Ok(d) => {
                            self.deadline_ms = d;
                            self.phase = SigwaitPhase::Look { first: false };
                            SigwaitAction::Look
                        },
                    }
                },
                _ => SigwaitAction::Look,
            },
            SigwaitPhase::Asleep => {
                self.phase = SigwaitPhase::Look { first: false };
                SigwaitAction::Look
            },
            SigwaitPhase::Over => self.end(t, true, Err(Errno::EINVAL)),
        }
    }
}

/// What is reported of a signal that was to be consumed: its number if it was, and
/// nothing if another thread came first.
pub fn sigtimedwait_answer(consumed: bool, signo: i32) -> (r: Option<usize>)
    ensures
        r == consumed_signal(consumed, signo),
{
    if consumed {
        Some(signo as usize)
    } else {
        None
    }
}

fn deadline_of(timeout: UserIn<TimeSpec>, now_ms: usize) -> (r: SysResult<Option<usize>>)
    ensures
        r == sigwait_deadline(timeout, now_ms),
{
    match timeout {
        UserIn::Null => Ok(None),
        UserIn::Fault => Err(Errno::EFAULT),
        UserIn::Value(t) => match t.checked_duration_ms() {
            None => Err(Errno::EINVAL),
            Some(ms) => if t.is_zero() {
                Err(Errno::EAGAIN)
            } else {
                Ok(Some(now_ms.saturating_add(ms)))
            },
        },
    }
}

/// A wait for a signal from its start: its states, what was to be done, what came
/// of it, and the thread before and after each step.
pub struct SigwaitRun {
    pub calls: Seq<SigwaitCall>,
    pub actions: Seq<SigwaitAction>,
    pub events: Seq<SigwaitEvent>,
    pub before: Seq<WaitState>,
    pub after: Seq<WaitState>,
}

impl SigwaitRun {
    /// Step `k` of the run.
    pub open spec fn step_at(self, k: int) -> bool {
        &&& sigwait_event_fits(self.calls[k], self.events[k])
        &&& (self.calls[k + 1], self.after[k], self.actions[k]) == sigwait_step(
            self.calls[k],
            self.before[k],
            self.events[k],
        )
        &&& k + 1 < self.before.len() ==> undisturbed(self.after[k], self.before[k + 1])
    }

    /// The run starts as the call does, with a thread that does not wait, and each
    /// step follows from the last.
    pub open spec fn valid(self) -> bool {
        &&& self.events.len() > 0
        &&& self.calls.len() == self.events.len() + 1
        &&& self.actions.len() == self.events.len()
        &&& self.before.len() == self.events.len()
        &&& self.after.len() == self.events.len()
        &&& self.calls[0].phase == (SigwaitPhase::Look { first: true })
        &&& !self.before[0].interruptible
        &&& self.before[0].sigwait is None
        &&& forall|k: int| 0 <= k < self.events.len() ==> #[trigger] self.step_at(k)
    }
}

proof fn sigwait_is_on_the_way(r: SigwaitRun, k: int)
    requires
        r.valid(),
        0 <= k < r.events.len(),
    ensures
        r.before[k].mask == r.before[0].mask,
        match r.calls[k].phase {
            SigwaitPhase::Look { first: true } | SigwaitPhase::Consume { first: true, .. } => !r.before[k].interruptible
                && r.before[k].sigwait is None,
            SigwaitPhase::Over => false,
            _ => r.before[k].interruptible && r.before[k].sigwait == Some(r.calls[0].wanted),
        },
        r.calls[k].wanted == r.calls[0].wanted,
        r.calls[k].phase matches SigwaitPhase::Consume { signo, .. } ==> k > 0 && signo > 0 && (
        r.actions[k - 1] matches SigwaitAction::Consume { info, out: _ } && info.signo == signo),
    decreases k,
{
    assert(r.step_at(k));
    if k > 0 {
        assert(r.step_at(k - 1));
        sigwait_is_on_the_way(r, k - 1);
    }
}

/// However a wait for a signal ends, the mask is as before and the thread waits no
/// more. A signal is reported only if this thread has consumed it, and it is the
/// one that was asked for last.
pub proof fn sigwait_leaves_nothing_behind(r: SigwaitRun, result: SysResult<usize>)
    requires
        r.valid(),
        r.actions.last() == SigwaitAction::Return(result),
    ensures
        r.after.last().mask == r.before[0].mask,
        !r.after.last().interruptible,
        r.after.last().sigwait is None,
        result matches Ok(n) ==> {
            &&& r.events.last() matches SigwaitEvent::Consumed { written, consumed, .. } && consumed
                && written is Ok
            &&& r.actions.len() >= 2
            &&& r.actions[r.actions.len() - 2] matches SigwaitAction::Consume { info, out: _ }
                && info.signo == n
        },
{
    let k = r.events.len() - 1;
    assert(r.step_at(k));
    sigwait_is_on_the_way(r, k);
}

/// Whether the thread really goes to sleep once it is marked blocked: any
/// event since the last look cancels the sleep, so no wakeup is lost.
pub fn sigtimedwait_must_sleep(
    ready: bool,
    wanted_pending: bool,
    interrupted: bool,
    now_ms: usize,
    deadline_ms: Option<usize>,
) -> (r: bool)
    ensures
        r == !(ready || wanted_pending || interrupted || (deadline_ms is Some && now_ms
            >= deadline_ms->0)),
{
    let late = match deadline_ms {
        Some(d) => now_ms >= d,
        None => false,
    };
    !(ready || wanted_pending || interrupted || late)
}

/// Whose signal a process gets by a number that `kill` was given: that of the
/// process itself, of the sender's group, of everyone else, or of a group.
pub open spec fn addressed(pid: isize, tgid: usize, pgid: usize, p: Process) -> bool {
    ||| pid > 0 && p.tgid == pid
    ||| pid == 0 && p.pgid == pgid
    ||| pid == -1 && p.tgid != tgid
    ||| pid < -1 && p.pgid + pid == 0
}

/// A valid signal is queued to exactly the living processes that the number names
/// and that the sender may signal: to root everyone, to others those whose real or
/// saved user is the sender's real or effective one.
pub proof fn kills_reach_the_named_processes(
    s: Sender,
    pid: isize,
    signum: i32,
    procs: Seq<Process>,
)
    requires
        signum != 0,
    ensures
        kill_sends(s, pid, signum, procs) == procs.filter(
            |p: Process|
                p.alive && addressed(pid, s.tgid, s.pgid, p) && (s.euid == 0 || p.uid == s.euid
                    || p.suid == s.euid || p.uid == s.uid || p.suid == s.uid),
        ).map_values(
            |p: Process|
                SignalSend {
                    tgid: p.tgid,
                    info: SigInfo {
                        signo: signum,
                        code: 0,
                        fields: SiField::Kill { tid: s.tgid },
                    },
                    resumes: signum == 18 && p.stopped,
                },
        ),
    decreases procs.len(),
{
    reveal(Seq::filter);
    let f = |p: Process|
        p.alive && addressed(pid, s.tgid, s.pgid, p) && (s.euid == 0 || p.uid == s.euid || p.suid
            == s.euid || p.uid == s.uid || p.suid == s.uid);
    let g = |p: Process|
        SignalSend {
            tgid: p.tgid,
            info: SigInfo { signo: signum, code: 0, fields: SiField::Kill { tid: s.tgid } },
            resumes: signum == 18 && p.stopped,
        };
    if procs.len() > 0 {
        kills_reach_the_named_processes(s, pid, signum, procs.drop_last());
        let rest = procs.drop_last().filter(f);
        if f(procs.last()) {
            assert(procs.filter(f) =~= rest.push(procs.last()));
            assert(rest.push(procs.last()).map_values(g) =~= rest.map_values(g).push(
                g(procs.last()),
            ));
        }
    }
    assert(kill_sends(s, pid, signum, procs) =~= procs.filter(f).map_values(g));
}

/// The probing signal queues nothing, and whether a target exists and may be
/// signalled does not depend on the signal.
pub proof fn probes_queue_nothing(s: Sender, pid: isize, p: Process, procs: Seq<Process>)
    ensures
        kill_sends(s, pid, 0, procs).len() == 0,
        kill_selects(s, pid, p) == addressed(pid, s.tgid, s.pgid, p),
        may_signal(s, p) == (s.euid == 0 || p.uid == s.euid || p.suid == s.euid || p.uid == s.uid
            || p.suid == s.uid),
    decreases procs.len(),
{
    if procs.len() > 0 {
        probes_queue_nothing(s, pid, p, procs.drop_last());
    }
}

/// A signal to a thread carries its number and names the thread that sent it; the
/// target must exist and the number be one of a signal.
pub proof fn thread_signals_name_their_sender(sender: usize, tid: isize, signum: i32, found: bool)
    ensures
        ({
            let r = tkill_result(sender, tid, signum, found);
            &&& r matches Ok(Some(i)) ==> i.signo == signum && i.code == -6 && i.fields
                == (SiField::Kill { tid: sender }) && 1 <= signum <= 64
            &&& r is Ok <==> tid > 0 && found && 0 <= signum <= 64
            &&& r == Ok::<Option<SigInfo>, Errno>(None) <==> tid > 0 && found && signum == 0
            &&& r == Err::<Option<SigInfo>, Errno>(Errno::ESRCH) <==> tid > 0 && 0 <= signum <= 64
                && !found
            &&& r is Err ==> r->Err_0 == Errno::ESRCH || r->Err_0 == Errno::EINVAL
        }),
{
}

/// A queued signal keeps the number that was asked for, and the code and the sender
/// that user memory tells; nobody but the process itself may claim a code that the
/// kernel uses.
pub proof fn queued_signals_keep_their_details(
    s: Sender,
    tgid: isize,
    signum: i32,
    p: Process,
    info: LinuxSigInfo,
)
    requires
        tgid > 0,
        1 <= signum <= 64,
        s.euid == 0,
        p.alive,
    ensures
        ({
            let r = sigqueueinfo_result(s, tgid, signum, Some(p), UserIn::Value(info));
            &&& info.si_code < 0 || tgid == s.tgid ==> r == Ok::<Option<SigInfo>, Errno>(
                Some(
                    SigInfo {
                        signo: signum,
                        code: info.si_code,
                        fields: SiField::Kill { tid: info.si_pid },
                    },
                ),
            )
            &&& info.si_code >= 0 && tgid != s.tgid ==> r == Err::<Option<SigInfo>, Errno>(
                Errno::EPERM,
            )
        }),
{
}

/// Without a target, permission or details nothing is queued, each with its own
/// error.
pub proof fn queueing_is_refused_in_order(
    s: Sender,
    tgid: isize,
    signum: i32,
    target: Option<Process>,
    uinfo: UserIn<LinuxSigInfo>,
)
    requires
        tgid > 0,
        0 <= signum <= 64,
    ensures
        ({
            let r = sigqueueinfo_result(s, tgid, signum, target, uinfo);
            &&& target is None ==> r == Err::<Option<SigInfo>, Errno>(Errno::ESRCH)
            &&& target matches Some(p) ==> {
                let allowed = s.euid == 0 || p.uid == s.euid || p.suid == s.euid || p.uid == s.uid
                    || p.suid == s.uid;
                &&& !allowed ==> r == Err::<Option<SigInfo>, Errno>(Errno::EPERM)
                &&& allowed
                    && !(uinfo is Value) ==> r == Err::<Option<SigInfo>, Errno>(Errno::EFAULT)
                &&& allowed && uinfo is Value && signum == 0 ==> r == Ok::<Option<SigInfo>, Errno>(
                    None,
                )
            }
        }),
{
}

/// An alternate stack is usable if it has at least 2048 bytes or is switched off.
pub proof fn usable_stacks_are_large_enough(s: SignalStack)
    ensures
        s.ss_flags == 2 && s.ss_size < 2048 ==> altstack_error(s) is Some,
        altstack_error(s) == Some(Errno::ENOMEM) ==> s.ss_size < 2048,
        s.ss_flags == 0 && s.ss_size >= 2048 ==> altstack_error(s) is None,
        s.ss_flags == 0 && s.ss_size < 2048 ==> altstack_error(s) == Some(Errno::ENOMEM),
{
    assert(0i32 & !SS_DISABLE == 0 && 0i32 & 2 == 0 && 0i32 & SS_DISABLE == 0) by (bit_vector);
    assert(2i32 & 2 != 0) by (bit_vector);
}

/// The mask after a change: a signal is blocked by adding, given free by removing,
/// and set by replacing; SIGKILL and SIGSTOP are never added.
pub proof fn masks_change_as_asked(before: SigSet, set: SigSet, n: int)
    requires
        1 <= n <= 64,
    ensures
        n != 9 && n != 19 ==> blocked_after(0, before, set, n) == (has_signal(before, n)
            || has_signal(set, n)),
        n != 9 && n != 19 ==> blocked_after(1, before, set, n) == (has_signal(before, n)
            && !has_signal(set, n)),
        n != 9 && n != 19 ==> blocked_after(2, before, set, n) == has_signal(set, n),
        n == 9 || n == 19 ==> !blocked_after(2, before, set, n),
{
}

/// A wait for a signal: the deadline is the time plus the timeout, a zero timeout
/// does not wait, and what is no duration is refused.
pub proof fn signal_deadlines_are_durations_ahead(t: TimeSpec, now_ms: usize)
    ensures
        sigwait_deadline(UserIn::Null, now_ms) == Ok::<Option<usize>, Errno>(None),
        sigwait_deadline(UserIn::Fault, now_ms) == Err::<Option<usize>, Errno>(Errno::EFAULT),
        t.sec < 0 || t.nsec < 0 || t.nsec >= 1_000_000_000 ==> sigwait_deadline(
            UserIn::Value(t),
            now_ms,
        ) == Err::<Option<usize>, Errno>(Errno::EINVAL),
        t.sec == 0 && t.nsec == 0 ==> sigwait_deadline(UserIn::Value(t), now_ms) == Err::<
            Option<usize>,
            Errno,
        >(Errno::EAGAIN),
        sigwait_deadline(UserIn::Value(t), now_ms) matches Ok(d) ==> d is Some && d->0 >= now_ms
            && (d->0 < usize::MAX ==> (d->0 - now_ms) * 1_000_000 >= t.sec * 1_000_000_000 + t.nsec
            && (d->0 - now_ms) * 1_000_000 < t.sec * 1_000_000_000 + t.nsec + 1_000_000),
{
}

/// A pending signal that was waited for is reported before another signal, and that
/// before the deadline; without any of them the thread sleeps until the deadline.
pub proof fn waited_for_signals_come_first(
    c: SigwaitCall,
    t: WaitState,
    info: SigInfo,
    now_ms: usize,
)
    requires
        c.phase == (SigwaitPhase::Look { first: false }),
        c.info == UserOut::Null,
        info.signo > 0,
    ensures
        forall|signal: bool|
            (#[trigger] sigwait_step(
                c,
                t,
                SigwaitEvent::Looked { candidate: Some(info), signal, now_ms },
            )).2 == (SigwaitAction::Consume { info, out: None }),
        sigwait_step(c, t, SigwaitEvent::Looked { candidate: None, signal: true, now_ms }).2
            == SigwaitAction::Return(Err(Errno::EINTR)),
        ({
            let late = c.deadline_ms is Some && c.deadline_ms->0 <= now_ms;
            sigwait_step(c, t, SigwaitEvent::Looked { candidate: None, signal: false, now_ms }).2
                == if late {
                SigwaitAction::Return(Err(Errno::EAGAIN))
            } else {
                SigwaitAction::Sleep { deadline_ms: c.deadline_ms }
            }
        }),
{
}

/// A signal is refused if nobody is addressed, or nobody that the sender may signal; one that
/// may be is enough.
pub proof fn one_reached_process_is_enough(s: Sender, pid: isize, procs: Seq<Process>, i: int)
    requires
        0 <= i < procs.len(),
    ensures
        kill_selects(s, pid, procs[i]) && may_signal(s, procs[i]) ==> kill_answer(s, pid, procs)
            == ok(0),
        kill_answer(s, pid, procs) == err(Errno::EPERM) ==> !(kill_selects(s, pid, procs[i])
            && may_signal(s, procs[i])),
        kill_answer(s, pid, procs) == err(Errno::ESRCH) ==> !kill_selects(s, pid, procs[i]),
        (forall|j: int| 0 <= j < procs.len() ==> !#[trigger] kill_selects(s, pid, procs[j]))
            ==> kill_answer(s, pid, procs) == err(Errno::ESRCH),
        kill_selects(s, pid, procs[i]) && (forall|j: int|
            0 <= j < procs.len() ==> !#[trigger] may_signal(s, procs[j])) ==> kill_answer(
            s,
            pid,
            procs,
        ) == err(Errno::EPERM),
{
    if kill_selects(s, pid, procs[i]) && (forall|j: int|
        0 <= j < procs.len() ==> !#[trigger] may_signal(s, procs[j])) {
        assert forall|j: int| 0 <= j < procs.len() && #[trigger] kill_selects(s, pid, procs[j])
            implies !may_signal(s, procs[j]) by {}
    }
}

/// A thread is signalled within its own process only, and the signal names the sender.
pub proof fn threads_are_signalled_in_their_process(
    sender: usize,
    tgid: isize,
    tid: isize,
    signum: i32,
    target: Option<usize>,
)
    ensures
        tgid <= 0 || tid <= 0 ==> tgkill_result(sender, tgid, tid, signum, target) == Err::<
            Option<SigInfo>,
            Errno,
        >(Errno::EINVAL),
        tgid > 0 && tid > 0 && target != Some(tgid as usize) ==> tgkill_result(
            sender,
            tgid,
            tid,
            signum,
            target,
        ) == Err::<Option<SigInfo>, Errno>(Errno::ESRCH),
        tgid > 0 && tid > 0 && target == Some(tgid as usize) && signum == 0 ==> tgkill_result(
            sender,
            tgid,
            tid,
            signum,
            target,
        ) == Ok::<Option<SigInfo>, Errno>(None),
        tgid > 0 && tid > 0 && target == Some(tgid as usize) && 1 <= signum <= 64 ==> (
        tgkill_result(sender, tgid, tid, signum, target) matches Ok(Some(i)) && i.signo == signum
            && i.fields == (SiField::Kill { tid: sender })),
        tgid > 0 && tid > 0 && target == Some(tgid as usize) && (signum < 0 || signum > 64)
            ==> tgkill_result(sender, tgid, tid, signum, target) == Err::<Option<SigInfo>, Errno>(
            Errno::EINVAL,
        ),
{
}

/// A stack that was set is the stack; the one before is told, and an unusable one changes
/// nothing.
pub proof fn set_stacks_are_kept(
    before: SignalStack,
    after: SignalStack,
    s: SignalStack,
    r: Reply<SignalStack>,
)
    requires
        stack_changed(before, after, UserIn::Value(s), UserOut::Writable, r),
    ensures
        r.out == Some(before),
        r.ret is Ok ==> after == s && r.ret == ok(0),
        r.ret is Err ==> after == before,
        (r.ret is Ok) == (altstack_error(s) is None),
{
}

/// An action that was set is the action of that signal, without the two signals that cannot be
/// blocked; the one before is told, and no other signal's action changes.
pub proof fn set_actions_are_kept(
    before: &SigHandler,
    after: &SigHandler,
    signum: i32,
    a: SigAction,
    r: Reply<SigAction>,
    n: int,
)
    requires
        action_changed(before, after, signum, UserIn::Value(a), UserOut::Writable, r),
        before.wf(),
        1 <= signum <= 64,
        1 <= n <= 64,
        r.ret is Ok,
    ensures
        r.out == Some(before.action(signum as int)),
        after.action(signum as int).sa_handler == a.sa_handler && after.action(
            signum as int,
        ).flags == a.flags && after.action(signum as int).restorer == a.restorer,
        has_signal(after.action(signum as int).mask, n) == (has_signal(a.mask, n) && n != 9 && n
            != 19),
        n != signum ==> after.action(n) == before.action(n),
{
    assert(valid_signum(n));
}

/// Actions can be set for signals 1 to 64 but 9 and 19, with masks of eight bytes.
pub proof fn actions_are_for_blockable_signals(signum: i32, size: usize)
    ensures
        sigaction_error(signum, size) == (size != 8 || signum < 1 || signum > 64 || signum == 9
            || signum == 19),
{
}

/// A mask is changed in one of three ways; a wrong way matters only if there is a set.
pub proof fn masks_are_checked_in_order(
    set: UserIn<SigSet>,
    how: usize,
    oldset: UserOut,
    size: usize,
    r: Reply<SigSet>,
)
    requires
        mask_answer(set, how, oldset, size, r),
    ensures
        (r.ret is Ok) == (size == 8 && oldset != UserOut::Fault && (set is Null || (how <= 2
            && set is Value))),
        r.ret matches Ok(n) ==> n == 0,
        size != 8 ==> r.ret == err(Errno::EINVAL),
        size == 8 && oldset == UserOut::Fault ==> r.ret == err(Errno::EFAULT),
        size == 8 && oldset != UserOut::Fault && how > 2 && !(set is Null) ==> r.ret == err(
            Errno::EINVAL,
        ),
        size == 8 && oldset != UserOut::Fault && how <= 2 && set is Fault ==> r.ret == err(
            Errno::EFAULT,
        ),
{
}

/// Returning from a handler brings back the registers, the place and the mask of the frame; a
/// frame that cannot be read changes nothing.
pub proof fn frames_are_brought_back(
    before: &SignalTask,
    after: &SignalTask,
    c: SigContext,
    r: SysResult<usize>,
    i: int,
    n: int,
)
    requires
        handler_left(before, after, UserIn::Value(SignalFrame::Plain(c)), r),
        1 <= i < 32,
        1 <= n <= 64,
    ensures
        r == ok(after.trap.a0()),
        after.trap.sepc == c.sepc,
        after.trap.x@[i] == c.x@[i],
        has_signal(after.sig.mask, n) == (has_signal(c.mask, n) && n != 9 && n != 19),
        after.sig_context_addr == 0,
        after.sig.pending == before.sig.pending && after.handlers == before.handlers,
{
    assert(valid_signum(n));
}

/// A signal that was waited for is told with its details, if it can be; else it stays.
pub proof fn awaited_signals_are_told(
    candidate: Option<SigInfo>,
    info: UserOut,
    r: SysResult<Taken>,
)
    requires
        candidate_taken(candidate, info, r),
    ensures
        candidate is None ==> r == Ok::<Taken, Errno>(Taken::Nothing),
        candidate is Some && info == UserOut::Fault ==> r == Err::<Taken, Errno>(Errno::EFAULT),
        candidate matches Some(c) ==> info != UserOut::Fault ==> (r matches Ok(Taken::Consume {
            info: i,
            out,
        }) && i == c && (out is Some) == (info == UserOut::Writable) && (out matches Some(o)
            ==> o.si_signo == c.signo && o.si_code == c.code)),
{
}

/// A signal that is sent names its receiver and its sender and is marked as a user's; only the
/// one to go on resumes, and only who was stopped.
pub proof fn sent_signals_name_both_ends(s: Sender, signum: i32, p: Process)
    ensures
        send_to(s, signum, p).tgid == p.tgid,
        send_to(s, signum, p).info.signo == signum && send_to(s, signum, p).info.code == 0,
        send_to(s, signum, p).info.fields == (SiField::Kill { tid: s.tgid }),
        send_to(s, signum, p).resumes == (signum == 18 && p.stopped),
{
}

/// A wait for signals that finds none reads its timeout first; then an interrupt ends it, then
/// its deadline, and otherwise it sleeps until that.
pub proof fn signal_waits_end_in_order(
    c: SigwaitCall,
    t: WaitState,
    signal: bool,
    now_ms: usize,
)
    ensures
        sigwait_without(c, t, true, signal, now_ms).2 == SigwaitAction::ReadTimeout,
        signal ==> sigwait_without(c, t, false, signal, now_ms).2 == SigwaitAction::Return(
            Err(Errno::EINTR),
        ),
        !signal ==> (c.deadline_ms matches Some(d) ==> now_ms >= d ==> sigwait_without(
            c,
            t,
            false,
            signal,
            now_ms,
        ).2 == SigwaitAction::Return(Err(Errno::EAGAIN))),
        !signal && (c.deadline_ms is None || now_ms < c.deadline_ms->0) ==> sigwait_without(
            c,
            t,
            false,
            signal,
            now_ms,
        ).2 == (SigwaitAction::Sleep { deadline_ms: c.deadline_ms }),
{
}

/// A frame that is unknown or cannot be read is a fault and changes nothing.
pub proof fn unknown_frames_change_nothing(
    before: &SignalTask,
    after: &SignalTask,
    r: SysResult<usize>,
    after2: &SignalTask,
    r2: SysResult<usize>,
)
    requires
        handler_left(before, after, UserIn::Value(SignalFrame::Unknown), r),
        handler_left(before, after2, UserIn::Fault, r2),
    ensures
        r == err(Errno::EFAULT) && *after == *before,
        r2 == err(Errno::EFAULT) && *after2 == *before,
{
}

/// A signal that waits is taken and its number returned, with its details where they can be
/// told; a place that cannot be written ends the wait with a fault, as does an error of
/// writing.
pub proof fn waits_return_the_signal(
    c: SigwaitCall,
    t: WaitState,
    info: SigInfo,
    first: bool,
    signal: bool,
    now_ms: usize,
    signo: i32,
    x: Errno,
)
    ensures
        c.phase == (SigwaitPhase::Look { first }) && c.info == UserOut::Fault ==> sigwait_step(
            c,
            t,
            SigwaitEvent::Looked { candidate: Some(info), signal, now_ms },
        ).2 == SigwaitAction::Return(Err(Errno::EFAULT)),
        c.phase == (SigwaitPhase::Look { first }) && c.info != UserOut::Fault ==> (sigwait_step(
            c,
            t,
            SigwaitEvent::Looked { candidate: Some(info), signal, now_ms },
        ).2 matches SigwaitAction::Consume { info: i, out } && i == info && (out is Some) == (c.info
            == UserOut::Writable)),
        c.phase == (SigwaitPhase::Consume { first, signo }) ==> sigwait_step(
            c,
            t,
            SigwaitEvent::Consumed { written: Ok(()), consumed: true, signal, now_ms },
        ).2 == SigwaitAction::Return(Ok(signo as usize)),
        c.phase == (SigwaitPhase::Consume { first, signo }) ==> sigwait_step(
            c,
            t,
            SigwaitEvent::Consumed { written: Err(x), consumed: true, signal, now_ms },
        ).2 == SigwaitAction::Return(Err(x)),
        c.phase is Asleep ==> sigwait_step(c, t, SigwaitEvent::Resumed).2 == SigwaitAction::Look,
{
}

} // verus!
