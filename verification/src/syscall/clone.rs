//! Creation of threads and processes.

use crate::errno::{Errno, SysResult};
use crate::signal::sig_deliver::{a0_reg, sp_reg, Arch, TrapContext};
use vstd::prelude::*;

verus! {

pub const CLONE_VM: u32 = 0x0000_0100;

pub const CLONE_SIGHAND: u32 = 0x0000_0800;

pub const CLONE_VFORK: u32 = 0x0000_4000;

pub const CLONE_THREAD: u32 = 0x0001_0000;

pub const CLONE_SETTLS: u32 = 0x0008_0000;

pub const CLONE_PARENT_SETTID: u32 = 0x0010_0000;

pub const CLONE_CHILD_CLEARTID: u32 = 0x0020_0000;

pub const CLONE_CHILD_SETTID: u32 = 0x0100_0000;

pub const CLONE_NEWUTS: u32 = 0x0400_0000;

/// A write of the child's number.
#[derive(Debug, Clone, Copy, PartialEq, Eq, Structural)]
pub struct ChildTid {
    pub addr: usize,
    /// Parent and child share their memory, so the parent's memory is written;
    /// otherwise only the child's is.
    pub shared: bool,
}

/// How a child is set up before it may run.
#[derive(Debug, Clone, Copy, PartialEq, Eq, Structural)]
pub struct ClonePlan {
    /// The flags to copy the task with.
    pub flags: u32,
    /// Where the parent's memory gets the child's number.
    pub parent_tid: Option<usize>,
    pub child_tid: Option<ChildTid>,
    /// Where a zero is written when the child ends.
    pub clear_child_tid: Option<usize>,
    /// The child's stack pointer, if it gets its own.
    pub stack: Option<usize>,
    /// The child's thread pointer, if it gets its own.
    pub tls: Option<usize>,
    /// The parent sleeps until the child starts a program or ends.
    pub vfork: bool,
}

/// Why a clone is refused before anything is copied: `supported` are the flags
/// that exist. Threads must share handlers, shared handlers require shared
/// memory, and only root makes a new name space.
pub open spec fn clone_error(flags: u32, supported: u32, stack: usize, euid: usize) -> Option<Errno> {
    if flags & !supported != 0 {
        Some(Errno::EINVAL)
    } else if stack == 0 && flags == 0 {
        Some(Errno::EINVAL)
    } else if flags & CLONE_THREAD != 0 && flags & CLONE_SIGHAND == 0 {
        Some(Errno::EINVAL)
    } else if flags & CLONE_SIGHAND != 0 && flags & CLONE_VM == 0 {
        Some(Errno::EINVAL)
    } else if flags & CLONE_NEWUTS != 0 && euid != 0 {
        Some(Errno::EPERM)
    } else {
        None
    }
}

/// The set-up of a child. The two last arguments come in the order of the
/// instruction set.
pub open spec fn clone_plan(
    arch: Arch,
    flags: u32,
    stack: usize,
    ptid: usize,
    arg3: usize,
    arg4: usize,
) -> ClonePlan {
    let tls = if arch == Arch::LoongArch64 {
        arg4
    } else {
        arg3
    };
    let ctid = if arch == Arch::LoongArch64 {
        arg3
    } else {
        arg4
    };
    ClonePlan {
        flags,
        parent_tid: if flags & CLONE_PARENT_SETTID != 0 && ptid != 0 {
            Some(ptid)
        } else {
            None
        },
        child_tid: if flags & CLONE_CHILD_SETTID != 0 && ctid != 0 {
            Some(ChildTid { addr: ctid, shared: flags & CLONE_VM != 0 })
        } else {
            None
        },
        clear_child_tid: if flags & CLONE_CHILD_CLEARTID != 0 && ctid != 0 {
            Some(ctid)
        } else {
            None
        },
        stack: if stack != 0 {
            Some(stack)
        } else {
            None
        },
        tls: if flags & CLONE_SETTLS != 0 {
            Some(tls)
        } else {
            None
        },
        vfork: flags & CLONE_VFORK != 0,
    }
}

/// What a call to make a task asks for.
pub open spec fn clone_asked(
    arch: Arch,
    supported: u32,
    euid: usize,
    flags: usize,
    stack: usize,
    ptid: usize,
    arg3: usize,
    arg4: usize,
) -> SysResult<ClonePlan> {
    match clone_error(flags as u32, supported, stack, euid) {
        Some(e) => Err::<ClonePlan, Errno>(e),
        None => Ok(clone_plan(arch, flags as u32, stack, ptid, arg3, arg4)),
    }
}

/// Checks the arguments of a clone and plans the set-up of the child.
pub fn sys_clone(
    arch: Arch,
    supported: u32,
    euid: usize,
    flags: usize,
    stack: usize,
    ptid: usize,
    arg3: usize,
    arg4: usize,
) -> (r: SysResult<ClonePlan>)
    ensures
        r == clone_asked(arch, supported, euid, flags, stack, ptid, arg3, arg4),
{
    let f: u32 = flags as u32;
    if f & !supported != 0 {
        return Err(Errno::EINVAL);
    }
    let (tls, ctid): (usize, usize) = match arch {
        Arch::LoongArch64 => (arg4, arg3),
        Arch::Riscv64 => (arg3, arg4),
    };
    if stack == 0 && f == 0 {
        return Err(Errno::EINVAL);
    }
    if f & CLONE_THREAD != 0 && f & CLONE_SIGHAND == 0 {
        return Err(Errno::EINVAL);
    }
    if f & CLONE_SIGHAND != 0 && f & CLONE_VM == 0 {
        return Err(Errno::EINVAL);
    }
    if f & CLONE_NEWUTS != 0 && euid != 0 {
        return Err(Errno::EPERM);
    }
    Ok(
        ClonePlan {
            flags: f,
            parent_tid: if f & CLONE_PARENT_SETTID != 0 && ptid != 0 {
                Some(ptid)
            } else {
                None
            },
            child_tid: if f & CLONE_CHILD_SETTID != 0 && ctid != 0 {
                Some(ChildTid { addr: ctid, shared: f & CLONE_VM != 0 })
            } else {
                None
            },
            clear_child_tid: if f & CLONE_CHILD_CLEARTID != 0 && ctid != 0 {
                Some(ctid)
            } else {
                None
            },
            stack: if stack != 0 {
                Some(stack)
            } else {
                None
            },
            tls: if f & CLONE_SETTLS != 0 {
                Some(tls)
            } else {
                None
            },
            vfork: f & CLONE_VFORK != 0,
        },
    )
}

/// Bytes of the child's number in memory that only the child has: the first
/// byte and the byte after the last.
pub fn child_tid_range(addr: usize) -> (r: SysResult<(usize, usize)>)
    ensures
        r == (if addr + 4 <= usize::MAX {
            Ok((addr, (addr + 4) as usize))
        } else {
            Err::<(usize, usize), Errno>(Errno::EFAULT)
        }),
{
    match addr.checked_add(4) {
        Some(end) => Ok((addr, end)),
        None => Err(Errno::EFAULT),
    }
}

/// How a clone ends.
#[derive(Debug)]
pub struct CloneEnd {
    pub ret: SysResult<usize>,
    /// The child is handed to the scheduler.
    pub publish: bool,
    /// The parent sleeps once the child was handed over.
    pub wait: bool,
}

/// What a clone returns: `copied` is the number of the copied task,
/// `parent_write` and `child_write` tell how the planned writes went, `blocked`
/// whether the parent could be marked asleep for a vfork.
pub open spec fn clone_return(
    plan: ClonePlan,
    copied: SysResult<usize>,
    parent_write: SysResult<()>,
    child_write: SysResult<()>,
    blocked: bool,
) -> SysResult<usize> {
    if copied is Err {
        copied
    } else if plan.parent_tid is Some && parent_write is Err {
        Err(parent_write->Err_0)
    } else if plan.child_tid is Some && child_write is Err {
        Err(child_write->Err_0)
    } else if plan.vfork && !blocked {
        Err(Errno::ESRCH)
    } else {
        copied
    }
}

/// Ends a clone. A child that is not completely set up is never handed to the
/// scheduler.
pub fn finish_clone(
    plan: &ClonePlan,
    copied: SysResult<usize>,
    parent_write: SysResult<()>,
    child_write: SysResult<()>,
    blocked: bool,
) -> (r: CloneEnd)
    ensures
        r.ret == clone_return(*plan, copied, parent_write, child_write, blocked),
        r.publish == (r.ret is Ok),
        r.wait == (r.ret is Ok && plan.vfork),
{
    let new_tid: usize = match copied {
        Err(e) => {
            return CloneEnd { ret: Err(e), publish: false, wait: false };
        },
        Ok(tid) => tid,
    };
    if plan.parent_tid.is_some() {
        match parent_write {
            Err(e) => {
                return CloneEnd { ret: Err(e), publish: false, wait: false };
            },
            Ok(_) => {},
        }
    }
    if plan.child_tid.is_some() {
        match child_write {
            Err(e) => {
                return CloneEnd { ret: Err(e), publish: false, wait: false };
            },
            Ok(_) => {},
        }
    }
    if plan.vfork && !blocked {
        return CloneEnd { ret: Err(Errno::ESRCH), publish: false, wait: false };
    }
    CloneEnd { ret: Ok(new_tid), publish: true, wait: plan.vfork }
}

/// Register number of the thread pointer.
pub open spec fn tp_reg(arch: Arch) -> int {
    match arch {
        Arch::Riscv64 => 4,
        Arch::LoongArch64 => 2,
    }
}

/// The registers that a child starts with: those of its parent, but its own
/// stack and thread pointer if it gets them, and the result zero.
pub open spec fn child_regs(arch: Arch, x: Seq<usize>, plan: ClonePlan) -> Seq<usize> {
    let a = match plan.stack {
        Some(sp) => x.update(sp_reg(arch), sp),
        None => x,
    };
    let b = match plan.tls {
        Some(tp) => a.update(tp_reg(arch), tp),
        None => a,
    };
    b.update(a0_reg(arch), 0)
}

/// Sets up the registers of a child, which are a copy of its parent's.
pub fn set_up_child(trap: &mut TrapContext, plan: &ClonePlan)
    ensures
        final(trap).arch == old(trap).arch,
        final(trap).sepc == old(trap).sepc,
        final(trap).x@ == child_regs(old(trap).arch, old(trap).x@, *plan),
{
    let (sp_at, tp_at, a0_at): (usize, usize, usize) = match trap.arch {
        Arch::Riscv64 => (2, 4, 10),
        Arch::LoongArch64 => (3, 2, 4),
    };
    match plan.stack {
        Some(sp) => {
            trap.x[sp_at] = sp;
        },
        None => {},
    }
    match plan.tls {
        Some(tp) => {
            trap.x[tp_at] = tp;
        },
        None => {},
    }
    trap.x[a0_at] = 0;
}

/// A child tells itself apart from its parent by the result zero, and has its
/// parent's registers otherwise, but for its own stack and thread pointer.
pub proof fn children_differ_in_three_registers(arch: Arch, x: Seq<usize>, plan: ClonePlan, i: int)
    requires
        x.len() == 32,
        0 <= i < 32,
    ensures
        child_regs(arch, x, plan)[a0_reg(arch)] == 0,
        i != a0_reg(arch) && i != sp_reg(arch) && i != tp_reg(arch) ==> child_regs(arch, x, plan)[i]
            == x[i],
        plan.stack is None ==> child_regs(arch, x, plan)[sp_reg(arch)] == x[sp_reg(arch)],
        plan.stack matches Some(sp) ==> child_regs(arch, x, plan)[sp_reg(arch)] == sp,
{
}

/// A thread always shares memory and signal handlers with its creator.
pub proof fn threads_share_memory(flags: u32, supported: u32, stack: usize, euid: usize)
    requires
        clone_error(flags, supported, stack, euid) is None,
        flags & CLONE_THREAD != 0,
    ensures
        flags & CLONE_SIGHAND != 0,
        flags & CLONE_VM != 0,
{
}

/// The parent's memory is never written with a child number that belongs to the
/// memory of a separate child.
pub proof fn separate_child_is_written_alone(
    arch: Arch,
    flags: u32,
    stack: usize,
    ptid: usize,
    arg3: usize,
    arg4: usize,
)
    requires
        flags & CLONE_VM == 0,
    ensures
        clone_plan(arch, flags, stack, ptid, arg3, arg4).child_tid matches Some(w) ==> !w.shared,
{
}

/// A new task is told where its parent and itself write its number, its stack and its own data,
/// each where the flag for it is set; the two places change with the machine.
pub proof fn clones_get_what_their_flags_name(
    arch: Arch,
    flags: u32,
    stack: usize,
    ptid: usize,
    a3: usize,
    a4: usize,
)
    ensures
        ({
            let p = clone_plan(arch, flags, stack, ptid, a3, a4);
            let tls = if arch == Arch::LoongArch64 {
                a4
            } else {
                a3
            };
            let ctid = if arch == Arch::LoongArch64 {
                a3
            } else {
                a4
            };
            &&& p.flags == flags
            &&& (p.parent_tid is Some) == (flags & 0x10_0000 != 0 && ptid != 0)
            &&& p.parent_tid matches Some(x) ==> x == ptid
            &&& (p.child_tid is Some) == (flags & 0x100_0000 != 0 && ctid != 0)
            &&& p.child_tid matches Some(x) ==> x.addr == ctid && x.shared == (flags & 0x100 != 0)
            &&& (p.clear_child_tid is Some) == (flags & 0x20_0000 != 0 && ctid != 0)
            &&& p.clear_child_tid matches Some(x) ==> x == ctid
            &&& (p.stack is Some) == (stack != 0)
            &&& p.stack matches Some(x) ==> x == stack
            &&& (p.tls is Some) == (flags & 0x8_0000 != 0)
            &&& p.tls matches Some(x) ==> x == tls
            &&& p.vfork == (flags & 0x4000 != 0)
        }),
{
}

/// Threads share their signal actions, who shares these shares memory, and a name space of its
/// own is the superuser's to make. Unknown flags are refused.
pub proof fn clone_flags_go_together(flags: u32, supported: u32, stack: usize, euid: usize)
    ensures
        flags & !supported != 0 ==> clone_error(flags, supported, stack, euid) == Some(
            Errno::EINVAL,
        ),
        flags & 0x1_0000 != 0 && flags & 0x800 == 0 ==> clone_error(flags, supported, stack, euid)
            == Some(Errno::EINVAL),
        flags & 0x800 != 0 && flags & 0x100 == 0 ==> clone_error(flags, supported, stack, euid)
            == Some(Errno::EINVAL),
        clone_error(flags, supported, stack, euid) == Some(Errno::EPERM) ==> flags & 0x400_0000 != 0
            && euid != 0,
        clone_error(flags, supported, stack, euid) is None ==> (flags & 0x400_0000 != 0 ==> euid
            == 0) && (flags & 0x1_0000 != 0 ==> flags & 0x800 != 0 && flags & 0x100 != 0) && (stack
            != 0 || flags != 0),
        flags & !supported == 0 && flags & 0x1_0000 == 0 && flags & 0x800 == 0 && (flags
            & 0x400_0000 == 0 || euid == 0) && flags != 0 ==> clone_error(
            flags,
            supported,
            stack,
            euid,
        ) is None,
{
}

/// Making a task returns its number unless one of the steps failed, in their order.
pub proof fn clones_return_the_new_number(
    plan: ClonePlan,
    n: usize,
    pw: SysResult<()>,
    cw: SysResult<()>,
    blocked: bool,
)
    ensures
        clone_return(plan, Ok(n), pw, cw, blocked) matches Ok(m) ==> m == n,
        (clone_return(plan, Ok(n), pw, cw, blocked) is Ok) == ((plan.parent_tid is Some ==> pw is Ok)
            && (plan.child_tid is Some ==> cw is Ok) && (plan.vfork ==> blocked)),
        forall|e: Errno| #[trigger]
            clone_return(plan, Err(e), pw, cw, blocked) == Err::<usize, Errno>(e),
        plan.parent_tid is Some ==> (pw matches Err(e) ==> clone_return(
            plan,
            Ok(n),
            pw,
            cw,
            blocked,
        ) == Err::<usize, Errno>(e)),
        plan.parent_tid is None && plan.child_tid is None && plan.vfork
            && !blocked ==> clone_return(
            plan,
            Ok(n),
            pw,
            cw,
            blocked,
        ) == Err::<usize, Errno>(Errno::ESRCH),
{
}

/// A child returns zero from the call, on its own stack and with its own data where given.
pub proof fn children_return_zero(arch: Arch, x: Seq<usize>, plan: ClonePlan)
    requires
        x.len() == 32,
    ensures
        child_regs(arch, x, plan).len() == 32,
        arch == Arch::Riscv64 ==> child_regs(arch, x, plan)[10] == 0 && child_regs(
            arch,
            x,
            plan,
        )[2] == (match plan.stack {
            Some(s) => s,
            None => x[2],
        }) && child_regs(arch, x, plan)[4] == (match plan.tls {
            Some(t) => t,
            None => x[4],
        }),
        arch == Arch::LoongArch64 ==> child_regs(arch, x, plan)[4] == 0 && child_regs(
            arch,
            x,
            plan,
        )[3] == (match plan.stack {
            Some(s) => s,
            None => x[3],
        }) && child_regs(arch, x, plan)[2] == (match plan.tls {
            Some(t) => t,
            None => x[2],
        }),
{
}

/// A call is refused or planned; it is planned exactly where its flags go together.
pub proof fn sound_clones_are_planned(
    arch: Arch,
    supported: u32,
    euid: usize,
    flags: usize,
    stack: usize,
    ptid: usize,
    a3: usize,
    a4: usize,
)
    ensures
        clone_asked(arch, supported, euid, flags, stack, ptid, a3, a4) matches Ok(p) ==> p.flags
            == flags as u32 && p.flags & !supported == 0 && (p.stack == Some(stack) || stack == 0),
        clone_error(flags as u32, supported, stack, euid) is None ==> clone_asked(
            arch,
            supported,
            euid,
            flags,
            stack,
            ptid,
            a3,
            a4,
        ) is Ok,
{
}

/// A call without a flag and without a stack is invalid.
pub proof fn bare_clones_are_invalid(supported: u32, euid: usize)
    ensures
        clone_error(0, supported, 0, euid) == Some(Errno::EINVAL),
{
}

} // verus!
