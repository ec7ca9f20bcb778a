//! Delivery of one pending signal on the way back to user mode.

use crate::signal::sig_handler::{
    default_action, initial_action, is_user_action, unblockable_kept, ActionType, SigAction,
    SigHandler, SA_NODEFER, SA_ONSTACK, SA_RESETHAND,
};
use crate::signal::sig_stack::{SigContext, SignalStack, SS_DISABLE};
use crate::signal::sig_struct::{
    blockable_part, deliverable, has_signal, lowest_deliverable, unblockable, valid_signum, Sig, SigPending, SigSet,
};
use vstd::prelude::*;

verus! {

/// The supported instruction sets.
#[derive(Debug, Clone, Copy, PartialEq, Eq, Structural)]
pub enum Arch {
    Riscv64,
    LoongArch64,
}

/// Bytes of a saved machine state on the user stack.
pub open spec fn context_size(arch: Arch) -> usize {
    match arch {
        Arch::Riscv64 => 272,
        Arch::LoongArch64 => 280,
    }
}

/// Register number of the stack pointer.
pub open spec fn sp_reg(arch: Arch) -> int {
    match arch {
        Arch::Riscv64 => 2,
        Arch::LoongArch64 => 3,
    }
}

/// Register number of the first argument and of the result.
pub open spec fn a0_reg(arch: Arch) -> int {
    match arch {
        Arch::Riscv64 => 10,
        Arch::LoongArch64 => 4,
    }
}

/// The user registers of a thread that is in the kernel.
#[derive(Debug, Clone, Copy)]
pub struct TrapContext {
    pub arch: Arch,
    pub x: [usize; 32],
    pub sepc: usize,
}

impl TrapContext {
    pub open spec fn sp(&self) -> usize {
        self.x@[sp_reg(self.arch)]
    }

    pub open spec fn a0(&self) -> usize {
        self.x@[a0_reg(self.arch)]
    }

    /// The user stack pointer.
    pub fn get_sp(&self) -> (r: usize)
        ensures
            r == self.sp(),
    {
        match self.arch {
            Arch::Riscv64 => self.x[2],
            Arch::LoongArch64 => self.x[3],
        }
    }

    /// The first argument register.
    pub fn get_a0(&self) -> (r: usize)
        ensures
            r == self.a0(),
    {
        match self.arch {
            Arch::Riscv64 => self.x[10],
            Arch::LoongArch64 => self.x[4],
        }
    }

    fn set_sp(&mut self, v: usize)
        ensures
            final(self).arch == old(self).arch,
            final(self).sepc == old(self).sepc,
            final(self).x@ == old(self).x@.update(sp_reg(old(self).arch), v),
    {
        match self.arch {
            Arch::Riscv64 => self.x[2] = v,
            Arch::LoongArch64 => self.x[3] = v,
        }
    }

    fn set_a0(&mut self, v: usize)
        ensures
            final(self).arch == old(self).arch,
            final(self).sepc == old(self).sepc,
            final(self).x@ == old(self).x@.update(a0_reg(old(self).arch), v),
    {
        match self.arch {
            Arch::Riscv64 => self.x[10] = v,
            Arch::LoongArch64 => self.x[4] = v,
        }
    }
}

/// What signal delivery reads and changes of a thread.
pub struct SignalTask {
    pub trap: TrapContext,
    pub sig: SigPending,
    pub handlers: SigHandler,
    pub altstack: SignalStack,
    /// Where the last saved machine state lies on the user stack.
    pub sig_context_addr: usize,
    /// The mask from before a wait that replaced it; the next handler gives it
    /// back when it returns.
    pub suspended_mask: Option<SigSet>,
}

/// What is to be done about one pending signal.
pub enum Delivery {
    /// No signal can be delivered.
    Nothing,
    /// The signal has no effect.
    Dropped { sig: Sig },
    /// The thread ends with this exit code.
    Exit { sig: Sig, code: i32 },
    /// The machine state is to be written at `addr`, then the handler runs.
    Frame { sig: Sig, action: SigAction, addr: usize, context: SigContext },
}

/// The signal that a delivery is about.
pub open spec fn delivered(d: Delivery) -> Option<Sig> {
    match d {
        Delivery::Nothing => None,
        Delivery::Dropped { sig } => Some(sig),
        Delivery::Exit { sig, code: _ } => Some(sig),
        Delivery::Frame { sig, action: _, addr: _, context: _ } => Some(sig),
    }
}

/// The top of the stack that a handler of `action` uses.
pub open spec fn handler_stack_top(t: &SignalTask, action: SigAction) -> usize {
    if action.flags & SA_ONSTACK != 0 && t.altstack.ss_flags & SS_DISABLE == 0 {
        t.altstack.ss_sp.wrapping_add(t.altstack.ss_size)
    } else {
        t.trap.sp()
    }
}

/// Where the machine state goes: below the stack top, aligned to 16 bytes.
pub open spec fn frame_address(t: &SignalTask, action: SigAction) -> usize {
    let below = handler_stack_top(t, action).wrapping_sub(context_size(t.trap.arch));
    (below - below % 16) as usize
}

/// The mask while the handler of `action` for `sig` runs.
pub open spec fn handler_mask(before: SigSet, sig: int, action: SigAction, n: int) -> bool {
    has_signal(before, n) || has_signal(action.mask, n) || (n == sig && action.flags & SA_NODEFER
        == 0)
}

/// Whether entering a handler goes from `before` to `after` and returns `r`.
pub open spec fn handler_entered(
    before: &SignalTask,
    after: &SignalTask,
    sig: Sig,
    action: SigAction,
    addr: usize,
    written: bool,
    trampoline: usize,
    r: Option<i32>,
) -> bool {
    written ==> {
        &&& r is None
        &&& after.trap.arch == before.trap.arch
        &&& after.trap.sepc == action.sa_handler
        &&& after.trap.x@ == before.trap.x@.update(
            a0_reg(before.trap.arch),
            sig.num as usize,
        ).update(1, trampoline).update(sp_reg(before.trap.arch), addr)
        &&& after.sig_context_addr == addr
        &&& after.handlers.actions@ == (if action.flags & SA_RESETHAND != 0 {
            before.handlers.actions@.update(
                sig.num - 1,
                initial_action(sig.num as int),
            )
        } else {
            before.handlers.actions@
        })
    }
}

impl SignalTask {
    pub open spec fn wf(&self) -> bool {
        self.sig.wf() && self.handlers.wf()
    }

    /// Enters the handler once the machine state was written at `addr`. If it
    /// could not be written the thread ends with the returned exit code.
    pub fn enter_handler(
        &mut self,
        sig: Sig,
        action: SigAction,
        addr: usize,
        written: bool,
        trampoline: usize,
    ) -> (r: Option<i32>)
        requires
            old(self).wf(),
            valid_signum(sig.num as int),
            !unblockable(sig.num as int),
        ensures
            final(self).wf(),
            final(self).sig == old(self).sig,
            final(self).altstack == old(self).altstack,
            final(self).suspended_mask == old(self).suspended_mask,
            unblockable_kept(old(self).handlers, final(self).handlers),
            !written ==> r == Some(sig.num) && *final(self) == *old(self),
            handler_entered(old(self), final(self), sig, action, addr, written, trampoline, r),
    {
        if !written {
            let code: i32 = sig.raw() & 0x7F;
            let num: i32 = sig.num;
            assert(num & 0x7F == num) by (bit_vector)
                requires
                    1 <= num <= 64,
            ;
            return Some(code);
        }
        self.trap.set_a0(sig.num as usize);
        self.trap.x[1] = trampoline;
        self.sig_context_addr = addr;
        self.trap.set_sp(addr);
        self.trap.sepc = action.sa_handler;
        if action.flags & SA_RESETHAND != 0 {
            self.handlers.update(sig, SigAction::new(sig));
        }
        None
    }

    /// Leaves a handler: registers, program counter and mask come from the
    /// saved state, which never blocks SIGKILL or SIGSTOP. Returns the restored
    /// result register.
    pub fn leave_handler(&mut self, context: SigContext) -> (r: usize)
        requires
            old(self).wf(),
        ensures
            final(self).wf(),
            r == final(self).trap.a0(),
            final(self).trap.arch == old(self).trap.arch,
            final(self).trap.x@ == restored_regs(old(self).trap.arch, context),
            final(self).trap.sepc == context.sepc,
            final(self).sig.pending == old(self).sig.pending,
            final(self).sig.info == old(self).sig.info,
            blockable_part(context.mask, final(self).sig.mask),
            final(self).handlers == old(self).handlers,
            final(self).altstack == old(self).altstack,
            final(self).suspended_mask == old(self).suspended_mask,
            final(self).sig_context_addr == 0,
    {
        self.trap.x = context.x;
        match self.trap.arch {
            Arch::Riscv64 => {
                self.trap.x[0] = 0;
            },
            Arch::LoongArch64 => {},
        }
        self.trap.sepc = context.sepc;
        self.sig.mask = context.mask.without_unblockable();
        self.sig_context_addr = 0;
        self.trap.get_a0()
    }
}

/// The mask that holds again after a handler: where a wait had replaced it, the
/// one from before the wait.
pub open spec fn returned_mask(t: &SignalTask) -> SigSet {
    match t.suspended_mask {
        Some(m) => m,
        None => t.sig.mask,
    }
}

/// Whether looking for a signal to deliver goes from `before` to `after` and comes to `r`.
pub open spec fn delivery_done(before: &SignalTask, after: &SignalTask, r: Delivery) -> bool {
    match r {
        Delivery::Nothing => true,
        Delivery::Dropped { sig } => {
            let action = before.handlers.action(sig.num as int);
            &&& after.sig.mask == before.sig.mask
            &&& !is_user_action(action)
            &&& action.sa_handler == 0 ==> (default_action(sig.num as int)
                != ActionType::Term && default_action(sig.num as int) != ActionType::Core)
        },
        Delivery::Exit { sig, code } => {
            let action = before.handlers.action(sig.num as int);
            &&& after.sig.mask == before.sig.mask
            &&& action.sa_handler == 0
            &&& default_action(sig.num as int) == ActionType::Term || default_action(
                sig.num as int,
            ) == ActionType::Core
            &&& code == sig.num
        },
        Delivery::Frame { sig, action, addr, context } => {
            &&& action == before.handlers.action(sig.num as int)
            &&& is_user_action(action)
            &&& addr == frame_address(before, action)
            &&& context.x == before.trap.x
            &&& context.sepc == before.trap.sepc
            &&& context.mask == returned_mask(before)
            &&& context.info == 0
            &&& forall|n: int|
                valid_signum(n) ==> has_signal(after.sig.mask, n) == handler_mask(
                    before.sig.mask,
                    sig.num as int,
                    action,
                    n,
                )
        },
    }
}

/// Takes out the lowest deliverable signal and decides what to do about it.
/// At most one signal is handled per call.
pub fn handle_signal(task: &mut SignalTask) -> (r: Delivery)
    requires
        old(task).wf(),
    ensures
        final(task).wf(),
        final(task).trap == old(task).trap,
        final(task).handlers == old(task).handlers,
        final(task).altstack == old(task).altstack,
        final(task).sig_context_addr == old(task).sig_context_addr,
        final(task).suspended_mask == (if r is Frame {
            None
        } else {
            old(task).suspended_mask
        }),
        match delivered(r) {
            None => {
                &&& forall|n: int| valid_signum(n) ==> !deliverable(&old(task).sig, n)
                &&& final(task).sig == old(task).sig
            },
            Some(sig) => {
                &&& lowest_deliverable(&old(task).sig, sig.num as int)
                &&& final(task).sig.info@ == old(task).sig.info@.remove(sig.num)
            },
        },
        delivery_done(old(task), final(task), r),
{
    let fetched = task.sig.fetch_signal();
    let sig = match fetched {
        None => {
            return Delivery::Nothing;
        },
        Some((sig, _info)) => sig,
    };
    let action = task.handlers.get(sig);
    if !action.is_user() {
        if action.sa_handler == 0 {
            match ActionType::default(sig) {
                ActionType::Term | ActionType::Core => {
                    let code: i32 = sig.raw() & 0x7F;
                    let num: i32 = sig.num;
                    assert(num & 0x7F == num) by (bit_vector)
                        requires
                            1 <= num <= 64,
                    ;
                    return Delivery::Exit { sig, code };
                },
                _ => {},
            }
        }
        return Delivery::Dropped { sig };
    }
    let mask = match task.suspended_mask {
        Some(m) => m,
        None => task.sig.mask,
    };
    task.suspended_mask = None;
    if action.flags & SA_NODEFER == 0 {
        task.sig.add_mask(sig);
    }
    task.sig.add_mask_sigset(action.mask);
    let top: usize = if action.flags & SA_ONSTACK != 0 && task.altstack.ss_flags & SS_DISABLE
        == 0 {
        task.altstack.ss_sp.wrapping_add(task.altstack.ss_size)
    } else {
        task.trap.get_sp()
    };
    let size: usize = match task.trap.arch {
        Arch::Riscv64 => 272,
        Arch::LoongArch64 => 280,
    };
    let below: usize = top.wrapping_sub(size);
    let addr: usize = below - below % 16;
    let context = SigContext {
        x: task.trap.x,
        sepc: task.trap.sepc,
        mask,
        info: 0,
    };
    Delivery::Frame { sig, action, addr, context }
}

/// The registers that a saved state gives back; register 0 of RISC-V is
/// always zero.
pub open spec fn restored_regs(arch: Arch, context: SigContext) -> Seq<usize> {
    match arch {
        Arch::Riscv64 => context.x@.update(0, 0),
        Arch::LoongArch64 => context.x@,
    }
}

/// Returning from a handler gives back the registers and the program counter
/// that were interrupted, whatever the handler did to them.
pub proof fn handler_return_restores_registers(interrupted: TrapContext, context: SigContext)
    requires
        context.x == interrupted.x,
        interrupted.arch == Arch::Riscv64 ==> interrupted.x@[0] == 0,
    ensures
        restored_regs(interrupted.arch, context) =~= interrupted.x@,
{
}

/// A caught signal runs its handler with the signal's number as the argument, returns through
/// the trampoline and has its own place on the stack; a handler meant for one signal only is
/// gone afterwards. All other registers stay.
pub proof fn handlers_get_their_signal(
    before: &SignalTask,
    after: &SignalTask,
    sig: Sig,
    action: SigAction,
    addr: usize,
    trampoline: usize,
    r: Option<i32>,
    i: int,
)
    requires
        handler_entered(before, after, sig, action, addr, true, trampoline, r),
        before.wf(),
        1 <= sig.num <= 64,
        0 <= i < 32,
    ensures
        r is None,
        after.trap.sepc == action.sa_handler,
        after.trap.sp() == addr,
        after.trap.a0() == sig.num,
        after.trap.x@[1] == trampoline,
        i != 1 && i != sp_reg(before.trap.arch)
            && i != a0_reg(before.trap.arch) ==> after.trap.x@[i]
            == before.trap.x@[i],
        before.trap.arch == Arch::Riscv64 ==> after.trap.x@[2] == addr && after.trap.x@[10]
            == sig.num,
        before.trap.arch == Arch::LoongArch64 ==> after.trap.x@[3] == addr && after.trap.x@[4]
            == sig.num,
        action.flags & 0x8000_0000 == 0 ==> after.handlers.actions@ == before.handlers.actions@,
        action.flags & 0x8000_0000 != 0 ==> !is_user_action(after.handlers.action(sig.num as int)),
{
}

/// The state of the interrupted task goes below its stack, or to the top of the alternate stack
/// where the action asks for it and there is one, aligned to 16 bytes and with room for all of
/// it.
pub proof fn frames_lie_below_the_stack(t: &SignalTask, action: SigAction)
    ensures
        frame_address(t, action) % 16 == 0,
        action.flags & 0x0800_0000 == 0 || t.altstack.ss_flags & 1 != 0 ==> handler_stack_top(
            t,
            action,
        ) == t.trap.sp(),
        action.flags & 0x0800_0000 != 0 && t.altstack.ss_flags & 1 == 0 && t.altstack.ss_sp
            + t.altstack.ss_size <= usize::MAX ==> handler_stack_top(t, action) == t.altstack.ss_sp
            + t.altstack.ss_size,
        handler_stack_top(t, action) >= 512 ==> {
            let room = handler_stack_top(t, action) - frame_address(t, action);
            &&& t.trap.arch == Arch::Riscv64 ==> 272 <= room < 288
            &&& t.trap.arch == Arch::LoongArch64 ==> 280 <= room < 296
        },
{
}

/// While a handler runs, what was blocked before stays blocked, and so is what the action names
/// and the signal itself unless the action says otherwise; nothing else is.
pub proof fn handlers_block_what_they_name(before: SigSet, sig: int, action: SigAction, n: int)
    ensures
        has_signal(before, n) ==> handler_mask(before, sig, action, n),
        has_signal(action.mask, n) ==> handler_mask(before, sig, action, n),
        action.flags & 0x4000_0000 == 0 ==> handler_mask(before, sig, action, sig),
        n != sig && !has_signal(before, n) && !has_signal(action.mask, n) ==> !handler_mask(
            before,
            sig,
            action,
            n,
        ),
        action.flags & 0x4000_0000 != 0 && !has_signal(before, sig) && !has_signal(action.mask, sig)
            ==> !handler_mask(before, sig, action, sig),
{
}

/// A signal ends the task exactly where it has no action of the user's and its default is to,
/// with the number of the signal; a user's action is run with the state as it was, and any
/// other signal is dropped.
pub proof fn signals_do_what_their_action_says(
    before: &SignalTask,
    after: &SignalTask,
    r: Delivery,
)
    requires
        delivery_done(before, after, r),
    ensures
        r matches Delivery::Exit { sig, code } ==> code == sig.num && before.handlers.action(
            sig.num as int,
        ).sa_handler == 0,
        r matches Delivery::Frame { sig, action, addr, context } ==> {
            &&& action == before.handlers.action(sig.num as int)
            &&& action.sa_handler > 1
            &&& context.x == before.trap.x && context.sepc == before.trap.sepc
            &&& before.suspended_mask is None ==> context.mask == before.sig.mask
            &&& before.suspended_mask matches Some(m) ==> context.mask == m
            &&& addr % 16 == 0
        },
        r matches Delivery::Dropped { sig } ==> before.handlers.action(sig.num as int).sa_handler
            <= 1,
{
}

/// The stack pointer and the first argument have their registers on each machine, and the
/// register that is always zero comes back as zero.
pub proof fn registers_are_the_machines(c: SigContext)
    ensures
        sp_reg(Arch::Riscv64) == 2 && a0_reg(Arch::Riscv64) == 10,
        sp_reg(Arch::LoongArch64) == 3 && a0_reg(Arch::LoongArch64) == 4,
        restored_regs(Arch::Riscv64, c)[0] == 0,
        restored_regs(Arch::LoongArch64, c) == c.x@,
        restored_regs(Arch::Riscv64, c).len() == 32,
        forall|i: int| 1 <= i < 32 ==> restored_regs(Arch::Riscv64, c)[i] == c.x@[i],
{
}

/// A signal without an action of the user's ends the task exactly where its default is to end
/// or dump it.
pub proof fn default_actions_end_or_drop(before: &SignalTask, after: &SignalTask, r: Delivery)
    requires
        delivery_done(before, after, r),
    ensures
        r matches Delivery::Exit { sig, code } ==> {
            let d = default_action(sig.num as int);
            &&& d == ActionType::Term || d == ActionType::Core
            &&& after.sig.mask == before.sig.mask
        },
        r matches Delivery::Dropped { sig } ==> {
            let d = default_action(sig.num as int);
            &&& before.handlers.action(sig.num as int).sa_handler == 0 ==> d == ActionType::Stop || d
                == ActionType::Ignore || d == ActionType::Cont
            &&& after.sig.mask == before.sig.mask
        },
{
}

} // verus!
