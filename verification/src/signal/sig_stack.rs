//! Signal stacks and the machine state that is saved around a handler.

use crate::signal::sig_struct::SigSet;
use vstd::prelude::*;

verus! {

/// The flag of a disabled alternate stack.
pub const SS_DISABLE: i32 = 1;

/// An alternate stack for handlers.
#[derive(Clone, Copy, Debug, PartialEq, Eq, Structural)]
pub struct SignalStack {
    /// Lowest address.
    pub ss_sp: usize,
    /// Whether the stack is disabled.
    pub ss_flags: i32,
    /// Length in bytes.
    pub ss_size: usize,
}

impl Default for SignalStack {
    fn default() -> (r: Self)
        ensures
            r == (SignalStack { ss_sp: 0, ss_flags: 1, ss_size: 0 }),
    {
        SignalStack { ss_sp: 0, ss_flags: SS_DISABLE, ss_size: 0 }
    }
}

/// The machine state that is saved on the user stack while a handler runs.
#[derive(Clone, Copy, Debug)]
pub struct SigContext {
    /// General registers.
    pub x: [usize; 32],
    /// Where the thread was interrupted.
    pub sepc: usize,
    /// The signal mask to restore.
    pub mask: SigSet,
    /// 1 if the handler also gets the signal's details.
    pub info: usize,
}

/// The layout of a signal frame for handlers that get the signal's details.
#[derive(Clone, Copy, Debug)]
pub struct UContext {
    pub uc_flags: usize,
    pub uc_link: usize,
    pub uc_stack: SignalStack,
    pub uc_sigmask: SigSet,
    pub uc_mcontext: SigContext,
}

/// What the user stack holds when a handler returns.
#[derive(Clone, Copy, Debug)]
pub enum SignalFrame {
    /// The frame of a plain handler.
    Plain(SigContext),
    /// The frame of a handler that gets the signal's details.
    Rt(UContext),
    /// Neither of them.
    Unknown,
}

/// The state that a frame restores: a frame with the signal's details has the
/// mask of its own.
pub open spec fn frame_context(f: SignalFrame) -> Option<SigContext> {
    match f {
        SignalFrame::Plain(c) => Some(c),
        SignalFrame::Rt(u) => Some(SigContext { mask: u.uc_sigmask, ..u.uc_mcontext }),
        SignalFrame::Unknown => None,
    }
}

/// The state in a frame is the one that was put there; the mask of an extended frame is the one
/// beside it.
pub proof fn frames_hold_their_state(f: SignalFrame)
    ensures
        f matches SignalFrame::Plain(c) ==> frame_context(f) == Some(c),
        f matches SignalFrame::Rt(u) ==> (frame_context(f) matches Some(c) && c.mask == u.uc_sigmask
            && c.x == u.uc_mcontext.x && c.sepc == u.uc_mcontext.sepc),
        f is Unknown ==> frame_context(f) is None,
{
}

} // verus!
