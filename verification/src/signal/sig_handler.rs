//! What a process does on each signal.

use crate::signal::sig_struct::{
    unblockable, valid_signum, Sig, SigSet, MAX_SIGNUM, SIGABRT, SIGBUS, SIGCHLD, SIGCONT, SIGFPE,
    SIGILL, SIGQUIT, SIGSEGV, SIGSTOP, SIGSYS, SIGTRAP, SIGTSTP, SIGTTIN, SIGTTOU, SIGURG,
    SIGWINCH, SIGXCPU, SIGXFSZ,
};
use vstd::prelude::*;

verus! {

/// Default behaviour.
pub const SIG_DFL: usize = 0;

/// The signal is ignored.
pub const SIG_IGN: usize = 1;

/// Run the handler on the alternate stack.
pub const SA_ONSTACK: u32 = 0x0800_0000;

/// Do not block the signal while its handler runs.
pub const SA_NODEFER: u32 = 0x4000_0000;

/// Fall back to the default after one delivery.
pub const SA_RESETHAND: u32 = 0x8000_0000;

/// All `SA_*` flags.
pub const SA_ALL: u32 = 0xdc00_0007;

/// How a process reacts to one signal.
#[derive(Copy, Clone, Debug, PartialEq, Eq, Structural)]
pub struct SigAction {
    /// Handler address, or `SIG_DFL` or `SIG_IGN`.
    pub sa_handler: usize,
    /// `SA_*` flags.
    pub flags: u32,
    /// Address of the return trampoline.
    pub restorer: usize,
    /// Signals that are blocked while the handler runs.
    pub mask: SigSet,
}

/// What happens on a signal that has no handler.
#[derive(Debug, Clone, Copy, PartialEq, Eq, Structural)]
pub enum ActionType {
    Ignore,
    Term,
    Stop,
    Cont,
    Core,
}

/// The default behaviour of each signal.
pub open spec fn default_action(n: int) -> ActionType {
    if n == 3 || n == 4 || n == 5 || n == 6 || n == 7 || n == 8 || n == 11 || n == 24 || n == 25
        || n == 31 {
        ActionType::Core
    } else if 19 <= n <= 22 {
        ActionType::Stop
    } else if n == 17 || n == 23 || n == 28 {
        ActionType::Ignore
    } else if n == 18 {
        ActionType::Cont
    } else {
        ActionType::Term
    }
}

impl ActionType {
    /// The default behaviour of a signal.
    pub fn default(sig: Sig) -> (r: Self)
        ensures
            r == default_action(sig.num as int),
    {
        let n: i32 = sig.num;
        if n == SIGABRT || n == SIGBUS || n == SIGFPE || n == SIGILL || n == SIGQUIT || n == SIGSEGV
            || n == SIGTRAP || n == SIGXCPU || n == SIGXFSZ || n == SIGSYS {
            ActionType::Core
        } else if n == SIGSTOP || n == SIGTSTP || n == SIGTTIN || n == SIGTTOU {
            ActionType::Stop
        } else if n == SIGCHLD || n == SIGURG || n == SIGWINCH {
            ActionType::Ignore
        } else if n == SIGCONT {
            ActionType::Cont
        } else {
            ActionType::Term
        }
    }
}

/// The reaction to signal `n` before any program has changed it: ignored by
/// default signals are marked so, all others take the default.
pub open spec fn initial_action(n: int) -> SigAction {
    SigAction {
        sa_handler: if default_action(n) == ActionType::Ignore {
            1
        } else {
            0
        },
        flags: 0,
        restorer: 0,
        mask: SigSet { bits: 0 },
    }
}

/// An action that runs user code.
pub open spec fn is_user_action(a: SigAction) -> bool {
    a.sa_handler != 0 && a.sa_handler != 1
}

impl SigAction {
    /// The initial reaction to a signal.
    pub fn new(sig: Sig) -> (r: Self)
        ensures
            r == initial_action(sig.num as int),
    {
        let handler: usize = match ActionType::default(sig) {
            ActionType::Ignore => SIG_IGN,
            _ => SIG_DFL,
        };
        SigAction { sa_handler: handler, flags: 0, restorer: 0, mask: SigSet { bits: 0 } }
    }

    /// Tells whether the action runs user code.
    pub fn is_user(&self) -> (r: bool)
        ensures
            r == is_user_action(*self),
    {
        self.sa_handler != SIG_DFL && self.sa_handler != SIG_IGN
    }
}

/// The reactions of a process to all signals.
#[derive(Debug)]
pub struct SigHandler {
    pub actions: Vec<SigAction>,
}

/// What a call does to the actions of SIGKILL and SIGSTOP: each stays, or becomes
/// the initial one.
pub open spec fn unblockable_kept(a: SigHandler, b: SigHandler) -> bool {
    forall|n: int| #[trigger]
        unblockable(n) ==> b.action(n) == a.action(n) || b.action(n) == initial_action(n)
}

impl SigHandler {
    /// There is one action per signal.
    pub open spec fn wf(&self) -> bool {
        self.actions@.len() == 64
    }

    /// The action for signal `n`.
    pub open spec fn action(&self, n: int) -> SigAction {
        self.actions@[n - 1]
    }

    /// Every signal with its initial action.
    pub fn new() -> (r: Self)
        ensures
            r.wf(),
            forall|n: int| valid_signum(n) ==> r.action(n) == initial_action(n),
    {
        let mut actions: Vec<SigAction> = Vec::new();
        let mut i: usize = 0;
        while i < MAX_SIGNUM
            invariant
                i <= 64,
                actions@.len() == i,
                forall|k: int| 0 <= k < i ==> #[trigger] actions@[k] == initial_action(k + 1),
            decreases 64 - i,
        {
            actions.push(SigAction::new(Sig { num: (i + 1) as i32 }));
            i = i + 1;
        }
        SigHandler { actions }
    }

    /// The action for a signal.
    pub fn get(&self, sig: Sig) -> (r: SigAction)
        requires
            self.wf(),
            valid_signum(sig.num as int),
        ensures
            r == self.action(sig.num as int),
    {
        self.actions[sig.index()]
    }

    /// Changes the action for a signal other than SIGKILL and SIGSTOP.
    pub fn update(&mut self, sig: Sig, new: SigAction)
        requires
            old(self).wf(),
            valid_signum(sig.num as int),
            !unblockable(sig.num as int),
        ensures
            final(self).wf(),
            final(self).actions@ == old(self).actions@.update(sig.num - 1, new),
            unblockable_kept(*old(self), *final(self)),
    {
        self.actions.set(sig.index(), new);
    }

    /// Gives every signal its initial action.
    pub fn reset(&mut self)
        requires
            old(self).wf(),
        ensures
            final(self).wf(),
            forall|n: int| valid_signum(n) ==> final(self).action(n) == initial_action(n),
            unblockable_kept(*old(self), *final(self)),
    {
        let mut i: usize = 0;
        while i < MAX_SIGNUM
            invariant
                i <= 64,
                self.wf(),
                forall|k: int| 0 <= k < i ==> #[trigger] self.actions@[k] == initial_action(k + 1),
            decreases 64 - i,
        {
            self.actions.set(i, SigAction::new(Sig { num: (i + 1) as i32 }));
            i = i + 1;
        }
    }

    /// A new program keeps ignored signals ignored and takes the initial action
    /// for every signal that the old program handled.
    pub fn reset_user_handlers_for_exec(&mut self)
        requires
            old(self).wf(),
        ensures
            final(self).wf(),
            forall|n: int|
                valid_signum(n) ==> final(self).action(n) == (if is_user_action(
                    old(self).action(n),
                ) {
                    initial_action(n)
                } else {
                    old(self).action(n)
                }),
            unblockable_kept(*old(self), *final(self)),
    {
        let mut i: usize = 0;
        while i < MAX_SIGNUM
            invariant
                i <= 64,
                self.wf(),
                old(self).wf(),
                forall|k: int|
                    0 <= k < i ==> #[trigger] self.actions@[k] == (if is_user_action(
                        old(self).actions@[k],
                    ) {
                        initial_action(k + 1)
                    } else {
                        old(self).actions@[k]
                    }),
                forall|k: int| i <= k < 64 ==> #[trigger] self.actions@[k] == old(self).actions@[k],
            decreases 64 - i,
        {
            let action = self.actions[i];
            if action.is_user() {
                self.actions.set(i, SigAction::new(Sig { num: (i + 1) as i32 }));
            }
            i = i + 1;
        }
    }
}

/// No handler of the old program survives the start of a new one.
pub proof fn exec_leaves_no_user_handler(before: SigAction, n: int)
    ensures
        !is_user_action(
            if is_user_action(before) {
                initial_action(n)
            } else {
                before
            },
        ),
{
}

/// Call `k` of a run leads from one state of the actions to the next.
pub open spec fn actions_go_on(hs: Seq<SigHandler>, k: int) -> bool {
    unblockable_kept(hs[k], hs[k + 1])
}

/// The actions of SIGKILL and SIGSTOP are the initial ones after every run of
/// calls that starts with them, as every process does.
pub proof fn unblockable_actions_stay_initial(hs: Seq<SigHandler>, k: int, n: int)
    requires
        0 <= k < hs.len(),
        unblockable(n),
        hs[0].action(n) == initial_action(n),
        forall|j: int| 0 <= j < hs.len() - 1 ==> #[trigger] actions_go_on(hs, j),
    ensures
        hs[k].action(n) == initial_action(n),
    decreases k,
{
    if k > 0 {
        unblockable_actions_stay_initial(hs, k - 1, n);
        assert(actions_go_on(hs, k - 1));
    }
}

/// A reaction as LoongArch programs hand it over: the flags take a whole word.
#[derive(Copy, Clone, Debug, PartialEq, Eq, Structural)]
pub struct UserSigAction {
    pub handler: usize,
    pub flags: usize,
    pub restorer: usize,
    pub mask: SigSet,
}

/// The reaction that a LoongArch program asks for; unknown flags are dropped.
pub open spec fn action_asked(a: UserSigAction) -> SigAction {
    SigAction {
        sa_handler: a.handler,
        flags: a.flags as u32 & SA_ALL,
        restorer: a.restorer,
        mask: a.mask,
    }
}

/// A reaction as a LoongArch program sees it.
pub open spec fn action_shown(a: SigAction) -> UserSigAction {
    UserSigAction {
        handler: a.sa_handler,
        flags: a.flags as usize,
        restorer: a.restorer,
        mask: a.mask,
    }
}

/// Reads the reaction of a LoongArch program.
pub fn sigaction_from_user(action: UserSigAction) -> (r: SigAction)
    ensures
        r == action_asked(action),
{
    SigAction {
        sa_handler: action.handler,
        flags: action.flags as u32 & SA_ALL,
        restorer: action.restorer,
        mask: action.mask,
    }
}

/// Shows a reaction to a LoongArch program.
pub fn sigaction_to_user(action: SigAction) -> (r: UserSigAction)
    ensures
        r == action_shown(action),
{
    UserSigAction {
        handler: action.sa_handler,
        flags: action.flags as usize,
        restorer: action.restorer,
        mask: action.mask,
    }
}

/// A reaction with known flags is shown as it was asked for.
pub proof fn shown_actions_are_read_back(a: SigAction)
    requires
        a.flags & !SA_ALL == 0,
    ensures
        action_asked(action_shown(a)) == a,
{
    let f = a.flags;
    assert(f & !0xdc00_0007u32 == 0 ==> f & 0xdc00_0007u32 == f) by (bit_vector);
}

/// What a signal does by default: ten of them dump the task, four stop it, three are ignored,
/// one lets it go on, and all others end it.
pub proof fn signals_have_their_defaults(n: int)
    requires
        1 <= n <= 64,
    ensures
        (default_action(n) == ActionType::Stop) == (n == 19 || n == 20 || n == 21 || n == 22),
        (default_action(n) == ActionType::Ignore) == (n == 17 || n == 23 || n == 28),
        (default_action(n) == ActionType::Cont) == (n == 18),
        (default_action(n) == ActionType::Core) == (3 <= n <= 8 || n == 11 || n == 24 || n == 25 || n
            == 31),
        default_action(9) == ActionType::Term && default_action(15) == ActionType::Term
            && default_action(2) == ActionType::Term && default_action(1) == ActionType::Term,
        initial_action(n).sa_handler == (if n == 17 || n == 23 || n == 28 {
            1usize
        } else {
            0usize
        }),
        initial_action(n).flags == 0 && initial_action(n).mask.bits == 0,
{
}

/// An action is the user's if it is neither the default nor to ignore.
pub proof fn user_actions_are_neither_default_nor_ignored(a: SigAction)
    ensures
        is_user_action(a) == (a.sa_handler > 1),
{
}

/// An action that a user sets keeps its handler, its mask and its way back, and the flags that
/// are known.
pub proof fn set_actions_keep_their_parts(a: UserSigAction)
    ensures
        action_asked(a).sa_handler == a.handler && action_asked(a).restorer == a.restorer
            && action_asked(a).mask == a.mask,
        action_asked(a).flags == a.flags as u32 & 0xdc00_0007,
        action_shown(action_asked(a)).handler == a.handler,
{
}

} // verus!
