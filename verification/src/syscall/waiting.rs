//! What a thread that waits shows to the rest of the kernel.

use crate::signal::sig_struct::SigSet;
use vstd::prelude::*;

verus! {

/// The signals that a thread blocks, and how it waits.
#[derive(Debug, Clone, Copy, PartialEq, Eq)]
pub struct WaitState {
    pub mask: SigSet,
    /// A signal may end the wait.
    pub interruptible: bool,
    /// A signal has ended it.
    pub interrupted: bool,
    /// The signals that are waited for themselves.
    pub sigwait: Option<SigSet>,
}

/// Between two steps of a call only signals reach a waiting thread: nothing but
/// the note that one came differs.
pub open spec fn undisturbed(a: WaitState, b: WaitState) -> bool {
    b == (WaitState { interrupted: b.interrupted, ..a })
}

} // verus!
