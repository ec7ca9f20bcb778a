//! Why a signal was sent and by whom.

use vstd::prelude::*;

verus! {

/// A queued signal.
#[derive(Debug, Clone, Copy, PartialEq, Eq, Structural)]
pub struct SigInfo {
    /// Signal number.
    pub signo: i32,
    /// Why the signal was sent.
    pub code: i32,
    /// Who sent the signal.
    pub fields: SiField,
}

/// The sender of a signal.
#[derive(Debug, Clone, Copy, PartialEq, Eq, Structural)]
pub enum SiField {
    /// The kernel itself.
    Nobody,
    /// Identity of the sending thread or process.
    Kill { tid: usize },
}

impl SigInfo {
    /// Sent by kill.
    pub const USER: i32 = 0;
    /// Sent by the kernel.
    pub const KERNEL: i32 = 0x80;
    /// Sent by tkill or tgkill.
    pub const TKILL: i32 = -6;
    /// The child exited.
    pub const CLD_EXITED: i32 = 1;
    /// The child was killed.
    pub const CLD_KILLED: i32 = 2;
    /// The child was killed and dumped core.
    pub const CLD_DUMPED: i32 = 3;
    /// The child stopped.
    pub const CLD_STOPPED: i32 = 5;
    /// The stopped child continued.
    pub const CLD_CONTINUED: i32 = 6;

    /// A signal with its cause and sender.
    pub fn new(signo: i32, code: i32, field: SiField) -> (r: Self)
        ensures
            r == (SigInfo { signo, code, fields: field }),
    {
        SigInfo { signo, code, fields: field }
    }
}

/// The signal description that user programs read and write.
#[derive(Debug, Clone, Copy)]
pub struct LinuxSigInfo {
    pub si_signo: i32,
    pub si_errno: i32,
    pub si_code: i32,
    /// Sender, or the child a SIGCHLD speaks of.
    pub si_pid: usize,
    /// Exit status or signal number of a child.
    pub si_status: i32,
}

/// The description of a child's state change.
pub open spec fn child_info(pid: usize, status: i32, code: i32) -> LinuxSigInfo {
    LinuxSigInfo { si_signo: 17, si_errno: 0, si_code: code, si_pid: pid, si_status: status }
}

/// The description of a queued signal.
pub open spec fn user_info(info: SigInfo) -> LinuxSigInfo {
    LinuxSigInfo {
        si_signo: info.signo,
        si_errno: 0,
        si_code: info.code,
        si_pid: match info.fields {
            SiField::Kill { tid } => tid,
            SiField::Nobody => 0,
        },
        si_status: 0,
    }
}

impl LinuxSigInfo {
    /// Describes a child's state change.
    pub fn new_child(pid: usize, status: i32, code: i32) -> (r: Self)
        ensures
            r == child_info(pid, status, code),
    {
        LinuxSigInfo { si_signo: 17, si_errno: 0, si_code: code, si_pid: pid, si_status: status }
    }

    /// Describes a queued signal.
    pub fn from_info(info: SigInfo) -> (r: Self)
        ensures
            r == user_info(info),
    {
        let pid: usize = match info.fields {
            SiField::Kill { tid } => tid,
            SiField::Nobody => 0,
        };
        LinuxSigInfo {
            si_signo: info.signo,
            si_errno: 0,
            si_code: info.code,
            si_pid: pid,
            si_status: 0,
        }
    }
}

/// What a parent is told of a child names the child, how it changed and with what; the signal
/// is always the one for children.
pub proof fn children_are_told_by_their_signal(pid: usize, status: i32, code: i32)
    ensures
        child_info(pid, status, code).si_signo == 17,
        child_info(pid, status, code).si_pid == pid && child_info(pid, status, code).si_status
            == status && child_info(pid, status, code).si_code == code,
        child_info(pid, status, code).si_errno == 0,
{
}

/// What a task is told of a signal is its number, its cause and who sent it, if anyone.
pub proof fn senders_are_told(info: SigInfo)
    ensures
        user_info(info).si_signo == info.signo && user_info(info).si_code == info.code,
        info.fields matches SiField::Kill { tid } ==> user_info(info).si_pid == tid,
        info.fields is Nobody ==> user_info(info).si_pid == 0,
{
}

/// Neither a child's nor a sender's details hold an error or, for a sender, a status.
pub proof fn details_hold_no_error(info: SigInfo)
    ensures
        user_info(info).si_errno == 0 && user_info(info).si_status == 0,
{
}

} // verus!
