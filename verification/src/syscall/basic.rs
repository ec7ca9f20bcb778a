//! The smallest set of system calls: writing, ending, yielding and the time.

use vstd::prelude::*;

verus! {

pub const SYSCALL_WRITE: usize = 64;

pub const SYSCALL_EXIT: usize = 93;

pub const SYSCALL_YIELD: usize = 124;

pub const SYSCALL_GET_TIME: usize = 169;

/// A call with its arguments.
#[derive(Debug, Clone, Copy, PartialEq, Eq, Structural)]
pub enum BasicCall {
    /// Writes bytes of user memory.
    Write { fd: usize, buf: usize, len: usize },
    /// Ends the program.
    Exit { exit_code: i32 },
    /// Lets another program run.
    Yield,
    /// Reads the clock.
    GetTime,
}

/// The call that a number and its arguments ask for. Other numbers are not
/// allowed.
pub fn syscall(syscall_id: usize, args: [usize; 3]) -> (r: BasicCall)
    requires
        syscall_id == SYSCALL_WRITE || syscall_id == SYSCALL_EXIT || syscall_id == SYSCALL_YIELD
            || syscall_id == SYSCALL_GET_TIME,
    ensures
        syscall_id == SYSCALL_WRITE ==> r == (BasicCall::Write {
            fd: args[0],
            buf: args[1],
            len: args[2],
        }),
        syscall_id == SYSCALL_EXIT ==> r == (BasicCall::Exit { exit_code: args[0] as i32 }),
        syscall_id == SYSCALL_YIELD ==> r == BasicCall::Yield,
        syscall_id == SYSCALL_GET_TIME ==> r == BasicCall::GetTime,
{
    if syscall_id == SYSCALL_WRITE {
        BasicCall::Write { fd: args[0], buf: args[1], len: args[2] }
    } else if syscall_id == SYSCALL_GET_TIME {
        BasicCall::GetTime
    } else if syscall_id == SYSCALL_YIELD {
        BasicCall::Yield
    } else {
        BasicCall::Exit { exit_code: args[0] as i32 }
    }
}

} // verus!
