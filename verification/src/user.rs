//! What the boundary to user memory hands to a system call.
//!
//! User memory is read and written outside this library. A call receives the
//! outcome of each read, and the kind of each pointer it is to write through;
//! it answers with the value to be written.

use crate::errno::{Errno, SysResult};
use vstd::prelude::*;

verus! {

/// A user pointer that a call reads through.
#[derive(Debug)]
pub enum UserIn<T> {
    /// The pointer is null.
    Null,
    /// The memory behind the pointer cannot be read.
    Fault,
    /// The value that was read.
    Value(T),
}

/// A user pointer that a call writes through.
#[derive(Debug, Clone, Copy, PartialEq, Eq, Structural)]
pub enum UserOut {
    /// The pointer is null.
    Null,
    /// The memory behind the pointer cannot be written.
    Fault,
    /// The memory behind the pointer can be written.
    Writable,
}

/// The value to return to user space and the value to write to user memory.
#[derive(Debug)]
pub struct Reply<T> {
    /// What the call returns.
    pub ret: SysResult<usize>,
    /// What the call writes through its output pointer, if it writes at all.
    pub out: Option<T>,
}

/// A reply that reports an error and writes nothing.
pub open spec fn failed<T>(e: Errno) -> Reply<T> {
    Reply { ret: Err(e), out: None }
}

/// A reply that returns `n` and writes `value`.
pub open spec fn wrote<T>(n: usize, value: T) -> Reply<T> {
    Reply { ret: Ok(n), out: Some(value) }
}

/// A reply that returns `n` and writes nothing.
pub open spec fn silent<T>(n: usize) -> Reply<T> {
    Reply { ret: Ok(n), out: None }
}

/// The result of reading through a pointer that must not be null.
pub open spec fn read_result<T>(p: UserIn<T>) -> SysResult<T> {
    match p {
        UserIn::Value(v) => Ok(v),
        _ => Err(Errno::EFAULT),
    }
}

/// Writing `value` through `p` and returning `n`: a bad pointer is `EFAULT`.
pub open spec fn write_reply<T>(p: UserOut, n: usize, value: T) -> Reply<T> {
    if p == UserOut::Writable {
        wrote(n, value)
    } else {
        failed(Errno::EFAULT)
    }
}

impl<T> UserIn<T> {
    /// Reads through the pointer.
    pub fn read(self) -> (r: SysResult<T>)
        ensures
            r == read_result(self),
    {
        match self {
            UserIn::Value(v) => Ok(v),
            _ => Err(Errno::EFAULT),
        }
    }

    /// Tells whether the pointer is null.
    pub fn is_null(&self) -> (r: bool)
        ensures
            r == (*self is Null),
    {
        match self {
            UserIn::Null => true,
            _ => false,
        }
    }
}

impl UserOut {
    /// Checks that a write through the pointer succeeds.
    pub fn check(self) -> (r: SysResult<()>)
        ensures
            r == (if self == UserOut::Writable {
                Ok(())
            } else {
                Err::<(), Errno>(Errno::EFAULT)
            }),
    {
        match self {
            UserOut::Writable => Ok(()),
            _ => Err(Errno::EFAULT),
        }
    }

    /// Writes `value` through the pointer and returns `n`.
    pub fn reply<T>(self, n: usize, value: T) -> (r: Reply<T>)
        ensures
            r == write_reply(self, n, value),
    {
        match self {
            UserOut::Writable => Reply { ret: Ok(n), out: Some(value) },
            _ => Reply { ret: Err(Errno::EFAULT), out: None },
        }
    }
}

impl<T> Reply<T> {
    /// A reply that reports `e`.
    pub fn fail(e: Errno) -> (r: Self)
        ensures
            r == failed::<T>(e),
    {
        Reply { ret: Err(e), out: None }
    }

    /// A reply that returns `n` and writes nothing.
    pub fn done(n: usize) -> (r: Self)
        ensures
            r == silent::<T>(n),
    {
        Reply { ret: Ok(n), out: None }
    }
}

} // verus!
