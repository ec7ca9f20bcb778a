//! Kernel error numbers and their user-visible encoding.

use vstd::prelude::*;

verus! {

/// Result of a kernel operation.
pub type SysResult<T = ()> = Result<T, Errno>;

/// Errors that a system call reports to user space.
#[allow(clippy::upper_case_acronyms)]
#[derive(Debug, Clone, Copy, PartialEq, Eq, Structural)]
pub enum Errno {
    /// Operation not permitted in the current state or for this caller.
    EPERM,
    /// No such file or directory.
    ENOENT,
    /// No such process.
    ESRCH,
    /// The call was interrupted by a signal.
    EINTR,
    /// Input/output error.
    EIO,
    /// No such device or address.
    ENXIO,
    /// Argument list too long.
    E2BIG,
    /// Executable file format error.
    ENOEXEC,
    /// Bad file descriptor.
    EBADF,
    /// No child processes.
    ECHILD,
    /// Resource temporarily unavailable.
    EAGAIN,
    /// Out of memory.
    ENOMEM,
    /// Permission denied.
    EACCES,
    /// Bad user address.
    EFAULT,
    /// Device or resource busy.
    EBUSY,
    /// File exists.
    EEXIST,
    /// Cross-device link.
    EXDEV,
    /// No such device.
    ENODEV,
    /// A path component is not a directory.
    ENOTDIR,
    /// The target is a directory.
    EISDIR,
    /// Invalid argument.
    EINVAL,
    /// Too many open files in the system.
    ENFILE,
    /// Too many open files in the process.
    EMFILE,
    /// Not a terminal.
    ENOTTY,
    /// No space left on device.
    ENOSPC,
    /// Illegal seek.
    ESPIPE,
    /// Read-only file system.
    EROFS,
    /// Broken pipe.
    EPIPE,
    /// Result too large for the buffer.
    ERANGE,
    /// File name too long.
    ENAMETOOLONG,
    /// Function not implemented.
    ENOSYS,
    /// Directory not empty.
    ENOTEMPTY,
    /// Too many levels of symbolic links.
    ELOOP,
    /// The descriptor is not a socket.
    ENOTSOCK,
    /// Destination address required.
    EDESTADDRREQ,
    /// Message too long.
    EMSGSIZE,
    /// Protocol option not available.
    ENOPROTOOPT,
    /// Protocol not supported.
    EPROTONOSUPPORT,
    /// Operation not supported.
    EOPNOTSUPP,
    /// Address family not supported.
    EAFNOSUPPORT,
    /// Address already in use.
    EADDRINUSE,
    /// Address not available.
    EADDRNOTAVAIL,
    /// Connection aborted.
    ECONNABORTED,
    /// Connection reset by peer.
    ECONNRESET,
    /// Already connected.
    EISCONN,
    /// Not connected.
    ENOTCONN,
    /// Operation timed out.
    ETIMEDOUT,
    /// Connection refused.
    ECONNREFUSED,
    /// Operation already in progress.
    EALREADY,
    /// Operation now in progress.
    EINPROGRESS,
    /// No better error is known.
    EIDONTKNONW,
}

/// The positive number of an error.
pub open spec fn code_of(e: Errno) -> int {
    match e {
        Errno::EPERM => 1,
        Errno::ENOENT => 2,
        Errno::ESRCH => 3,
        Errno::EINTR => 4,
        Errno::EIO => 5,
        Errno::ENXIO => 6,
        Errno::E2BIG => 7,
        Errno::ENOEXEC => 8,
        Errno::EBADF => 9,
        Errno::ECHILD => 10,
        Errno::EAGAIN => 11,
        Errno::ENOMEM => 12,
        Errno::EACCES => 13,
        Errno::EFAULT => 14,
        Errno::EBUSY => 16,
        Errno::EEXIST => 17,
        Errno::EXDEV => 18,
        Errno::ENODEV => 19,
        Errno::ENOTDIR => 20,
        Errno::EISDIR => 21,
        Errno::EINVAL => 22,
        Errno::ENFILE => 23,
        Errno::EMFILE => 24,
        Errno::ENOTTY => 25,
        Errno::ENOSPC => 28,
        Errno::ESPIPE => 29,
        Errno::EROFS => 30,
        Errno::EPIPE => 32,
        Errno::ERANGE => 34,
        Errno::ENAMETOOLONG => 36,
        Errno::ENOSYS => 38,
        Errno::ENOTEMPTY => 39,
        Errno::ELOOP => 40,
        Errno::ENOTSOCK => 88,
        Errno::EDESTADDRREQ => 89,
        Errno::EMSGSIZE => 90,
        Errno::ENOPROTOOPT => 92,
        Errno::EPROTONOSUPPORT => 93,
        Errno::EOPNOTSUPP => 95,
        Errno::EAFNOSUPPORT => 97,
        Errno::EADDRINUSE => 98,
        Errno::EADDRNOTAVAIL => 99,
        Errno::ECONNABORTED => 103,
        Errno::ECONNRESET => 104,
        Errno::EISCONN => 106,
        Errno::ENOTCONN => 107,
        Errno::ETIMEDOUT => 110,
        Errno::ECONNREFUSED => 111,
        Errno::EALREADY => 114,
        Errno::EINPROGRESS => 115,
        Errno::EIDONTKNONW => 114514,
    }
}

/// The English description of an error.
pub open spec fn message_of(e: Errno) -> Seq<char> {
    match e {
        Errno::EPERM => "Operation not permitted"@,
        Errno::ENOENT => "No such file or directory"@,
        Errno::ESRCH => "No such process"@,
        Errno::EINTR => "Interrupted system call"@,
        Errno::EIO => "Input/output error"@,
        Errno::ENXIO => "No such device or address"@,
        Errno::E2BIG => "Argument list too long"@,
        Errno::ENOEXEC => "Exec format error"@,
        Errno::EBADF => "Bad file descriptor"@,
        Errno::ECHILD => "No child processes"@,
        Errno::EAGAIN => "Resource temporarily unavailable"@,
        Errno::ENOMEM => "Cannot allocate memory"@,
        Errno::EACCES => "Permission denied"@,
        Errno::EFAULT => "Bad address"@,
        Errno::EBUSY => "Device or resource busy"@,
        Errno::EEXIST => "File exists"@,
        Errno::EXDEV => "Cross-device link"@,
        Errno::ENODEV => "No such device"@,
        Errno::ENOTDIR => "Not a directory"@,
        Errno::EISDIR => "Is a directory"@,
        Errno::EINVAL => "Invalid argument"@,
        Errno::ENFILE => "Too many open files in system"@,
        Errno::EMFILE => "Too many open files"@,
        Errno::ENOTTY => "Not a typewriter"@,
        Errno::ENOSPC => "No space left on device"@,
        Errno::ESPIPE => "Illegal seek"@,
        Errno::EROFS => "Read-only file system"@,
        Errno::EPIPE => "Broken pipe"@,
        Errno::ERANGE => "Result out of range"@,
        Errno::ENAMETOOLONG => "File name too long"@,
        Errno::ENOSYS => "Function not implemented"@,
        Errno::ENOTEMPTY => "Directory not empty"@,
        Errno::ELOOP => "Too many levels of symbolic links"@,
        Errno::ENOTSOCK => "Socket operation on non-socket"@,
        Errno::EDESTADDRREQ => "Destination address required"@,
        Errno::EMSGSIZE => "Message too long"@,
        Errno::ENOPROTOOPT => "Protocol not available"@,
        Errno::EPROTONOSUPPORT => "Protocol not supported"@,
        Errno::EOPNOTSUPP => "Operation not supported"@,
        Errno::EAFNOSUPPORT => "Address family not supported by protocol"@,
        Errno::EADDRINUSE => "Address already in use"@,
        Errno::EADDRNOTAVAIL => "Cannot assign requested address"@,
        Errno::ECONNABORTED => "Software caused connection abort"@,
        Errno::ECONNRESET => "Connection reset by peer"@,
        Errno::EISCONN => "Transport endpoint is already connected"@,
        Errno::ENOTCONN => "Transport endpoint is not connected"@,
        Errno::ETIMEDOUT => "Connection timed out"@,
        Errno::ECONNREFUSED => "Connection refused"@,
        Errno::EALREADY => "Operation already in progress"@,
        Errno::EINPROGRESS => "Operation now in progress"@,
        Errno::EIDONTKNONW => "I don't know which is proper"@,
    }
}

impl Errno {
    /// The positive error number, for instance 22 for `EINVAL`.
    pub fn code(self) -> (r: isize)
        ensures
            r == code_of(self),
    {
        match self {
            Errno::EPERM => 1,
            Errno::ENOENT => 2,
            Errno::ESRCH => 3,
            Errno::EINTR => 4,
            Errno::EIO => 5,
            Errno::ENXIO => 6,
            Errno::E2BIG => 7,
            Errno::ENOEXEC => 8,
            Errno::EBADF => 9,
            Errno::ECHILD => 10,
            Errno::EAGAIN => 11,
            Errno::ENOMEM => 12,
            Errno::EACCES => 13,
            Errno::EFAULT => 14,
            Errno::EBUSY => 16,
            Errno::EEXIST => 17,
            Errno::EXDEV => 18,
            Errno::ENODEV => 19,
            Errno::ENOTDIR => 20,
            Errno::EISDIR => 21,
            Errno::EINVAL => 22,
            Errno::ENFILE => 23,
            Errno::EMFILE => 24,
            Errno::ENOTTY => 25,
            Errno::ENOSPC => 28,
            Errno::ESPIPE => 29,
            Errno::EROFS => 30,
            Errno::EPIPE => 32,
            Errno::ERANGE => 34,
            Errno::ENAMETOOLONG => 36,
            Errno::ENOSYS => 38,
            Errno::ENOTEMPTY => 39,
            Errno::ELOOP => 40,
            Errno::ENOTSOCK => 88,
            Errno::EDESTADDRREQ => 89,
            Errno::EMSGSIZE => 90,
            Errno::ENOPROTOOPT => 92,
            Errno::EPROTONOSUPPORT => 93,
            Errno::EOPNOTSUPP => 95,
            Errno::EAFNOSUPPORT => 97,
            Errno::EADDRINUSE => 98,
            Errno::EADDRNOTAVAIL => 99,
            Errno::ECONNABORTED => 103,
            Errno::ECONNRESET => 104,
            Errno::EISCONN => 106,
            Errno::ENOTCONN => 107,
            Errno::ETIMEDOUT => 110,
            Errno::ECONNREFUSED => 111,
            Errno::EALREADY => 114,
            Errno::EINPROGRESS => 115,
            Errno::EIDONTKNONW => 114514,
        }
    }

    /// The value a system call returns for this error, for instance -22 for
    /// `EINVAL`.
    pub fn as_ret(self) -> (r: isize)
        ensures
            r == -code_of(self),
    {
        -self.code()
    }

    /// The English description of this error.
    pub fn message(self) -> (r: &'static str)
        ensures
            r@ == message_of(self),
    {
        match self {
            Errno::EPERM => "Operation not permitted",
            Errno::ENOENT => "No such file or directory",
            Errno::ESRCH => "No such process",
            Errno::EINTR => "Interrupted system call",
            Errno::EIO => "Input/output error",
            Errno::ENXIO => "No such device or address",
            Errno::E2BIG => "Argument list too long",
            Errno::ENOEXEC => "Exec format error",
            Errno::EBADF => "Bad file descriptor",
            Errno::ECHILD => "No child processes",
            Errno::EAGAIN => "Resource temporarily unavailable",
            Errno::ENOMEM => "Cannot allocate memory",
            Errno::EACCES => "Permission denied",
            Errno::EFAULT => "Bad address",
            Errno::EBUSY => "Device or resource busy",
            Errno::EEXIST => "File exists",
            Errno::EXDEV => "Cross-device link",
            Errno::ENODEV => "No such device",
            Errno::ENOTDIR => "Not a directory",
            Errno::EISDIR => "Is a directory",
            Errno::EINVAL => "Invalid argument",
            Errno::ENFILE => "Too many open files in system",
            Errno::EMFILE => "Too many open files",
            Errno::ENOTTY => "Not a typewriter",
            Errno::ENOSPC => "No space left on device",
            Errno::ESPIPE => "Illegal seek",
            Errno::EROFS => "Read-only file system",
            Errno::EPIPE => "Broken pipe",
            Errno::ERANGE => "Result out of range",
            Errno::ENAMETOOLONG => "File name too long",
            Errno::ENOSYS => "Function not implemented",
            Errno::ENOTEMPTY => "Directory not empty",
            Errno::ELOOP => "Too many levels of symbolic links",
            Errno::ENOTSOCK => "Socket operation on non-socket",
            Errno::EDESTADDRREQ => "Destination address required",
            Errno::EMSGSIZE => "Message too long",
            Errno::ENOPROTOOPT => "Protocol not available",
            Errno::EPROTONOSUPPORT => "Protocol not supported",
            Errno::EOPNOTSUPP => "Operation not supported",
            Errno::EAFNOSUPPORT => "Address family not supported by protocol",
            Errno::EADDRINUSE => "Address already in use",
            Errno::EADDRNOTAVAIL => "Cannot assign requested address",
            Errno::ECONNABORTED => "Software caused connection abort",
            Errno::ECONNRESET => "Connection reset by peer",
            Errno::EISCONN => "Transport endpoint is already connected",
            Errno::ENOTCONN => "Transport endpoint is not connected",
            Errno::ETIMEDOUT => "Connection timed out",
            Errno::ECONNREFUSED => "Connection refused",
            Errno::EALREADY => "Operation already in progress",
            Errno::EINPROGRESS => "Operation now in progress",
            Errno::EIDONTKNONW => "I don't know which is proper",
        }
    }
}

/// A call that returns `n`.
pub open spec fn ok(n: usize) -> SysResult<usize> {
    Ok(n)
}

/// A call that fails with `e`.
pub open spec fn err(e: Errno) -> SysResult<usize> {
    Err(e)
}

/// Distinct errors have distinct numbers, so a return value names its error.
pub proof fn code_is_injective(a: Errno, b: Errno)
    requires
        code_of(a) == code_of(b),
    ensures
        a == b,
{
}

/// Every error is returned as a negative number, so it is never mistaken for
/// a successful result.
pub proof fn error_return_is_negative(e: Errno)
    ensures
        -code_of(e) < 0,
{
}

/// The error that a text describes: its length, and where that is not enough one
/// more letter, tell.
pub open spec fn error_described(s: Seq<char>) -> Errno {
    if s.len() == 11 {
        if s[1] == 'a' {
            Errno::EFAULT
        } else if s[1] == 'i' {
            Errno::EEXIST
        } else {
            Errno::EPIPE
        }
    } else if s.len() == 12 {
        Errno::ESPIPE
    } else if s.len() == 14 {
        if s[0] == 'N' {
            Errno::ENODEV
        } else {
            Errno::EISDIR
        }
    } else if s.len() == 15 {
        if s[2] == ' ' {
            Errno::ESRCH
        } else {
            Errno::ENOTDIR
        }
    } else if s.len() == 16 {
        if s[0] == 'I' {
            Errno::EINVAL
        } else if s[0] == 'N' {
            Errno::ENOTTY
        } else {
            Errno::EMSGSIZE
        }
    } else if s.len() == 17 {
        if s[0] == 'E' {
            Errno::ENOEXEC
        } else if s[0] == 'P' {
            Errno::EACCES
        } else {
            Errno::EXDEV
        }
    } else if s.len() == 18 {
        if s[0] == 'I' {
            Errno::EIO
        } else if s[0] == 'N' {
            Errno::ECHILD
        } else if s[0] == 'F' {
            Errno::ENAMETOOLONG
        } else {
            Errno::ECONNREFUSED
        }
    } else if s.len() == 19 {
        if s[0] == 'B' {
            Errno::EBADF
        } else if s[0] == 'T' {
            Errno::EMFILE
        } else if s[0] == 'R' {
            Errno::ERANGE
        } else {
            Errno::ENOTEMPTY
        }
    } else if s.len() == 20 {
        Errno::ETIMEDOUT
    } else if s.len() == 21 {
        Errno::EROFS
    } else if s.len() == 22 {
        if s[13] == ' ' {
            Errno::E2BIG
        } else if s[13] == 't' {
            Errno::ENOMEM
        } else if s[13] == 'a' {
            Errno::ENOPROTOOPT
        } else if s[13] == 's' {
            Errno::EPROTONOSUPPORT
        } else {
            Errno::EADDRINUSE
        }
    } else if s.len() == 23 {
        if s[15] == 'e' {
            Errno::EPERM
        } else if s[15] == 't' {
            Errno::EINTR
        } else if s[15] == 'r' {
            Errno::EBUSY
        } else if s[15] == 'n' {
            Errno::ENOSPC
        } else {
            Errno::EOPNOTSUPP
        }
    } else if s.len() == 24 {
        if s[0] == 'F' {
            Errno::ENOSYS
        } else {
            Errno::ECONNRESET
        }
    } else if s.len() == 25 {
        if s[8] == 'f' {
            Errno::ENOENT
        } else if s[8] == 'd' {
            Errno::ENXIO
        } else {
            Errno::EINPROGRESS
        }
    } else if s.len() == 28 {
        if s[0] == 'D' {
            Errno::EDESTADDRREQ
        } else {
            Errno::EIDONTKNONW
        }
    } else if s.len() == 29 {
        if s[0] == 'T' {
            Errno::ENFILE
        } else {
            Errno::EALREADY
        }
    } else if s.len() == 30 {
        Errno::ENOTSOCK
    } else if s.len() == 31 {
        Errno::EADDRNOTAVAIL
    } else if s.len() == 32 {
        if s[0] == 'R' {
            Errno::EAGAIN
        } else {
            Errno::ECONNABORTED
        }
    } else if s.len() == 33 {
        Errno::ELOOP
    } else if s.len() == 35 {
        Errno::ENOTCONN
    } else if s.len() == 39 {
        Errno::EISCONN
    } else {
        Errno::EAFNOSUPPORT
    }
}

/// Every text identifies its error.
pub proof fn texts_describe_their_errors(e: Errno)
    ensures
        error_described(message_of(e)) == e,
        message_of(e).len() > 0,
{
    match e {
        Errno::EPERM => reveal_strlit("Operation not permitted"),
        Errno::ENOENT => reveal_strlit("No such file or directory"),
        Errno::ESRCH => reveal_strlit("No such process"),
        Errno::EINTR => reveal_strlit("Interrupted system call"),
        Errno::EIO => reveal_strlit("Input/output error"),
        Errno::ENXIO => reveal_strlit("No such device or address"),
        Errno::E2BIG => reveal_strlit("Argument list too long"),
        Errno::ENOEXEC => reveal_strlit("Exec format error"),
        Errno::EBADF => reveal_strlit("Bad file descriptor"),
        Errno::ECHILD => reveal_strlit("No child processes"),
        Errno::EAGAIN => reveal_strlit("Resource temporarily unavailable"),
        Errno::ENOMEM => reveal_strlit("Cannot allocate memory"),
        Errno::EACCES => reveal_strlit("Permission denied"),
        Errno::EFAULT => reveal_strlit("Bad address"),
        Errno::EBUSY => reveal_strlit("Device or resource busy"),
        Errno::EEXIST => reveal_strlit("File exists"),
        Errno::EXDEV => reveal_strlit("Cross-device link"),
        Errno::ENODEV => reveal_strlit("No such device"),
        Errno::ENOTDIR => reveal_strlit("Not a directory"),
        Errno::EISDIR => reveal_strlit("Is a directory"),
        Errno::EINVAL => reveal_strlit("Invalid argument"),
        Errno::ENFILE => reveal_strlit("Too many open files in system"),
        Errno::EMFILE => reveal_strlit("Too many open files"),
        Errno::ENOTTY => reveal_strlit("Not a typewriter"),
        Errno::ENOSPC => reveal_strlit("No space left on device"),
        Errno::ESPIPE => reveal_strlit("Illegal seek"),
        Errno::EROFS => reveal_strlit("Read-only file system"),
        Errno::EPIPE => reveal_strlit("Broken pipe"),
        Errno::ERANGE => reveal_strlit("Result out of range"),
        Errno::ENAMETOOLONG => reveal_strlit("File name too long"),
        Errno::ENOSYS => reveal_strlit("Function not implemented"),
        Errno::ENOTEMPTY => reveal_strlit("Directory not empty"),
        Errno::ELOOP => reveal_strlit("Too many levels of symbolic links"),
        Errno::ENOTSOCK => reveal_strlit("Socket operation on non-socket"),
        Errno::EDESTADDRREQ => reveal_strlit("Destination address required"),
        Errno::EMSGSIZE => reveal_strlit("Message too long"),
        Errno::ENOPROTOOPT => reveal_strlit("Protocol not available"),
        Errno::EPROTONOSUPPORT => reveal_strlit("Protocol not supported"),
        Errno::EOPNOTSUPP => reveal_strlit("Operation not supported"),
        Errno::EAFNOSUPPORT => reveal_strlit("Address family not supported by protocol"),
        Errno::EADDRINUSE => reveal_strlit("Address already in use"),
        Errno::EADDRNOTAVAIL => reveal_strlit("Cannot assign requested address"),
        Errno::ECONNABORTED => reveal_strlit("Software caused connection abort"),
        Errno::ECONNRESET => reveal_strlit("Connection reset by peer"),
        Errno::EISCONN => reveal_strlit("Transport endpoint is already connected"),
        Errno::ENOTCONN => reveal_strlit("Transport endpoint is not connected"),
        Errno::ETIMEDOUT => reveal_strlit("Connection timed out"),
        Errno::ECONNREFUSED => reveal_strlit("Connection refused"),
        Errno::EALREADY => reveal_strlit("Operation already in progress"),
        Errno::EINPROGRESS => reveal_strlit("Operation now in progress"),
        Errno::EIDONTKNONW => reveal_strlit("I don't know which is proper"),
    }
}

/// Different errors have different texts, and no text is empty.
pub proof fn texts_are_distinct(a: Errno, b: Errno)
    requires
        a != b,
    ensures
        message_of(a) != message_of(b),
        message_of(a).len() > 0,
        message_of(b).len() > 0,
{
    texts_describe_their_errors(a);
    texts_describe_their_errors(b);
}

} // verus!
