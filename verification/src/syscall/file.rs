//! Open file flags and kinds of files.

use vstd::prelude::*;

verus! {

pub const O_ACCMODE: u32 = 0o3;

pub const O_RDONLY: u32 = 0;

pub const O_WRONLY: u32 = 0o1;

pub const O_RDWR: u32 = 0o2;

pub const O_CREAT: u32 = 0o100;

pub const O_APPEND: u32 = 0o2000;

pub const O_NONBLOCK: u32 = 0o4000;

pub const O_DIRECT: u32 = 0o40000;

pub const O_NOFOLLOW: u32 = 0o400000;

pub const O_CLOEXEC: u32 = 0o2000000;

pub const O_PATH: u32 = 0o10000000;

/// Kinds of files.
#[derive(Debug, Clone, Copy, PartialEq, Eq, Structural)]
pub enum InodeType {
    Regular,
    Directory,
    CharDevice,
    BlockDevice,
    Fifo,
    Socket,
    SymLink,
    Unknown,
}

} // verus!
