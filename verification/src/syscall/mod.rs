//! The rules of the system calls.
//!
//! Each function decides what a call comes to. What only the rest of the kernel
//! can do (look up a path, read user memory, sleep) is handed in as a result or
//! handed back as a step.

pub mod basic;
pub mod clone;
pub mod credentials;
pub mod epoll;
pub mod exec;
pub mod fd;
pub mod file;
pub mod futex;
pub mod ioctl;
pub mod ipc;
pub mod message;
pub mod mm;
pub mod net;
pub mod path;
pub mod poll;
pub mod positioned;
pub mod posix_timer;
pub mod process;
pub mod rusage;
pub mod rw;
pub mod schedule;
pub mod signal;
pub mod sleep;
pub mod sockaddr;
pub mod special_fd;
pub mod stat;
pub mod system;
pub mod table;
pub mod time;
pub mod timers;
pub mod wait;
pub mod waiting;
