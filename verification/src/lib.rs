//! Verified core of the RespOS kernel: the rules behind its system calls,
//! signals, timers, shared memory, sockets, machines and performance counters.

pub mod bits;
pub mod errno;
pub mod format;
pub mod net;
pub mod perf;
pub mod platform;
pub mod seqs;
pub mod signal;
pub mod sorted_map;
pub mod syscall;
pub mod task;
pub mod text;
pub mod timer;
pub mod user;
