//! The numbers of the system calls and what their arguments mean.

use crate::errno::{Errno, SysResult};
use vstd::prelude::*;

verus! {

pub const SYSCALL_SETXATTR: usize = 5;

pub const SYSCALL_LSETXATTR: usize = 6;

pub const SYSCALL_FSETXATTR: usize = 7;

pub const SYSCALL_GETXATTR: usize = 8;

pub const SYSCALL_LGETXATTR: usize = 9;

pub const SYSCALL_FGETXATTR: usize = 10;

pub const SYSCALL_LISTXATTR: usize = 11;

pub const SYSCALL_LLISTXATTR: usize = 12;

pub const SYSCALL_FLISTXATTR: usize = 13;

pub const SYSCALL_REMOVEXATTR: usize = 14;

pub const SYSCALL_LREMOVEXATTR: usize = 15;

pub const SYSCALL_FREMOVEXATTR: usize = 16;

pub const SYSCALL_GETCWD: usize = 17;

pub const SYSCALL_DUP: usize = 23;

pub const SYSCALL_DUP3: usize = 24;

pub const SYSCALL_EVENTFD2: usize = 19;

pub const SYSCALL_EPOLL_CREATE1: usize = 20;

pub const SYSCALL_INOTIFY_INIT1: usize = 26;

pub const SYSCALL_FCNTL: usize = 25;

pub const SYSCALL_IOCTL: usize = 29;

pub const SYSCALL_FLOCK: usize = 32;

pub const SYSCALL_MKDIRAT: usize = 34;

pub const SYSCALL_UNLINKAT: usize = 35;

pub const SYSCALL_SYMLINKAT: usize = 36;

pub const SYSCALL_LINKAT: usize = 37;

pub const SYSCALL_UMOUNT2: usize = 39;

pub const SYSCALL_MOUNT: usize = 40;

pub const SYSCALL_STATFS: usize = 43;

pub const SYSCALL_FTRUNCATE: usize = 46;

pub const SYSCALL_TRUNCATE: usize = 45;

pub const SYSCALL_FALLOCATE: usize = 47;

pub const SYSCALL_FACCESSAT: usize = 48;

pub const SYSCALL_FACCESSAT2: usize = 439;

pub const SYSCALL_CHDIR: usize = 49;

pub const SYSCALL_FCHDIR: usize = 50;

pub const SYSCALL_CHROOT: usize = 51;

pub const SYSCALL_MKNODAT: usize = 33;

pub const SYSCALL_FCHMOD: usize = 52;

pub const SYSCALL_FCHMODAT: usize = 53;

pub const SYSCALL_FCHOWNAT: usize = 54;

pub const SYSCALL_FCHOWN: usize = 55;

pub const SYSCALL_OPENAT: usize = 56;

pub const SYSCALL_CLOSE: usize = 57;

pub const SYSCALL_PIPE2: usize = 59;

pub const SYSCALL_GETDENTS64: usize = 61;

pub const SYSCALL_LSEEK: usize = 62;

pub const SYSCALL_READ: usize = 63;

pub const SYSCALL_WRITE: usize = 64;

pub const SYSCALL_READV: usize = 65;

pub const SYSCALL_WRITEV: usize = 66;

pub const SYSCALL_PREADV: usize = 69;

pub const SYSCALL_PWRITEV: usize = 70;

pub const SYSCALL_SENDFILE: usize = 71;

pub const SYSCALL_PREAD64: usize = 67;

pub const SYSCALL_PWRITE64: usize = 68;

pub const SYSCALL_PSELECT6: usize = 72;

pub const SYSCALL_PPOLL: usize = 73;

pub const SYSCALL_SIGNALFD4: usize = 74;

pub const SYSCALL_VMSPLICE: usize = 75;

pub const SYSCALL_SPLICE: usize = 76;

pub const SYSCALL_TEE: usize = 77;

pub const SYSCALL_READLINKAT: usize = 78;

pub const SYSCALL_FSTATAT: usize = 79;

pub const SYSCALL_FSTAT: usize = 80;

pub const SYSCALL_FSYNC: usize = 82;

pub const SYSCALL_FDATASYNC: usize = 83;

pub const SYSCALL_SYNC_FILE_RANGE: usize = 84;

pub const SYSCALL_TIMERFD_CREATE: usize = 85;

pub const SYSCALL_TIMERFD_SETTIME: usize = 86;

pub const SYSCALL_TIMERFD_GETTIME: usize = 87;

pub const SYSCALL_FSTATFS: usize = 44;

pub const SYSCALL_UTIMENSAT: usize = 88;

pub const SYSCALL_CAPGET: usize = 90;

pub const SYSCALL_CAPSET: usize = 91;

pub const SYSCALL_PERSONALITY: usize = 92;

pub const SYSCALL_EXIT: usize = 93;

pub const SYSCALL_EXIT_GROUP: usize = 94;

pub const SYSCALL_WAITID: usize = 95;

pub const SYSCALL_SET_TID_ADDRESS: usize = 96;

pub const SYSCALL_FUTEX: usize = 98;

pub const SYSCALL_SET_ROBUST_LIST: usize = 99;

pub const SYSCALL_GET_ROBUST_LIST: usize = 100;

pub const SYSCALL_NANOSLEEP: usize = 101;

pub const SYSCALL_GETITIMER: usize = 102;

pub const SYSCALL_SETITIMER: usize = 103;

pub const SYSCALL_TIMER_CREATE: usize = 107;

pub const SYSCALL_TIMER_GETTIME: usize = 108;

pub const SYSCALL_TIMER_GETOVERRUN: usize = 109;

pub const SYSCALL_TIMER_SETTIME: usize = 110;

pub const SYSCALL_TIMER_DELETE: usize = 111;

pub const SYSCALL_CLOCK_SETTIME: usize = 112;

pub const SYSCALL_CLOCK_GETTIME: usize = 113;

pub const SYSCALL_CLOCK_GETRES: usize = 114;

pub const SYSCALL_CLOCK_NANOSLEEP: usize = 115;

pub const SYSCALL_SYSLOG: usize = 116;

pub const SYSCALL_SCHED_SETPARAM: usize = 118;

pub const SYSCALL_SCHED_SETSCHEDULER: usize = 119;

pub const SYSCALL_SCHED_GETSCHEDULER: usize = 120;

pub const SYSCALL_SCHED_GETPARAM: usize = 121;

pub const SYSCALL_SCHED_SETAFFINITY: usize = 122;

pub const SYSCALL_SCHED_GETAFFINITY: usize = 123;

pub const SYSCALL_SCHED_YIELD: usize = 124;

pub const SYSCALL_SCHED_GET_PRIORITY_MAX: usize = 125;

pub const SYSCALL_SCHED_GET_PRIORITY_MIN: usize = 126;

pub const SYSCALL_SCHED_RR_GET_INTERVAL: usize = 127;

pub const SYSCALL_KILL: usize = 129;

pub const SYSCALL_TKILL: usize = 130;

pub const SYSCALL_TGKILL: usize = 131;

pub const SYSCALL_SIGALTSTACK: usize = 132;

pub const SYSCALL_RT_SIGSUSPEND: usize = 133;

pub const SYSCALL_SIGACTION: usize = 134;

pub const SYSCALL_SIGPROCMASK: usize = 135;

pub const SYSCALL_RT_SIGPENDING: usize = 136;

pub const SYSCALL_RT_SIGTIMEDWAIT: usize = 137;

pub const SYSCALL_RT_SIGQUEUEINFO: usize = 138;

pub const SYSCALL_SIGRETURN: usize = 139;

pub const SYSCALL_SETPRIORITY: usize = 140;

pub const SYSCALL_GETPRIORITY: usize = 141;

pub const SYSCALL_REBOOT: usize = 142;

pub const SYSCALL_SETREGID: usize = 143;

pub const SYSCALL_SETGID: usize = 144;

pub const SYSCALL_SETREUID: usize = 145;

pub const SYSCALL_SETUID: usize = 146;

pub const SYSCALL_SETRESUID: usize = 147;

pub const SYSCALL_GETRESUID: usize = 148;

pub const SYSCALL_SETRESGID: usize = 149;

pub const SYSCALL_GETRESGID: usize = 150;

pub const SYSCALL_SETFSUID: usize = 151;

pub const SYSCALL_SETFSGID: usize = 152;

pub const SYSCALL_TIMES: usize = 153;

pub const SYSCALL_SETPGID: usize = 154;

pub const SYSCALL_GETPGID: usize = 155;

pub const SYSCALL_SETSID: usize = 157;

pub const SYSCALL_GETGROUPS: usize = 158;

pub const SYSCALL_SETGROUPS: usize = 159;

pub const SYSCALL_UNAME: usize = 160;

pub const SYSCALL_SETHOSTNAME: usize = 161;

pub const SYSCALL_SETDOMAINNAME: usize = 162;

pub const SYSCALL_GETRLIMIT: usize = 163;

pub const SYSCALL_SETRLIMIT: usize = 164;

pub const SYSCALL_GETRUSAGE: usize = 165;

pub const SYSCALL_UMASK: usize = 166;

pub const SYSCALL_GETTIMEOFDAY: usize = 169;

pub const SYSCALL_SETTIMEOFDAY: usize = 170;

pub const SYSCALL_ADJTIMEX: usize = 171;

pub const SYSCALL_GETPID: usize = 172;

pub const SYSCALL_GETPPID: usize = 173;

pub const SYSCALL_GETUID: usize = 174;

pub const SYSCALL_GETEUID: usize = 175;

pub const SYSCALL_GETGID: usize = 176;

pub const SYSCALL_GETEGID: usize = 177;

pub const SYSCALL_GETTID: usize = 178;

pub const SYSCALL_SYSINFO: usize = 179;

pub const SYSCALL_SHMGET: usize = 194;

pub const SYSCALL_SHMCTL: usize = 195;

pub const SYSCALL_SHMAT: usize = 196;

pub const SYSCALL_SHMDT: usize = 197;

pub const SYSCALL_SOCKET: usize = 198;

pub const SYSCALL_SOCKETPAIR: usize = 199;

pub const SYSCALL_BIND: usize = 200;

pub const SYSCALL_LISTEN: usize = 201;

pub const SYSCALL_ACCEPT: usize = 202;

pub const SYSCALL_CONNECT: usize = 203;

pub const SYSCALL_GETSOCKNAME: usize = 204;

pub const SYSCALL_GETPEERNAME: usize = 205;

pub const SYSCALL_SENDTO: usize = 206;

pub const SYSCALL_RECVFROM: usize = 207;

pub const SYSCALL_SETSOCKOPT: usize = 208;

pub const SYSCALL_GETSOCKOPT: usize = 209;

pub const SYSCALL_SHUTDOWN: usize = 210;

pub const SYSCALL_SENDMSG: usize = 211;

pub const SYSCALL_RECVMSG: usize = 212;

pub const SYSCALL_BRK: usize = 214;

pub const SYSCALL_MUNMAP: usize = 215;

pub const SYSCALL_CLONE: usize = 220;

pub const SYSCALL_ACCEPT4: usize = 242;

pub const SYSCALL_RECVMMSG: usize = 243;

pub const SYSCALL_COPY_FILE_RANGE: usize = 285;

pub const SYSCALL_EXECVE: usize = 221;

pub const SYSCALL_EXECVEAT: usize = 281;

pub const SYSCALL_MMAP: usize = 222;

pub const SYSCALL_FADVISE64: usize = 223;

pub const SYSCALL_MPROTECT: usize = 226;

pub const SYSCALL_MREMAP: usize = 216;

pub const SYSCALL_MSYNC: usize = 227;

pub const SYSCALL_MLOCK: usize = 228;

pub const SYSCALL_MUNLOCK: usize = 229;

pub const SYSCALL_PERF_EVENT_OPEN: usize = 241;

pub const SYSCALL_PREADV2: usize = 286;

pub const SYSCALL_PWRITEV2: usize = 287;

pub const SYSCALL_MADVISE: usize = 233;

pub const SYSCALL_GET_MEMPOLICY: usize = 236;

pub const SYSCALL_WAIT4: usize = 260;

pub const SYSCALL_PRLIMIT64: usize = 261;

pub const SYSCALL_FANOTIFY_INIT: usize = 262;

pub const SYSCALL_CLOCK_ADJTIME: usize = 266;

pub const SYSCALL_SENDMMSG: usize = 269;

pub const SYSCALL_SCHED_SETATTR: usize = 274;

pub const SYSCALL_SCHED_GETATTR: usize = 275;

pub const SYSCALL_RENAMEAT2: usize = 276;

pub const SYSCALL_GETRANDOM: usize = 278;

pub const SYSCALL_MEMFD_CREATE: usize = 279;

pub const SYSCALL_BPF: usize = 280;

pub const SYSCALL_USERFAULTFD: usize = 282;

pub const SYSCALL_IO_URING_SETUP: usize = 425;

pub const SYSCALL_OPEN_TREE: usize = 428;

pub const SYSCALL_FSOPEN: usize = 430;

pub const SYSCALL_FSPICK: usize = 433;

pub const SYSCALL_PIDFD_OPEN: usize = 434;

pub const SYSCALL_CLOSE_RANGE: usize = 436;

pub const SYSCALL_STATX: usize = 291;

pub const SYSCALL_OPENAT2: usize = 437;

pub const SYSCALL_MEMFD_SECRET: usize = 447;

/// A system call with its arguments. Places in user memory are addresses.
#[allow(inconsistent_fields)]
#[derive(Debug, Clone, Copy, PartialEq, Eq, Structural)]
pub enum Syscall {
    Setxattr { path: usize, name: usize, value: usize, size: usize, flags: usize },
    Lsetxattr { path: usize, name: usize, value: usize, size: usize, flags: usize },
    Fsetxattr { fd: usize, name: usize, value: usize, size: usize, flags: usize },
    Getxattr { path: usize, name: usize, value: usize, size: usize },
    Lgetxattr { path: usize, name: usize, value: usize, size: usize },
    Fgetxattr { fd: usize, name: usize, value: usize, size: usize },
    Listxattr { path: usize, list: usize, size: usize },
    Llistxattr { path: usize, list: usize, size: usize },
    Flistxattr { fd: usize, list: usize, size: usize },
    Removexattr { path: usize, name: usize },
    Lremovexattr { path: usize, name: usize },
    Fremovexattr { fd: usize, name: usize },
    Getcwd { buf: usize, len: usize },
    Dup { fd: usize },
    Dup3 { fd_src: usize, fd_dst: usize, flags: usize },
    Eventfd2 { initval: usize, flags: usize },
    EpollCreate1 { flags: usize },
    InotifyInit1 { flags: usize },
    Fcntl { fd: usize, cmd: usize, arg: usize },
    Ioctl { fd: usize, request: usize, arg: usize },
    Flock { fd: usize, operation: usize },
    Mkdirat { dirfd: isize, path: usize, mode: usize },
    Unlinkat { dirfd: isize, path: usize, flags: usize },
    Symlinkat { target: usize, newdirfd: isize, linkpath: usize },
    Linkat { olddirfd: isize, oldpath: usize, newdirfd: isize, newpath: usize, flags: usize },
    Umount2 { target: usize, flags: usize },
    Mount { source: usize, target: usize, fstype: usize, flags: usize, data: usize },
    Statfs { path: usize, buf: usize },
    Ftruncate { fd: usize, length: isize },
    Truncate { path: usize, length: isize },
    Fallocate { fd: usize, mode: usize, offset: isize, len: isize },
    Faccessat { dirfd: isize, path: usize, mode: usize, flags: usize },
    Chdir { path: usize },
    Fchdir { fd: usize },
    Chroot { path: usize },
    Mknodat { dirfd: isize, path: usize, mode: usize, dev: usize },
    Fchmod { fd: usize, mode: usize },
    Fchmodat { dirfd: isize, path: usize, mode: usize },
    Fchownat { dirfd: isize, path: usize, owner: usize, group: usize, flags: usize },
    Fchown { fd: usize, owner: usize, group: usize },
    Openat { dirfd: isize, path: usize, flags: usize, mode: usize },
    Close { fd: usize },
    Pipe2 { pipefd: usize, flags: usize },
    Getdents64 { fd: usize, dirp: usize, count: usize },
    Lseek { fd: usize, offset: isize, whence: usize },
    Read { fd: usize, buf: usize, len: usize },
    Write { fd: usize, buf: usize, len: usize },
    Readv { fd: usize, iov: usize, iovcnt: usize },
    Writev { fd: usize, iov: usize, iovcnt: usize },
    Preadv { fd: usize, iov_ptr: usize, iovcnt: usize, offset: isize },
    Pwritev { fd: usize, iov_ptr: usize, iovcnt: usize, offset: isize },
    Sendfile { out_fd: usize, in_fd: usize, offset: usize, count: usize },
    Pread64 { fd: usize, buf: usize, len: usize, offset: isize },
    Pwrite64 { fd: usize, buf: usize, len: usize, offset: isize },
    Pselect6 { nfds: usize, readfds: usize, writefds: usize, exceptfds: usize, timeout: usize, sigmask: usize },
    Ppoll { fds: usize, nfds: usize, timeout: usize, sigmask: usize, sigsetsize: usize },
    Signalfd4 { fd: isize, mask: usize, sizemask: usize, flags: usize },
    Vmsplice { fd: usize, iov: usize, iovcnt: usize, flags: usize },
    Splice { fd_in: usize, off_in: usize, fd_out: usize, off_out: usize, len: usize, flags: usize },
    Tee { fd_in: usize, fd_out: usize, len: usize, flags: usize },
    Readlinkat { dirfd: isize, path: usize, buf: usize, bufsize: usize },
    Fstatat { dirfd: isize, path: usize, stat: usize, flags: usize },
    Fstat { fd: usize, stat: usize },
    Fsync { fd: usize },
    Fdatasync { fd: usize },
    SyncFileRange { fd: isize, offset: isize, nbytes: isize, flags: usize },
    TimerfdCreate { clockid: usize, flags: usize },
    TimerfdSettime { fd: usize, flags: usize, new_value: usize, old_value: usize },
    TimerfdGettime { fd: usize, curr_value: usize },
    Fstatfs { fd: usize, buf: usize },
    Utimensat { dirfd: isize, path: usize, times: usize, flags: usize },
    Capget { hdrp: usize, datap: usize },
    Capset { hdrp: usize, datap: usize },
    Personality { persona: usize },
    Exit { exit_code: i32 },
    ExitGroup { exit_code: i32 },
    Waitid { idtype: usize, id: usize, infop: usize, options: usize, rusage: usize },
    SetTidAddress { tidptr: usize },
    Futex { uaddr: usize, futex_op: usize, val: usize, timeout: usize, uaddr2: usize, val3: usize },
    SetRobustList { head: usize, len: usize },
    GetRobustList { pid: usize, head_ptr: usize, len_ptr: usize },
    Nanosleep { req: usize, rem: usize },
    Getitimer { which: usize, curr_value: usize },
    Setitimer { which: usize, new_value: usize, old_value: usize },
    TimerCreate { clock_id: usize, sevp: usize, timerid: usize },
    TimerGettime { timerid: usize, curr_value: usize },
    TimerGetoverrun { timerid: usize },
    TimerSettime { timerid: usize, flags: usize, new_value: usize, old_value: usize },
    TimerDelete { timerid: usize },
    ClockSettime { clock_id: usize, tp: usize },
    ClockGettime { clock_id: usize, tp: usize },
    ClockGetres { clock_id: usize, res: usize },
    ClockNanosleep { clock_id: usize, flags: usize, req: usize, rem: usize },
    Syslog { action: usize, buf: usize, len: isize },
    SchedSetparam { pid: isize, param: usize },
    SchedSetscheduler { pid: isize, policy: usize, param: usize },
    SchedGetscheduler { pid: isize },
    SchedGetparam { pid: isize, param: usize },
    SchedSetaffinity { pid: isize, cpusetsize: usize, mask: usize },
    SchedGetaffinity { pid: isize, cpusetsize: usize, mask: usize },
    SchedYield,
    SchedGetPriorityMax { policy: isize },
    SchedGetPriorityMin { policy: isize },
    SchedRrGetInterval { pid: isize, interval: usize },
    Kill { pid: usize, signum: i32 },
    Tkill { tid: usize, signum: i32 },
    Tgkill { tgid: usize, tid: usize, signum: i32 },
    Sigaltstack { new_stack: usize, old_stack: usize },
    RtSigsuspend { mask: usize, sigsetsize: usize },
    Sigaction { signum: i32, act: usize, oldact: usize, sigsetsize: usize },
    Sigprocmask { how: usize, set: usize, oldset: usize, sigsetsize: usize },
    RtSigpending { set: usize, sigsetsize: usize },
    RtSigtimedwait { set_ptr: usize, info_ptr: usize, timeout_ptr: usize, sigsetsize: usize },
    RtSigqueueinfo { tgid: usize, signum: i32, uinfo: usize },
    Sigreturn,
    Setpriority { which: usize, who: usize, prio: isize },
    Getpriority { which: usize, who: usize },
    Reboot,
    Setregid { rgid: usize, egid: usize },
    Setgid { gid: usize },
    Setreuid { ruid: usize, euid: usize },
    Setuid { uid: usize },
    Setresuid { ruid: usize, euid: usize, suid: usize },
    Getresuid { ruid: usize, euid: usize, suid: usize },
    Setresgid { rgid: usize, egid: usize, sgid: usize },
    Getresgid { rgid: usize, egid: usize, sgid: usize },
    Setfsuid { uid: usize },
    Setfsgid { gid: usize },
    Times { buf: usize },
    Setpgid { pid: usize, pgid: usize },
    Getpgid { pid: usize },
    Setsid,
    Getgroups { size: usize, list: usize },
    Setgroups { size: usize, list: usize },
    Uname { buf: usize },
    Sethostname { name: usize, len: usize },
    Setdomainname { name: usize, len: usize },
    Getrlimit { resource: usize, old_limit: usize },
    Setrlimit { resource: usize, new_limit: usize },
    Getrusage { who: isize, usage: usize },
    Umask { mask: usize },
    Gettimeofday { tv: usize, tz: usize },
    Settimeofday { tv: usize, tz: usize },
    Adjtimex { buf: usize },
    Getpid,
    Getppid,
    Getuid,
    Geteuid,
    Getgid,
    Getegid,
    Gettid,
    Sysinfo { buf: usize },
    Shmget { key: isize, size: usize, shmflg: usize },
    Shmctl { shmid: usize, cmd: usize, buf: usize },
    Shmat { shmid: usize, shmaddr: usize, shmflg: usize },
    Shmdt { shmaddr: usize },
    Socket { domain: usize, socket_type: usize, protocol: usize },
    Socketpair { domain: usize, socket_type: usize, protocol: usize, sv: usize },
    Bind { socketfd: usize, socketaddr: usize, socketlen: usize },
    Listen { socketfd: usize, backlog: usize },
    Accept { socketfd: usize, addr: usize, addrlen: usize },
    Connect { socketfd: usize, addr: usize, addrlen: usize },
    Getsockname { socketfd: usize, addr: usize, addrlen: usize },
    Getpeername { socketfd: usize, addr: usize, addrlen: usize },
    Sendto { fd: usize, buf: usize, len: usize, flags: usize, dest_addr: usize, addrlen: usize },
    Recvfrom { fd: usize, buf: usize, len: usize, flags: usize, src_addr: usize, addrlen: usize },
    Setsockopt { fd: usize, level: usize, optname: usize, optval: usize, optlen: usize },
    Getsockopt { fd: usize, level: usize, optname: usize, optval: usize, optlen: usize },
    Shutdown { fd: usize, how: usize },
    Sendmsg { fd: usize, msg: usize, flags: usize },
    Recvmsg { fd: usize, msg: usize, flags: usize },
    Brk { addr: usize },
    Munmap { addr: usize, len: usize },
    Clone { flags: usize, stack: usize, ptid: usize, arg3: usize, arg4: usize },
    Accept4 { socketfd: usize, addr: usize, addrlen: usize, flags: usize },
    Recvmmsg { fd: usize, msgvec: usize, vlen: usize, flags: usize, timeout: usize },
    CopyFileRange { fd_in: usize, off_in: usize, fd_out: usize, off_out: usize, len: usize, flags: usize },
    Execve { path: usize, args: usize, envp: usize },
    Execveat { dirfd: isize, path: usize, args: usize, envp: usize, flags: usize },
    Mmap { addr: usize, len: usize, prot: usize, flags: usize, fd: isize, offset: usize },
    Fadvise64 { fd: usize, offset: isize, len: isize, advice: usize },
    Mprotect { addr: usize, len: usize, prot: u32 },
    Mremap { old_addr: usize, old_size: usize, new_size: usize, flags: usize, new_addr: usize },
    Msync { addr: usize, len: usize, flags: i32 },
    Mlock { addr: usize, len: usize },
    Munlock { addr: usize, len: usize },
    PerfEventOpen { attr: usize, pid: isize, cpu: isize, group_fd: isize, flags: usize },
    Preadv2 { fd: usize, iov_ptr: usize, iovcnt: usize, offset: isize, flags: i32 },
    Pwritev2 { fd: usize, iov_ptr: usize, iovcnt: usize, offset: isize, flags: i32 },
    Madvise { addr: usize, len: usize, advice: i32 },
    GetMempolicy { mode: usize, nodemask: usize, maxnode: usize, addr: usize, flags: usize },
    Wait4 { pid: isize, exit_code_ptr: usize, options: usize, rusage: usize },
    Prlimit64 { pid: usize, resource: usize, new_limit: usize, old_limit: usize },
    FanotifyInit { flags: usize, event_f_flags: usize },
    ClockAdjtime { clock_id: usize, buf: usize },
    Sendmmsg { fd: usize, msgvec: usize, vlen: usize, flags: usize },
    SchedSetattr { pid: isize, attr: usize, flags: u32 },
    SchedGetattr { pid: isize, attr: usize, size: u32, flags: u32 },
    Renameat2 { olddirfd: isize, oldpath: usize, newdirfd: isize, newpath: usize, flags: usize },
    Getrandom { buf: usize, buflen: usize, flags: usize },
    MemfdCreate { name: usize, flags: usize },
    Bpf { cmd: usize, attr: usize, size: usize },
    Userfaultfd { flags: usize },
    IoUringSetup { entries: usize, params: usize },
    OpenTree { dfd: isize, path: usize, flags: usize },
    Fsopen { fs_name: usize, flags: usize },
    Fspick { dfd: isize, path: usize, flags: usize },
    PidfdOpen { pid: usize, flags: usize },
    CloseRange { first: usize, last: usize, flags: usize },
    Statx { dirfd: isize, path: usize, flags: usize, mask: u32, buf: usize },
    Openat2 { dirfd: isize, path: usize, how: usize, size: usize },
    MemfdSecret { flags: usize },
}

/// A position that comes in two halves of 32 bits.
pub open spec fn merged_offset(low: usize, high: usize) -> isize {
    ((((high as u64) << 32) | ((low as u64) & 0xffff_ffff)) as i64) as isize
}

/// A position that comes in two halves of 32 bits.
pub fn merge_offset_arg(low: usize, high: usize) -> (r: isize)
    ensures
        r == merged_offset(low, high),
{
    ((((high as u64) << 32) | ((low as u64) & 0xffff_ffff)) as i64) as isize
}

/// A position that is taken apart into two halves is put together again.
pub proof fn offset_halves_are_merged(offset: u64)
    ensures
        ((offset >> 32) << 32) | ((offset & 0xffff_ffff) & 0xffff_ffff) == offset,
{
    assert(((offset >> 32) << 32) | ((offset & 0xffff_ffff) & 0xffff_ffff) == offset)
        by (bit_vector);
}

/// The calls about extended attributes of files.
pub open spec fn attribute_meaning(id: usize, a: [usize; 6]) -> Option<Syscall> {
    if id == SYSCALL_SETXATTR {
        Some(Syscall::Setxattr { path: a[0], name: a[1], value: a[2], size: a[3], flags: a[4] })
    } else if id == SYSCALL_LSETXATTR {
        Some(Syscall::Lsetxattr { path: a[0], name: a[1], value: a[2], size: a[3], flags: a[4] })
    } else if id == SYSCALL_FSETXATTR {
        Some(Syscall::Fsetxattr { fd: a[0], name: a[1], value: a[2], size: a[3], flags: a[4] })
    } else if id == SYSCALL_GETXATTR {
        Some(Syscall::Getxattr { path: a[0], name: a[1], value: a[2], size: a[3] })
    } else if id == SYSCALL_LGETXATTR {
        Some(Syscall::Lgetxattr { path: a[0], name: a[1], value: a[2], size: a[3] })
    } else if id == SYSCALL_FGETXATTR {
        Some(Syscall::Fgetxattr { fd: a[0], name: a[1], value: a[2], size: a[3] })
    } else if id == SYSCALL_LISTXATTR {
        Some(Syscall::Listxattr { path: a[0], list: a[1], size: a[2] })
    } else if id == SYSCALL_LLISTXATTR {
        Some(Syscall::Llistxattr { path: a[0], list: a[1], size: a[2] })
    } else if id == SYSCALL_FLISTXATTR {
        Some(Syscall::Flistxattr { fd: a[0], list: a[1], size: a[2] })
    } else if id == SYSCALL_REMOVEXATTR {
        Some(Syscall::Removexattr { path: a[0], name: a[1] })
    } else if id == SYSCALL_LREMOVEXATTR {
        Some(Syscall::Lremovexattr { path: a[0], name: a[1] })
    } else if id == SYSCALL_FREMOVEXATTR {
        Some(Syscall::Fremovexattr { fd: a[0], name: a[1] })
    } else {
        None
    }
}

fn attribute_call(id: usize, a: [usize; 6]) -> (r: Option<Syscall>)
    ensures
        r == attribute_meaning(id, a),
{
    if id == SYSCALL_SETXATTR {
        Some(Syscall::Setxattr { path: a[0], name: a[1], value: a[2], size: a[3], flags: a[4] })
    } else if id == SYSCALL_LSETXATTR {
        Some(Syscall::Lsetxattr { path: a[0], name: a[1], value: a[2], size: a[3], flags: a[4] })
    } else if id == SYSCALL_FSETXATTR {
        Some(Syscall::Fsetxattr { fd: a[0], name: a[1], value: a[2], size: a[3], flags: a[4] })
    } else if id == SYSCALL_GETXATTR {
        Some(Syscall::Getxattr { path: a[0], name: a[1], value: a[2], size: a[3] })
    } else if id == SYSCALL_LGETXATTR {
        Some(Syscall::Lgetxattr { path: a[0], name: a[1], value: a[2], size: a[3] })
    } else if id == SYSCALL_FGETXATTR {
        Some(Syscall::Fgetxattr { fd: a[0], name: a[1], value: a[2], size: a[3] })
    } else if id == SYSCALL_LISTXATTR {
        Some(Syscall::Listxattr { path: a[0], list: a[1], size: a[2] })
    } else if id == SYSCALL_LLISTXATTR {
        Some(Syscall::Llistxattr { path: a[0], list: a[1], size: a[2] })
    } else if id == SYSCALL_FLISTXATTR {
        Some(Syscall::Flistxattr { fd: a[0], list: a[1], size: a[2] })
    } else if id == SYSCALL_REMOVEXATTR {
        Some(Syscall::Removexattr { path: a[0], name: a[1] })
    } else if id == SYSCALL_LREMOVEXATTR {
        Some(Syscall::Lremovexattr { path: a[0], name: a[1] })
    } else if id == SYSCALL_FREMOVEXATTR {
        Some(Syscall::Fremovexattr { fd: a[0], name: a[1] })
    } else {
        None
    }
}

/// The calls about files that are named by paths.
pub open spec fn path_meaning(id: usize, a: [usize; 6]) -> Option<Syscall> {
    if id == SYSCALL_GETCWD {
        Some(Syscall::Getcwd { buf: a[0], len: a[1] })
    } else if id == SYSCALL_MKDIRAT {
        Some(Syscall::Mkdirat { dirfd: a[0] as isize, path: a[1], mode: a[2] })
    } else if id == SYSCALL_UNLINKAT {
        Some(Syscall::Unlinkat { dirfd: a[0] as isize, path: a[1], flags: a[2] })
    } else if id == SYSCALL_SYMLINKAT {
        Some(Syscall::Symlinkat { target: a[0], newdirfd: a[1] as isize, linkpath: a[2] })
    } else if id == SYSCALL_LINKAT {
        Some(Syscall::Linkat { olddirfd: a[0] as isize, oldpath: a[1], newdirfd: a[2] as isize, newpath: a[3], flags: a[4] })
    } else if id == SYSCALL_UMOUNT2 {
        Some(Syscall::Umount2 { target: a[0], flags: a[1] })
    } else if id == SYSCALL_MOUNT {
        Some(Syscall::Mount { source: a[0], target: a[1], fstype: a[2], flags: a[3], data: a[4] })
    } else if id == SYSCALL_STATFS {
        Some(Syscall::Statfs { path: a[0], buf: a[1] })
    } else if id == SYSCALL_TRUNCATE {
        Some(Syscall::Truncate { path: a[0], length: a[1] as isize })
    } else if id == SYSCALL_FACCESSAT {
        Some(Syscall::Faccessat { dirfd: a[0] as isize, path: a[1], mode: a[2], flags: 0 })
    } else if id == SYSCALL_FACCESSAT2 {
        Some(Syscall::Faccessat { dirfd: a[0] as isize, path: a[1], mode: a[2], flags: a[3] })
    } else if id == SYSCALL_CHDIR {
        Some(Syscall::Chdir { path: a[0] })
    } else if id == SYSCALL_CHROOT {
        Some(Syscall::Chroot { path: a[0] })
    } else if id == SYSCALL_MKNODAT {
        Some(Syscall::Mknodat { dirfd: a[0] as isize, path: a[1], mode: a[2], dev: a[3] })
    } else if id == SYSCALL_FCHMODAT {
        Some(Syscall::Fchmodat { dirfd: a[0] as isize, path: a[1], mode: a[2] })
    } else if id == SYSCALL_FCHOWNAT {
        Some(Syscall::Fchownat { dirfd: a[0] as isize, path: a[1], owner: a[2], group: a[3], flags: a[4] })
    } else if id == SYSCALL_OPENAT {
        Some(Syscall::Openat { dirfd: a[0] as isize, path: a[1], flags: a[2], mode: a[3] })
    } else if id == SYSCALL_READLINKAT {
        Some(Syscall::Readlinkat { dirfd: a[0] as isize, path: a[1], buf: a[2], bufsize: a[3] })
    } else if id == SYSCALL_FSTATAT {
        Some(Syscall::Fstatat { dirfd: a[0] as isize, path: a[1], stat: a[2], flags: a[3] })
    } else if id == SYSCALL_UTIMENSAT {
        Some(Syscall::Utimensat { dirfd: a[0] as isize, path: a[1], times: a[2], flags: a[3] })
    } else if id == SYSCALL_RENAMEAT2 {
        Some(Syscall::Renameat2 { olddirfd: a[0] as isize, oldpath: a[1], newdirfd: a[2] as isize, newpath: a[3], flags: a[4] })
    } else if id == SYSCALL_OPEN_TREE {
        Some(Syscall::OpenTree { dfd: a[0] as isize, path: a[1], flags: a[2] })
    } else if id == SYSCALL_FSOPEN {
        Some(Syscall::Fsopen { fs_name: a[0], flags: a[1] })
    } else if id == SYSCALL_FSPICK {
        Some(Syscall::Fspick { dfd: a[0] as isize, path: a[1], flags: a[2] })
    } else if id == SYSCALL_STATX {
        Some(Syscall::Statx { dirfd: a[0] as isize, path: a[1], flags: a[2], mask: a[3] as u32, buf: a[4] })
    } else if id == SYSCALL_OPENAT2 {
        Some(Syscall::Openat2 { dirfd: a[0] as isize, path: a[1], how: a[2], size: a[3] })
    } else {
        None
    }
}

fn path_call(id: usize, a: [usize; 6]) -> (r: Option<Syscall>)
    ensures
        r == path_meaning(id, a),
{
    if id == SYSCALL_GETCWD {
        Some(Syscall::Getcwd { buf: a[0], len: a[1] })
    } else if id == SYSCALL_MKDIRAT {
        Some(Syscall::Mkdirat { dirfd: a[0] as isize, path: a[1], mode: a[2] })
    } else if id == SYSCALL_UNLINKAT {
        Some(Syscall::Unlinkat { dirfd: a[0] as isize, path: a[1], flags: a[2] })
    } else if id == SYSCALL_SYMLINKAT {
        Some(Syscall::Symlinkat { target: a[0], newdirfd: a[1] as isize, linkpath: a[2] })
    } else if id == SYSCALL_LINKAT {
        Some(Syscall::Linkat { olddirfd: a[0] as isize, oldpath: a[1], newdirfd: a[2] as isize, newpath: a[3], flags: a[4] })
    } else if id == SYSCALL_UMOUNT2 {
        Some(Syscall::Umount2 { target: a[0], flags: a[1] })
    } else if id == SYSCALL_MOUNT {
        Some(Syscall::Mount { source: a[0], target: a[1], fstype: a[2], flags: a[3], data: a[4] })
    } else if id == SYSCALL_STATFS {
        Some(Syscall::Statfs { path: a[0], buf: a[1] })
    } else if id == SYSCALL_TRUNCATE {
        Some(Syscall::Truncate { path: a[0], length: a[1] as isize })
    } else if id == SYSCALL_FACCESSAT {
        Some(Syscall::Faccessat { dirfd: a[0] as isize, path: a[1], mode: a[2], flags: 0 })
    } else if id == SYSCALL_FACCESSAT2 {
        Some(Syscall::Faccessat { dirfd: a[0] as isize, path: a[1], mode: a[2], flags: a[3] })
    } else if id == SYSCALL_CHDIR {
        Some(Syscall::Chdir { path: a[0] })
    } else if id == SYSCALL_CHROOT {
        Some(Syscall::Chroot { path: a[0] })
    } else if id == SYSCALL_MKNODAT {
        Some(Syscall::Mknodat { dirfd: a[0] as isize, path: a[1], mode: a[2], dev: a[3] })
    } else if id == SYSCALL_FCHMODAT {
        Some(Syscall::Fchmodat { dirfd: a[0] as isize, path: a[1], mode: a[2] })
    } else if id == SYSCALL_FCHOWNAT {
        Some(Syscall::Fchownat { dirfd: a[0] as isize, path: a[1], owner: a[2], group: a[3], flags: a[4] })
    } else if id == SYSCALL_OPENAT {
        Some(Syscall::Openat { dirfd: a[0] as isize, path: a[1], flags: a[2], mode: a[3] })
    } else if id == SYSCALL_READLINKAT {
        Some(Syscall::Readlinkat { dirfd: a[0] as isize, path: a[1], buf: a[2], bufsize: a[3] })
    } else if id == SYSCALL_FSTATAT {
        Some(Syscall::Fstatat { dirfd: a[0] as isize, path: a[1], stat: a[2], flags: a[3] })
    } else if id == SYSCALL_UTIMENSAT {
        Some(Syscall::Utimensat { dirfd: a[0] as isize, path: a[1], times: a[2], flags: a[3] })
    } else if id == SYSCALL_RENAMEAT2 {
        Some(Syscall::Renameat2 { olddirfd: a[0] as isize, oldpath: a[1], newdirfd: a[2] as isize, newpath: a[3], flags: a[4] })
    } else if id == SYSCALL_OPEN_TREE {
        Some(Syscall::OpenTree { dfd: a[0] as isize, path: a[1], flags: a[2] })
    } else if id == SYSCALL_FSOPEN {
        Some(Syscall::Fsopen { fs_name: a[0], flags: a[1] })
    } else if id == SYSCALL_FSPICK {
        Some(Syscall::Fspick { dfd: a[0] as isize, path: a[1], flags: a[2] })
    } else if id == SYSCALL_STATX {
        Some(Syscall::Statx { dirfd: a[0] as isize, path: a[1], flags: a[2], mask: a[3] as u32, buf: a[4] })
    } else if id == SYSCALL_OPENAT2 {
        Some(Syscall::Openat2 { dirfd: a[0] as isize, path: a[1], how: a[2], size: a[3] })
    } else {
        None
    }
}

/// The calls about open files.
pub open spec fn descriptor_meaning(id: usize, a: [usize; 6]) -> Option<Syscall> {
    if id == SYSCALL_DUP {
        Some(Syscall::Dup { fd: a[0] })
    } else if id == SYSCALL_DUP3 {
        Some(Syscall::Dup3 { fd_src: a[0], fd_dst: a[1], flags: a[2] })
    } else if id == SYSCALL_EVENTFD2 {
        Some(Syscall::Eventfd2 { initval: a[0], flags: a[1] })
    } else if id == SYSCALL_EPOLL_CREATE1 {
        Some(Syscall::EpollCreate1 { flags: a[0] })
    } else if id == SYSCALL_INOTIFY_INIT1 {
        Some(Syscall::InotifyInit1 { flags: a[0] })
    } else if id == SYSCALL_FCNTL {
        Some(Syscall::Fcntl { fd: a[0], cmd: a[1], arg: a[2] })
    } else if id == SYSCALL_IOCTL {
        Some(Syscall::Ioctl { fd: a[0], request: a[1], arg: a[2] })
    } else if id == SYSCALL_FLOCK {
        Some(Syscall::Flock { fd: a[0], operation: a[1] })
    } else if id == SYSCALL_FTRUNCATE {
        Some(Syscall::Ftruncate { fd: a[0], length: a[1] as isize })
    } else if id == SYSCALL_FALLOCATE {
        Some(Syscall::Fallocate { fd: a[0], mode: a[1], offset: a[2] as isize, len: a[3] as isize })
    } else if id == SYSCALL_FCHDIR {
        Some(Syscall::Fchdir { fd: a[0] })
    } else if id == SYSCALL_FCHMOD {
        Some(Syscall::Fchmod { fd: a[0], mode: a[1] })
    } else if id == SYSCALL_FCHOWN {
        Some(Syscall::Fchown { fd: a[0], owner: a[1], group: a[2] })
    } else if id == SYSCALL_CLOSE {
        Some(Syscall::Close { fd: a[0] })
    } else if id == SYSCALL_PIPE2 {
        Some(Syscall::Pipe2 { pipefd: a[0], flags: a[1] })
    } else if id == SYSCALL_GETDENTS64 {
        Some(Syscall::Getdents64 { fd: a[0], dirp: a[1], count: a[2] })
    } else if id == SYSCALL_LSEEK {
        Some(Syscall::Lseek { fd: a[0], offset: a[1] as isize, whence: a[2] })
    } else if id == SYSCALL_SIGNALFD4 {
        Some(Syscall::Signalfd4 { fd: a[0] as isize, mask: a[1], sizemask: a[2], flags: a[3] })
    } else if id == SYSCALL_FSTAT {
        Some(Syscall::Fstat { fd: a[0], stat: a[1] })
    } else if id == SYSCALL_FSYNC {
        Some(Syscall::Fsync { fd: a[0] })
    } else if id == SYSCALL_FDATASYNC {
        Some(Syscall::Fdatasync { fd: a[0] })
    } else if id == SYSCALL_SYNC_FILE_RANGE {
        Some(Syscall::SyncFileRange { fd: a[0] as isize, offset: a[1] as isize, nbytes: a[2] as isize, flags: a[3] })
    } else if id == SYSCALL_TIMERFD_CREATE {
        Some(Syscall::TimerfdCreate { clockid: a[0], flags: a[1] })
    } else if id == SYSCALL_TIMERFD_SETTIME {
        Some(Syscall::TimerfdSettime { fd: a[0], flags: a[1], new_value: a[2], old_value: a[3] })
    } else if id == SYSCALL_TIMERFD_GETTIME {
        Some(Syscall::TimerfdGettime { fd: a[0], curr_value: a[1] })
    } else if id == SYSCALL_FSTATFS {
        Some(Syscall::Fstatfs { fd: a[0], buf: a[1] })
    } else if id == SYSCALL_FADVISE64 {
        Some(Syscall::Fadvise64 { fd: a[0], offset: a[1] as isize, len: a[2] as isize, advice: a[3] })
    } else if id == SYSCALL_PERF_EVENT_OPEN {
        Some(Syscall::PerfEventOpen { attr: a[0], pid: a[1] as isize, cpu: a[2] as isize, group_fd: a[3] as isize, flags: a[4] })
    } else if id == SYSCALL_FANOTIFY_INIT {
        Some(Syscall::FanotifyInit { flags: a[0], event_f_flags: a[1] })
    } else if id == SYSCALL_MEMFD_CREATE {
        Some(Syscall::MemfdCreate { name: a[0], flags: a[1] })
    } else if id == SYSCALL_USERFAULTFD {
        Some(Syscall::Userfaultfd { flags: a[0] })
    } else if id == SYSCALL_IO_URING_SETUP {
        Some(Syscall::IoUringSetup { entries: a[0], params: a[1] })
    } else if id == SYSCALL_PIDFD_OPEN {
        Some(Syscall::PidfdOpen { pid: a[0], flags: a[1] })
    } else if id == SYSCALL_CLOSE_RANGE {
        Some(Syscall::CloseRange { first: a[0], last: a[1], flags: a[2] })
    } else if id == SYSCALL_MEMFD_SECRET {
        Some(Syscall::MemfdSecret { flags: a[0] })
    } else {
        None
    }
}

fn descriptor_call(id: usize, a: [usize; 6]) -> (r: Option<Syscall>)
    ensures
        r == descriptor_meaning(id, a),
{
    if id == SYSCALL_DUP {
        Some(Syscall::Dup { fd: a[0] })
    } else if id == SYSCALL_DUP3 {
        Some(Syscall::Dup3 { fd_src: a[0], fd_dst: a[1], flags: a[2] })
    } else if id == SYSCALL_EVENTFD2 {
        Some(Syscall::Eventfd2 { initval: a[0], flags: a[1] })
    } else if id == SYSCALL_EPOLL_CREATE1 {
        Some(Syscall::EpollCreate1 { flags: a[0] })
    } else if id == SYSCALL_INOTIFY_INIT1 {
        Some(Syscall::InotifyInit1 { flags: a[0] })
    } else if id == SYSCALL_FCNTL {
        Some(Syscall::Fcntl { fd: a[0], cmd: a[1], arg: a[2] })
    } else if id == SYSCALL_IOCTL {
        Some(Syscall::Ioctl { fd: a[0], request: a[1], arg: a[2] })
    } else if id == SYSCALL_FLOCK {
        Some(Syscall::Flock { fd: a[0], operation: a[1] })
    } else if id == SYSCALL_FTRUNCATE {
        Some(Syscall::Ftruncate { fd: a[0], length: a[1] as isize })
    } else if id == SYSCALL_FALLOCATE {
        Some(Syscall::Fallocate { fd: a[0], mode: a[1], offset: a[2] as isize, len: a[3] as isize })
    } else if id == SYSCALL_FCHDIR {
        Some(Syscall::Fchdir { fd: a[0] })
    } else if id == SYSCALL_FCHMOD {
        Some(Syscall::Fchmod { fd: a[0], mode: a[1] })
    } else if id == SYSCALL_FCHOWN {
        Some(Syscall::Fchown { fd: a[0], owner: a[1], group: a[2] })
    } else if id == SYSCALL_CLOSE {
        Some(Syscall::Close { fd: a[0] })
    } else if id == SYSCALL_PIPE2 {
        Some(Syscall::Pipe2 { pipefd: a[0], flags: a[1] })
    } else if id == SYSCALL_GETDENTS64 {
        Some(Syscall::Getdents64 { fd: a[0], dirp: a[1], count: a[2] })
    } else if id == SYSCALL_LSEEK {
        Some(Syscall::Lseek { fd: a[0], offset: a[1] as isize, whence: a[2] })
    } else if id == SYSCALL_SIGNALFD4 {
        Some(Syscall::Signalfd4 { fd: a[0] as isize, mask: a[1], sizemask: a[2], flags: a[3] })
    } else if id == SYSCALL_FSTAT {
        Some(Syscall::Fstat { fd: a[0], stat: a[1] })
    } else if id == SYSCALL_FSYNC {
        Some(Syscall::Fsync { fd: a[0] })
    } else if id == SYSCALL_FDATASYNC {
        Some(Syscall::Fdatasync { fd: a[0] })
    } else if id == SYSCALL_SYNC_FILE_RANGE {
        Some(Syscall::SyncFileRange { fd: a[0] as isize, offset: a[1] as isize, nbytes: a[2] as isize, flags: a[3] })
    } else if id == SYSCALL_TIMERFD_CREATE {
        Some(Syscall::TimerfdCreate { clockid: a[0], flags: a[1] })
    } else if id == SYSCALL_TIMERFD_SETTIME {
        Some(Syscall::TimerfdSettime { fd: a[0], flags: a[1], new_value: a[2], old_value: a[3] })
    } else if id == SYSCALL_TIMERFD_GETTIME {
        Some(Syscall::TimerfdGettime { fd: a[0], curr_value: a[1] })
    } else if id == SYSCALL_FSTATFS {
        Some(Syscall::Fstatfs { fd: a[0], buf: a[1] })
    } else if id == SYSCALL_FADVISE64 {
        Some(Syscall::Fadvise64 { fd: a[0], offset: a[1] as isize, len: a[2] as isize, advice: a[3] })
    } else if id == SYSCALL_PERF_EVENT_OPEN {
        Some(Syscall::PerfEventOpen { attr: a[0], pid: a[1] as isize, cpu: a[2] as isize, group_fd: a[3] as isize, flags: a[4] })
    } else if id == SYSCALL_FANOTIFY_INIT {
        Some(Syscall::FanotifyInit { flags: a[0], event_f_flags: a[1] })
    } else if id == SYSCALL_MEMFD_CREATE {
        Some(Syscall::MemfdCreate { name: a[0], flags: a[1] })
    } else if id == SYSCALL_USERFAULTFD {
        Some(Syscall::Userfaultfd { flags: a[0] })
    } else if id == SYSCALL_IO_URING_SETUP {
        Some(Syscall::IoUringSetup { entries: a[0], params: a[1] })
    } else if id == SYSCALL_PIDFD_OPEN {
        Some(Syscall::PidfdOpen { pid: a[0], flags: a[1] })
    } else if id == SYSCALL_CLOSE_RANGE {
        Some(Syscall::CloseRange { first: a[0], last: a[1], flags: a[2] })
    } else if id == SYSCALL_MEMFD_SECRET {
        Some(Syscall::MemfdSecret { flags: a[0] })
    } else {
        None
    }
}

/// The calls about reading and writing.
pub open spec fn transfer_meaning(id: usize, a: [usize; 6]) -> Option<Syscall> {
    if id == SYSCALL_READ {
        Some(Syscall::Read { fd: a[0], buf: a[1], len: a[2] })
    } else if id == SYSCALL_WRITE {
        Some(Syscall::Write { fd: a[0], buf: a[1], len: a[2] })
    } else if id == SYSCALL_READV {
        Some(Syscall::Readv { fd: a[0], iov: a[1], iovcnt: a[2] })
    } else if id == SYSCALL_WRITEV {
        Some(Syscall::Writev { fd: a[0], iov: a[1], iovcnt: a[2] })
    } else if id == SYSCALL_PREADV {
        Some(Syscall::Preadv { fd: a[0], iov_ptr: a[1], iovcnt: a[2], offset: a[3] as isize })
    } else if id == SYSCALL_PWRITEV {
        Some(Syscall::Pwritev { fd: a[0], iov_ptr: a[1], iovcnt: a[2], offset: a[3] as isize })
    } else if id == SYSCALL_SENDFILE {
        Some(Syscall::Sendfile { out_fd: a[0], in_fd: a[1], offset: a[2], count: a[3] })
    } else if id == SYSCALL_PREAD64 {
        Some(Syscall::Pread64 { fd: a[0], buf: a[1], len: a[2], offset: a[3] as isize })
    } else if id == SYSCALL_PWRITE64 {
        Some(Syscall::Pwrite64 { fd: a[0], buf: a[1], len: a[2], offset: a[3] as isize })
    } else if id == SYSCALL_PSELECT6 {
        Some(Syscall::Pselect6 { nfds: a[0], readfds: a[1], writefds: a[2], exceptfds: a[3], timeout: a[4], sigmask: a[5] })
    } else if id == SYSCALL_PPOLL {
        Some(Syscall::Ppoll { fds: a[0], nfds: a[1], timeout: a[2], sigmask: a[3], sigsetsize: a[4] })
    } else if id == SYSCALL_VMSPLICE {
        Some(Syscall::Vmsplice { fd: a[0], iov: a[1], iovcnt: a[2], flags: a[3] })
    } else if id == SYSCALL_SPLICE {
        Some(Syscall::Splice { fd_in: a[0], off_in: a[1], fd_out: a[2], off_out: a[3], len: a[4], flags: a[5] })
    } else if id == SYSCALL_TEE {
        Some(Syscall::Tee { fd_in: a[0], fd_out: a[1], len: a[2], flags: a[3] })
    } else if id == SYSCALL_COPY_FILE_RANGE {
        Some(Syscall::CopyFileRange { fd_in: a[0], off_in: a[1], fd_out: a[2], off_out: a[3], len: a[4], flags: a[5] })
    } else if id == SYSCALL_PREADV2 {
        Some(Syscall::Preadv2 { fd: a[0], iov_ptr: a[1], iovcnt: a[2], offset: merged_offset(a[3], a[4]), flags: a[5] as i32 })
    } else if id == SYSCALL_PWRITEV2 {
        Some(Syscall::Pwritev2 { fd: a[0], iov_ptr: a[1], iovcnt: a[2], offset: merged_offset(a[3], a[4]), flags: a[5] as i32 })
    } else {
        None
    }
}

fn transfer_call(id: usize, a: [usize; 6]) -> (r: Option<Syscall>)
    ensures
        r == transfer_meaning(id, a),
{
    if id == SYSCALL_READ {
        Some(Syscall::Read { fd: a[0], buf: a[1], len: a[2] })
    } else if id == SYSCALL_WRITE {
        Some(Syscall::Write { fd: a[0], buf: a[1], len: a[2] })
    } else if id == SYSCALL_READV {
        Some(Syscall::Readv { fd: a[0], iov: a[1], iovcnt: a[2] })
    } else if id == SYSCALL_WRITEV {
        Some(Syscall::Writev { fd: a[0], iov: a[1], iovcnt: a[2] })
    } else if id == SYSCALL_PREADV {
        Some(Syscall::Preadv { fd: a[0], iov_ptr: a[1], iovcnt: a[2], offset: a[3] as isize })
    } else if id == SYSCALL_PWRITEV {
        Some(Syscall::Pwritev { fd: a[0], iov_ptr: a[1], iovcnt: a[2], offset: a[3] as isize })
    } else if id == SYSCALL_SENDFILE {
        Some(Syscall::Sendfile { out_fd: a[0], in_fd: a[1], offset: a[2], count: a[3] })
    } else if id == SYSCALL_PREAD64 {
        Some(Syscall::Pread64 { fd: a[0], buf: a[1], len: a[2], offset: a[3] as isize })
    } else if id == SYSCALL_PWRITE64 {
        Some(Syscall::Pwrite64 { fd: a[0], buf: a[1], len: a[2], offset: a[3] as isize })
    } else if id == SYSCALL_PSELECT6 {
        Some(Syscall::Pselect6 { nfds: a[0], readfds: a[1], writefds: a[2], exceptfds: a[3], timeout: a[4], sigmask: a[5] })
    } else if id == SYSCALL_PPOLL {
        Some(Syscall::Ppoll { fds: a[0], nfds: a[1], timeout: a[2], sigmask: a[3], sigsetsize: a[4] })
    } else if id == SYSCALL_VMSPLICE {
        Some(Syscall::Vmsplice { fd: a[0], iov: a[1], iovcnt: a[2], flags: a[3] })
    } else if id == SYSCALL_SPLICE {
        Some(Syscall::Splice { fd_in: a[0], off_in: a[1], fd_out: a[2], off_out: a[3], len: a[4], flags: a[5] })
    } else if id == SYSCALL_TEE {
        Some(Syscall::Tee { fd_in: a[0], fd_out: a[1], len: a[2], flags: a[3] })
    } else if id == SYSCALL_COPY_FILE_RANGE {
        Some(Syscall::CopyFileRange { fd_in: a[0], off_in: a[1], fd_out: a[2], off_out: a[3], len: a[4], flags: a[5] })
    } else if id == SYSCALL_PREADV2 {
        Some(Syscall::Preadv2 { fd: a[0], iov_ptr: a[1], iovcnt: a[2], offset: merge_offset_arg(a[3], a[4]), flags: a[5] as i32 })
    } else if id == SYSCALL_PWRITEV2 {
        Some(Syscall::Pwritev2 { fd: a[0], iov_ptr: a[1], iovcnt: a[2], offset: merge_offset_arg(a[3], a[4]), flags: a[5] as i32 })
    } else {
        None
    }
}

/// The calls about processes and what belongs to them.
pub open spec fn process_meaning(id: usize, a: [usize; 6]) -> Option<Syscall> {
    if id == SYSCALL_CAPGET {
        Some(Syscall::Capget { hdrp: a[0], datap: a[1] })
    } else if id == SYSCALL_CAPSET {
        Some(Syscall::Capset { hdrp: a[0], datap: a[1] })
    } else if id == SYSCALL_PERSONALITY {
        Some(Syscall::Personality { persona: a[0] })
    } else if id == SYSCALL_EXIT {
        Some(Syscall::Exit { exit_code: a[0] as i32 })
    } else if id == SYSCALL_EXIT_GROUP {
        Some(Syscall::ExitGroup { exit_code: a[0] as i32 })
    } else if id == SYSCALL_WAITID {
        Some(Syscall::Waitid { idtype: a[0], id: a[1], infop: a[2], options: a[3], rusage: a[4] })
    } else if id == SYSCALL_SET_TID_ADDRESS {
        Some(Syscall::SetTidAddress { tidptr: a[0] })
    } else if id == SYSCALL_FUTEX {
        Some(Syscall::Futex { uaddr: a[0], futex_op: a[1], val: a[2], timeout: a[3], uaddr2: a[4], val3: a[5] })
    } else if id == SYSCALL_SET_ROBUST_LIST {
        Some(Syscall::SetRobustList { head: a[0], len: a[1] })
    } else if id == SYSCALL_GET_ROBUST_LIST {
        Some(Syscall::GetRobustList { pid: a[0], head_ptr: a[1], len_ptr: a[2] })
    } else if id == SYSCALL_SETPRIORITY {
        Some(Syscall::Setpriority { which: a[0], who: a[1], prio: a[2] as isize })
    } else if id == SYSCALL_GETPRIORITY {
        Some(Syscall::Getpriority { which: a[0], who: a[1] })
    } else if id == SYSCALL_TIMES {
        Some(Syscall::Times { buf: a[0] })
    } else if id == SYSCALL_SETPGID {
        Some(Syscall::Setpgid { pid: a[0], pgid: a[1] })
    } else if id == SYSCALL_GETPGID {
        Some(Syscall::Getpgid { pid: a[0] })
    } else if id == SYSCALL_SETSID {
        Some(Syscall::Setsid)
    } else if id == SYSCALL_GETGROUPS {
        Some(Syscall::Getgroups { size: a[0], list: a[1] })
    } else if id == SYSCALL_SETGROUPS {
        Some(Syscall::Setgroups { size: a[0], list: a[1] })
    } else if id == SYSCALL_GETRLIMIT {
        Some(Syscall::Getrlimit { resource: a[0], old_limit: a[1] })
    } else if id == SYSCALL_SETRLIMIT {
        Some(Syscall::Setrlimit { resource: a[0], new_limit: a[1] })
    } else if id == SYSCALL_GETRUSAGE {
        Some(Syscall::Getrusage { who: a[0] as isize, usage: a[1] })
    } else if id == SYSCALL_UMASK {
        Some(Syscall::Umask { mask: a[0] })
    } else if id == SYSCALL_GETPID {
        Some(Syscall::Getpid)
    } else if id == SYSCALL_GETPPID {
        Some(Syscall::Getppid)
    } else if id == SYSCALL_GETTID {
        Some(Syscall::Gettid)
    } else if id == SYSCALL_CLONE {
        Some(Syscall::Clone { flags: a[0], stack: a[1], ptid: a[2], arg3: a[3], arg4: a[4] })
    } else if id == SYSCALL_EXECVE {
        Some(Syscall::Execve { path: a[0], args: a[1], envp: a[2] })
    } else if id == SYSCALL_EXECVEAT {
        Some(Syscall::Execveat { dirfd: a[0] as isize, path: a[1], args: a[2], envp: a[3], flags: a[4] })
    } else if id == SYSCALL_WAIT4 {
        Some(Syscall::Wait4 { pid: a[0] as isize, exit_code_ptr: a[1], options: a[2], rusage: a[3] })
    } else if id == SYSCALL_PRLIMIT64 {
        Some(Syscall::Prlimit64 { pid: a[0], resource: a[1], new_limit: a[2], old_limit: a[3] })
    } else {
        None
    }
}

fn process_call(id: usize, a: [usize; 6]) -> (r: Option<Syscall>)
    ensures
        r == process_meaning(id, a),
{
    if id == SYSCALL_CAPGET {
        Some(Syscall::Capget { hdrp: a[0], datap: a[1] })
    } else if id == SYSCALL_CAPSET {
        Some(Syscall::Capset { hdrp: a[0], datap: a[1] })
    } else if id == SYSCALL_PERSONALITY {
        Some(Syscall::Personality { persona: a[0] })
    } else if id == SYSCALL_EXIT {
        Some(Syscall::Exit { exit_code: a[0] as i32 })
    } else if id == SYSCALL_EXIT_GROUP {
        Some(Syscall::ExitGroup { exit_code: a[0] as i32 })
    } else if id == SYSCALL_WAITID {
        Some(Syscall::Waitid { idtype: a[0], id: a[1], infop: a[2], options: a[3], rusage: a[4] })
    } else if id == SYSCALL_SET_TID_ADDRESS {
        Some(Syscall::SetTidAddress { tidptr: a[0] })
    } else if id == SYSCALL_FUTEX {
        Some(Syscall::Futex { uaddr: a[0], futex_op: a[1], val: a[2], timeout: a[3], uaddr2: a[4], val3: a[5] })
    } else if id == SYSCALL_SET_ROBUST_LIST {
        Some(Syscall::SetRobustList { head: a[0], len: a[1] })
    } else if id == SYSCALL_GET_ROBUST_LIST {
        Some(Syscall::GetRobustList { pid: a[0], head_ptr: a[1], len_ptr: a[2] })
    } else if id == SYSCALL_SETPRIORITY {
        Some(Syscall::Setpriority { which: a[0], who: a[1], prio: a[2] as isize })
    } else if id == SYSCALL_GETPRIORITY {
        Some(Syscall::Getpriority { which: a[0], who: a[1] })
    } else if id == SYSCALL_TIMES {
        Some(Syscall::Times { buf: a[0] })
    } else if id == SYSCALL_SETPGID {
        Some(Syscall::Setpgid { pid: a[0], pgid: a[1] })
    } else if id == SYSCALL_GETPGID {
        Some(Syscall::Getpgid { pid: a[0] })
    } else if id == SYSCALL_SETSID {
        Some(Syscall::Setsid)
    } else if id == SYSCALL_GETGROUPS {
        Some(Syscall::Getgroups { size: a[0], list: a[1] })
    } else if id == SYSCALL_SETGROUPS {
        Some(Syscall::Setgroups { size: a[0], list: a[1] })
    } else if id == SYSCALL_GETRLIMIT {
        Some(Syscall::Getrlimit { resource: a[0], old_limit: a[1] })
    } else if id == SYSCALL_SETRLIMIT {
        Some(Syscall::Setrlimit { resource: a[0], new_limit: a[1] })
    } else if id == SYSCALL_GETRUSAGE {
        Some(Syscall::Getrusage { who: a[0] as isize, usage: a[1] })
    } else if id == SYSCALL_UMASK {
        Some(Syscall::Umask { mask: a[0] })
    } else if id == SYSCALL_GETPID {
        Some(Syscall::Getpid)
    } else if id == SYSCALL_GETPPID {
        Some(Syscall::Getppid)
    } else if id == SYSCALL_GETTID {
        Some(Syscall::Gettid)
    } else if id == SYSCALL_CLONE {
        Some(Syscall::Clone { flags: a[0], stack: a[1], ptid: a[2], arg3: a[3], arg4: a[4] })
    } else if id == SYSCALL_EXECVE {
        Some(Syscall::Execve { path: a[0], args: a[1], envp: a[2] })
    } else if id == SYSCALL_EXECVEAT {
        Some(Syscall::Execveat { dirfd: a[0] as isize, path: a[1], args: a[2], envp: a[3], flags: a[4] })
    } else if id == SYSCALL_WAIT4 {
        Some(Syscall::Wait4 { pid: a[0] as isize, exit_code_ptr: a[1], options: a[2], rusage: a[3] })
    } else if id == SYSCALL_PRLIMIT64 {
        Some(Syscall::Prlimit64 { pid: a[0], resource: a[1], new_limit: a[2], old_limit: a[3] })
    } else {
        None
    }
}

/// The calls about users and groups.
pub open spec fn credential_meaning(id: usize, a: [usize; 6]) -> Option<Syscall> {
    if id == SYSCALL_SETREGID {
        Some(Syscall::Setregid { rgid: a[0], egid: a[1] })
    } else if id == SYSCALL_SETGID {
        Some(Syscall::Setgid { gid: a[0] })
    } else if id == SYSCALL_SETREUID {
        Some(Syscall::Setreuid { ruid: a[0], euid: a[1] })
    } else if id == SYSCALL_SETUID {
        Some(Syscall::Setuid { uid: a[0] })
    } else if id == SYSCALL_SETRESUID {
        Some(Syscall::Setresuid { ruid: a[0], euid: a[1], suid: a[2] })
    } else if id == SYSCALL_GETRESUID {
        Some(Syscall::Getresuid { ruid: a[0], euid: a[1], suid: a[2] })
    } else if id == SYSCALL_SETRESGID {
        Some(Syscall::Setresgid { rgid: a[0], egid: a[1], sgid: a[2] })
    } else if id == SYSCALL_GETRESGID {
        Some(Syscall::Getresgid { rgid: a[0], egid: a[1], sgid: a[2] })
    } else if id == SYSCALL_SETFSUID {
        Some(Syscall::Setfsuid { uid: a[0] })
    } else if id == SYSCALL_SETFSGID {
        Some(Syscall::Setfsgid { gid: a[0] })
    } else if id == SYSCALL_GETUID {
        Some(Syscall::Getuid)
    } else if id == SYSCALL_GETEUID {
        Some(Syscall::Geteuid)
    } else if id == SYSCALL_GETGID {
        Some(Syscall::Getgid)
    } else if id == SYSCALL_GETEGID {
        Some(Syscall::Getegid)
    } else {
        None
    }
}

fn credential_call(id: usize, a: [usize; 6]) -> (r: Option<Syscall>)
    ensures
        r == credential_meaning(id, a),
{
    if id == SYSCALL_SETREGID {
        Some(Syscall::Setregid { rgid: a[0], egid: a[1] })
    } else if id == SYSCALL_SETGID {
        Some(Syscall::Setgid { gid: a[0] })
    } else if id == SYSCALL_SETREUID {
        Some(Syscall::Setreuid { ruid: a[0], euid: a[1] })
    } else if id == SYSCALL_SETUID {
        Some(Syscall::Setuid { uid: a[0] })
    } else if id == SYSCALL_SETRESUID {
        Some(Syscall::Setresuid { ruid: a[0], euid: a[1], suid: a[2] })
    } else if id == SYSCALL_GETRESUID {
        Some(Syscall::Getresuid { ruid: a[0], euid: a[1], suid: a[2] })
    } else if id == SYSCALL_SETRESGID {
        Some(Syscall::Setresgid { rgid: a[0], egid: a[1], sgid: a[2] })
    } else if id == SYSCALL_GETRESGID {
        Some(Syscall::Getresgid { rgid: a[0], egid: a[1], sgid: a[2] })
    } else if id == SYSCALL_SETFSUID {
        Some(Syscall::Setfsuid { uid: a[0] })
    } else if id == SYSCALL_SETFSGID {
        Some(Syscall::Setfsgid { gid: a[0] })
    } else if id == SYSCALL_GETUID {
        Some(Syscall::Getuid)
    } else if id == SYSCALL_GETEUID {
        Some(Syscall::Geteuid)
    } else if id == SYSCALL_GETGID {
        Some(Syscall::Getgid)
    } else if id == SYSCALL_GETEGID {
        Some(Syscall::Getegid)
    } else {
        None
    }
}

/// The calls about clocks and timers.
pub open spec fn time_meaning(id: usize, a: [usize; 6]) -> Option<Syscall> {
    if id == SYSCALL_NANOSLEEP {
        Some(Syscall::Nanosleep { req: a[0], rem: a[1] })
    } else if id == SYSCALL_GETITIMER {
        Some(Syscall::Getitimer { which: a[0], curr_value: a[1] })
    } else if id == SYSCALL_SETITIMER {
        Some(Syscall::Setitimer { which: a[0], new_value: a[1], old_value: a[2] })
    } else if id == SYSCALL_TIMER_CREATE {
        Some(Syscall::TimerCreate { clock_id: a[0], sevp: a[1], timerid: a[2] })
    } else if id == SYSCALL_TIMER_GETTIME {
        Some(Syscall::TimerGettime { timerid: a[0], curr_value: a[1] })
    } else if id == SYSCALL_TIMER_GETOVERRUN {
        Some(Syscall::TimerGetoverrun { timerid: a[0] })
    } else if id == SYSCALL_TIMER_SETTIME {
        Some(Syscall::TimerSettime { timerid: a[0], flags: a[1], new_value: a[2], old_value: a[3] })
    } else if id == SYSCALL_TIMER_DELETE {
        Some(Syscall::TimerDelete { timerid: a[0] })
    } else if id == SYSCALL_CLOCK_SETTIME {
        Some(Syscall::ClockSettime { clock_id: a[0], tp: a[1] })
    } else if id == SYSCALL_CLOCK_GETTIME {
        Some(Syscall::ClockGettime { clock_id: a[0], tp: a[1] })
    } else if id == SYSCALL_CLOCK_GETRES {
        Some(Syscall::ClockGetres { clock_id: a[0], res: a[1] })
    } else if id == SYSCALL_CLOCK_NANOSLEEP {
        Some(Syscall::ClockNanosleep { clock_id: a[0], flags: a[1], req: a[2], rem: a[3] })
    } else if id == SYSCALL_GETTIMEOFDAY {
        Some(Syscall::Gettimeofday { tv: a[0], tz: a[1] })
    } else if id == SYSCALL_SETTIMEOFDAY {
        Some(Syscall::Settimeofday { tv: a[0], tz: a[1] })
    } else if id == SYSCALL_ADJTIMEX {
        Some(Syscall::Adjtimex { buf: a[0] })
    } else if id == SYSCALL_CLOCK_ADJTIME {
        Some(Syscall::ClockAdjtime { clock_id: a[0], buf: a[1] })
    } else {
        None
    }
}

fn time_call(id: usize, a: [usize; 6]) -> (r: Option<Syscall>)
    ensures
        r == time_meaning(id, a),
{
    if id == SYSCALL_NANOSLEEP {
        Some(Syscall::Nanosleep { req: a[0], rem: a[1] })
    } else if id == SYSCALL_GETITIMER {
        Some(Syscall::Getitimer { which: a[0], curr_value: a[1] })
    } else if id == SYSCALL_SETITIMER {
        Some(Syscall::Setitimer { which: a[0], new_value: a[1], old_value: a[2] })
    } else if id == SYSCALL_TIMER_CREATE {
        Some(Syscall::TimerCreate { clock_id: a[0], sevp: a[1], timerid: a[2] })
    } else if id == SYSCALL_TIMER_GETTIME {
        Some(Syscall::TimerGettime { timerid: a[0], curr_value: a[1] })
    } else if id == SYSCALL_TIMER_GETOVERRUN {
        Some(Syscall::TimerGetoverrun { timerid: a[0] })
    } else if id == SYSCALL_TIMER_SETTIME {
        Some(Syscall::TimerSettime { timerid: a[0], flags: a[1], new_value: a[2], old_value: a[3] })
    } else if id == SYSCALL_TIMER_DELETE {
        Some(Syscall::TimerDelete { timerid: a[0] })
    } else if id == SYSCALL_CLOCK_SETTIME {
        Some(Syscall::ClockSettime { clock_id: a[0], tp: a[1] })
    } else if id == SYSCALL_CLOCK_GETTIME {
        Some(Syscall::ClockGettime { clock_id: a[0], tp: a[1] })
    } else if id == SYSCALL_CLOCK_GETRES {
        Some(Syscall::ClockGetres { clock_id: a[0], res: a[1] })
    } else if id == SYSCALL_CLOCK_NANOSLEEP {
        Some(Syscall::ClockNanosleep { clock_id: a[0], flags: a[1], req: a[2], rem: a[3] })
    } else if id == SYSCALL_GETTIMEOFDAY {
        Some(Syscall::Gettimeofday { tv: a[0], tz: a[1] })
    } else if id == SYSCALL_SETTIMEOFDAY {
        Some(Syscall::Settimeofday { tv: a[0], tz: a[1] })
    } else if id == SYSCALL_ADJTIMEX {
        Some(Syscall::Adjtimex { buf: a[0] })
    } else if id == SYSCALL_CLOCK_ADJTIME {
        Some(Syscall::ClockAdjtime { clock_id: a[0], buf: a[1] })
    } else {
        None
    }
}

/// The calls about scheduling.
pub open spec fn schedule_meaning(id: usize, a: [usize; 6]) -> Option<Syscall> {
    if id == SYSCALL_SCHED_SETPARAM {
        Some(Syscall::SchedSetparam { pid: a[0] as isize, param: a[1] })
    } else if id == SYSCALL_SCHED_SETSCHEDULER {
        Some(Syscall::SchedSetscheduler { pid: a[0] as isize, policy: a[1], param: a[2] })
    } else if id == SYSCALL_SCHED_GETSCHEDULER {
        Some(Syscall::SchedGetscheduler { pid: a[0] as isize })
    } else if id == SYSCALL_SCHED_GETPARAM {
        Some(Syscall::SchedGetparam { pid: a[0] as isize, param: a[1] })
    } else if id == SYSCALL_SCHED_SETAFFINITY {
        Some(Syscall::SchedSetaffinity { pid: a[0] as isize, cpusetsize: a[1], mask: a[2] })
    } else if id == SYSCALL_SCHED_GETAFFINITY {
        Some(Syscall::SchedGetaffinity { pid: a[0] as isize, cpusetsize: a[1], mask: a[2] })
    } else if id == SYSCALL_SCHED_YIELD {
        Some(Syscall::SchedYield)
    } else if id == SYSCALL_SCHED_GET_PRIORITY_MAX {
        Some(Syscall::SchedGetPriorityMax { policy: a[0] as isize })
    } else if id == SYSCALL_SCHED_GET_PRIORITY_MIN {
        Some(Syscall::SchedGetPriorityMin { policy: a[0] as isize })
    } else if id == SYSCALL_SCHED_RR_GET_INTERVAL {
        Some(Syscall::SchedRrGetInterval { pid: a[0] as isize, interval: a[1] })
    } else if id == SYSCALL_SCHED_SETATTR {
        Some(Syscall::SchedSetattr { pid: a[0] as isize, attr: a[1], flags: a[2] as u32 })
    } else if id == SYSCALL_SCHED_GETATTR {
        Some(Syscall::SchedGetattr { pid: a[0] as isize, attr: a[1], size: a[2] as u32, flags: a[3] as u32 })
    } else {
        None
    }
}

fn schedule_call(id: usize, a: [usize; 6]) -> (r: Option<Syscall>)
    ensures
        r == schedule_meaning(id, a),
{
    if id == SYSCALL_SCHED_SETPARAM {
        Some(Syscall::SchedSetparam { pid: a[0] as isize, param: a[1] })
    } else if id == SYSCALL_SCHED_SETSCHEDULER {
        Some(Syscall::SchedSetscheduler { pid: a[0] as isize, policy: a[1], param: a[2] })
    } else if id == SYSCALL_SCHED_GETSCHEDULER {
        Some(Syscall::SchedGetscheduler { pid: a[0] as isize })
    } else if id == SYSCALL_SCHED_GETPARAM {
        Some(Syscall::SchedGetparam { pid: a[0] as isize, param: a[1] })
    } else if id == SYSCALL_SCHED_SETAFFINITY {
        Some(Syscall::SchedSetaffinity { pid: a[0] as isize, cpusetsize: a[1], mask: a[2] })
    } else if id == SYSCALL_SCHED_GETAFFINITY {
        Some(Syscall::SchedGetaffinity { pid: a[0] as isize, cpusetsize: a[1], mask: a[2] })
    } else if id == SYSCALL_SCHED_YIELD {
        Some(Syscall::SchedYield)
    } else if id == SYSCALL_SCHED_GET_PRIORITY_MAX {
        Some(Syscall::SchedGetPriorityMax { policy: a[0] as isize })
    } else if id == SYSCALL_SCHED_GET_PRIORITY_MIN {
        Some(Syscall::SchedGetPriorityMin { policy: a[0] as isize })
    } else if id == SYSCALL_SCHED_RR_GET_INTERVAL {
        Some(Syscall::SchedRrGetInterval { pid: a[0] as isize, interval: a[1] })
    } else if id == SYSCALL_SCHED_SETATTR {
        Some(Syscall::SchedSetattr { pid: a[0] as isize, attr: a[1], flags: a[2] as u32 })
    } else if id == SYSCALL_SCHED_GETATTR {
        Some(Syscall::SchedGetattr { pid: a[0] as isize, attr: a[1], size: a[2] as u32, flags: a[3] as u32 })
    } else {
        None
    }
}

/// The calls about signals.
pub open spec fn signal_meaning(id: usize, a: [usize; 6]) -> Option<Syscall> {
    if id == SYSCALL_KILL {
        Some(Syscall::Kill { pid: a[0], signum: a[1] as i32 })
    } else if id == SYSCALL_TKILL {
        Some(Syscall::Tkill { tid: a[0], signum: a[1] as i32 })
    } else if id == SYSCALL_TGKILL {
        Some(Syscall::Tgkill { tgid: a[0], tid: a[1], signum: a[2] as i32 })
    } else if id == SYSCALL_SIGALTSTACK {
        Some(Syscall::Sigaltstack { new_stack: a[0], old_stack: a[1] })
    } else if id == SYSCALL_RT_SIGSUSPEND {
        Some(Syscall::RtSigsuspend { mask: a[0], sigsetsize: a[1] })
    } else if id == SYSCALL_SIGACTION {
        Some(Syscall::Sigaction { signum: a[0] as i32, act: a[1], oldact: a[2], sigsetsize: a[3] })
    } else if id == SYSCALL_SIGPROCMASK {
        Some(Syscall::Sigprocmask { how: a[0], set: a[1], oldset: a[2], sigsetsize: a[3] })
    } else if id == SYSCALL_RT_SIGPENDING {
        Some(Syscall::RtSigpending { set: a[0], sigsetsize: a[1] })
    } else if id == SYSCALL_RT_SIGTIMEDWAIT {
        Some(Syscall::RtSigtimedwait { set_ptr: a[0], info_ptr: a[1], timeout_ptr: a[2], sigsetsize: a[3] })
    } else if id == SYSCALL_RT_SIGQUEUEINFO {
        Some(Syscall::RtSigqueueinfo { tgid: a[0], signum: a[1] as i32, uinfo: a[2] })
    } else if id == SYSCALL_SIGRETURN {
        Some(Syscall::Sigreturn)
    } else {
        None
    }
}

fn signal_call(id: usize, a: [usize; 6]) -> (r: Option<Syscall>)
    ensures
        r == signal_meaning(id, a),
{
    if id == SYSCALL_KILL {
        Some(Syscall::Kill { pid: a[0], signum: a[1] as i32 })
    } else if id == SYSCALL_TKILL {
        Some(Syscall::Tkill { tid: a[0], signum: a[1] as i32 })
    } else if id == SYSCALL_TGKILL {
        Some(Syscall::Tgkill { tgid: a[0], tid: a[1], signum: a[2] as i32 })
    } else if id == SYSCALL_SIGALTSTACK {
        Some(Syscall::Sigaltstack { new_stack: a[0], old_stack: a[1] })
    } else if id == SYSCALL_RT_SIGSUSPEND {
        Some(Syscall::RtSigsuspend { mask: a[0], sigsetsize: a[1] })
    } else if id == SYSCALL_SIGACTION {
        Some(Syscall::Sigaction { signum: a[0] as i32, act: a[1], oldact: a[2], sigsetsize: a[3] })
    } else if id == SYSCALL_SIGPROCMASK {
        Some(Syscall::Sigprocmask { how: a[0], set: a[1], oldset: a[2], sigsetsize: a[3] })
    } else if id == SYSCALL_RT_SIGPENDING {
        Some(Syscall::RtSigpending { set: a[0], sigsetsize: a[1] })
    } else if id == SYSCALL_RT_SIGTIMEDWAIT {
        Some(Syscall::RtSigtimedwait { set_ptr: a[0], info_ptr: a[1], timeout_ptr: a[2], sigsetsize: a[3] })
    } else if id == SYSCALL_RT_SIGQUEUEINFO {
        Some(Syscall::RtSigqueueinfo { tgid: a[0], signum: a[1] as i32, uinfo: a[2] })
    } else if id == SYSCALL_SIGRETURN {
        Some(Syscall::Sigreturn)
    } else {
        None
    }
}

/// The calls about memory.
pub open spec fn memory_meaning(id: usize, a: [usize; 6]) -> Option<Syscall> {
    if id == SYSCALL_SHMGET {
        Some(Syscall::Shmget { key: a[0] as isize, size: a[1], shmflg: a[2] })
    } else if id == SYSCALL_SHMCTL {
        Some(Syscall::Shmctl { shmid: a[0], cmd: a[1], buf: a[2] })
    } else if id == SYSCALL_SHMAT {
        Some(Syscall::Shmat { shmid: a[0], shmaddr: a[1], shmflg: a[2] })
    } else if id == SYSCALL_SHMDT {
        Some(Syscall::Shmdt { shmaddr: a[0] })
    } else if id == SYSCALL_BRK {
        Some(Syscall::Brk { addr: a[0] })
    } else if id == SYSCALL_MUNMAP {
        Some(Syscall::Munmap { addr: a[0], len: a[1] })
    } else if id == SYSCALL_MMAP {
        Some(Syscall::Mmap { addr: a[0], len: a[1], prot: a[2], flags: a[3], fd: a[4] as isize, offset: a[5] })
    } else if id == SYSCALL_MPROTECT {
        Some(Syscall::Mprotect { addr: a[0], len: a[1], prot: a[2] as u32 })
    } else if id == SYSCALL_MREMAP {
        Some(Syscall::Mremap { old_addr: a[0], old_size: a[1], new_size: a[2], flags: a[3], new_addr: a[4] })
    } else if id == SYSCALL_MSYNC {
        Some(Syscall::Msync { addr: a[0], len: a[1], flags: a[2] as i32 })
    } else if id == SYSCALL_MLOCK {
        Some(Syscall::Mlock { addr: a[0], len: a[1] })
    } else if id == SYSCALL_MUNLOCK {
        Some(Syscall::Munlock { addr: a[0], len: a[1] })
    } else if id == SYSCALL_MADVISE {
        Some(Syscall::Madvise { addr: a[0], len: a[1], advice: a[2] as i32 })
    } else if id == SYSCALL_GET_MEMPOLICY {
        Some(Syscall::GetMempolicy { mode: a[0], nodemask: a[1], maxnode: a[2], addr: a[3], flags: a[4] })
    } else {
        None
    }
}

fn memory_call(id: usize, a: [usize; 6]) -> (r: Option<Syscall>)
    ensures
        r == memory_meaning(id, a),
{
    if id == SYSCALL_SHMGET {
        Some(Syscall::Shmget { key: a[0] as isize, size: a[1], shmflg: a[2] })
    } else if id == SYSCALL_SHMCTL {
        Some(Syscall::Shmctl { shmid: a[0], cmd: a[1], buf: a[2] })
    } else if id == SYSCALL_SHMAT {
        Some(Syscall::Shmat { shmid: a[0], shmaddr: a[1], shmflg: a[2] })
    } else if id == SYSCALL_SHMDT {
        Some(Syscall::Shmdt { shmaddr: a[0] })
    } else if id == SYSCALL_BRK {
        Some(Syscall::Brk { addr: a[0] })
    } else if id == SYSCALL_MUNMAP {
        Some(Syscall::Munmap { addr: a[0], len: a[1] })
    } else if id == SYSCALL_MMAP {
        Some(Syscall::Mmap { addr: a[0], len: a[1], prot: a[2], flags: a[3], fd: a[4] as isize, offset: a[5] })
    } else if id == SYSCALL_MPROTECT {
        Some(Syscall::Mprotect { addr: a[0], len: a[1], prot: a[2] as u32 })
    } else if id == SYSCALL_MREMAP {
        Some(Syscall::Mremap { old_addr: a[0], old_size: a[1], new_size: a[2], flags: a[3], new_addr: a[4] })
    } else if id == SYSCALL_MSYNC {
        Some(Syscall::Msync { addr: a[0], len: a[1], flags: a[2] as i32 })
    } else if id == SYSCALL_MLOCK {
        Some(Syscall::Mlock { addr: a[0], len: a[1] })
    } else if id == SYSCALL_MUNLOCK {
        Some(Syscall::Munlock { addr: a[0], len: a[1] })
    } else if id == SYSCALL_MADVISE {
        Some(Syscall::Madvise { addr: a[0], len: a[1], advice: a[2] as i32 })
    } else if id == SYSCALL_GET_MEMPOLICY {
        Some(Syscall::GetMempolicy { mode: a[0], nodemask: a[1], maxnode: a[2], addr: a[3], flags: a[4] })
    } else {
        None
    }
}

/// The calls about sockets.
pub open spec fn socket_meaning(id: usize, a: [usize; 6]) -> Option<Syscall> {
    if id == SYSCALL_SOCKET {
        Some(Syscall::Socket { domain: a[0], socket_type: a[1], protocol: a[2] })
    } else if id == SYSCALL_SOCKETPAIR {
        Some(Syscall::Socketpair { domain: a[0], socket_type: a[1], protocol: a[2], sv: a[3] })
    } else if id == SYSCALL_BIND {
        Some(Syscall::Bind { socketfd: a[0], socketaddr: a[1], socketlen: a[2] })
    } else if id == SYSCALL_LISTEN {
        Some(Syscall::Listen { socketfd: a[0], backlog: a[1] })
    } else if id == SYSCALL_ACCEPT {
        Some(Syscall::Accept { socketfd: a[0], addr: a[1], addrlen: a[2] })
    } else if id == SYSCALL_CONNECT {
        Some(Syscall::Connect { socketfd: a[0], addr: a[1], addrlen: a[2] })
    } else if id == SYSCALL_GETSOCKNAME {
        Some(Syscall::Getsockname { socketfd: a[0], addr: a[1], addrlen: a[2] })
    } else if id == SYSCALL_GETPEERNAME {
        Some(Syscall::Getpeername { socketfd: a[0], addr: a[1], addrlen: a[2] })
    } else if id == SYSCALL_SENDTO {
        Some(Syscall::Sendto { fd: a[0], buf: a[1], len: a[2], flags: a[3], dest_addr: a[4], addrlen: a[5] })
    } else if id == SYSCALL_RECVFROM {
        Some(Syscall::Recvfrom { fd: a[0], buf: a[1], len: a[2], flags: a[3], src_addr: a[4], addrlen: a[5] })
    } else if id == SYSCALL_SETSOCKOPT {
        Some(Syscall::Setsockopt { fd: a[0], level: a[1], optname: a[2], optval: a[3], optlen: a[4] })
    } else if id == SYSCALL_GETSOCKOPT {
        Some(Syscall::Getsockopt { fd: a[0], level: a[1], optname: a[2], optval: a[3], optlen: a[4] })
    } else if id == SYSCALL_SHUTDOWN {
        Some(Syscall::Shutdown { fd: a[0], how: a[1] })
    } else if id == SYSCALL_SENDMSG {
        Some(Syscall::Sendmsg { fd: a[0], msg: a[1], flags: a[2] })
    } else if id == SYSCALL_RECVMSG {
        Some(Syscall::Recvmsg { fd: a[0], msg: a[1], flags: a[2] })
    } else if id == SYSCALL_ACCEPT4 {
        Some(Syscall::Accept4 { socketfd: a[0], addr: a[1], addrlen: a[2], flags: a[3] })
    } else if id == SYSCALL_RECVMMSG {
        Some(Syscall::Recvmmsg { fd: a[0], msgvec: a[1], vlen: a[2], flags: a[3], timeout: a[4] })
    } else if id == SYSCALL_SENDMMSG {
        Some(Syscall::Sendmmsg { fd: a[0], msgvec: a[1], vlen: a[2], flags: a[3] })
    } else {
        None
    }
}

fn socket_call(id: usize, a: [usize; 6]) -> (r: Option<Syscall>)
    ensures
        r == socket_meaning(id, a),
{
    if id == SYSCALL_SOCKET {
        Some(Syscall::Socket { domain: a[0], socket_type: a[1], protocol: a[2] })
    } else if id == SYSCALL_SOCKETPAIR {
        Some(Syscall::Socketpair { domain: a[0], socket_type: a[1], protocol: a[2], sv: a[3] })
    } else if id == SYSCALL_BIND {
        Some(Syscall::Bind { socketfd: a[0], socketaddr: a[1], socketlen: a[2] })
    } else if id == SYSCALL_LISTEN {
        Some(Syscall::Listen { socketfd: a[0], backlog: a[1] })
    } else if id == SYSCALL_ACCEPT {
        Some(Syscall::Accept { socketfd: a[0], addr: a[1], addrlen: a[2] })
    } else if id == SYSCALL_CONNECT {
        Some(Syscall::Connect { socketfd: a[0], addr: a[1], addrlen: a[2] })
    } else if id == SYSCALL_GETSOCKNAME {
        Some(Syscall::Getsockname { socketfd: a[0], addr: a[1], addrlen: a[2] })
    } else if id == SYSCALL_GETPEERNAME {
        Some(Syscall::Getpeername { socketfd: a[0], addr: a[1], addrlen: a[2] })
    } else if id == SYSCALL_SENDTO {
        Some(Syscall::Sendto { fd: a[0], buf: a[1], len: a[2], flags: a[3], dest_addr: a[4], addrlen: a[5] })
    } else if id == SYSCALL_RECVFROM {
        Some(Syscall::Recvfrom { fd: a[0], buf: a[1], len: a[2], flags: a[3], src_addr: a[4], addrlen: a[5] })
    } else if id == SYSCALL_SETSOCKOPT {
        Some(Syscall::Setsockopt { fd: a[0], level: a[1], optname: a[2], optval: a[3], optlen: a[4] })
    } else if id == SYSCALL_GETSOCKOPT {
        Some(Syscall::Getsockopt { fd: a[0], level: a[1], optname: a[2], optval: a[3], optlen: a[4] })
    } else if id == SYSCALL_SHUTDOWN {
        Some(Syscall::Shutdown { fd: a[0], how: a[1] })
    } else if id == SYSCALL_SENDMSG {
        Some(Syscall::Sendmsg { fd: a[0], msg: a[1], flags: a[2] })
    } else if id == SYSCALL_RECVMSG {
        Some(Syscall::Recvmsg { fd: a[0], msg: a[1], flags: a[2] })
    } else if id == SYSCALL_ACCEPT4 {
        Some(Syscall::Accept4 { socketfd: a[0], addr: a[1], addrlen: a[2], flags: a[3] })
    } else if id == SYSCALL_RECVMMSG {
        Some(Syscall::Recvmmsg { fd: a[0], msgvec: a[1], vlen: a[2], flags: a[3], timeout: a[4] })
    } else if id == SYSCALL_SENDMMSG {
        Some(Syscall::Sendmmsg { fd: a[0], msgvec: a[1], vlen: a[2], flags: a[3] })
    } else {
        None
    }
}

/// The calls about the system as a whole.
pub open spec fn system_meaning(id: usize, a: [usize; 6]) -> Option<Syscall> {
    if id == SYSCALL_SYSLOG {
        Some(Syscall::Syslog { action: a[0], buf: a[1], len: a[2] as isize })
    } else if id == SYSCALL_REBOOT {
        Some(Syscall::Reboot)
    } else if id == SYSCALL_UNAME {
        Some(Syscall::Uname { buf: a[0] })
    } else if id == SYSCALL_SETHOSTNAME {
        Some(Syscall::Sethostname { name: a[0], len: a[1] })
    } else if id == SYSCALL_SETDOMAINNAME {
        Some(Syscall::Setdomainname { name: a[0], len: a[1] })
    } else if id == SYSCALL_SYSINFO {
        Some(Syscall::Sysinfo { buf: a[0] })
    } else if id == SYSCALL_GETRANDOM {
        Some(Syscall::Getrandom { buf: a[0], buflen: a[1], flags: a[2] })
    } else if id == SYSCALL_BPF {
        Some(Syscall::Bpf { cmd: a[0], attr: a[1], size: a[2] })
    } else {
        None
    }
}

fn system_call(id: usize, a: [usize; 6]) -> (r: Option<Syscall>)
    ensures
        r == system_meaning(id, a),
{
    if id == SYSCALL_SYSLOG {
        Some(Syscall::Syslog { action: a[0], buf: a[1], len: a[2] as isize })
    } else if id == SYSCALL_REBOOT {
        Some(Syscall::Reboot)
    } else if id == SYSCALL_UNAME {
        Some(Syscall::Uname { buf: a[0] })
    } else if id == SYSCALL_SETHOSTNAME {
        Some(Syscall::Sethostname { name: a[0], len: a[1] })
    } else if id == SYSCALL_SETDOMAINNAME {
        Some(Syscall::Setdomainname { name: a[0], len: a[1] })
    } else if id == SYSCALL_SYSINFO {
        Some(Syscall::Sysinfo { buf: a[0] })
    } else if id == SYSCALL_GETRANDOM {
        Some(Syscall::Getrandom { buf: a[0], buflen: a[1], flags: a[2] })
    } else if id == SYSCALL_BPF {
        Some(Syscall::Bpf { cmd: a[0], attr: a[1], size: a[2] })
    } else {
        None
    }
}

/// What a number and six arguments mean: the call that has this number; none
/// for other numbers.
pub open spec fn meaning(id: usize, a: [usize; 6]) -> Option<Syscall> {
    if attribute_meaning(id, a) is Some {
        attribute_meaning(id, a)
    } else if path_meaning(id, a) is Some {
        path_meaning(id, a)
    } else if descriptor_meaning(id, a) is Some {
        descriptor_meaning(id, a)
    } else if transfer_meaning(id, a) is Some {
        transfer_meaning(id, a)
    } else if process_meaning(id, a) is Some {
        process_meaning(id, a)
    } else if credential_meaning(id, a) is Some {
        credential_meaning(id, a)
    } else if time_meaning(id, a) is Some {
        time_meaning(id, a)
    } else if schedule_meaning(id, a) is Some {
        schedule_meaning(id, a)
    } else if signal_meaning(id, a) is Some {
        signal_meaning(id, a)
    } else if memory_meaning(id, a) is Some {
        memory_meaning(id, a)
    } else if socket_meaning(id, a) is Some {
        socket_meaning(id, a)
    } else {
        system_meaning(id, a)
    }
}

/// The call that a number and its arguments ask for; `ENOSYS` where no call has
/// the number.
pub fn syscall(syscall_id: usize, args: [usize; 6]) -> (r: SysResult<Syscall>)
    ensures
        r == (match meaning(syscall_id, args) {
            Some(call) => Ok(call),
            None => Err(Errno::ENOSYS),
        }),
{
    if let Some(call) = attribute_call(syscall_id, args) {
        return Ok(call);
    }
    if let Some(call) = path_call(syscall_id, args) {
        return Ok(call);
    }
    if let Some(call) = descriptor_call(syscall_id, args) {
        return Ok(call);
    }
    if let Some(call) = transfer_call(syscall_id, args) {
        return Ok(call);
    }
    if let Some(call) = process_call(syscall_id, args) {
        return Ok(call);
    }
    if let Some(call) = credential_call(syscall_id, args) {
        return Ok(call);
    }
    if let Some(call) = time_call(syscall_id, args) {
        return Ok(call);
    }
    if let Some(call) = schedule_call(syscall_id, args) {
        return Ok(call);
    }
    if let Some(call) = signal_call(syscall_id, args) {
        return Ok(call);
    }
    if let Some(call) = memory_call(syscall_id, args) {
        return Ok(call);
    }
    if let Some(call) = socket_call(syscall_id, args) {
        return Ok(call);
    }
    if let Some(call) = system_call(syscall_id, args) {
        return Ok(call);
    }
    Err(Errno::ENOSYS)
}

/// The number of a call about extended attributes of files.
pub open spec fn attribute_number(call: Syscall) -> Option<usize> {
    match call {
        Syscall::Setxattr { .. } => Some(SYSCALL_SETXATTR),
        Syscall::Lsetxattr { .. } => Some(SYSCALL_LSETXATTR),
        Syscall::Fsetxattr { .. } => Some(SYSCALL_FSETXATTR),
        Syscall::Getxattr { .. } => Some(SYSCALL_GETXATTR),
        Syscall::Lgetxattr { .. } => Some(SYSCALL_LGETXATTR),
        Syscall::Fgetxattr { .. } => Some(SYSCALL_FGETXATTR),
        Syscall::Listxattr { .. } => Some(SYSCALL_LISTXATTR),
        Syscall::Llistxattr { .. } => Some(SYSCALL_LLISTXATTR),
        Syscall::Flistxattr { .. } => Some(SYSCALL_FLISTXATTR),
        Syscall::Removexattr { .. } => Some(SYSCALL_REMOVEXATTR),
        Syscall::Lremovexattr { .. } => Some(SYSCALL_LREMOVEXATTR),
        Syscall::Fremovexattr { .. } => Some(SYSCALL_FREMOVEXATTR),
        _ => None,
    }
}

/// The number of a call about files that are named by paths.
pub open spec fn path_number(call: Syscall) -> Option<usize> {
    match call {
        Syscall::Getcwd { .. } => Some(SYSCALL_GETCWD),
        Syscall::Mkdirat { .. } => Some(SYSCALL_MKDIRAT),
        Syscall::Unlinkat { .. } => Some(SYSCALL_UNLINKAT),
        Syscall::Symlinkat { .. } => Some(SYSCALL_SYMLINKAT),
        Syscall::Linkat { .. } => Some(SYSCALL_LINKAT),
        Syscall::Umount2 { .. } => Some(SYSCALL_UMOUNT2),
        Syscall::Mount { .. } => Some(SYSCALL_MOUNT),
        Syscall::Statfs { .. } => Some(SYSCALL_STATFS),
        Syscall::Truncate { .. } => Some(SYSCALL_TRUNCATE),
        Syscall::Faccessat { .. } => Some(SYSCALL_FACCESSAT2),
        Syscall::Chdir { .. } => Some(SYSCALL_CHDIR),
        Syscall::Chroot { .. } => Some(SYSCALL_CHROOT),
        Syscall::Mknodat { .. } => Some(SYSCALL_MKNODAT),
        Syscall::Fchmodat { .. } => Some(SYSCALL_FCHMODAT),
        Syscall::Fchownat { .. } => Some(SYSCALL_FCHOWNAT),
        Syscall::Openat { .. } => Some(SYSCALL_OPENAT),
        Syscall::Readlinkat { .. } => Some(SYSCALL_READLINKAT),
        Syscall::Fstatat { .. } => Some(SYSCALL_FSTATAT),
        Syscall::Utimensat { .. } => Some(SYSCALL_UTIMENSAT),
        Syscall::Renameat2 { .. } => Some(SYSCALL_RENAMEAT2),
        Syscall::OpenTree { .. } => Some(SYSCALL_OPEN_TREE),
        Syscall::Fsopen { .. } => Some(SYSCALL_FSOPEN),
        Syscall::Fspick { .. } => Some(SYSCALL_FSPICK),
        Syscall::Statx { .. } => Some(SYSCALL_STATX),
        Syscall::Openat2 { .. } => Some(SYSCALL_OPENAT2),
        _ => None,
    }
}

/// The number of a call about open files.
pub open spec fn descriptor_number(call: Syscall) -> Option<usize> {
    match call {
        Syscall::Dup { .. } => Some(SYSCALL_DUP),
        Syscall::Dup3 { .. } => Some(SYSCALL_DUP3),
        Syscall::Eventfd2 { .. } => Some(SYSCALL_EVENTFD2),
        Syscall::EpollCreate1 { .. } => Some(SYSCALL_EPOLL_CREATE1),
        Syscall::InotifyInit1 { .. } => Some(SYSCALL_INOTIFY_INIT1),
        Syscall::Fcntl { .. } => Some(SYSCALL_FCNTL),
        Syscall::Ioctl { .. } => Some(SYSCALL_IOCTL),
        Syscall::Flock { .. } => Some(SYSCALL_FLOCK),
        Syscall::Ftruncate { .. } => Some(SYSCALL_FTRUNCATE),
        Syscall::Fallocate { .. } => Some(SYSCALL_FALLOCATE),
        Syscall::Fchdir { .. } => Some(SYSCALL_FCHDIR),
        Syscall::Fchmod { .. } => Some(SYSCALL_FCHMOD),
        Syscall::Fchown { .. } => Some(SYSCALL_FCHOWN),
        Syscall::Close { .. } => Some(SYSCALL_CLOSE),
        Syscall::Pipe2 { .. } => Some(SYSCALL_PIPE2),
        Syscall::Getdents64 { .. } => Some(SYSCALL_GETDENTS64),
        Syscall::Lseek { .. } => Some(SYSCALL_LSEEK),
        Syscall::Signalfd4 { .. } => Some(SYSCALL_SIGNALFD4),
        Syscall::Fstat { .. } => Some(SYSCALL_FSTAT),
        Syscall::Fsync { .. } => Some(SYSCALL_FSYNC),
        Syscall::Fdatasync { .. } => Some(SYSCALL_FDATASYNC),
        Syscall::SyncFileRange { .. } => Some(SYSCALL_SYNC_FILE_RANGE),
        Syscall::TimerfdCreate { .. } => Some(SYSCALL_TIMERFD_CREATE),
        Syscall::TimerfdSettime { .. } => Some(SYSCALL_TIMERFD_SETTIME),
        Syscall::TimerfdGettime { .. } => Some(SYSCALL_TIMERFD_GETTIME),
        Syscall::Fstatfs { .. } => Some(SYSCALL_FSTATFS),
        Syscall::Fadvise64 { .. } => Some(SYSCALL_FADVISE64),
        Syscall::PerfEventOpen { .. } => Some(SYSCALL_PERF_EVENT_OPEN),
        Syscall::FanotifyInit { .. } => Some(SYSCALL_FANOTIFY_INIT),
        Syscall::MemfdCreate { .. } => Some(SYSCALL_MEMFD_CREATE),
        Syscall::Userfaultfd { .. } => Some(SYSCALL_USERFAULTFD),
        Syscall::IoUringSetup { .. } => Some(SYSCALL_IO_URING_SETUP),
        Syscall::PidfdOpen { .. } => Some(SYSCALL_PIDFD_OPEN),
        Syscall::CloseRange { .. } => Some(SYSCALL_CLOSE_RANGE),
        Syscall::MemfdSecret { .. } => Some(SYSCALL_MEMFD_SECRET),
        _ => None,
    }
}

/// The number of a call about reading and writing.
pub open spec fn transfer_number(call: Syscall) -> Option<usize> {
    match call {
        Syscall::Read { .. } => Some(SYSCALL_READ),
        Syscall::Write { .. } => Some(SYSCALL_WRITE),
        Syscall::Readv { .. } => Some(SYSCALL_READV),
        Syscall::Writev { .. } => Some(SYSCALL_WRITEV),
        Syscall::Preadv { .. } => Some(SYSCALL_PREADV),
        Syscall::Pwritev { .. } => Some(SYSCALL_PWRITEV),
        Syscall::Sendfile { .. } => Some(SYSCALL_SENDFILE),
        Syscall::Pread64 { .. } => Some(SYSCALL_PREAD64),
        Syscall::Pwrite64 { .. } => Some(SYSCALL_PWRITE64),
        Syscall::Pselect6 { .. } => Some(SYSCALL_PSELECT6),
        Syscall::Ppoll { .. } => Some(SYSCALL_PPOLL),
        Syscall::Vmsplice { .. } => Some(SYSCALL_VMSPLICE),
        Syscall::Splice { .. } => Some(SYSCALL_SPLICE),
        Syscall::Tee { .. } => Some(SYSCALL_TEE),
        Syscall::CopyFileRange { .. } => Some(SYSCALL_COPY_FILE_RANGE),
        Syscall::Preadv2 { .. } => Some(SYSCALL_PREADV2),
        Syscall::Pwritev2 { .. } => Some(SYSCALL_PWRITEV2),
        _ => None,
    }
}

/// The number of a call about processes and what belongs to them.
pub open spec fn process_number(call: Syscall) -> Option<usize> {
    match call {
        Syscall::Capget { .. } => Some(SYSCALL_CAPGET),
        Syscall::Capset { .. } => Some(SYSCALL_CAPSET),
        Syscall::Personality { .. } => Some(SYSCALL_PERSONALITY),
        Syscall::Exit { .. } => Some(SYSCALL_EXIT),
        Syscall::ExitGroup { .. } => Some(SYSCALL_EXIT_GROUP),
        Syscall::Waitid { .. } => Some(SYSCALL_WAITID),
        Syscall::SetTidAddress { .. } => Some(SYSCALL_SET_TID_ADDRESS),
        Syscall::Futex { .. } => Some(SYSCALL_FUTEX),
        Syscall::SetRobustList { .. } => Some(SYSCALL_SET_ROBUST_LIST),
        Syscall::GetRobustList { .. } => Some(SYSCALL_GET_ROBUST_LIST),
        Syscall::Setpriority { .. } => Some(SYSCALL_SETPRIORITY),
        Syscall::Getpriority { .. } => Some(SYSCALL_GETPRIORITY),
        Syscall::Times { .. } => Some(SYSCALL_TIMES),
        Syscall::Setpgid { .. } => Some(SYSCALL_SETPGID),
        Syscall::Getpgid { .. } => Some(SYSCALL_GETPGID),
        Syscall::Setsid => Some(SYSCALL_SETSID),
        Syscall::Getgroups { .. } => Some(SYSCALL_GETGROUPS),
        Syscall::Setgroups { .. } => Some(SYSCALL_SETGROUPS),
        Syscall::Getrlimit { .. } => Some(SYSCALL_GETRLIMIT),
        Syscall::Setrlimit { .. } => Some(SYSCALL_SETRLIMIT),
        Syscall::Getrusage { .. } => Some(SYSCALL_GETRUSAGE),
        Syscall::Umask { .. } => Some(SYSCALL_UMASK),
        Syscall::Getpid => Some(SYSCALL_GETPID),
        Syscall::Getppid => Some(SYSCALL_GETPPID),
        Syscall::Gettid => Some(SYSCALL_GETTID),
        Syscall::Clone { .. } => Some(SYSCALL_CLONE),
        Syscall::Execve { .. } => Some(SYSCALL_EXECVE),
        Syscall::Execveat { .. } => Some(SYSCALL_EXECVEAT),
        Syscall::Wait4 { .. } => Some(SYSCALL_WAIT4),
        Syscall::Prlimit64 { .. } => Some(SYSCALL_PRLIMIT64),
        _ => None,
    }
}

/// The number of a call about users and groups.
pub open spec fn credential_number(call: Syscall) -> Option<usize> {
    match call {
        Syscall::Setregid { .. } => Some(SYSCALL_SETREGID),
        Syscall::Setgid { .. } => Some(SYSCALL_SETGID),
        Syscall::Setreuid { .. } => Some(SYSCALL_SETREUID),
        Syscall::Setuid { .. } => Some(SYSCALL_SETUID),
        Syscall::Setresuid { .. } => Some(SYSCALL_SETRESUID),
        Syscall::Getresuid { .. } => Some(SYSCALL_GETRESUID),
        Syscall::Setresgid { .. } => Some(SYSCALL_SETRESGID),
        Syscall::Getresgid { .. } => Some(SYSCALL_GETRESGID),
        Syscall::Setfsuid { .. } => Some(SYSCALL_SETFSUID),
        Syscall::Setfsgid { .. } => Some(SYSCALL_SETFSGID),
        Syscall::Getuid => Some(SYSCALL_GETUID),
        Syscall::Geteuid => Some(SYSCALL_GETEUID),
        Syscall::Getgid => Some(SYSCALL_GETGID),
        Syscall::Getegid => Some(SYSCALL_GETEGID),
        _ => None,
    }
}

/// The number of a call about clocks and timers.
pub open spec fn time_number(call: Syscall) -> Option<usize> {
    match call {
        Syscall::Nanosleep { .. } => Some(SYSCALL_NANOSLEEP),
        Syscall::Getitimer { .. } => Some(SYSCALL_GETITIMER),
        Syscall::Setitimer { .. } => Some(SYSCALL_SETITIMER),
        Syscall::TimerCreate { .. } => Some(SYSCALL_TIMER_CREATE),
        Syscall::TimerGettime { .. } => Some(SYSCALL_TIMER_GETTIME),
        Syscall::TimerGetoverrun { .. } => Some(SYSCALL_TIMER_GETOVERRUN),
        Syscall::TimerSettime { .. } => Some(SYSCALL_TIMER_SETTIME),
        Syscall::TimerDelete { .. } => Some(SYSCALL_TIMER_DELETE),
        Syscall::ClockSettime { .. } => Some(SYSCALL_CLOCK_SETTIME),
        Syscall::ClockGettime { .. } => Some(SYSCALL_CLOCK_GETTIME),
        Syscall::ClockGetres { .. } => Some(SYSCALL_CLOCK_GETRES),
        Syscall::ClockNanosleep { .. } => Some(SYSCALL_CLOCK_NANOSLEEP),
        Syscall::Gettimeofday { .. } => Some(SYSCALL_GETTIMEOFDAY),
        Syscall::Settimeofday { .. } => Some(SYSCALL_SETTIMEOFDAY),
        Syscall::Adjtimex { .. } => Some(SYSCALL_ADJTIMEX),
        Syscall::ClockAdjtime { .. } => Some(SYSCALL_CLOCK_ADJTIME),
        _ => None,
    }
}

/// The number of a call about scheduling.
pub open spec fn schedule_number(call: Syscall) -> Option<usize> {
    match call {
        Syscall::SchedSetparam { .. } => Some(SYSCALL_SCHED_SETPARAM),
        Syscall::SchedSetscheduler { .. } => Some(SYSCALL_SCHED_SETSCHEDULER),
        Syscall::SchedGetscheduler { .. } => Some(SYSCALL_SCHED_GETSCHEDULER),
        Syscall::SchedGetparam { .. } => Some(SYSCALL_SCHED_GETPARAM),
        Syscall::SchedSetaffinity { .. } => Some(SYSCALL_SCHED_SETAFFINITY),
        Syscall::SchedGetaffinity { .. } => Some(SYSCALL_SCHED_GETAFFINITY),
        Syscall::SchedYield => Some(SYSCALL_SCHED_YIELD),
        Syscall::SchedGetPriorityMax { .. } => Some(SYSCALL_SCHED_GET_PRIORITY_MAX),
        Syscall::SchedGetPriorityMin { .. } => Some(SYSCALL_SCHED_GET_PRIORITY_MIN),
        Syscall::SchedRrGetInterval { .. } => Some(SYSCALL_SCHED_RR_GET_INTERVAL),
        Syscall::SchedSetattr { .. } => Some(SYSCALL_SCHED_SETATTR),
        Syscall::SchedGetattr { .. } => Some(SYSCALL_SCHED_GETATTR),
        _ => None,
    }
}

/// The number of a call about signals.
pub open spec fn signal_number(call: Syscall) -> Option<usize> {
    match call {
        Syscall::Kill { .. } => Some(SYSCALL_KILL),
        Syscall::Tkill { .. } => Some(SYSCALL_TKILL),
        Syscall::Tgkill { .. } => Some(SYSCALL_TGKILL),
        Syscall::Sigaltstack { .. } => Some(SYSCALL_SIGALTSTACK),
        Syscall::RtSigsuspend { .. } => Some(SYSCALL_RT_SIGSUSPEND),
        Syscall::Sigaction { .. } => Some(SYSCALL_SIGACTION),
        Syscall::Sigprocmask { .. } => Some(SYSCALL_SIGPROCMASK),
        Syscall::RtSigpending { .. } => Some(SYSCALL_RT_SIGPENDING),
        Syscall::RtSigtimedwait { .. } => Some(SYSCALL_RT_SIGTIMEDWAIT),
        Syscall::RtSigqueueinfo { .. } => Some(SYSCALL_RT_SIGQUEUEINFO),
        Syscall::Sigreturn => Some(SYSCALL_SIGRETURN),
        _ => None,
    }
}

/// The number of a call about memory.
pub open spec fn memory_number(call: Syscall) -> Option<usize> {
    match call {
        Syscall::Shmget { .. } => Some(SYSCALL_SHMGET),
        Syscall::Shmctl { .. } => Some(SYSCALL_SHMCTL),
        Syscall::Shmat { .. } => Some(SYSCALL_SHMAT),
        Syscall::Shmdt { .. } => Some(SYSCALL_SHMDT),
        Syscall::Brk { .. } => Some(SYSCALL_BRK),
        Syscall::Munmap { .. } => Some(SYSCALL_MUNMAP),
        Syscall::Mmap { .. } => Some(SYSCALL_MMAP),
        Syscall::Mprotect { .. } => Some(SYSCALL_MPROTECT),
        Syscall::Mremap { .. } => Some(SYSCALL_MREMAP),
        Syscall::Msync { .. } => Some(SYSCALL_MSYNC),
        Syscall::Mlock { .. } => Some(SYSCALL_MLOCK),
        Syscall::Munlock { .. } => Some(SYSCALL_MUNLOCK),
        Syscall::Madvise { .. } => Some(SYSCALL_MADVISE),
        Syscall::GetMempolicy { .. } => Some(SYSCALL_GET_MEMPOLICY),
        _ => None,
    }
}

/// The number of a call about sockets.
pub open spec fn socket_number(call: Syscall) -> Option<usize> {
    match call {
        Syscall::Socket { .. } => Some(SYSCALL_SOCKET),
        Syscall::Socketpair { .. } => Some(SYSCALL_SOCKETPAIR),
        Syscall::Bind { .. } => Some(SYSCALL_BIND),
        Syscall::Listen { .. } => Some(SYSCALL_LISTEN),
        Syscall::Accept { .. } => Some(SYSCALL_ACCEPT),
        Syscall::Connect { .. } => Some(SYSCALL_CONNECT),
        Syscall::Getsockname { .. } => Some(SYSCALL_GETSOCKNAME),
        Syscall::Getpeername { .. } => Some(SYSCALL_GETPEERNAME),
        Syscall::Sendto { .. } => Some(SYSCALL_SENDTO),
        Syscall::Recvfrom { .. } => Some(SYSCALL_RECVFROM),
        Syscall::Setsockopt { .. } => Some(SYSCALL_SETSOCKOPT),
        Syscall::Getsockopt { .. } => Some(SYSCALL_GETSOCKOPT),
        Syscall::Shutdown { .. } => Some(SYSCALL_SHUTDOWN),
        Syscall::Sendmsg { .. } => Some(SYSCALL_SENDMSG),
        Syscall::Recvmsg { .. } => Some(SYSCALL_RECVMSG),
        Syscall::Accept4 { .. } => Some(SYSCALL_ACCEPT4),
        Syscall::Recvmmsg { .. } => Some(SYSCALL_RECVMMSG),
        Syscall::Sendmmsg { .. } => Some(SYSCALL_SENDMMSG),
        _ => None,
    }
}

/// The number of a call about the system as a whole.
pub open spec fn system_number(call: Syscall) -> Option<usize> {
    match call {
        Syscall::Syslog { .. } => Some(SYSCALL_SYSLOG),
        Syscall::Reboot => Some(SYSCALL_REBOOT),
        Syscall::Uname { .. } => Some(SYSCALL_UNAME),
        Syscall::Sethostname { .. } => Some(SYSCALL_SETHOSTNAME),
        Syscall::Setdomainname { .. } => Some(SYSCALL_SETDOMAINNAME),
        Syscall::Sysinfo { .. } => Some(SYSCALL_SYSINFO),
        Syscall::Getrandom { .. } => Some(SYSCALL_GETRANDOM),
        Syscall::Bpf { .. } => Some(SYSCALL_BPF),
        _ => None,
    }
}

/// A call has a number.
pub open spec fn has_number(call: Syscall, id: usize) -> bool {
    ||| attribute_number(call) == Some(id)
    ||| path_number(call) == Some(id)
    ||| descriptor_number(call) == Some(id)
    ||| transfer_number(call) == Some(id)
    ||| process_number(call) == Some(id)
    ||| credential_number(call) == Some(id)
    ||| time_number(call) == Some(id)
    ||| schedule_number(call) == Some(id)
    ||| signal_number(call) == Some(id)
    ||| memory_number(call) == Some(id)
    ||| socket_number(call) == Some(id)
    ||| system_number(call) == Some(id)
}

proof fn attribute_numbers_are_distinct(id: usize, other: usize, a: [usize; 6])
    requires
        attribute_meaning(id, a) is Some,
        id != SYSCALL_FACCESSAT,
    ensures
        has_number(attribute_meaning(id, a)->0, other) <==> other == id,
{
}

proof fn path_numbers_are_distinct(id: usize, other: usize, a: [usize; 6])
    requires
        path_meaning(id, a) is Some,
        id != SYSCALL_FACCESSAT,
    ensures
        has_number(path_meaning(id, a)->0, other) <==> other == id,
{
}

proof fn descriptor_numbers_are_distinct(id: usize, other: usize, a: [usize; 6])
    requires
        descriptor_meaning(id, a) is Some,
        id != SYSCALL_FACCESSAT,
    ensures
        has_number(descriptor_meaning(id, a)->0, other) <==> other == id,
{
}

proof fn transfer_numbers_are_distinct(id: usize, other: usize, a: [usize; 6])
    requires
        transfer_meaning(id, a) is Some,
        id != SYSCALL_FACCESSAT,
    ensures
        has_number(transfer_meaning(id, a)->0, other) <==> other == id,
{
}

proof fn process_numbers_are_distinct(id: usize, other: usize, a: [usize; 6])
    requires
        process_meaning(id, a) is Some,
        id != SYSCALL_FACCESSAT,
    ensures
        has_number(process_meaning(id, a)->0, other) <==> other == id,
{
}

proof fn credential_numbers_are_distinct(id: usize, other: usize, a: [usize; 6])
    requires
        credential_meaning(id, a) is Some,
        id != SYSCALL_FACCESSAT,
    ensures
        has_number(credential_meaning(id, a)->0, other) <==> other == id,
{
}

proof fn time_numbers_are_distinct(id: usize, other: usize, a: [usize; 6])
    requires
        time_meaning(id, a) is Some,
        id != SYSCALL_FACCESSAT,
    ensures
        has_number(time_meaning(id, a)->0, other) <==> other == id,
{
}

proof fn schedule_numbers_are_distinct(id: usize, other: usize, a: [usize; 6])
    requires
        schedule_meaning(id, a) is Some,
        id != SYSCALL_FACCESSAT,
    ensures
        has_number(schedule_meaning(id, a)->0, other) <==> other == id,
{
}

proof fn signal_numbers_are_distinct(id: usize, other: usize, a: [usize; 6])
    requires
        signal_meaning(id, a) is Some,
        id != SYSCALL_FACCESSAT,
    ensures
        has_number(signal_meaning(id, a)->0, other) <==> other == id,
{
}

proof fn memory_numbers_are_distinct(id: usize, other: usize, a: [usize; 6])
    requires
        memory_meaning(id, a) is Some,
        id != SYSCALL_FACCESSAT,
    ensures
        has_number(memory_meaning(id, a)->0, other) <==> other == id,
{
}

proof fn socket_numbers_are_distinct(id: usize, other: usize, a: [usize; 6])
    requires
        socket_meaning(id, a) is Some,
        id != SYSCALL_FACCESSAT,
    ensures
        has_number(socket_meaning(id, a)->0, other) <==> other == id,
{
}

proof fn system_numbers_are_distinct(id: usize, other: usize, a: [usize; 6])
    requires
        system_meaning(id, a) is Some,
        id != SYSCALL_FACCESSAT,
    ensures
        has_number(system_meaning(id, a)->0, other) <==> other == id,
{
}

/// The call that a number asks for has that number, and no other one but for
/// access to a file, which an older number asks for as well.
pub proof fn numbers_are_distinct(id: usize, other: usize, a: [usize; 6])
    ensures
        match meaning(id, a) {
            Some(call) => id != SYSCALL_FACCESSAT ==> (has_number(call, other) <==> other == id),
            None => true,
        },
        meaning(SYSCALL_FACCESSAT, a) == meaning(
            SYSCALL_FACCESSAT2,
            [a[0], a[1], a[2], 0, a[4], a[5]],
        ),
{
    if attribute_meaning(id, a) is Some && id != SYSCALL_FACCESSAT {
        attribute_numbers_are_distinct(id, other, a);
    }
    if path_meaning(id, a) is Some && id != SYSCALL_FACCESSAT {
        path_numbers_are_distinct(id, other, a);
    }
    if descriptor_meaning(id, a) is Some && id != SYSCALL_FACCESSAT {
        descriptor_numbers_are_distinct(id, other, a);
    }
    if transfer_meaning(id, a) is Some && id != SYSCALL_FACCESSAT {
        transfer_numbers_are_distinct(id, other, a);
    }
    if process_meaning(id, a) is Some && id != SYSCALL_FACCESSAT {
        process_numbers_are_distinct(id, other, a);
    }
    if credential_meaning(id, a) is Some && id != SYSCALL_FACCESSAT {
        credential_numbers_are_distinct(id, other, a);
    }
    if time_meaning(id, a) is Some && id != SYSCALL_FACCESSAT {
        time_numbers_are_distinct(id, other, a);
    }
    if schedule_meaning(id, a) is Some && id != SYSCALL_FACCESSAT {
        schedule_numbers_are_distinct(id, other, a);
    }
    if signal_meaning(id, a) is Some && id != SYSCALL_FACCESSAT {
        signal_numbers_are_distinct(id, other, a);
    }
    if memory_meaning(id, a) is Some && id != SYSCALL_FACCESSAT {
        memory_numbers_are_distinct(id, other, a);
    }
    if socket_meaning(id, a) is Some && id != SYSCALL_FACCESSAT {
        socket_numbers_are_distinct(id, other, a);
    }
    if system_meaning(id, a) is Some && id != SYSCALL_FACCESSAT {
        system_numbers_are_distinct(id, other, a);
    }
}

/// Every number that some call has asks for a call.
pub proof fn numbers_are_known(call: Syscall, id: usize, a: [usize; 6])
    requires
        has_number(call, id),
    ensures
        meaning(id, a) is Some,
{
}

/// The numbers of the calls about extended attributes, and the registers that each argument comes from.
pub proof fn attribute_calls_are_numbered(a: [usize; 6])
    ensures
        attribute_meaning(5, a) matches Some(Syscall::Setxattr { path, name, value, size, flags })
            && path == a[0] && name == a[1] && value == a[2] && size == a[3] && flags == a[4],
        attribute_meaning(6, a) matches Some(Syscall::Lsetxattr { path, name, value, size, flags })
            && path == a[0] && name == a[1] && value == a[2] && size == a[3] && flags == a[4],
        attribute_meaning(7, a) matches Some(Syscall::Fsetxattr { fd, name, value, size, flags })
            && fd == a[0] && name == a[1] && value == a[2] && size == a[3] && flags == a[4],
        attribute_meaning(8, a) matches Some(Syscall::Getxattr { path, name, value, size })
            && path == a[0] && name == a[1] && value == a[2] && size == a[3],
        attribute_meaning(9, a) matches Some(Syscall::Lgetxattr { path, name, value, size })
            && path == a[0] && name == a[1] && value == a[2] && size == a[3],
        attribute_meaning(10, a) matches Some(Syscall::Fgetxattr { fd, name, value, size })
            && fd == a[0] && name == a[1] && value == a[2] && size == a[3],
        attribute_meaning(11, a) matches Some(Syscall::Listxattr { path, list, size })
            && path == a[0] && list == a[1] && size == a[2],
        attribute_meaning(12, a) matches Some(Syscall::Llistxattr { path, list, size })
            && path == a[0] && list == a[1] && size == a[2],
        attribute_meaning(13, a) matches Some(Syscall::Flistxattr { fd, list, size }) && fd == a[0]
            && list == a[1] && size == a[2],
        attribute_meaning(14, a) matches Some(Syscall::Removexattr { path, name }) && path == a[0]
            && name == a[1],
        attribute_meaning(15, a) matches Some(Syscall::Lremovexattr { path, name }) && path == a[0]
            && name == a[1],
        attribute_meaning(16, a) matches Some(Syscall::Fremovexattr { fd, name }) && fd == a[0]
            && name == a[1],
{
}

/// The numbers of the calls about paths, and the registers that each argument comes from.
pub proof fn path_calls_are_numbered(a: [usize; 6])
    ensures
        path_meaning(17, a) matches Some(Syscall::Getcwd { buf, len }) && buf == a[0]
            && len == a[1],
        path_meaning(34, a) matches Some(Syscall::Mkdirat { dirfd, path, mode })
            && dirfd == a[0] as isize && path == a[1] && mode == a[2],
        path_meaning(35, a) matches Some(Syscall::Unlinkat { dirfd, path, flags })
            && dirfd == a[0] as isize && path == a[1] && flags == a[2],
        path_meaning(36, a) matches Some(Syscall::Symlinkat { target, newdirfd, linkpath })
            && target == a[0] && newdirfd == a[1] as isize && linkpath == a[2],
        path_meaning(37, a) matches Some(Syscall::Linkat { olddirfd, oldpath, newdirfd, newpath, flags })
            && olddirfd == a[0] as isize && oldpath == a[1] && newdirfd == a[2] as isize
            && newpath == a[3] && flags == a[4],
        path_meaning(39, a) matches Some(Syscall::Umount2 { target, flags }) && target == a[0]
            && flags == a[1],
        path_meaning(40, a) matches Some(Syscall::Mount { source, target, fstype, flags, data })
            && source == a[0] && target == a[1] && fstype == a[2] && flags == a[3] && data == a[4],
        path_meaning(43, a) matches Some(Syscall::Statfs { path, buf }) && path == a[0]
            && buf == a[1],
        path_meaning(45, a) matches Some(Syscall::Truncate { path, length }) && path == a[0]
            && length == a[1] as isize,
        path_meaning(48, a) matches Some(Syscall::Faccessat { dirfd, path, mode, flags })
            && dirfd == a[0] as isize && path == a[1] && mode == a[2] && flags == 0,
        path_meaning(439, a) matches Some(Syscall::Faccessat { dirfd, path, mode, flags })
            && dirfd == a[0] as isize && path == a[1] && mode == a[2] && flags == a[3],
        path_meaning(49, a) matches Some(Syscall::Chdir { path }) && path == a[0],
        path_meaning(51, a) matches Some(Syscall::Chroot { path }) && path == a[0],
        path_meaning(33, a) matches Some(Syscall::Mknodat { dirfd, path, mode, dev })
            && dirfd == a[0] as isize && path == a[1] && mode == a[2] && dev == a[3],
        path_meaning(53, a) matches Some(Syscall::Fchmodat { dirfd, path, mode })
            && dirfd == a[0] as isize && path == a[1] && mode == a[2],
        path_meaning(54, a) matches Some(Syscall::Fchownat { dirfd, path, owner, group, flags })
            && dirfd == a[0] as isize && path == a[1] && owner == a[2] && group == a[3]
            && flags == a[4],
        path_meaning(56, a) matches Some(Syscall::Openat { dirfd, path, flags, mode })
            && dirfd == a[0] as isize && path == a[1] && flags == a[2] && mode == a[3],
        path_meaning(78, a) matches Some(Syscall::Readlinkat { dirfd, path, buf, bufsize })
            && dirfd == a[0] as isize && path == a[1] && buf == a[2] && bufsize == a[3],
        path_meaning(79, a) matches Some(Syscall::Fstatat { dirfd, path, stat, flags })
            && dirfd == a[0] as isize && path == a[1] && stat == a[2] && flags == a[3],
        path_meaning(88, a) matches Some(Syscall::Utimensat { dirfd, path, times, flags })
            && dirfd == a[0] as isize && path == a[1] && times == a[2] && flags == a[3],
        path_meaning(276, a) matches Some(Syscall::Renameat2 { olddirfd, oldpath, newdirfd, newpath, flags })
            && olddirfd == a[0] as isize && oldpath == a[1] && newdirfd == a[2] as isize
            && newpath == a[3] && flags == a[4],
        path_meaning(428, a) matches Some(Syscall::OpenTree { dfd, path, flags })
            && dfd == a[0] as isize && path == a[1] && flags == a[2],
        path_meaning(430, a) matches Some(Syscall::Fsopen { fs_name, flags }) && fs_name == a[0]
            && flags == a[1],
        path_meaning(433, a) matches Some(Syscall::Fspick { dfd, path, flags })
            && dfd == a[0] as isize && path == a[1] && flags == a[2],
        path_meaning(291, a) matches Some(Syscall::Statx { dirfd, path, flags, mask, buf })
            && dirfd == a[0] as isize && path == a[1] && flags == a[2] && mask == a[3] as u32
            && buf == a[4],
        path_meaning(437, a) matches Some(Syscall::Openat2 { dirfd, path, how, size })
            && dirfd == a[0] as isize && path == a[1] && how == a[2] && size == a[3],
{
}

/// The numbers of the calls about descriptors, and the registers that each argument comes from.
pub proof fn descriptor_calls_are_numbered(a: [usize; 6])
    ensures
        descriptor_meaning(23, a) matches Some(Syscall::Dup { fd }) && fd == a[0],
        descriptor_meaning(24, a) matches Some(Syscall::Dup3 { fd_src, fd_dst, flags })
            && fd_src == a[0] && fd_dst == a[1] && flags == a[2],
        descriptor_meaning(19, a) matches Some(Syscall::Eventfd2 { initval, flags })
            && initval == a[0] && flags == a[1],
        descriptor_meaning(20, a) matches Some(Syscall::EpollCreate1 { flags }) && flags == a[0],
        descriptor_meaning(26, a) matches Some(Syscall::InotifyInit1 { flags }) && flags == a[0],
        descriptor_meaning(25, a) matches Some(Syscall::Fcntl { fd, cmd, arg }) && fd == a[0]
            && cmd == a[1] && arg == a[2],
        descriptor_meaning(29, a) matches Some(Syscall::Ioctl { fd, request, arg }) && fd == a[0]
            && request == a[1] && arg == a[2],
        descriptor_meaning(32, a) matches Some(Syscall::Flock { fd, operation }) && fd == a[0]
            && operation == a[1],
        descriptor_meaning(46, a) matches Some(Syscall::Ftruncate { fd, length }) && fd == a[0]
            && length == a[1] as isize,
        descriptor_meaning(47, a) matches Some(Syscall::Fallocate { fd, mode, offset, len })
            && fd == a[0] && mode == a[1] && offset == a[2] as isize && len == a[3] as isize,
        descriptor_meaning(50, a) matches Some(Syscall::Fchdir { fd }) && fd == a[0],
        descriptor_meaning(52, a) matches Some(Syscall::Fchmod { fd, mode }) && fd == a[0]
            && mode == a[1],
        descriptor_meaning(55, a) matches Some(Syscall::Fchown { fd, owner, group }) && fd == a[0]
            && owner == a[1] && group == a[2],
        descriptor_meaning(57, a) matches Some(Syscall::Close { fd }) && fd == a[0],
        descriptor_meaning(59, a) matches Some(Syscall::Pipe2 { pipefd, flags }) && pipefd == a[0]
            && flags == a[1],
        descriptor_meaning(61, a) matches Some(Syscall::Getdents64 { fd, dirp, count })
            && fd == a[0] && dirp == a[1] && count == a[2],
        descriptor_meaning(62, a) matches Some(Syscall::Lseek { fd, offset, whence }) && fd == a[0]
            && offset == a[1] as isize && whence == a[2],
        descriptor_meaning(74, a) matches Some(Syscall::Signalfd4 { fd, mask, sizemask, flags })
            && fd == a[0] as isize && mask == a[1] && sizemask == a[2] && flags == a[3],
        descriptor_meaning(80, a) matches Some(Syscall::Fstat { fd, stat }) && fd == a[0]
            && stat == a[1],
        descriptor_meaning(82, a) matches Some(Syscall::Fsync { fd }) && fd == a[0],
        descriptor_meaning(83, a) matches Some(Syscall::Fdatasync { fd }) && fd == a[0],
        descriptor_meaning(84, a) matches Some(Syscall::SyncFileRange { fd, offset, nbytes, flags })
            && fd == a[0] as isize && offset == a[1] as isize && nbytes == a[2] as isize
            && flags == a[3],
        descriptor_meaning(85, a) matches Some(Syscall::TimerfdCreate { clockid, flags })
            && clockid == a[0] && flags == a[1],
        descriptor_meaning(86, a) matches Some(Syscall::TimerfdSettime { fd, flags, new_value, old_value })
            && fd == a[0] && flags == a[1] && new_value == a[2] && old_value == a[3],
        descriptor_meaning(87, a) matches Some(Syscall::TimerfdGettime { fd, curr_value })
            && fd == a[0] && curr_value == a[1],
        descriptor_meaning(44, a) matches Some(Syscall::Fstatfs { fd, buf }) && fd == a[0]
            && buf == a[1],
        descriptor_meaning(223, a) matches Some(Syscall::Fadvise64 { fd, offset, len, advice })
            && fd == a[0] && offset == a[1] as isize && len == a[2] as isize && advice == a[3],
        descriptor_meaning(241, a) matches Some(Syscall::PerfEventOpen { attr, pid, cpu, group_fd, flags })
            && attr == a[0] && pid == a[1] as isize && cpu == a[2] as isize
            && group_fd == a[3] as isize && flags == a[4],
        descriptor_meaning(262, a) matches Some(Syscall::FanotifyInit { flags, event_f_flags })
            && flags == a[0] && event_f_flags == a[1],
        descriptor_meaning(279, a) matches Some(Syscall::MemfdCreate { name, flags })
            && name == a[0] && flags == a[1],
        descriptor_meaning(282, a) matches Some(Syscall::Userfaultfd { flags }) && flags == a[0],
        descriptor_meaning(425, a) matches Some(Syscall::IoUringSetup { entries, params })
            && entries == a[0] && params == a[1],
        descriptor_meaning(434, a) matches Some(Syscall::PidfdOpen { pid, flags }) && pid == a[0]
            && flags == a[1],
        descriptor_meaning(436, a) matches Some(Syscall::CloseRange { first, last, flags })
            && first == a[0] && last == a[1] && flags == a[2],
        descriptor_meaning(447, a) matches Some(Syscall::MemfdSecret { flags }) && flags == a[0],
{
}

/// The numbers of the calls about transfers of data, and the registers that each argument comes from.
pub proof fn transfer_calls_are_numbered(a: [usize; 6])
    ensures
        transfer_meaning(63, a) matches Some(Syscall::Read { fd, buf, len }) && fd == a[0]
            && buf == a[1] && len == a[2],
        transfer_meaning(64, a) matches Some(Syscall::Write { fd, buf, len }) && fd == a[0]
            && buf == a[1] && len == a[2],
        transfer_meaning(65, a) matches Some(Syscall::Readv { fd, iov, iovcnt }) && fd == a[0]
            && iov == a[1] && iovcnt == a[2],
        transfer_meaning(66, a) matches Some(Syscall::Writev { fd, iov, iovcnt }) && fd == a[0]
            && iov == a[1] && iovcnt == a[2],
        transfer_meaning(69, a) matches Some(Syscall::Preadv { fd, iov_ptr, iovcnt, offset })
            && fd == a[0] && iov_ptr == a[1] && iovcnt == a[2] && offset == a[3] as isize,
        transfer_meaning(70, a) matches Some(Syscall::Pwritev { fd, iov_ptr, iovcnt, offset })
            && fd == a[0] && iov_ptr == a[1] && iovcnt == a[2] && offset == a[3] as isize,
        transfer_meaning(71, a) matches Some(Syscall::Sendfile { out_fd, in_fd, offset, count })
            && out_fd == a[0] && in_fd == a[1] && offset == a[2] && count == a[3],
        transfer_meaning(67, a) matches Some(Syscall::Pread64 { fd, buf, len, offset })
            && fd == a[0] && buf == a[1] && len == a[2] && offset == a[3] as isize,
        transfer_meaning(68, a) matches Some(Syscall::Pwrite64 { fd, buf, len, offset })
            && fd == a[0] && buf == a[1] && len == a[2] && offset == a[3] as isize,
        transfer_meaning(72, a) matches Some(Syscall::Pselect6 { nfds, readfds, writefds, exceptfds, timeout, sigmask })
            && nfds == a[0] && readfds == a[1] && writefds == a[2] && exceptfds == a[3]
            && timeout == a[4] && sigmask == a[5],
        transfer_meaning(73, a) matches Some(Syscall::Ppoll { fds, nfds, timeout, sigmask, sigsetsize })
            && fds == a[0] && nfds == a[1] && timeout == a[2] && sigmask == a[3]
            && sigsetsize == a[4],
        transfer_meaning(75, a) matches Some(Syscall::Vmsplice { fd, iov, iovcnt, flags })
            && fd == a[0] && iov == a[1] && iovcnt == a[2] && flags == a[3],
        transfer_meaning(76, a) matches Some(Syscall::Splice { fd_in, off_in, fd_out, off_out, len, flags })
            && fd_in == a[0] && off_in == a[1] && fd_out == a[2] && off_out == a[3] && len == a[4]
            && flags == a[5],
        transfer_meaning(77, a) matches Some(Syscall::Tee { fd_in, fd_out, len, flags })
            && fd_in == a[0] && fd_out == a[1] && len == a[2] && flags == a[3],
        transfer_meaning(285, a) matches Some(Syscall::CopyFileRange { fd_in, off_in, fd_out, off_out, len, flags })
            && fd_in == a[0] && off_in == a[1] && fd_out == a[2] && off_out == a[3] && len == a[4]
            && flags == a[5],
        transfer_meaning(286, a) matches Some(Syscall::Preadv2 { fd, iov_ptr, iovcnt, offset, flags })
            && fd == a[0] && iov_ptr == a[1] && iovcnt == a[2]
            && offset == merged_offset(a[3], a[4]) && flags == a[5] as i32,
        transfer_meaning(287, a) matches Some(Syscall::Pwritev2 { fd, iov_ptr, iovcnt, offset, flags })
            && fd == a[0] && iov_ptr == a[1] && iovcnt == a[2]
            && offset == merged_offset(a[3], a[4]) && flags == a[5] as i32,
{
}

/// The numbers of the calls about processes, and the registers that each argument comes from.
pub proof fn process_calls_are_numbered(a: [usize; 6])
    ensures
        process_meaning(90, a) matches Some(Syscall::Capget { hdrp, datap }) && hdrp == a[0]
            && datap == a[1],
        process_meaning(91, a) matches Some(Syscall::Capset { hdrp, datap }) && hdrp == a[0]
            && datap == a[1],
        process_meaning(92, a) matches Some(Syscall::Personality { persona }) && persona == a[0],
        process_meaning(93, a) matches Some(Syscall::Exit { exit_code })
            && exit_code == a[0] as i32,
        process_meaning(94, a) matches Some(Syscall::ExitGroup { exit_code })
            && exit_code == a[0] as i32,
        process_meaning(95, a) matches Some(Syscall::Waitid { idtype, id, infop, options, rusage })
            && idtype == a[0] && id == a[1] && infop == a[2] && options == a[3] && rusage == a[4],
        process_meaning(96, a) matches Some(Syscall::SetTidAddress { tidptr }) && tidptr == a[0],
        process_meaning(98, a) matches Some(Syscall::Futex { uaddr, futex_op, val, timeout, uaddr2, val3 })
            && uaddr == a[0] && futex_op == a[1] && val == a[2] && timeout == a[3]
            && uaddr2 == a[4] && val3 == a[5],
        process_meaning(99, a) matches Some(Syscall::SetRobustList { head, len }) && head == a[0]
            && len == a[1],
        process_meaning(100, a) matches Some(Syscall::GetRobustList { pid, head_ptr, len_ptr })
            && pid == a[0] && head_ptr == a[1] && len_ptr == a[2],
        process_meaning(140, a) matches Some(Syscall::Setpriority { which, who, prio })
            && which == a[0] && who == a[1] && prio == a[2] as isize,
        process_meaning(141, a) matches Some(Syscall::Getpriority { which, who }) && which == a[0]
            && who == a[1],
        process_meaning(153, a) matches Some(Syscall::Times { buf }) && buf == a[0],
        process_meaning(154, a) matches Some(Syscall::Setpgid { pid, pgid }) && pid == a[0]
            && pgid == a[1],
        process_meaning(155, a) matches Some(Syscall::Getpgid { pid }) && pid == a[0],
        process_meaning(157, a) == Some(Syscall::Setsid),
        process_meaning(158, a) matches Some(Syscall::Getgroups { size, list }) && size == a[0]
            && list == a[1],
        process_meaning(159, a) matches Some(Syscall::Setgroups { size, list }) && size == a[0]
            && list == a[1],
        process_meaning(163, a) matches Some(Syscall::Getrlimit { resource, old_limit })
            && resource == a[0] && old_limit == a[1],
        process_meaning(164, a) matches Some(Syscall::Setrlimit { resource, new_limit })
            && resource == a[0] && new_limit == a[1],
        process_meaning(165, a) matches Some(Syscall::Getrusage { who, usage })
            && who == a[0] as isize && usage == a[1],
        process_meaning(166, a) matches Some(Syscall::Umask { mask }) && mask == a[0],
        process_meaning(172, a) == Some(Syscall::Getpid),
        process_meaning(173, a) == Some(Syscall::Getppid),
        process_meaning(178, a) == Some(Syscall::Gettid),
        process_meaning(220, a) matches Some(Syscall::Clone { flags, stack, ptid, arg3, arg4 })
            && flags == a[0] && stack == a[1] && ptid == a[2] && arg3 == a[3] && arg4 == a[4],
        process_meaning(221, a) matches Some(Syscall::Execve { path, args, envp }) && path == a[0]
            && args == a[1] && envp == a[2],
        process_meaning(281, a) matches Some(Syscall::Execveat { dirfd, path, args, envp, flags })
            && dirfd == a[0] as isize && path == a[1] && args == a[2] && envp == a[3]
            && flags == a[4],
        process_meaning(260, a) matches Some(Syscall::Wait4 { pid, exit_code_ptr, options, rusage })
            && pid == a[0] as isize && exit_code_ptr == a[1] && options == a[2] && rusage == a[3],
        process_meaning(261, a) matches Some(Syscall::Prlimit64 { pid, resource, new_limit, old_limit })
            && pid == a[0] && resource == a[1] && new_limit == a[2] && old_limit == a[3],
{
}

/// The numbers of the calls about identities, and the registers that each argument comes from.
pub proof fn credential_calls_are_numbered(a: [usize; 6])
    ensures
        credential_meaning(143, a) matches Some(Syscall::Setregid { rgid, egid }) && rgid == a[0]
            && egid == a[1],
        credential_meaning(144, a) matches Some(Syscall::Setgid { gid }) && gid == a[0],
        credential_meaning(145, a) matches Some(Syscall::Setreuid { ruid, euid }) && ruid == a[0]
            && euid == a[1],
        credential_meaning(146, a) matches Some(Syscall::Setuid { uid }) && uid == a[0],
        credential_meaning(147, a) matches Some(Syscall::Setresuid { ruid, euid, suid })
            && ruid == a[0] && euid == a[1] && suid == a[2],
        credential_meaning(148, a) matches Some(Syscall::Getresuid { ruid, euid, suid })
            && ruid == a[0] && euid == a[1] && suid == a[2],
        credential_meaning(149, a) matches Some(Syscall::Setresgid { rgid, egid, sgid })
            && rgid == a[0] && egid == a[1] && sgid == a[2],
        credential_meaning(150, a) matches Some(Syscall::Getresgid { rgid, egid, sgid })
            && rgid == a[0] && egid == a[1] && sgid == a[2],
        credential_meaning(151, a) matches Some(Syscall::Setfsuid { uid }) && uid == a[0],
        credential_meaning(152, a) matches Some(Syscall::Setfsgid { gid }) && gid == a[0],
        credential_meaning(174, a) == Some(Syscall::Getuid),
        credential_meaning(175, a) == Some(Syscall::Geteuid),
        credential_meaning(176, a) == Some(Syscall::Getgid),
        credential_meaning(177, a) == Some(Syscall::Getegid),
{
}

/// The numbers of the calls about time, and the registers that each argument comes from.
pub proof fn time_calls_are_numbered(a: [usize; 6])
    ensures
        time_meaning(101, a) matches Some(Syscall::Nanosleep { req, rem }) && req == a[0]
            && rem == a[1],
        time_meaning(102, a) matches Some(Syscall::Getitimer { which, curr_value })
            && which == a[0] && curr_value == a[1],
        time_meaning(103, a) matches Some(Syscall::Setitimer { which, new_value, old_value })
            && which == a[0] && new_value == a[1] && old_value == a[2],
        time_meaning(107, a) matches Some(Syscall::TimerCreate { clock_id, sevp, timerid })
            && clock_id == a[0] && sevp == a[1] && timerid == a[2],
        time_meaning(108, a) matches Some(Syscall::TimerGettime { timerid, curr_value })
            && timerid == a[0] && curr_value == a[1],
        time_meaning(109, a) matches Some(Syscall::TimerGetoverrun { timerid }) && timerid == a[0],
        time_meaning(110, a) matches Some(Syscall::TimerSettime { timerid, flags, new_value, old_value })
            && timerid == a[0] && flags == a[1] && new_value == a[2] && old_value == a[3],
        time_meaning(111, a) matches Some(Syscall::TimerDelete { timerid }) && timerid == a[0],
        time_meaning(112, a) matches Some(Syscall::ClockSettime { clock_id, tp })
            && clock_id == a[0] && tp == a[1],
        time_meaning(113, a) matches Some(Syscall::ClockGettime { clock_id, tp })
            && clock_id == a[0] && tp == a[1],
        time_meaning(114, a) matches Some(Syscall::ClockGetres { clock_id, res })
            && clock_id == a[0] && res == a[1],
        time_meaning(115, a) matches Some(Syscall::ClockNanosleep { clock_id, flags, req, rem })
            && clock_id == a[0] && flags == a[1] && req == a[2] && rem == a[3],
        time_meaning(169, a) matches Some(Syscall::Gettimeofday { tv, tz }) && tv == a[0]
            && tz == a[1],
        time_meaning(170, a) matches Some(Syscall::Settimeofday { tv, tz }) && tv == a[0]
            && tz == a[1],
        time_meaning(171, a) matches Some(Syscall::Adjtimex { buf }) && buf == a[0],
        time_meaning(266, a) matches Some(Syscall::ClockAdjtime { clock_id, buf })
            && clock_id == a[0] && buf == a[1],
{
}

/// The numbers of the calls about scheduling, and the registers that each argument comes from.
pub proof fn schedule_calls_are_numbered(a: [usize; 6])
    ensures
        schedule_meaning(118, a) matches Some(Syscall::SchedSetparam { pid, param })
            && pid == a[0] as isize && param == a[1],
        schedule_meaning(119, a) matches Some(Syscall::SchedSetscheduler { pid, policy, param })
            && pid == a[0] as isize && policy == a[1] && param == a[2],
        schedule_meaning(120, a) matches Some(Syscall::SchedGetscheduler { pid })
            && pid == a[0] as isize,
        schedule_meaning(121, a) matches Some(Syscall::SchedGetparam { pid, param })
            && pid == a[0] as isize && param == a[1],
        schedule_meaning(122, a) matches Some(Syscall::SchedSetaffinity { pid, cpusetsize, mask })
            && pid == a[0] as isize && cpusetsize == a[1] && mask == a[2],
        schedule_meaning(123, a) matches Some(Syscall::SchedGetaffinity { pid, cpusetsize, mask })
            && pid == a[0] as isize && cpusetsize == a[1] && mask == a[2],
        schedule_meaning(124, a) == Some(Syscall::SchedYield),
        schedule_meaning(125, a) matches Some(Syscall::SchedGetPriorityMax { policy })
            && policy == a[0] as isize,
        schedule_meaning(126, a) matches Some(Syscall::SchedGetPriorityMin { policy })
            && policy == a[0] as isize,
        schedule_meaning(127, a) matches Some(Syscall::SchedRrGetInterval { pid, interval })
            && pid == a[0] as isize && interval == a[1],
        schedule_meaning(274, a) matches Some(Syscall::SchedSetattr { pid, attr, flags })
            && pid == a[0] as isize && attr == a[1] && flags == a[2] as u32,
        schedule_meaning(275, a) matches Some(Syscall::SchedGetattr { pid, attr, size, flags })
            && pid == a[0] as isize && attr == a[1] && size == a[2] as u32 && flags == a[3] as u32,
{
}

/// The numbers of the calls about signals, and the registers that each argument comes from.
pub proof fn signal_calls_are_numbered(a: [usize; 6])
    ensures
        signal_meaning(129, a) matches Some(Syscall::Kill { pid, signum }) && pid == a[0]
            && signum == a[1] as i32,
        signal_meaning(130, a) matches Some(Syscall::Tkill { tid, signum }) && tid == a[0]
            && signum == a[1] as i32,
        signal_meaning(131, a) matches Some(Syscall::Tgkill { tgid, tid, signum }) && tgid == a[0]
            && tid == a[1] && signum == a[2] as i32,
        signal_meaning(132, a) matches Some(Syscall::Sigaltstack { new_stack, old_stack })
            && new_stack == a[0] && old_stack == a[1],
        signal_meaning(133, a) matches Some(Syscall::RtSigsuspend { mask, sigsetsize })
            && mask == a[0] && sigsetsize == a[1],
        signal_meaning(134, a) matches Some(Syscall::Sigaction { signum, act, oldact, sigsetsize })
            && signum == a[0] as i32 && act == a[1] && oldact == a[2] && sigsetsize == a[3],
        signal_meaning(135, a) matches Some(Syscall::Sigprocmask { how, set, oldset, sigsetsize })
            && how == a[0] && set == a[1] && oldset == a[2] && sigsetsize == a[3],
        signal_meaning(136, a) matches Some(Syscall::RtSigpending { set, sigsetsize })
            && set == a[0] && sigsetsize == a[1],
        signal_meaning(137, a) matches Some(Syscall::RtSigtimedwait { set_ptr, info_ptr, timeout_ptr, sigsetsize })
            && set_ptr == a[0] && info_ptr == a[1] && timeout_ptr == a[2] && sigsetsize == a[3],
        signal_meaning(138, a) matches Some(Syscall::RtSigqueueinfo { tgid, signum, uinfo })
            && tgid == a[0] && signum == a[1] as i32 && uinfo == a[2],
        signal_meaning(139, a) == Some(Syscall::Sigreturn),
{
}

/// The numbers of the calls about memory, and the registers that each argument comes from.
pub proof fn memory_calls_are_numbered(a: [usize; 6])
    ensures
        memory_meaning(194, a) matches Some(Syscall::Shmget { key, size, shmflg })
            && key == a[0] as isize && size == a[1] && shmflg == a[2],
        memory_meaning(195, a) matches Some(Syscall::Shmctl { shmid, cmd, buf }) && shmid == a[0]
            && cmd == a[1] && buf == a[2],
        memory_meaning(196, a) matches Some(Syscall::Shmat { shmid, shmaddr, shmflg })
            && shmid == a[0] && shmaddr == a[1] && shmflg == a[2],
        memory_meaning(197, a) matches Some(Syscall::Shmdt { shmaddr }) && shmaddr == a[0],
        memory_meaning(214, a) matches Some(Syscall::Brk { addr }) && addr == a[0],
        memory_meaning(215, a) matches Some(Syscall::Munmap { addr, len }) && addr == a[0]
            && len == a[1],
        memory_meaning(222, a) matches Some(Syscall::Mmap { addr, len, prot, flags, fd, offset })
            && addr == a[0] && len == a[1] && prot == a[2] && flags == a[3] && fd == a[4] as isize
            && offset == a[5],
        memory_meaning(226, a) matches Some(Syscall::Mprotect { addr, len, prot }) && addr == a[0]
            && len == a[1] && prot == a[2] as u32,
        memory_meaning(216, a) matches Some(Syscall::Mremap { old_addr, old_size, new_size, flags, new_addr })
            && old_addr == a[0] && old_size == a[1] && new_size == a[2] && flags == a[3]
            && new_addr == a[4],
        memory_meaning(227, a) matches Some(Syscall::Msync { addr, len, flags }) && addr == a[0]
            && len == a[1] && flags == a[2] as i32,
        memory_meaning(228, a) matches Some(Syscall::Mlock { addr, len }) && addr == a[0]
            && len == a[1],
        memory_meaning(229, a) matches Some(Syscall::Munlock { addr, len }) && addr == a[0]
            && len == a[1],
        memory_meaning(233, a) matches Some(Syscall::Madvise { addr, len, advice }) && addr == a[0]
            && len == a[1] && advice == a[2] as i32,
        memory_meaning(236, a) matches Some(Syscall::GetMempolicy { mode, nodemask, maxnode, addr, flags })
            && mode == a[0] && nodemask == a[1] && maxnode == a[2] && addr == a[3]
            && flags == a[4],
{
}

/// The numbers of the calls about sockets, and the registers that each argument comes from.
pub proof fn socket_calls_are_numbered(a: [usize; 6])
    ensures
        socket_meaning(198, a) matches Some(Syscall::Socket { domain, socket_type, protocol })
            && domain == a[0] && socket_type == a[1] && protocol == a[2],
        socket_meaning(199, a) matches Some(Syscall::Socketpair { domain, socket_type, protocol, sv })
            && domain == a[0] && socket_type == a[1] && protocol == a[2] && sv == a[3],
        socket_meaning(200, a) matches Some(Syscall::Bind { socketfd, socketaddr, socketlen })
            && socketfd == a[0] && socketaddr == a[1] && socketlen == a[2],
        socket_meaning(201, a) matches Some(Syscall::Listen { socketfd, backlog })
            && socketfd == a[0] && backlog == a[1],
        socket_meaning(202, a) matches Some(Syscall::Accept { socketfd, addr, addrlen })
            && socketfd == a[0] && addr == a[1] && addrlen == a[2],
        socket_meaning(203, a) matches Some(Syscall::Connect { socketfd, addr, addrlen })
            && socketfd == a[0] && addr == a[1] && addrlen == a[2],
        socket_meaning(204, a) matches Some(Syscall::Getsockname { socketfd, addr, addrlen })
            && socketfd == a[0] && addr == a[1] && addrlen == a[2],
        socket_meaning(205, a) matches Some(Syscall::Getpeername { socketfd, addr, addrlen })
            && socketfd == a[0] && addr == a[1] && addrlen == a[2],
        socket_meaning(206, a) matches Some(Syscall::Sendto { fd, buf, len, flags, dest_addr, addrlen })
            && fd == a[0] && buf == a[1] && len == a[2] && flags == a[3] && dest_addr == a[4]
            && addrlen == a[5],
        socket_meaning(207, a) matches Some(Syscall::Recvfrom { fd, buf, len, flags, src_addr, addrlen })
            && fd == a[0] && buf == a[1] && len == a[2] && flags == a[3] && src_addr == a[4]
            && addrlen == a[5],
        socket_meaning(208, a) matches Some(Syscall::Setsockopt { fd, level, optname, optval, optlen })
            && fd == a[0] && level == a[1] && optname == a[2] && optval == a[3] && optlen == a[4],
        socket_meaning(209, a) matches Some(Syscall::Getsockopt { fd, level, optname, optval, optlen })
            && fd == a[0] && level == a[1] && optname == a[2] && optval == a[3] && optlen == a[4],
        socket_meaning(210, a) matches Some(Syscall::Shutdown { fd, how }) && fd == a[0]
            && how == a[1],
        socket_meaning(211, a) matches Some(Syscall::Sendmsg { fd, msg, flags }) && fd == a[0]
            && msg == a[1] && flags == a[2],
        socket_meaning(212, a) matches Some(Syscall::Recvmsg { fd, msg, flags }) && fd == a[0]
            && msg == a[1] && flags == a[2],
        socket_meaning(242, a) matches Some(Syscall::Accept4 { socketfd, addr, addrlen, flags })
            && socketfd == a[0] && addr == a[1] && addrlen == a[2] && flags == a[3],
        socket_meaning(243, a) matches Some(Syscall::Recvmmsg { fd, msgvec, vlen, flags, timeout })
            && fd == a[0] && msgvec == a[1] && vlen == a[2] && flags == a[3] && timeout == a[4],
        socket_meaning(269, a) matches Some(Syscall::Sendmmsg { fd, msgvec, vlen, flags })
            && fd == a[0] && msgvec == a[1] && vlen == a[2] && flags == a[3],
{
}

/// The numbers of the calls about the system, and the registers that each argument comes from.
pub proof fn system_calls_are_numbered(a: [usize; 6])
    ensures
        system_meaning(116, a) matches Some(Syscall::Syslog { action, buf, len }) && action == a[0]
            && buf == a[1] && len == a[2] as isize,
        system_meaning(142, a) == Some(Syscall::Reboot),
        system_meaning(160, a) matches Some(Syscall::Uname { buf }) && buf == a[0],
        system_meaning(161, a) matches Some(Syscall::Sethostname { name, len }) && name == a[0]
            && len == a[1],
        system_meaning(162, a) matches Some(Syscall::Setdomainname { name, len }) && name == a[0]
            && len == a[1],
        system_meaning(179, a) matches Some(Syscall::Sysinfo { buf }) && buf == a[0],
        system_meaning(278, a) matches Some(Syscall::Getrandom { buf, buflen, flags })
            && buf == a[0] && buflen == a[1] && flags == a[2],
        system_meaning(280, a) matches Some(Syscall::Bpf { cmd, attr, size }) && cmd == a[0]
            && attr == a[1] && size == a[2],
{
}

} // verus!
