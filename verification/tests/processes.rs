use respos::errno::Errno;
use respos::signal::sig_deliver::{Arch, TrapContext};
use respos::sorted_map::SortedMap;
use respos::syscall::clone::{child_tid_range, finish_clone, set_up_child, sys_clone};
use respos::syscall::credentials::{
    sys_getegid, sys_geteuid, sys_getgid, sys_getgroups, sys_getresgid, sys_getresuid, sys_getuid,
    sys_setfsgid, sys_setfsuid, sys_setgid, sys_setgroups, sys_setregid, sys_setresgid, sys_setresuid,
    sys_setreuid, sys_setuid, sys_umask, Credentials,
};
use respos::syscall::exec::{
    after_failed_lookup, builtin_for_fs_exec, check_embedded, check_exec_permission, check_interpreter,
    exec_fs_file, exec_head_len, execveat_environment, finish_ltp_noop_mkfs, is_elf, is_ltp_noop_mkfs, is_noop_exec_marker,
    shebang_args, shebang_busybox_path, sys_execve, sys_execveat, ExecStep, ExecveStep, ExecveatStep,
    FileMode,
};
use respos::syscall::futex::{sys_futex, FutexStep, FutexWaiters};
use respos::syscall::process::{
    sys_capget, sys_capset, sys_exit, sys_exit_group, sys_get_robust_list, sys_getpgid, sys_getpid,
    sys_getppid, sys_getrandom, sys_getsid, sys_gettid, sys_membarrier, sys_set_robust_list,
    sys_set_tid_address, sys_setpgid, sys_setsid, CapUserData, CapUserHeader, Ending, ThreadState,
};
use respos::syscall::rusage::{
    rusage_from_snapshot, sys_getrlimit, sys_getrusage, sys_prlimit64, sys_setrlimit, Accounting, RLimit,
    ResourceUsage,
};
use respos::syscall::schedule::{
    sys_getpriority, sys_sched_get_priority_max, sys_sched_get_priority_min, sys_sched_getaffinity,
    sys_sched_getattr, sys_sched_getparam, sys_sched_getscheduler, sys_sched_rr_get_interval,
    sys_sched_setaffinity, sys_sched_setattr, sys_sched_setparam, sys_sched_setscheduler, sys_sched_yield,
    sys_setpriority, SchedAttr, SchedTable, SchedTask,
};
use respos::syscall::wait::{
    sys_wait4, sys_waitid, wait_must_sleep, waitid_retry, Child, Wait4Step, Waiter, WaitidStep,
};
use respos::task::{
    add_initproc, exit_current_and_run_next, find_process, suspend_current_and_run_next, Process, Scheduler,
    TaskEntry, TaskStatus,
};
use respos::user::{UserIn, UserOut};

fn process(tgid: usize, parent: usize) -> Process {
    Process {
        tgid,
        pgid: tgid,
        sid: 1,
        uid: 100,
        euid: 100,
        suid: 100,
        nice: 0,
        alive: true,
        leader: true,
        stopped: false,
        did_exec: false,
        parent,
    }
}

fn thread() -> ThreadState {
    ThreadState {
        tid: 11,
        tgid: 10,
        parent: Some(3),
        clear_child_tid: 0,
        robust_head: None,
        robust_len: 0,
        cap_effective: 0xff,
        cap_permitted: 0xff,
        cap_inheritable: 0,
    }
}

fn user(id: usize) -> Credentials {
    Credentials {
        uid: id,
        euid: id,
        suid: id,
        fsuid: id,
        gid: id,
        egid: id,
        sgid: id,
        fsgid: id,
        groups: vec![5],
        umask: 0o022,
    }
}

fn usage(n: usize) -> ResourceUsage {
    ResourceUsage {
        maxrss_pages: n,
        minflt: n,
        majflt: n,
        inblock: n,
        oublock: n,
        nvcsw: n,
        nivcsw: n,
    }
}

#[test]
fn words_are_waited_on() {
    let mut w = FutexWaiters::new();
    assert!(matches!(sys_futex(&mut w, 1, 0x40, 0, 7, UserIn::Value(7)), FutexStep::Sleep));
    assert!(matches!(sys_futex(&mut w, 2, 0x80, 128, 7, UserIn::Value(7)), FutexStep::Sleep));
    assert!(matches!(sys_futex(&mut w, 3, 0x40, 0, 0xffff_ffff, UserIn::Value(-1)), FutexStep::Sleep));
    assert!(matches!(
        sys_futex(&mut w, 4, 0x40, 0, 7, UserIn::Value(8)),
        FutexStep::Return(Err(Errno::EAGAIN))
    ));
    assert!(matches!(
        sys_futex(&mut w, 4, 0, 0, 7, UserIn::Null),
        FutexStep::Return(Err(Errno::EFAULT))
    ));
    assert!(matches!(sys_futex(&mut w, 4, 0x40, 3, 7, UserIn::Value(7)), FutexStep::Other));
    match sys_futex(&mut w, 4, 0x40, 129, 1, UserIn::Null) {
        FutexStep::Wake(tids) => assert_eq!(tids, vec![1]),
        _ => panic!("nobody is woken"),
    }
    match sys_futex(&mut w, 4, 0x40, 1, 9, UserIn::Null) {
        FutexStep::Wake(tids) => assert_eq!(tids, vec![3]),
        _ => panic!("nobody is woken"),
    }
    assert_eq!(w.entries, vec![(0x80, 2)]);
}

#[test]
fn numbers_of_a_thread() {
    let mut t = thread();
    assert_eq!(sys_gettid(&t), Ok(11));
    assert_eq!(sys_getpid(&t), Ok(10));
    assert_eq!(sys_getppid(&t), Ok(3));
    assert_eq!(sys_set_tid_address(&mut t, 0x1000), Ok(11));
    assert_eq!(t.clear_child_tid, 0x1000);
    assert_eq!(sys_set_robust_list(&mut t, 0x2000, 24), Ok(0));
    assert_eq!(sys_set_robust_list(&mut t, 0x2000, 23), Err(Errno::EINVAL));
    let r = sys_get_robust_list(&t, 0, UserOut::Writable, UserOut::Writable);
    assert_eq!(r.ret, Ok(0));
    assert_eq!(r.head, Some(0x2000));
    assert_eq!(r.len, Some(24));
    assert_eq!(sys_exit(3), Ending::Thread(3));
    assert_eq!(sys_exit_group(4), Ending::Group(4));
}

#[test]
fn barriers() {
    assert!(sys_membarrier(0, 0).is_ok());
    assert_eq!(sys_membarrier(0, 1), Err(Errno::EINVAL));
    assert_eq!(sys_membarrier(-5, 0), Err(Errno::EINVAL));
}

#[test]
fn capabilities() {
    let mut t = thread();
    let head = CapUserHeader { version: 0x2008_0522, pid: 0 };
    let r = sys_capget(&t, UserIn::Value(head), Ok(t), UserOut::Writable);
    assert_eq!(r.ret, Ok(0));
    assert_eq!(r.out.unwrap().effective, 0xff);
    let wish = CapUserData { effective: 1, permitted: 3, inheritable: 0 };
    let none = CapUserData { effective: 0, permitted: 0, inheritable: 0 };
    assert_eq!(
        sys_capset(&mut t, UserIn::Value(head), Ok(11), UserIn::Value((wish, none))),
        Ok(0)
    );
    assert_eq!((t.cap_effective, t.cap_permitted), (1, 3));
    assert_eq!(
        sys_capset(&mut t, UserIn::Value(head), Ok(11), UserIn::Fault),
        Err(Errno::EFAULT)
    );
    let more = CapUserData { effective: 8, permitted: 8, inheritable: 0 };
    assert_eq!(
        sys_capset(&mut t, UserIn::Value(head), Ok(11), UserIn::Value((more, none))),
        Err(Errno::EPERM)
    );
}

#[test]
fn process_groups() {
    let mut procs = vec![process(1, 0), process(10, 1), process(11, 10)];
    procs[0].sid = 1;
    let r = sys_setpgid(&mut procs, 1, 11, 10).unwrap();
    assert_eq!((r.old_pgid, r.new_pgid), (11, 10));
    assert_eq!(sys_getpgid(&procs, 1, 11), Ok(10));
    assert_eq!(sys_setpgid(&mut procs, 1, 1, 10).err(), Some(Errno::ESRCH));
    assert_eq!(sys_setpgid(&mut procs, 1, 11, -1).err(), Some(Errno::EINVAL));
    assert_eq!(sys_getpgid(&procs, 1, 77).err(), Some(Errno::ESRCH));
    assert_eq!(sys_getsid(&procs, 1, 0), Ok(1));
    assert_eq!(find_process(&procs, 11), Some(2));
    assert_eq!(find_process(&procs, 12), None);
}

#[test]
fn child_that_runs_a_program_keeps_its_group() {
    let mut procs = vec![process(10, 1), process(11, 10)];
    procs[1].did_exec = true;
    assert_eq!(sys_setpgid(&mut procs, 0, 11, 11).err(), Some(Errno::EACCES));
}

#[test]
fn new_session() {
    let mut procs = vec![process(10, 1), process(11, 10)];
    procs[1].pgid = 10;
    assert_eq!(sys_setsid(&mut procs, 0).err(), Some(Errno::EPERM));
    let r = sys_setsid(&mut procs, 1).unwrap();
    assert_eq!((r.sid, r.old_sid), (11, 1));
    assert_eq!(sys_getsid(&procs, 1, 0), Ok(11));
    assert_eq!(sys_getpgid(&procs, 1, 0), Ok(11));
}

#[test]
fn random_bytes_follow_from_the_time() {
    let a = sys_getrandom(UserOut::Writable, 16, 0, 1000);
    assert_eq!(a.ret, Ok(16));
    let b = sys_getrandom(UserOut::Writable, 16, 0, 1000);
    assert_eq!(a.out, b.out);
    let c = sys_getrandom(UserOut::Writable, 16, 0, 1001);
    assert_ne!(a.out, c.out);
    let mut seed: u64 = 1000 ^ 0x7265_7370_6f73;
    seed ^= seed << 7;
    seed ^= seed >> 9;
    assert_eq!(a.out.unwrap()[0], seed as u8);
    assert_eq!(sys_getrandom(UserOut::Fault, 16, 0, 0).ret, Err(Errno::EFAULT));
}

#[test]
fn user_numbers_change_with_privilege() {
    let mut c = user(100);
    assert_eq!(sys_getuid(&c), Ok(100));
    assert_eq!(sys_setuid(&mut c, 0), Err(Errno::EPERM));
    assert_eq!(sys_setuid(&mut c, 100), Ok(0));
    assert_eq!(sys_setresuid(&mut c, 1, 2, 3), Err(Errno::EPERM));
    let mut root = user(0);
    assert_eq!(sys_setresuid(&mut root, 1, 2, 3), Ok(0));
    assert_eq!((root.uid, root.euid, root.suid), (1, 2, 3));
    assert_eq!(sys_geteuid(&root), Ok(2));
    let r = sys_getresuid(&root, UserOut::Writable, UserOut::Writable, UserOut::Writable);
    assert_eq!(r.ret, Ok(0));
    assert_eq!(r.out, vec![1, 2, 3]);
    assert_eq!(sys_setresuid(&mut root, usize::MAX, 3, usize::MAX), Ok(0));
    assert_eq!(root.euid, 3);
    let mut root = user(0);
    assert_eq!(sys_setreuid(&mut root, 7, 8), Ok(0));
    assert_eq!((root.uid, root.euid), (7, 8));
    assert_eq!(sys_setreuid(&mut root, 9, 9), Err(Errno::EPERM));
}

#[test]
fn group_numbers_change_with_privilege() {
    let mut c = user(100);
    assert_eq!(sys_getgid(&c), Ok(100));
    assert_eq!(sys_setgid(&mut c, 1), Err(Errno::EPERM));
    assert_eq!(sys_setregid(&mut c, 1, 1), Err(Errno::EPERM));
    let mut root = user(0);
    assert_eq!(sys_setresgid(&mut root, 1, 2, 3), Ok(0));
    assert_eq!(sys_getegid(&root), Ok(2));
    let r = sys_getresgid(&root, UserOut::Writable, UserOut::Fault, UserOut::Writable);
    assert_eq!(r.ret, Err(Errno::EFAULT));
    let groups = sys_getgroups(&root, 0, UserOut::Null);
    assert_eq!(groups.ret, Ok(1));
    assert_eq!(sys_getgroups(&root, 4, UserOut::Writable).out, Some(vec![5]));
    assert_eq!(sys_setgroups(&mut root, 2, UserIn::Value(vec![8, 9])), Ok(0));
    assert!(root.in_group(8));
    assert!(!root.in_group(5));
    assert_eq!(sys_setgroups(&mut c, 0, UserIn::Null), Err(Errno::EPERM));
}

#[test]
fn file_system_numbers_and_mask() {
    let mut c = user(100);
    assert_eq!(sys_setfsuid(&mut c, 3), Ok(100));
    assert_eq!(c.fsuid, 100);
    let mut root = user(0);
    assert_eq!(sys_setfsuid(&mut root, 3), Ok(0));
    assert_eq!(root.fsuid, 3);
    assert_eq!(sys_setfsgid(&mut root, 4), Ok(0));
    assert_eq!(root.fsgid, 4);
    assert_eq!(sys_umask(&mut root, 0o77777), Ok(0o022));
    assert_eq!(root.umask, 0o777);
}

fn sched() -> SchedTable {
    let t = SchedTask {
        tid: 1,
        uid: 0,
        euid: 0,
        policy: 0,
        priority: 0,
        nice: 0,
        reset_on_fork: false,
        affinity: 1,
    };
    SchedTable {
        tasks: vec![t, SchedTask { tid: 2, ..t }],
        current: 0,
        cap_sys_nice: true,
        rtprio_limit: 0,
        online: 3,
    }
}

#[test]
fn policies() {
    let mut t = sched();
    assert_eq!(sys_sched_get_priority_max(1), Ok(99));
    assert_eq!(sys_sched_get_priority_min(1), Ok(1));
    assert_eq!(sys_sched_get_priority_max(0), Ok(0));
    assert_eq!(sys_sched_get_priority_max(77), Err(Errno::EINVAL));
    assert_eq!(sys_sched_setscheduler(&mut t, 2, 1, UserIn::Value(5)), Ok(0));
    assert_eq!(sys_sched_getscheduler(&t, 2), Ok(1));
    assert_eq!(sys_sched_getparam(&t, 2, UserOut::Writable).out, Some(5));
    assert_eq!(sys_sched_setparam(&mut t, 2, UserIn::Value(7)), Ok(0));
    assert_eq!(t.tasks[1].priority, 7);
    assert_eq!(sys_sched_setscheduler(&mut t, 2, 1, UserIn::Value(0)), Err(Errno::EINVAL));
    assert_eq!(sys_sched_setscheduler(&mut t, 9, 1, UserIn::Value(5)), Err(Errno::ESRCH));
    assert_eq!(sys_sched_setscheduler(&mut t, -1, 1, UserIn::Value(5)), Err(Errno::EINVAL));
    assert_eq!(sys_sched_getscheduler(&t, 9), Err(Errno::ESRCH));
    assert!(sys_sched_rr_get_interval(&t, 2, UserOut::Writable).out.is_some());
}

#[test]
fn affinity() {
    let mut t = sched();
    assert_eq!(
        sys_sched_setaffinity(&mut t, 1, 8, UserIn::Value(2u64.to_le_bytes().to_vec())),
        Ok(0)
    );
    assert_eq!(t.tasks[0].affinity, 2);
    let r = sys_sched_getaffinity(&t, 1, 8, UserOut::Writable);
    assert_eq!(r.ret, Ok(8));
    assert_eq!(r.out, Some(2u64.to_le_bytes().to_vec()));
    assert_eq!(
        sys_sched_setaffinity(&mut t, 1, 8, UserIn::Value(4u64.to_le_bytes().to_vec())),
        Err(Errno::EINVAL)
    );
    assert_eq!(sys_sched_getaffinity(&t, 1, 1, UserOut::Writable).out, Some(vec![2]));
    assert_eq!(sys_sched_getaffinity(&t, 1, 0, UserOut::Writable).ret, Err(Errno::EINVAL));
}

#[test]
fn attributes() {
    let mut t = sched();
    let a = SchedAttr {
        size: 48,
        sched_policy: 2,
        sched_flags: 0x4000_0000,
        sched_nice: 0,
        sched_priority: 9,
        sched_runtime: 0,
        sched_deadline: 0,
        sched_period: 0,
    };
    assert_eq!(sys_sched_setattr(&mut t, 2, UserIn::Value(a), 0), Ok(0));
    assert_eq!((t.tasks[1].policy, t.tasks[1].priority), (2, 9));
    assert!(t.tasks[1].reset_on_fork);
    assert_eq!(sys_sched_setattr(&mut t, 2, UserIn::Value(a), 1), Err(Errno::EINVAL));
    let r = sys_sched_getattr(&t, 2, UserOut::Writable, 48, 0);
    assert_eq!(r.ret, Ok(0));
    let out = r.out.unwrap();
    assert_eq!((out.attr.sched_policy, out.attr.sched_priority), (2, 9));
    assert_eq!(sys_sched_getattr(&t, 2, UserOut::Writable, 8, 0).ret, Err(Errno::EINVAL));
}

#[test]
fn yielding_is_counted() {
    let mut c = respos::perf::counters::Counters::new(true);
    assert_eq!(sys_sched_yield(&mut c), Ok(0));
    assert_eq!(c.snapshot().syscall_yields, 1);
    assert_eq!(c.snapshot().process_yields, 1);
}

#[test]
fn nice_values() {
    let me = process(10, 1);
    let mut procs = vec![me, process(11, 10)];
    assert_eq!(sys_setpriority(&mut procs, &me, 0, 11, 5), Ok(0));
    assert_eq!(procs[1].nice, 5);
    assert_eq!(sys_getpriority(&procs, &me, 0, 11), Ok(15));
    assert_eq!(sys_setpriority(&mut procs, &me, 0, 11, -5), Err(Errno::EACCES));
    assert_eq!(sys_setpriority(&mut procs, &me, 0, 99, 0), Err(Errno::ESRCH));
    assert_eq!(sys_setpriority(&mut procs, &me, 9, 0, 0), Err(Errno::EINVAL));
}

fn waiter() -> Waiter {
    let mut children = SortedMap::new();
    children.insert(
        20,
        Child {
            pgid: 20,
            event: None,
            exited: true,
            wait_status: 0x300,
            utime: 7,
            stime: 8,
            resources: usage(2),
        },
    );
    children.insert(
        21,
        Child {
            pgid: 21,
            event: None,
            exited: false,
            wait_status: 0,
            utime: 0,
            stime: 0,
            resources: usage(0),
        },
    );
    Waiter {
        pgid: 10,
        children,
        exited: vec![20],
        child_utime: 1,
        child_stime: 1,
        child_resources: usage(0),
        interrupted: false,
    }
}

#[test]
fn waiting_for_a_child() {
    let mut w = waiter();
    match sys_wait4(&mut w, -1, UserOut::Writable, 0, UserOut::Null) {
        Wait4Step::Return { ret, status, .. } => {
            assert_eq!(ret, Ok(20));
            assert_eq!(status, Some(0x300));
        }
        _ => panic!("the wait goes on"),
    }
    assert!(!w.children.contains_key(20));
    assert_eq!((w.child_utime, w.child_stime), (8, 9));
    assert!(matches!(
        sys_wait4(&mut w, -1, UserOut::Null, 1, UserOut::Null),
        Wait4Step::Return { ret: Ok(0), .. }
    ));
    assert!(matches!(
        sys_wait4(&mut w, -1, UserOut::Null, 1 << 40 | 1, UserOut::Null),
        Wait4Step::Return { ret: Ok(0), .. }
    ));
    assert!(matches!(
        sys_wait4(&mut w, -1, UserOut::Null, 1 << 20, UserOut::Null),
        Wait4Step::Return { ret: Err(Errno::EINVAL), .. }
    ));
    assert!(matches!(
        sys_wait4(&mut w, -1, UserOut::Null, 0, UserOut::Null),
        Wait4Step::Sleep
    ));
    assert!(matches!(
        sys_wait4(&mut w, 77, UserOut::Null, 0, UserOut::Null),
        Wait4Step::Return { ret: Err(Errno::ECHILD), .. }
    ));
    w.interrupted = true;
    assert!(matches!(
        sys_wait4(&mut w, -1, UserOut::Null, 0, UserOut::Null),
        Wait4Step::Return { ret: Err(Errno::EINTR), .. }
    ));
}

#[test]
fn waiting_without_taking() {
    let mut w = waiter();
    match sys_waitid(&mut w, 0, 0, UserOut::Writable, 4 | 0x0100_0000, UserOut::Null) {
        WaitidStep::Return { ret, info, .. } => {
            assert_eq!(ret, Ok(0));
            assert_eq!(info.unwrap().si_pid, 20);
        }
        _ => panic!("the wait goes on"),
    }
    assert!(w.children.contains_key(20));
    assert!(matches!(
        sys_waitid(&mut w, 0, 0, UserOut::Null, 0, UserOut::Null),
        WaitidStep::Return { ret: Err(Errno::EINVAL), .. }
    ));
    assert!(matches!(
        sys_waitid(&mut w, 1, 99, UserOut::Null, 4, UserOut::Null),
        WaitidStep::Return { ret: Err(Errno::ECHILD), .. }
    ));
    w.interrupted = true;
    assert!(waitid_retry(&mut w));
    assert!(!w.interrupted);
    w.exited.clear();
    assert!(!waitid_retry(&mut w));
    assert!(wait_must_sleep(false, 3, 3, false));
    assert!(!wait_must_sleep(false, 3, 4, false));
    assert!(!wait_must_sleep(true, 3, 3, false));
}

#[test]
fn resource_usage() {
    let r = rusage_from_snapshot(10_000_000, 0, &usage(3));
    assert_eq!(r.ru_maxrss, 12);
    assert_eq!((r.ru_minflt, r.ru_nvcsw), (3, 3));
    let mut a = Accounting {
        process_ticks: (1, 2),
        child_ticks: (0, 0),
        thread_ticks: (0, 0),
        process: usage(1),
        child: usage(2),
        thread: usage(3),
    };
    let r = sys_getrusage(&mut a, -1, 9, UserOut::Writable);
    assert_eq!(r.ret, Ok(0));
    assert_eq!(r.out.unwrap().ru_minflt, 2);
    assert_eq!(sys_getrusage(&mut a, 5, 9, UserOut::Writable).ret, Err(Errno::EINVAL));
    assert_eq!(sys_getrusage(&mut a, 0, 9, UserOut::Fault).ret, Err(Errno::EFAULT));
}

#[test]
fn limits() {
    let mut l = Ok(vec![RLimit { cur: 5, max: 10 }; 16]);
    assert_eq!(
        sys_setrlimit(&mut l, 100, 7, UserIn::Value(RLimit { cur: 6, max: 10 }), Ok(())),
        Ok(0)
    );
    assert_eq!(
        sys_getrlimit(&mut l, 7, UserOut::Writable).out,
        Some(RLimit { cur: 6, max: 10 })
    );
    assert_eq!(
        sys_setrlimit(&mut l, 100, 7, UserIn::Value(RLimit { cur: 6, max: 11 }), Ok(())),
        Err(Errno::EPERM)
    );
    assert_eq!(
        sys_setrlimit(&mut l, 0, 7, UserIn::Value(RLimit { cur: 12, max: 11 }), Ok(())),
        Err(Errno::EINVAL)
    );
    let r = sys_prlimit64(
        &mut l,
        0,
        7,
        UserIn::Value(RLimit { cur: 1, max: 2 }),
        Ok(()),
        UserOut::Writable,
    );
    assert_eq!(r.ret, Ok(0));
    assert_eq!(r.out, Some(RLimit { cur: 6, max: 10 }));
    assert_eq!(sys_getrlimit(&mut l, 99, UserOut::Writable).ret, Err(Errno::EINVAL));
}

const EVERY_FLAG: u32 = 0xffff_ffff;

#[test]
fn flags_of_a_new_thread() {
    let plan = sys_clone(Arch::Riscv64, EVERY_FLAG, 0, 0x100 | 0x4000, 0, 0, 0, 0).unwrap();
    assert!(plan.vfork);
    assert_eq!(plan.stack, None);
    let end = finish_clone(&plan, Ok(33), Ok(()), Ok(()), true);
    assert_eq!(end.ret, Ok(33));
    assert!(end.publish && end.wait);
    let failed = finish_clone(&plan, Err(Errno::ENOMEM), Ok(()), Ok(()), true);
    assert_eq!(failed.ret, Err(Errno::ENOMEM));
    assert!(!failed.publish);
    assert_eq!(finish_clone(&plan, Ok(33), Ok(()), Ok(()), false).ret, Err(Errno::ESRCH));
    assert_eq!(
        sys_clone(Arch::Riscv64, 0x100, 0, 0x4000, 0, 0, 0, 0).err(),
        Some(Errno::EINVAL)
    );
    assert_eq!(
        sys_clone(Arch::Riscv64, EVERY_FLAG, 0, 0x800, 0, 0, 0, 0).err(),
        Some(Errno::EINVAL)
    );
    let tls = sys_clone(Arch::Riscv64, EVERY_FLAG, 0, 0x0008_0000, 0x10000, 0, 0x5000, 0x6000).unwrap();
    assert_eq!(tls.tls, Some(0x5000));
    let other = sys_clone(Arch::LoongArch64, EVERY_FLAG, 0, 0x0008_0000, 0x10000, 0, 0x5000, 0x6000).unwrap();
    assert_eq!(other.tls, Some(0x6000));
    assert!(child_tid_range(usize::MAX).is_err());
    let mut trap = TrapContext { arch: Arch::Riscv64, x: [9; 32], sepc: 5 };
    set_up_child(&mut trap, &tls);
    assert_eq!((trap.x[2], trap.x[4], trap.x[10], trap.x[11]), (0x10000, 0x5000, 0, 9));
}

fn words(a: &[&str]) -> Vec<String> {
    a.iter().map(|s| String::from(*s)).collect()
}

#[test]
fn kinds_of_programs() {
    assert!(is_elf(b"\x7fELF\x02"));
    assert!(!is_elf(b"\x7fEL"));
    assert!(is_noop_exec_marker(b"RESPOS_NOOP_EXEC\n"));
    assert!(!is_noop_exec_marker(b"RESPOS_NOOP_EXEC"));
    assert_eq!(exec_head_len(1000), 256);
    assert_eq!(exec_head_len(10), 10);
    assert!(is_ltp_noop_mkfs("/sbin/mkfs.ext4"));
    assert!(!is_ltp_noop_mkfs("/sbin/mkfs.ext4/x"));
    assert!(finish_ltp_noop_mkfs("/bin/sh", &words(&["sh", "-c", " mkfs.ext2 /dev/x"])));
    assert!(!finish_ltp_noop_mkfs("/bin/sh", &words(&["sh", "mkfs.ext2"])));
    assert_eq!(
        builtin_for_fs_exec("/bin/cp", &words(&["cp", "/x/ltp/testcases/bin/a", "."])),
        Some("cp")
    );
    assert_eq!(builtin_for_fs_exec("/bin/cp", &words(&["cp", "a", "."])), None);
    assert_eq!(shebang_busybox_path("/glibc/x"), "/glibc/busybox");
    assert_eq!(shebang_busybox_path("/x"), "/musl/busybox");
}

#[test]
fn scripts() {
    let (path, args) = shebang_args(
        "/x/s.sh",
        b"#!/bin/python -u\nprint",
        &words(&["s.sh", "one"]),
    )
    .unwrap();
    assert_eq!(path, "/bin/python");
    assert_eq!(args, words(&["/bin/python", "-u", "/x/s.sh", "one"]));
    assert!(shebang_args("/x/s.sh", b"echo", &words(&["s.sh"])).is_none());
}

#[test]
fn permission_to_execute() {
    let f = FileMode { directory: false, mode: 0o750, uid: 100, gid: 5 };
    assert_eq!(check_exec_permission(&user(100), &f), Ok(()));
    assert_eq!(check_exec_permission(&user(101), &f), Ok(()));
    let mut stranger = user(101);
    stranger.groups = Vec::new();
    assert_eq!(check_exec_permission(&stranger, &f), Err(Errno::EACCES));
    let dir = FileMode { directory: true, ..f };
    assert_eq!(check_exec_permission(&user(100), &dir), Err(Errno::EACCES));
    assert_eq!(
        check_interpreter(&user(100), &f, Ok(b"text".to_vec())),
        Err(Errno::ENOEXEC)
    );
}

#[test]
fn starting_a_program() {
    let f = FileMode { directory: false, mode: 0o755, uid: 100, gid: 5 };
    let c = user(100);
    assert!(matches!(
        exec_fs_file(&c, &f, false, "/bin/x", &words(&["x"]), Ok(b"\x7fELF".to_vec())),
        ExecStep::Load
    ));
    assert!(matches!(
        exec_fs_file(&c, &f, true, "/bin/x", &words(&["x"]), Ok(b"\x7fELF".to_vec())),
        ExecStep::Fail(Errno::EACCES)
    ));
    assert!(matches!(
        exec_fs_file(&c, &f, false, "/bin/x", &words(&["x"]), Ok(b"RESPOS_NOOP_EXEC\n".to_vec())),
        ExecStep::ExitZero
    ));
    assert!(matches!(
        exec_fs_file(&c, &f, false, "/bin/x", &words(&["x"]), Err(Errno::EIO)),
        ExecStep::Fail(Errno::EIO)
    ));
    assert!(matches!(
        sys_execve(Err(Errno::EFAULT), Ok(Vec::new()), Ok(Vec::new()), false),
        ExecveStep::Fail(Errno::EFAULT)
    ));
    assert!(matches!(
        sys_execve(Ok(String::from("/sbin/mkfs")), Ok(words(&["mkfs"])), Ok(Vec::new()), false),
        ExecveStep::ExitZero
    ));
    assert!(matches!(
        sys_execve(Ok(String::from("/bin/ls")), Ok(words(&["ls"])), Ok(Vec::new()), false),
        ExecveStep::Lookup
    ));
    assert!(matches!(
        sys_execveat(Ok(String::from("")), Ok(words(&["a"])), 0x1000),
        ExecveatStep::Descriptor
    ));
    assert!(matches!(
        sys_execveat(Ok(String::from("a")), Ok(words(&["a"])), 0x2000),
        ExecveatStep::Fail(Errno::EINVAL)
    ));
    assert_eq!(execveat_environment(Ok(()), Err(Errno::EFAULT)), Err(Errno::EFAULT));
    assert_eq!(execveat_environment(Err(Errno::ENOENT), Err(Errno::EFAULT)), Err(Errno::ENOENT));
    assert!(after_failed_lookup("/a/b", Errno::EACCES).is_err());
    assert!(check_embedded(b"\x7fELF").is_ok());
    assert!(check_embedded(b"abc").is_err());
}

fn entry(children: &[usize], parent: Option<usize>) -> TaskEntry {
    TaskEntry {
        status: TaskStatus::Running,
        exit_code: 0,
        parent,
        children: children.to_vec(),
    }
}

#[test]
fn orphans_go_to_the_initial_process() {
    let mut s = Scheduler {
        tasks: vec![entry(&[1], None), entry(&[2, 3], Some(0)), entry(&[], Some(1)), entry(&[], Some(1))],
        ready: Vec::new(),
        current: Some(1),
    };
    add_initproc(&mut s);
    assert_eq!(s.ready, vec![0]);
    exit_current_and_run_next(&mut s, 7);
    assert_eq!(s.tasks[1].status, TaskStatus::Exited);
    assert_eq!(s.tasks[1].exit_code, 7);
    assert!(s.tasks[1].children.is_empty());
    assert_eq!(s.tasks[0].children, vec![1, 2, 3]);
    assert_eq!(s.tasks[2].parent, Some(0));
    s.current = Some(2);
    suspend_current_and_run_next(&mut s);
    assert_eq!(s.ready, vec![0, 2]);
    assert_eq!(s.tasks[2].status, TaskStatus::Ready);
    assert_eq!(s.current, None);
}
