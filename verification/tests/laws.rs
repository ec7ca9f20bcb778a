use respos::errno::Errno;
use respos::net::addr::SocketAddr;
use respos::net::socket::{Nets, Socket, SocketDomain, SocketKind};
use respos::net::stack::NetStack;
use respos::net::tcp::{block_on, BlockStep, TcpSocket};
use respos::net::unix::{AcceptStep, ReadRequest, ReadStep, UnixNet, UnixPeerCredentials};
use respos::platform::{jh7110, ls2k1000, qemu_loongarch64, qemu_rv64};
use respos::perf::heap::{heap_timing_start, HeapClassCounters};
use respos::signal::sig_handler::{SigAction, SigHandler};
use respos::signal::sig_struct::{Sig, SigPending, SigSet};
use respos::sorted_map::SortedMap;
use respos::syscall::credentials::{sys_setresuid, sys_setuid, Credentials};
use respos::syscall::epoll::{sys_epoll_create1, write_epoll_events, FileReady};
use respos::syscall::fd::{sys_close, sys_dup, sys_fcntl, FdEntry, FdKind, FdTable};
use respos::syscall::file::InodeType;
use respos::syscall::ioctl::rtc_time_from_unix;
use respos::syscall::ipc::{sys_shmctl, sys_shmget, Caller, ShmTable};
use respos::syscall::mm::{brk_done, mlock_vpn_range, sys_brk, sys_mmap, Heap};
use respos::syscall::net::{sys_getsockopt, sys_setsockopt, OptValue};
use respos::syscall::path::sys_lseek;
use respos::syscall::poll::{ppoll_scan_ready, PollFd, PollStep, PollWait, Readiness};
use respos::syscall::posix_timer::{check_posix_timers, sys_timer_create, sys_timer_settime, PosixTimers};
use respos::syscall::rusage::ResourceUsage;
use respos::syscall::signal::{sys_sigaction, sys_sigprocmask};
use respos::syscall::sockaddr::{read_sockaddr_for_domain, write_sockaddr_for_domain, AddrPlace};
use respos::syscall::special_fd::{sys_timerfd_create, sys_timerfd_gettime, sys_timerfd_settime};
use respos::syscall::stat::{sys_faccessat, Lookups};
use respos::syscall::time::{sys_adjtimex, Clocks, ITimerSpec, Timex};
use respos::syscall::wait::{sys_wait4, Child, Wait4Step, Waiter};
use respos::timer::TimeSpec;
use respos::user::{UserIn, UserOut};

const ME: UnixPeerCredentials = UnixPeerCredentials { pid: 1, uid: 2, gid: 3 };

fn spec(sec: isize, nsec: isize) -> TimeSpec {
    TimeSpec { sec, nsec }
}

fn set_of(sigs: &[i32]) -> SigSet {
    let mut s = SigSet::empty();
    for n in sigs {
        s.add_signal(Sig::from(*n));
    }
    s
}

#[test]
fn closing_a_duplicate_restores() {
    let mut t = FdTable::new(8);
    t.alloc_fd(FdEntry { file: 3, flags: 2 }).unwrap();
    let before = t.entries.entries.clone();
    let fd = sys_dup(&mut t, 0).unwrap();
    assert_ne!(t.entries.entries, before);
    sys_close(&mut t, fd).unwrap();
    assert_eq!(t.entries.entries, before);
}

#[test]
fn close_on_exec_is_read_back() {
    let mut t = FdTable::new(8);
    t.alloc_fd(FdEntry { file: 3, flags: 2 }).unwrap();
    for on in [1, 0] {
        sys_fcntl(&mut t, 0, 2, on, FdKind::Other).0.unwrap();
        assert_eq!(sys_fcntl(&mut t, 0, 1, 0, FdKind::Other).0, Ok(on));
    }
    sys_fcntl(&mut t, 0, 4, usize::MAX, FdKind::Other).0.unwrap();
    let flags = sys_fcntl(&mut t, 0, 3, 0, FdKind::Other).0.unwrap();
    assert_eq!(flags & 3, 2);
    assert_eq!(flags & !(3 | 0o46000), 0);
}

#[test]
fn different_errors_read_differently() {
    assert_ne!(Errno::EALREADY.message(), Errno::EINPROGRESS.message());
    assert_eq!(Errno::EPERM.message(), "Operation not permitted");
}

#[test]
fn removed_segments_do_not_give_their_numbers_back() {
    let mut t = ShmTable::new();
    let c = Caller { euid: 0, egid: 0, pid: 1, now: 0 };
    let a = sys_shmget(&mut t, &c, 0, 100, 0o600, 1000).unwrap();
    sys_shmctl(&mut t, &c, a, 0, 0, UserIn::Null, UserOut::Null).ret.unwrap();
    let b = sys_shmget(&mut t, &c, 0, 100, 0o600, 1000).unwrap();
    assert_ne!(a, b);
    assert_eq!(t.alloc_id(), Ok((b + 1, b)));
    t.shmmni = 1;
    assert_eq!(t.alloc_id(), Err(Errno::ENOSPC));
}

#[test]
fn one_of_sixty_four_operations_is_timed() {
    let mut h = HeapClassCounters::new(true);
    h.timing_sequence = usize::MAX - 9;
    let timed = (0..64).filter(|_| heap_timing_start(&mut h, 5) == 5).count();
    assert_eq!(timed, 1);
}

#[test]
fn kill_and_stop_keep_their_actions() {
    let mut h = SigHandler::new();
    let act = SigAction { sa_handler: 0x400, flags: 0, restorer: 0, mask: SigSet::empty() };
    for n in [9, 19] {
        let before = h.get(Sig::from(n));
        let r = sys_sigaction(&mut h, n, UserIn::Value(act), UserOut::Null, 8);
        assert_eq!(r.ret, Err(Errno::EINVAL));
        h.reset_user_handlers_for_exec();
        h.reset();
        assert_eq!(h.get(Sig::from(n)), before);
    }
}

#[test]
fn events_that_were_not_asked_for() {
    let ready = Readiness { readable: true, writable: true, read_ready: true, write_ready: true };
    let mut fds = vec![PollFd { fd: 1, events: 4, revents: 0 }];
    assert_eq!(ppoll_scan_ready(&mut fds, &vec![Some(ready)]), 1);
    assert_eq!(fds[0].revents, 4);
    let w = PollWait { mask: None, timeout_us: None };
    assert!(!matches!(w.next(0, 0, usize::MAX, false, false), PollStep::Return(_)));
}

#[test]
fn different_seconds_have_different_dates() {
    let a = rtc_time_from_unix(1_709_164_799);
    let b = rtc_time_from_unix(1_709_164_800);
    assert_ne!(a, b);
    assert_eq!((a.tm_mon, a.tm_mday, a.tm_sec), (1, 28, 59));
    assert_eq!((b.tm_mon, b.tm_mday, b.tm_sec), (1, 29, 0));
    assert_eq!(b.tm_yday, a.tm_yday + 1);
}

#[test]
fn a_failed_wait_loses_nothing() {
    let none = ResourceUsage {
        maxrss_pages: 0,
        minflt: 0,
        majflt: 0,
        inblock: 0,
        oublock: 0,
        nvcsw: 0,
        nivcsw: 0,
    };
    let mut children = SortedMap::new();
    children.insert(
        4,
        Child {
            pgid: 4,
            event: None,
            exited: true,
            wait_status: 9,
            utime: 1,
            stime: 1,
            resources: none,
        },
    );
    let mut w = Waiter {
        pgid: 1,
        children,
        exited: vec![4],
        child_utime: 0,
        child_stime: 0,
        child_resources: none,
        interrupted: false,
    };
    assert!(matches!(
        sys_wait4(&mut w, -1, UserOut::Fault, 0, UserOut::Null),
        Wait4Step::Return { ret: Err(Errno::EFAULT), .. }
    ));
    assert!(w.children.contains_key(4));
    assert!(matches!(
        sys_wait4(&mut w, -1, UserOut::Writable, 0, UserOut::Null),
        Wait4Step::Return { ret: Ok(4), status: Some(9), .. }
    ));
    assert!(matches!(
        sys_wait4(&mut w, -1, UserOut::Writable, 0, UserOut::Null),
        Wait4Step::Return { ret: Err(Errno::ECHILD), .. }
    ));
}

#[test]
fn unblocking_undoes_blocking() {
    let mut p = SigPending::with_mask(set_of(&[1]));
    sys_sigprocmask(&mut p, 0, UserIn::Value(set_of(&[2, 3])), UserOut::Null, 8);
    sys_sigprocmask(&mut p, 1, UserIn::Value(set_of(&[2, 3])), UserOut::Null, 8);
    assert_eq!(p.mask, set_of(&[1]));
}

#[test]
fn seeking_there_and_back() {
    let there = sys_lseek(Ok(()), 70, 1, 30, Ok(0)).unwrap();
    assert_eq!(there, 100);
    assert_eq!(sys_lseek(Ok(()), -70, 1, there, Ok(0)), Ok(30));
}

fn ready(input: bool) -> SortedMap<FileReady> {
    let mut files = SortedMap::new();
    files.insert(
        50,
        FileReady { input, output: false, error: false, hangup: false, read_hangup: false },
    );
    files
}

#[test]
fn edges_and_levels() {
    let mut level = sys_epoll_create1(0).unwrap();
    level.ctl(1, 5, Some((1, 7)), 50).unwrap();
    for _ in 0..2 {
        let r = level.scan_ready(4, &ready(true));
        assert_eq!(r.len(), 1);
        level.commit_ready(&r);
    }
    let mut edge = sys_epoll_create1(0).unwrap();
    edge.ctl(1, 5, Some((1 | 0x8000_0000, 7)), 50).unwrap();
    let r = edge.scan_ready(4, &ready(true));
    assert_eq!(r.len(), 1);
    edge.commit_ready(&r);
    assert!(edge.scan_ready(4, &ready(true)).is_empty());
    assert!(edge.scan_ready(4, &ready(false)).is_empty());
    assert_eq!(edge.scan_ready(4, &ready(true)).len(), 1);
}

#[test]
fn stale_reports_change_nothing() {
    let mut e = sys_epoll_create1(0).unwrap();
    e.ctl(1, 5, Some((1 | 0x4000_0000, 7)), 50).unwrap();
    let r = e.scan_ready(4, &ready(true));
    e.ctl(3, 5, Some((1 | 0x4000_0000, 8)), 50).unwrap();
    e.commit_ready(&r);
    assert_eq!(e.scan_ready(4, &ready(true)).len(), 1);
}

#[test]
fn reports_in_user_memory() {
    let mut e = sys_epoll_create1(0).unwrap();
    e.ctl(1, 5, Some((1, 0x0102_0304_0506_0708)), 50).unwrap();
    let bytes = write_epoll_events(&e.scan_ready(4, &ready(true)));
    assert_eq!(&bytes[..4], &1u32.to_le_bytes());
    assert_eq!(&bytes[4..12], &0x0102_0304_0506_0708u64.to_le_bytes());
}

#[test]
fn armed_descriptor_is_reported() {
    let mut fd = sys_timerfd_create(1, 0).unwrap();
    let arm = ITimerSpec { interval: spec(1, 0), value: spec(2, 0) };
    sys_timerfd_settime(&mut fd, 0, UserIn::Value(arm), Ok(500), UserOut::Null);
    assert_eq!(sys_timerfd_gettime(Ok(fd), 500, UserOut::Writable).out, Some(arm));
}

#[test]
fn single_shot_fires_once() {
    let mut t = PosixTimers::new();
    let id = sys_timer_create(&mut t, 3, 1, UserIn::Null, UserOut::Writable).out.unwrap() as usize;
    let arm = ITimerSpec { interval: spec(0, 0), value: spec(1, 0) };
    sys_timer_settime(&mut t, 3, id, 0, UserIn::Value(arm), Ok(0), UserOut::Null);
    let mut now = SortedMap::new();
    now.insert(id, 1000usize);
    assert_eq!(check_posix_timers(&mut t, &now).len(), 1);
    now.insert(id, 900_000usize);
    assert!(check_posix_timers(&mut t, &now).is_empty());
}

#[test]
fn removed_key_can_be_used_again() {
    let mut t = ShmTable::new();
    let c = Caller { euid: 1, egid: 1, pid: 2, now: 3 };
    let a = sys_shmget(&mut t, &c, 5, 10, 0o1600, 100).unwrap();
    assert_eq!(sys_shmget(&mut t, &c, 5, 10, 0o600, 100), Ok(a));
    sys_shmctl(&mut t, &c, a, 0, 0, UserIn::Null, UserOut::Null).ret.unwrap();
    assert_eq!(sys_shmget(&mut t, &c, 5, 10, 0o600, 100), Err(Errno::ENOENT));
    let b = sys_shmget(&mut t, &c, 5, 10, 0o1600, 100).unwrap();
    assert_ne!(a, b);
}

fn user(id: usize) -> Credentials {
    Credentials {
        uid: id,
        euid: id,
        suid: id,
        fsuid: id,
        gid: id,
        egid: id,
        sgid: id,
        fsgid: id,
        groups: Vec::new(),
        umask: 0,
    }
}

#[test]
fn privilege_is_given_up_for_good() {
    let mut c = user(0);
    assert_eq!(sys_setuid(&mut c, 7), Ok(0));
    assert_eq!((c.uid, c.euid, c.suid), (7, 7, 7));
    assert_eq!(sys_setuid(&mut c, 0), Err(Errno::EPERM));
    assert_eq!(sys_setresuid(&mut c, usize::MAX, usize::MAX, usize::MAX), Ok(0));
    assert_eq!((c.uid, c.euid, c.suid), (7, 7, 7));
}

#[test]
fn socket_options_are_read_back() {
    let mut n = Nets { inet: NetStack::new(), unix: UnixNet::new() };
    let mut s = Socket::new(&mut n, SocketDomain::AF_INET, SocketKind::SOCK_STREAM).ok().unwrap();
    sys_setsockopt(&mut s, &mut n, 1, 7, UserIn::Value(12345), UserIn::Null, 4).unwrap();
    assert_eq!(sys_getsockopt(&mut s, &n, 1, 7), Ok(OptValue::Int(12345)));
    sys_setsockopt(&mut s, &mut n, 1, 21, UserIn::Value(0), UserIn::Value(spec(3, 5000)), 16).unwrap();
    assert_eq!(sys_getsockopt(&mut s, &n, 1, 21), Ok(OptValue::Time(spec(3, 5000))));
}

#[test]
fn plain_query_changes_no_adjustment() {
    let mut s = Timex::initial();
    let before = s;
    let mut wish = Timex::initial();
    wish.modes = 0;
    wish.freq = 99;
    let c = Clocks { monotonic_us: 1, realtime_offset_us: 0, process_cpu_us: None, thread_cpu_us: None };
    sys_adjtimex(&mut s, &c, 100, UserIn::Value(wish), UserOut::Writable).ret.unwrap();
    assert_eq!(s.freq, before.freq);
    assert_eq!(s.tick, before.tick);
}

#[test]
fn heap_stays_above_its_bottom() {
    let mut h = Heap { bottom: 0x10000, brk: 0x12000 };
    let step = sys_brk(&h, 0x100);
    let r = brk_done(&mut h, 0x100, step, Ok(()));
    assert!(r.is_err() || r == Ok(0x12000));
    assert_eq!(h.brk, 0x12000);
}

#[test]
fn mappings_are_whole_pages() {
    for len in [1, 4095, 4096, 4097] {
        let m = sys_mmap(0, len, 1, 0x22, -1, Ok(()), 0).unwrap();
        assert_eq!(m.map_len % 4096, 0);
        assert!(m.map_len >= len && m.map_len < len + 4096);
    }
    let r = mlock_vpn_range(0x1fff, 2).unwrap().unwrap();
    assert_eq!((r.start, r.end), (1, 3));
}

#[test]
fn more_access_needs_more_permission() {
    let found = |mode: u32| Lookups {
        cwd: Err(Errno::EIO),
        fd: Err(Errno::EIO),
        follow: Ok((InodeType::Regular, mode)),
        nofollow: Err(Errno::EIO),
    };
    let name = || Ok(String::from("a"));
    assert_eq!(sys_faccessat(-100, name(), 6, 0, found(0o600)), Ok(0));
    assert_eq!(sys_faccessat(-100, name(), 4, 0, found(0o600)), Ok(0));
    assert_eq!(sys_faccessat(-100, name(), 7, 0, found(0o600)), Err(Errno::EACCES));
}

#[test]
fn waits_of_streams_end() {
    assert_eq!(block_on(false, false, Some(Errno::EAGAIN), None, 0), BlockStep::Finish);
    assert_eq!(block_on(true, false, None, None, 0), BlockStep::Finish);
    assert_eq!(block_on(true, false, Some(Errno::EAGAIN), None, 0), BlockStep::Retry);
    assert_eq!(block_on(true, true, Some(Errno::EAGAIN), None, 5), BlockStep::Sleep(1005));
    assert_eq!(block_on(true, true, Some(Errno::EAGAIN), Some(7), 5), BlockStep::Sleep(7));
    assert_eq!(block_on(true, true, Some(Errno::EAGAIN), Some(5), 5), BlockStep::Finish);
    assert_eq!(block_on(true, true, Some(Errno::EPIPE), Some(9), 5), BlockStep::Finish);
}

#[test]
fn closing_a_stream_twice() {
    let mut net = NetStack::new();
    let mut s = TcpSocket::new();
    s.bind(&mut net, SocketAddr::V4 { ip: 0x7f000001, port: 4000 }).unwrap();
    s.listen(&mut net, 1).unwrap();
    s.close_all(&mut net);
    assert!(s.is_closed());
    s.close_all(&mut net);
    assert!(s.is_closed());
    s.close(&mut net);
    assert!(net.table.can_listen(4000));
}

fn accepted(step: AcceptStep) -> usize {
    match step {
        AcceptStep::Accepted(e) => e,
        _ => panic!("no connection"),
    }
}

#[test]
fn connections_come_in_order_and_leave_nothing() {
    let mut n = UnixNet::new();
    let key = b"/s".to_vec();
    let server = n.socket();
    n.bind_path(server, &key).unwrap();
    n.listen(server, ME).unwrap();
    let a = n.socket();
    let b = n.socket();
    n.connect_path(a, &key, ME).unwrap();
    n.connect_path(b, &key, ME).unwrap();
    n.write(a, b"a", true, false, false, 1);
    n.write(b, b"b", true, false, false, 1);
    let first = accepted(n.accept(server, false, false, 1));
    let second = accepted(n.accept(server, false, false, 1));
    let q = ReadRequest { len: 4, nonblocking: true, peek: false, waitall: false };
    assert!(matches!(n.read(first, q, false, false, 1), ReadStep::Data(d, _, _) if d == b"a".to_vec()));
    assert!(matches!(n.read(second, q, false, false, 1), ReadStep::Data(d, _, _) if d == b"b".to_vec()));
    n.close(a);
    n.close(first);
    n.close(b);
    n.close(second);
    n.close(server);
    assert_eq!(n.ends.len(), 0);
}

#[test]
fn addresses_survive_user_memory() {
    for a in [
        SocketAddr::V4 { ip: 0x0102_0304, port: 65535 },
        SocketAddr::V4 { ip: 0, port: 0 },
    ] {
        let place = AddrPlace {
            addr: UserOut::Writable,
            len_in: UserIn::Value(16),
            len_out: UserOut::Writable,
        };
        let bytes = write_sockaddr_for_domain(SocketDomain::AF_INET, place, a).bytes.unwrap();
        assert_eq!(
            read_sockaddr_for_domain(SocketDomain::AF_INET, UserIn::Value(bytes), 16),
            Ok(a)
        );
    }
}

#[test]
fn device_regions_do_not_overlap() {
    for table in [qemu_rv64::mmio(), jh7110::mmio(), qemu_loongarch64::mmio(), ls2k1000::mmio()] {
        for (i, (a, n)) in table.iter().enumerate() {
            for (b, m) in table.iter().skip(i + 1) {
                assert!(a + n <= *b || b + m <= *a);
            }
        }
    }
}

#[test]
fn decimals_parse_again() {
    for n in [0u64, 9, 10, 99, 100, 18446744073709551615] {
        let mut s = String::new();
        respos::format::push_decimal(&mut s, n);
        assert_eq!(s.parse::<u64>(), Ok(n));
    }
}

#[test]
fn error_codes_differ() {
    let all = [
        Errno::EPERM,
        Errno::ENOENT,
        Errno::EAGAIN,
        Errno::EINVAL,
        Errno::EPIPE,
        Errno::ENOTCONN,
        Errno::ETIMEDOUT,
    ];
    for (i, a) in all.iter().enumerate() {
        assert!(a.as_ret() < 0);
        for b in all.iter().skip(i + 1) {
            assert_ne!(a.code(), b.code());
        }
    }
}
