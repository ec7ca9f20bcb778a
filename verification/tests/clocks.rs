use respos::errno::Errno;
use respos::sorted_map::SortedMap;
use respos::syscall::ioctl::{rtc_time_from_unix, sys_ioctl, IoctlAction, IoctlFile};
use respos::syscall::posix_timer::{
    check_posix_timers, remove_posix_timers_for_owner, sys_timer_create, sys_timer_delete,
    sys_timer_getoverrun, sys_timer_gettime, sys_timer_settime, PosixTimers,
};
use respos::syscall::sleep::{
    check_nanosleep_timeouts, finish_task_timeout, register_task_timeout, register_task_timeout_us,
    sleep_resumed, sleep_until_us, sys_clock_nanosleep, sys_nanosleep, NanosleepWaits, SleepStep,
    NANOSLEEP_TIMEOUT_CLOCK,
};
use respos::syscall::special_fd::{sys_timerfd_create, sys_timerfd_settime, Attempt};
use respos::syscall::time::{
    clock_time_ms, clock_time_us, sys_adjtimex, sys_clock_adjtime, sys_clock_getres, sys_clock_gettime,
    sys_clock_settime, sys_getitimer, sys_gettimeofday, sys_setitimer, sys_settimeofday, sys_times, Clocks,
    ITimer, ITimerSpec, ITimerVal, SigEvent, TimeVal, Timex,
};
use respos::syscall::timers::check_all_task_timers;
use respos::timer::{ms_to_timespec, timespec_from_us, TimeSpec};
use respos::user::{UserIn, UserOut};

fn spec(sec: isize, nsec: isize) -> TimeSpec {
    TimeSpec { sec, nsec }
}

fn clocks() -> Clocks {
    Clocks {
        monotonic_us: 5_000_000,
        realtime_offset_us: 1_000_000,
        process_cpu_us: Some(70),
        thread_cpu_us: None,
    }
}

#[test]
fn durations() {
    assert!(spec(0, 999_999_999).is_valid_duration());
    assert!(!spec(0, 1_000_000_000).is_valid_duration());
    assert!(!spec(-1, 0).is_valid_duration());
    assert!(spec(0, 0).is_zero());
    assert_eq!(spec(1, 1).checked_duration_us(), Some(1_000_001));
    assert_eq!(spec(1, 1).checked_duration_ms(), Some(1001));
    assert_eq!(spec(-1, 0).checked_duration_us(), None);
    assert_eq!(timespec_from_us(1_500_000), spec(1, 500_000_000));
    assert_eq!(ms_to_timespec(2_001), spec(2, 1_000_000));
}

#[test]
fn clocks_tell_their_time() {
    let c = clocks();
    assert_eq!(clock_time_us(&c, 0), Ok(6_000_000));
    assert_eq!(clock_time_us(&c, 1), Ok(5_000_000));
    assert_eq!(clock_time_us(&c, 2), Ok(70));
    assert!(clock_time_us(&c, 99).is_err());
    assert_eq!(clock_time_ms(&c, 1), Ok(5000));
    let r = sys_clock_gettime(&c, 1, UserOut::Writable);
    assert_eq!(r.ret, Ok(0));
    assert_eq!(r.out, Some(spec(5, 0)));
    assert_eq!(sys_clock_gettime(&c, 1, UserOut::Fault).ret, Err(Errno::EFAULT));
    assert_eq!(sys_clock_gettime(&c, 99, UserOut::Writable).ret, Err(Errno::EINVAL));
    assert_eq!(sys_clock_getres(99, UserOut::Writable).ret, Err(Errno::EINVAL));
    assert_eq!(sys_clock_getres(1, UserOut::Null).ret, Ok(0));
}

#[test]
fn time_of_day_is_set_and_read() {
    let mut c = clocks();
    let tv = TimeVal { sec: 100, usec: 5 };
    assert_eq!(sys_settimeofday(&mut c, false, UserIn::Value(tv), true), Err(Errno::EPERM));
    assert_eq!(sys_settimeofday(&mut c, true, UserIn::Value(tv), true), Ok(0));
    let r = sys_gettimeofday(&c, UserOut::Writable, UserOut::Null);
    assert_eq!(r.ret, Ok(0));
    assert_eq!(r.time, Some(tv));
    assert_eq!(
        sys_settimeofday(&mut c, true, UserIn::Value(TimeVal { sec: 0, usec: 1_000_000 }), true),
        Err(Errno::EINVAL)
    );
    assert_eq!(sys_clock_settime(&mut c, true, 0, UserIn::Value(spec(7, 0))), Ok(0));
    assert_eq!(clock_time_us(&c, 0), Ok(7_000_000));
    assert_eq!(clock_time_us(&c, 1), Ok(5_000_000));
    assert_eq!(
        sys_clock_settime(&mut c, true, 1, UserIn::Value(spec(7, 0))),
        Err(Errno::EINVAL)
    );
}

#[test]
fn process_times() {
    let r = sys_times(500, 3, 4, UserOut::Writable);
    assert!(r.ret.is_ok());
    let t = r.out.unwrap();
    assert_eq!((t.tms_cutime, t.tms_cstime), (3, 4));
    assert_eq!(sys_times(500, 3, 4, UserOut::Fault).ret, Err(Errno::EFAULT));
}

#[test]
fn interval_timers() {
    let mut t = [ITimer { interval_ms: 0, remaining_ms: 0 }; 3];
    let v = ITimerVal {
        interval: TimeVal { sec: 1, usec: 0 },
        value: TimeVal { sec: 2, usec: 500_000 },
    };
    let r = sys_setitimer(&mut t, 0, UserIn::Value(v), UserOut::Writable);
    assert_eq!(r.ret, Ok(0));
    assert_eq!(r.out.unwrap().value, TimeVal { sec: 0, usec: 0 });
    assert_eq!(t[0], ITimer { interval_ms: 1000, remaining_ms: 2500 });
    assert_eq!(sys_getitimer(&t, 0, UserOut::Writable).out, Some(v));
    assert_eq!(sys_getitimer(&t, 3, UserOut::Writable).ret, Err(Errno::EINVAL));
    let bad = ITimerVal { interval: TimeVal { sec: 0, usec: 1_000_000 }, value: v.value };
    assert_eq!(
        sys_setitimer(&mut t, 0, UserIn::Value(bad), UserOut::Null).ret,
        Err(Errno::EINVAL)
    );
}

#[test]
fn clock_discipline() {
    let mut s = Timex::initial();
    let mut wish = Timex::initial();
    wish.modes = 0;
    let r = sys_adjtimex(&mut s, &clocks(), 1000, UserIn::Value(wish), UserOut::Writable);
    assert!(r.ret.is_ok());
    assert!(r.out.is_some());
    wish.modes = 2;
    assert_eq!(
        sys_adjtimex(&mut s, &clocks(), 1000, UserIn::Value(wish), UserOut::Writable).ret,
        Err(Errno::EPERM)
    );
    assert_eq!(
        sys_adjtimex(&mut s, &clocks(), 0, UserIn::Fault, UserOut::Writable).ret,
        Err(Errno::EFAULT)
    );
    assert!(sys_clock_adjtime(&mut s, &clocks(), 0, 99, UserIn::Value(wish), UserOut::Writable)
        .ret
        .is_err());
}

#[test]
fn deadlines_expire_once() {
    let mut w = NanosleepWaits::new();
    register_task_timeout(&mut w, 4, 2);
    register_task_timeout_us(&mut w, 5, 2500);
    let mut now = SortedMap::new();
    now.insert(NANOSLEEP_TIMEOUT_CLOCK, 2000);
    let e = check_nanosleep_timeouts(&mut w, &now);
    assert_eq!(e.tids, vec![4]);
    assert_eq!(e.next, vec![(NANOSLEEP_TIMEOUT_CLOCK, 2500)]);
    assert!(check_nanosleep_timeouts(&mut w, &now).tids.is_empty());
    assert!(finish_task_timeout(&mut w, 4));
    assert!(!finish_task_timeout(&mut w, 5));
    assert!(check_nanosleep_timeouts(&mut w, &now).next.is_empty());
}

#[test]
fn sleepers_wake_in_order() {
    let mut w = NanosleepWaits::new();
    w.register(7, 1, 300);
    w.register(8, 0, 900);
    w.register(9, 0, 200);
    w.register(3, 0, 200);
    w.register(2, 1, 5000);
    let mut now = SortedMap::new();
    now.insert(0, 900);
    now.insert(1, 300);
    let e = check_nanosleep_timeouts(&mut w, &now);
    assert_eq!(e.tids, vec![9, 3, 8, 7]);
    assert_eq!(e.next, vec![(1, 5000)]);
}

#[test]
fn sleeping() {
    let plan = sys_nanosleep(UserIn::Value(spec(1, 0)), 100).unwrap();
    assert_eq!(plan.deadline_us, 1_000_100);
    assert_eq!(sys_nanosleep(UserIn::Value(spec(0, -1)), 0).err(), Some(Errno::EINVAL));
    assert_eq!(sys_nanosleep(UserIn::Null, 0).err(), Some(Errno::EFAULT));
    assert!(matches!(
        sleep_until_us(&plan, Ok(100), false, 100, UserOut::Null),
        SleepStep::Sleep
    ));
    assert!(matches!(
        sleep_until_us(&plan, Ok(1_000_100), false, 100, UserOut::Null),
        SleepStep::Return { ret: Ok(0), remaining: None }
    ));
    match sleep_until_us(&plan, Ok(100), true, 400_100, UserOut::Writable) {
        SleepStep::Return { ret, remaining } => {
            assert_eq!(ret, Err(Errno::EINTR));
            assert_eq!(remaining, Some(spec(0, 600_000_000)));
        }
        _ => panic!("the sleep goes on"),
    }
    let mut w = NanosleepWaits::new();
    w.register(9, plan.clock_id, plan.deadline_us);
    assert!(matches!(
        sleep_resumed(&mut w, 9, &plan, true, 100, UserOut::Null),
        SleepStep::Return { ret: Err(Errno::EINTR), .. }
    ));
}

#[test]
fn sleeping_until_a_time() {
    let plan = sys_clock_nanosleep(1, 1, UserIn::Value(spec(3, 0)), 100).unwrap();
    assert_eq!(plan.deadline_us, 3_000_000);
    assert_eq!(plan.relative, None);
    assert_eq!(
        sys_clock_nanosleep(3, 0, UserIn::Value(spec(3, 0)), 0).err(),
        Some(Errno::EOPNOTSUPP)
    );
    assert_eq!(
        sys_clock_nanosleep(99, 0, UserIn::Value(spec(3, 0)), 0).err(),
        Some(Errno::EINVAL)
    );
}

#[test]
fn timers_that_send_signals() {
    let mut t = PosixTimers::new();
    let ev = SigEvent { value: 0, signo: 10, notify: 0 };
    let r = sys_timer_create(&mut t, 3, 1, UserIn::Value(ev), UserOut::Writable);
    assert_eq!(r.ret, Ok(0));
    let id = r.out.unwrap() as usize;
    assert_eq!(
        sys_timer_create(&mut t, 3, 99, UserIn::Null, UserOut::Writable).ret,
        Err(Errno::EINVAL)
    );
    let arm = ITimerSpec { interval: spec(1, 0), value: spec(2, 0) };
    let r = sys_timer_settime(&mut t, 3, id, 0, UserIn::Value(arm), Ok(1000), UserOut::Null);
    assert_eq!(r.ret, Ok(0));
    let now = sys_timer_gettime(&t, 3, id, Ok(1500), UserOut::Writable);
    assert_eq!(now.out, Some(ITimerSpec { interval: spec(1, 0), value: spec(1, 500_000_000) }));
    assert_eq!(sys_timer_gettime(&t, 4, id, Ok(0), UserOut::Writable).ret, Err(Errno::EINVAL));
    let mut clock = SortedMap::new();
    clock.insert(id, 2999usize);
    assert!(check_posix_timers(&mut t, &clock).is_empty());
    clock.insert(id, 3000usize);
    let s = check_posix_timers(&mut t, &clock);
    assert_eq!(s.len(), 1);
    assert_eq!((s[0].owner_tgid, s[0].signo), (3, 10));
    assert!(check_posix_timers(&mut t, &clock).is_empty());
    assert_eq!(sys_timer_getoverrun(&t, 3, id), Ok(0));
    assert_eq!(sys_timer_delete(&mut t, 3, id), Ok(0));
    assert_eq!(sys_timer_delete(&mut t, 3, id), Err(Errno::EINVAL));
    sys_timer_create(&mut t, 3, 1, UserIn::Null, UserOut::Writable);
    remove_posix_timers_for_owner(&mut t, 3);
    assert_eq!(t.timers.len(), 0);
}

#[test]
fn all_timers_in_one_look() {
    let mut w = NanosleepWaits::new();
    register_task_timeout_us(&mut w, 8, 10);
    let mut clock = SortedMap::new();
    clock.insert(NANOSLEEP_TIMEOUT_CLOCK, 10usize);
    let mut fd = sys_timerfd_create(1, 0).unwrap();
    let arm = ITimerSpec { interval: spec(0, 0), value: spec(0, 1_000_000) };
    sys_timerfd_settime(&mut fd, 0, UserIn::Value(arm), Ok(0), UserOut::Null);
    let mut t = PosixTimers::new();
    let work = check_all_task_timers(&mut w, &clock, &vec![fd], &vec![1], &mut t, &SortedMap::new());
    assert_eq!(work.sleepers.tids, vec![8]);
    assert_eq!(work.readable, vec![0]);
    assert!(work.signals.is_empty());
}

#[test]
fn timer_descriptor_counts_expirations() {
    let mut fd = sys_timerfd_create(1, 0).unwrap();
    assert_eq!(sys_timerfd_create(99, 0).err(), Some(Errno::EINVAL));
    let arm = ITimerSpec { interval: spec(0, 10_000_000), value: spec(0, 5_000_000) };
    assert_eq!(
        sys_timerfd_settime(&mut fd, 0, UserIn::Value(arm), Ok(100), UserOut::Writable).ret,
        Ok(0)
    );
    assert!(!fd.read_ready(104));
    assert!(fd.read_ready(105));
    assert_eq!(fd.pending(125), 3);
    match fd.read(8, Ok(125)) {
        Attempt::Done { n, bytes } => {
            assert_eq!(n, 8);
            assert_eq!(bytes, 3u64.to_le_bytes().to_vec());
        }
        _ => panic!("nothing was read"),
    }
    assert!(!fd.read_ready(125));
    assert!(matches!(fd.read(7, Ok(125)), Attempt::Fail(Errno::EINVAL)));
    assert!(matches!(fd.read(8, Ok(125)), Attempt::Wait));
    assert_eq!(fd.write(), Err(Errno::EINVAL));
}

#[test]
fn dates() {
    let t = rtc_time_from_unix(0);
    assert_eq!((t.tm_year, t.tm_mon, t.tm_mday, t.tm_wday, t.tm_yday), (70, 0, 1, 4, 0));
    let t = rtc_time_from_unix(951_782_400);
    assert_eq!((t.tm_year, t.tm_mon, t.tm_mday), (100, 1, 29));
    let t = rtc_time_from_unix(1_700_000_000);
    assert_eq!((t.tm_year, t.tm_mon, t.tm_mday), (123, 10, 14));
    assert_eq!((t.tm_hour, t.tm_min, t.tm_sec, t.tm_wday), (22, 13, 20, 2));
}

#[test]
fn device_controls() {
    let tty = IoctlFile { tty: true, pipe: None, path: None, loop_device: false };
    assert!(matches!(
        sys_ioctl(Ok(tty), 0x5413, UserOut::Writable, 0),
        IoctlAction::WinSize(_)
    ));
    let pipe = IoctlFile { tty: false, pipe: Some(12), path: None, loop_device: false };
    assert!(matches!(
        sys_ioctl(Ok(pipe), 0x541b, UserOut::Writable, 0),
        IoctlAction::Waiting(12)
    ));
    let clock = IoctlFile {
        tty: false,
        pipe: None,
        path: Some(String::from("/dev/misc/rtc")),
        loop_device: false,
    };
    match sys_ioctl(Ok(clock), 0x8024_7009, UserOut::Writable, 1_700_000_000_999) {
        IoctlAction::Time(t) => assert_eq!((t.tm_year, t.tm_mon, t.tm_sec), (123, 10, 20)),
        _ => panic!("no time is given"),
    }
    assert!(matches!(
        sys_ioctl(Err(Errno::EBADF), 0x5413, UserOut::Writable, 0),
        IoctlAction::Fail(Errno::EBADF)
    ));
    let plain = IoctlFile { tty: false, pipe: None, path: None, loop_device: false };
    assert!(matches!(
        sys_ioctl(Ok(plain), 0x5413, UserOut::Writable, 0),
        IoctlAction::Fail(Errno::ENOTTY)
    ));
}
