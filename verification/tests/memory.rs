use respos::errno::Errno;
use respos::signal::sig_deliver::Arch;
use respos::syscall::ipc::{
    shmat_failed, sys_shmat, sys_shmctl, sys_shmdt, sys_shmget, Caller, ShmOut, ShmTable, ShmidDs,
};
use respos::syscall::mm::{
    brk_done, mlock_vpn_range, sys_brk, sys_get_mempolicy, sys_madvise, sys_mlock, sys_mmap, sys_mprotect,
    sys_mremap, sys_msync, sys_munlock, sys_munmap, AdviceStep, BrkStep, Heap, PageRange,
};
use respos::syscall::system::{
    sys_personality, sys_reboot, sys_setdomainname, sys_sethostname, sys_sysinfo, sys_syslog, sys_uname,
    StopStep, UtsState,
};
use respos::user::{UserIn, UserOut};

fn caller(euid: usize) -> Caller {
    Caller { euid, egid: euid, pid: 7, now: 50 }
}

#[test]
fn segment_is_created_and_found() {
    let mut t = ShmTable::new();
    let c = caller(100);
    let id = sys_shmget(&mut t, &c, 42, 5000, 0o1600, 1000).unwrap();
    assert_eq!(sys_shmget(&mut t, &c, 42, 5000, 0o600, 1000), Ok(id));
    assert_eq!(sys_shmget(&mut t, &c, 42, 5000, 0o3600, 1000), Err(Errno::EEXIST));
    assert_eq!(sys_shmget(&mut t, &c, 42, 9000, 0o600, 1000), Err(Errno::EINVAL));
    assert_eq!(sys_shmget(&mut t, &c, 43, 5000, 0o600, 1000), Err(Errno::ENOENT));
    assert_eq!(sys_shmget(&mut t, &c, 44, 0, 0o1600, 1000), Err(Errno::EINVAL));
    assert_eq!(sys_shmget(&mut t, &caller(5), 42, 10, 0o600, 1000), Err(Errno::EACCES));
}

#[test]
fn segment_is_attached_and_removed() {
    let mut t = ShmTable::new();
    let c = caller(100);
    let id = sys_shmget(&mut t, &c, 0, 5000, 0o600, 1000).unwrap();
    let a = sys_shmat(&mut t, Arch::Riscv64, &c, id, 0, 0).unwrap();
    assert_eq!((a.shmid, a.len, a.addr), (id, 8192, None));
    assert!(a.writable);
    assert!(sys_shmat(&mut t, Arch::Riscv64, &c, 999, 0, 0).is_err());
    assert_eq!(
        sys_shmat(&mut t, Arch::Riscv64, &c, id, 0x1001, 0).err(),
        Some(Errno::EINVAL)
    );
    let r = sys_shmctl(&mut t, &c, id, 2, 1, UserIn::Null, UserOut::Writable);
    assert_eq!(r.ret, Ok(0));
    match r.out {
        Some(ShmOut::State(d)) => {
            assert_eq!(d.shm_segsz, 5000);
            assert_eq!(d.shm_nattch, 1);
            assert_eq!(d.shm_cpid, 7);
        }
        _ => panic!("no state was written"),
    }
    assert_eq!(
        sys_shmctl(&mut t, &c, id, 0, 1, UserIn::Null, UserOut::Null).ret,
        Ok(0)
    );
    assert!(t.segments.contains_key(id));
    assert_eq!(sys_shmdt(&mut t, &c, 0x4000, Ok(a.attach_id), &Vec::new()), Ok(0));
    assert!(!t.segments.contains_key(id));
    assert_eq!(
        sys_shmdt(&mut t, &c, 0x4000, Err(Errno::EINVAL), &Vec::new()),
        Err(Errno::EINVAL)
    );
}

#[test]
fn failed_attachment_is_forgotten() {
    let mut t = ShmTable::new();
    let c = caller(100);
    let id = sys_shmget(&mut t, &c, 0, 100, 0o600, 1000).unwrap();
    let a = sys_shmat(&mut t, Arch::Riscv64, &c, id, 0, 0).unwrap();
    assert_eq!(t.attach_owners.len(), 1);
    shmat_failed(&mut t, a.attach_id);
    assert_eq!(t.attach_owners.len(), 0);
}

#[test]
fn control_of_segments() {
    let mut t = ShmTable::new();
    let c = caller(100);
    let id = sys_shmget(&mut t, &c, 9, 100, 0o1600, 1000).unwrap();
    let stranger = caller(5);
    assert_eq!(
        sys_shmctl(&mut t, &stranger, id, 0, 0, UserIn::Null, UserOut::Null).ret,
        Err(Errno::EPERM)
    );
    assert_eq!(
        sys_shmctl(&mut t, &c, 12345, 2, 0, UserIn::Null, UserOut::Writable).ret,
        Err(Errno::EINVAL)
    );
    assert_eq!(
        sys_shmctl(&mut t, &c, id, 2, 0, UserIn::Null, UserOut::Fault).ret,
        Err(Errno::EFAULT)
    );
    let r = sys_shmctl(&mut t, &c, 0, 3, 0, UserIn::Null, UserOut::Writable);
    assert!(matches!(r.out, Some(ShmOut::Limits(_))));
    let r = sys_shmctl(&mut t, &c, 0, 14, 0, UserIn::Null, UserOut::Writable);
    match r.out {
        Some(ShmOut::Usage(u)) => assert_eq!(u.used_ids, 1),
        _ => panic!("no usage was written"),
    }
    let state = sys_shmctl(&mut t, &c, id, 2, 0, UserIn::Null, UserOut::Writable);
    let mut d: ShmidDs = match state.out {
        Some(ShmOut::State(d)) => d,
        _ => panic!("no state was written"),
    };
    d.shm_perm.mode = 0o640;
    assert_eq!(
        sys_shmctl(&mut t, &c, id, 1, 0, UserIn::Value(d), UserOut::Null).ret,
        Ok(0)
    );
    assert_eq!(t.segments.get(id).unwrap().mode & 0o777, 0o640);
    assert_eq!(
        sys_shmctl(&mut t, &c, id, 99, 0, UserIn::Null, UserOut::Null).ret,
        Err(Errno::EINVAL)
    );
}

#[test]
fn limits_of_segments() {
    let mut t = ShmTable::new();
    assert_eq!(t.shmmni_value(), 4096);
    assert_eq!(t.set_shmmni_value(1), Ok(()));
    let c = caller(0);
    assert!(sys_shmget(&mut t, &c, 0, 100, 0o600, 1000).is_ok());
    assert_eq!(sys_shmget(&mut t, &c, 0, 100, 0o600, 1000), Err(Errno::ENOSPC));
    assert_eq!(t.set_shmmax_value(10), Ok(()));
    assert_eq!(t.shmmax_value(), 10);
    assert_eq!(t.set_shmall_value(5), Ok(()));
    assert_eq!(t.shmall_value(), 5);
}

#[test]
fn heap_grows_and_shrinks() {
    let mut h = Heap { bottom: 0x10000, brk: 0x12000 };
    assert_eq!(sys_brk(&h, 0), BrkStep::Keep(0x12000));
    let step = sys_brk(&h, 0x14001);
    assert_eq!(step, BrkStep::Grow(PageRange { start: 0x12, end: 0x15 }));
    assert_eq!(brk_done(&mut h, 0x14001, step, Ok(())), Ok(0x14001));
    assert_eq!(h.brk, 0x14001);
    let step = sys_brk(&h, 0x11000);
    assert_eq!(step, BrkStep::Shrink(PageRange { start: 0x11, end: 0x15 }));
}

#[test]
fn mapping_requests() {
    let r = sys_mmap(0, 5000, 3, 0x22, -1, Ok(()), 0).unwrap();
    assert_eq!((r.addr, r.map_len), (None, 8192));
    assert!(r.access.read && r.access.write && !r.access.execute);
    assert!(r.anonymous && !r.shared);
    assert_eq!(sys_mmap(0, 0, 3, 0x22, -1, Ok(()), 0).err(), Some(Errno::EINVAL));
    assert_eq!(sys_mmap(0, 4096, 3, 0x20, -1, Ok(()), 0).err(), Some(Errno::EINVAL));
    assert_eq!(
        sys_mmap(0, 4096, 3, 0x2, 5, Err(Errno::EBADF), 0).err(),
        Some(Errno::EBADF)
    );
    let fixed = sys_mmap(0x5000, 4096, 1, 0x32, -1, Ok(()), 0).unwrap();
    assert_eq!(fixed.addr, Some(0x5000));
    assert!(fixed.replace);
    assert_eq!(sys_mmap(0x5001, 4096, 1, 0x32, -1, Ok(()), 0).err(), Some(Errno::EINVAL));
}

#[test]
fn unmapping_and_moving() {
    assert!(sys_munmap(0x5000, 4096, 0x1000).is_ok());
    assert_eq!(sys_munmap(0x5001, 4096, 0x1000).err(), Some(Errno::EINVAL));
    assert_eq!(sys_munmap(0x5000, 0, 0x1000).err(), Some(Errno::EINVAL));
    let r = sys_mremap(0x5000, 4096, 8192, 1, 0).unwrap();
    assert!(r.maymove);
    assert_eq!((r.new_len, r.fixed), (8192, None));
    assert_eq!(sys_mremap(0x5000, 4096, 0, 1, 0).err(), Some(Errno::EINVAL));
    assert_eq!(sys_mremap(0x5000, 4096, 4096, 2, 0).err(), Some(Errno::EINVAL));
    assert_eq!(sys_mremap(0x5001, 4096, 4096, 0, 0).err(), Some(Errno::EINVAL));
}

#[test]
fn protection_and_locking() {
    let r = sys_mprotect(0x5000, 5000, 5).unwrap();
    assert_eq!(r.range, PageRange { start: 5, end: 7 });
    assert!(r.access.read && r.access.execute && !r.access.write);
    assert_eq!(sys_mprotect(0x5001, 5000, 5).err(), Some(Errno::EINVAL));
    assert_eq!(mlock_vpn_range(0x5001, 4096), Ok(Some(PageRange { start: 5, end: 7 })));
    assert_eq!(mlock_vpn_range(0x5001, 0), Ok(None));
    assert!(mlock_vpn_range(usize::MAX, 2).is_err());
    assert_eq!(sys_mlock(0x5000, 4096, Ok(()), 0, 0), Ok(Some(PageRange { start: 5, end: 6 })));
    assert!(sys_mlock(0x5000, 4096, Ok(()), 5, 0).is_err());
    assert_eq!(sys_mlock(0x5000, 4096, Err(Errno::ENOMEM), 0, 0), Err(Errno::ENOMEM));
    assert_eq!(sys_munlock(0x5000, 4096, Ok(())), Ok(Some(PageRange { start: 5, end: 6 })));
}

#[test]
fn advice_and_writing_back() {
    assert!(matches!(
        sys_madvise(0x5000, 4096, 18),
        Ok(AdviceStep::ForkBehaviour { wipe: true, .. })
    ));
    assert_eq!(sys_madvise(0x5001, 4096, 0).err(), Some(Errno::EINVAL));
    assert_eq!(sys_madvise(0x5000, 4096, 9999).err(), Some(Errno::EINVAL));
    assert_eq!(sys_msync(0x5000, 4096, 4), Ok(Some(PageRange { start: 5, end: 6 })));
    assert_eq!(sys_msync(0x5000, 4096, 5).err(), Some(Errno::EINVAL));
    assert_eq!(sys_msync(0x5001, 4096, 4).err(), Some(Errno::EINVAL));
    let p = sys_get_mempolicy(UserOut::Writable, UserOut::Null, 0, 0);
    assert_eq!(p.ret, Ok(0));
    assert_eq!(p.mode, Some(0));
}

fn start_of(field: &[u8; 65], text: &str) -> bool {
    &field[..text.len()] == text.as_bytes() && field[text.len()] == 0
}

#[test]
fn names_of_the_system() {
    let mut s = UtsState::new();
    assert_eq!(
        sys_sethostname(&mut s, 100, UserIn::Value(b"box".to_vec()), 3),
        Err(Errno::EPERM)
    );
    assert_eq!(sys_sethostname(&mut s, 0, UserIn::Value(b"box".to_vec()), 3), Ok(0));
    assert_eq!(sys_setdomainname(&mut s, 0, UserIn::Value(b"lan".to_vec()), 3), Ok(0));
    assert_eq!(
        sys_sethostname(&mut s, 0, UserIn::Value(vec![b'a'; 65]), 65),
        Err(Errno::EINVAL)
    );
    let u = sys_uname(&s, Arch::Riscv64, 0, UserOut::Writable).out.unwrap();
    assert!(start_of(&u.nodename, "box"));
    assert!(start_of(&u.domainname, "lan"));
    assert!(start_of(&u.sysname, "Linux"));
    assert!(start_of(&u.machine, "riscv64"));
    assert_eq!(sys_uname(&s, Arch::Riscv64, 0, UserOut::Fault).ret, Err(Errno::EFAULT));
}

#[test]
fn persona_and_log() {
    let mut p = 0;
    assert_eq!(sys_personality(&mut p, 8), Ok(0));
    assert_eq!(p, 8);
    assert_eq!(sys_personality(&mut p, usize::MAX), Ok(8));
    assert_eq!(p, 8);
    assert!(sys_syslog(10, UserOut::Null, 0).ret.is_ok());
    assert_eq!(sys_personality(&mut p, 0x1000_0000), Err(Errno::EINVAL));
    assert_eq!(sys_syslog(3, UserOut::Writable, 3).out, Some(b"<5>".to_vec()));
    assert_eq!(sys_syslog(99, UserOut::Null, 0).ret, Err(Errno::ENOSYS));
    let i = sys_sysinfo(5000, 0, 1000, 400, 3, UserOut::Writable).out.unwrap();
    assert_eq!((i.uptime, i.totalram, i.freeram, i.procs), (5, 1000, 400, 3));
    let steps = sys_reboot();
    assert_eq!(steps[0], StopStep::FlushFilesystems);
}
