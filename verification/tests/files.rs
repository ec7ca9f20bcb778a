use respos::errno::Errno;
use respos::syscall::epoll::{
    epoll_must_sleep, sys_epoll_create1, sys_epoll_ctl, sys_epoll_pwait, write_epoll_events, EpollAction,
    EpollEvent, FileReady,
};
use respos::sorted_map::SortedMap;
use respos::syscall::fd::{
    sys_close, sys_dup, sys_dup3, sys_fcntl, sys_pipe2, FcntlEffect, FdEntry, FdKind, FdTable,
};
use respos::syscall::file::InodeType;
use respos::syscall::path::{
    linkat_source, sys_chdir, sys_fdatasync, sys_fsync, sys_getcwd, sys_getdents64, sys_linkat, sys_lseek,
    sys_mkdirat, sys_mknodat, sys_mount, sys_openat, sys_openat2, sys_readlinkat, sys_renameat2,
    sys_symlinkat, sys_umount2, sys_unlinkat, Dirent, LinkSource, OpenHow, Opened,
};
use respos::syscall::poll::{
    ppoll_scan_ready, ppoll_wait_interruptible, sys_ppoll, sys_pselect6, PollAction, PollEvent, PollFd, PollStep,
    Pselect6Sigmask, Readiness, SelectAction, SelectEvent, SleepStep, Watched,
};
use respos::syscall::positioned::{
    sys_pread64, sys_preadv, sys_pwrite64, sys_pwritev, FileAction, FileEvent, Piece, PositionedCall,
    PositionedStart,
};
use respos::syscall::rw::{
    chunk_written, read_iovecs, sys_preadv2, sys_pwritev2, sys_read, sys_readv, sys_splice, sys_tee,
    sys_vmsplice, sys_write, sys_writev, write_raises_sigpipe, Direction, IoVec, OpenFile, Side, SpliceAction,
    SpliceEvent, Start, Step, Transfer, VectoredCall,
};
use respos::syscall::special_fd::{
    file_event_resumed, sys_eventfd2, sys_memfd_create, sys_signalfd4, wait_for_file_event, Attempt,
};
use respos::syscall::stat::{
    new_owner, sys_faccessat, sys_fallocate, sys_fchmod, sys_fchmodat, sys_fchownat, sys_fstat, sys_fstatat,
    sys_ftruncate, sys_statx, sys_utimensat, Lookups, SizedFile, Stat, Statx, StatxTimestamp, Target,
};
use respos::signal::sig_struct::SigSet;
use respos::syscall::waiting::WaitState;
use respos::timer::TimeSpec;
use respos::user::{UserIn, UserOut};

fn spec(sec: isize, nsec: isize) -> TimeSpec {
    TimeSpec { sec, nsec }
}

fn file() -> OpenFile {
    OpenFile {
        flags: 2,
        readable: true,
        writable: true,
        read_ready: true,
        write_ready: true,
        kind: InodeType::Regular,
        pipe: None,
    }
}

fn pipe(id: usize) -> OpenFile {
    OpenFile { kind: InodeType::Fifo, pipe: Some(id), ..file() }
}

fn text(s: &str) -> Result<String, Errno> {
    Ok(String::from(s))
}

#[test]
fn reading_in_chunks() {
    let mut t = match sys_read(100_000, Ok(()), Ok(file())) {
        Start::Run(t) => t,
        _ => panic!("the read did not start"),
    };
    assert!(matches!(t.next(true), Step::Chunk(65536)));
    assert!(t.after_read(65536, Ok(65536), Ok(())).is_none());
    assert!(matches!(t.next(true), Step::Chunk(34464)));
    assert_eq!(t.after_read(34464, Ok(10), Ok(())), Some(Ok(65546)));
    assert!(matches!(sys_read(1, Ok(()), Err(Errno::EBADF)), Start::Return(Err(Errno::EBADF))));
    let closed = OpenFile { readable: false, ..file() };
    assert!(matches!(sys_read(1, Ok(()), Ok(closed)), Start::Return(Err(Errno::EBADF))));
}

#[test]
fn writing_in_chunks() {
    let mut t = match sys_write(10, Ok(file())) {
        Start::Run(t) => t,
        _ => panic!("the write did not start"),
    };
    assert!(matches!(t.next(true), Step::Chunk(10)));
    assert_eq!(t.after_write(10, Ok(()), Ok(10)).unwrap_or(Ok(10)), Ok(10));
    let readonly = OpenFile { writable: false, ..file() };
    assert!(matches!(sys_write(1, Ok(readonly)), Start::Return(Err(Errno::EBADF))));
    let fresh = Transfer { len: 5, total: 0, nonblock: false };
    assert!(write_raises_sigpipe(&fresh, &Err(Errno::EPIPE)));
    assert!(!write_raises_sigpipe(&fresh, &Err(Errno::EIO)));
}

fn begun(start: PositionedStart) -> PositionedCall {
    match start {
        PositionedStart::Run(c) => c,
        PositionedStart::Return(r) => panic!("the call returned {:?}", r),
    }
}

fn thread() -> WaitState {
    WaitState { mask: SigSet { bits: 6 }, interruptible: false, interrupted: false, sigwait: None }
}

#[test]
fn reading_at_an_offset() {
    assert!(matches!(
        sys_pread64(0x100, 5, -1, Ok(()), Ok(file()), 9),
        PositionedStart::Return(Err(Errno::EINVAL))
    ));
    assert!(matches!(
        sys_pread64(0x100, 0, 0, Ok(()), Ok(file()), 9),
        PositionedStart::Return(Ok(0))
    ));
    let mut c = begun(sys_pread64(0x100, 100_000, 40, Ok(()), Ok(file()), 9));
    assert_eq!(c.step(FileEvent::Asked(Ok(()))), FileAction::Seek(40));
    let first = Piece { base: 0x100, at: 0, len: 65536 };
    assert_eq!(c.step(FileEvent::Sought(Ok(()))), FileAction::Move(first));
    let second = Piece { base: 0x100, at: 65536, len: 34464 };
    assert_eq!(
        c.step(FileEvent::ChunkRead { read: Ok(65536), copied: Ok(()) }),
        FileAction::Move(second)
    );
    assert_eq!(c.step(FileEvent::ChunkRead { read: Ok(4), copied: Ok(()) }), FileAction::Seek(9));
    assert_eq!(c.step(FileEvent::Sought(Ok(()))), FileAction::Return(Ok(65540)));

    let mut c = begun(sys_pread64(0x100, 5, 0, Ok(()), Ok(file()), 9));
    assert_eq!(c.step(FileEvent::Asked(Err(Errno::ESPIPE))), FileAction::Return(Err(Errno::ESPIPE)));
    let mut c = begun(sys_pread64(0x100, 5, 0, Ok(()), Ok(file()), 9));
    c.step(FileEvent::Asked(Ok(())));
    c.step(FileEvent::Sought(Ok(())));
    assert_eq!(c.step(FileEvent::ChunkRead { read: Ok(5), copied: Ok(()) }), FileAction::Seek(9));
    assert_eq!(c.step(FileEvent::Sought(Err(Errno::EIO))), FileAction::Return(Err(Errno::EIO)));
    let mut c = begun(sys_pread64(0x100, 5, 0, Ok(()), Ok(file()), 9));
    c.step(FileEvent::Asked(Ok(())));
    c.step(FileEvent::Sought(Ok(())));
    assert_eq!(
        c.step(FileEvent::ChunkRead { read: Ok(5), copied: Err(Errno::EFAULT) }),
        FileAction::Return(Err(Errno::EFAULT))
    );
}

#[test]
fn writing_at_an_offset() {
    let mut c = begun(sys_pwrite64(0x100, 100_000, 7, Ok(file()), 3));
    assert_eq!(c.step(FileEvent::Asked(Ok(()))), FileAction::Seek(7));
    c.step(FileEvent::Sought(Ok(())));
    c.step(FileEvent::ChunkWritten { copied: Ok(()), written: Ok(65536) });
    assert_eq!(
        c.step(FileEvent::ChunkWritten { copied: Err(Errno::EFAULT), written: Ok(0) }),
        FileAction::Seek(3)
    );
    assert_eq!(c.step(FileEvent::Sought(Err(Errno::EIO))), FileAction::Return(Ok(65536)));
    let busy = OpenFile { flags: 0o4002, write_ready: false, ..file() };
    assert!(matches!(
        sys_pwrite64(0x100, 1, 0, Ok(busy), 3),
        PositionedStart::Return(Err(Errno::EAGAIN))
    ));
}

#[test]
fn lists_at_an_offset() {
    let items = vec![
        IoVec { base: 0x10, len: 4 },
        IoVec { base: 0x20, len: 0 },
        IoVec { base: 0x30, len: 3 },
        IoVec { base: 0x40, len: 2 },
    ];
    let mut c = begun(sys_pwritev(50, Ok(items), Ok(()), Ok(file()), 8));
    assert_eq!(c.step(FileEvent::Asked(Ok(()))), FileAction::Seek(50));
    let piece = |base: usize, len: usize| FileAction::Move(Piece { base, at: 0, len });
    assert_eq!(c.step(FileEvent::Sought(Ok(()))), piece(0x10, 4));
    assert_eq!(c.step(FileEvent::Moved(Ok(4))), piece(0x30, 3));
    assert_eq!(c.step(FileEvent::Moved(Err(Errno::EIO))), FileAction::Seek(8));
    assert_eq!(c.step(FileEvent::Sought(Ok(()))), FileAction::Return(Ok(4)));

    let mut c = begun(sys_preadv(2, 50, Ok(file()), 8));
    assert_eq!(c.step(FileEvent::Asked(Ok(()))), FileAction::Seek(50));
    assert_eq!(c.step(FileEvent::Sought(Ok(()))), FileAction::Fetch(0));
    let item = IoVec { base: 0x10, len: 4 };
    assert_eq!(c.step(FileEvent::Fetched(UserIn::Value(item))), piece(0x10, 4));
    assert_eq!(c.step(FileEvent::Moved(Ok(4))), FileAction::Fetch(1));
    assert_eq!(c.step(FileEvent::Fetched(UserIn::Fault)), FileAction::Seek(8));
    assert_eq!(c.step(FileEvent::Sought(Ok(()))), FileAction::Return(Ok(4)));
    assert!(matches!(sys_preadv(0, 0, Ok(file()), 8), PositionedStart::Return(Ok(0))));
    assert!(matches!(
        sys_preadv(1025, 0, Ok(file()), 8),
        PositionedStart::Return(Err(Errno::EINVAL))
    ));
    assert!(matches!(sys_preadv2(-1, 0), Ok(VectoredCall::Plain)));
    assert!(matches!(sys_preadv2(5, 0), Ok(VectoredCall::At(5))));
    assert_eq!(sys_preadv2(5, 1).err(), Some(Errno::EOPNOTSUPP));
    assert!(matches!(sys_pwritev2(5, 0), Ok(VectoredCall::At(5))));
}

#[test]
fn vectored_calls() {
    let items = vec![IoVec { base: 1, len: 4 }, IoVec { base: 9, len: 4 }];
    assert_eq!(sys_readv(&items, Ok(()), &vec![Ok(4), Ok(2)]), Ok(6));
    assert_eq!(sys_readv(&items, Ok(()), &vec![Ok(3)]), Ok(3));
    assert_eq!(sys_writev(&items, Ok(()), &vec![Err(Errno::EIO)]), Err(Errno::EIO));
    assert_eq!(sys_writev(&items, Ok(()), &vec![Ok(4), Err(Errno::EIO)]), Ok(4));
    assert_eq!(
        sys_writev(&items, Err(Errno::EFAULT), &vec![Ok(4), Ok(4)]),
        Err(Errno::EFAULT)
    );
    assert_eq!(read_iovecs(1025, UserIn::Value(Vec::new())).err(), Some(Errno::EINVAL));
    assert_eq!(read_iovecs(2, UserIn::Fault).err(), Some(Errno::EFAULT));
}

#[test]
fn splicing() {
    let outs = (UserOut::Null, UserOut::Writable);
    let start = |flags: usize, input: OpenFile, output: OpenFile, off_in: UserIn<i64>, off_out: UserIn<i64>| {
        sys_splice(10, flags, Ok(input), Ok(output), Ok(input.kind), off_in, off_out, (3, 4), outs)
    };
    let (mut c, first) = start(0, pipe(1), file(), UserIn::Null, UserIn::Value(5)).unwrap();
    assert!(matches!(first, SpliceAction::CanSeek(Side::Output)));
    assert!(matches!(c.step(SpliceEvent::Asked(Ok(()))), SpliceAction::Seek(Side::Output, 5)));
    assert!(matches!(c.step(SpliceEvent::Sought(Ok(()))), SpliceAction::Copy));
    let moved = SpliceEvent::Copied { moved: Ok(3), new_in: 0, new_out: 8 };
    assert!(matches!(c.step(moved), SpliceAction::Seek(Side::Output, 4)));
    match c.step(SpliceEvent::Sought(Ok(()))) {
        SpliceAction::Return(r) => {
            assert_eq!(r.ret, Ok(3));
            assert_eq!(r.out.unwrap().output, Some(8));
        }
        _ => panic!("the splice goes on"),
    }
    let (mut c, _) = start(0, pipe(1), file(), UserIn::Null, UserIn::Value(5)).unwrap();
    c.step(SpliceEvent::Asked(Ok(())));
    c.step(SpliceEvent::Sought(Ok(())));
    let failed = SpliceEvent::Copied { moved: Err(Errno::EIO), new_in: 0, new_out: 8 };
    assert!(matches!(c.step(failed), SpliceAction::Seek(Side::Output, 4)));
    match c.step(SpliceEvent::Sought(Ok(()))) {
        SpliceAction::Return(r) => {
            assert_eq!(r.ret, Err(Errno::EIO));
            assert_eq!(r.out.unwrap().output, None);
        }
        _ => panic!("the splice goes on"),
    }
    let (mut c, _) = start(0, pipe(1), file(), UserIn::Null, UserIn::Value(5)).unwrap();
    match c.step(SpliceEvent::Asked(Err(Errno::ESPIPE))) {
        SpliceAction::Return(r) => assert_eq!(r.ret, Err(Errno::ESPIPE)),
        _ => panic!("the splice goes on"),
    }
    let (_, first) = start(0, pipe(1), file(), UserIn::Null, UserIn::Null).unwrap();
    assert!(matches!(first, SpliceAction::Copy));
    assert_eq!(start(0, file(), file(), UserIn::Null, UserIn::Null).err(), Some(Errno::EINVAL));
    assert_eq!(start(0x10, pipe(1), file(), UserIn::Null, UserIn::Null).err(), Some(Errno::EINVAL));
    assert_eq!(start(0, pipe(1), file(), UserIn::Value(1), UserIn::Null).err(), Some(Errno::ESPIPE));
    assert!(matches!(sys_tee(5, 0, Ok(pipe(1)), Ok(pipe(2))), Start::Run(_)));
    assert!(matches!(
        sys_tee(5, 0, Ok(pipe(1)), Ok(pipe(1))),
        Start::Return(Err(Errno::EINVAL))
    ));
    let wr = OpenFile { readable: false, ..pipe(1) };
    assert!(matches!(
        sys_vmsplice(0, Ok(wr), Ok(()), Ok(()), Ok(())),
        Ok(Direction::ToPipe)
    ));
    assert_eq!(
        sys_vmsplice(0, Ok(file()), Ok(()), Ok(()), Ok(())).err(),
        Some(Errno::EBADF)
    );
    let mut done = 0;
    assert_eq!(chunk_written(&mut done, 5, Ok(3)), None);
    assert_eq!(done, 3);
}

#[test]
fn descriptors() {
    let mut t = FdTable::new(4);
    let e = FdEntry { file: 7, flags: 0 };
    assert_eq!(t.alloc_fd(e), Ok(0));
    assert_eq!(sys_dup(&mut t, 0), Ok(1));
    assert_eq!(sys_dup(&mut t, 3), Err(Errno::EBADF));
    assert_eq!(sys_dup3(&mut t, 0, 0, 0), Err(Errno::EINVAL));
    assert_eq!(sys_dup3(&mut t, 0, 3, 0o2000000), Ok(3));
    assert_eq!(sys_close(&mut t, 0), Ok(0));
    assert_eq!(sys_close(&mut t, 0), Err(Errno::EBADF));
    assert_eq!(sys_dup(&mut t, 1), Ok(0));
    assert_eq!(sys_dup(&mut t, 1), Ok(2));
    assert_eq!(sys_dup(&mut t, 1), Err(Errno::EMFILE));
    let (r, e) = sys_fcntl(&mut t, 3, 1, 0, FdKind::Other);
    assert_eq!((r, e), (Ok(1), FcntlEffect::Nothing));
    assert_eq!(sys_fcntl(&mut t, 3, 2, 0, FdKind::Other).0, Ok(0));
    assert_eq!(sys_fcntl(&mut t, 3, 1, 0, FdKind::Other).0, Ok(0));
    assert_eq!(sys_fcntl(&mut t, 9, 1, 0, FdKind::Other).0, Err(Errno::EBADF));
    assert_eq!(
        sys_fcntl(&mut t, 3, 4, 0o4000, FdKind::Socket).1,
        FcntlEffect::SetNonblocking(true)
    );
}

#[test]
fn pipes_take_two_descriptors() {
    let mut t = FdTable::new(3);
    let r = sys_pipe2(&mut t, 1, 2, 0o2000000, UserOut::Writable);
    assert_eq!(r.ret, Ok(0));
    assert_eq!(r.out, Some((0, 1)));
    assert_eq!(t.get_fd_entry(0).unwrap().file, 1);
    assert_eq!(sys_pipe2(&mut t, 3, 4, 0, UserOut::Writable).ret, Err(Errno::EMFILE));
    assert!(t.get_fd_entry(2).is_err());
    assert_eq!(sys_pipe2(&mut t, 3, 4, 1, UserOut::Writable).ret, Err(Errno::EINVAL));
}

fn stat() -> Stat {
    Stat {
        st_ino: 3,
        st_mode: 0o100644,
        st_nlink: 1,
        st_uid: 10,
        st_gid: 11,
        st_size: 1000,
        st_blksize: 512,
        st_blocks: 2,
        st_atime: spec(1, 2),
        st_mtime: spec(3, 4),
        st_ctime: spec(5, 6),
    }
}

fn lookups(follow: Result<Stat, Errno>) -> Lookups<Stat> {
    Lookups {
        cwd: Err(Errno::EIO),
        fd: Err(Errno::EBADF),
        follow,
        nofollow: Err(Errno::ELOOP),
    }
}

#[test]
fn state_of_files() {
    let r = sys_fstatat(-100, text("a"), 0, lookups(Ok(stat())), UserOut::Writable);
    assert_eq!(r.ret, Ok(0));
    assert_eq!(r.out, Some(stat()));
    assert_eq!(
        sys_fstatat(-100, text("a"), 0x100, lookups(Ok(stat())), UserOut::Writable).ret,
        Err(Errno::ELOOP)
    );
    assert_eq!(
        sys_fstatat(-100, text("a"), 0x8, lookups(Ok(stat())), UserOut::Writable).ret,
        Err(Errno::EINVAL)
    );
    assert_eq!(
        sys_fstatat(-100, text(""), 0, lookups(Ok(stat())), UserOut::Writable).ret,
        Err(Errno::ENOENT)
    );
    assert_eq!(
        sys_fstatat(5, text(""), 0x1000, lookups(Ok(stat())), UserOut::Writable).ret,
        Err(Errno::EBADF)
    );
    assert_eq!(sys_fstat(Ok(stat()), UserOut::Fault).ret, Err(Errno::EFAULT));
    let x = sys_statx(-100, text("a"), 0, 0x7ff, lookups(Ok(stat())), UserOut::Writable)
        .out
        .unwrap();
    assert_eq!((x.stx_ino, x.stx_size, x.stx_mode), (3, 1000, 0o100644));
    assert_eq!(x.stx_mtime, StatxTimestamp::from(spec(3, 4)));
    assert_eq!(Statx::from(stat()).stx_uid, 10);
    assert_eq!(
        sys_statx(-100, text("a"), 0, 0x8000_0000, lookups(Ok(stat())), UserOut::Writable).ret,
        Err(Errno::EINVAL)
    );
}

#[test]
fn times_of_files() {
    let c = sys_utimensat(-100, Some(text("a")), UserIn::Value((spec(1, 2), spec(0, 1_073_741_822))), 0, 9)
        .unwrap()
        .unwrap();
    assert_eq!(c.atime, Some(spec(1, 2)));
    assert_eq!(c.mtime, None);
    assert_eq!(c.target, Target::Path(true));
    let now = sys_utimensat(-100, Some(text("a")), UserIn::Null, 0x100, 2_500).unwrap().unwrap();
    assert_eq!(now.atime, Some(spec(2, 500_000_000)));
    assert_eq!(now.target, Target::Path(false));
    assert_eq!(
        sys_utimensat(-100, Some(text("a")), UserIn::Value((spec(1, 1_000_000_000), spec(0, 0))), 0, 9),
        Err(Errno::EINVAL)
    );
    let omit = UserIn::Value((spec(0, 1_073_741_822), spec(0, 1_073_741_822)));
    assert_eq!(sys_utimensat(-100, Some(text("a")), omit, 0, 9), Ok(None));
}

#[test]
fn modes_and_owners() {
    assert_eq!(sys_fchmod(3, 0o7777).unwrap().mode & 0o7777, 0o7777);
    assert_eq!(sys_fchmodat(-100, text("a"), 0o644).unwrap().target, Target::Path(true));
    assert_eq!(sys_fchownat(-100, text("a"), 0x100), Ok(Target::Path(false)));
    assert_eq!(sys_fchownat(-100, text("a"), 0x1), Err(Errno::EINVAL));
    assert_eq!(new_owner(usize::MAX, 5, &stat()), (10, 5));
    assert_eq!(new_owner(7, usize::MAX, &stat()), (7, 11));
}

#[test]
fn sizes_of_files() {
    let f = SizedFile { writable: true, fs_file: true };
    assert_eq!(sys_ftruncate(10, Ok(f)), Ok(10));
    assert_eq!(sys_ftruncate(-1, Ok(f)), Err(Errno::EINVAL));
    assert!(sys_ftruncate(1, Ok(SizedFile { writable: false, ..f })).is_err());
    assert_eq!(sys_fallocate(0, 5, 10, Ok(f), Ok(3)), Ok(Some(15)));
    assert_eq!(sys_fallocate(0, 0, 0, Ok(f), Ok(3)), Err(Errno::EINVAL));
    assert_eq!(sys_fallocate(0, 0, 2, Ok(f), Ok(3)), Ok(None));
}

#[test]
fn access_to_files() {
    let found = |mode: u32| Lookups {
        cwd: Err(Errno::EIO),
        fd: Err(Errno::EBADF),
        follow: Ok((InodeType::Regular, mode)),
        nofollow: Err(Errno::ELOOP),
    };
    assert_eq!(sys_faccessat(-100, text("a"), 4, 0, found(0o444)), Ok(0));
    assert_eq!(sys_faccessat(-100, text("a"), 1, 0, found(0o444)), Err(Errno::EACCES));
    assert_eq!(sys_faccessat(-100, text("a"), 8, 0, found(0o444)), Err(Errno::EINVAL));
}

#[test]
fn opening() {
    let mut t = FdTable::new(8);
    assert_eq!(
        sys_openat(&mut t, Ok(()), 0o2000000, Ok(Opened { file: 4, fifo: false }), Ok(0)),
        Ok(0)
    );
    assert_eq!(
        sys_openat(&mut t, Ok(()), 0, Err(Errno::ENOENT), Ok(0)),
        Err(Errno::ENOENT)
    );
    let how = OpenHow { flags: 0, mode: 0, resolve: 0 };
    assert_eq!(
        sys_openat2(text("a"), UserIn::Value(how), 24, UserIn::Value(Vec::new()), Ok(InodeType::Regular)),
        Ok((0, 0))
    );
    assert_eq!(
        sys_openat2(text("a"), UserIn::Value(how), 23, UserIn::Value(Vec::new()), Ok(InodeType::Regular)),
        Err(Errno::EINVAL)
    );
    let bad = OpenHow { resolve: 0x100, ..how };
    assert_eq!(
        sys_openat2(text("a"), UserIn::Value(bad), 24, UserIn::Value(Vec::new()), Ok(InodeType::Regular)),
        Err(Errno::EINVAL)
    );
}

#[test]
fn new_names() {
    assert_eq!(sys_mkdirat(text("d"), 0o755).unwrap().path, "d");
    assert!(matches!(
        sys_mknodat(text("f"), 0o010644, 100).unwrap().kind,
        InodeType::Fifo
    ));
    assert_eq!(sys_mknodat(text("f"), 0o060644, 100).err(), Some(Errno::EPERM));
    assert_eq!(
        sys_symlinkat(text("t"), text("l")),
        Ok((String::from("t"), String::from("l")))
    );
    let plan = sys_linkat(text("/proc/self/fd/12"), text("n"), 0x400).unwrap();
    assert_eq!(plan.fd, Some(12));
    assert_eq!(sys_linkat(text("a"), text("n"), 0x1).err(), Some(Errno::EINVAL));
    assert!(matches!(linkat_source(Some(3), Ok(true)), Ok(LinkSource::Nameless)));
    assert!(matches!(linkat_source(None, Ok(true)), Ok(LinkSource::Path)));
    assert!(sys_renameat2(text("a"), text("b"), 0).is_ok());
    assert_eq!(sys_renameat2(text("a"), text("b"), 8).err(), Some(Errno::EINVAL));
    assert_eq!(sys_unlinkat(text("a"), 0x200), Ok((String::from("a"), true)));
    assert_eq!(sys_unlinkat(text("a"), 1).err(), Some(Errno::EINVAL));
}

#[test]
fn working_directory() {
    let mut cwd = 1;
    assert_eq!(sys_chdir(&mut cwd, Ok((5, InodeType::Directory)), Ok(())), Ok(0));
    assert_eq!(cwd, 5);
    assert_eq!(
        sys_chdir(&mut cwd, Ok((6, InodeType::Regular)), Ok(())),
        Err(Errno::ENOTDIR)
    );
    assert_eq!(
        sys_chdir(&mut cwd, Ok((6, InodeType::Directory)), Err(Errno::EACCES)),
        Err(Errno::EACCES)
    );
    assert_eq!(cwd, 5);
    let r = sys_getcwd("/tmp", 0x1000, 64, UserOut::Writable);
    assert_eq!(r.out, Some(b"/tmp\0".to_vec()));
    assert_eq!(sys_getcwd("/tmp", 0x1000, 4, UserOut::Writable).ret, Err(Errno::ERANGE));
    let l = sys_readlinkat(Ok(()), Ok(String::from("target")), 3, UserOut::Writable);
    assert_eq!(l.ret, Ok(3));
    assert_eq!(l.out, Some(b"tar".to_vec()));
    assert_eq!(sys_readlinkat(Ok(()), Ok(String::from("t")), 0, UserOut::Fault).ret, Ok(0));
    assert_eq!(
        sys_readlinkat(Ok(()), Ok(String::from("t")), 1, UserOut::Fault).ret,
        Err(Errno::EFAULT)
    );
}

#[test]
fn directory_listing() {
    let entries = vec![
        Dirent { d_off: 1, d_reclen: 24 },
        Dirent { d_off: 2, d_reclen: 24 },
        Dirent { d_off: 3, d_reclen: 24 },
    ];
    let l = sys_getdents64(50, Ok(true), 0, Ok(entries.clone()), UserOut::Writable).unwrap();
    assert_eq!(l.written, 48);
    assert_eq!(l.taken, vec![0, 1]);
    assert_eq!(
        sys_getdents64(8, Ok(true), 0, Ok(entries), UserOut::Writable).err(),
        Some(Errno::EINVAL)
    );
}

#[test]
fn mounting_and_seeking() {
    let m = sys_mount(text("/dev/a"), text("/mnt"), text("ext4"), 0).unwrap();
    assert_eq!((m.target.as_str(), m.fstype.as_str()), ("/mnt", "ext4"));
    assert!(sys_umount2(text("/mnt"), 0).is_ok());
    assert_eq!(sys_lseek(Ok(()), 5, 0, 3, Ok(10)), Ok(5));
    assert_eq!(sys_lseek(Ok(()), 5, 1, 3, Ok(10)), Ok(8));
    assert_eq!(sys_lseek(Ok(()), -5, 2, 3, Ok(10)), Ok(5));
    assert_eq!(sys_lseek(Ok(()), -5, 1, 3, Ok(10)), Err(Errno::EINVAL));
    assert_eq!(sys_lseek(Ok(()), 5, 9, 3, Ok(10)), Err(Errno::EINVAL));
    assert_eq!(sys_lseek(Err(Errno::ESPIPE), 5, 0, 3, Ok(10)), Err(Errno::ESPIPE));
    assert_eq!(sys_fsync(Err(Errno::EBADF), Ok(0)), Err(Errno::EBADF));
    assert_eq!(sys_fdatasync(Ok(()), Ok(0)), Ok(0));
}

#[test]
fn polling_descriptors() {
    let mut t = thread();
    let mask = UserIn::Value(SigSet { bits: 1 });
    let mut c = sys_ppoll(&mut t, 3, UserIn::Value(spec(0, 1000)), mask, 8).unwrap();
    assert_eq!(t.mask, SigSet { bits: 1 });
    assert_eq!(c.wait.timeout_us, Some(1));
    let fds = vec![
        PollFd { fd: 3, events: 5, revents: 9 },
        PollFd { fd: -1, events: 1, revents: 9 },
        PollFd { fd: 4, events: 1, revents: 0 },
    ];
    let ready = Readiness { readable: true, writable: true, read_ready: true, write_ready: false };
    assert_eq!(
        c.step(&mut t, PollEvent::Fds { fds: UserIn::Value(fds), now_us: 100 }),
        PollAction::Look
    );
    let files = vec![Some(ready), None, None];
    assert_eq!(
        c.step(&mut t, PollEvent::Looked { files, now_us: 100, signal: false }),
        PollAction::WriteBack
    );
    let met: Vec<i16> = c.fds.iter().map(|p| p.revents).collect();
    assert_eq!(met, vec![1, 0, 0x20]);
    assert_eq!(c.step(&mut t, PollEvent::Written(Ok(()))), PollAction::Return(Ok(2)));
    assert_eq!(t, thread());

    let mut c = sys_ppoll(&mut t, 0, UserIn::Null, UserIn::Value(SigSet { bits: 0 }), 8).unwrap();
    c.step(&mut t, PollEvent::Fds { fds: UserIn::Null, now_us: 0 });
    let nothing = PollEvent::Looked { files: Vec::new(), now_us: 0, signal: false };
    assert_eq!(c.step(&mut t, nothing), PollAction::Sleep);
    assert!(t.interruptible);
    assert_eq!(t.mask, SigSet { bits: 0 });
    t.interrupted = true;
    assert_eq!(
        c.step(&mut t, PollEvent::Resumed { signal: true }),
        PollAction::Return(Err(Errno::EINTR))
    );
    assert_eq!(t, thread());

    let mut c = sys_ppoll(&mut t, 1, UserIn::Null, UserIn::Value(SigSet { bits: 0 }), 8).unwrap();
    assert_eq!(
        c.step(&mut t, PollEvent::Fds { fds: UserIn::Fault, now_us: 0 }),
        PollAction::Return(Err(Errno::EFAULT))
    );
    assert_eq!(t, thread());
    assert_eq!(
        sys_ppoll(&mut t, 4097, UserIn::Null, UserIn::Null, 8).err(),
        Some(Errno::EINVAL)
    );
    assert_eq!(
        sys_ppoll(&mut t, 1, UserIn::Value(spec(0, -1)), UserIn::Null, 8).err(),
        Some(Errno::EINVAL)
    );
    assert_eq!(t, thread());
    let mut fds = vec![PollFd { fd: 4, events: 1, revents: 0 }];
    assert_eq!(ppoll_scan_ready(&mut fds, &vec![None]), 1);
    let w = c.wait;
    assert!(matches!(w.next(2, 0, 0, false, false), PollStep::Return(Ok(2))));
    assert!(matches!(w.next(0, 0, 0, true, false), PollStep::Return(Err(Errno::EINTR))));
    assert!(matches!(ppoll_wait_interruptible(false, false), SleepStep::Yield));
    assert!(matches!(ppoll_wait_interruptible(true, true), SleepStep::Stay));
}

#[test]
fn selecting_descriptors() {
    let watched = || {
        Some(vec![
            Watched { fd: 1, able: true, ready: true },
            Watched { fd: 2, able: true, ready: false },
        ])
    };
    let look = |signal: bool, now_us: usize, ready: bool| SelectEvent::Looked {
        read: if ready { watched() } else { Some(Vec::new()) },
        write: None,
        except: true,
        now_us,
        signal,
    };
    let arg = || UserIn::Value(Pselect6Sigmask { sigmask: 1, sigsetsize: 8 });
    let mask = || UserIn::Value(SigSet { bits: 0 });
    let mut t = thread();
    let mut c = sys_pselect6(&mut t, UserIn::Value(spec(0, 5000)), arg(), mask()).unwrap();
    assert_eq!(t.mask, SigSet { bits: 0 });
    let sets = SelectEvent::Sets { found: Ok(()), now_us: 10 };
    assert!(matches!(c.step(&mut t, sets), SelectAction::Look));
    assert!(matches!(c.step(&mut t, look(false, 12, false)), SelectAction::Yield));
    assert!(t.interruptible);
    assert!(matches!(c.step(&mut t, SelectEvent::Resumed { signal: false }), SelectAction::Look));
    match c.step(&mut t, look(false, 13, true)) {
        SelectAction::WriteBack { sets, count } => {
            assert_eq!(count, 1);
            assert_eq!(sets.read, Some(vec![1]));
            assert_eq!(sets.write, None);
            assert_eq!(sets.except, Some(Vec::new()));
        }
        _ => panic!("nothing is ready"),
    }
    let written = SelectEvent::Written { reads: Ok(()), writes: Err(Errno::EFAULT), excepts: Ok(()) };
    assert!(matches!(c.step(&mut t, written), SelectAction::Return(Ok(1))));
    assert_eq!(t, thread());

    let mut c = sys_pselect6(&mut t, UserIn::Value(spec(0, 5000)), arg(), mask()).unwrap();
    c.step(&mut t, SelectEvent::Sets { found: Ok(()), now_us: 10 });
    assert!(matches!(
        c.step(&mut t, look(true, 15, false)),
        SelectAction::WriteBack { count: 0, .. }
    ));
    let written = SelectEvent::Written { reads: Err(Errno::EFAULT), writes: Ok(()), excepts: Ok(()) };
    assert!(matches!(c.step(&mut t, written), SelectAction::Return(Err(Errno::EFAULT))));
    assert_eq!(t, thread());

    let mut c = sys_pselect6(&mut t, UserIn::Null, arg(), mask()).unwrap();
    c.step(&mut t, SelectEvent::Sets { found: Ok(()), now_us: 10 });
    assert!(matches!(
        c.step(&mut t, look(true, 15, false)),
        SelectAction::Return(Err(Errno::EINTR))
    ));
    assert_eq!(t, thread());
    let mut c = sys_pselect6(&mut t, UserIn::Null, arg(), mask()).unwrap();
    let bad = SelectEvent::Sets { found: Err(Errno::EBADF), now_us: 10 };
    assert!(matches!(c.step(&mut t, bad), SelectAction::Return(Err(Errno::EBADF))));
    assert_eq!(t, thread());
    let short = UserIn::Value(Pselect6Sigmask { sigmask: 1, sigsetsize: 4 });
    assert_eq!(sys_pselect6(&mut t, UserIn::Null, short, mask()).err(), Some(Errno::EINVAL));
    assert_eq!(t, thread());
}

#[test]
fn event_counters() {
    let mut e = sys_eventfd2(3, 0).unwrap();
    assert!(matches!(e.read(4), Attempt::Fail(Errno::EINVAL)));
    match e.read(8) {
        Attempt::Done { n, bytes } => {
            assert_eq!(n, 8);
            assert_eq!(bytes, 3u64.to_le_bytes().to_vec());
        }
        _ => panic!("nothing was read"),
    }
    assert!(!e.read_ready());
    assert!(matches!(e.read(8), Attempt::Wait));
    assert!(matches!(e.write(&7u64.to_le_bytes()), Attempt::Done { n: 8, .. }));
    assert!(matches!(e.write(&u64::MAX.to_le_bytes()), Attempt::Fail(Errno::EINVAL)));
    let mut s = sys_eventfd2(2, 1).unwrap();
    assert!(matches!(s.read(8), Attempt::Done { .. }));
    assert_eq!(s.counter, 1);
    assert_eq!(sys_eventfd2(0, 0x40).err(), Some(Errno::EINVAL));
    let mut nb = sys_eventfd2(0, 0o4000).unwrap();
    assert!(matches!(nb.read(8), Attempt::Fail(Errno::EAGAIN)));
    assert_eq!(sys_eventfd2(0, 1 << 40).err(), Some(Errno::EINVAL));
    assert_eq!(wait_for_file_event(true, true), Some(Ok(())));
    assert_eq!(wait_for_file_event(false, true), Some(Err(Errno::EINTR)));
    assert_eq!(wait_for_file_event(false, false), None);
    assert_eq!(file_event_resumed(true), Err(Errno::EINTR));
    assert_eq!(file_event_resumed(false), Ok(()));
    assert!(sys_memfd_create(Ok(3), 3).unwrap().sealing);
    assert_eq!(sys_memfd_create(Ok(250), 0).err(), Some(Errno::EINVAL));
    assert!(sys_signalfd4(0, 0, 0, 0).is_err());
}

#[test]
fn interest_in_descriptors() {
    let mut e = sys_epoll_create1(0).unwrap();
    assert_eq!(e.ctl(1, 5, Some((1, 99)), 50), Ok(0));
    assert_eq!(e.ctl(1, 5, Some((1, 99)), 50), Err(Errno::EEXIST));
    assert_eq!(e.ctl(2, 6, None, 60), Err(Errno::ENOENT));
    let mut files = SortedMap::new();
    let r = FileReady { input: true, output: true, error: false, hangup: false, read_hangup: false };
    files.insert(50, r);
    let ready = e.scan_ready(8, &files);
    assert_eq!(ready.len(), 1);
    assert_eq!((ready[0].fd, ready[0].events, ready[0].data), (5, 1, 99));
    let bytes = write_epoll_events(&ready);
    assert!(!bytes.is_empty());
    e.commit_ready(&ready);
    assert_eq!(e.ctl(3, 5, Some((4 | 0x4000_0000, 1)), 50), Ok(0));
    let ready = e.scan_ready(8, &files);
    assert_eq!(ready[0].events, 4);
    e.commit_ready(&ready);
    assert!(e.scan_ready(8, &files).is_empty());
    assert_eq!(e.ctl(2, 5, None, 50), Ok(0));
    assert!(e.register_waiters().is_empty());
}

#[test]
fn waiting_for_interest() {
    let mut e = sys_epoll_create1(0).unwrap();
    assert_eq!(e.ctl(1, 5, Some((1 | 0x4000_0000, 99)), 50), Ok(0));
    let files = |input: bool| {
        let mut m = SortedMap::new();
        m.insert(
            50,
            FileReady { input, output: false, error: false, hangup: false, read_hangup: false },
        );
        m
    };
    let look = |input: bool, now_us: usize, signal: bool| EpollEvent::Looked {
        files: files(input),
        now_us,
        signal,
    };
    let mask = || UserIn::Value(SigSet { bits: 0 });
    let mut t = thread();
    let mut c = sys_epoll_pwait(&mut t, Ok(()), 8, 5, mask(), 8, 1000).unwrap();
    assert_eq!(t.mask, SigSet { bits: 0 });
    assert_eq!(c.wait.deadline_us, Some(6000));
    assert!(matches!(c.step(&mut e, &mut t, look(false, 1000, false)), EpollAction::Register));
    assert!(t.interruptible);
    assert!(matches!(
        c.step(&mut e, &mut t, EpollEvent::Registered(1)),
        EpollAction::Sleep(Some(6000))
    ));
    let woken = EpollEvent::Woken { signal: false, timed_out: false, now_us: 2000 };
    assert!(matches!(c.step(&mut e, &mut t, woken), EpollAction::Look));
    match c.step(&mut e, &mut t, look(true, 2000, false)) {
        EpollAction::Write(bytes) => assert_eq!(bytes, vec![1, 0, 0, 0, 99, 0, 0, 0, 0, 0, 0, 0]),
        _ => panic!("nothing is reported"),
    }
    assert!(matches!(
        c.step(&mut e, &mut t, EpollEvent::Written(Err(Errno::EFAULT))),
        EpollAction::Return(Err(Errno::EFAULT))
    ));
    assert_eq!(t, thread());

    let mut c = sys_epoll_pwait(&mut t, Ok(()), 8, -1, mask(), 8, 1000).unwrap();
    assert!(matches!(c.step(&mut e, &mut t, look(true, 1000, true)), EpollAction::Write(_)));
    assert!(matches!(
        c.step(&mut e, &mut t, EpollEvent::Written(Ok(()))),
        EpollAction::Return(Ok(1))
    ));
    assert_eq!(t, thread());

    let mut c = sys_epoll_pwait(&mut t, Ok(()), 8, -1, mask(), 8, 1000).unwrap();
    assert!(matches!(c.step(&mut e, &mut t, look(true, 1000, false)), EpollAction::Register));
    assert!(matches!(c.step(&mut e, &mut t, EpollEvent::Registered(0)), EpollAction::Yield));
    assert!(!t.interruptible);
    assert!(matches!(
        c.step(&mut e, &mut t, look(true, 1000, true)),
        EpollAction::Return(Err(Errno::EINTR))
    ));
    assert_eq!(t, thread());
    let mut c = sys_epoll_pwait(&mut t, Ok(()), 8, 0, mask(), 8, 1000).unwrap();
    assert!(matches!(
        c.step(&mut e, &mut t, look(false, 1000, true)),
        EpollAction::Return(Ok(0))
    ));
    assert_eq!(t, thread());
    assert_eq!(
        sys_epoll_pwait(&mut t, Ok(()), 0, 5, UserIn::Null, 8, 0).err(),
        Some(Errno::EINVAL)
    );
    assert!(epoll_must_sleep(false, 0, false, Some(5), 4));
    assert!(!epoll_must_sleep(false, 0, false, Some(5), 5));
    assert!(!epoll_must_sleep(false, 1, false, None, 0));
    let event = || UserIn::Value(vec![1, 0, 0, 0, 7, 0, 0, 0, 0, 0, 0, 0]);
    let ctl = |fd: usize, op: usize, kind: Result<InodeType, Errno>, event: UserIn<Vec<u8>>| {
        sys_epoll_ctl(1, op, fd, Ok(()), Ok(()), kind, event)
    };
    assert_eq!(ctl(2, 1, Ok(InodeType::Fifo), event()), Ok(Some((1, 7))));
    assert_eq!(ctl(2, 2, Ok(InodeType::Fifo), UserIn::Null), Ok(None));
    assert_eq!(ctl(1, 1, Err(Errno::EIO), event()), Err(Errno::EINVAL));
    assert_eq!(ctl(2, 9, Err(Errno::EIO), event()), Err(Errno::EINVAL));
    assert_eq!(ctl(2, 1, Err(Errno::EIO), event()), Err(Errno::EIO));
    assert_eq!(ctl(2, 1, Ok(InodeType::Regular), event()), Err(Errno::EPERM));
    assert_eq!(ctl(2, 1, Ok(InodeType::Fifo), UserIn::Fault), Err(Errno::EFAULT));
    assert_eq!(
        sys_epoll_ctl(1, 9, 2, Ok(()), Err(Errno::EBADF), Err(Errno::EIO), event()),
        Err(Errno::EBADF)
    );
}
