//! Descriptor tables and the calls that only touch them.

use crate::errno::{err, ok, Errno, SysResult};
use crate::sorted_map::SortedMap;
use crate::syscall::file::{O_CLOEXEC, O_NONBLOCK, O_WRONLY};
use crate::user::{failed, Reply, UserOut};
use vstd::prelude::*;

verus! {

/// What a descriptor stands for: an open file, by its identity, and the flags
/// of the descriptor.
#[derive(Debug, Clone, Copy, PartialEq, Eq, Structural)]
pub struct FdEntry {
    pub file: usize,
    pub flags: u32,
}

/// The descriptors of a process, all below `limit`.
#[derive(Debug)]
pub struct FdTable {
    pub entries: SortedMap<FdEntry>,
    pub limit: usize,
}

impl View for FdTable {
    type V = Map<usize, FdEntry>;

    open spec fn view(&self) -> Map<usize, FdEntry> {
        self.entries@
    }
}

/// `fd` is the lowest free descriptor from `from` on.
pub open spec fn lowest_free(t: Map<usize, FdEntry>, from: int, fd: int) -> bool {
    &&& from <= fd
    &&& !t.contains_key(fd as usize)
    &&& forall|k: usize| from <= k < fd ==> #[trigger] t.contains_key(k)
}

/// What allocating a descriptor from `from` on comes to: the lowest free one
/// below the limit, or `EMFILE`.
pub open spec fn allocated(
    before: FdTable,
    after: FdTable,
    entry: FdEntry,
    from: int,
    r: SysResult<usize>,
) -> bool {
    match r {
        Ok(fd) => {
            &&& fd < before.limit
            &&& lowest_free(before@, from, fd as int)
            &&& after@ == before@.insert(fd, entry)
        },
        Err(e) => {
            &&& e == Errno::EMFILE
            &&& forall|k: usize| from <= k < before.limit ==> #[trigger] before@.contains_key(k)
            &&& after == before
        },
    }
}

impl FdTable {
    /// Descriptors are below the limit.
    pub open spec fn wf(&self) -> bool {
        &&& self.entries.wf()
        &&& forall|k: usize| #[trigger] self.entries@.contains_key(k) ==> k < self.limit
    }

    /// An empty table.
    pub fn new(limit: usize) -> (r: Self)
        ensures
            r.wf(),
            r.limit == limit,
            r@ == Map::<usize, FdEntry>::empty(),
    {
        FdTable { entries: SortedMap::new(), limit }
    }

    /// The entry of a descriptor.
    pub fn get_fd_entry(&self, fd: usize) -> (r: SysResult<FdEntry>)
        requires
            self.wf(),
        ensures
            r == entry_of(self@, fd),
    {
        match self.entries.get(fd) {
            Some(e) => Ok(*e),
            None => Err(Errno::EBADF),
        }
    }

    /// Gives `entry` the lowest free descriptor that is not below `from`.
    pub fn alloc_fd_from(&mut self, entry: FdEntry, from: usize) -> (r: SysResult<usize>)
        requires
            old(self).wf(),
        ensures
            final(self).wf(),
            final(self).limit == old(self).limit,
            from >= old(self).limit ==> r == err(Errno::EINVAL) && *final(self) == *old(self),
            from < old(self).limit ==> allocated(*old(self), *final(self), entry, from as int, r),
    {
        if from >= self.limit {
            return Err(Errno::EINVAL);
        }
        let mut fd: usize = from;
        while fd < self.limit
            invariant
                self.wf(),
                *self == *old(self),
                from <= fd <= self.limit,
                from < self.limit,
                forall|k: usize| from <= k < fd ==> #[trigger] self@.contains_key(k),
            decreases self.limit - fd,
        {
            if !self.entries.contains_key(fd) {
                self.entries.insert(fd, entry);
                return Ok(fd);
            }
            fd = fd + 1;
        }
        Err(Errno::EMFILE)
    }

    /// Gives `entry` the lowest free descriptor.
    pub fn alloc_fd(&mut self, entry: FdEntry) -> (r: SysResult<usize>)
        requires
            old(self).wf(),
        ensures
            final(self).wf(),
            final(self).limit == old(self).limit,
            allocated(*old(self), *final(self), entry, 0, r),
    {
        if self.limit == 0 {
            return Err(Errno::EMFILE);
        }
        self.alloc_fd_from(entry, 0)
    }

    /// Makes `fd` stand for `entry`.
    pub fn set_fd(&mut self, fd: usize, entry: FdEntry) -> (r: SysResult<()>)
        requires
            old(self).wf(),
        ensures
            final(self).wf(),
            final(self).limit == old(self).limit,
            if fd >= old(self).limit {
                r == Err::<(), Errno>(Errno::EBADF) && *final(self) == *old(self)
            } else {
                r is Ok && final(self)@ == old(self)@.insert(fd, entry)
            },
    {
        if fd >= self.limit {
            return Err(Errno::EBADF);
        }
        self.entries.insert(fd, entry);
        Ok(())
    }

    /// Frees a descriptor.
    pub fn close(&mut self, fd: usize) -> (r: SysResult<()>)
        requires
            old(self).wf(),
        ensures
            final(self).wf(),
            final(self).limit == old(self).limit,
            final(self)@ == old(self)@.remove(fd),
            r == (if old(self)@.contains_key(fd) {
                Ok::<(), Errno>(())
            } else {
                Err(Errno::EBADF)
            }),
            r is Err ==> *final(self) == *old(self),
    {
        match self.entries.remove(fd) {
            Some(_) => Ok(()),
            None => Err(Errno::EBADF),
        }
    }
}

/// The entry of a descriptor in a table.
pub open spec fn entry_of(t: Map<usize, FdEntry>, fd: usize) -> SysResult<FdEntry> {
    if t.contains_key(fd) {
        Ok(t[fd])
    } else {
        Err(Errno::EBADF)
    }
}

/// What closing a descriptor returns.
pub open spec fn close_result(t: Map<usize, FdEntry>, fd: usize) -> SysResult<usize> {
    if t.contains_key(fd) {
        ok(0)
    } else {
        err(Errno::EBADF)
    }
}

/// Closes a descriptor.
pub fn sys_close(table: &mut FdTable, fd: usize) -> (r: SysResult<usize>)
    requires
        old(table).wf(),
    ensures
        final(table).wf(),
        final(table).limit == old(table).limit,
        final(table)@ == old(table)@.remove(fd),
        r == close_result(old(table)@, fd),
{
    match table.close(fd) {
        Ok(_) => Ok(0),
        Err(e) => Err(e),
    }
}

/// An entry that is inherited by a new program image, or not.
pub open spec fn with_cloexec(e: FdEntry, on: bool) -> FdEntry {
    FdEntry {
        file: e.file,
        flags: if on {
            e.flags | O_CLOEXEC
        } else {
            e.flags & !O_CLOEXEC
        },
    }
}

fn set_cloexec(e: FdEntry, on: bool) -> (r: FdEntry)
    ensures
        r == with_cloexec(e, on),
{
    FdEntry {
        file: e.file,
        flags: if on {
            e.flags | O_CLOEXEC
        } else {
            e.flags & !O_CLOEXEC
        },
    }
}

/// What duplicating a descriptor comes to.
pub open spec fn dup_done(before: FdTable, after: FdTable, fd: usize, r: SysResult<usize>) -> bool {
    match entry_of(before@, fd) {
        Err(e) => r == err(e) && after == before,
        Ok(e) => allocated(before, after, with_cloexec(e, false), 0, r),
    }
}

/// Duplicates a descriptor; the copy is inherited by a new program image.
pub fn sys_dup(table: &mut FdTable, fd: usize) -> (r: SysResult<usize>)
    requires
        old(table).wf(),
    ensures
        final(table).wf(),
        final(table).limit == old(table).limit,
        dup_done(*old(table), *final(table), fd, r),
{
    match table.get_fd_entry(fd) {
        Err(e) => Err(e),
        Ok(e) => table.alloc_fd(set_cloexec(e, false)),
    }
}

/// What duplicating a descriptor to a given one comes to.
pub open spec fn dup3_done(
    before: FdTable,
    after: FdTable,
    fd_src: usize,
    fd_dst: usize,
    flags: usize,
    r: SysResult<usize>,
) -> bool {
    if fd_src == fd_dst || flags & !(O_CLOEXEC as usize) != 0 {
        r == err(Errno::EINVAL) && after == before
    } else {
        match entry_of(before@, fd_src) {
            Err(e) => r == err(e) && after == before,
            Ok(e) => if fd_dst >= before.limit {
                r == err(Errno::EBADF) && after == before
            } else {
                &&& r == ok(fd_dst)
                &&& after@ == before@.insert(
                    fd_dst,
                    with_cloexec(e, flags & (O_CLOEXEC as usize) != 0),
                )
            },
        }
    }
}

/// Makes `fd_dst` a duplicate of `fd_src`.
pub fn sys_dup3(table: &mut FdTable, fd_src: usize, fd_dst: usize, flags: usize) -> (r: SysResult<
    usize,
>)
    requires
        old(table).wf(),
    ensures
        final(table).wf(),
        final(table).limit == old(table).limit,
        dup3_done(*old(table), *final(table), fd_src, fd_dst, flags, r),
{
    if fd_src == fd_dst {
        return Err(Errno::EINVAL);
    }
    if flags & !(O_CLOEXEC as usize) != 0 {
        return Err(Errno::EINVAL);
    }
    let e = match table.get_fd_entry(fd_src) {
        Ok(e) => e,
        Err(e) => {
            return Err(e);
        },
    };
    match table.set_fd(fd_dst, set_cloexec(e, flags & (O_CLOEXEC as usize) != 0)) {
        Ok(_) => Ok(fd_dst),
        Err(e) => Err(e),
    }
}

pub const F_DUPFD: usize = 0;

pub const F_GETFD: usize = 1;

pub const F_SETFD: usize = 2;

pub const F_GETFL: usize = 3;

pub const F_SETFL: usize = 4;

pub const F_GETLK: usize = 5;

pub const F_SETLK: usize = 6;

pub const F_SETLKW: usize = 7;

pub const F_DUPFD_CLOEXEC: usize = 1030;

pub const F_SETPIPE_SZ: usize = 1031;

pub const F_GETPIPE_SZ: usize = 1032;

pub const FD_CLOEXEC: usize = 1;

/// The flags that can be changed on an open descriptor: O_APPEND, O_NONBLOCK
/// and O_DIRECT.
pub const STATUS_FLAGS: u32 = 0o46000;

/// What else a command acts on: the pipe or the socket behind the descriptor.
#[derive(Debug, Clone, Copy, PartialEq, Eq, Structural)]
pub enum FdKind {
    /// A pipe with its capacity.
    Pipe(usize),
    Socket,
    Other,
}

/// What is left to be done for a command outside the descriptor table.
#[derive(Debug, Clone, Copy, PartialEq, Eq, Structural)]
pub enum FcntlEffect {
    Nothing,
    /// The socket behind the descriptor gets or loses its non-blocking mode.
    SetNonblocking(bool),
    /// The call returns what resizing the pipe returns.
    ResizePipe(usize),
}

/// The entry with its status flags replaced by those in `arg`.
pub open spec fn with_status(e: FdEntry, arg: usize) -> FdEntry {
    FdEntry { file: e.file, flags: (e.flags & !STATUS_FLAGS) | ((arg as u32) & STATUS_FLAGS) }
}

/// What a descriptor command does to the table.
pub open spec fn fcntl_done(
    before: FdTable,
    after: FdTable,
    fd: usize,
    e: FdEntry,
    kind: FdKind,
    cmd: usize,
    arg: usize,
    r: SysResult<usize>,
    effect: FcntlEffect,
) -> bool {
    let quiet = effect == FcntlEffect::Nothing;
    let kept = after == before;
    if cmd == F_DUPFD || cmd == F_DUPFD_CLOEXEC {
        &&& quiet
        &&& if arg >= before.limit {
            r == err(Errno::EINVAL) && kept
        } else {
            allocated(before, after, with_cloexec(e, cmd == F_DUPFD_CLOEXEC), arg as int, r)
        }
    } else if cmd == F_GETFD {
        quiet && kept && r == ok(
            if e.flags & O_CLOEXEC != 0 {
                FD_CLOEXEC
            } else {
                0
            },
        )
    } else if cmd == F_SETFD {
        &&& quiet
        &&& r == ok(0)
        &&& after@ == before@.insert(fd, with_cloexec(e, arg & FD_CLOEXEC != 0))
    } else if cmd == F_GETFL {
        quiet && kept && r == ok(e.flags as usize)
    } else if cmd == F_SETFL {
        &&& r == ok(0)
        &&& after@ == before@.insert(fd, with_status(e, arg))
        &&& effect == (if kind == FdKind::Socket {
            FcntlEffect::SetNonblocking(with_status(e, arg).flags & O_NONBLOCK != 0)
        } else {
            FcntlEffect::Nothing
        })
    } else if cmd == F_GETPIPE_SZ {
        quiet && kept && r == (match kind {
            FdKind::Pipe(n) => ok(n),
            _ => err(Errno::EBADF),
        })
    } else if cmd == F_SETPIPE_SZ {
        kept && (match kind {
            FdKind::Pipe(_) => r == ok(0) && effect == FcntlEffect::ResizePipe(arg),
            _ => r == err(Errno::EBADF) && quiet,
        })
    } else if cmd == F_GETLK || cmd == F_SETLK || cmd == F_SETLKW {
        quiet && kept && r == ok(0)
    } else {
        quiet && kept && r == err(Errno::EINVAL)
    }
}

/// Runs a descriptor command. `kind` tells what is behind an open descriptor.
pub fn sys_fcntl(table: &mut FdTable, fd: usize, cmd: usize, arg: usize, kind: FdKind) -> (r: (
    SysResult<usize>,
    FcntlEffect,
))
    requires
        old(table).wf(),
    ensures
        final(table).wf(),
        final(table).limit == old(table).limit,
        match entry_of(old(table)@, fd) {
            Err(e) => r.0 == err(e) && r.1 == FcntlEffect::Nothing && *final(table) == *old(table),
            Ok(e) => fcntl_done(*old(table), *final(table), fd, e, kind, cmd, arg, r.0, r.1),
        },
{
    let e = match table.get_fd_entry(fd) {
        Ok(e) => e,
        Err(e) => {
            return (Err(e), FcntlEffect::Nothing);
        },
    };
    if cmd == F_DUPFD || cmd == F_DUPFD_CLOEXEC {
        let r = table.alloc_fd_from(set_cloexec(e, cmd == F_DUPFD_CLOEXEC), arg);
        (r, FcntlEffect::Nothing)
    } else if cmd == F_GETFD {
        if e.flags & O_CLOEXEC != 0 {
            (Ok(FD_CLOEXEC), FcntlEffect::Nothing)
        } else {
            (Ok(0), FcntlEffect::Nothing)
        }
    } else if cmd == F_SETFD {
        match table.set_fd(fd, set_cloexec(e, arg & FD_CLOEXEC != 0)) {
            Ok(_) => (Ok(0), FcntlEffect::Nothing),
            Err(e) => (Err(e), FcntlEffect::Nothing),
        }
    } else if cmd == F_GETFL {
        (Ok(e.flags as usize), FcntlEffect::Nothing)
    } else if cmd == F_SETFL {
        let flags: u32 = (e.flags & !STATUS_FLAGS) | ((arg as u32) & STATUS_FLAGS);
        let effect = match kind {
            FdKind::Socket => FcntlEffect::SetNonblocking(flags & O_NONBLOCK != 0),
            _ => FcntlEffect::Nothing,
        };
        match table.set_fd(fd, FdEntry { file: e.file, flags }) {
            Ok(_) => (Ok(0), effect),
            Err(e) => (Err(e), FcntlEffect::Nothing),
        }
    } else if cmd == F_GETPIPE_SZ {
        match kind {
            FdKind::Pipe(n) => (Ok(n), FcntlEffect::Nothing),
            _ => (Err(Errno::EBADF), FcntlEffect::Nothing),
        }
    } else if cmd == F_SETPIPE_SZ {
        match kind {
            FdKind::Pipe(_) => (Ok(0), FcntlEffect::ResizePipe(arg)),
            _ => (Err(Errno::EBADF), FcntlEffect::Nothing),
        }
    } else if cmd == F_GETLK || cmd == F_SETLK || cmd == F_SETLKW {
        (Ok(0), FcntlEffect::Nothing)
    } else {
        (Err(Errno::EINVAL), FcntlEffect::Nothing)
    }
}

/// The flags a new pipe can have: O_CLOEXEC, O_NONBLOCK and O_DIRECT.
pub const PIPE_FLAGS: usize = 0o2044000;

/// The two ends of a new pipe in the table: the two lowest free descriptors,
/// the reading end first.
pub open spec fn pipe_placed(
    before: FdTable,
    after: FdTable,
    ends: (FdEntry, FdEntry),
    fds: (usize, usize),
) -> bool {
    let half = before@.insert(fds.0, ends.0);
    &&& fds.0 < before.limit
    &&& fds.1 < before.limit
    &&& lowest_free(before@, 0, fds.0 as int)
    &&& lowest_free(half, 0, fds.1 as int)
    &&& after@ == half.insert(fds.1, ends.1)
}

/// At least two descriptors below the limit are free.
pub open spec fn two_free(t: FdTable) -> bool {
    exists|a: usize, b: usize|
        #![trigger t@.contains_key(a), t@.contains_key(b)]
        a < b < t.limit && !t@.contains_key(a) && !t@.contains_key(b)
}

/// What making a pipe comes to.
pub open spec fn pipe_done(
    before: FdTable,
    after: FdTable,
    read_end: usize,
    write_end: usize,
    flags: usize,
    out: UserOut,
    r: Reply<(usize, usize)>,
) -> bool {
    if flags & !PIPE_FLAGS != 0 {
        r == failed::<(usize, usize)>(Errno::EINVAL) && after@ == before@
    } else if !two_free(before) {
        r == failed::<(usize, usize)>(Errno::EMFILE) && after@ == before@
    } else if out != UserOut::Writable {
        r == failed::<(usize, usize)>(Errno::EFAULT) && after@ == before@
    } else {
        &&& r.ret == ok(0)
        &&& r.out is Some
        &&& pipe_placed(
            before,
            after,
            (
                FdEntry { file: read_end, flags: flags as u32 },
                FdEntry { file: write_end, flags: O_WRONLY | flags as u32 },
            ),
            r.out->0,
        )
    }
}

/// Makes a pipe between the files `read_end` and `write_end` and answers with
/// its two descriptors. Nothing stays in the table if the call fails.
pub fn sys_pipe2(table: &mut FdTable, read_end: usize, write_end: usize, flags: usize, out: UserOut) -> (r:
    Reply<(usize, usize)>)
    requires
        old(table).wf(),
    ensures
        final(table).wf(),
        final(table).limit == old(table).limit,
        pipe_done(*old(table), *final(table), read_end, write_end, flags, out, r),
{
    if flags & !PIPE_FLAGS != 0 {
        return Reply::fail(Errno::EINVAL);
    }
    let ghost t0 = *table;
    let a: usize = match table.alloc_fd(FdEntry { file: read_end, flags: flags as u32 }) {
        Ok(fd) => fd,
        Err(e) => {
            return Reply::fail(e);
        },
    };
    let ghost t1 = *table;
    let b: usize = match table.alloc_fd(FdEntry { file: write_end, flags: O_WRONLY | flags as u32 }) {
        Ok(fd) => fd,
        Err(e) => {
            let _ = table.close(a);
            proof {
                assert(table@ =~= t0@);
                assert forall|x: usize, y: usize|
                    #![trigger t0@.contains_key(x), t0@.contains_key(y)]
                    !(x < y < t0.limit && !t0@.contains_key(x) && !t0@.contains_key(y)) by {
                    if x < y < t0.limit && !t0@.contains_key(x) && !t0@.contains_key(y) {
                        assert(t1@.contains_key(x));
                        assert(t1@.contains_key(y));
                    }
                }
            }
            return Reply::fail(e);
        },
    };
    proof {
        assert(!t0@.contains_key(a));
        assert(!t1@.contains_key(b));
        assert(!t0@.contains_key(b));
        if a < b {
        } else {
            assert(b < a);
            assert(t0@.contains_key(b));
        }
        assert(two_free(t0));
    }
    match out {
        UserOut::Writable => {},
        _ => {
            let _ = table.close(a);
            let _ = table.close(b);
            proof {
                assert(table@ =~= t0@);
            }
            return Reply::fail(Errno::EFAULT);
        },
    }
    Reply { ret: Ok(0), out: Some((a, b)) }
}

/// A duplicate stands for the same open file, and closing it gives the old
/// table back.
pub proof fn closing_a_duplicate_restores_the_table(
    before: FdTable,
    after: FdTable,
    entry: FdEntry,
    from: int,
    fd: usize,
)
    requires
        allocated(before, after, entry, from, Ok(fd)),
    ensures
        after@[fd] == entry,
        after@.remove(fd) == before@,
        forall|k: usize| #[trigger] before@.contains_key(k) ==> after@.contains_key(k) && after@[k]
            == before@[k],
{
    assert(after@.remove(fd) =~= before@);
}

/// The close-on-exec flag that is set is the one that is read, and no other flag
/// changes with it.
pub proof fn cloexec_is_read_back(e: FdEntry, on: bool)
    ensures
        (with_cloexec(e, on).flags & O_CLOEXEC != 0) == on,
        with_cloexec(e, on).flags & !O_CLOEXEC == e.flags & !O_CLOEXEC,
        with_cloexec(with_cloexec(e, !on), on) == with_cloexec(e, on),
{
    let f = e.flags;
    assert((f | 0o2000000u32) & 0o2000000u32 != 0 && (f & !0o2000000u32) & 0o2000000u32 == 0
        && (f | 0o2000000u32) & !0o2000000u32 == f & !0o2000000u32 && (f & !0o2000000u32)
        & !0o2000000u32 == f & !0o2000000u32 && (f & !0o2000000u32) | 0o2000000u32 == f
        | 0o2000000u32) by (bit_vector);
}

/// Changing the status flags keeps every other flag, and only status flags are
/// taken from the argument.
pub proof fn status_flags_are_confined(e: FdEntry, arg: usize)
    ensures
        with_status(e, arg).flags & !STATUS_FLAGS == e.flags & !STATUS_FLAGS,
        with_status(e, arg).flags & STATUS_FLAGS == (arg as u32) & STATUS_FLAGS,
{
    let f = e.flags;
    let a = arg as u32;
    assert(((f & !0o46000u32) | (a & 0o46000u32)) & !0o46000u32 == f & !0o46000u32 && ((f
        & !0o46000u32) | (a & 0o46000u32)) & 0o46000u32 == a & 0o46000u32) by (bit_vector);
}

/// A new descriptor is the lowest one that is free from a number on, below the
/// limit; no other descriptor changes. There is none exactly if all are taken.
pub proof fn new_descriptors_are_the_lowest(
    before: FdTable,
    after: FdTable,
    entry: FdEntry,
    from: int,
    r: SysResult<usize>,
)
    requires
        allocated(before, after, entry, from, r),
    ensures
        r matches Ok(fd) ==> {
            &&& from <= fd < before.limit
            &&& !before@.contains_key(fd)
            &&& after@.contains_key(fd)
            &&& after@[fd] == entry
            &&& forall|k: usize| from <= k < fd ==> #[trigger] before@.contains_key(k)
            &&& forall|k: usize|
                k != fd ==> #[trigger] after@.contains_key(k) == before@.contains_key(k)
            &&& forall|k: usize|
                k != fd && #[trigger] before@.contains_key(k) ==> after@[k] == before@[k]
        },
        r matches Err(e) ==> e == Errno::EMFILE && after == before,
        r is Err <==> forall|k: usize|
            from <= k < before.limit ==> #[trigger] before@.contains_key(k),
{
}

/// A duplicate names the same open file, and is not closed on exec; the original
/// stays as it is.
pub proof fn duplicates_name_the_same_file(
    before: FdTable,
    after: FdTable,
    fd: usize,
    r: SysResult<usize>,
)
    requires
        dup_done(before, after, fd, r),
    ensures
        r matches Ok(n) ==> {
            &&& n != fd
            &&& before@.contains_key(fd)
            &&& after@.contains_key(n)
            &&& after@[n].file == before@[fd].file
            &&& after@[n].flags & 0o2000000 == 0
            &&& after@[n].flags & !0o2000000 == before@[fd].flags & !0o2000000
            &&& after@.contains_key(fd) && after@[fd] == before@[fd]
            &&& forall|k: usize| k < n ==> #[trigger] before@.contains_key(k)
        },
        r == err(Errno::EBADF) <==> !before@.contains_key(fd),
{
    if before@.contains_key(fd) {
        cloexec_is_read_back(before@[fd], false);
    }
}

/// A duplicate at a given descriptor is there, names the same open file, and is
/// closed on exec exactly if that was asked for; what was there before is replaced
/// and nothing else changes.
pub proof fn placed_duplicates_name_the_same_file(
    before: FdTable,
    after: FdTable,
    fd_src: usize,
    fd_dst: usize,
    flags: usize,
    r: SysResult<usize>,
)
    requires
        dup3_done(before, after, fd_src, fd_dst, flags, r),
    ensures
        r matches Ok(n) ==> {
            &&& n == fd_dst
            &&& fd_src != fd_dst
            &&& fd_dst < before.limit
            &&& before@.contains_key(fd_src)
            &&& after@.contains_key(fd_dst)
            &&& after@[fd_dst].file == before@[fd_src].file
            &&& (after@[fd_dst].flags & 0o2000000 != 0) == (flags & 0o2000000 != 0)
            &&& after@[fd_dst].flags & !0o2000000 == before@[fd_src].flags & !0o2000000
            &&& forall|k: usize|
                k != fd_dst ==> #[trigger] after@.contains_key(k) == before@.contains_key(k)
            &&& forall|k: usize|
                k != fd_dst && #[trigger] before@.contains_key(k) ==> after@[k] == before@[k]
        },
        r is Err ==> after == before,
        r is Ok <==> fd_src != fd_dst && flags & !0o2000000usize == 0
            && before@.contains_key(fd_src)
            && fd_dst < before.limit,
        r == err(Errno::EINVAL) <==> fd_src == fd_dst || flags & !0o2000000usize != 0,
{
    if before@.contains_key(fd_src) {
        cloexec_is_read_back(before@[fd_src], flags & 0o2000000 != 0);
    }
}

/// A pipe has a reading and a writing end under two different descriptors, both new
/// and as low as possible, the reading end first.
pub proof fn pipes_have_two_ends(
    before: FdTable,
    after: FdTable,
    read_end: usize,
    write_end: usize,
    flags: usize,
    out: UserOut,
    r: Reply<(usize, usize)>,
)
    requires
        pipe_done(before, after, read_end, write_end, flags, out, r),
    ensures
        r.ret is Ok ==> {
            &&& r.out is Some
            &&& (r.out->0).0 < (r.out->0).1 < before.limit
            &&& !before@.contains_key((r.out->0).0)
            &&& !before@.contains_key((r.out->0).1)
            &&& after@.contains_key((r.out->0).0)
            &&& after@.contains_key((r.out->0).1)
            &&& after@[(r.out->0).0].file == read_end
            &&& after@[(r.out->0).1].file == write_end
            &&& after@[(r.out->0).0].flags == flags as u32
            &&& after@[(r.out->0).1].flags == 1 | (flags as u32)
            &&& forall|k: usize|
                k < (r.out->0).1 && k != (r.out->0).0 ==> #[trigger] before@.contains_key(k)
        },
        r.ret is Err ==> after@ == before@ && r.out is None,
        r.ret is Ok <==> flags & !0o2044000usize == 0 && out == UserOut::Writable && exists|
            a: usize,
            b: usize,
        |
            #![trigger before@.contains_key(a), before@.contains_key(b)]
            a < b < before.limit && !before@.contains_key(a) && !before@.contains_key(b),
{
    if r.ret is Ok {
        let a = (r.out->0).0;
        let b = (r.out->0).1;
        let half = before@.insert(a, FdEntry { file: read_end, flags: flags as u32 });
        assert(half.contains_key(a));
        assert(!half.contains_key(b));
        if b < a {
            assert(before@.contains_key(b));
        }
        assert forall|k: usize| k < b && k != a implies #[trigger] before@.contains_key(k) by {
            assert(half.contains_key(k));
        }
    }
}

/// Closing works exactly on open descriptors.
pub proof fn only_open_descriptors_close(t: Map<usize, FdEntry>, fd: usize)
    ensures
        close_result(t, fd) == ok(0) <==> t.contains_key(fd),
        close_result(t, fd) == err(Errno::EBADF) <==> !t.contains_key(fd),
{
}

/// What each command of `fcntl` does, by its number: duplicates (0 and 1030) start
/// at the argument; the close-on-exec flag is read (1) and set (2); the flags are
/// read (3) and set (4); a pipe tells (1032) and changes (1031) its size.
pub proof fn descriptor_commands_do_what_they_name(
    before: FdTable,
    after: FdTable,
    fd: usize,
    e: FdEntry,
    kind: FdKind,
    cmd: usize,
    arg: usize,
    r: SysResult<usize>,
    effect: FcntlEffect,
)
    requires
        fcntl_done(before, after, fd, e, kind, cmd, arg, r, effect),
    ensures
        cmd == 0 || cmd == 1030 ==> {
            &&& r matches Ok(n) ==> n >= arg && !before@.contains_key(n) && after@.contains_key(n)
                && after@[n].file == e.file && (after@[n].flags & 0o2000000 != 0) == (cmd == 1030)
                && forall|k: usize| arg <= k < n ==> #[trigger] before@.contains_key(k)
            &&& r is Err ==> after == before
        },
        cmd == 1 ==> after == before && r == ok(
            if e.flags & 0o2000000 != 0 {
                1
            } else {
                0
            },
        ),
        cmd == 2 ==> {
            &&& r == ok(0)
            &&& after@.dom() == before@.dom().insert(fd)
            &&& after@[fd].file == e.file
            &&& (after@[fd].flags & 0o2000000 != 0) == (arg & 1 != 0)
            &&& after@[fd].flags & !0o2000000 == e.flags & !0o2000000
        },
        cmd == 3 ==> after == before && r == ok(e.flags as usize),
        cmd == 4 ==> {
            &&& r == ok(0)
            &&& after@[fd].file == e.file
            &&& after@[fd].flags & 0o46000 == (arg as u32) & 0o46000
            &&& after@[fd].flags & !0o46000 == e.flags & !0o46000
            &&& kind == FdKind::Socket ==> effect == FcntlEffect::SetNonblocking(
                after@[fd].flags & 0o4000 != 0,
            )
            &&& kind != FdKind::Socket ==> effect == FcntlEffect::Nothing
        },
        cmd == 1031 ==> after == before && (effect is ResizePipe <==> kind is Pipe) && (
        effect matches FcntlEffect::ResizePipe(n) ==> n == arg) && (r is Ok <==> kind is Pipe),
        cmd == 1032 ==> after == before && (kind matches FdKind::Pipe(n) ==> r == ok(n)) && (
        !(kind is Pipe) ==> r == err(Errno::EBADF)),
        cmd > 7 && cmd != 1030 && cmd != 1031 && cmd != 1032 ==> r == err(Errno::EINVAL) && after
            == before,
        forall|k: usize|
            k != fd && #[trigger] before@.contains_key(k) ==> after@.contains_key(k) && after@[k]
                == before@[k],
{
    cloexec_is_read_back(e, true);
    cloexec_is_read_back(e, false);
    status_flags_are_confined(e, arg);
}

} // verus!
