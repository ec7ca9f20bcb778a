//! Reading and writing at an offset.
//!
//! A file has one position of its own. A call at an offset asks whether the file
//! can be positioned, puts it at the offset, moves its pieces one after the other
//! and puts the file back. Each step tells the next thing to be done to the file
//! and takes note of what came of it.

use crate::errno::{err, ok, Errno, SysResult};
use crate::syscall::rw::{total_len, total_len_prefix, IoVec, OpenFile, IOV_MAX, IO_CHUNK_SIZE};
use crate::syscall::file::O_NONBLOCK;
use crate::user::UserIn;
use vstd::prelude::*;

verus! {

/// A stretch of user memory: `len` bytes that begin `at` bytes behind `base`.
#[derive(Debug, Clone, Copy, PartialEq, Eq, Structural)]
pub struct Piece {
    pub base: usize,
    pub at: usize,
    pub len: usize,
}

/// What a call moves.
#[derive(Debug)]
pub enum Pieces {
    /// One buffer that is filled from the file, in chunks.
    Filled { base: usize, len: usize },
    /// One buffer that goes to the file, in chunks.
    Emptied { base: usize, len: usize },
    /// Buffers that go to the file, each by a write of its own.
    Listed(Vec<IoVec>),
    /// This many buffers that are filled from the file, each by a read of its
    /// own. Where a buffer is, is looked up when its turn comes.
    Counted(usize),
}

/// Where a call stands.
#[derive(Debug, Clone, Copy, PartialEq, Eq)]
pub enum Phase {
    /// Whether the file can be positioned is asked.
    Ask,
    /// The file is put at the offset.
    Seek,
    /// The next buffer is looked up.
    Fetch,
    /// A piece is moved.
    Move(Piece),
    /// The file is put back; this came of the last piece.
    Restore(SysResult<usize>),
    /// The call has returned.
    Over,
}

/// A call at an offset.
#[derive(Debug)]
pub struct PositionedCall {
    /// The position of the file before the call.
    pub old: usize,
    pub offset: usize,
    pub pieces: Pieces,
    /// How many buffers of a list were taken up.
    pub next: usize,
    /// How many bytes were moved.
    pub total: usize,
    pub phase: Phase,
}

/// What is to be done next.
#[derive(Debug, Clone, Copy, PartialEq, Eq)]
pub enum FileAction {
    /// Ask whether the file can be positioned.
    CanSeek,
    /// Put the file at this position.
    Seek(usize),
    /// Look up the buffer with this number.
    Fetch(usize),
    /// Move this piece at the position where the file is.
    Move(Piece),
    /// The call returns.
    Return(SysResult<usize>),
}

/// What came of it.
#[derive(Debug)]
pub enum FileEvent {
    Asked(SysResult<()>),
    Sought(SysResult<()>),
    Fetched(UserIn<IoVec>),
    /// A chunk was read from the file, then copied to user memory.
    ChunkRead { read: SysResult<usize>, copied: SysResult<()> },
    /// A chunk was copied from user memory, then written to the file.
    ChunkWritten { copied: SysResult<()>, written: SysResult<usize> },
    /// A buffer was read or written as a whole.
    Moved(SysResult<usize>),
}

/// The size of the next chunk of a buffer.
pub open spec fn chunk_of(len: usize, total: usize) -> usize {
    if len - total < IO_CHUNK_SIZE {
        (len - total) as usize
    } else {
        IO_CHUNK_SIZE
    }
}

/// The first buffer from `i` on that is not empty.
pub open spec fn next_filled(v: Seq<IoVec>, i: int) -> int
    decreases v.len() - i,
{
    if i >= v.len() || v[i].len != 0 {
        i
    } else {
        next_filled(v, i + 1)
    }
}

/// The call with its file to be put back.
pub open spec fn putting_back(c: PositionedCall, last: SysResult<usize>) -> (
    PositionedCall,
    FileAction,
) {
    (PositionedCall { phase: Phase::Restore(last), ..c }, FileAction::Seek(c.old))
}

/// The call after it returned.
pub open spec fn returning(c: PositionedCall, r: SysResult<usize>) -> (PositionedCall, FileAction) {
    (PositionedCall { phase: Phase::Over, ..c }, FileAction::Return(r))
}

/// The call with a piece to be moved.
pub open spec fn moving(c: PositionedCall, next: usize, p: Piece) -> (PositionedCall, FileAction) {
    (PositionedCall { next, phase: Phase::Move(p), ..c }, FileAction::Move(p))
}

/// The next piece, or the way back where nothing is left.
pub open spec fn going_on(c: PositionedCall) -> (PositionedCall, FileAction) {
    match c.pieces {
        Pieces::Filled { base, len } | Pieces::Emptied { base, len } => if c.total < len {
            moving(c, c.next, Piece { base, at: c.total, len: chunk_of(len, c.total) })
        } else {
            putting_back(c, Ok(0))
        },
        Pieces::Listed(v) => {
            let i = next_filled(v@, c.next as int);
            if i < v@.len() {
                moving(c, (i + 1) as usize, Piece { base: v@[i].base, at: 0, len: v@[i].len })
            } else {
                putting_back(PositionedCall { next: i as usize, ..c }, Ok(0))
            }
        },
        Pieces::Counted(n) => if c.next < n {
            (PositionedCall { phase: Phase::Fetch, ..c }, FileAction::Fetch(c.next))
        } else {
            putting_back(c, Ok(0))
        },
    }
}

/// What follows a piece of which `n` bytes were moved: a short piece is the
/// last.
pub open spec fn after_bytes(c: PositionedCall, p: Piece, n: usize) -> (PositionedCall, FileAction) {
    let d = PositionedCall { total: (c.total + n) as usize, ..c };
    if n < p.len {
        putting_back(d, Ok(n))
    } else {
        going_on(d)
    }
}

/// What the call returns once the file was put back. A read of one buffer
/// reports any error; the others report one only if nothing was moved; and for
/// lists it does not matter whether the file could be put back.
pub open spec fn call_result(c: PositionedCall, last: SysResult<usize>, restored: SysResult<()>) -> SysResult<
    usize,
> {
    match c.pieces {
        Pieces::Filled { .. } => match (last, restored) {
            (Err(e), _) => Err(e),
            (Ok(_), Err(e)) => Err(e),
            (Ok(_), Ok(_)) => Ok(c.total),
        },
        Pieces::Emptied { .. } => if c.total > 0 {
            Ok(c.total)
        } else {
            match (last, restored) {
                (Err(e), _) => Err(e),
                (Ok(_), Err(e)) => Err(e),
                (Ok(_), Ok(_)) => Ok(0),
            }
        },
        _ => match last {
            Err(e) => if c.total > 0 {
                Ok(c.total)
            } else {
                Err(e)
            },
            Ok(_) => Ok(c.total),
        },
    }
}

/// What follows the outcome of a piece.
pub open spec fn after_move(c: PositionedCall, p: Piece, e: FileEvent) -> (PositionedCall, FileAction) {
    match e {
        FileEvent::ChunkRead { read, copied } => match read {
            Err(x) => putting_back(c, Err(x)),
            Ok(n) => if n == 0 {
                putting_back(c, Ok(0))
            } else {
                match copied {
                    Err(x) => returning(c, Err(x)),
                    Ok(_) => after_bytes(c, p, n),
                }
            },
        },
        FileEvent::ChunkWritten { copied, written } => match copied {
            Err(x) => putting_back(c, Err(x)),
            Ok(_) => match written {
                Err(x) => putting_back(c, Err(x)),
                Ok(n) => after_bytes(c, p, n),
            },
        },
        FileEvent::Moved(m) => match m {
            Err(x) => putting_back(c, Err(x)),
            Ok(n) => if c.total + n > usize::MAX {
                returning(c, Err(Errno::EINVAL))
            } else {
                after_bytes(c, p, n)
            },
        },
        _ => (c, FileAction::Move(p)),
    }
}

/// What follows an event.
pub open spec fn positioned_step(c: PositionedCall, e: FileEvent) -> (PositionedCall, FileAction) {
    match c.phase {
        Phase::Ask => match e->Asked_0 {
            Err(x) => returning(c, Err(x)),
            Ok(_) => (PositionedCall { phase: Phase::Seek, ..c }, FileAction::Seek(c.offset)),
        },
        Phase::Seek => match e->Sought_0 {
            Err(x) => returning(c, Err(x)),
            Ok(_) => going_on(c),
        },
        Phase::Fetch => match e->Fetched_0 {
            UserIn::Value(v) => {
                let next = (c.next + 1) as usize;
                if v.len == 0 {
                    going_on(PositionedCall { next, ..c })
                } else {
                    moving(c, next, Piece { base: v.base, at: 0, len: v.len })
                }
            },
            _ => putting_back(c, Err(Errno::EFAULT)),
        },
        Phase::Move(p) => after_move(c, p, e),
        Phase::Restore(last) => returning(c, call_result(c, last, e->Sought_0)),
        Phase::Over => (c, FileAction::Return(Err(Errno::EINVAL))),
    }
}

/// The event can come of what was to be done.
pub open spec fn event_fits(c: PositionedCall, e: FileEvent) -> bool {
    match c.phase {
        Phase::Ask => e is Asked,
        Phase::Seek | Phase::Restore(_) => e is Sought,
        Phase::Fetch => e is Fetched,
        Phase::Move(p) => match c.pieces {
            Pieces::Filled { .. } => e matches FileEvent::ChunkRead { read, copied: _ } && (read
                matches Ok(n) ==> n <= p.len),
            Pieces::Emptied { .. } => e matches FileEvent::ChunkWritten { copied: _, written } && (
            written matches Ok(n) ==> n <= p.len),
            _ => e matches FileEvent::Moved(m) && (m matches Ok(n) ==> n <= p.len),
        },
        Phase::Over => false,
    }
}

impl PositionedCall {
    /// What was moved is what lies before the piece in hand.
    pub open spec fn wf(&self) -> bool {
        &&& self.phase == Phase::Ask || self.phase == Phase::Seek ==> self.total == 0 && self.next
            == 0
        &&& match self.pieces {
            Pieces::Filled { base, len } | Pieces::Emptied { base, len } => {
                &&& self.total <= len
                &&& self.phase != Phase::Fetch
                &&& self.phase matches Phase::Move(p) ==> p == (Piece {
                    base,
                    at: self.total,
                    len: chunk_of(len, self.total),
                }) && self.total < len
            },
            Pieces::Listed(v) => {
                &&& self.next <= v@.len()
                &&& total_len(v@) <= isize::MAX
                &&& self.phase != Phase::Fetch
                &&& match self.phase {
                    Phase::Move(p) => {
                        &&& 0 < self.next
                        &&& p == (Piece {
                            base: v@[self.next - 1].base,
                            at: 0,
                            len: v@[self.next - 1].len,
                        })
                        &&& p.len > 0
                        &&& self.total == total_len(v@.take(self.next - 1))
                    },
                    _ => self.total <= total_len(v@),
                }
            },
            Pieces::Counted(n) => {
                &&& self.next <= n
                &&& self.phase == Phase::Fetch ==> self.next < n
            },
        }
    }

    /// Takes note of what came of the last thing that was done, and tells the
    /// next.
    pub fn step(&mut self, e: FileEvent) -> (r: FileAction)
        requires
            old(self).wf(),
            event_fits(*old(self), e),
        ensures
            final(self).wf(),
            (*final(self), r) == positioned_step(*old(self), e),
    {
        proof {
            match &self.pieces {
                Pieces::Listed(v) => {
                    if self.phase is Move {
                        total_len_prefix(v@, self.next - 1);
                    }
                },
                _ => {},
            }
        }
        match self.phase {
            Phase::Ask => match e {
                FileEvent::Asked(Ok(_)) => {
                    self.phase = Phase::Seek;
                    FileAction::Seek(self.offset)
                },
                FileEvent::Asked(Err(x)) => self.end(Err(x)),
                _ => self.end(Err(Errno::EINVAL)),
            },
            Phase::Seek => match e {
                FileEvent::Sought(Ok(_)) => self.go_on(),
                FileEvent::Sought(Err(x)) => self.end(Err(x)),
                _ => self.end(Err(Errno::EINVAL)),
            },
            Phase::Fetch => match e {
                FileEvent::Fetched(UserIn::Value(v)) => {
                    self.next = self.next + 1;
                    if v.len == 0 {
                        self.go_on()
                    } else {
                        self.take(Piece { base: v.base, at: 0, len: v.len })
                    }
                },
                _ => self.put_back(Err(Errno::EFAULT)),
            },
            Phase::Move(p) => match e {
                FileEvent::ChunkRead { read, copied } => match read {
                    Err(x) => self.put_back(Err(x)),
                    Ok(n) => {
                        if n == 0 {
                            return self.put_back(Ok(0));
                        }
                        match copied {
                            Err(x) => self.end(Err(x)),
                            Ok(_) => self.count(p, n),
                        }
                    },
                },
                FileEvent::ChunkWritten { copied, written } => match copied {
                    Err(x) => self.put_back(Err(x)),
                    Ok(_) => match written {
                        Err(x) => self.put_back(Err(x)),
                        Ok(n) => self.count(p, n),
                    },
                },
                FileEvent::Moved(m) => match m {
                    Err(x) => self.put_back(Err(x)),
                    Ok(n) => match self.total.checked_add(n) {
                        None => self.end(Err(Errno::EINVAL)),
                        Some(_) => self.count(p, n),
                    },
                },
                _ => FileAction::Move(p),
            },
            Phase::Restore(last) => {
                let restored = match e {
                    FileEvent::Sought(r) => r,
                    _ => Ok(()),
                };
                let total: usize = self.total;
                let r: SysResult<usize> = match &self.pieces {
                    Pieces::Filled { .. } => match last {
                        Err(x) => Err(x),
                        Ok(_) => match restored {
                            Err(x) => Err(x),
                            Ok(_) => Ok(total),
                        },
                    },
                    Pieces::Emptied { .. } => if total > 0 {
                        Ok(total)
                    } else {
                        match last {
                            Err(x) => Err(x),
                            Ok(_) => match restored {
                                Err(x) => Err(x),
                                Ok(_) => Ok(0),
                            },
                        }
                    },
                    _ => match last {
                        Err(x) => if total > 0 {
                            Ok(total)
                        } else {
                            Err(x)
                        },
                        Ok(_) => Ok(total),
                    },
                };
                self.end(r)
            },
            Phase::Over => FileAction::Return(Err(Errno::EINVAL)),
        }
    }

    fn put_back(&mut self, last: SysResult<usize>) -> (r: FileAction)
        ensures
            (*final(self), r) == putting_back(*old(self), last),
    {
        self.phase = Phase::Restore(last);
        FileAction::Seek(self.old)
    }

    fn end(&mut self, result: SysResult<usize>) -> (r: FileAction)
        ensures
            (*final(self), r) == returning(*old(self), result),
    {
        self.phase = Phase::Over;
        FileAction::Return(result)
    }

    fn take(&mut self, p: Piece) -> (r: FileAction)
        ensures
            (*final(self), r) == moving(*old(self), old(self).next, p),
    {
        self.phase = Phase::Move(p);
        FileAction::Move(p)
    }

    fn count(&mut self, p: Piece, n: usize) -> (r: FileAction)
        requires
            old(self).wf(),
            old(self).phase == Phase::Move(p),
            n <= p.len,
            old(self).total + n <= usize::MAX,
        ensures
            final(self).wf(),
            (*final(self), r) == after_bytes(*old(self), p, n),
    {
        proof {
            match &self.pieces {
                Pieces::Listed(v) => {
                    let k = self.next - 1;
                    total_len_prefix(v@, k + 1);
                    assert(v@.take(k + 1).drop_last() =~= v@.take(k));
                },
                _ => {},
            }
        }
        self.total = self.total + n;
        if n < p.len {
            self.put_back(Ok(n))
        } else {
            self.go_on()
        }
    }

    /// Takes up the next piece.
    fn go_on(&mut self) -> (r: FileAction)
        requires
            match old(self).pieces {
                Pieces::Filled { base, len } | Pieces::Emptied { base, len } => old(self).total <= len,
                Pieces::Listed(v) => old(self).next <= v@.len() && total_len(v@) <= isize::MAX && old(
                    self,
                ).total == total_len(v@.take(old(self).next as int)),
                Pieces::Counted(n) => old(self).next <= n,
            },
        ensures
            final(self).wf(),
            (*final(self), r) == going_on(*old(self)),
    {
        let total: usize = self.total;
        let next: usize = self.next;
        let mut found: Option<Piece> = None;
        match &self.pieces {
            Pieces::Filled { base, len } => {
                if total < *len {
                    found = Some(cut(*base, *len, total));
                }
            },
            Pieces::Emptied { base, len } => {
                if total < *len {
                    found = Some(cut(*base, *len, total));
                }
            },
            Pieces::Listed(v) => {
                let mut i: usize = next;
                while i < v.len() && v[i].len == 0
                    invariant
                        next <= i <= v@.len(),
                        next_filled(v@, next as int) == next_filled(v@, i as int),
                        total == total_len(v@.take(i as int)),
                    decreases v@.len() - i,
                {
                    proof {
                        assert(v@.take(i + 1).drop_last() =~= v@.take(i as int));
                        assert(v@.take(i + 1).last() == v@[i as int]);
                    }
                    i = i + 1;
                }
                proof {
                    total_len_prefix(v@, i as int);
                }
                if i < v.len() {
                    found = Some(Piece { base: v[i].base, at: 0, len: v[i].len });
                    self.next = i + 1;
                } else {
                    self.next = i;
                }
            },
            Pieces::Counted(n) => {
                if next < *n {
                    self.phase = Phase::Fetch;
                    return FileAction::Fetch(next);
                }
            },
        }
        match found {
            Some(p) => self.take(p),
            None => self.put_back(Ok(0)),
        }
    }
}

fn cut(base: usize, len: usize, total: usize) -> (r: Piece)
    requires
        total < len,
    ensures
        r == (Piece { base, at: total, len: chunk_of(len, total) }),
{
    let left: usize = len - total;
    Piece {
        base,
        at: total,
        len: if left < IO_CHUNK_SIZE {
            left
        } else {
            IO_CHUNK_SIZE
        },
    }
}

/// How a call starts: it returns, or goes on with the question whether the file
/// can be positioned.
#[derive(Debug)]
pub enum PositionedStart {
    Return(SysResult<usize>),
    Run(PositionedCall),
}

/// A call that has done nothing yet.
pub open spec fn untouched(c: PositionedCall, old_pos: usize, offset: isize) -> bool {
    &&& c.old == old_pos
    &&& c.offset == offset
    &&& c.next == 0
    &&& c.total == 0
    &&& c.phase == Phase::Ask
    &&& c.wf()
}

fn begin(old: usize, offset: isize, pieces: Pieces) -> (r: PositionedCall)
    requires
        offset >= 0,
        pieces matches Pieces::Listed(v) ==> total_len(v@) <= isize::MAX,
    ensures
        untouched(r, old, offset),
        r.pieces == pieces,
{
    proof {
        match &pieces {
            Pieces::Listed(v) => {
                total_len_prefix(v@, 0);
            },
            _ => {},
        }
    }
    PositionedCall {
        old,
        offset: offset as usize,
        pieces,
        next: 0,
        total: 0,
        phase: Phase::Ask,
    }
}

/// A call that starts with these pieces, or returns this at once.
pub open spec fn starts(
    r: PositionedStart,
    refused: Option<SysResult<usize>>,
    old_pos: usize,
    offset: isize,
    pieces: Pieces,
) -> bool {
    match refused {
        Some(x) => r == PositionedStart::Return(x),
        None => r matches PositionedStart::Run(c) && untouched(c, old_pos, offset) && c.pieces
            == pieces,
    }
}

/// Why a read of one buffer at an offset does not start.
pub open spec fn pread_refused(
    len: usize,
    offset: isize,
    buffer: SysResult<()>,
    file: SysResult<OpenFile>,
) -> Option<SysResult<usize>> {
    if offset < 0 {
        Some(err(Errno::EINVAL))
    } else if len == 0 {
        Some(ok(0))
    } else if buffer is Err {
        Some(err(buffer->Err_0))
    } else {
        match file {
            Err(e) => Some(err(e)),
            Ok(f) => if !f.readable {
                Some(err(Errno::EBADF))
            } else {
                None
            },
        }
    }
}

/// Starts a read at an offset. `buffer` tells whether the buffer can be written,
/// `position` where the file is.
pub fn sys_pread64(
    base: usize,
    len: usize,
    offset: isize,
    buffer: SysResult<()>,
    file: SysResult<OpenFile>,
    position: usize,
) -> (r: PositionedStart)
    ensures
        starts(
            r,
            pread_refused(len, offset, buffer, file),
            position,
            offset,
            Pieces::Filled { base, len },
        ),
{
    if offset < 0 {
        return PositionedStart::Return(Err(Errno::EINVAL));
    }
    if len == 0 {
        return PositionedStart::Return(Ok(0));
    }
    match buffer {
        Err(e) => {
            return PositionedStart::Return(Err(e));
        },
        Ok(_) => {},
    }
    match file {
        Err(e) => {
            return PositionedStart::Return(Err(e));
        },
        Ok(f) => {
            if !f.readable {
                return PositionedStart::Return(Err(Errno::EBADF));
            }
        },
    }
    PositionedStart::Run(begin(position, offset, Pieces::Filled { base, len }))
}

/// Why a write of one buffer at an offset does not start.
pub open spec fn pwrite_refused(len: usize, offset: isize, file: SysResult<OpenFile>) -> Option<
    SysResult<usize>,
> {
    if offset < 0 {
        Some(err(Errno::EINVAL))
    } else if len == 0 {
        Some(ok(0))
    } else {
        match file {
            Err(e) => Some(err(e)),
            Ok(f) => if !f.writable {
                Some(err(Errno::EBADF))
            } else if f.flags & O_NONBLOCK != 0 && !f.write_ready {
                Some(err(Errno::EAGAIN))
            } else {
                None
            },
        }
    }
}

/// Starts a write at an offset. `position` tells where the file is.
pub fn sys_pwrite64(
    base: usize,
    len: usize,
    offset: isize,
    file: SysResult<OpenFile>,
    position: usize,
) -> (r: PositionedStart)
    ensures
        starts(
            r,
            pwrite_refused(len, offset, file),
            position,
            offset,
            Pieces::Emptied { base, len },
        ),
{
    if offset < 0 {
        return PositionedStart::Return(Err(Errno::EINVAL));
    }
    if len == 0 {
        return PositionedStart::Return(Ok(0));
    }
    match file {
        Err(e) => {
            return PositionedStart::Return(Err(e));
        },
        Ok(f) => {
            if !f.writable {
                return PositionedStart::Return(Err(Errno::EBADF));
            }
            if f.flags & O_NONBLOCK != 0 && !f.write_ready {
                return PositionedStart::Return(Err(Errno::EAGAIN));
            }
        },
    }
    PositionedStart::Run(begin(position, offset, Pieces::Emptied { base, len }))
}

/// Why a read of several buffers at an offset does not start.
pub open spec fn preadv_refused(iovcnt: usize, offset: isize, file: SysResult<OpenFile>) -> Option<
    SysResult<usize>,
> {
    if offset < 0 || iovcnt > IOV_MAX {
        Some(err(Errno::EINVAL))
    } else if iovcnt == 0 {
        Some(ok(0))
    } else {
        match file {
            Err(e) => Some(err(e)),
            Ok(f) => if !f.readable {
                Some(err(Errno::EBADF))
            } else {
                None
            },
        }
    }
}

/// Starts a read of several buffers at an offset. `position` tells where the
/// file is.
pub fn sys_preadv(iovcnt: usize, offset: isize, file: SysResult<OpenFile>, position: usize) -> (r:
    PositionedStart)
    ensures
        starts(
            r,
            preadv_refused(iovcnt, offset, file),
            position,
            offset,
            Pieces::Counted(iovcnt),
        ),
{
    if offset < 0 || iovcnt > IOV_MAX {
        return PositionedStart::Return(Err(Errno::EINVAL));
    }
    if iovcnt == 0 {
        return PositionedStart::Return(Ok(0));
    }
    match file {
        Err(e) => {
            return PositionedStart::Return(Err(e));
        },
        Ok(f) => {
            if !f.readable {
                return PositionedStart::Return(Err(Errno::EBADF));
            }
        },
    }
    PositionedStart::Run(begin(position, offset, Pieces::Counted(iovcnt)))
}

/// Why a write of several buffers at an offset does not start.
pub open spec fn pwritev_refused(
    offset: isize,
    items: SysResult<Vec<IoVec>>,
    buffers: SysResult<()>,
    file: SysResult<OpenFile>,
) -> Option<SysResult<usize>> {
    if offset < 0 {
        Some(err(Errno::EINVAL))
    } else if items is Err {
        Some(err(items->Err_0))
    } else if buffers is Err {
        Some(err(buffers->Err_0))
    } else {
        match file {
            Err(e) => Some(err(e)),
            Ok(f) => if !f.writable {
                Some(err(Errno::EBADF))
            } else {
                None
            },
        }
    }
}

/// Starts a write of several buffers at an offset. `items` are the checked
/// buffers, `buffers` tells whether all of them can be read, `position` where the
/// file is.
pub fn sys_pwritev(
    offset: isize,
    items: SysResult<Vec<IoVec>>,
    buffers: SysResult<()>,
    file: SysResult<OpenFile>,
    position: usize,
) -> (r: PositionedStart)
    requires
        items matches Ok(v) ==> total_len(v@) <= isize::MAX,
    ensures
        starts(
            r,
            pwritev_refused(offset, items, buffers, file),
            position,
            offset,
            Pieces::Listed(items->Ok_0),
        ),
{
    if offset < 0 {
        return PositionedStart::Return(Err(Errno::EINVAL));
    }
    let v = match items {
        Err(e) => {
            return PositionedStart::Return(Err(e));
        },
        Ok(v) => v,
    };
    match buffers {
        Err(e) => {
            return PositionedStart::Return(Err(e));
        },
        Ok(_) => {},
    }
    match file {
        Err(e) => {
            return PositionedStart::Return(Err(e));
        },
        Ok(f) => {
            if !f.writable {
                return PositionedStart::Return(Err(Errno::EBADF));
            }
        },
    }
    PositionedStart::Run(begin(position, offset, Pieces::Listed(v)))
}

/// A file as a call at an offset sees it: its position, and the moves so far,
/// each with the place in the file, the piece of memory and the number of bytes.
pub struct FileModel {
    pub pos: int,
    pub moves: Seq<(int, Piece, int)>,
}

/// How many bytes an event reports as moved between file and memory.
pub open spec fn bytes_moved(e: FileEvent) -> Option<int> {
    match e {
        FileEvent::ChunkRead { read: Ok(n), copied: _ } => Some(n as int),
        FileEvent::ChunkWritten { copied: Ok(_), written: Ok(n) } => Some(n as int),
        FileEvent::Moved(Ok(n)) => Some(n as int),
        _ => None,
    }
}

/// What an action does to the file. A seek that fails leaves the file where it
/// is; where a move that fails leaves it is open.
pub open spec fn file_does(a: FileModel, action: FileAction, e: FileEvent, b: FileModel) -> bool {
    match action {
        FileAction::Seek(p) => {
            &&& b.moves == a.moves
            &&& b.pos == (if e->Sought_0 is Ok {
                p as int
            } else {
                a.pos
            })
        },
        FileAction::Move(p) => match bytes_moved(e) {
            Some(n) => b.pos == a.pos + n && b.moves == a.moves.push((a.pos, p, n)),
            None => b.moves == a.moves,
        },
        _ => b == a,
    }
}

/// A call from its start: its states, what was to be done in each, what came of
/// it, and the file meanwhile.
pub struct CallRun {
    pub calls: Seq<PositionedCall>,
    pub actions: Seq<FileAction>,
    pub events: Seq<FileEvent>,
    pub files: Seq<FileModel>,
}

impl CallRun {
    /// Step `k` of the run.
    pub open spec fn step_at(self, k: int) -> bool {
        &&& event_fits(self.calls[k], self.events[k])
        &&& (self.calls[k + 1], self.actions[k + 1]) == positioned_step(
            self.calls[k],
            self.events[k],
        )
        &&& file_does(self.files[k], self.actions[k], self.events[k], self.files[k + 1])
    }

    /// The run starts with an untouched call and each step follows from the last.
    pub open spec fn valid(self) -> bool {
        &&& self.calls.len() == self.events.len() + 1
        &&& self.actions.len() == self.events.len() + 1
        &&& self.files.len() == self.events.len() + 1
        &&& untouched(self.calls[0], self.calls[0].old, self.calls[0].offset as isize)
        &&& self.actions[0] == FileAction::CanSeek
        &&& self.files[0].pos == self.calls[0].old
        &&& self.files[0].moves.len() == 0
        &&& forall|k: int| 0 <= k < self.events.len() ==> #[trigger] self.step_at(k)
    }

    /// The run is over, and this is what the call returns.
    pub open spec fn ends_with(self, r: SysResult<usize>) -> bool {
        self.actions.last() == FileAction::Return(r)
    }

    /// The call ended without putting the file back: it could not hand a chunk
    /// to user memory, or could not count its bytes.
    pub open spec fn gave_up(self) -> bool {
        let k = self.events.len() - 1;
        gives_up(self.calls[k], self.events[k])
    }

    /// The file could be put back, if that was tried.
    pub open spec fn put_back_worked(self) -> bool {
        let k = self.events.len() - 1;
        self.calls[k].phase is Restore ==> self.events[k]->Sought_0 is Ok
    }
}

/// A move after which the call returns at once.
pub open spec fn gives_up(c: PositionedCall, e: FileEvent) -> bool {
    c.phase is Move && positioned_step(c, e).1 is Return
}

/// Bytes of all moves together.
pub open spec fn moved_len(moves: Seq<(int, Piece, int)>) -> int
    decreases moves.len(),
{
    if moves.len() == 0 {
        0
    } else {
        moved_len(moves.drop_last()) + moves.last().2
    }
}

/// Each move starts in the file where the last one ended, the first at `offset`.
pub open spec fn contiguous(moves: Seq<(int, Piece, int)>, offset: int) -> bool {
    forall|m: int|
        0 <= m < moves.len() ==> (#[trigger] moves[m]).0 == offset + moved_len(moves.take(m))
            && moves[m].2 >= 0
}

/// Each move starts in the buffer where the last one ended.
pub open spec fn along_buffer(moves: Seq<(int, Piece, int)>, base: usize) -> bool {
    forall|m: int|
        0 <= m < moves.len() ==> (#[trigger] moves[m]).1.base == base && moves[m].1.at == moved_len(
            moves.take(m),
        )
}

/// Bytes of user memory from `addr` on.
pub open spec fn memory_at(mem: spec_fn(int) -> u8, addr: int, n: int) -> Seq<u8> {
    Seq::new(n as nat, |i: int| mem(addr + i))
}

/// The bytes of all moves, one after the other.
pub open spec fn moved_bytes(moves: Seq<(int, Piece, int)>, mem: spec_fn(int) -> u8) -> Seq<u8>
    decreases moves.len(),
{
    if moves.len() == 0 {
        Seq::empty()
    } else {
        let m = moves.last();
        moved_bytes(moves.drop_last(), mem) + memory_at(mem, m.1.base + m.1.at, m.2)
    }
}

/// The bytes of several buffers, one after the other.
pub open spec fn joined(v: Seq<IoVec>, mem: spec_fn(int) -> u8) -> Seq<u8>
    decreases v.len(),
{
    if v.len() == 0 {
        Seq::empty()
    } else {
        joined(v.drop_last(), mem) + memory_at(mem, v.last().base as int, v.last().len as int)
    }
}

/// The bytes that a write is given.
pub open spec fn bytes_given(pieces: Pieces, mem: spec_fn(int) -> u8) -> Seq<u8> {
    match pieces {
        Pieces::Emptied { base, len } => memory_at(mem, base as int, len as int),
        Pieces::Listed(v) => joined(v@, mem),
        _ => Seq::empty(),
    }
}

/// The contents of a file after moves that write.
pub open spec fn stored(
    data: spec_fn(int) -> u8,
    moves: Seq<(int, Piece, int)>,
    mem: spec_fn(int) -> u8,
    i: int,
) -> u8
    decreases moves.len(),
{
    if moves.len() == 0 {
        data(i)
    } else {
        let m = moves.last();
        if m.0 <= i < m.0 + m.2 {
            mem(m.1.base + m.1.at + (i - m.0))
        } else {
            stored(data, moves.drop_last(), mem, i)
        }
    }
}

/// What holds of a call that has not returned yet.
spec fn on_the_way(r: CallRun, k: int, mem: spec_fn(int) -> u8) -> bool {
    let c = r.calls[k];
    let f = r.files[k];
    let c0 = r.calls[0];
    &&& c.wf()
    &&& c.old == c0.old
    &&& c.offset == c0.offset
    &&& c.pieces == c0.pieces
    &&& match c.phase {
        Phase::Ask => r.actions[k] == FileAction::CanSeek && f.pos == c.old && f.moves.len() == 0,
        Phase::Seek => r.actions[k] == FileAction::Seek(c.offset) && f.pos == c.old
            && f.moves.len() == 0,
        Phase::Fetch => r.actions[k] == FileAction::Fetch(c.next) && f.pos == c.offset + c.total,
        Phase::Move(p) => r.actions[k] == FileAction::Move(p) && f.pos == c.offset + c.total,
        Phase::Restore(_) => r.actions[k] == FileAction::Seek(c.old),
        Phase::Over => false,
    }
    &&& contiguous(f.moves, c.offset as int)
    &&& moved_len(f.moves) == c.total
    &&& c.pieces matches Pieces::Filled { base, len } ==> along_buffer(f.moves, base)
    &&& c.pieces is Emptied || c.pieces is Listed ==> {
        &&& c.total <= bytes_given(c.pieces, mem).len()
        &&& moved_bytes(f.moves, mem) == bytes_given(c.pieces, mem).take(c.total as int)
    }
}

proof fn joined_len(v: Seq<IoVec>, mem: spec_fn(int) -> u8)
    ensures
        joined(v, mem).len() == total_len(v),
    decreases v.len(),
{
    if v.len() > 0 {
        joined_len(v.drop_last(), mem);
    }
}

/// The bytes of buffer `i` stand behind those of the buffers before.
proof fn joined_piece(v: Seq<IoVec>, mem: spec_fn(int) -> u8, i: int)
    requires
        0 <= i < v.len(),
    ensures
        0 <= total_len(v.take(i)),
        total_len(v.take(i)) + v[i].len <= joined(v, mem).len(),
        joined(v, mem).subrange(total_len(v.take(i)), total_len(v.take(i)) + v[i].len) == memory_at(
            mem,
            v[i].base as int,
            v[i].len as int,
        ),
    decreases v.len(),
{
    joined_len(v, mem);
    joined_len(v.drop_last(), mem);
    total_len_prefix(v, i);
    let last = memory_at(mem, v.last().base as int, v.last().len as int);
    if i == v.len() - 1 {
        assert(v.take(i) =~= v.drop_last());
        assert(joined(v, mem).subrange(total_len(v.take(i)), total_len(v.take(i)) + v[i].len)
            =~= last);
    } else {
        let w = v.drop_last();
        joined_piece(w, mem, i);
        assert(w.take(i) =~= v.take(i));
        assert(w[i] == v[i]);
        assert(joined(v, mem).subrange(total_len(v.take(i)), total_len(v.take(i)) + v[i].len)
            =~= joined(w, mem).subrange(total_len(v.take(i)), total_len(v.take(i)) + v[i].len));
    }
}

/// One more move that starts where the others ended.
proof fn moves_grow(
    moves: Seq<(int, Piece, int)>,
    m: (int, Piece, int),
    offset: int,
    mem: spec_fn(int) -> u8,
)
    requires
        contiguous(moves, offset),
        m.0 == offset + moved_len(moves),
        m.2 >= 0,
    ensures
        contiguous(moves.push(m), offset),
        moved_len(moves.push(m)) == moved_len(moves) + m.2,
        moved_bytes(moves.push(m), mem) == moved_bytes(moves, mem) + memory_at(
            mem,
            m.1.base + m.1.at,
            m.2,
        ),
        forall|base: usize|
            along_buffer(moves, base) && m.1.base == base && m.1.at == moved_len(moves)
                ==> #[trigger] along_buffer(moves.push(m), base),
{
    let all = moves.push(m);
    assert(all.drop_last() =~= moves);
    assert forall|k: int| 0 <= k < all.len() implies moved_len(#[trigger] all.take(k)) == moved_len(
        moves.take(k),
    ) by {
        assert(all.take(k) =~= moves.take(k));
    }
    assert(moves.take(moves.len() as int) =~= moves);
    assert forall|k: int| 0 <= k < all.len() implies (#[trigger] all[k]).0 == offset + moved_len(
        all.take(k),
    ) && all[k].2 >= 0 by {
        assert(moved_len(all.take(k)) == moved_len(moves.take(k)));
        if k < moves.len() {
            assert(all[k] == moves[k]);
        }
    }
    assert forall|base: usize|
        along_buffer(moves, base) && m.1.base == base && m.1.at == moved_len(moves) implies
        #[trigger] along_buffer(all, base) by {
        assert forall|k: int| 0 <= k < all.len() implies (#[trigger] all[k]).1.base == base
            && all[k].1.at == moved_len(all.take(k)) by {
            assert(moved_len(all.take(k)) == moved_len(moves.take(k)));
            if k < moves.len() {
                assert(all[k] == moves[k]);
            }
        }
    }
}

/// The bytes of a piece are the next ones that the call was given.
proof fn piece_is_next(c: PositionedCall, p: Piece, n: int, mem: spec_fn(int) -> u8)
    requires
        c.wf(),
        c.phase == Phase::Move(p),
        c.pieces is Emptied || c.pieces is Listed,
        0 <= n <= p.len,
    ensures
        c.total + p.len <= bytes_given(c.pieces, mem).len(),
        bytes_given(c.pieces, mem).take(c.total as int) + memory_at(mem, p.base + p.at, n)
            == bytes_given(c.pieces, mem).take(c.total + n),
{
    let all = bytes_given(c.pieces, mem);
    match c.pieces {
        Pieces::Listed(v) => {
            joined_piece(v@, mem, c.next - 1);
            let whole = memory_at(mem, p.base + p.at, p.len as int);
            assert(all.subrange(c.total as int, c.total + p.len) == whole);
            assert forall|j: int| c.total <= j < c.total + n implies #[trigger] all[j] == mem(
                p.base + p.at + (j - c.total),
            ) by {
                assert(all.subrange(c.total as int, c.total + p.len)[j - c.total] == whole[j
                    - c.total]);
            }
        },
        _ => {},
    }
    assert(all.take(c.total as int) + memory_at(mem, p.base + p.at, n) =~= all.take(c.total + n));
}

/// Looking for the next piece changes neither the bytes moved nor the call.
proof fn going_on_keeps(c: PositionedCall)
    ensures
        going_on(c).0.old == c.old,
        going_on(c).0.offset == c.offset,
        going_on(c).0.pieces == c.pieces,
        going_on(c).0.total == c.total,
        match going_on(c).0.phase {
            Phase::Fetch => going_on(c).1 == FileAction::Fetch(going_on(c).0.next),
            Phase::Move(p) => going_on(c).1 == FileAction::Move(p),
            Phase::Restore(_) => going_on(c).1 == FileAction::Seek(c.old),
            _ => false,
        },
{
}

proof fn next_filled_bounds(v: Seq<IoVec>, i: int)
    requires
        0 <= i <= v.len(),
    ensures
        i <= next_filled(v, i) <= v.len(),
        next_filled(v, i) < v.len() ==> v[next_filled(v, i)].len > 0,
        total_len(v.take(next_filled(v, i))) == total_len(v.take(i)),
    decreases v.len() - i,
{
    if i < v.len() && v[i].len == 0 {
        next_filled_bounds(v, i + 1);
        assert(v.take(i + 1).drop_last() =~= v.take(i));
    }
}

proof fn going_on_is_sound(c: PositionedCall)
    requires
        match c.pieces {
            Pieces::Filled { base, len } | Pieces::Emptied { base, len } => c.total <= len,
            Pieces::Listed(v) => c.next <= v@.len() && total_len(v@) <= isize::MAX && c.total
                == total_len(v@.take(c.next as int)),
            Pieces::Counted(n) => c.next <= n,
        },
    ensures
        going_on(c).0.wf(),
{
    match c.pieces {
        Pieces::Listed(v) => {
            assert(v.len() == v@.len());
            next_filled_bounds(v@, c.next as int);
            total_len_prefix(v@, c.next as int);
        },
        _ => {},
    }
}

/// A step leaves a call sound.
proof fn step_is_sound(c: PositionedCall, e: FileEvent)
    requires
        c.wf(),
        event_fits(c, e),
    ensures
        positioned_step(c, e).0.wf(),
{
    match c.phase {
        Phase::Seek => {
            match c.pieces {
                Pieces::Listed(v) => {
                    assert(v@.take(0).len() == 0);
                },
                _ => {},
            }
            going_on_is_sound(c);
        },
        Phase::Fetch => {
            going_on_is_sound(PositionedCall { next: (c.next + 1) as usize, ..c });
        },
        Phase::Move(p) => {
            match c.pieces {
                Pieces::Listed(v) => {
                    let k = c.next - 1;
                    total_len_prefix(v@, k);
                    total_len_prefix(v@, k + 1);
                    assert(v@.take(k + 1).drop_last() =~= v@.take(k));
                },
                _ => {},
            }
            match bytes_moved(e) {
                Some(n) => {
                    if c.total + n <= usize::MAX && n == p.len {
                        going_on_is_sound(PositionedCall { total: (c.total + n) as usize, ..c });
                    }
                },
                None => {},
            }
        },
        _ => {},
    }
}

proof fn run_is_on_the_way(r: CallRun, k: int, mem: spec_fn(int) -> u8)
    requires
        r.valid(),
        0 <= k < r.calls.len(),
        !(r.calls[k].phase is Over),
    ensures
        on_the_way(r, k, mem),
    decreases k,
{
    if k == 0 {
        let f = r.files[0];
        match r.calls[0].pieces {
            Pieces::Listed(v) => {
                joined_len(v@, mem);
                total_len_prefix(v@, 0);
            },
            _ => {},
        }
        assert(moved_bytes(f.moves, mem) =~= bytes_given(r.calls[0].pieces, mem).take(0));
    } else {
        assert(r.step_at(k - 1));
        let c = r.calls[k - 1];
        let e = r.events[k - 1];
        let f = r.files[k - 1];
        run_is_on_the_way(r, k - 1, mem);
        step_is_sound(c, e);
        match c.phase {
            Phase::Seek => {
                going_on_keeps(c);
            },
            Phase::Fetch => {
                going_on_keeps(PositionedCall { next: (c.next + 1) as usize, ..c });
            },
            Phase::Move(p) => {
                match bytes_moved(e) {
                    Some(n) => {
                        moves_grow(f.moves, (f.pos, p, n), c.offset as int, mem);
                        if c.pieces is Emptied || c.pieces is Listed {
                            piece_is_next(c, p, n, mem);
                        }
                        going_on_keeps(PositionedCall { total: (c.total + n) as usize, ..c });
                    },
                    None => {},
                }
            },
            _ => {},
        }
    }
}

/// Wherever a call at an offset ends, the file is where it was before, if it
/// could be put back. The call only leaves it elsewhere where it gives up in the
/// middle of a read.
pub proof fn position_is_put_back(r: CallRun, result: SysResult<usize>)
    requires
        r.valid(),
        r.ends_with(result),
        !r.gave_up(),
        r.put_back_worked(),
    ensures
        r.files.last().pos == r.files[0].pos,
{
    let mem = |i: int| 0u8;
    let k = r.events.len() - 1;
    assert(r.step_at(k));
    run_is_on_the_way(r, k, mem);
    let c = r.calls[k];
    match c.phase {
        Phase::Fetch => {
            going_on_keeps(PositionedCall { next: (c.next + 1) as usize, ..c });
        },
        Phase::Seek => {
            going_on_keeps(c);
        },
        _ => {},
    }
}

/// A write never ends before the file was put back.
pub proof fn writes_never_give_up(c: PositionedCall, e: FileEvent)
    requires
        c.wf(),
        event_fits(c, e),
        c.pieces is Emptied || c.pieces is Listed,
    ensures
        !gives_up(c, e),
{
    match c.phase {
        Phase::Move(p) => {
            match c.pieces {
                Pieces::Listed(v) => {
                    let k = c.next - 1;
                    total_len_prefix(v@, k + 1);
                    assert(v@.take(k + 1).drop_last() =~= v@.take(k));
                },
                _ => {},
            }
            match bytes_moved(e) {
                Some(n) => {
                    going_on_keeps(PositionedCall { total: (c.total + n) as usize, ..c });
                },
                None => {},
            }
        },
        _ => {},
    }
}

/// A read gives up only where a chunk that was read cannot be handed to user
/// memory, or where the bytes of several buffers cannot be counted.
pub proof fn reads_give_up_only_without_a_choice(c: PositionedCall, e: FileEvent)
    requires
        c.wf(),
        event_fits(c, e),
        gives_up(c, e),
    ensures
        match c.pieces {
            Pieces::Filled { .. } => e matches FileEvent::ChunkRead { read, copied } && copied is Err
                && read is Ok,
            _ => e matches FileEvent::Moved(Ok(n)) && c.total + n > usize::MAX,
        },
{
    writes_may_be_ruled_out(c, e);
    match bytes_moved(e) {
        Some(n) => {
            going_on_keeps(PositionedCall { total: (c.total + n) as usize, ..c });
        },
        None => {},
    }
}

proof fn writes_may_be_ruled_out(c: PositionedCall, e: FileEvent)
    requires
        c.wf(),
        event_fits(c, e),
        gives_up(c, e),
    ensures
        c.pieces is Filled || c.pieces is Counted,
{
    if c.pieces is Emptied || c.pieces is Listed {
        writes_never_give_up(c, e);
    }
}

proof fn stored_is_moved(
    data: spec_fn(int) -> u8,
    moves: Seq<(int, Piece, int)>,
    offset: int,
    mem: spec_fn(int) -> u8,
    i: int,
)
    requires
        contiguous(moves, offset),
    ensures
        moved_bytes(moves, mem).len() == moved_len(moves),
        moved_len(moves) >= 0,
        stored(data, moves, mem, i) == (if offset <= i < offset + moved_len(moves) {
            moved_bytes(moves, mem)[i - offset]
        } else {
            data(i)
        }),
    decreases moves.len(),
{
    if moves.len() > 0 {
        let l = moves.len() - 1;
        let rest = moves.drop_last();
        assert(moves.take(l) =~= rest);
        assert forall|m: int| 0 <= m < rest.len() implies (#[trigger] rest[m]).0 == offset
            + moved_len(rest.take(m)) && rest[m].2 >= 0 by {
            assert(rest[m] == moves[m]);
            assert(rest.take(m) =~= moves.take(m));
        }
        assert(moves[l].0 == offset + moved_len(rest));
        stored_is_moved(data, rest, offset, mem, i);
    }
}

/// A write at an offset that returns `n` has put the first `n` bytes that it was
/// given into the file, from the offset on, and has changed nothing else. What
/// the file held before is `data`, what user memory holds is `mem`.
pub proof fn written_bytes_are_the_callers(
    r: CallRun,
    n: usize,
    data: spec_fn(int) -> u8,
    mem: spec_fn(int) -> u8,
    i: int,
)
    requires
        r.valid(),
        r.ends_with(Ok(n)),
        r.calls[0].pieces is Emptied || r.calls[0].pieces is Listed,
    ensures
        n <= bytes_given(r.calls[0].pieces, mem).len(),
        stored(data, r.files.last().moves, mem, i) == (if r.calls[0].offset <= i
            < r.calls[0].offset + n {
            bytes_given(r.calls[0].pieces, mem)[i - r.calls[0].offset]
        } else {
            data(i)
        }),
{
    let k = r.events.len() - 1;
    assert(r.step_at(k));
    run_is_on_the_way(r, k, mem);
    let c = r.calls[k];
    writes_never_give_up(c, r.events[k]);
    match c.phase {
        Phase::Seek => {
            going_on_keeps(c);
        },
        _ => {},
    }
    assert(c.phase is Restore);
    assert(n == c.total);
    stored_is_moved(data, r.files[k].moves, c.offset as int, mem, i);
}

/// A read at an offset that returns `n` has read `n` bytes, each piece from where
/// the last one ended in the file. One buffer is filled without gaps, so that
/// byte `i` of it is byte `offset + i` of the file.
pub proof fn read_bytes_are_the_files(r: CallRun, n: usize)
    requires
        r.valid(),
        r.ends_with(Ok(n)),
        r.calls[0].pieces is Filled || r.calls[0].pieces is Counted,
    ensures
        contiguous(r.files.last().moves, r.calls[0].offset as int),
        moved_len(r.files.last().moves) == n,
        r.calls[0].pieces matches Pieces::Filled { base, len } ==> along_buffer(
            r.files.last().moves,
            base,
        ) && n <= len,
{
    let mem = |i: int| 0u8;
    let k = r.events.len() - 1;
    assert(r.step_at(k));
    run_is_on_the_way(r, k, mem);
    let c = r.calls[k];
    match c.phase {
        Phase::Seek => {
            going_on_keeps(c);
        },
        Phase::Fetch => {
            going_on_keeps(PositionedCall { next: (c.next + 1) as usize, ..c });
        },
        Phase::Move(p) => {
            match bytes_moved(r.events[k]) {
                Some(n) => {
                    going_on_keeps(PositionedCall { total: (c.total + n) as usize, ..c });
                },
                None => {},
            }
        },
        _ => {},
    }
    assert(c.phase is Restore);
}

/// A read at an offset is refused below zero, without a buffer and from a file that cannot be
/// read; it never waits for nothing to read.
pub proof fn positioned_reads_are_checked_in_order(
    len: usize,
    offset: isize,
    buffer: SysResult<()>,
    f: OpenFile,
)
    ensures
        offset < 0 ==> pread_refused(len, offset, buffer, Ok(f)) == Some(err(Errno::EINVAL)),
        offset >= 0 && len == 0 ==> pread_refused(len, offset, buffer, Ok(f)) == Some(ok(0)),
        offset >= 0 && len > 0 ==> (buffer matches Err(e) ==> pread_refused(
            len,
            offset,
            buffer,
            Ok(f),
        ) == Some(err(e))),
        offset >= 0 && len > 0
            && buffer is Ok ==> (pread_refused(len, offset, buffer, Ok(f)) is None)
            == f.readable,
        offset >= 0 && len > 0 && buffer is Ok && !f.readable ==> pread_refused(
            len,
            offset,
            buffer,
            Ok(f),
        ) == Some(err(Errno::EBADF)),
{
}

/// A write at an offset is refused below zero, to a file that cannot be written, and to one
/// that neither waits nor has room.
pub proof fn positioned_writes_are_checked_in_order(len: usize, offset: isize, f: OpenFile)
    ensures
        offset < 0 ==> pwrite_refused(len, offset, Ok(f)) == Some(err(Errno::EINVAL)),
        offset >= 0 && len == 0 ==> pwrite_refused(len, offset, Ok(f)) == Some(ok(0)),
        offset >= 0 && len > 0 && !f.writable ==> pwrite_refused(len, offset, Ok(f)) == Some(
            err(Errno::EBADF),
        ),
        offset >= 0 && len > 0 && f.writable ==> (pwrite_refused(len, offset, Ok(f)) is None) == (
        f.write_ready || f.flags & 0o4000 == 0),
        offset >= 0 && len > 0 && f.writable && !f.write_ready && f.flags & 0o4000 != 0
            ==> pwrite_refused(len, offset, Ok(f)) == Some(err(Errno::EAGAIN)),
{
}

/// Lists of buffers at an offset have at most 1024 entries and the same rights.
pub proof fn positioned_lists_are_checked_in_order(
    n: usize,
    offset: isize,
    items: Vec<IoVec>,
    buffers: SysResult<()>,
    f: OpenFile,
)
    ensures
        offset < 0 || n > 1024 ==> preadv_refused(n, offset, Ok(f)) == Some(err(Errno::EINVAL)),
        offset >= 0 && 0 < n <= 1024 ==> (preadv_refused(n, offset, Ok(f)) is None) == f.readable,
        offset >= 0 && n == 0 ==> preadv_refused(n, offset, Ok(f)) == Some(ok(0)),
        offset < 0 ==> pwritev_refused(offset, Ok(items), buffers, Ok(f)) == Some(
            err(Errno::EINVAL),
        ),
        offset >= 0 ==> (buffers matches Err(e) ==> pwritev_refused(
            offset,
            Ok(items),
            buffers,
            Ok(f),
        ) == Some(err(e))),
        offset >= 0
            && buffers is Ok ==> (pwritev_refused(offset, Ok(items), buffers, Ok(f)) is None)
            == f.writable,
{
}

/// What a call at an offset returns is what it moved; an error counts only where nothing was,
/// except that a read into one buffer reports any.
pub proof fn positioned_calls_return_what_they_moved(
    c: PositionedCall,
    last: SysResult<usize>,
    restored: SysResult<()>,
)
    ensures
        last is Ok && restored is Ok ==> call_result(c, last, restored) == Ok::<usize, Errno>(
            c.total,
        ) || (c.pieces is Emptied && c.total == 0),
        c.pieces is Filled ==> (last matches Err(e) ==> call_result(c, last, restored) == Err::<
            usize,
            Errno,
        >(e)),
        c.pieces is Emptied && c.total > 0 ==> call_result(c, last, restored) == Ok::<usize, Errno>(
            c.total,
        ),
        c.pieces is Emptied && c.total == 0 ==> (last matches Err(e) ==> call_result(
            c,
            last,
            restored,
        ) == Err::<usize, Errno>(e)),
        (c.pieces is Listed || c.pieces is Counted) && c.total > 0 ==> call_result(
            c,
            last,
            restored,
        ) == Ok::<usize, Errno>(c.total),
        (c.pieces is Listed || c.pieces is Counted) && c.total == 0 ==> (last matches Err(e)
            ==> call_result(c, last, restored) == Err::<usize, Errno>(e)),
{
}

} // verus!
