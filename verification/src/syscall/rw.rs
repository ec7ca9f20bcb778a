//! Reading, writing and moving data between descriptors.
//!
//! Data is moved in chunks. A transfer decides the size of each chunk and what
//! the outcome of each chunk means; the chunk itself is moved by the caller.

use crate::errno::{err, ok, Errno, SysResult};
use crate::syscall::file::{InodeType, O_APPEND, O_NONBLOCK, O_PATH, O_WRONLY};
use crate::user::{failed, read_result, Reply, UserIn, UserOut};
use vstd::prelude::*;

verus! {

/// The largest chunk.
pub const IO_CHUNK_SIZE: usize = 65536;

/// What a call sees of an open file.
#[derive(Debug, Clone, Copy)]
pub struct OpenFile {
    pub flags: u32,
    pub readable: bool,
    pub writable: bool,
    /// A read would not wait.
    pub read_ready: bool,
    /// A write would not wait.
    pub write_ready: bool,
    pub kind: InodeType,
    /// Identity of the buffer if this is a pipe.
    pub pipe: Option<usize>,
}

/// How a transfer goes on.
#[derive(Debug)]
pub enum Step {
    /// The call returns.
    Return(SysResult<usize>),
    /// A chunk of this size is to be moved.
    Chunk(usize),
}

/// A transfer of `len` bytes, of which `total` were moved.
#[derive(Debug, Clone, Copy, PartialEq, Eq, Structural)]
pub struct Transfer {
    pub len: usize,
    pub total: usize,
    pub nonblock: bool,
}

/// The size of the next chunk.
pub open spec fn chunk_size(t: Transfer) -> usize {
    if t.len - t.total < IO_CHUNK_SIZE {
        (t.len - t.total) as usize
    } else {
        IO_CHUNK_SIZE
    }
}

/// What comes before a chunk: nothing is left, or the file would make a
/// descriptor wait that must not, or a chunk.
pub open spec fn before_chunk(t: Transfer, ready: bool) -> Step {
    if t.total >= t.len {
        Step::Return(Ok(t.total))
    } else if t.nonblock && !ready {
        if t.total == 0 {
            Step::Return(Err(Errno::EAGAIN))
        } else {
            Step::Return(Ok(t.total))
        }
    } else {
        Step::Chunk(chunk_size(t))
    }
}

/// Whether a chunk that was read takes a transfer from `before` to `after` and ends it as `r`.
pub open spec fn chunk_read(
    before: Transfer,
    after: Transfer,
    chunk: usize,
    read: SysResult<usize>,
    copied: SysResult<()>,
    r: Option<SysResult<usize>>,
) -> bool {
    match read {
        Err(e) => r == Some(err(e)) && after == before,
        Ok(n) => if n == 0 {
            r == Some(ok(before.total)) && after == before
        } else {
            match copied {
                Err(e) => r == Some(err(e)) && after == before,
                Ok(_) => {
                    &&& after.total == before.total + n
                    &&& r == (if n < chunk {
                        Some(ok(after.total))
                    } else {
                        None
                    })
                },
            }
        },
    }
}

/// Whether a chunk that was written takes a transfer from `before` to `after` and ends it as
/// `r`.
pub open spec fn chunk_stored(
    before: Transfer,
    after: Transfer,
    chunk: usize,
    copied: SysResult<()>,
    written: SysResult<usize>,
    r: Option<SysResult<usize>>,
) -> bool {
    match copied {
        Err(e) => r == Some(err(e)) && after == before,
        Ok(_) => match written {
            Err(e) => after == before && r == Some(
                if before.total == 0 {
                    err(e)
                } else {
                    ok(before.total)
                },
            ),
            Ok(n) => {
                &&& after.total == before.total + n
                &&& r == (if n < chunk {
                    Some(ok(after.total))
                } else {
                    None
                })
            },
        },
    }
}

impl Transfer {
    /// No more was moved than asked for.
    pub open spec fn wf(&self) -> bool {
        self.total <= self.len
    }

    /// The next chunk, or the end of the transfer.
    pub fn next(&self, ready: bool) -> (r: Step)
        requires
            self.wf(),
        ensures
            r == before_chunk(*self, ready),
            r matches Step::Chunk(n) ==> 0 < n && self.total + n <= self.len,
    {
        if self.total >= self.len {
            return Step::Return(Ok(self.total));
        }
        if self.nonblock && !ready {
            if self.total == 0 {
                return Step::Return(Err(Errno::EAGAIN));
            }
            return Step::Return(Ok(self.total));
        }
        let left: usize = self.len - self.total;
        if left < IO_CHUNK_SIZE {
            Step::Chunk(left)
        } else {
            Step::Chunk(IO_CHUNK_SIZE)
        }
    }

    /// Takes note of a chunk that was read from a file and copied out. Any error
    /// ends the call with that error; the end of the file and a short read end
    /// it with what was read.
    pub fn after_read(&mut self, chunk: usize, read: SysResult<usize>, copied: SysResult<()>) -> (r:
        Option<SysResult<usize>>)
        requires
            old(self).wf(),
            chunk <= old(self).len - old(self).total,
            read matches Ok(n) ==> n <= chunk,
        ensures
            final(self).wf(),
            final(self).len == old(self).len,
            final(self).nonblock == old(self).nonblock,
            chunk_read(*old(self), *final(self), chunk, read, copied, r),
    {
        match read {
            Err(e) => Some(Err(e)),
            Ok(n) => {
                if n == 0 {
                    return Some(Ok(self.total));
                }
                match copied {
                    Err(e) => {
                        return Some(Err(e));
                    },
                    Ok(_) => {},
                }
                self.total = self.total + n;
                if n < chunk {
                    return Some(Ok(self.total));
                }
                None
            },
        }
    }

    /// Takes note of a chunk that was copied in and written to a file. A fault
    /// ends the call with an error; a failed write ends it with what was written
    /// before, or with the error if that is nothing.
    pub fn after_write(&mut self, chunk: usize, copied: SysResult<()>, written: SysResult<usize>) -> (r:
        Option<SysResult<usize>>)
        requires
            old(self).wf(),
            chunk <= old(self).len - old(self).total,
            written matches Ok(n) ==> n <= chunk,
        ensures
            final(self).wf(),
            final(self).len == old(self).len,
            final(self).nonblock == old(self).nonblock,
            chunk_stored(*old(self), *final(self), chunk, copied, written, r),
    {
        match copied {
            Err(e) => {
                return Some(Err(e));
            },
            Ok(_) => {},
        }
        match written {
            Err(e) => if self.total == 0 {
                Some(Err(e))
            } else {
                Some(Ok(self.total))
            },
            Ok(n) => {
                self.total = self.total + n;
                if n < chunk {
                    return Some(Ok(self.total));
                }
                None
            },
        }
    }
}

/// A call that starts a transfer, or returns at once.
#[derive(Debug)]
pub enum Start {
    Return(SysResult<usize>),
    Run(Transfer),
}

/// A transfer that has moved nothing yet.
pub open spec fn fresh(len: usize, nonblock: bool) -> Transfer {
    Transfer { len, total: 0, nonblock }
}

/// How a read starts.
pub open spec fn read_start(len: usize, buf: SysResult<()>, file: SysResult<OpenFile>) -> Start {
    if len == 0 {
        Start::Return(Ok(0))
    } else if buf is Err {
        Start::Return(Err(buf->Err_0))
    } else {
        match file {
            Err(e) => Start::Return(Err(e)),
            Ok(f) => if !f.readable {
                Start::Return(Err(Errno::EBADF))
            } else if f.flags & O_NONBLOCK != 0 && !f.read_ready {
                Start::Return(Err(Errno::EAGAIN))
            } else {
                Start::Run(fresh(len, f.flags & O_NONBLOCK != 0))
            },
        }
    }
}

/// Starts a read. `buf` tells whether the buffer can be written.
pub fn sys_read(len: usize, buf: SysResult<()>, file: SysResult<OpenFile>) -> (r: Start)
    ensures
        r == read_start(len, buf, file),
{
    if len == 0 {
        return Start::Return(Ok(0));
    }
    match buf {
        Err(e) => {
            return Start::Return(Err(e));
        },
        Ok(_) => {},
    }
    let f = match file {
        Ok(f) => f,
        Err(e) => {
            return Start::Return(Err(e));
        },
    };
    if !f.readable {
        return Start::Return(Err(Errno::EBADF));
    }
    let nonblock = f.flags & O_NONBLOCK != 0;
    if nonblock && !f.read_ready {
        return Start::Return(Err(Errno::EAGAIN));
    }
    Start::Run(Transfer { len, total: 0, nonblock })
}

/// How a write begins.
pub open spec fn write_start(len: usize, file: SysResult<OpenFile>) -> Start {
    if len == 0 {
        Start::Return(Ok(0))
    } else {
        match file {
            Err(e) => Start::Return(Err(e)),
            Ok(f) => if !f.writable {
                Start::Return(Err(Errno::EBADF))
            } else {
                Start::Run(fresh(len, f.flags & O_NONBLOCK != 0))
            },
        }
    }
}

/// Starts a write.
pub fn sys_write(len: usize, file: SysResult<OpenFile>) -> (r: Start)
    ensures
        r == write_start(len, file),
{
    if len == 0 {
        return Start::Return(Ok(0));
    }
    match file {
        Err(e) => Start::Return(Err(e)),
        Ok(f) => {
            if !f.writable {
                return Start::Return(Err(Errno::EBADF));
            }
            Start::Run(Transfer { len, total: 0, nonblock: f.flags & O_NONBLOCK != 0 })
        },
    }
}

/// A write to a broken pipe that has moved nothing also sends SIGPIPE.
pub fn write_raises_sigpipe(t: &Transfer, written: &SysResult<usize>) -> (r: bool)
    ensures
        r == (t.total == 0 && *written == err(Errno::EPIPE)),
{
    match written {
        Err(Errno::EPIPE) => t.total == 0,
        _ => false,
    }
}

/// A piece of user memory.
#[derive(Debug, Clone, Copy, PartialEq, Eq, Structural)]
pub struct IoVec {
    pub base: usize,
    pub len: usize,
}

/// The largest number of pieces.
pub const IOV_MAX: usize = 1024;

/// Bytes of all pieces together.
pub open spec fn total_len(items: Seq<IoVec>) -> int
    decreases items.len(),
{
    if items.len() == 0 {
        0
    } else {
        total_len(items.drop_last()) + items.last().len
    }
}

/// The first pieces together are not longer than all.
pub proof fn total_len_prefix(items: Seq<IoVec>, i: int)
    requires
        0 <= i <= items.len(),
    ensures
        0 <= total_len(items.take(i)) <= total_len(items),
    decreases items.len() - i,
{
    if i < items.len() {
        total_len_prefix(items, i + 1);
        assert(items.take(i + 1).drop_last() =~= items.take(i));
        total_len_nonneg(items.take(i));
    } else {
        assert(items.take(i) =~= items);
        total_len_nonneg(items);
    }
}

proof fn total_len_nonneg(items: Seq<IoVec>)
    ensures
        total_len(items) >= 0,
    decreases items.len(),
{
    if items.len() > 0 {
        total_len_nonneg(items.drop_last());
    }
}

/// Whether reading a list of buffers returns `r`.
pub open spec fn iovecs_read(
    iovcnt: usize,
    items: UserIn<Vec<IoVec>>,
    r: SysResult<Vec<IoVec>>,
) -> bool {
    if iovcnt > IOV_MAX {
        r is Err && r->Err_0 == Errno::EINVAL
    } else if iovcnt == 0 {
        r is Ok && r->Ok_0@.len() == 0
    } else {
        match read_result(items) {
            Err(e) => r is Err && r->Err_0 == e,
            Ok(v) => if total_len(v@) > isize::MAX {
                r is Err && r->Err_0 == Errno::EINVAL
            } else {
                r is Ok && r->Ok_0@ == v@
            },
        }
    }
}

/// Checks a list of pieces: at most `IOV_MAX`, and together within the signed
/// range. `items` are the pieces as read, or why they could not be.
pub fn read_iovecs(iovcnt: usize, items: UserIn<Vec<IoVec>>) -> (r: SysResult<Vec<IoVec>>)
    requires
        items matches UserIn::Value(v) ==> v@.len() == iovcnt,
    ensures
        iovecs_read(iovcnt, items, r),
{
    if iovcnt > IOV_MAX {
        return Err(Errno::EINVAL);
    }
    if iovcnt == 0 {
        return Ok(Vec::new());
    }
    let v = match items.read() {
        Ok(v) => v,
        Err(e) => {
            return Err(e);
        },
    };
    let mut total: usize = 0;
    let mut i: usize = 0;
    while i < v.len()
        invariant
            i <= v@.len(),
            0 < iovcnt <= IOV_MAX,
            read_result(items) == Ok::<Vec<IoVec>, Errno>(v),
            total == total_len(v@.take(i as int)),
            total <= isize::MAX,
        decreases v@.len() - i,
    {
        proof {
            assert(v@.take(i + 1).drop_last() =~= v@.take(i as int));
            assert(v@.take(i + 1).last() == v@[i as int]);
            total_len_prefix(v@, i + 1);
        }
        total = match total.checked_add(v[i].len) {
            Some(n) => n,
            None => {
                return Err(Errno::EINVAL);
            },
        };
        if total > isize::MAX as usize {
            return Err(Errno::EINVAL);
        }
        i = i + 1;
    }
    proof {
        assert(v@.take(i as int) =~= v@);
    }
    Ok(v)
}

/// A transfer over several pieces.
#[derive(Debug, Clone, Copy, PartialEq, Eq, Structural)]
pub struct Gather {
    pub total: usize,
}

/// What the outcome of one piece means: an error counts only if nothing was
/// moved before, a short piece ends the transfer.
pub open spec fn piece_outcome(total: usize, len: usize, moved: SysResult<usize>) -> Option<SysResult<
    usize,
>> {
    match moved {
        Err(e) => Some(
            if total > 0 {
                ok(total)
            } else {
                err(e)
            },
        ),
        Ok(n) => if n < len {
            Some(ok((total + n) as usize))
        } else {
            None
        },
    }
}

impl Gather {
    /// Takes note of a piece of `len` bytes.
    pub fn piece(&mut self, len: usize, moved: SysResult<usize>) -> (r: Option<SysResult<usize>>)
        requires
            moved matches Ok(n) ==> n <= len,
            old(self).total + len <= isize::MAX,
        ensures
            r == piece_outcome(old(self).total, len, moved),
            final(self).total == old(self).total + (match moved {
                Ok(n) => n as int,
                Err(_) => 0,
            }),
    {
        match moved {
            Err(e) => if self.total > 0 {
                Some(Ok(self.total))
            } else {
                Some(Err(e))
            },
            Ok(n) => {
                self.total = self.total + n;
                if n < len {
                    Some(Ok(self.total))
                } else {
                    None
                }
            },
        }
    }
}

/// The result of moving pieces in order, where `moved` are the outcomes of the
/// single pieces; empty pieces are skipped.
pub open spec fn vectored_result(items: Seq<IoVec>, moved: Seq<SysResult<usize>>, total: int) -> SysResult<
    usize,
>
    decreases items.len(),
{
    if items.len() == 0 || moved.len() == 0 {
        Ok(total as usize)
    } else if items[0].len == 0 {
        vectored_result(items.drop_first(), moved.drop_first(), total)
    } else {
        match moved[0] {
            Err(e) => if total > 0 {
                Ok(total as usize)
            } else {
                Err(e)
            },
            Ok(n) => if n < items[0].len {
                Ok((total + n) as usize)
            } else {
                vectored_result(items.drop_first(), moved.drop_first(), total + n)
            },
        }
    }
}

/// Outcomes of single pieces that can happen; pieces that were not tried have
/// none.
pub open spec fn possible_moves(items: Seq<IoVec>, moved: Seq<SysResult<usize>>) -> bool {
    &&& moved.len() <= items.len()
    &&& forall|i: int|
        0 <= i < moved.len() ==> ((#[trigger] moved[i]) matches Ok(n) ==> n <= items[i].len)
}

fn combine_pieces(items: &Vec<IoVec>, moved: &Vec<SysResult<usize>>) -> (r: SysResult<usize>)
    requires
        possible_moves(items@, moved@),
        total_len(items@) <= isize::MAX,
    ensures
        r == vectored_result(items@, moved@, 0),
{
    let mut g = Gather { total: 0 };
    let mut i: usize = 0;
    proof {
        assert(items@.skip(0) =~= items@);
        assert(moved@.skip(0) =~= moved@);
    }
    while i < moved.len()
        invariant
            i <= moved@.len(),
            possible_moves(items@, moved@),
            total_len(items@) <= isize::MAX,
            g.total <= total_len(items@.take(i as int)),
            vectored_result(items@, moved@, 0) == vectored_result(
                items@.skip(i as int),
                moved@.skip(i as int),
                g.total as int,
            ),
        decreases moved@.len() - i,
    {
        let len: usize = items[i].len;
        proof {
            assert(items@.skip(i as int).drop_first() =~= items@.skip(i + 1));
            assert(moved@.skip(i as int).drop_first() =~= moved@.skip(i + 1));
            assert(items@.skip(i as int)[0] == items@[i as int]);
            assert(moved@.skip(i as int)[0] == moved@[i as int]);
            assert(items@.take(i + 1).drop_last() =~= items@.take(i as int));
            total_len_prefix(items@, i + 1);
        }
        if len != 0 {
            let m: SysResult<usize> = match &moved[i] {
                Ok(n) => Ok(*n),
                Err(e) => Err(*e),
            };
            match g.piece(len, m) {
                Some(r) => {
                    return r;
                },
                None => {},
            }
        }
        i = i + 1;
    }
    Ok(g.total)
}

/// The result of a vectored write: `moved` are the outcomes of the pieces, as
/// far as they were written, in order.
pub fn sys_writev(items: &Vec<IoVec>, buffers: SysResult<()>, moved: &Vec<SysResult<usize>>) -> (r:
    SysResult<usize>)
    requires
        possible_moves(items@, moved@),
        total_len(items@) <= isize::MAX,
    ensures
        r == (match buffers {
            Err(e) => err(e),
            Ok(_) => vectored_result(items@, moved@, 0),
        }),
{
    match buffers {
        Err(e) => {
            return Err(e);
        },
        Ok(_) => {},
    }
    combine_pieces(items, moved)
}

/// The result of a vectored read: `moved` are the outcomes of the pieces, as far
/// as they were read, in order.
pub fn sys_readv(items: &Vec<IoVec>, buffers: SysResult<()>, moved: &Vec<SysResult<usize>>) -> (r:
    SysResult<usize>)
    requires
        possible_moves(items@, moved@),
        total_len(items@) <= isize::MAX,
    ensures
        r == (match buffers {
            Err(e) => err(e),
            Ok(_) => vectored_result(items@, moved@, 0),
        }),
{
    match buffers {
        Err(e) => {
            return Err(e);
        },
        Ok(_) => {},
    }
    combine_pieces(items, moved)
}

/// A vectored transfer never claims more bytes than its pieces hold.
pub proof fn vectored_result_is_bounded(items: Seq<IoVec>, moved: Seq<SysResult<usize>>, total: int)
    requires
        possible_moves(items, moved),
        0 <= total,
        total + total_len(items) <= isize::MAX,
    ensures
        vectored_result(items, moved, total) matches Ok(n) ==> total <= n <= total + total_len(
            items,
        ),
    decreases items.len(),
{
    total_len_nonneg(items);
    if moved.len() > 0 {
        total_len_first(items);
        total_len_nonneg(items.drop_first());
        assert forall|i: int| 0 <= i < moved.drop_first().len() implies ((
        #[trigger] moved.drop_first()[i]) matches Ok(n) ==> n <= items.drop_first()[i].len) by {
            assert(moved.drop_first()[i] == moved[i + 1]);
        }
        if items[0].len == 0 {
            vectored_result_is_bounded(items.drop_first(), moved.drop_first(), total);
        } else if moved[0] is Ok && moved[0]->Ok_0 >= items[0].len {
            vectored_result_is_bounded(
                items.drop_first(),
                moved.drop_first(),
                total + moved[0]->Ok_0,
            );
        }
    }
}

proof fn total_len_first(items: Seq<IoVec>)
    requires
        items.len() > 0,
    ensures
        total_len(items) == items[0].len + total_len(items.drop_first()),
    decreases items.len(),
{
    if items.len() == 1 {
        assert(items.drop_last() =~= Seq::<IoVec>::empty());
        assert(items.drop_first() =~= Seq::<IoVec>::empty());
    } else {
        total_len_first(items.drop_last());
        assert(items.drop_last().drop_first() =~= items.drop_first().drop_last());
        assert(items.drop_first().last() == items.last());
    }
}

/// Which call an extended vectored call stands for.
#[derive(Debug, Clone, Copy, PartialEq, Eq, Structural)]
pub enum VectoredCall {
    /// At the file's own position.
    Plain,
    /// At this offset.
    At(isize),
}

/// No flags are offered; offset -1 means the file's own position.
pub open spec fn extended_call(offset: isize, flags: i32) -> SysResult<VectoredCall> {
    if flags != 0 {
        Err(Errno::EOPNOTSUPP)
    } else if offset == -1 {
        Ok(VectoredCall::Plain)
    } else {
        Ok(VectoredCall::At(offset))
    }
}

/// Which read an extended vectored read stands for.
pub fn sys_preadv2(offset: isize, flags: i32) -> (r: SysResult<VectoredCall>)
    ensures
        r == extended_call(offset, flags),
{
    if flags != 0 {
        return Err(Errno::EOPNOTSUPP);
    }
    if offset == -1 {
        Ok(VectoredCall::Plain)
    } else {
        Ok(VectoredCall::At(offset))
    }
}

/// Which write an extended vectored write stands for.
pub fn sys_pwritev2(offset: isize, flags: i32) -> (r: SysResult<VectoredCall>)
    ensures
        r == extended_call(offset, flags),
{
    sys_preadv2(offset, flags)
}

pub const SPLICE_F_NONBLOCK: usize = 0x02;

/// All splice flags that exist.
pub const SPLICE_ALLOWED_FLAGS: usize = 0x0f;

/// An offset that user memory may give instead of the file's own position.
pub open spec fn given_offset(off: UserIn<i64>) -> SysResult<Option<usize>> {
    match off {
        UserIn::Null => Ok(None),
        UserIn::Fault => Err(Errno::EFAULT),
        UserIn::Value(v) => if v < 0 {
            Err(Errno::EINVAL)
        } else {
            Ok(Some(v as usize))
        },
    }
}

fn read_user_offset(off: UserIn<i64>) -> (r: SysResult<Option<usize>>)
    ensures
        r == given_offset(off),
{
    match off {
        UserIn::Null => Ok(None),
        UserIn::Fault => Err(Errno::EFAULT),
        UserIn::Value(v) => if v < 0 {
            Err(Errno::EINVAL)
        } else {
            Ok(Some(v as usize))
        },
    }
}

/// The offset that is written back to user memory, if the pointer is not null.
pub fn write_user_offset(off: UserOut, value: u64) -> (r: SysResult<Option<i64>>)
    ensures
        r == (if off == UserOut::Null {
            Ok::<Option<i64>, Errno>(None)
        } else if value > i64::MAX {
            Err(Errno::EINVAL)
        } else if off == UserOut::Fault {
            Err(Errno::EFAULT)
        } else {
            Ok(Some(value as i64))
        }),
{
    match off {
        UserOut::Null => {
            return Ok(None);
        },
        _ => {},
    }
    if value > i64::MAX as u64 {
        return Err(Errno::EINVAL);
    }
    match off {
        UserOut::Fault => Err(Errno::EFAULT),
        _ => Ok(Some(value as i64)),
    }
}

/// A transfer between two files with the positions it starts from.
#[derive(Debug, Clone, Copy, PartialEq, Eq, Structural)]
pub struct SplicePlan {
    pub in_offset: Option<usize>,
    pub out_offset: Option<usize>,
}

/// Why two files cannot be spliced, or where the transfer starts. One side must
/// be a pipe, and pipes have no position.
pub open spec fn splice_plan(
    flags: usize,
    input: SysResult<OpenFile>,
    output: SysResult<OpenFile>,
    input_kind: SysResult<InodeType>,
    off_in: UserIn<i64>,
    off_out: UserIn<i64>,
) -> SysResult<SplicePlan> {
    if flags & !SPLICE_ALLOWED_FLAGS != 0 {
        Err(Errno::EINVAL)
    } else if input is Err {
        Err(input->Err_0)
    } else if output is Err {
        Err(output->Err_0)
    } else {
        let i = input->Ok_0;
        let o = output->Ok_0;
        if i.flags & O_PATH != 0 || o.flags & O_PATH != 0 {
            Err(Errno::EBADF)
        } else if i.pipe is None && o.pipe is None {
            Err(Errno::EINVAL)
        } else if (i.pipe is Some && !(off_in is Null)) || (o.pipe is Some && !(off_out is Null)) {
            Err(Errno::ESPIPE)
        } else if !i.readable || i.flags & O_WRONLY != 0 {
            Err(Errno::EBADF)
        } else if i.pipe is None && input_kind is Err {
            Err(input_kind->Err_0)
        } else if i.pipe is None && input_kind->Ok_0 == InodeType::Directory {
            Err(Errno::EINVAL)
        } else if !o.writable {
            Err(Errno::EBADF)
        } else if o.flags & O_APPEND != 0 {
            Err(Errno::EINVAL)
        } else {
            match given_offset(off_in) {
                Err(e) => Err(e),
                Ok(a) => match given_offset(off_out) {
                    Err(e) => Err(e),
                    Ok(b) => Ok(SplicePlan { in_offset: a, out_offset: b }),
                },
            }
        }
    }
}

fn plan_splice(
    flags: usize,
    input: SysResult<OpenFile>,
    output: SysResult<OpenFile>,
    input_kind: SysResult<InodeType>,
    off_in: UserIn<i64>,
    off_out: UserIn<i64>,
) -> (r: SysResult<SplicePlan>)
    ensures
        r == splice_plan(flags, input, output, input_kind, off_in, off_out),
{
    if flags & !SPLICE_ALLOWED_FLAGS != 0 {
        return Err(Errno::EINVAL);
    }
    let i = match input {
        Ok(f) => f,
        Err(e) => {
            return Err(e);
        },
    };
    let o = match output {
        Ok(f) => f,
        Err(e) => {
            return Err(e);
        },
    };
    if i.flags & O_PATH != 0 || o.flags & O_PATH != 0 {
        return Err(Errno::EBADF);
    }
    if i.pipe.is_none() && o.pipe.is_none() {
        return Err(Errno::EINVAL);
    }
    if i.pipe.is_some() && !off_in.is_null() {
        return Err(Errno::ESPIPE);
    }
    if o.pipe.is_some() && !off_out.is_null() {
        return Err(Errno::ESPIPE);
    }
    if !i.readable || i.flags & O_WRONLY != 0 {
        return Err(Errno::EBADF);
    }
    if i.pipe.is_none() {
        match input_kind {
            Err(e) => {
                return Err(e);
            },
            Ok(InodeType::Directory) => {
                return Err(Errno::EINVAL);
            },
            Ok(_) => {},
        }
    }
    if !o.writable {
        return Err(Errno::EBADF);
    }
    if o.flags & O_APPEND != 0 {
        return Err(Errno::EINVAL);
    }
    let in_offset = match read_user_offset(off_in) {
        Ok(a) => a,
        Err(e) => {
            return Err(e);
        },
    };
    let out_offset = match read_user_offset(off_out) {
        Ok(b) => b,
        Err(e) => {
            return Err(e);
        },
    };
    Ok(SplicePlan { in_offset, out_offset })
}

/// The size of the next chunk when the receiver has `room` bytes left; a full
/// receiver gets one byte, so that it is waited for.
pub open spec fn chunk_for_room(t: Transfer, room: Option<usize>) -> usize {
    let c = chunk_size(t);
    match room {
        None => c,
        Some(r) => {
            let m = if r == 0 {
                1
            } else {
                r
            };
            if m < c {
                m
            } else {
                c
            }
        },
    }
}

/// Whether a chunk that was copied takes a transfer from `before` to `after` and ends it as `r`.
pub open spec fn chunk_copied(
    before: Transfer,
    after: Transfer,
    chunk: usize,
    read: SysResult<usize>,
    moved: SysResult<usize>,
    r: Option<SysResult<usize>>,
) -> bool {
    match read {
        Err(e) => after == before && r == Some(
            if before.total > 0 {
                ok(before.total)
            } else {
                err(e)
            },
        ),
        Ok(n) => if n == 0 {
            after == before && r == Some(ok(before.total))
        } else {
            match moved {
                Err(e) => after == before && r == Some(
                    if before.total > 0 {
                        ok(before.total)
                    } else {
                        err(e)
                    },
                ),
                Ok(m) => {
                    &&& after.total == before.total + m
                    &&& r == (if m < n || n < chunk {
                        Some(ok(after.total))
                    } else {
                        None
                    })
                },
            }
        },
    }
}

/// Whether a copy between two files begins as `r`.
pub open spec fn copy_start(
    len: usize,
    flags: usize,
    input: OpenFile,
    output: OpenFile,
    r: Start,
) -> bool {
    r == (if len == 0 {
        Start::Return(Ok(0))
    } else if flags & SPLICE_F_NONBLOCK != 0 && ((input.pipe is Some && !input.read_ready)
        || (output.pipe is Some && !output.write_ready)) {
        Start::Return(Err(Errno::EAGAIN))
    } else {
        Start::Run(fresh(len, false))
    })
}

impl Transfer {
    /// Starts moving data between files. Pipes that are not ready end a
    /// transfer that must not wait.
    pub fn splice_copy(len: usize, flags: usize, input: &OpenFile, output: &OpenFile) -> (r: Start)
        ensures
            copy_start(len, flags, *input, *output, r),
    {
        if len == 0 {
            return Start::Return(Ok(0));
        }
        if flags & SPLICE_F_NONBLOCK != 0 {
            if input.pipe.is_some() && !input.read_ready {
                return Start::Return(Err(Errno::EAGAIN));
            }
            if output.pipe.is_some() && !output.write_ready {
                return Start::Return(Err(Errno::EAGAIN));
            }
        }
        Start::Run(Transfer { len, total: 0, nonblock: false })
    }

    /// The next chunk for a receiver with `room` bytes left, if anything is
    /// left to move.
    pub fn next_for_room(&self, room: Option<usize>) -> (r: Option<usize>)
        requires
            self.wf(),
        ensures
            r == (if self.total >= self.len {
                None
            } else {
                Some(chunk_for_room(*self, room))
            }),
            r matches Some(n) ==> 0 < n <= self.len - self.total,
    {
        if self.total >= self.len {
            return None;
        }
        let left: usize = self.len - self.total;
        let c: usize = if left < IO_CHUNK_SIZE {
            left
        } else {
            IO_CHUNK_SIZE
        };
        match room {
            None => Some(c),
            Some(r) => {
                let m: usize = if r == 0 {
                    1
                } else {
                    r
                };
                if m < c {
                    Some(m)
                } else {
                    Some(c)
                }
            },
        }
    }

    /// Takes note of a chunk that went from one file to another: `moved` of the
    /// `read` bytes were accepted, or writing failed. An error counts only if
    /// nothing was moved before.
    pub fn after_copy(&mut self, chunk: usize, read: SysResult<usize>, moved: SysResult<usize>) -> (r:
        Option<SysResult<usize>>)
        requires
            old(self).wf(),
            chunk <= old(self).len - old(self).total,
            read matches Ok(n) ==> n <= chunk,
            moved matches Ok(m) ==> read matches Ok(n) ==> m <= n,
        ensures
            final(self).wf(),
            final(self).len == old(self).len,
            final(self).nonblock == old(self).nonblock,
            chunk_copied(*old(self), *final(self), chunk, read, moved, r),
    {
        let n: usize = match read {
            Err(e) => {
                return if self.total > 0 {
                    Some(Ok(self.total))
                } else {
                    Some(Err(e))
                };
            },
            Ok(n) => n,
        };
        if n == 0 {
            return Some(Ok(self.total));
        }
        match moved {
            Err(e) => if self.total > 0 {
                Some(Ok(self.total))
            } else {
                Some(Err(e))
            },
            Ok(m) => {
                self.total = self.total + m;
                if m < n || n < chunk {
                    Some(Ok(self.total))
                } else {
                    None
                }
            },
        }
    }
}

/// Whether writing a part of `len` bytes goes from `before` to `after` bytes and ends as `r`.
pub open spec fn part_written(
    before: usize,
    after: usize,
    len: usize,
    written: SysResult<usize>,
    r: Option<SysResult<usize>>,
) -> bool {
    match written {
        Err(e) => after == before && r == Some(err(e)),
        Ok(n) => {
            &&& after == before + n
            &&& r == (if n == 0 || after == len {
                Some(ok(after))
            } else {
                None
            })
        },
    }
}

/// Takes note of one write of the `len` bytes of a chunk, of which `done` were
/// written before. The chunk is over when all of it is written, when the receiver
/// takes nothing more, or when a write fails.
pub fn chunk_written(done: &mut usize, len: usize, written: SysResult<usize>) -> (r: Option<
    SysResult<usize>,
>)
    requires
        *old(done) < len,
        written matches Ok(n) ==> n <= len - *old(done),
    ensures
        part_written(*old(done), *final(done), len, written, r),
{
    match written {
        Err(e) => Some(Err(e)),
        Ok(n) => {
            *done = *done + n;
            if n == 0 || *done >= len {
                Some(Ok(*done))
            } else {
                None
            }
        },
    }
}

/// The offsets that a splice leaves in user memory.
#[derive(Debug, Clone, Copy, PartialEq, Eq, Structural)]
pub struct SpliceOffsets {
    pub input: Option<i64>,
    pub output: Option<i64>,
}

/// What writing back an offset comes to; nothing is written after a failed
/// transfer or where no offset was given.
pub open spec fn written_offset(given: bool, moved: bool, off: UserOut, value: u64) -> SysResult<
    Option<i64>,
> {
    if !given || !moved || off == UserOut::Null {
        Ok(None)
    } else if value > i64::MAX {
        Err(Errno::EINVAL)
    } else if off == UserOut::Fault {
        Err(Errno::EFAULT)
    } else {
        Ok(Some(value as i64))
    }
}

/// Ends a splice: the offsets that user memory gave move on with the transfer.
/// A failed write of the first offset ends the call, so that the second is not
/// written.
fn finish_splice(
    plan: &SplicePlan,
    moved: SysResult<usize>,
    off_in: UserOut,
    new_in: u64,
    off_out: UserOut,
    new_out: u64,
) -> (r: Reply<SpliceOffsets>)
    ensures
        r == splice_reply(*plan, moved, off_in, new_in, off_out, new_out),
{
    let mut offsets = SpliceOffsets { input: None, output: None };
    if plan.in_offset.is_some() && moved.is_ok() {
        match write_user_offset(off_in, new_in) {
            Err(e) => {
                return Reply::fail(e);
            },
            Ok(v) => {
                offsets.input = v;
            },
        }
    }
    if plan.out_offset.is_some() && moved.is_ok() {
        match write_user_offset(off_out, new_out) {
            Err(e) => {
                return Reply { ret: Err(e), out: Some(offsets) };
            },
            Ok(v) => {
                offsets.output = v;
            },
        }
    }
    Reply { ret: moved, out: Some(offsets) }
}

/// One of the two files of a splice.
#[derive(Debug, Clone, Copy, PartialEq, Eq, Structural)]
pub enum Side {
    Input,
    Output,
}

/// Where a splice stands.
#[derive(Debug, Clone, Copy, PartialEq, Eq)]
pub enum SplicePhase {
    /// Whether the file with a given offset can be positioned is asked.
    Ask,
    /// That file is put at its offset.
    Seek,
    /// Bytes are moved.
    Copy,
    /// That file is put back; this came of the move.
    Restore { moved: SysResult<usize>, new_in: u64, new_out: u64 },
    /// The call has returned.
    Over,
}

/// A splice.
#[derive(Debug)]
pub struct SpliceCall {
    pub plan: SplicePlan,
    pub len: usize,
    /// The positions of the files before the call.
    pub old_in: usize,
    pub old_out: usize,
    /// Where the new offsets go.
    pub off_in: UserOut,
    pub off_out: UserOut,
    pub phase: SplicePhase,
}

/// What is to be done next.
#[derive(Debug)]
pub enum SpliceAction {
    /// Ask whether this file can be positioned.
    CanSeek(Side),
    /// Put this file at this position.
    Seek(Side, usize),
    /// Move up to `len` bytes.
    Copy,
    /// The call returns and writes the offsets.
    Return(Reply<SpliceOffsets>),
}

/// What came of it.
#[derive(Debug)]
pub enum SpliceEvent {
    Asked(SysResult<()>),
    Sought(SysResult<()>),
    /// Bytes were moved, and the files are at these positions now.
    Copied { moved: SysResult<usize>, new_in: u64, new_out: u64 },
}

/// The file that has a given offset.
pub open spec fn given_side(plan: SplicePlan) -> Option<(Side, usize)> {
    match plan.in_offset {
        Some(o) => Some((Side::Input, o)),
        None => match plan.out_offset {
            Some(o) => Some((Side::Output, o)),
            None => None,
        },
    }
}

/// The position of a file before the call.
pub open spec fn old_position(c: SpliceCall, side: Side) -> usize {
    match side {
        Side::Input => c.old_in,
        Side::Output => c.old_out,
    }
}

/// What a splice returns after its bytes were moved: the offsets that user memory
/// gave move on with a transfer that succeeded.
pub open spec fn splice_reply(
    plan: SplicePlan,
    moved: SysResult<usize>,
    off_in: UserOut,
    new_in: u64,
    off_out: UserOut,
    new_out: u64,
) -> Reply<SpliceOffsets> {
    let a = written_offset(plan.in_offset is Some, moved is Ok, off_in, new_in);
    let b = written_offset(plan.out_offset is Some, moved is Ok, off_out, new_out);
    if a is Err {
        failed(a->Err_0)
    } else if b is Err {
        Reply { ret: err(b->Err_0), out: Some(SpliceOffsets { input: a->Ok_0, output: None }) }
    } else {
        Reply { ret: moved, out: Some(SpliceOffsets { input: a->Ok_0, output: b->Ok_0 }) }
    }
}

/// A splice that returns.
pub open spec fn splice_over(c: SpliceCall, r: Reply<SpliceOffsets>) -> (SpliceCall, SpliceAction) {
    (SpliceCall { phase: SplicePhase::Over, ..c }, SpliceAction::Return(r))
}

/// What follows an event.
pub open spec fn splice_step(c: SpliceCall, e: SpliceEvent) -> (SpliceCall, SpliceAction) {
    match c.phase {
        SplicePhase::Ask => match e->Asked_0 {
            Err(x) => splice_over(c, failed(x)),
            Ok(_) => (
                SpliceCall { phase: SplicePhase::Seek, ..c },
                SpliceAction::Seek((given_side(c.plan)->0).0, (given_side(c.plan)->0).1),
            ),
        },
        SplicePhase::Seek => match e->Sought_0 {
            Err(x) => splice_over(c, failed(x)),
            Ok(_) => (SpliceCall { phase: SplicePhase::Copy, ..c }, SpliceAction::Copy),
        },
        SplicePhase::Copy => match e {
            SpliceEvent::Copied { moved, new_in, new_out } => match given_side(c.plan) {
                Some((side, _)) => (
                    SpliceCall { phase: SplicePhase::Restore { moved, new_in, new_out }, ..c },
                    SpliceAction::Seek(side, old_position(c, side)),
                ),
                None => splice_over(
                    c,
                    splice_reply(c.plan, moved, c.off_in, new_in, c.off_out, new_out),
                ),
            },
            _ => (c, SpliceAction::Copy),
        },
        SplicePhase::Restore { moved, new_in, new_out } => splice_over(
            c,
            splice_reply(c.plan, moved, c.off_in, new_in, c.off_out, new_out),
        ),
        SplicePhase::Over => splice_over(c, failed(Errno::EINVAL)),
    }
}

/// The event can come of what was to be done.
pub open spec fn splice_event_fits(c: SpliceCall, e: SpliceEvent) -> bool {
    match c.phase {
        SplicePhase::Ask => e is Asked,
        SplicePhase::Seek => e is Sought,
        SplicePhase::Copy => e matches SpliceEvent::Copied { moved, new_in: _, new_out: _ } && (moved
            matches Ok(n) ==> n <= c.len),
        SplicePhase::Restore { .. } => e is Sought,
        SplicePhase::Over => false,
    }
}

impl SpliceCall {
    /// At most one of the files has a given offset, and only such a file is
    /// positioned. No more was moved than asked for.
    pub open spec fn wf(&self) -> bool {
        &&& self.plan.in_offset is None || self.plan.out_offset is None
        &&& match self.phase {
            SplicePhase::Ask | SplicePhase::Seek => given_side(self.plan) is Some,
            SplicePhase::Restore { moved, .. } => given_side(self.plan) is Some && (moved matches Ok(
                n,
            ) ==> n <= self.len),
            _ => true,
        }
    }

    /// Takes note of what came of the last thing that was done, and tells the
    /// next.
    pub fn step(&mut self, e: SpliceEvent) -> (r: SpliceAction)
        requires
            old(self).wf(),
            splice_event_fits(*old(self), e),
        ensures
            final(self).wf(),
            (*final(self), r) == splice_step(*old(self), e),
    {
        match self.phase {
            SplicePhase::Ask => match e {
                SpliceEvent::Asked(Ok(_)) => {
                    self.phase = SplicePhase::Seek;
                    match self.plan.in_offset {
                        Some(o) => SpliceAction::Seek(Side::Input, o),
                        None => match self.plan.out_offset {
                            Some(o) => SpliceAction::Seek(Side::Output, o),
                            None => SpliceAction::Copy,
                        },
                    }
                },
                SpliceEvent::Asked(Err(x)) => self.end(Reply::fail(x)),
                _ => self.end(Reply::fail(Errno::EINVAL)),
            },
            SplicePhase::Seek => match e {
                SpliceEvent::Sought(Ok(_)) => {
                    self.phase = SplicePhase::Copy;
                    SpliceAction::Copy
                },
                SpliceEvent::Sought(Err(x)) => self.end(Reply::fail(x)),
                _ => self.end(Reply::fail(Errno::EINVAL)),
            },
            SplicePhase::Copy => match e {
                SpliceEvent::Copied { moved, new_in, new_out } => {
                    if self.plan.in_offset.is_some() {
                        self.phase = SplicePhase::Restore { moved, new_in, new_out };
                        SpliceAction::Seek(Side::Input, self.old_in)
                    } else if self.plan.out_offset.is_some() {
                        self.phase = SplicePhase::Restore { moved, new_in, new_out };
                        SpliceAction::Seek(Side::Output, self.old_out)
                    } else {
                        let r = finish_splice(
                            &self.plan,
                            moved,
                            self.off_in,
                            new_in,
                            self.off_out,
                            new_out,
                        );
                        self.end(r)
                    }
                },
                _ => SpliceAction::Copy,
            },
            SplicePhase::Restore { moved, new_in, new_out } => {
                let r = finish_splice(
                    &self.plan,
                    moved,
                    self.off_in,
                    new_in,
                    self.off_out,
                    new_out,
                );
                self.end(r)
            },
            SplicePhase::Over => self.end(Reply::fail(Errno::EINVAL)),
        }
    }

    fn end(&mut self, reply: Reply<SpliceOffsets>) -> (r: SpliceAction)
        ensures
            (*final(self), r) == splice_over(*old(self), reply),
    {
        self.phase = SplicePhase::Over;
        SpliceAction::Return(reply)
    }
}

/// A splice that has moved nothing yet, and what is to be done first.
pub open spec fn splice_begun(
    c: SpliceCall,
    action: SpliceAction,
    plan: SplicePlan,
    len: usize,
    positions: (usize, usize),
    outs: (UserOut, UserOut),
) -> bool {
    &&& c.wf()
    &&& c.plan == plan
    &&& c.len == len
    &&& (c.old_in, c.old_out) == positions
    &&& (c.off_in, c.off_out) == outs
    &&& match given_side(plan) {
        Some((side, _)) => c.phase == SplicePhase::Ask && action == SpliceAction::CanSeek(side),
        None => c.phase == SplicePhase::Copy && action == SpliceAction::Copy,
    }
}

/// Starts a splice of up to `len` bytes. `positions` tells where the files are,
/// `outs` whether the offsets can be written back.
pub fn sys_splice(
    len: usize,
    flags: usize,
    input: SysResult<OpenFile>,
    output: SysResult<OpenFile>,
    input_kind: SysResult<InodeType>,
    off_in: UserIn<i64>,
    off_out: UserIn<i64>,
    positions: (usize, usize),
    outs: (UserOut, UserOut),
) -> (r: SysResult<(SpliceCall, SpliceAction)>)
    ensures
        match splice_plan(flags, input, output, input_kind, off_in, off_out) {
            Err(e) => r is Err && r->Err_0 == e,
            Ok(plan) => r is Ok && splice_begun(
                (r->Ok_0).0,
                (r->Ok_0).1,
                plan,
                len,
                positions,
                outs,
            ),
        },
{
    let plan = match plan_splice(flags, input, output, input_kind, off_in, off_out) {
        Ok(plan) => plan,
        Err(e) => {
            return Err(e);
        },
    };
    let (phase, action) = if plan.in_offset.is_some() {
        (SplicePhase::Ask, SpliceAction::CanSeek(Side::Input))
    } else if plan.out_offset.is_some() {
        (SplicePhase::Ask, SpliceAction::CanSeek(Side::Output))
    } else {
        (SplicePhase::Copy, SpliceAction::Copy)
    };
    Ok(
        (
            SpliceCall {
                plan,
                len,
                old_in: positions.0,
                old_out: positions.1,
                off_in: outs.0,
                off_out: outs.1,
                phase,
            },
            action,
        ),
    )
}

/// The positions of the two files after an action. A seek that fails leaves a
/// file where it is.
pub open spec fn positions_after(at: (int, int), action: SpliceAction, e: SpliceEvent) -> (int, int) {
    match action {
        SpliceAction::Seek(side, p) => if e->Sought_0 is Err {
            at
        } else if side == Side::Input {
            (p as int, at.1)
        } else {
            (at.0, p as int)
        },
        SpliceAction::Copy => (e->new_in as int, e->new_out as int),
        _ => at,
    }
}

/// A splice from its start: its states, what was to be done in each, what came of
/// it, and where the two files were.
pub struct SpliceRun {
    pub calls: Seq<SpliceCall>,
    pub actions: Seq<SpliceAction>,
    pub events: Seq<SpliceEvent>,
    pub at: Seq<(int, int)>,
}

impl SpliceRun {
    /// Step `k` of the run.
    pub open spec fn step_at(self, k: int) -> bool {
        &&& splice_event_fits(self.calls[k], self.events[k])
        &&& (self.calls[k + 1], self.actions[k + 1]) == splice_step(self.calls[k], self.events[k])
        &&& self.at[k + 1] == positions_after(self.at[k], self.actions[k], self.events[k])
    }

    /// The run starts with a splice that has moved nothing and each step follows
    /// from the last.
    pub open spec fn valid(self) -> bool {
        let c = self.calls[0];
        &&& self.calls.len() == self.events.len() + 1
        &&& self.actions.len() == self.events.len() + 1
        &&& self.at.len() == self.events.len() + 1
        &&& splice_begun(
            c,
            self.actions[0],
            c.plan,
            c.len,
            (c.old_in, c.old_out),
            (c.off_in, c.off_out),
        )
        &&& self.at[0] == (c.old_in as int, c.old_out as int)
        &&& forall|k: int| 0 <= k < self.events.len() ==> #[trigger] self.step_at(k)
    }

    /// The file could be put back, if that was tried.
    pub open spec fn put_back_worked(self) -> bool {
        let k = self.events.len() - 1;
        self.calls[k].phase is Restore ==> self.events[k]->Sought_0 is Ok
    }
}

proof fn splice_is_on_the_way(r: SpliceRun, k: int)
    requires
        r.valid(),
        0 <= k < r.calls.len(),
        !(r.calls[k].phase is Over),
    ensures
        ({
            let c = r.calls[k];
            let c0 = r.calls[0];
            &&& c.wf()
            &&& c == (SpliceCall { phase: c.phase, ..c0 })
            &&& match c.phase {
                SplicePhase::Ask => r.actions[k] is CanSeek && r.at[k] == r.at[0],
                SplicePhase::Seek => r.actions[k] == SpliceAction::Seek(
                    (given_side(c.plan)->0).0,
                    (given_side(c.plan)->0).1,
                ) && r.at[k] == r.at[0],
                SplicePhase::Copy => r.actions[k] == SpliceAction::Copy,
                SplicePhase::Restore { .. } => r.actions[k] == SpliceAction::Seek(
                    (given_side(c.plan)->0).0,
                    old_position(c, (given_side(c.plan)->0).0),
                ),
                SplicePhase::Over => false,
            }
        }),
    decreases k,
{
    if k > 0 {
        assert(r.step_at(k - 1));
        splice_is_on_the_way(r, k - 1);
    }
}

/// However a splice ends, a file with a given offset is where it was before, if
/// it could be put back; the offset in user memory changes only if the call
/// succeeds; and no more is moved than was asked for.
pub proof fn splice_leaves_given_files(r: SpliceRun, reply: Reply<SpliceOffsets>)
    requires
        r.valid(),
        r.actions.last() == SpliceAction::Return(reply),
        r.put_back_worked(),
    ensures
        r.calls[0].plan.in_offset is Some ==> r.at.last().0 == r.at[0].0,
        r.calls[0].plan.out_offset is Some ==> r.at.last().1 == r.at[0].1,
        reply.ret is Err ==> (reply.out matches Some(o) ==> o.input is None && o.output is None),
        reply.ret matches Ok(n) ==> n <= r.calls[0].len,
{
    let k = r.events.len() - 1;
    if k < 0 {
        assert(r.actions.last() == r.actions[0]);
    } else {
        assert(r.step_at(k));
        splice_is_on_the_way(r, k);
    }
}

/// Files that can be spliced have at most one given offset: one of them is a pipe,
/// and pipes have none.
pub proof fn one_offset_is_given(
    flags: usize,
    input: SysResult<OpenFile>,
    output: SysResult<OpenFile>,
    input_kind: SysResult<InodeType>,
    off_in: UserIn<i64>,
    off_out: UserIn<i64>,
)
    ensures
        splice_plan(flags, input, output, input_kind, off_in, off_out) matches Ok(p)
            ==> p.in_offset is None || p.out_offset is None,
{
}

/// Starts a copy between two different pipes that leaves the data in the first.
pub fn sys_tee(len: usize, flags: usize, input: SysResult<OpenFile>, output: SysResult<OpenFile>) -> (r:
    Start)
    ensures
        r == tee_start(len, flags, input, output),
{
    if flags & !SPLICE_ALLOWED_FLAGS != 0 {
        return Start::Return(Err(Errno::EINVAL));
    }
    if len == 0 {
        return Start::Return(Ok(0));
    }
    let i = match input {
        Ok(f) => f,
        Err(e) => {
            return Start::Return(Err(e));
        },
    };
    let o = match output {
        Ok(f) => f,
        Err(e) => {
            return Start::Return(Err(e));
        },
    };
    match i.pipe {
        None => {
            return Start::Return(Err(Errno::EINVAL));
        },
        Some(a) => match o.pipe {
            None => {
                return Start::Return(Err(Errno::EINVAL));
            },
            Some(b) => {
                if a == b {
                    return Start::Return(Err(Errno::EINVAL));
                }
            },
        },
    }
    if !i.readable || !o.writable {
        return Start::Return(Err(Errno::EBADF));
    }
    if flags & SPLICE_F_NONBLOCK != 0 {
        if !i.read_ready || !o.write_ready {
            return Start::Return(Err(Errno::EAGAIN));
        }
    }
    Start::Run(Transfer { len, total: 0, nonblock: false })
}

/// How a copy between pipes starts.
pub open spec fn tee_start(len: usize, flags: usize, input: SysResult<OpenFile>, output: SysResult<OpenFile>) -> Start {
    if flags & !SPLICE_ALLOWED_FLAGS != 0 {
        Start::Return(Err(Errno::EINVAL))
    } else if len == 0 {
        Start::Return(Ok(0))
    } else if input is Err {
        Start::Return(Err(input->Err_0))
    } else if output is Err {
        Start::Return(Err(output->Err_0))
    } else {
        let i = input->Ok_0;
        let o = output->Ok_0;
        if i.pipe is None || o.pipe is None || i.pipe == o.pipe {
            Start::Return(Err(Errno::EINVAL))
        } else if !i.readable || !o.writable {
            Start::Return(Err(Errno::EBADF))
        } else if flags & SPLICE_F_NONBLOCK != 0 && (!i.read_ready || !o.write_ready) {
            Start::Return(Err(Errno::EAGAIN))
        } else {
            Start::Run(fresh(len, false))
        }
    }
}

/// Which way a transfer between memory and a pipe goes.
#[derive(Debug, Clone, Copy, PartialEq, Eq, Structural)]
pub enum Direction {
    ToPipe,
    FromPipe,
}

/// Which way pages go between buffers and a pipe.
pub open spec fn gift_direction(
    flags: usize,
    file: SysResult<OpenFile>,
    items: SysResult<()>,
    readable_buffers: SysResult<()>,
    writable_buffers: SysResult<()>,
) -> SysResult<Direction> {
    if flags & !SPLICE_ALLOWED_FLAGS != 0 {
        Err::<Direction, Errno>(Errno::EINVAL)
    } else {
        match file {
            Err(e) => Err(e),
            Ok(f) => if f.pipe is None {
                Err(Errno::EBADF)
            } else if items is Err {
                Err(items->Err_0)
            } else if f.writable {
                match readable_buffers {
                    Err(e) => Err(e),
                    Ok(_) => Ok(Direction::ToPipe),
                }
            } else if f.readable {
                match writable_buffers {
                    Err(e) => Err(e),
                    Ok(_) => Ok(Direction::FromPipe),
                }
            } else {
                Err(Errno::EBADF)
            },
        }
    }
}

/// Checks a transfer between memory and a pipe: the writing end takes data, the
/// reading end gives it. `items` and the buffers are checked in that order.
pub fn sys_vmsplice(
    flags: usize,
    file: SysResult<OpenFile>,
    items: SysResult<()>,
    readable_buffers: SysResult<()>,
    writable_buffers: SysResult<()>,
) -> (r: SysResult<Direction>)
    ensures
        r == gift_direction(flags, file, items, readable_buffers, writable_buffers),
{
    if flags & !SPLICE_ALLOWED_FLAGS != 0 {
        return Err(Errno::EINVAL);
    }
    let f = match file {
        Ok(f) => f,
        Err(e) => {
            return Err(e);
        },
    };
    if f.pipe.is_none() {
        return Err(Errno::EBADF);
    }
    match items {
        Err(e) => {
            return Err(e);
        },
        Ok(_) => {},
    }
    if f.writable {
        match readable_buffers {
            Err(e) => Err(e),
            Ok(_) => Ok(Direction::ToPipe),
        }
    } else if f.readable {
        match writable_buffers {
            Err(e) => Err(e),
            Ok(_) => Ok(Direction::FromPipe),
        }
    } else {
        Err(Errno::EBADF)
    }
}

/// How much of a buffer goes into a pipe with `room` left.
pub open spec fn gift_len(
    g: Gather,
    len: usize,
    room: usize,
    flags: usize,
) -> Result<usize, SysResult<usize>> {
    if room != 0 {
        Ok::<usize, SysResult<usize>>(
            if len < room {
                len
            } else {
                room
            },
        )
    } else if flags & SPLICE_F_NONBLOCK != 0 {
        Err(
            if g.total > 0 {
                ok(g.total)
            } else {
                err(Errno::EAGAIN)
            },
        )
    } else {
        Ok(1)
    }
}

/// The next piece of a transfer into a pipe with `room` bytes left: how much of
/// it is written. A full pipe ends a transfer that must not wait, and gets one
/// byte otherwise.
pub fn vmsplice_write_len(g: &Gather, len: usize, room: usize, flags: usize) -> (r: Result<
    usize,
    SysResult<usize>,
>)
    ensures
        r == gift_len(*g, len, room, flags),
{
    if room != 0 {
        return if len < room {
            Ok(len)
        } else {
            Ok(room)
        };
    }
    if flags & SPLICE_F_NONBLOCK != 0 {
        return if g.total > 0 {
            Err(Ok(g.total))
        } else {
            Err(Err(Errno::EAGAIN))
        };
    }
    Ok(1)
}

/// Whether taking from a pipe ends, and how.
pub open spec fn gift_end(g: Gather, ready: bool, flags: usize) -> Option<SysResult<usize>> {
    if flags & SPLICE_F_NONBLOCK != 0 && !ready {
        Some(
            if g.total > 0 {
                ok(g.total)
            } else {
                err(Errno::EAGAIN)
            },
        )
    } else {
        None
    }
}

/// Whether a transfer out of a pipe that must not wait ends before its next
/// piece.
pub fn vmsplice_read_end(g: &Gather, ready: bool, flags: usize) -> (r: Option<SysResult<usize>>)
    ensures
        r == gift_end(*g, ready, flags),
{
    if flags & SPLICE_F_NONBLOCK != 0 && !ready {
        return if g.total > 0 {
            Some(Ok(g.total))
        } else {
            Some(Err(Errno::EAGAIN))
        };
    }
    None
}

/// A chunk never goes past what is still to be moved nor over 65536 bytes, and is the largest
/// that keeps both.
pub proof fn chunks_are_as_large_as_allowed(t: Transfer, ready: bool)
    requires
        t.wf(),
    ensures
        before_chunk(t, ready) matches Step::Chunk(n) ==> {
            &&& 0 < n <= 65536
            &&& t.total + n <= t.len
            &&& n == 65536 || t.total + n == t.len
        },
        (before_chunk(t, ready) is Chunk) == (t.total < t.len && (ready || !t.nonblock)),
        t.total == t.len ==> before_chunk(t, ready) == Step::Return(Ok(t.len)),
        t.total < t.len && t.nonblock && !ready && t.total > 0 ==> before_chunk(t, ready)
            == Step::Return(Ok(t.total)),
        t.total < t.len && t.nonblock && !ready && t.total == 0 ==> before_chunk(t, ready)
            == Step::Return(Err(Errno::EAGAIN)),
{
}

/// A read runs over the whole buffer from its start if the file can be read. An empty read
/// succeeds at once, and only a file that never waits refuses for lack of data.
pub proof fn reads_begin_at_the_buffers_start(
    len: usize,
    buf: SysResult<()>,
    file: SysResult<OpenFile>,
)
    ensures
        len == 0 ==> read_start(len, buf, file) == Start::Return(Ok(0)),
        read_start(len, buf, file) matches Start::Run(t) ==> (t.len == len && t.total == 0
            && buf is Ok && (file matches Ok(f) && f.readable && t.nonblock == (f.flags & 0o4000
            != 0) && (t.nonblock ==> f.read_ready))),
        len > 0 && buf is Ok && (file matches Ok(f) && f.readable && (f.read_ready || f.flags
            & 0o4000 == 0)) ==> read_start(len, buf, file) is Run,
        len > 0 && buf is Ok && (file matches Ok(f) && !f.readable) ==> read_start(len, buf, file)
            == Start::Return(Err(Errno::EBADF)),
        len > 0 && buf is Ok && (file matches Ok(f) && f.readable && !f.read_ready && f.flags
            & 0o4000 != 0) ==> read_start(len, buf, file) == Start::Return(Err(Errno::EAGAIN)),
        len > 0 ==> (buf matches Err(e) ==> read_start(len, buf, file) == Start::Return(Err(e))),
        len > 0 && buf is Ok ==> (file matches Err(e) ==> read_start(len, buf, file)
            == Start::Return(Err(e))),
{
}

/// A write runs over the whole buffer from its start if the file can be written.
pub proof fn writes_begin_at_the_buffers_start(len: usize, file: SysResult<OpenFile>)
    ensures
        len == 0 ==> write_start(len, file) == Start::Return(Ok(0)),
        write_start(len, file) matches Start::Run(t) ==> (t.len == len && t.total == 0 && (
        file matches Ok(f) && f.writable && t.nonblock == (f.flags & 0o4000 != 0))),
        len > 0 ==> (file matches Ok(f) ==> (write_start(len, file) is Run) == f.writable),
        len > 0 ==> (file matches Ok(f) ==> !f.writable ==> write_start(len, file)
            == Start::Return(Err(Errno::EBADF))),
        len > 0 ==> (file matches Err(e) ==> write_start(len, file) == Start::Return(Err(e))),
{
}

/// What a transfer has moved grows by what each chunk moved. A read goes on only after a full
/// chunk, and any failure of it is the result of the call.
pub proof fn reads_count_what_they_read(
    before: Transfer,
    after: Transfer,
    chunk: usize,
    read: SysResult<usize>,
    copied: SysResult<()>,
    r: Option<SysResult<usize>>,
)
    requires
        chunk_read(before, after, chunk, read, copied, r),
        read matches Ok(n) ==> n <= chunk,
        chunk > 0,
    ensures
        read matches Err(e) ==> r == Some(err(e)) && after.total == before.total,
        read matches Ok(n) ==> {
            &&& copied is Ok ==> after.total - before.total == n
            &&& copied is Ok && n == chunk ==> r is None
            &&& copied is Ok && n < chunk ==> r == Some(ok(after.total))
            &&& n > 0 ==> (copied matches Err(e) ==> r == Some(err(e)) && after.total
                == before.total)
        },
{
}

/// A write counts what each chunk wrote, goes on only after a full chunk, and reports a failure
/// only where nothing was written before it.
pub proof fn writes_count_what_they_wrote(
    before: Transfer,
    after: Transfer,
    chunk: usize,
    written: SysResult<usize>,
    r: Option<SysResult<usize>>,
)
    requires
        chunk_stored(before, after, chunk, Ok(()), written, r),
        written matches Ok(n) ==> n <= chunk,
    ensures
        written matches Ok(n) ==> {
            &&& after.total - before.total == n
            &&& n == chunk ==> r is None
            &&& n < chunk ==> r == Some(ok(after.total))
        },
        written matches Err(e) ==> {
            &&& after == before
            &&& before.total == 0 ==> r == Some(err(e))
            &&& before.total > 0 ==> r == Some(ok(before.total))
        },
{
}

/// A chunk that cannot be taken from the caller ends a write with that error, whatever was
/// written before.
pub proof fn unreadable_chunks_end_a_write(
    before: Transfer,
    after: Transfer,
    chunk: usize,
    e: Errno,
    written: SysResult<usize>,
    r: Option<SysResult<usize>>,
)
    requires
        chunk_stored(before, after, chunk, Err(e), written, r),
    ensures
        r == Some(err(e)) && after == before,
{
}

/// A copy between two files counts what reached the output and goes on only while both sides
/// move full chunks.
pub proof fn copies_count_what_arrived(
    before: Transfer,
    after: Transfer,
    chunk: usize,
    read: usize,
    moved: SysResult<usize>,
    r: Option<SysResult<usize>>,
)
    requires
        chunk_copied(before, after, chunk, Ok(read), moved, r),
        0 < read <= chunk,
        moved matches Ok(m) ==> m <= read,
    ensures
        moved matches Ok(m) ==> after.total - before.total == m && (r is None) == (m == chunk) && (m
            < chunk ==> r == Some(ok(after.total))),
        moved matches Err(e) ==> after == before && (before.total > 0 ==> r == Some(
            ok(before.total),
        )) && (before.total == 0 ==> r == Some(err(e))),
{
}

/// A copy stops with what it has when the input ends or fails.
pub proof fn copies_end_with_their_input(
    before: Transfer,
    after: Transfer,
    chunk: usize,
    read: SysResult<usize>,
    moved: SysResult<usize>,
    r: Option<SysResult<usize>>,
)
    requires
        chunk_copied(before, after, chunk, read, moved, r),
        read is Err || read == ok(0),
    ensures
        after == before,
        before.total > 0 || read is Ok ==> r == Some(ok(before.total)),
        before.total == 0 ==> r == Some(read),
{
}

/// A part is written when all of it was, or when the file takes no more.
pub proof fn parts_are_written_to_their_end(
    before: usize,
    after: usize,
    len: usize,
    written: SysResult<usize>,
    r: Option<SysResult<usize>>,
)
    requires
        part_written(before, after, len, written, r),
    ensures
        written matches Ok(n) ==> after - before == n && (r is None) == (n > 0 && after != len) && (
        r is Some ==> r == Some(ok(after))),
        written matches Err(e) ==> after == before && r == Some(err(e)),
{
}

/// A list of buffers is taken as it stands if it has at most 1024 entries and their lengths
/// add up to no more than the largest signed word.
pub proof fn buffer_lists_are_bounded(iovcnt: usize, v: Vec<IoVec>, r: SysResult<Vec<IoVec>>)
    requires
        iovecs_read(iovcnt, UserIn::Value(v), r),
        v@.len() == iovcnt,
    ensures
        r matches Ok(items) ==> items@ =~= v@ && iovcnt <= 1024 && total_len(items@) <= isize::MAX,
        (r is Ok) == (iovcnt <= 1024 && total_len(v@) <= isize::MAX),
        r matches Err(e) ==> e == Errno::EINVAL,
{
    if iovcnt == 0 {
        assert(v@.len() == 0);
    }
}

/// A call over several buffers returns the bytes of the full buffers and of the first one that
/// fell short, if buffers before that one were full.
pub proof fn vectored_calls_add_up(
    items: Seq<IoVec>,
    moved: Seq<SysResult<usize>>,
    total: int,
    k: int,
)
    requires
        0 <= k < moved.len() <= items.len(),
        total >= 0,
        forall|i: int| 0 <= i < k ==> #[trigger] moved[i] == ok(items[i].len),
        items[k].len > 0,
        total + total_len(items) <= usize::MAX,
    ensures
        moved[k] matches Ok(n) ==> n < items[k].len ==> vectored_result(items, moved, total) == ok(
            (total + total_len(items.take(k)) + n) as usize,
        ),
        moved[k] matches Err(e) ==> (total + total_len(items.take(k)) > 0 ==> vectored_result(
            items,
            moved,
            total,
        ) == ok((total + total_len(items.take(k))) as usize)) && (total + total_len(items.take(k))
            == 0 ==> vectored_result(items, moved, total) == err(e)),
    decreases items.len(),
{
    if k == 0 {
        assert(items.take(0) =~= Seq::empty());
    } else {
        assert(moved[0] == ok(items[0].len));
        let rest = items.drop_first();
        assert(moved.drop_first()[k - 1] == moved[k]);
        assert(rest[k - 1] == items[k]);
        total_len_first(items);
        total_len_first(items.take(k));
        assert(items.take(k).drop_first() =~= rest.take(k - 1));
        assert forall|i: int| 0 <= i < k - 1 implies #[trigger] moved.drop_first()[i] == ok(
            rest[i].len,
        ) by {
            assert(moved[i + 1] == ok(items[i + 1].len));
        }
        vectored_calls_add_up(rest, moved.drop_first(), total + items[0].len, k - 1);
    }
}

/// A call over several buffers that were all filled returns their whole length.
pub proof fn full_buffers_count_in_full(items: Seq<IoVec>, moved: Seq<SysResult<usize>>, total: int)
    requires
        moved.len() == items.len(),
        total >= 0,
        forall|i: int| 0 <= i < moved.len() ==> #[trigger] moved[i] == ok(items[i].len),
        total + total_len(items) <= usize::MAX,
    ensures
        vectored_result(items, moved, total) == ok((total + total_len(items)) as usize),
    decreases items.len(),
{
    if items.len() > 0 {
        assert(moved[0] == ok(items[0].len));
        total_len_first(items);
        assert forall|i: int| 0 <= i < moved.drop_first().len() implies
            #[trigger] moved.drop_first()[i] == ok(items.drop_first()[i].len) by {
            assert(moved[i + 1] == ok(items[i + 1].len));
        }
        full_buffers_count_in_full(items.drop_first(), moved.drop_first(), total + items[0].len);
    }
}

/// An extended call takes no flags, uses the file's own position for the offset -1 and the
/// offset given otherwise.
pub proof fn extended_calls_take_no_flags(offset: isize, flags: i32)
    ensures
        flags != 0 ==> extended_call(offset, flags) == Err::<VectoredCall, Errno>(
            Errno::EOPNOTSUPP,
        ),
        flags == 0 && offset == -1 ==> extended_call(offset, flags) == Ok::<VectoredCall, Errno>(
            VectoredCall::Plain,
        ),
        flags == 0 && offset != -1 ==> extended_call(offset, flags) == Ok::<VectoredCall, Errno>(
            VectoredCall::At(offset),
        ),
{
}

/// A splice has a pipe on at least one side and an offset only for a side that is none. The
/// offsets of its plan are those given.
pub proof fn splices_go_through_a_pipe(
    flags: usize,
    input: OpenFile,
    output: OpenFile,
    kind: SysResult<InodeType>,
    off_in: UserIn<i64>,
    off_out: UserIn<i64>,
)
    ensures
        splice_plan(flags, Ok(input), Ok(output), kind, off_in, off_out) matches Ok(p) ==> {
            &&& flags & !0xfusize == 0
            &&& input.pipe is Some || output.pipe is Some
            &&& input.readable && input.flags & 1 == 0
            &&& output.writable && output.flags & 0o2000 == 0
            &&& p.in_offset is Some ==> input.pipe is None
            &&& p.out_offset is Some ==> output.pipe is None
            &&& p.in_offset is Some == off_in is Value
            &&& p.out_offset is Some == off_out is Value
            &&& off_in matches UserIn::Value(v) ==> v >= 0 && p.in_offset == Some(v as usize)
            &&& off_out matches UserIn::Value(v) ==> v >= 0 && p.out_offset == Some(v as usize)
        },
        flags & !0xfusize != 0 ==> splice_plan(
            flags,
            Ok(input),
            Ok(output),
            kind,
            off_in,
            off_out,
        ) == Err::<SplicePlan, Errno>(Errno::EINVAL),
        flags & !0xfusize == 0 && input.flags & 0o10000000 == 0 && output.flags & 0o10000000 == 0
            && (input.pipe is Some || output.pipe is Some) && input.readable && input.flags & 1 == 0
            && output.writable && output.flags & 0o2000 == 0 && off_in is Null && off_out is Null
            && (input.pipe is Some || kind == Ok::<InodeType, Errno>(InodeType::Regular))
            ==> splice_plan(flags, Ok(input), Ok(output), kind, off_in, off_out) is Ok,
        input.flags & 0o10000000 == 0 && output.flags & 0o10000000 == 0 && input.pipe is Some
            && !(off_in is Null) && flags & !0xfusize == 0 ==> splice_plan(
            flags,
            Ok(input),
            Ok(output),
            kind,
            off_in,
            off_out,
        ) == Err::<SplicePlan, Errno>(Errno::ESPIPE),
{
}

/// Duplicating pipe contents needs two different pipes, one to read and one to write.
pub proof fn tees_join_two_pipes(len: usize, flags: usize, input: OpenFile, output: OpenFile)
    ensures
        tee_start(len, flags, Ok(input), Ok(output)) matches Start::Run(t) ==> t.len == len
            && t.total == 0 && input.pipe is Some && output.pipe is Some && input.pipe
            != output.pipe && input.readable && output.writable && len > 0,
        flags & !0xfusize != 0 ==> tee_start(len, flags, Ok(input), Ok(output)) == Start::Return(
            Err(Errno::EINVAL),
        ),
        flags & !0xfusize == 0 && len == 0 ==> tee_start(len, flags, Ok(input), Ok(output))
            == Start::Return(Ok(0)),
        flags & !0xfusize == 0 && len > 0 && input.pipe is Some && output.pipe is Some && input.pipe
            != output.pipe && input.readable && output.writable ==> (if flags & 2 != 0 && !(
        input.read_ready && output.write_ready) {
            tee_start(len, flags, Ok(input), Ok(output)) == Start::Return(Err(Errno::EAGAIN))
        } else {
            tee_start(len, flags, Ok(input), Ok(output)) is Run
        }),
{
}

/// Where a pipe has room for fewer bytes than a chunk, only that many are taken, and at least
/// one byte always is.
pub proof fn chunks_fit_the_room(t: Transfer, room: Option<usize>)
    requires
        t.total < t.len,
    ensures
        0 < chunk_for_room(t, room) <= 65536,
        t.total + chunk_for_room(t, room) <= t.len,
        room matches Some(r) ==> r > 0 ==> chunk_for_room(t, room) <= r,
        room matches Some(r) ==> r == 0 ==> chunk_for_room(t, room) == 1,
        chunk_for_room(t, room) == 65536 || t.total + chunk_for_room(t, room) == t.len || (
        room matches Some(r) && (chunk_for_room(t, room) == r || r == 0)),
{
}

/// Pages go to a pipe that can be written and from one that can only be read.
pub proof fn gifts_follow_the_pipes_side(flags: usize, f: OpenFile)
    ensures
        flags & !0xfusize == 0 && f.pipe is Some && f.writable ==> gift_direction(
            flags,
            Ok(f),
            Ok(()),
            Ok(()),
            Ok(()),
        ) == Ok::<Direction, Errno>(Direction::ToPipe),
        flags & !0xfusize == 0 && f.pipe is Some && !f.writable && f.readable ==> gift_direction(
            flags,
            Ok(f),
            Ok(()),
            Ok(()),
            Ok(()),
        ) == Ok::<Direction, Errno>(Direction::FromPipe),
        flags & !0xfusize == 0 && (f.pipe is None || (!f.writable && !f.readable))
            ==> gift_direction(flags, Ok(f), Ok(()), Ok(()), Ok(())) == Err::<Direction, Errno>(
            Errno::EBADF,
        ),
        flags & !0xfusize != 0 ==> gift_direction(flags, Ok(f), Ok(()), Ok(()), Ok(())) == Err::<
            Direction,
            Errno,
        >(Errno::EINVAL),
{
}

/// A buffer goes into a pipe as far as there is room. A full pipe ends a call that does not
/// wait, with what it has or with an error where that is nothing; taking from an empty pipe
/// ends in the same way.
pub proof fn gifts_fit_the_room(g: Gather, len: usize, room: usize, flags: usize, ready: bool)
    ensures
        room > 0 ==> (gift_len(g, len, room, flags) matches Ok(n) && n <= len && n <= room && (n
            == len || n == room)),
        room == 0 && flags & 2 == 0 ==> (gift_len(g, len, room, flags) matches Ok(n) && n == 1),
        room == 0 && flags & 2 != 0 ==> (gift_len(g, len, room, flags) matches Err(x) && (g.total
            > 0 ==> x == ok(g.total)) && (g.total == 0 ==> x == err(Errno::EAGAIN))),
        (gift_end(g, ready, flags) is Some) == (!ready && flags & 2 != 0),
        gift_end(g, ready, flags) matches Some(x) ==> (g.total > 0 ==> x == ok(g.total)) && (g.total
            == 0 ==> x == err(Errno::EAGAIN)),
{
}

/// A copy begins at once unless nothing is to be copied, or it must not wait and a pipe on
/// either side is not ready.
pub proof fn copies_begin_when_pipes_are_ready(
    len: usize,
    flags: usize,
    input: OpenFile,
    output: OpenFile,
    r: Start,
)
    requires
        copy_start(len, flags, input, output, r),
    ensures
        len == 0 ==> r == Start::Return(Ok(0)),
        r matches Start::Run(t) ==> t.len == len && t.total == 0 && !t.nonblock,
        len > 0 ==> (r is Run) == (flags & 2 == 0 || ((input.pipe is Some ==> input.read_ready) && (
        output.pipe is Some ==> output.write_ready))),
        len > 0 && !(r is Run) ==> r == Start::Return(Err(Errno::EAGAIN)),
{
}

/// The new offset goes back to the caller only for a side whose offset was given, once bytes
/// were moved, and if it is a signed number.
pub proof fn offsets_go_back_where_given(given: bool, moved: bool, off: UserOut, value: u64)
    ensures
        written_offset(given, moved, off, value) matches Ok(Some(v)) ==> given && moved && off
            == UserOut::Writable && v == value,
        given && moved && off == UserOut::Writable && value <= i64::MAX ==> written_offset(
            given,
            moved,
            off,
            value,
        ) == Ok::<Option<i64>, Errno>(Some(value as i64)),
        !given || !moved || off == UserOut::Null ==> written_offset(given, moved, off, value)
            == Ok::<Option<i64>, Errno>(None),
        given && moved && off == UserOut::Fault && value <= i64::MAX ==> written_offset(
            given,
            moved,
            off,
            value,
        ) == Err::<Option<i64>, Errno>(Errno::EFAULT),
{
}

/// A splice returns what it moved and gives each offset back to its own side.
pub proof fn splices_return_what_they_moved(
    plan: SplicePlan,
    n: usize,
    new_in: u64,
    new_out: u64,
)
    requires
        new_in <= i64::MAX,
        new_out <= i64::MAX,
    ensures
        ({
            let r = splice_reply(
                plan,
                Ok(n),
                UserOut::Writable,
                new_in,
                UserOut::Writable,
                new_out,
            );
            &&& r.ret == ok(n)
            &&& r.out matches Some(o) && o.input == (if plan.in_offset is Some {
                Some(new_in as i64)
            } else {
                None
            }) && o.output == (if plan.out_offset is Some {
                Some(new_out as i64)
            } else {
                None
            })
        }),
        forall|e: Errno| #[trigger]
            splice_reply(
                plan,
                Err(e),
                UserOut::Writable,
                new_in,
                UserOut::Writable,
                new_out,
            ).ret == err(e),
{
}

/// A splice with an offset asks whether the file can be moved in, moves there, copies and moves
/// back to where the file was; without one it copies at once.
pub proof fn splices_move_there_and_back(c: SpliceCall, side: Side, at: usize)
    requires
        given_side(c.plan) == Some((side, at)),
    ensures
        c.phase is Ask ==> splice_step(c, SpliceEvent::Asked(Ok(()))).1 == SpliceAction::Seek(
            side,
            at,
        ),
        c.phase is Seek ==> splice_step(c, SpliceEvent::Sought(Ok(()))).1 == SpliceAction::Copy,
        c.phase is Copy ==> forall|moved: SysResult<usize>, i: u64, o: u64|
            (#[trigger] splice_step(c, SpliceEvent::Copied { moved, new_in: i, new_out: o })).1
                == SpliceAction::Seek(
                side,
                if side == Side::Input {
                    c.old_in
                } else {
                    c.old_out
                },
            ),
        c.plan.in_offset matches Some(o) ==> side == Side::Input && at == o,
        c.plan.in_offset is None ==> side == Side::Output && c.plan.out_offset == Some(at),
{
}

} // verus!
