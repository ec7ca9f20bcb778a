//! Calls that open, make, link, rename and walk files by their paths.

use crate::errno::{err, ok, Errno, SysResult};
use crate::syscall::fd::{allocated, FdEntry, FdTable};
use crate::syscall::file::InodeType;
use crate::seqs::copy_range;
use crate::text::{chars_of, holds_at, same_text, starts_with};
use crate::user::{failed, read_result, silent, Reply, UserIn, UserOut};
use vstd::prelude::*;
use vstd::utf8::encode_utf8;

verus! {

/// A file as it was opened: its identity, and whether it is a named pipe.
#[derive(Debug, Clone, Copy, PartialEq, Eq, Structural)]
pub struct Opened {
    pub file: usize,
    pub fifo: bool,
}

/// The file that a new descriptor stands for: a named pipe is opened as such.
pub open spec fn opened_file(
    path: SysResult<()>,
    opened: SysResult<Opened>,
    fifo: SysResult<usize>,
) -> SysResult<usize> {
    match path {
        Err(e) => Err(e),
        Ok(_) => match opened {
            Err(e) => Err(e),
            Ok(o) => if o.fifo {
                fifo
            } else {
                Ok(o.file)
            },
        },
    }
}

/// Gives a file that was opened by its path a descriptor.
pub fn sys_openat(
    table: &mut FdTable,
    path: SysResult<()>,
    flags: u32,
    opened: SysResult<Opened>,
    fifo: SysResult<usize>,
) -> (r: SysResult<usize>)
    requires
        old(table).wf(),
    ensures
        final(table).wf(),
        final(table).limit == old(table).limit,
        match opened_file(path, opened, fifo) {
            Err(e) => r == err(e) && *final(table) == *old(table),
            Ok(file) => allocated(*old(table), *final(table), FdEntry { file, flags }, 0, r),
        },
{
    match path {
        Err(e) => {
            return Err(e);
        },
        Ok(_) => {},
    }
    let o = match opened {
        Ok(o) => o,
        Err(e) => {
            return Err(e);
        },
    };
    let file: usize = if o.fifo {
        match fifo {
            Ok(f) => f,
            Err(e) => {
                return Err(e);
            },
        }
    } else {
        o.file
    };
    table.alloc_fd(FdEntry { file, flags })
}

/// How a file is to be opened.
#[derive(Debug, Clone, Copy, PartialEq, Eq, Structural)]
pub struct OpenHow {
    pub flags: u64,
    pub mode: u64,
    pub resolve: u64,
}

/// Bytes of an `OpenHow`.
pub const OPEN_HOW_SIZE: usize = 24;

pub const RESOLVE_NO_XDEV: u64 = 0x01;

pub const RESOLVE_NO_MAGICLINKS: u64 = 0x02;

pub const RESOLVE_NO_SYMLINKS: u64 = 0x04;

pub const RESOLVE_BENEATH: u64 = 0x08;

pub const RESOLVE_IN_ROOT: u64 = 0x10;

/// All resolution flags.
pub const RESOLVE_ALLOWED: u64 = 0x1f;

/// RESOLVE_NO_XDEV and RESOLVE_BENEATH.
pub const RESOLVE_STAY: u64 = 0x09;

/// The flags under which a file may come into being: O_CREAT and O_TMPFILE.
pub const CREATING_FLAGS: u64 = 0o20200100;

/// What the request itself says: its size, what follows a longer one, and the
/// combinations of its fields.
pub open spec fn how_checked(how: UserIn<OpenHow>, size: usize, extra: UserIn<Vec<u8>>) -> SysResult<
    OpenHow,
> {
    if size < OPEN_HOW_SIZE {
        Err(Errno::EINVAL)
    } else {
        match read_result(how) {
            Err(e) => Err(e),
            Ok(h) => if size > OPEN_HOW_SIZE && !(extra is Value) {
                Err(Errno::EFAULT)
            } else if size > OPEN_HOW_SIZE && !all_zero(extra->Value_0@) {
                Err(Errno::E2BIG)
            } else if h.resolve & !RESOLVE_ALLOWED != 0 || h.mode & !0o7777 != 0 {
                Err(Errno::EINVAL)
            } else if h.flags & CREATING_FLAGS == 0 && h.mode != 0 {
                Err(Errno::EINVAL)
            } else if h.flags & 3 == 3 {
                Err(Errno::EINVAL)
            } else {
                Ok(h)
            },
        }
    }
}

/// All bytes are zero.
pub open spec fn all_zero(s: Seq<u8>) -> bool {
    forall|i: int| 0 <= i < s.len() ==> #[trigger] s[i] == 0
}

fn is_all_zero(v: &Vec<u8>) -> (r: bool)
    ensures
        r == all_zero(v@),
{
    let mut i: usize = 0;
    while i < v.len()
        invariant
            i <= v@.len(),
            forall|j: int| 0 <= j < i ==> #[trigger] v@[j] == 0,
        decreases v@.len() - i,
    {
        if v[i] != 0 {
            return false;
        }
        i = i + 1;
    }
    true
}

/// A path into the process file system or out of the starting directory.
pub open spec fn leaves(path: Seq<char>) -> bool {
    holds_at(path, "/proc/"@, 0) || path == "/proc"@ || holds_at(path, "../"@, 0)
}

/// What the resolution flags say of a path; `last` is the kind of the file at
/// its end, links not followed.
pub open spec fn path_checked(resolve: u64, path: Seq<char>, last: SysResult<InodeType>) -> SysResult<()> {
    if resolve & RESOLVE_IN_ROOT != 0 && holds_at(path, "/"@, 0) {
        Err(Errno::ENOENT)
    } else if resolve & RESOLVE_STAY != 0 && leaves(path) {
        Err(Errno::EXDEV)
    } else if resolve & RESOLVE_NO_MAGICLINKS != 0 && path == "/proc/self/exe"@ {
        Err(Errno::ELOOP)
    } else if resolve & RESOLVE_NO_SYMLINKS != 0 {
        match last {
            Err(e) => Err(e),
            Ok(k) => if k == InodeType::SymLink {
                Err(Errno::ELOOP)
            } else {
                Ok(())
            },
        }
    } else {
        Ok(())
    }
}

/// What a checked request to open a file comes to.
pub open spec fn openat2_result(
    path: SysResult<String>,
    how: UserIn<OpenHow>,
    size: usize,
    extra: UserIn<Vec<u8>>,
    last: SysResult<InodeType>,
) -> SysResult<(usize, usize)> {
    match how_checked(how, size, extra) {
        Err(e) => Err::<(usize, usize), Errno>(e),
        Ok(h) => match path {
            Err(e) => Err(e),
            Ok(p) => match path_checked(h.resolve, p@, last) {
                Err(e) => Err(e),
                Ok(_) => Ok((h.flags as usize, h.mode as usize)),
            },
        },
    }
}

/// Checks a request to open a file; what is left of it is an ordinary one with
/// the flags and mode that are returned.
pub fn sys_openat2(
    path: SysResult<String>,
    how: UserIn<OpenHow>,
    size: usize,
    extra: UserIn<Vec<u8>>,
    last: SysResult<InodeType>,
) -> (r: SysResult<(usize, usize)>)
    ensures
        r == openat2_result(path, how, size, extra, last),
{
    if size < OPEN_HOW_SIZE {
        return Err(Errno::EINVAL);
    }
    let h = match how.read() {
        Ok(h) => h,
        Err(e) => {
            return Err(e);
        },
    };
    if size > OPEN_HOW_SIZE {
        match extra.read() {
            Err(e) => {
                return Err(e);
            },
            Ok(v) => {
                if !is_all_zero(&v) {
                    return Err(Errno::E2BIG);
                }
            },
        }
    }
    if h.resolve & !RESOLVE_ALLOWED != 0 || h.mode & !0o7777 != 0 {
        return Err(Errno::EINVAL);
    }
    if h.flags & CREATING_FLAGS == 0 && h.mode != 0 {
        return Err(Errno::EINVAL);
    }
    if h.flags & 3 == 3 {
        return Err(Errno::EINVAL);
    }
    let p = match path {
        Ok(p) => p,
        Err(e) => {
            return Err(e);
        },
    };
    let s = p.as_str();
    if h.resolve & RESOLVE_IN_ROOT != 0 && starts_with(s, "/") {
        return Err(Errno::ENOENT);
    }
    if h.resolve & RESOLVE_STAY != 0 && (starts_with(s, "/proc/") || same_text(s, "/proc")
        || starts_with(s, "../")) {
        return Err(Errno::EXDEV);
    }
    if h.resolve & RESOLVE_NO_MAGICLINKS != 0 && same_text(s, "/proc/self/exe") {
        return Err(Errno::ELOOP);
    }
    if h.resolve & RESOLVE_NO_SYMLINKS != 0 {
        match last {
            Err(e) => {
                return Err(e);
            },
            Ok(InodeType::SymLink) => {
                return Err(Errno::ELOOP);
            },
            Ok(_) => {},
        }
    }
    Ok((h.flags as usize, h.mode as usize))
}

/// A file to be made.
#[derive(Debug)]
pub struct Creation {
    pub path: String,
    pub kind: InodeType,
    pub mode: usize,
}

/// The directory that is asked for.
pub open spec fn directory_made(path: SysResult<String>, mode: usize) -> SysResult<Creation> {
    match path {
        Err(e) => Err::<Creation, Errno>(e),
        Ok(p) => Ok(Creation { path: p, kind: InodeType::Directory, mode }),
    }
}

/// What a request for a directory asks for.
pub fn sys_mkdirat(path: SysResult<String>, mode: usize) -> (r: SysResult<Creation>)
    ensures
        r == directory_made(path, mode),
{
    match path {
        Err(e) => Err(e),
        Ok(p) => Ok(Creation { path: p, kind: InodeType::Directory, mode }),
    }
}

/// The bits of a mode that hold the kind of file.
pub const S_IFMT: usize = 0o170000;

pub const S_IFIFO: usize = 0o010000;

pub const S_IFCHR: usize = 0o020000;

pub const S_IFBLK: usize = 0o060000;

pub const S_IFREG: usize = 0o100000;

pub const S_IFSOCK: usize = 0o140000;

/// The kind of file that a mode asks for. Devices are for the superuser.
pub open spec fn node_kind(mode: usize, fsuid: usize) -> SysResult<InodeType> {
    let k = mode & S_IFMT;
    if k == S_IFIFO {
        Ok(InodeType::Fifo)
    } else if k == S_IFSOCK {
        Ok(InodeType::Socket)
    } else if k == S_IFCHR || k == S_IFBLK {
        if fsuid != 0 {
            Err(Errno::EPERM)
        } else if k == S_IFCHR {
            Ok(InodeType::CharDevice)
        } else {
            Ok(InodeType::BlockDevice)
        }
    } else if k == 0 || k == S_IFREG {
        Ok(InodeType::Regular)
    } else {
        Err(Errno::EINVAL)
    }
}

/// The node that is asked for.
pub open spec fn node_made(
    path: SysResult<String>,
    mode: usize,
    fsuid: usize,
) -> SysResult<Creation> {
    match path {
        Err(e) => Err::<Creation, Errno>(e),
        Ok(p) => match node_kind(mode, fsuid) {
            Err(e) => Err(e),
            Ok(kind) => Ok(Creation { path: p, kind, mode }),
        },
    }
}

/// What a request for a file of any kind asks for.
pub fn sys_mknodat(path: SysResult<String>, mode: usize, fsuid: usize) -> (r: SysResult<Creation>)
    ensures
        r == node_made(path, mode, fsuid),
{
    let p = match path {
        Ok(p) => p,
        Err(e) => {
            return Err(e);
        },
    };
    let k: usize = mode & S_IFMT;
    let kind = if k == S_IFIFO {
        InodeType::Fifo
    } else if k == S_IFSOCK {
        InodeType::Socket
    } else if k == S_IFCHR {
        if fsuid != 0 {
            return Err(Errno::EPERM);
        }
        InodeType::CharDevice
    } else if k == S_IFBLK {
        if fsuid != 0 {
            return Err(Errno::EPERM);
        }
        InodeType::BlockDevice
    } else if k == 0 || k == S_IFREG {
        InodeType::Regular
    } else {
        return Err(Errno::EINVAL);
    };
    Ok(Creation { path: p, kind, mode })
}

/// Two paths, read one after the other.
pub open spec fn two_paths(a: SysResult<String>, b: SysResult<String>) -> SysResult<(String, String)> {
    match a {
        Err(e) => Err(e),
        Ok(x) => match b {
            Err(e) => Err(e),
            Ok(y) => Ok((x, y)),
        },
    }
}

fn read_two(a: SysResult<String>, b: SysResult<String>) -> (r: SysResult<(String, String)>)
    ensures
        r == two_paths(a, b),
{
    match a {
        Err(e) => Err(e),
        Ok(x) => match b {
            Err(e) => Err(e),
            Ok(y) => Ok((x, y)),
        },
    }
}

/// Target and place of a symbolic link.
pub fn sys_symlinkat(target: SysResult<String>, linkpath: SysResult<String>) -> (r: SysResult<
    (String, String),
>)
    ensures
        r == two_paths(target, linkpath),
{
    read_two(target, linkpath)
}

pub const AT_SYMLINK_FOLLOW: usize = 0x400;

/// Value of a decimal digit.
pub open spec fn digit(c: char) -> Option<int> {
    if '0' <= c <= '9' {
        Some(c as int - '0' as int)
    } else {
        None
    }
}

/// Value of a sequence of digits; none if some character is not a digit.
pub open spec fn digits_value(s: Seq<char>) -> Option<int>
    decreases s.len(),
{
    if s.len() == 0 {
        Some(0)
    } else {
        match (digits_value(s.drop_last()), digit(s.last())) {
            (Some(v), Some(d)) => Some(10 * v + d),
            _ => None,
        }
    }
}

/// The number a text stands for: digits, at least one, behind an optional plus
/// sign; none if it is too large.
pub open spec fn number_of(s: Seq<char>) -> Option<usize> {
    let d = if s.len() > 0 && s[0] == '+' {
        s.drop_first()
    } else {
        s
    };
    match digits_value(d) {
        Some(v) => if d.len() > 0 && v <= usize::MAX {
            Some(v as usize)
        } else {
            None
        },
        None => None,
    }
}

proof fn digits_value_prefix(s: Seq<char>, i: int)
    requires
        0 <= i <= s.len(),
        digits_value(s) is Some,
    ensures
        digits_value(s.take(i)) is Some,
        0 <= digits_value(s.take(i))->0 <= digits_value(s)->0,
    decreases s.len() - i,
{
    if i < s.len() {
        digits_value_prefix(s, i + 1);
        assert(s.take(i + 1).drop_last() =~= s.take(i));
        digits_value_nonneg(s.take(i));
    } else {
        assert(s.take(i) =~= s);
        digits_value_nonneg(s);
    }
}

proof fn digits_value_nonneg(s: Seq<char>)
    requires
        digits_value(s) is Some,
    ensures
        digits_value(s)->0 >= 0,
    decreases s.len(),
{
    if s.len() > 0 {
        digits_value_nonneg(s.drop_last());
    }
}

/// Reads the number that the characters from `from` on stand for.
pub fn parse_number(s: &Vec<char>, from: usize) -> (r: Option<usize>)
    requires
        from <= s@.len(),
    ensures
        r == number_of(s@.skip(from as int)),
{
    let ghost t = s@.skip(from as int);
    let mut i: usize = from;
    if i < s.len() && s[i] == '+' {
        i = i + 1;
    }
    let start: usize = i;
    let ghost d = s@.skip(start as int);
    proof {
        if start > from {
            assert(t[0] == s@[from as int]);
            assert(d =~= t.drop_first());
        } else {
            if from < s@.len() {
                assert(t[0] == s@[from as int]);
            }
            assert(d == t);
        }
        assert(d.take(0) =~= Seq::<char>::empty());
    }
    if start == s.len() {
        return None;
    }
    let mut v: usize = 0;
    while i < s.len()
        invariant
            start <= i <= s@.len(),
            d == s@.skip(start as int),
            start < s@.len(),
            digits_value(d.take(i - start)) == Some(v as int),
            number_of(t) == (match digits_value(d) {
                Some(v) => if d.len() > 0 && v <= usize::MAX {
                    Some(v as usize)
                } else {
                    None
                },
                None => None,
            }),
            t == s@.skip(from as int),
        decreases s@.len() - i,
    {
        let c = s[i];
        proof {
            let k = i - start;
            assert(d.take(k + 1).drop_last() =~= d.take(k));
            assert(d.take(k + 1).last() == c);
            if digits_value(d) is Some {
                digits_value_prefix(d, k + 1);
            }
        }
        if c < '0' || c > '9' {
            return None;
        }
        let n: usize = (c as u32 - '0' as u32) as usize;
        v = match v.checked_mul(10) {
            Some(w) => match w.checked_add(n) {
                Some(x) => x,
                None => {
                    return None;
                },
            },
            None => {
                return None;
            },
        };
        i = i + 1;
    }
    proof {
        assert(d.take(i - start) =~= d);
    }
    Some(v)
}

/// The descriptor that a path of the process file system names.
pub open spec fn own_fd(path: Seq<char>) -> Option<usize> {
    let prefix = "/proc/self/fd/"@;
    if holds_at(path, prefix, 0) {
        number_of(path.skip(prefix.len() as int))
    } else {
        None
    }
}

/// A link to be made.
#[derive(Debug)]
pub struct LinkPlan {
    pub oldpath: String,
    pub newpath: String,
    /// The descriptor that is looked at first.
    pub fd: Option<usize>,
}

/// The link that is asked for.
pub open spec fn link_plan(
    oldpath: SysResult<String>,
    newpath: SysResult<String>,
    flags: usize,
) -> SysResult<LinkPlan> {
    if flags & !AT_SYMLINK_FOLLOW != 0 {
        Err::<LinkPlan, Errno>(Errno::EINVAL)
    } else {
        match two_paths(oldpath, newpath) {
            Err(e) => Err(e),
            Ok((a, b)) => Ok(
                LinkPlan {
                    oldpath: a,
                    newpath: b,
                    fd: if flags & AT_SYMLINK_FOLLOW != 0 {
                        own_fd(a@)
                    } else {
                        None
                    },
                },
            ),
        }
    }
}

/// What a request for a link asks for.
pub fn sys_linkat(oldpath: SysResult<String>, newpath: SysResult<String>, flags: usize) -> (r: SysResult<
    LinkPlan,
>)
    ensures
        r == link_plan(oldpath, newpath, flags),
{
    if flags & !AT_SYMLINK_FOLLOW != 0 {
        return Err(Errno::EINVAL);
    }
    let (a, b) = match read_two(oldpath, newpath) {
        Ok(p) => p,
        Err(e) => {
            return Err(e);
        },
    };
    let mut fd: Option<usize> = None;
    if flags & AT_SYMLINK_FOLLOW != 0 && starts_with(a.as_str(), "/proc/self/fd/") {
        let s = chars_of(a.as_str());
        proof {
            reveal_strlit("/proc/self/fd/");
        }
        fd = parse_number(&s, 14);
    }
    Ok(LinkPlan { oldpath: a, newpath: b, fd })
}

/// What a link is made to.
#[derive(Debug, Clone, Copy, PartialEq, Eq, Structural)]
pub enum LinkSource {
    /// The nameless file behind the descriptor.
    Nameless,
    /// The file at the old path.
    Path,
}

/// Decides what a link is made to. `nameless` tells of the descriptor of the
/// plan whether it stands for a file without a name.
pub fn linkat_source(fd: Option<usize>, nameless: SysResult<bool>) -> (r: SysResult<LinkSource>)
    ensures
        r == (match fd {
            None => Ok::<LinkSource, Errno>(LinkSource::Path),
            Some(_) => match nameless {
                Err(e) => Err(e),
                Ok(b) => Ok(
                    if b {
                        LinkSource::Nameless
                    } else {
                        LinkSource::Path
                    },
                ),
            },
        }),
{
    match fd {
        None => Ok(LinkSource::Path),
        Some(_) => match nameless {
            Err(e) => Err(e),
            Ok(b) => if b {
                Ok(LinkSource::Nameless)
            } else {
                Ok(LinkSource::Path)
            },
        },
    }
}

pub const RENAME_NOREPLACE: usize = 1;

pub const RENAME_EXCHANGE: usize = 2;

/// The renaming that is asked for.
pub open spec fn renaming(
    oldpath: SysResult<String>,
    newpath: SysResult<String>,
    flags: usize,
) -> SysResult<(String, String)> {
    if flags & !3 != 0 {
        Err::<(String, String), Errno>(Errno::EINVAL)
    } else if flags & RENAME_EXCHANGE != 0 {
        Err(Errno::ENOSYS)
    } else {
        two_paths(oldpath, newpath)
    }
}

/// The old and the new path of a file. Exchanging two files is not offered.
pub fn sys_renameat2(oldpath: SysResult<String>, newpath: SysResult<String>, flags: usize) -> (r: SysResult<
    (String, String),
>)
    ensures
        r == renaming(oldpath, newpath, flags),
{
    if flags & !3 != 0 {
        return Err(Errno::EINVAL);
    }
    if flags & RENAME_EXCHANGE != 0 {
        return Err(Errno::ENOSYS);
    }
    read_two(oldpath, newpath)
}

pub const AT_REMOVEDIR: usize = 0x200;

/// The removal that is asked for, and whether it is of a directory.
pub open spec fn unlinking(path: SysResult<String>, flags: usize) -> SysResult<(String, bool)> {
    if flags & !AT_REMOVEDIR != 0 {
        Err::<(String, bool), Errno>(Errno::EINVAL)
    } else {
        match path {
            Err(e) => Err(e),
            Ok(p) => Ok((p, flags & AT_REMOVEDIR != 0)),
        }
    }
}

/// The path of the file that is removed, and whether it must be a directory.
pub fn sys_unlinkat(path: SysResult<String>, flags: usize) -> (r: SysResult<(String, bool)>)
    ensures
        r == unlinking(path, flags),
{
    if flags & !AT_REMOVEDIR != 0 {
        return Err(Errno::EINVAL);
    }
    match path {
        Err(e) => Err(e),
        Ok(p) => Ok((p, flags & AT_REMOVEDIR != 0)),
    }
}

/// What changing the directory comes to.
pub open spec fn directory_changed(
    before: usize,
    after: usize,
    found: SysResult<(usize, InodeType)>,
    search: SysResult<()>,
    r: SysResult<usize>,
) -> bool {
    match found {
        Err(e) => r == err(e) && after == before,
        Ok((dir, kind)) => if kind != InodeType::Directory {
            r == err(Errno::ENOTDIR) && after == before
        } else {
            match search {
                Err(e) => r == err(e) && after == before,
                Ok(_) => r == ok(0) && after == dir,
            }
        },
    }
}

/// Changes the working directory to a file that was looked up: it must be a
/// directory that may be searched. Directories go by their identity.
pub fn sys_chdir(
    cwd: &mut usize,
    found: SysResult<(usize, InodeType)>,
    search: SysResult<()>,
) -> (r: SysResult<usize>)
    ensures
        directory_changed(*old(cwd), *final(cwd), found, search, r),
{
    let (dir, kind) = match found {
        Ok(f) => f,
        Err(e) => {
            return Err(e);
        },
    };
    match kind {
        InodeType::Directory => {},
        _ => {
            return Err(Errno::ENOTDIR);
        },
    }
    match search {
        Err(e) => {
            return Err(e);
        },
        Ok(_) => {},
    }
    *cwd = dir;
    Ok(0)
}

/// What telling the directory comes to.
pub open spec fn directory_told(
    cwd: Seq<char>,
    buf: usize,
    len: usize,
    out: UserOut,
    r: Reply<Vec<u8>>,
) -> bool {
    if encode_utf8(cwd).len() >= len {
        r == failed::<Vec<u8>>(Errno::ERANGE)
    } else if out != UserOut::Writable {
        r == failed::<Vec<u8>>(Errno::EFAULT)
    } else {
        &&& r.ret == ok(buf)
        &&& r.out is Some
        &&& r.out->0@ == encode_utf8(cwd).push(0)
    }
}

/// The path of the working directory with a closing zero byte, if it fits into
/// `len` bytes. The call returns the buffer.
pub fn sys_getcwd(cwd: &str, buf: usize, len: usize, out: UserOut) -> (r: Reply<Vec<u8>>)
    ensures
        directory_told(cwd@, buf, len, out, r),
{
    let bytes = cwd.as_bytes();
    if bytes.len() >= len {
        return Reply::fail(Errno::ERANGE);
    }
    match out {
        UserOut::Writable => {},
        _ => {
            return Reply::fail(Errno::EFAULT);
        },
    }
    let mut v = copy_range(bytes, 0, bytes.len());
    proof {
        assert(v@ =~= encode_utf8(cwd@));
    }
    v.push(0);
    Reply { ret: Ok(buf), out: Some(v) }
}

/// What reading a symbolic link comes to.
pub open spec fn link_read(
    path: SysResult<()>,
    link: SysResult<String>,
    bufsize: usize,
    out: UserOut,
    r: Reply<Vec<u8>>,
) -> bool {
    match path {
        Err(e) => r == failed::<Vec<u8>>(e),
        Ok(_) => match link {
            Err(e) => r == failed::<Vec<u8>>(e),
            Ok(l) => {
                let bytes = encode_utf8(l@);
                let n = if bytes.len() < bufsize {
                    bytes.len() as int
                } else {
                    bufsize as int
                };
                if n == 0 {
                    r == silent::<Vec<u8>>(0)
                } else if out != UserOut::Writable {
                    r == failed::<Vec<u8>>(Errno::EFAULT)
                } else {
                    &&& r.ret == ok(n as usize)
                    &&& r.out is Some
                    &&& r.out->0@ == bytes.take(n)
                }
            },
        },
    }
}

/// What a symbolic link holds, cut off at the size of the buffer.
pub fn sys_readlinkat(
    path: SysResult<()>,
    link: SysResult<String>,
    bufsize: usize,
    out: UserOut,
) -> (r: Reply<Vec<u8>>)
    ensures
        link_read(path, link, bufsize, out, r),
{
    match path {
        Err(e) => {
            return Reply::fail(e);
        },
        Ok(_) => {},
    }
    let l = match link {
        Ok(l) => l,
        Err(e) => {
            return Reply::fail(e);
        },
    };
    let bytes = l.as_str().as_bytes();
    let n: usize = if bytes.len() < bufsize {
        bytes.len()
    } else {
        bufsize
    };
    if n == 0 {
        return Reply::done(0);
    }
    match out {
        UserOut::Writable => {},
        _ => {
            return Reply::fail(Errno::EFAULT);
        },
    }
    let v = copy_range(bytes, 0, n);
    proof {
        assert(v@ =~= encode_utf8(l@).take(n as int));
    }
    Reply { ret: Ok(n), out: Some(v) }
}

/// A directory entry: the position behind it and the length of its record.
#[derive(Debug, Clone, Copy, PartialEq, Eq, Structural)]
pub struct Dirent {
    pub d_off: i64,
    pub d_reclen: u16,
}

/// Records that were taken from a directory: how many bytes, the position
/// behind the last one, and their indices.
pub struct Filled {
    pub written: usize,
    pub next_off: usize,
    pub taken: Seq<int>,
}

/// Takes the records from index `i` on that lie behind position `from` and fit
/// into `count` bytes. The first record that is taken meets a bad buffer.
pub open spec fn fill(
    ds: Seq<Dirent>,
    from: usize,
    count: usize,
    out: UserOut,
    i: int,
    f: Filled,
) -> SysResult<Filled>
    decreases ds.len() - i,
{
    if i < 0 || i >= ds.len() {
        Ok(f)
    } else if ds[i].d_off < 0 || ds[i].d_off > usize::MAX {
        Err(Errno::EINVAL)
    } else if ds[i].d_off <= from {
        fill(ds, from, count, out, i + 1, f)
    } else if ds[i].d_reclen == 0 {
        Err(Errno::EINVAL)
    } else if f.written + ds[i].d_reclen > count {
        if f.written == 0 {
            Err(Errno::EINVAL)
        } else {
            Ok(f)
        }
    } else if out != UserOut::Writable {
        Err(Errno::EFAULT)
    } else {
        fill(
            ds,
            from,
            count,
            out,
            i + 1,
            Filled {
                written: (f.written + ds[i].d_reclen) as usize,
                next_off: ds[i].d_off as usize,
                taken: f.taken.push(i),
            },
        )
    }
}

/// Nothing taken yet.
pub open spec fn unfilled(from: usize) -> Filled {
    Filled { written: 0, next_off: from, taken: Seq::empty() }
}

/// The records that a call hands out, by their indices, and the position the
/// directory gets.
#[derive(Debug)]
pub struct Listing {
    pub written: usize,
    pub taken: Vec<usize>,
    pub seek: Option<isize>,
}

/// Indices as numbers.
pub open spec fn indices(v: Seq<usize>) -> Seq<int> {
    v.map_values(|n: usize| n as int)
}

/// What listing a directory comes to.
pub open spec fn listed_entries(
    count: usize,
    file: SysResult<bool>,
    from: usize,
    listed: SysResult<Vec<Dirent>>,
    out: UserOut,
    r: SysResult<Listing>,
) -> bool {
    if count == 0 {
        r is Ok && r->Ok_0.written == 0 && r->Ok_0.taken@.len() == 0 && r->Ok_0.seek is None
    } else if file is Err {
        r is Err && r->Err_0 == file->Err_0
    } else if !file->Ok_0 {
        r is Err && r->Err_0 == Errno::ENOTDIR
    } else {
        match listed {
            Err(e) => r is Err && r->Err_0 == e,
            Ok(ds) => match fill(ds@, from, count, out, 0, unfilled(from)) {
                Err(e) => r is Err && r->Err_0 == e,
                Ok(f) => if f.written == 0 {
                    r is Ok && r->Ok_0.written == 0 && r->Ok_0.taken@.len() == 0
                        && r->Ok_0.seek is None
                } else if f.next_off > isize::MAX {
                    r is Err && r->Err_0 == Errno::EINVAL
                } else {
                    &&& r is Ok
                    &&& r->Ok_0.written == f.written
                    &&& indices(r->Ok_0.taken@) == f.taken
                    &&& r->Ok_0.seek == Some(f.next_off as isize)
                },
            },
        }
    }
}

/// The next records of a directory. `from` is its position; `listed` its entries,
/// if the descriptor is one of a file system.
pub fn sys_getdents64(
    count: usize,
    file: SysResult<bool>,
    from: usize,
    listed: SysResult<Vec<Dirent>>,
    out: UserOut,
) -> (r: SysResult<Listing>)
    ensures
        listed_entries(count, file, from, listed, out, r),
{
    if count == 0 {
        return Ok(Listing { written: 0, taken: Vec::new(), seek: None });
    }
    match file {
        Err(e) => {
            return Err(e);
        },
        Ok(is_file) => {
            if !is_file {
                return Err(Errno::ENOTDIR);
            }
        },
    }
    let ds = match listed {
        Ok(ds) => ds,
        Err(e) => {
            return Err(e);
        },
    };
    let mut written: usize = 0;
    let mut next_off: usize = from;
    let mut taken: Vec<usize> = Vec::new();
    let mut i: usize = 0;
    proof {
        assert(indices(taken@) =~= Seq::<int>::empty());
    }
    while i < ds.len()
        invariant_except_break
            i <= ds@.len(),
            fill(ds@, from, count, out, 0, unfilled(from)) == fill(
                ds@,
                from,
                count,
                out,
                i as int,
                Filled { written, next_off, taken: indices(taken@) },
            ),
        invariant
            count != 0,
            file is Ok && file->Ok_0,
            listed == Ok::<Vec<Dirent>, Errno>(ds),
            written <= count,
            (taken@.len() == 0) == (written == 0),
        ensures
            fill(ds@, from, count, out, 0, unfilled(from)) == Ok::<Filled, Errno>(
                Filled { written, next_off, taken: indices(taken@) },
            ),
        decreases ds@.len() - i,
    {
        let d = ds[i];
        if d.d_off < 0 || d.d_off as u64 > usize::MAX as u64 {
            return Err(Errno::EINVAL);
        }
        let off: usize = d.d_off as usize;
        if off <= from {
            i = i + 1;
            continue;
        }
        let size: usize = d.d_reclen as usize;
        if size == 0 {
            return Err(Errno::EINVAL);
        }
        if size > count - written {
            if written == 0 {
                return Err(Errno::EINVAL);
            }
            break;
        }
        match out {
            UserOut::Writable => {},
            _ => {
                return Err(Errno::EFAULT);
            },
        }
        written = written + size;
        next_off = off;
        proof {
            assert(indices(taken@.push(i)) =~= indices(taken@).push(i as int));
        }
        taken.push(i);
        i = i + 1;
    }
    if written == 0 {
        return Ok(Listing { written: 0, taken, seek: None });
    }
    if next_off > isize::MAX as usize {
        return Err(Errno::EINVAL);
    }
    Ok(Listing { written, taken, seek: Some(next_off as isize) })
}

/// A listing never overruns the buffer, and goes on behind where it started.
pub proof fn listings_fit_and_advance(
    ds: Seq<Dirent>,
    from: usize,
    count: usize,
    out: UserOut,
    i: int,
    f: Filled,
)
    requires
        f.written <= count,
        f.next_off >= from,
        f.taken.len() > 0 ==> f.next_off > from,
    ensures
        fill(ds, from, count, out, i, f) matches Ok(g) ==> {
            &&& g.written <= count
            &&& g.next_off >= from
            &&& g.taken.len() > 0 ==> g.next_off > from
        },
    decreases ds.len() - i,
{
    if 0 <= i < ds.len() {
        if ds[i].d_off < 0 || ds[i].d_off > usize::MAX {
        } else if ds[i].d_off <= from {
            listings_fit_and_advance(ds, from, count, out, i + 1, f);
        } else if ds[i].d_reclen != 0 && f.written + ds[i].d_reclen <= count {
            listings_fit_and_advance(
                ds,
                from,
                count,
                out,
                i + 1,
                Filled {
                    written: (f.written + ds[i].d_reclen) as usize,
                    next_off: ds[i].d_off as usize,
                    taken: f.taken.push(i),
                },
            );
        }
    }
}

/// A file system to be mounted.
#[derive(Debug)]
pub struct MountPlan {
    pub source: String,
    pub target: String,
    pub fstype: String,
    pub flags: usize,
}

/// What a mount asks for.
pub open spec fn mount_plan(
    source: SysResult<String>,
    target: SysResult<String>,
    fstype: SysResult<String>,
    flags: usize,
) -> SysResult<MountPlan> {
    match (source, target, fstype) {
        (Err(e), _, _) => Err::<MountPlan, Errno>(e),
        (Ok(_), Err(e), _) => Err(e),
        (Ok(_), Ok(_), Err(e)) => Err(e),
        (Ok(a), Ok(b), Ok(c)) => Ok(MountPlan { source: a, target: b, fstype: c, flags }),
    }
}

/// What a mount asks for.
pub fn sys_mount(
    source: SysResult<String>,
    target: SysResult<String>,
    fstype: SysResult<String>,
    flags: usize,
) -> (r: SysResult<MountPlan>)
    ensures
        r == mount_plan(source, target, fstype, flags),
{
    let (a, b) = match read_two(source, target) {
        Ok(p) => p,
        Err(e) => {
            return Err(e);
        },
    };
    match fstype {
        Err(e) => Err(e),
        Ok(c) => Ok(MountPlan { source: a, target: b, fstype: c, flags }),
    }
}

/// What an unmount asks for.
pub fn sys_umount2(target: SysResult<String>, flags: usize) -> (r: SysResult<(String, usize)>)
    ensures
        r == (match target {
            Err(e) => Err::<(String, usize), Errno>(e),
            Ok(t) => Ok((t, flags)),
        }),
{
    match target {
        Err(e) => Err(e),
        Ok(t) => Ok((t, flags)),
    }
}

pub const SEEK_SET: usize = 0;

pub const SEEK_CUR: usize = 1;

pub const SEEK_END: usize = 2;

/// A position moved by an offset, if it stays in range. The smallest offset has
/// no opposite and is refused.
pub open spec fn moved_by(base: usize, offset: isize) -> SysResult<usize> {
    if base + offset < 0 || base + offset > usize::MAX || offset == isize::MIN {
        Err(Errno::EINVAL)
    } else {
        Ok((base + offset) as usize)
    }
}

fn add_offset(base: usize, offset: isize) -> (r: SysResult<usize>)
    ensures
        r == moved_by(base, offset),
{
    if offset >= 0 {
        match base.checked_add(offset as usize) {
            Some(n) => Ok(n),
            None => Err(Errno::EINVAL),
        }
    } else {
        if offset == isize::MIN {
            return Err(Errno::EINVAL);
        }
        match base.checked_sub((-offset) as usize) {
            Some(n) => Ok(n),
            None => Err(Errno::EINVAL),
        }
    }
}

/// The position that a seek leads to.
pub open spec fn seek_result(
    seekable: SysResult<()>,
    offset: isize,
    whence: usize,
    position: usize,
    size: SysResult<usize>,
) -> SysResult<usize> {
    match seekable {
        Err(e) => err(e),
        Ok(_) => if whence == SEEK_SET {
            moved_by(0, offset)
        } else if whence == SEEK_CUR {
            moved_by(position, offset)
        } else if whence == SEEK_END {
            match size {
                Err(e) => err(e),
                Ok(n) => moved_by(n, offset),
            }
        } else {
            err(Errno::EINVAL)
        },
    }
}

/// The position that a file gets. `seekable` tells whether it has one at all,
/// `size` is asked for only from the end.
pub fn sys_lseek(
    seekable: SysResult<()>,
    offset: isize,
    whence: usize,
    position: usize,
    size: SysResult<usize>,
) -> (r: SysResult<usize>)
    ensures
        r == seek_result(seekable, offset, whence, position, size),
{
    match seekable {
        Err(e) => {
            return Err(e);
        },
        Ok(_) => {},
    }
    if whence == SEEK_SET {
        add_offset(0, offset)
    } else if whence == SEEK_CUR {
        add_offset(position, offset)
    } else if whence == SEEK_END {
        match size {
            Err(e) => Err(e),
            Ok(n) => add_offset(n, offset),
        }
    } else {
        Err(Errno::EINVAL)
    }
}

/// A position that was moved can be moved back.
pub proof fn seeks_are_reversible(base: usize, offset: isize)
    requires
        offset != isize::MIN,
        moved_by(base, offset) is Ok,
    ensures
        moved_by(moved_by(base, offset)->Ok_0, (-offset) as isize) == ok(base),
{
}

/// Makes the buffered data of a file durable: the outcome is the file's own.
pub fn sys_fsync(file: SysResult<()>, synced: SysResult<usize>) -> (r: SysResult<usize>)
    ensures
        r == (match file {
            Err(e) => err(e),
            Ok(_) => synced,
        }),
{
    match file {
        Err(e) => Err(e),
        Ok(_) => synced,
    }
}

/// The same as `sys_fsync`.
pub fn sys_fdatasync(file: SysResult<()>, synced: SysResult<usize>) -> (r: SysResult<usize>)
    ensures
        r == (match file {
            Err(e) => err(e),
            Ok(_) => synced,
        }),
{
    sys_fsync(file, synced)
}

/// A seek leads as far as it was asked from the start, the current position or the
/// end, by the numbers 0, 1 and 2, and never before the start.
pub proof fn seeks_count_from_their_base(offset: isize, whence: usize, position: usize, size: usize)
    ensures
        ({
            let r = seek_result(Ok(()), offset, whence, position, Ok(size));
            &&& whence == 0 && r is Ok ==> r->Ok_0 == offset
            &&& whence == 1 && r is Ok ==> r->Ok_0 == position + offset
            &&& whence == 2 && r is Ok ==> r->Ok_0 == size + offset
            &&& whence == 0 ==> (r is Ok <==> offset >= 0)
            &&& whence == 1 && offset != isize::MIN ==> (r is Ok <==> 0 <= position + offset
                <= usize::MAX)
            &&& whence == 2 && offset != isize::MIN ==> (r is Ok <==> 0 <= size + offset
                <= usize::MAX)
            &&& whence > 2 ==> r is Err
            &&& r is Err ==> r->Err_0 == Errno::EINVAL
        }),
        forall|e: Errno|
            (#[trigger] seek_result(Err(e), offset, whence, position, Ok(size))) == err(e),
{
}

/// What a node is, by the bits of its mode; only root makes devices.
pub proof fn nodes_are_of_their_kind(path: String, mode: usize, fsuid: usize)
    ensures
        ({
            let r = node_made(Ok(path), mode, fsuid);
            let k = mode & 0o170000;
            &&& r matches Ok(c) ==> c.path == path && c.mode == mode
            &&& r is Ok && r->Ok_0.kind == InodeType::Fifo <==> k == 0o010000
            &&& r is Ok && r->Ok_0.kind == InodeType::Socket <==> k == 0o140000
            &&& r is Ok && r->Ok_0.kind == InodeType::Regular <==> k == 0 || k == 0o100000
            &&& r is Ok && r->Ok_0.kind == InodeType::CharDevice <==> k == 0o020000 && fsuid == 0
            &&& r is Ok && r->Ok_0.kind == InodeType::BlockDevice <==> k == 0o060000 && fsuid == 0
            &&& r is Err && r->Err_0 == Errno::EPERM <==> (k == 0o020000 || k == 0o060000) && fsuid
                != 0
            &&& r is Ok || r->Err_0 == Errno::EPERM || r->Err_0 == Errno::EINVAL
        }),
        directory_made(Ok(path), mode) matches Ok(c) && c.path == path && c.mode == mode && c.kind
            == InodeType::Directory,
{
}

/// Links, renamings and removals speak of the paths that they were given, the old
/// one first; a removal is of a directory exactly if that was asked for.
pub proof fn paths_keep_their_places(a: String, b: String, flags: usize)
    ensures
        renaming(Ok(a), Ok(b), flags) matches Ok(p) ==> p.0 == a && p.1 == b && flags & 2 == 0
            && flags
            & !3 == 0,
        flags & !3usize == 0 && flags & 2 == 0 ==> renaming(Ok(a), Ok(b), flags) is Ok,
        flags & !3usize == 0 && flags & 2 != 0 ==> renaming(Ok(a), Ok(b), flags) == Err::<
            (String, String),
            Errno,
        >(Errno::ENOSYS),
        flags & !3usize != 0 ==> renaming(Ok(a), Ok(b), flags) == Err::<(String, String), Errno>(
            Errno::EINVAL,
        ),
        unlinking(Ok(a), flags) matches Ok(p) ==> p.0 == a && p.1 == (flags & 0x200 != 0),
        unlinking(Ok(a), flags) is Ok <==> flags & !0x200usize == 0,
        link_plan(Ok(a), Ok(b), flags) matches Ok(p) ==> p.oldpath == a && p.newpath == b
            && (p.fd is Some
            ==> flags & 0x400 != 0),
        link_plan(Ok(a), Ok(b), flags) is Ok <==> flags & !0x400usize == 0,
        two_paths(Ok(a), Ok(b)) == Ok::<(String, String), Errno>((a, b)),
        forall|e: Errno, f: Errno|
            #![trigger two_paths(Err(e), Err(f))]
            two_paths(Err(e), Err(f)) == Err::<(String, String), Errno>(e),
{
}

/// The directory changes exactly to a directory that may be searched.
pub proof fn only_searchable_directories_are_entered(
    before: usize,
    after: usize,
    found: SysResult<(usize, InodeType)>,
    search: SysResult<()>,
    r: SysResult<usize>,
)
    requires
        directory_changed(before, after, found, search, r),
    ensures
        r is Ok <==> found is Ok && (found->Ok_0).1 == InodeType::Directory && search is Ok,
        r is Ok ==> after == (found->Ok_0).0 && r == ok(0),
        r is Err ==> after == before,
        found matches Ok((d, k)) ==> (k != InodeType::Directory ==> r == err(Errno::ENOTDIR)),
{
}

/// The path of the directory is told in full with a zero behind it, or not at all.
pub proof fn directories_are_told_in_full(
    cwd: Seq<char>,
    buf: usize,
    len: usize,
    out: UserOut,
    r: Reply<Vec<u8>>,
)
    requires
        directory_told(cwd, buf, len, out, r),
    ensures
        r.ret is Ok ==> {
            &&& r.ret == ok(buf)
            &&& r.out is Some
            &&& r.out->0@.len() <= len
            &&& r.out->0@.len() == encode_utf8(cwd).len() + 1
            &&& r.out->0@.last() == 0
            &&& r.out->0@.drop_last() == encode_utf8(cwd)
        },
        r.ret is Err ==> r.out is None,
        r.ret == err(Errno::ERANGE) <==> encode_utf8(cwd).len() + 1 > len,
{
    if r.ret is Ok {
        assert(r.out->0@.drop_last() =~= encode_utf8(cwd));
    }
}

/// A link is read from its start, as far as the buffer goes, without a zero behind
/// it; the number returned is that of the bytes written.
pub proof fn links_are_read_from_their_start(
    link: String,
    bufsize: usize,
    r: Reply<Vec<u8>>,
)
    requires
        link_read(Ok(()), Ok(link), bufsize, UserOut::Writable, r),
        encode_utf8(link@).len() <= usize::MAX,
    ensures
        r.ret is Ok,
        r.ret->Ok_0 <= bufsize,
        r.ret->Ok_0 == bufsize || r.ret->Ok_0 == encode_utf8(link@).len(),
        r.out matches Some(b) ==> b@.len() == r.ret->Ok_0 && forall|i: int|
            0 <= i < b@.len() ==> #[trigger] b@[i] == encode_utf8(link@)[i],
        r.out is None ==> r.ret->Ok_0 == 0,
{
}

proof fn filling_is_sound(ds: Seq<Dirent>, from: usize, count: usize, i: int, f: Filled, g: Filled)
    requires
        0 <= i,
        fill(ds, from, count, UserOut::Writable, i, f) == Ok::<Filled, Errno>(g),
    ensures
        g.taken.len() >= f.taken.len(),
        g.taken.take(f.taken.len() as int) == f.taken,
        forall|k: int|
            f.taken.len() <= k < g.taken.len() ==> i <= #[trigger] g.taken[k] < ds.len()
                && ds[g.taken[k]].d_off > from,
        forall|a: int, b: int|
            f.taken.len() <= a < b < g.taken.len() ==> (#[trigger] g.taken[a]) < (
            #[trigger] g.taken[b]),
        g.taken.len() > f.taken.len() ==> g.next_off == ds[g.taken.last()].d_off,
        g.taken.len() == f.taken.len() ==> g == f,
        g.written <= count || g.written == f.written,
        g.taken.len() == f.taken.len() ==> forall|k: int|
            i <= k < ds.len() ==> (#[trigger] ds[k]).d_off <= from || f.written > 0,
    decreases ds.len() - i,
{
    assert(f.taken.take(f.taken.len() as int) =~= f.taken);
    if i < ds.len() && 0 <= ds[i].d_off <= usize::MAX {
        if ds[i].d_off <= from {
            filling_is_sound(ds, from, count, i + 1, f, g);
        } else if ds[i].d_reclen != 0 && f.written + ds[i].d_reclen <= count {
            let h = Filled {
                written: (f.written + ds[i].d_reclen) as usize,
                next_off: ds[i].d_off as usize,
                taken: f.taken.push(i),
            };
            filling_is_sound(ds, from, count, i + 1, h, g);
            assert(g.taken.take(f.taken.len() as int) =~= h.taken.take(f.taken.len() as int));
            assert(h.taken.take(f.taken.len() as int) =~= f.taken);
            assert(g.taken[f.taken.len() as int] == g.taken.take(h.taken.len() as int)[f.taken.len() as int]);
        }
    }
}

/// A listing holds entries behind the position, in the order of the directory, and
/// moves the position to the last of them; nothing is listed only if nothing is
/// left.
pub proof fn listings_go_on_where_they_stopped(
    count: usize,
    from: usize,
    ds: Vec<Dirent>,
    r: SysResult<Listing>,
)
    requires
        count > 0,
        listed_entries(count, Ok(true), from, Ok(ds), UserOut::Writable, r),
        r is Ok,
    ensures
        r->Ok_0.written <= count,
        forall|k: int|
            0 <= k < r->Ok_0.taken@.len() ==> (#[trigger] r->Ok_0.taken@[k]) < ds@.len()
                && ds@[r->Ok_0.taken@[k] as int].d_off > from,
        forall|a: int, b: int|
            0 <= a < b < r->Ok_0.taken@.len() ==> (#[trigger] r->Ok_0.taken@[a]) < (
            #[trigger] r->Ok_0.taken@[b]),
        r->Ok_0.taken@.len() > 0 && r->Ok_0.seek is Some ==> r->Ok_0.seek->0
            == ds@[r->Ok_0.taken@.last() as int].d_off,
{
    let f = fill(ds@, from, count, UserOut::Writable, 0, unfilled(from));
    if f is Ok {
        filling_is_sound(ds@, from, count, 0, unfilled(from), f->Ok_0);
        if r->Ok_0.taken@.len() > 0 {
            let g = f->Ok_0;
            let t = r->Ok_0.taken@;
            assert forall|k: int| 0 <= k < t.len() implies #[trigger] t[k] as int == g.taken[k] by {
                assert(indices(t)[k] == g.taken[k]);
            }
            assert(indices(t).len() == t.len());
            assert(g.taken.last() == t.last() as int);
        }
    }
}

/// A restricted path: one that stays in its root does not start there, one that
/// stays on its file system does not leave it, and a last symbolic link is refused
/// exactly if links are.
pub proof fn restricted_paths_are_refused(resolve: u64, path: Seq<char>, last: InodeType)
    ensures
        ({
            let r = path_checked(resolve, path, Ok(last));
            let rooted = path.len() > 0 && path[0] == '/';
            let upward = path.len() > 2 && path[0] == '.' && path[1] == '.' && path[2] == '/';
            &&& resolve & 0x10 != 0 && rooted ==> r == Err::<(), Errno>(Errno::ENOENT)
            &&& resolve & 0x10 == 0 && resolve & 0x09 != 0 && upward ==> r == Err::<(), Errno>(
                Errno::EXDEV,
            )
            &&& !rooted && !upward ==> (r is Err <==> resolve & 0x04 != 0 && last
                == InodeType::SymLink)
            &&& r == Err::<(), Errno>(Errno::ENOENT) ==> resolve & 0x10 != 0 && rooted
            &&& r == Err::<(), Errno>(Errno::EXDEV) ==> resolve & 0x09 != 0 && (rooted || upward)
            &&& resolve & 0x10 == 0 && resolve & 0x09 == 0 && resolve & 0x02 == 0 && resolve & 0x04
                == 0 ==> r is Ok
        }),
{
    reveal_strlit("/");
    reveal_strlit("../");
    reveal_strlit("/proc/");
    reveal_strlit("/proc");
    reveal_strlit("/proc/self/exe");
    if path == "/proc/self/exe"@ {
        assert(path[0] == '/');
    }
    if path == "/proc"@ {
        assert(path[0] == '/');
    }
    if holds_at(path, "/proc/"@, 0) {
        assert(path.subrange(0, 6)[0] == '/');
    }
    if holds_at(path, "/"@, 0) {
        assert(path.subrange(0, 1)[0] == '/');
    }
    if holds_at(path, "../"@, 0) {
        assert(path.subrange(0, 3)[0] == '.' && path.subrange(0, 3)[1] == '.'
            && path.subrange(0, 3)[2]
            == '/');
    }
    if path.len() > 0 && path[0] == '/' {
        assert(path.subrange(0, 1) =~= "/"@);
    }
    if path.len() > 2 && path[0] == '.' && path[1] == '.' && path[2] == '/' {
        assert(path.subrange(0, 3) =~= "../"@);
    }
}

/// A request to open gives back its own flags and mode; a mode goes only with flags
/// that create something.
pub proof fn checked_opens_keep_their_request(
    path: SysResult<String>,
    h: OpenHow,
    extra: UserIn<Vec<u8>>,
    last: SysResult<InodeType>,
    size: usize,
)
    ensures
        ({
            let r = openat2_result(path, UserIn::Value(h), size, extra, last);
            &&& r matches Ok(p) ==> p.0 == h.flags as usize && p.1 == h.mode as usize && size >= 24
                && path is Ok && h.flags & 3 != 3 && h.mode & !0o7777u64 == 0
                    && (h.mode != 0 ==> h.flags
                & 0o20200100 != 0)
            &&& size < 24 ==> r == Err::<(usize, usize), Errno>(Errno::EINVAL)
        }),
{
}

/// A mount keeps source, place and kind apart.
pub proof fn mounts_keep_their_arguments(a: String, b: String, c: String, flags: usize)
    ensures
        mount_plan(Ok(a), Ok(b), Ok(c), flags) matches Ok(m) && m.source == a && m.target == b
            && m.fstype == c && m.flags == flags,
{
}

/// A descriptor's own path names the descriptor by its number in decimal digits, with or
/// without a plus sign.
pub proof fn numbers_are_read_digit_by_digit(s: Seq<char>, d: char)
    ensures
        digits_value(Seq::empty()) == Some(0int),
        digits_value(s) matches Some(v) ==> {
            &&& '0' <= d <= '9' ==> digits_value(s.push(d)) == Some(10 * v + (d as int - '0' as int))
            &&& !('0' <= d <= '9') ==> digits_value(s.push(d)) is None
        },
        digits_value(s) is None ==> digits_value(s.push(d)) is None,
        number_of(Seq::empty()) is None,
        s.len() > 0 && s[0] != '+' ==> (digits_value(s) matches Some(v) ==> v <= usize::MAX
            ==> number_of(s) == Some(v as usize)),
        s.len() > 0 && s[0] != '+' ==> number_of(seq!['+'] + s) == number_of(s),
        number_of(s) matches Some(n) ==> s.len() > 0,
{
    assert(s.push(d).drop_last() =~= s);
    if s.len() > 0 {
        assert((seq!['+'] + s).drop_first() =~= s);
    }
    if digits_value(s) is Some {
        digits_are_not_negative(s);
    }
}

proof fn digits_are_not_negative(s: Seq<char>)
    requires
        digits_value(s) is Some,
    ensures
        digits_value(s)->0 >= 0,
    decreases s.len(),
{
    if s.len() > 0 {
        digits_are_not_negative(s.drop_last());
    }
}

/// What is opened is the file found, or the pipe's own for a named pipe; the first error stands.
pub proof fn opened_files_are_those_found(o: Opened, fifo: SysResult<usize>, e: Errno)
    ensures
        !o.fifo ==> opened_file(Ok(()), Ok(o), fifo) == Ok::<usize, Errno>(o.file),
        o.fifo ==> opened_file(Ok(()), Ok(o), fifo) == fifo,
        opened_file(Err(e), Ok(o), fifo) == Err::<usize, Errno>(e),
        opened_file(Ok(()), Err(e), fifo) == Err::<usize, Errno>(e),
{
}

/// The path of an own descriptor begins with the directory of descriptors and goes on with the
/// number; no other path names one.
pub proof fn descriptor_paths_name_their_number(n: Seq<char>, path: Seq<char>)
    ensures
        own_fd("/proc/self/fd/"@ + n) == number_of(n),
        own_fd(path) is Some ==> "/proc/self/fd/"@.is_prefix_of(path),
{
    let p = "/proc/self/fd/"@;
    assert((p + n).subrange(0, p.len() as int) =~= p);
    assert((p + n).skip(p.len() as int) =~= n);
    if own_fd(path) is Some {
        assert(path.subrange(0, p.len() as int) == p);
    }
}

/// What a longer request holds beyond the known part must be zero; a request that is shorter is
/// invalid.
pub proof fn unknown_parts_must_be_zero(h: OpenHow, size: usize, extra: Vec<u8>, i: int)
    ensures
        size < 24 ==> how_checked(UserIn::Value(h), size, UserIn::Value(extra)) == Err::<
            OpenHow,
            Errno,
        >(Errno::EINVAL),
        size > 24 && 0 <= i < extra@.len() && extra@[i] != 0 ==> how_checked(
            UserIn::Value(h),
            size,
            UserIn::Value(extra),
        ) == Err::<OpenHow, Errno>(Errno::E2BIG),
        size > 24 ==> how_checked(UserIn::Value(h), size, UserIn::Fault) == Err::<OpenHow, Errno>(
            Errno::EFAULT,
        ),
        size > 24 && (forall|k: int| 0 <= k < extra@.len() ==> #[trigger] extra@[k] == 0)
            ==> how_checked(UserIn::Value(h), size, UserIn::Value(extra)) == how_checked(
            UserIn::Value(h),
            24,
            UserIn::Null,
        ),
{
}

} // verus!
