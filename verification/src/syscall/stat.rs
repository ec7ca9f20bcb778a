//! What is known of a file, and the calls that ask for it or change it.

use crate::errno::{err, ok, Errno, SysResult};
use crate::syscall::file::InodeType;
use crate::timer::{ms_to_timespec, spec_of_ms, TimeSpec};
use crate::user::{failed, write_reply, Reply, UserIn, UserOut};
use vstd::prelude::*;

verus! {

/// Stands for the working directory in place of a descriptor.
pub const AT_FDCWD: isize = -100;

pub const AT_SYMLINK_NOFOLLOW: usize = 0x100;

pub const AT_EACCESS: usize = 0x200;

pub const AT_NO_AUTOMOUNT: usize = 0x800;

pub const AT_EMPTY_PATH: usize = 0x1000;

pub const AT_STATX_SYNC_TYPE: usize = 0x6000;

/// AT_SYMLINK_NOFOLLOW, AT_NO_AUTOMOUNT and AT_EMPTY_PATH.
pub const FSTATAT_ALLOWED_FLAGS: usize = 0x1900;

/// Those of `FSTATAT_ALLOWED_FLAGS` and AT_STATX_SYNC_TYPE.
pub const STATX_ALLOWED_FLAGS: usize = 0x7900;

/// AT_SYMLINK_NOFOLLOW and AT_EMPTY_PATH.
pub const CHANGE_ALLOWED_FLAGS: usize = 0x1100;

/// AT_EACCESS, AT_SYMLINK_NOFOLLOW and AT_EMPTY_PATH.
pub const FACCESSAT_ALLOWED_FLAGS: usize = 0x1300;

pub const STATX_RESERVED: u32 = 0x8000_0000;

pub const STATX_BASIC_STATS: u32 = 0x0000_07ff;

/// The file that a directory descriptor, a path and flags name.
#[derive(Debug, Clone, Copy, PartialEq, Eq, Structural)]
pub enum Target {
    /// The working directory.
    Cwd,
    /// The file behind a descriptor.
    Fd(usize),
    /// The file at the path; a symbolic link at its end is followed or not.
    Path(bool),
}

/// Which file is meant: an empty path, where allowed, means the descriptor
/// itself.
pub open spec fn target_of(dirfd: isize, path: Seq<char>, flags: usize) -> SysResult<Target> {
    if path.len() > 0 {
        Ok(Target::Path(flags & AT_SYMLINK_NOFOLLOW == 0))
    } else if flags & AT_EMPTY_PATH == 0 {
        Err(Errno::ENOENT)
    } else if dirfd == AT_FDCWD {
        Ok(Target::Cwd)
    } else if dirfd < 0 {
        Err(Errno::EBADF)
    } else {
        Ok(Target::Fd(dirfd as usize))
    }
}

/// Decides which file is meant.
pub fn find_target(dirfd: isize, path: &str, flags: usize) -> (r: SysResult<Target>)
    ensures
        r == target_of(dirfd, path@, flags),
{
    if path.unicode_len() > 0 {
        return Ok(Target::Path(flags & AT_SYMLINK_NOFOLLOW == 0));
    }
    if flags & AT_EMPTY_PATH == 0 {
        return Err(Errno::ENOENT);
    }
    if dirfd == AT_FDCWD {
        return Ok(Target::Cwd);
    }
    if dirfd < 0 {
        return Err(Errno::EBADF);
    }
    Ok(Target::Fd(dirfd as usize))
}

/// What looking up each possible target comes to.
#[derive(Debug)]
pub struct Lookups<T> {
    pub cwd: SysResult<T>,
    pub fd: SysResult<T>,
    pub follow: SysResult<T>,
    pub nofollow: SysResult<T>,
}

/// What looking up a target comes to.
pub open spec fn looked_up<T>(l: Lookups<T>, t: SysResult<Target>) -> SysResult<T> {
    match t {
        Err(e) => Err(e),
        Ok(Target::Cwd) => l.cwd,
        Ok(Target::Fd(_)) => l.fd,
        Ok(Target::Path(true)) => l.follow,
        Ok(Target::Path(false)) => l.nofollow,
    }
}

impl<T> Lookups<T> {
    /// Picks the outcome for a target.
    pub fn pick(self, t: SysResult<Target>) -> (r: SysResult<T>)
        ensures
            r == looked_up(self, t),
    {
        match t {
            Err(e) => Err(e),
            Ok(Target::Cwd) => self.cwd,
            Ok(Target::Fd(_)) => self.fd,
            Ok(Target::Path(follow)) => if follow {
                self.follow
            } else {
                self.nofollow
            },
        }
    }
}

/// Attributes of a file.
#[derive(Debug, Clone, Copy, PartialEq, Eq, Structural)]
pub struct Stat {
    pub st_ino: u64,
    pub st_mode: u32,
    pub st_nlink: u32,
    pub st_uid: u32,
    pub st_gid: u32,
    pub st_size: u64,
    pub st_blksize: u32,
    pub st_blocks: u64,
    pub st_atime: TimeSpec,
    pub st_mtime: TimeSpec,
    pub st_ctime: TimeSpec,
}

/// A point in time as extended attributes hold it.
#[derive(Debug, Clone, Copy, PartialEq, Eq, Structural)]
pub struct StatxTimestamp {
    pub sec: i64,
    pub nsec: u32,
    pub _pad: i32,
}

impl From<TimeSpec> for StatxTimestamp {
    fn from(ts: TimeSpec) -> (r: Self) {
        StatxTimestamp { sec: ts.sec as i64, nsec: ts.nsec as u32, _pad: 0 }
    }
}

impl vstd::std_specs::convert::FromSpecImpl<TimeSpec> for StatxTimestamp {
    open spec fn obeys_from_spec() -> bool {
        true
    }

    open spec fn from_spec(ts: TimeSpec) -> Self {
        StatxTimestamp { sec: ts.sec as i64, nsec: ts.nsec as u32, _pad: 0 }
    }
}

impl Default for StatxTimestamp {
    fn default() -> (r: Self)
        ensures
            r == no_time(),
    {
        StatxTimestamp { sec: 0, nsec: 0, _pad: 0 }
    }
}

/// The time that stands for none.
pub open spec fn no_time() -> StatxTimestamp {
    StatxTimestamp { sec: 0, nsec: 0, _pad: 0 }
}

/// Extended attributes of a file.
#[derive(Debug, Clone, Copy, PartialEq, Eq, Structural)]
pub struct Statx {
    pub stx_mask: u32,
    pub stx_blksize: u32,
    pub stx_attributes: u64,
    pub stx_nlink: u32,
    pub stx_uid: u32,
    pub stx_gid: u32,
    pub stx_mode: u16,
    pub stx_ino: u64,
    pub stx_size: u64,
    pub stx_blocks: u64,
    pub stx_attributes_mask: u64,
    pub stx_atime: StatxTimestamp,
    pub stx_btime: StatxTimestamp,
    pub stx_ctime: StatxTimestamp,
    pub stx_mtime: StatxTimestamp,
    pub stx_rdev_major: u32,
    pub stx_rdev_minor: u32,
    pub stx_dev_major: u32,
    pub stx_dev_minor: u32,
    pub stx_mnt_id: u64,
    pub stx_dio_mem_align: u32,
    pub stx_dio_offset_align: u32,
}

/// The extended attributes: the basic ones of the file, all others zero.
pub open spec fn extended(s: Stat) -> Statx {
    Statx {
        stx_mask: STATX_BASIC_STATS,
        stx_blksize: s.st_blksize,
        stx_attributes: 0,
        stx_nlink: s.st_nlink,
        stx_uid: s.st_uid,
        stx_gid: s.st_gid,
        stx_mode: s.st_mode as u16,
        stx_ino: s.st_ino,
        stx_size: s.st_size,
        stx_blocks: s.st_blocks,
        stx_attributes_mask: 0,
        stx_atime: time_of(s.st_atime),
        stx_btime: no_time(),
        stx_ctime: time_of(s.st_ctime),
        stx_mtime: time_of(s.st_mtime),
        stx_rdev_major: 0,
        stx_rdev_minor: 0,
        stx_dev_major: 0,
        stx_dev_minor: 0,
        stx_mnt_id: 0,
        stx_dio_mem_align: 0,
        stx_dio_offset_align: 0,
    }
}

/// A point in time as extended attributes hold it.
pub open spec fn time_of(ts: TimeSpec) -> StatxTimestamp {
    StatxTimestamp { sec: ts.sec as i64, nsec: ts.nsec as u32, _pad: 0 }
}

impl From<Stat> for Statx {
    fn from(s: Stat) -> (r: Self) {
        Statx {
            stx_mask: STATX_BASIC_STATS,
            stx_blksize: s.st_blksize,
            stx_attributes: 0,
            stx_nlink: s.st_nlink,
            stx_uid: s.st_uid,
            stx_gid: s.st_gid,
            stx_mode: s.st_mode as u16,
            stx_ino: s.st_ino,
            stx_size: s.st_size,
            stx_blocks: s.st_blocks,
            stx_attributes_mask: 0,
            stx_atime: StatxTimestamp::from(s.st_atime),
            stx_btime: StatxTimestamp { sec: 0, nsec: 0, _pad: 0 },
            stx_ctime: StatxTimestamp::from(s.st_ctime),
            stx_mtime: StatxTimestamp::from(s.st_mtime),
            stx_rdev_major: 0,
            stx_rdev_minor: 0,
            stx_dev_major: 0,
            stx_dev_minor: 0,
            stx_mnt_id: 0,
            stx_dio_mem_align: 0,
            stx_dio_offset_align: 0,
        }
    }
}

impl vstd::std_specs::convert::FromSpecImpl<Stat> for Statx {
    open spec fn obeys_from_spec() -> bool {
        true
    }

    open spec fn from_spec(s: Stat) -> Self {
        extended(s)
    }
}

/// What asking for the attributes of a named file comes to.
pub open spec fn stat_result(
    dirfd: isize,
    path: SysResult<String>,
    flags: usize,
    found: Lookups<Stat>,
) -> SysResult<Stat> {
    match path {
        Err(e) => Err(e),
        Ok(p) => looked_up(found, target_of(dirfd, p@, flags)),
    }
}

fn stat_at(dirfd: isize, path: SysResult<String>, flags: usize, found: Lookups<Stat>) -> (r: SysResult<Stat>)
    ensures
        r == stat_result(dirfd, path, flags, found),
{
    match path {
        Err(e) => Err(e),
        Ok(p) => found.pick(find_target(dirfd, p.as_str(), flags)),
    }
}

/// The attributes that are reported.
pub open spec fn stat_reply(
    dirfd: isize,
    path: SysResult<String>,
    flags: usize,
    found: Lookups<Stat>,
    out: UserOut,
) -> Reply<Stat> {
    if flags & !FSTATAT_ALLOWED_FLAGS != 0 {
        failed::<Stat>(Errno::EINVAL)
    } else {
        match stat_result(dirfd, path, flags, found) {
            Err(e) => failed(e),
            Ok(s) => write_reply(out, 0, s),
        }
    }
}

/// The attributes of a named file.
pub fn sys_fstatat(
    dirfd: isize,
    path: SysResult<String>,
    flags: usize,
    found: Lookups<Stat>,
    out: UserOut,
) -> (r: Reply<Stat>)
    ensures
        r == stat_reply(dirfd, path, flags, found, out),
{
    if flags & !FSTATAT_ALLOWED_FLAGS != 0 {
        return Reply::fail(Errno::EINVAL);
    }
    match stat_at(dirfd, path, flags, found) {
        Err(e) => Reply::fail(e),
        Ok(s) => out.reply(0, s),
    }
}

/// The extended attributes that are reported.
pub open spec fn statx_reply(
    dirfd: isize,
    path: SysResult<String>,
    flags: usize,
    mask: u32,
    found: Lookups<Stat>,
    out: UserOut,
) -> Reply<Statx> {
    if mask & STATX_RESERVED != 0 || flags & !STATX_ALLOWED_FLAGS != 0 {
        failed::<Statx>(Errno::EINVAL)
    } else {
        match stat_result(dirfd, path, flags, found) {
            Err(e) => failed(e),
            Ok(s) => write_reply(out, 0, extended(s)),
        }
    }
}

/// The extended attributes of a named file.
pub fn sys_statx(
    dirfd: isize,
    path: SysResult<String>,
    flags: usize,
    mask: u32,
    found: Lookups<Stat>,
    out: UserOut,
) -> (r: Reply<Statx>)
    ensures
        r == statx_reply(dirfd, path, flags, mask, found, out),
{
    if mask & STATX_RESERVED != 0 || flags & !STATX_ALLOWED_FLAGS != 0 {
        return Reply::fail(Errno::EINVAL);
    }
    match stat_at(dirfd, path, flags, found) {
        Err(e) => Reply::fail(e),
        Ok(s) => out.reply(0, Statx::from(s)),
    }
}

/// The attributes of an open file.
pub fn sys_fstat(stat: SysResult<Stat>, out: UserOut) -> (r: Reply<Stat>)
    ensures
        r == (match stat {
            Err(e) => failed::<Stat>(e),
            Ok(s) => write_reply(out, 0, s),
        }),
{
    match stat {
        Err(e) => Reply::fail(e),
        Ok(s) => out.reply(0, s),
    }
}

/// The attributes of the file system that holds a path.
pub fn sys_statfs<T>(path: SysResult<()>, statfs: SysResult<T>, out: UserOut) -> (r: Reply<T>)
    ensures
        r == (match path {
            Err(e) => failed::<T>(e),
            Ok(_) => match statfs {
                Err(e) => failed(e),
                Ok(s) => write_reply(out, 0, s),
            },
        }),
{
    match path {
        Err(e) => Reply::fail(e),
        Ok(_) => match statfs {
            Err(e) => Reply::fail(e),
            Ok(s) => out.reply(0, s),
        },
    }
}

/// The attributes of the file system that holds an open file; `fs_file` tells
/// whether the descriptor is one of a file system.
pub fn sys_fstatfs<T>(fs_file: SysResult<bool>, statfs: SysResult<T>, out: UserOut) -> (r: Reply<T>)
    ensures
        r == (match fs_file {
            Err(e) => failed::<T>(e),
            Ok(is_file) => if !is_file {
                failed(Errno::EINVAL)
            } else {
                match statfs {
                    Err(e) => failed(e),
                    Ok(s) => write_reply(out, 0, s),
                }
            },
        }),
{
    match fs_file {
        Err(e) => Reply::fail(e),
        Ok(is_file) => {
            if !is_file {
                return Reply::fail(Errno::EINVAL);
            }
            match statfs {
                Err(e) => Reply::fail(e),
                Ok(s) => out.reply(0, s),
            }
        },
    }
}

pub const UTIME_NOW: isize = 1_073_741_823;

pub const UTIME_OMIT: isize = 1_073_741_822;

/// A time can be set if its nanoseconds are ordinary or one of the two special
/// values.
pub open spec fn settable(ts: TimeSpec) -> bool {
    ts.nsec == UTIME_NOW || ts.nsec == UTIME_OMIT || 0 <= ts.nsec < 1_000_000_000
}

/// The time to set: none, now or the given one.
pub open spec fn chosen_time(ts: TimeSpec, now: TimeSpec) -> Option<TimeSpec> {
    if ts.nsec == UTIME_OMIT {
        None
    } else if ts.nsec == UTIME_NOW {
        Some(now)
    } else {
        Some(ts)
    }
}

/// The access and modification times to set; without times both are now.
pub open spec fn chosen_times(times: UserIn<(TimeSpec, TimeSpec)>, now: TimeSpec) -> SysResult<
    (Option<TimeSpec>, Option<TimeSpec>),
> {
    match times {
        UserIn::Null => Ok((Some(now), Some(now))),
        UserIn::Fault => Err(Errno::EFAULT),
        UserIn::Value((a, m)) => if settable(a) && settable(m) {
            Ok((chosen_time(a, now), chosen_time(m, now)))
        } else {
            Err(Errno::EINVAL)
        },
    }
}

fn validate_utimens_time(ts: &TimeSpec) -> (r: bool)
    ensures
        r == settable(*ts),
{
    ts.nsec == UTIME_NOW || ts.nsec == UTIME_OMIT || (0 <= ts.nsec && ts.nsec < 1_000_000_000)
}

fn choose_time(ts: TimeSpec, now: TimeSpec) -> (r: Option<TimeSpec>)
    ensures
        r == chosen_time(ts, now),
{
    if ts.nsec == UTIME_OMIT {
        None
    } else if ts.nsec == UTIME_NOW {
        Some(now)
    } else {
        Some(ts)
    }
}

fn resolve_utimens_times(times: UserIn<(TimeSpec, TimeSpec)>, now_ms: usize) -> (r: SysResult<
    (Option<TimeSpec>, Option<TimeSpec>),
>)
    ensures
        r == chosen_times(times, spec_of_ms(now_ms)),
{
    let now = ms_to_timespec(now_ms);
    match times {
        UserIn::Null => Ok((Some(now), Some(now))),
        UserIn::Fault => Err(Errno::EFAULT),
        UserIn::Value((a, m)) => {
            if validate_utimens_time(&a) && validate_utimens_time(&m) {
                Ok((choose_time(a, now), choose_time(m, now)))
            } else {
                Err(Errno::EINVAL)
            }
        },
    }
}

/// A change of times.
#[derive(Debug, Clone, Copy, PartialEq, Eq, Structural)]
pub struct TimesChange {
    pub target: Target,
    pub atime: Option<TimeSpec>,
    pub mtime: Option<TimeSpec>,
}

/// The file whose times change. No path, or an empty one with a descriptor,
/// means the descriptor whatever the flags.
pub open spec fn times_target(dirfd: isize, path: Option<SysResult<String>>, flags: usize) -> SysResult<Target> {
    match path {
        None => if dirfd < 0 {
            Err(Errno::EBADF)
        } else {
            Ok(Target::Fd(dirfd as usize))
        },
        Some(Err(e)) => Err(e),
        Some(Ok(p)) => if p@.len() == 0 && dirfd != AT_FDCWD {
            if dirfd < 0 {
                Err(Errno::EBADF)
            } else {
                Ok(Target::Fd(dirfd as usize))
            }
        } else {
            target_of(dirfd, p@, flags)
        },
    }
}

/// What a change of times comes to; nothing is changed, and no file looked for,
/// if both times are left out.
pub open spec fn times_change(
    dirfd: isize,
    path: Option<SysResult<String>>,
    times: UserIn<(TimeSpec, TimeSpec)>,
    flags: usize,
    now: TimeSpec,
) -> SysResult<Option<TimesChange>> {
    if flags & !CHANGE_ALLOWED_FLAGS != 0 {
        Err(Errno::EINVAL)
    } else {
        match chosen_times(times, now) {
            Err(e) => Err(e),
            Ok((atime, mtime)) => if atime is None && mtime is None {
                Ok(None)
            } else {
                match times_target(dirfd, path, flags) {
                    Err(e) => Err(e),
                    Ok(target) => Ok(Some(TimesChange { target, atime, mtime })),
                }
            },
        }
    }
}

/// Decides which times of which file change.
pub fn sys_utimensat(
    dirfd: isize,
    path: Option<SysResult<String>>,
    times: UserIn<(TimeSpec, TimeSpec)>,
    flags: usize,
    now_ms: usize,
) -> (r: SysResult<Option<TimesChange>>)
    ensures
        r == times_change(dirfd, path, times, flags, spec_of_ms(now_ms)),
{
    if flags & !CHANGE_ALLOWED_FLAGS != 0 {
        return Err(Errno::EINVAL);
    }
    let (atime, mtime) = match resolve_utimens_times(times, now_ms) {
        Ok(t) => t,
        Err(e) => {
            return Err(e);
        },
    };
    if atime.is_none() && mtime.is_none() {
        return Ok(None);
    }
    let target = match path {
        None => if dirfd < 0 {
            Err(Errno::EBADF)
        } else {
            Ok(Target::Fd(dirfd as usize))
        },
        Some(Err(e)) => Err(e),
        Some(Ok(p)) => if p.as_str().unicode_len() == 0 && dirfd != AT_FDCWD {
            if dirfd < 0 {
                Err(Errno::EBADF)
            } else {
                Ok(Target::Fd(dirfd as usize))
            }
        } else {
            find_target(dirfd, p.as_str(), flags)
        },
    };
    match target {
        Err(e) => Err(e),
        Ok(target) => Ok(Some(TimesChange { target, atime, mtime })),
    }
}

/// The bits a mode may have: permissions and the kind of file.
pub const MODE_BITS: usize = 0o177777;

/// The permission bits of a mode.
pub const PERM_BITS: usize = 0o7777;

/// A change of permissions.
#[derive(Debug, Clone, Copy, PartialEq, Eq, Structural)]
pub struct ModeChange {
    pub target: Target,
    pub mode: u32,
}

/// A change of permissions of an open file.
pub open spec fn open_mode_change(fd: usize, mode: usize) -> SysResult<ModeChange> {
    if mode & !MODE_BITS != 0 {
        Err::<ModeChange, Errno>(Errno::EINVAL)
    } else if fd > isize::MAX {
        Err(Errno::EBADF)
    } else {
        Ok(ModeChange { target: Target::Fd(fd), mode: (mode & PERM_BITS) as u32 })
    }
}

/// Checks a change of permissions of an open file: the kind of file in the mode
/// is ignored.
pub fn sys_fchmod(fd: usize, mode: usize) -> (r: SysResult<ModeChange>)
    ensures
        r == open_mode_change(fd, mode),
{
    if mode & !MODE_BITS != 0 {
        return Err(Errno::EINVAL);
    }
    if fd > isize::MAX as usize {
        return Err(Errno::EBADF);
    }
    Ok(ModeChange { target: Target::Fd(fd), mode: (mode & PERM_BITS) as u32 })
}

/// What a change of permissions of a named file comes to.
pub open spec fn mode_change(dirfd: isize, path: SysResult<String>, mode: usize, flags: usize) -> SysResult<
    ModeChange,
> {
    if mode & !MODE_BITS != 0 || flags & !CHANGE_ALLOWED_FLAGS != 0 {
        Err(Errno::EINVAL)
    } else {
        match path {
            Err(e) => Err(e),
            Ok(p) => match target_of(dirfd, p@, flags) {
                Err(e) => Err(e),
                Ok(target) => Ok(ModeChange { target, mode: (mode & PERM_BITS) as u32 }),
            },
        }
    }
}

fn do_fchmodat(dirfd: isize, path: SysResult<String>, mode: usize, flags: usize) -> (r: SysResult<
    ModeChange,
>)
    ensures
        r == mode_change(dirfd, path, mode, flags),
{
    if mode & !MODE_BITS != 0 || flags & !CHANGE_ALLOWED_FLAGS != 0 {
        return Err(Errno::EINVAL);
    }
    match path {
        Err(e) => Err(e),
        Ok(p) => match find_target(dirfd, p.as_str(), flags) {
            Err(e) => Err(e),
            Ok(target) => Ok(ModeChange { target, mode: (mode & PERM_BITS) as u32 }),
        },
    }
}

/// Checks a change of permissions of a named file; links are followed.
pub fn sys_fchmodat(dirfd: isize, path: SysResult<String>, mode: usize) -> (r: SysResult<ModeChange>)
    ensures
        r == mode_change(dirfd, path, mode, 0),
{
    do_fchmodat(dirfd, path, mode, 0)
}

/// The file whose owner changes.
pub open spec fn owner_target(
    dirfd: isize,
    path: SysResult<String>,
    flags: usize,
) -> SysResult<Target> {
    if flags & !CHANGE_ALLOWED_FLAGS != 0 {
        Err::<Target, Errno>(Errno::EINVAL)
    } else {
        match path {
            Err(e) => Err(e),
            Ok(p) => target_of(dirfd, p@, flags),
        }
    }
}

/// Checks a change of owner and finds the file. The current owner of the file
/// is needed to go on.
pub fn sys_fchownat(dirfd: isize, path: SysResult<String>, flags: usize) -> (r: SysResult<Target>)
    ensures
        r == owner_target(dirfd, path, flags),
{
    if flags & !CHANGE_ALLOWED_FLAGS != 0 {
        return Err(Errno::EINVAL);
    }
    match path {
        Err(e) => Err(e),
        Ok(p) => find_target(dirfd, p.as_str(), flags),
    }
}

/// Owner and group after a change.
pub open spec fn owner_after(owner: usize, group: usize, stat: Stat) -> (u32, u32) {
    (
        if owner == usize::MAX {
            stat.st_uid
        } else {
            owner as u32
        },
        if group == usize::MAX {
            stat.st_gid
        } else {
            group as u32
        },
    )
}

/// The owner and group that a file gets; the largest number leaves one as it is.
pub fn new_owner(owner: usize, group: usize, stat: &Stat) -> (r: (u32, u32))
    ensures
        r == owner_after(owner, group, *stat),
{
    let uid: u32 = if owner == usize::MAX {
        stat.st_uid
    } else {
        owner as u32
    };
    let gid: u32 = if group == usize::MAX {
        stat.st_gid
    } else {
        group as u32
    };
    (uid, gid)
}

/// What truncation needs to know of an open file.
#[derive(Debug, Clone, Copy, PartialEq, Eq, Structural)]
pub struct SizedFile {
    pub writable: bool,
    /// It is a file of a file system.
    pub fs_file: bool,
}

/// The length that a file is cut or extended to.
pub open spec fn truncated_to(length: isize, file: SysResult<SizedFile>) -> SysResult<usize> {
    if length < 0 {
        err(Errno::EINVAL)
    } else {
        match file {
            Err(e) => err(e),
            Ok(f) => if !f.writable || !f.fs_file {
                err(Errno::EINVAL)
            } else {
                ok(length as usize)
            },
        }
    }
}

/// The length that a file is cut or extended to.
pub fn sys_ftruncate(length: isize, file: SysResult<SizedFile>) -> (r: SysResult<usize>)
    ensures
        r == truncated_to(length, file),
{
    if length < 0 {
        return Err(Errno::EINVAL);
    }
    match file {
        Err(e) => Err(e),
        Ok(f) => if !f.writable || !f.fs_file {
            Err(Errno::EINVAL)
        } else {
            Ok(length as usize)
        },
    }
}

/// The length that a file must be extended to, if it is shorter.
pub open spec fn extended_to(
    mode: usize,
    offset: isize,
    len: isize,
    file: SysResult<SizedFile>,
    size: SysResult<usize>,
) -> SysResult<Option<usize>> {
    if offset < 0 || len <= 0 {
        Err::<Option<usize>, Errno>(Errno::EINVAL)
    } else if mode != 0 {
        Err(Errno::EOPNOTSUPP)
    } else {
        match file {
            Err(e) => Err(e),
            Ok(f) => if !f.writable {
                Err(Errno::EBADF)
            } else if !f.fs_file {
                Err(Errno::EINVAL)
            } else {
                match size {
                    Err(e) => Err(e),
                    Ok(n) => if n < offset + len {
                        Ok(Some((offset + len) as usize))
                    } else {
                        Ok(None)
                    },
                }
            },
        }
    }
}

/// The length that a file must be extended to so that a range of it exists, if
/// it is shorter.
pub fn sys_fallocate(
    mode: usize,
    offset: isize,
    len: isize,
    file: SysResult<SizedFile>,
    size: SysResult<usize>,
) -> (r: SysResult<Option<usize>>)
    ensures
        r == extended_to(mode, offset, len, file, size),
{
    if offset < 0 || len <= 0 {
        return Err(Errno::EINVAL);
    }
    if mode != 0 {
        return Err(Errno::EOPNOTSUPP);
    }
    let end: usize = match (offset as usize).checked_add(len as usize) {
        Some(n) => n,
        None => {
            return Err(Errno::EINVAL);
        },
    };
    match file {
        Err(e) => {
            return Err(e);
        },
        Ok(f) => {
            if !f.writable {
                return Err(Errno::EBADF);
            }
            if !f.fs_file {
                return Err(Errno::EINVAL);
            }
        },
    }
    match size {
        Err(e) => Err(e),
        Ok(n) => if n < end {
            Ok(Some(end))
        } else {
            Ok(None)
        },
    }
}

pub const X_OK: usize = 1;

pub const W_OK: usize = 2;

pub const R_OK: usize = 4;

/// The permission bits of a file; one without any has those usual for its kind.
pub open spec fn perm_bits(ty: InodeType, mode: u32) -> u32 {
    if mode & 0o777 != 0 {
        mode & 0o777
    } else {
        match ty {
            InodeType::Directory => 0o755,
            InodeType::Regular => 0o644,
            InodeType::SymLink => 0o777,
            _ => 0o666,
        }
    }
}

fn access_perm_bits(ty: InodeType, mode: u32) -> (r: u32)
    ensures
        r == perm_bits(ty, mode),
{
    let perm: u32 = mode & 0o777;
    if perm != 0 {
        return perm;
    }
    match ty {
        InodeType::Directory => 0o755,
        InodeType::Regular => 0o644,
        InodeType::SymLink => 0o777,
        _ => 0o666,
    }
}

/// Some class of users has each of the wanted permissions.
pub open spec fn access_granted(perm: u32, mode: usize) -> bool {
    &&& mode & R_OK != 0 ==> perm & 0o444 != 0
    &&& mode & W_OK != 0 ==> perm & 0o222 != 0
    &&& mode & X_OK != 0 ==> perm & 0o111 != 0
}

/// Asks whether a named file exists and can be read, written or executed by
/// anyone. `found` are kind and mode of the file.
pub fn sys_faccessat(
    dirfd: isize,
    path: SysResult<String>,
    mode: usize,
    flags: usize,
    found: Lookups<(InodeType, u32)>,
) -> (r: SysResult<usize>)
    ensures
        r == access_result(dirfd, path, mode, flags, found),
{
    if mode & !7 != 0 || flags & !FACCESSAT_ALLOWED_FLAGS != 0 {
        return Err(Errno::EINVAL);
    }
    let p = match path {
        Ok(p) => p,
        Err(e) => {
            return Err(e);
        },
    };
    let (ty, file_mode) = match found.pick(find_target(dirfd, p.as_str(), flags)) {
        Ok(s) => s,
        Err(e) => {
            return Err(e);
        },
    };
    if mode == 0 {
        proof {
            assert(0usize & 4 == 0 && 0usize & 2 == 0 && 0usize & 1 == 0) by (bit_vector);
        }
        return Ok(0);
    }
    let perm: u32 = access_perm_bits(ty, file_mode);
    if mode & R_OK != 0 && perm & 0o444 == 0 {
        return Err(Errno::EACCES);
    }
    if mode & W_OK != 0 && perm & 0o222 == 0 {
        return Err(Errno::EACCES);
    }
    if mode & X_OK != 0 && perm & 0o111 == 0 {
        return Err(Errno::EACCES);
    }
    Ok(0)
}

/// What a question for access comes to.
pub open spec fn access_result(
    dirfd: isize,
    path: SysResult<String>,
    mode: usize,
    flags: usize,
    found: Lookups<(InodeType, u32)>,
) -> SysResult<usize> {
    if mode & !7 != 0 || flags & !FACCESSAT_ALLOWED_FLAGS != 0 {
        Err(Errno::EINVAL)
    } else {
        match path {
            Err(e) => Err(e),
            Ok(p) => match looked_up(found, target_of(dirfd, p@, flags)) {
                Err(e) => Err(e),
                Ok((ty, m)) => if access_granted(perm_bits(ty, m), mode) {
                    Ok(0)
                } else {
                    Err(Errno::EACCES)
                },
            },
        }
    }
}

/// Access that is granted for several permissions is granted for each of them,
/// and existence is always granted.
pub proof fn access_is_monotonic(perm: u32, more: usize, less: usize)
    requires
        less & !more == 0,
        access_granted(perm, more),
    ensures
        access_granted(perm, less),
        access_granted(perm, 0),
{
    assert(less & !more == 0 ==> (less & 4 != 0 ==> more & 4 != 0) && (less & 2 != 0 ==> more & 2
        != 0) && (less & 1 != 0 ==> more & 1 != 0)) by (bit_vector);
    assert(0usize & 4 == 0 && 0usize & 2 == 0 && 0usize & 1 == 0) by (bit_vector);
}

/// A change of times that leaves both out changes nothing, whatever the file.
pub proof fn omitted_times_change_nothing(
    dirfd: isize,
    path: Option<SysResult<String>>,
    a: TimeSpec,
    m: TimeSpec,
    now: TimeSpec,
)
    requires
        a.nsec == UTIME_OMIT,
        m.nsec == UTIME_OMIT,
    ensures
        times_change(dirfd, path, UserIn::Value((a, m)), 0, now) == Ok::<
            Option<TimesChange>,
            Errno,
        >(None),
{
    assert(0usize & !0x1100usize == 0) by (bit_vector);
}

/// Which file a call speaks of: a path follows links unless that is switched off;
/// without a path the directory itself or the descriptor, if that is allowed.
pub proof fn files_are_found_as_named(dirfd: isize, path: Seq<char>, flags: usize)
    ensures
        ({
            let r = target_of(dirfd, path, flags);
            &&& path.len() > 0 ==> r == Ok::<Target, Errno>(Target::Path(flags & 0x100 == 0))
            &&& path.len() == 0 && flags & 0x1000 == 0 ==> r == Err::<Target, Errno>(Errno::ENOENT)
            &&& path.len() == 0 && flags & 0x1000 != 0
                && dirfd == -100 ==> r == Ok::<Target, Errno>(
                Target::Cwd,
            )
            &&& path.len() == 0 && flags & 0x1000 != 0
                && dirfd >= 0 ==> (r matches Ok(Target::Fd(fd))
                && fd == dirfd)
            &&& path.len() == 0 && flags & 0x1000 != 0 && dirfd < 0 && dirfd != -100 ==> r == Err::<
                Target,
                Errno,
            >(Errno::EBADF)
        }),
{
}

/// What is found is taken from where the file was looked for.
pub proof fn lookups_are_taken_from_their_target(l: Lookups<Stat>, fd: usize, e: Errno)
    ensures
        looked_up(l, Ok(Target::Cwd)) == l.cwd,
        looked_up(l, Ok(Target::Fd(fd))) == l.fd,
        looked_up(l, Ok(Target::Path(true))) == l.follow,
        looked_up(l, Ok(Target::Path(false))) == l.nofollow,
        looked_up(l, Err(e)) == Err::<Stat, Errno>(e),
{
}

/// The extended attributes tell what the plain ones do, each its own, and claim to
/// hold exactly the basic ones.
pub proof fn extended_attributes_repeat_the_plain_ones(s: Stat)
    ensures
        ({
            let x = extended(s);
            &&& x.stx_mask == 0x7ff
            &&& x.stx_blksize == s.st_blksize
            &&& x.stx_nlink == s.st_nlink
            &&& x.stx_uid == s.st_uid
            &&& x.stx_gid == s.st_gid
            &&& x.stx_ino == s.st_ino
            &&& x.stx_size == s.st_size
            &&& x.stx_blocks == s.st_blocks
            &&& s.st_mode <= 0xffff ==> x.stx_mode == s.st_mode
            &&& x.stx_atime.sec == s.st_atime.sec && x.stx_mtime.sec == s.st_mtime.sec
                && x.stx_ctime.sec == s.st_ctime.sec
            &&& 0 <= s.st_atime.nsec < 1_000_000_000 ==> x.stx_atime.nsec == s.st_atime.nsec
            &&& 0 <= s.st_mtime.nsec < 1_000_000_000 ==> x.stx_mtime.nsec == s.st_mtime.nsec
            &&& 0 <= s.st_ctime.nsec < 1_000_000_000 ==> x.stx_ctime.nsec == s.st_ctime.nsec
            &&& x.stx_btime.sec == 0 && x.stx_btime.nsec == 0
        }),
{
}

/// Attributes are reported as they were found; the file is the named one and the
/// flags must be known.
pub proof fn found_attributes_are_reported(
    dirfd: isize,
    path: String,
    flags: usize,
    mask: u32,
    found: Lookups<Stat>,
    s: Stat,
)
    requires
        path@.len() > 0,
        found.follow == Ok::<Stat, Errno>(s),
    ensures
        flags & !0x1900usize == 0 && flags & 0x100 == 0 ==> stat_reply(
            dirfd,
            Ok(path),
            flags,
            found,
            UserOut::Writable,
        ) == (Reply { ret: Ok(0), out: Some(s) }),
        flags & !0x7900usize == 0 && flags & 0x100 == 0 && mask & 0x8000_0000 == 0 ==> (statx_reply(
            dirfd,
            Ok(path),
            flags,
            mask,
            found,
            UserOut::Writable,
        ).out matches Some(x) && x.stx_size == s.st_size && x.stx_ino == s.st_ino),
        flags & !0x1900usize != 0 ==> stat_reply(dirfd, Ok(path), flags, found, UserOut::Writable)
            == failed::<Stat>(Errno::EINVAL),
        flags & !0x7900usize != 0 ==> statx_reply(
            dirfd,
            Ok(path),
            flags,
            mask,
            found,
            UserOut::Writable,
        ) == failed::<Statx>(Errno::EINVAL),
{
}

/// Times are set to what was given, to the time of the call, or not at all, the
/// first of access and the second of modification; without times both are the time
/// of the call.
pub proof fn times_are_set_as_given(a: TimeSpec, m: TimeSpec, now: TimeSpec)
    ensures
        chosen_times(UserIn::Null, now) == Ok::<(Option<TimeSpec>, Option<TimeSpec>), Errno>(
            (Some(now), Some(now)),
        ),
        ({
            let r = chosen_times(UserIn::Value((a, m)), now);
            let good = |t: TimeSpec|
                0 <= t.nsec <= 999_999_999 || t.nsec == 1_073_741_823 || t.nsec == 1_073_741_822;
            &&& r is Ok <==> good(a) && good(m)
            &&& r is Err ==> r->Err_0 == Errno::EINVAL
            &&& r matches Ok((x, y)) ==> {
                &&& 0 <= a.nsec <= 999_999_999 ==> x == Some(a)
                &&& a.nsec == 1_073_741_823 ==> x == Some(now)
                &&& a.nsec == 1_073_741_822 ==> x is None
                &&& 0 <= m.nsec <= 999_999_999 ==> y == Some(m)
                &&& m.nsec == 1_073_741_823 ==> y == Some(now)
                &&& m.nsec == 1_073_741_822 ==> y is None
            }
        }),
{
}

/// A change of times goes to the named file, with each time in its place.
pub proof fn times_go_to_the_named_file(
    dirfd: isize,
    path: String,
    a: TimeSpec,
    m: TimeSpec,
    flags: usize,
    now: TimeSpec,
)
    requires
        path@.len() > 0,
        0 <= a.nsec <= 999_999_999,
        0 <= m.nsec <= 999_999_999,
        flags & !0x1100usize == 0,
    ensures
        times_change(dirfd, Some(Ok(path)), UserIn::Value((a, m)), flags, now) matches Ok(Some(c))
            && c.target == Target::Path(flags & 0x100 == 0) && c.atime == Some(a) && c.mtime
            == Some(m),
        dirfd >= 0 ==> (times_change(dirfd, None, UserIn::Value((a, m)), flags, now) matches Ok(Some(c))
            && c.target == Target::Fd(dirfd as usize) && c.atime == Some(a) && c.mtime == Some(m)),
{
}

/// A change of permissions keeps the twelve permission bits of the mode, and drops
/// the kind of file.
pub proof fn permissions_are_the_low_bits(
    dirfd: isize,
    path: String,
    fd: usize,
    mode: usize,
    flags: usize,
)
    requires
        path@.len() > 0,
        flags & !0x1100usize == 0,
    ensures
        mode <= 0o177777 ==> (mode_change(dirfd, Ok(path), mode, flags) matches Ok(c)
            && c.mode == mode
            % 4096 && c.target == Target::Path(flags & 0x100 == 0)),
        mode > 0o177777 ==> mode_change(dirfd, Ok(path), mode, flags) == Err::<ModeChange, Errno>(
            Errno::EINVAL,
        ),
        mode <= 0o177777 && fd <= isize::MAX ==> (open_mode_change(fd, mode) matches Ok(c) && c.mode
            == mode % 4096 && c.target == Target::Fd(fd)),
        mode > 0o177777 ==> open_mode_change(fd, mode) == Err::<ModeChange, Errno>(Errno::EINVAL),
{
    assert((mode & !0o177777 == 0 <==> mode
        <= 0o177777) && mode & 0o7777 == mode % 4096) by (bit_vector);
}

/// Owner and group change to what was given, each by itself; the largest number
/// leaves one as it is.
pub proof fn owners_change_by_themselves(owner: usize, group: usize, stat: Stat)
    ensures
        owner <= u32::MAX && owner != usize::MAX ==> owner_after(owner, group, stat).0 == owner,
        owner == usize::MAX ==> owner_after(owner, group, stat).0 == stat.st_uid,
        group <= u32::MAX && group != usize::MAX ==> owner_after(owner, group, stat).1 == group,
        group == usize::MAX ==> owner_after(owner, group, stat).1 == stat.st_gid,
{
}

/// A file is cut to the length that was asked for; one that cannot be written, or
/// that is no file of a file system, is not.
pub proof fn files_get_the_length_asked_for(
    length: isize,
    f: SizedFile,
    size: usize,
    offset: isize,
    len: isize,
)
    ensures
        truncated_to(length, Ok(f)) is Ok <==> length >= 0 && f.writable && f.fs_file,
        truncated_to(length, Ok(f)) matches Ok(n) ==> n == length,
        truncated_to(length, Ok(f)) is Err ==> truncated_to(length, Ok(f))->Err_0 == Errno::EINVAL,
        ({
            let r = extended_to(0, offset, len, Ok(f), Ok(size));
            &&& r is Ok <==> offset >= 0 && len > 0 && f.writable && f.fs_file
            &&& r matches Ok(Some(n)) ==> n == offset + len && n > size
            &&& r == Ok::<Option<usize>, Errno>(None) ==> size >= offset + len
        }),
{
}

/// Access by anyone: a file is readable, writable or executable if somebody may do
/// that; a file without permission bits has those of its kind.
pub proof fn access_is_by_anyone(
    ty: InodeType,
    m: u32,
    dirfd: isize,
    path: String,
    mode: usize,
    flags: usize,
    found: Lookups<(InodeType, u32)>,
)
    requires
        path@.len() > 0,
        flags & !0x1300usize == 0,
        flags & 0x100 == 0,
        found.follow == Ok::<(InodeType, u32), Errno>((ty, m)),
    ensures
        m & 0o777 != 0 ==> perm_bits(ty, m) == m & 0o777,
        m & 0o777 == 0 ==> perm_bits(ty, m) == (if ty == InodeType::Directory {
            0o755
        } else if ty == InodeType::Regular {
            0o644
        } else if ty == InodeType::SymLink {
            0o777
        } else {
            0o666u32
        }),
        mode & !7usize != 0 <==> access_result(dirfd, Ok(path), mode, flags, found) == err(Errno::EINVAL),
        mode & !7usize == 0 ==> (access_result(dirfd, Ok(path), mode, flags, found) == ok(0) <==> (mode
            & 4 == 0 || perm_bits(ty, m) & 0o444 != 0) && (mode & 2 == 0 || perm_bits(ty, m) & 0o222
            != 0) && (mode & 1 == 0 || perm_bits(ty, m) & 0o111 != 0)),
        access_result(dirfd, Ok(path), mode, flags, found) is Err && mode & !7usize == 0
            ==> access_result(dirfd, Ok(path), mode, flags, found) == err(Errno::EACCES),
{
}

} // verus!
