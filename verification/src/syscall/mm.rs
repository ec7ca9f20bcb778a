//! Memory mapping calls.

use crate::errno::{err, ok, Errno, SysResult};
use crate::syscall::ipc::PAGE_SIZE;
use crate::user::UserOut;
use vstd::prelude::*;

verus! {

/// Pages from `start` to before `end`.
#[derive(Debug, Clone, Copy, PartialEq, Eq, Structural)]
pub struct PageRange {
    pub start: usize,
    pub end: usize,
}

/// The page that holds an address.
pub open spec fn page_floor(addr: int) -> int {
    addr / (PAGE_SIZE as int)
}

/// The first page at or above an address.
pub open spec fn page_ceil(addr: int) -> int {
    (addr + PAGE_SIZE - 1) / (PAGE_SIZE as int)
}

/// Whole pages of a length in bytes.
pub open spec fn whole_pages(len: int) -> int {
    page_ceil(len) * PAGE_SIZE
}

fn floor(addr: usize) -> (r: usize)
    ensures
        r == page_floor(addr as int),
{
    addr / PAGE_SIZE
}

fn ceil(addr: usize) -> (r: usize)
    ensures
        r == page_ceil(addr as int),
{
    if addr % PAGE_SIZE == 0 {
        addr / PAGE_SIZE
    } else {
        addr / PAGE_SIZE + 1
    }
}

/// A length rounded up to whole pages, if that is representable.
pub open spec fn rounded(len: usize) -> Option<usize> {
    if len + PAGE_SIZE - 1 > usize::MAX {
        None
    } else {
        Some(whole_pages(len as int) as usize)
    }
}

fn round_up(len: usize) -> (r: Option<usize>)
    ensures
        r == rounded(len),
        r matches Some(n) ==> n >= len && n % PAGE_SIZE == 0,
{
    match len.checked_add(PAGE_SIZE - 1) {
        Some(n) => Some(n / PAGE_SIZE * PAGE_SIZE),
        None => None,
    }
}

/// The heap of a process.
#[derive(Debug, Clone, Copy, PartialEq, Eq, Structural)]
pub struct Heap {
    pub bottom: usize,
    pub brk: usize,
}

/// What a change of the heap end needs.
#[derive(Debug, Clone, Copy, PartialEq, Eq, Structural)]
pub enum BrkStep {
    /// Nothing changes; this is returned.
    Keep(usize),
    /// These pages are unmapped first.
    Shrink(PageRange),
    /// These pages are mapped first.
    Grow(PageRange),
    /// Only the end moves, within its page.
    Move,
}

/// What moving the heap end to `addr` needs. A query and an address below the
/// heap change nothing.
pub open spec fn brk_step(h: Heap, addr: usize) -> BrkStep {
    if addr == 0 || addr < h.bottom || addr == h.brk {
        BrkStep::Keep(h.brk)
    } else if addr < h.brk && page_ceil(addr as int) < page_ceil(h.brk as int) {
        BrkStep::Shrink(
            PageRange {
                start: page_ceil(addr as int) as usize,
                end: page_ceil(h.brk as int) as usize,
            },
        )
    } else if addr > h.brk && page_ceil(addr as int) > page_ceil(h.brk as int) {
        BrkStep::Grow(
            PageRange {
                start: page_ceil(h.brk as int) as usize,
                end: page_ceil(addr as int) as usize,
            },
        )
    } else {
        BrkStep::Move
    }
}

/// Plans a move of the heap end.
pub fn sys_brk(h: &Heap, addr: usize) -> (r: BrkStep)
    ensures
        r == brk_step(*h, addr),
{
    if addr == 0 || addr < h.bottom || addr == h.brk {
        return BrkStep::Keep(h.brk);
    }
    let old_end: usize = ceil(h.brk);
    let new_end: usize = ceil(addr);
    if addr < h.brk {
        if new_end < old_end {
            return BrkStep::Shrink(PageRange { start: new_end, end: old_end });
        }
    } else if new_end > old_end {
        return BrkStep::Grow(PageRange { start: old_end, end: new_end });
    }
    BrkStep::Move
}

/// Whether moving the end of the heap goes from `before` to `after` and returns `r`.
pub open spec fn break_moved(
    before: Heap,
    after: Heap,
    addr: usize,
    step: BrkStep,
    pages: SysResult<()>,
    r: SysResult<usize>,
) -> bool {
    match step {
        BrkStep::Keep(b) => r == ok(before.brk) && after == before,
        BrkStep::Shrink(_) => match pages {
            Err(e) => r == err(e) && after == before,
            Ok(_) => r == ok(addr) && after.brk == addr,
        },
        BrkStep::Grow(_) => match pages {
            Err(_) => r == ok(before.brk) && after == before,
            Ok(_) => r == ok(addr) && after.brk == addr,
        },
        BrkStep::Move => r == ok(addr) && after.brk == addr,
    }
}

/// Moves the heap end once the planned pages were changed. Growth that fails
/// leaves the heap as it was and returns its old end; unmapping that fails is
/// an error.
pub fn brk_done(h: &mut Heap, addr: usize, step: BrkStep, pages: SysResult<()>) -> (r: SysResult<
    usize,
>)
    requires
        step == brk_step(*old(h), addr),
    ensures
        final(h).bottom == old(h).bottom,
        break_moved(*old(h), *final(h), addr, step, pages, r),
{
    match step {
        BrkStep::Keep(b) => {
            return Ok(b);
        },
        BrkStep::Shrink(_) => match pages {
            Err(e) => {
                return Err(e);
            },
            Ok(_) => {},
        },
        BrkStep::Grow(_) => match pages {
            Err(_) => {
                return Ok(h.brk);
            },
            Ok(_) => {},
        },
        BrkStep::Move => {},
    }
    h.brk = addr;
    Ok(addr)
}

/// The heap end never falls below the bottom of the heap.
pub proof fn heap_end_stays_above_the_bottom(h: Heap, addr: usize)
    requires
        h.bottom <= h.brk,
        !(brk_step(h, addr) is Keep),
    ensures
        h.bottom <= addr,
{
}

pub const PROT_READ: u32 = 1;

pub const PROT_WRITE: u32 = 2;

pub const PROT_EXEC: u32 = 4;

pub const MAP_SHARED: u32 = 0x01;

pub const MAP_PRIVATE: u32 = 0x02;

pub const MAP_SHARED_VALIDATE: u32 = 0x03;

pub const MAP_FIXED: u32 = 0x10;

pub const MAP_ANONYMOUS: u32 = 0x20;

pub const MAP_LOCKED: u32 = 0x2000;

pub const MAP_FIXED_NOREPLACE: u32 = 0x10_0000;

/// All mapping flags that exist.
pub const MAP_ALL: u32 = 0x12_e933;

/// What may be done with mapped memory.
#[derive(Debug, Clone, Copy, PartialEq, Eq, Structural)]
pub struct Access {
    pub read: bool,
    pub write: bool,
    pub execute: bool,
}

/// The access that protection bits ask for.
pub open spec fn access_of(prot: u32) -> Option<Access> {
    if prot & !(PROT_READ | PROT_WRITE | PROT_EXEC) != 0 {
        None
    } else {
        Some(
            Access {
                read: prot & PROT_READ != 0,
                write: prot & PROT_WRITE != 0,
                execute: prot & PROT_EXEC != 0,
            },
        )
    }
}

fn parse_prot(prot: u32) -> (r: Option<Access>)
    ensures
        r == access_of(prot),
{
    if prot & !(PROT_READ | PROT_WRITE | PROT_EXEC) != 0 {
        None
    } else {
        Some(
            Access {
                read: prot & PROT_READ != 0,
                write: prot & PROT_WRITE != 0,
                execute: prot & PROT_EXEC != 0,
            },
        )
    }
}

/// A mapping that is asked for.
#[derive(Debug, Clone, Copy, PartialEq, Eq, Structural)]
pub struct MmapRequest {
    /// Wanted address, or anywhere.
    pub addr: Option<usize>,
    /// Length in whole pages.
    pub map_len: usize,
    pub access: Access,
    pub shared: bool,
    /// Existing mappings are replaced.
    pub replace: bool,
    /// Existing mappings make the call fail.
    pub noreplace: bool,
    pub locked: bool,
    /// No file is mapped.
    pub anonymous: bool,
    /// Where the mapping starts in the file, and how many bytes of it are mapped.
    pub offset: usize,
    pub len: usize,
}

/// Flags ask for shared memory whose other flags are all to be understood.
pub open spec fn validates(flags: u32) -> bool {
    flags & MAP_SHARED_VALIDATE == MAP_SHARED_VALIDATE
}

pub open spec fn wants_shared(flags: u32) -> bool {
    flags & MAP_SHARED != 0 || validates(flags)
}

pub open spec fn wants_private(flags: u32) -> bool {
    flags & MAP_PRIVATE != 0 && !validates(flags)
}

pub open spec fn wants_fixed(flags: u32) -> bool {
    flags & MAP_FIXED != 0 || flags & MAP_FIXED_NOREPLACE != 0
}

/// What a mapping call asks for; `file` tells whether the descriptor is open.
pub open spec fn mmap_request(
    addr: usize,
    len: usize,
    prot: u32,
    flags: u32,
    fd: isize,
    file: SysResult<()>,
    offset: usize,
) -> SysResult<MmapRequest> {
    let anonymous = flags & MAP_ANONYMOUS != 0;
    if validates(flags) && flags & !MAP_ALL != 0 {
        Err(Errno::EOPNOTSUPP)
    } else if !anonymous && fd < 0 {
        Err(Errno::EBADF)
    } else if !anonymous && file is Err {
        Err(file->Err_0)
    } else if len == 0 {
        Err(Errno::EINVAL)
    } else if rounded(len) is None {
        Err(Errno::ENOMEM)
    } else if access_of(prot) is None || wants_shared(flags) == wants_private(flags) {
        Err(Errno::EINVAL)
    } else if wants_fixed(flags) && (addr % PAGE_SIZE != 0 || addr == 0) {
        Err(Errno::EINVAL)
    } else if anonymous && offset != 0 {
        Err(Errno::EINVAL)
    } else if !anonymous && offset % PAGE_SIZE != 0 {
        Err(Errno::EINVAL)
    } else {
        Ok(
            MmapRequest {
                addr: if wants_fixed(flags) {
                    Some(addr)
                } else if addr != 0 {
                    Some((addr - addr % PAGE_SIZE) as usize)
                } else {
                    None
                },
                map_len: rounded(len)->0,
                access: access_of(prot)->0,
                shared: wants_shared(flags),
                replace: flags & MAP_FIXED != 0,
                noreplace: flags & MAP_FIXED_NOREPLACE != 0,
                locked: flags & MAP_LOCKED != 0,
                anonymous,
                offset,
                len,
            },
        )
    }
}

/// Checks the arguments of a mapping call.
pub fn sys_mmap(
    addr: usize,
    len: usize,
    prot: usize,
    flags: usize,
    fd: isize,
    file: SysResult<()>,
    offset: usize,
) -> (r: SysResult<MmapRequest>)
    ensures
        r == mmap_request(addr, len, prot as u32, flags as u32, fd, file, offset),
{
    let f: u32 = flags as u32;
    let shared_validate = f & MAP_SHARED_VALIDATE == MAP_SHARED_VALIDATE;
    if shared_validate && f & !MAP_ALL != 0 {
        return Err(Errno::EOPNOTSUPP);
    }
    let anonymous = f & MAP_ANONYMOUS != 0;
    if !anonymous {
        if fd < 0 {
            return Err(Errno::EBADF);
        }
        match file {
            Err(e) => {
                return Err(e);
            },
            Ok(_) => {},
        }
    }
    if len == 0 {
        return Err(Errno::EINVAL);
    }
    let map_len: usize = match round_up(len) {
        Some(n) => n,
        None => {
            return Err(Errno::ENOMEM);
        },
    };
    let access = match parse_prot(prot as u32) {
        Some(a) => a,
        None => {
            return Err(Errno::EINVAL);
        },
    };
    let shared = f & MAP_SHARED != 0 || shared_validate;
    let private = f & MAP_PRIVATE != 0 && !shared_validate;
    if shared == private {
        return Err(Errno::EINVAL);
    }
    let replace = f & MAP_FIXED != 0;
    let noreplace = f & MAP_FIXED_NOREPLACE != 0;
    let locked = f & MAP_LOCKED != 0;
    let fixed = replace || noreplace;
    if fixed && (addr % PAGE_SIZE != 0 || addr == 0) {
        return Err(Errno::EINVAL);
    }
    let wanted = if fixed {
        Some(addr)
    } else if addr != 0 {
        Some(addr - addr % PAGE_SIZE)
    } else {
        None
    };
    if anonymous {
        if offset != 0 {
            return Err(Errno::EINVAL);
        }
    } else if offset % PAGE_SIZE != 0 {
        return Err(Errno::EINVAL);
    }
    Ok(
        MmapRequest {
            addr: wanted,
            map_len,
            access,
            shared,
            replace,
            noreplace,
            locked,
            anonymous,
            offset,
            len,
        },
    )
}

/// Every accepted mapping is page aligned, not empty and covers what was asked
/// for.
pub proof fn accepted_mappings_are_whole_pages(
    addr: usize,
    len: usize,
    prot: u32,
    flags: u32,
    fd: isize,
    file: SysResult<()>,
    offset: usize,
)
    ensures
        mmap_request(addr, len, prot, flags, fd, file, offset) matches Ok(q) ==> {
            &&& q.map_len % PAGE_SIZE == 0
            &&& len <= q.map_len < len + PAGE_SIZE
            &&& q.addr matches Some(a) ==> a % PAGE_SIZE == 0
        },
{
}

/// A range to unmap.
#[derive(Debug, Clone, Copy, PartialEq, Eq, Structural)]
pub struct ByteRange {
    pub addr: usize,
    pub len: usize,
}

/// What an unmapping call asks for; nothing lies below `min_addr`.
pub open spec fn munmap_request(addr: usize, len: usize, min_addr: usize) -> SysResult<ByteRange> {
    if addr % PAGE_SIZE != 0 || len == 0 || addr < min_addr || rounded(len) is None {
        Err::<ByteRange, Errno>(Errno::EINVAL)
    } else {
        Ok(ByteRange { addr, len: rounded(len)->0 })
    }
}

/// Checks the arguments of an unmapping call; nothing lies below `min_addr`.
pub fn sys_munmap(addr: usize, len: usize, min_addr: usize) -> (r: SysResult<ByteRange>)
    ensures
        r == munmap_request(addr, len, min_addr),
{
    if addr % PAGE_SIZE != 0 || len == 0 || addr < min_addr {
        return Err(Errno::EINVAL);
    }
    match round_up(len) {
        Some(n) => Ok(ByteRange { addr, len: n }),
        None => Err(Errno::EINVAL),
    }
}

pub const MREMAP_MAYMOVE: usize = 1;

pub const MREMAP_FIXED: usize = 2;

pub const MREMAP_DONTUNMAP: usize = 4;

/// A mapping to be resized or moved.
#[derive(Debug, Clone, Copy, PartialEq, Eq, Structural)]
pub struct MremapRequest {
    pub old_addr: usize,
    pub old_len: usize,
    pub new_len: usize,
    pub maymove: bool,
    pub fixed: Option<usize>,
}

/// What a remapping call asks for.
pub open spec fn mremap_request(
    old_addr: usize,
    old_size: usize,
    new_size: usize,
    flags: usize,
    new_addr: usize,
) -> SysResult<MremapRequest> {
    if old_addr % PAGE_SIZE != 0 || old_size == 0 || new_size == 0 {
        Err(Errno::EINVAL)
    } else if flags & !(MREMAP_MAYMOVE | MREMAP_FIXED | MREMAP_DONTUNMAP) != 0 || flags
        & MREMAP_DONTUNMAP != 0 {
        Err(Errno::EINVAL)
    } else if flags & MREMAP_FIXED != 0 && (flags & MREMAP_MAYMOVE == 0 || new_addr % PAGE_SIZE
        != 0) {
        Err(Errno::EINVAL)
    } else if rounded(old_size) is None || rounded(new_size) is None {
        Err(Errno::ENOMEM)
    } else {
        Ok(
            MremapRequest {
                old_addr,
                old_len: rounded(old_size)->0,
                new_len: rounded(new_size)->0,
                maymove: flags & MREMAP_MAYMOVE != 0,
                fixed: if flags & MREMAP_FIXED != 0 {
                    Some(new_addr)
                } else {
                    None
                },
            },
        )
    }
}

/// Checks the arguments of a remapping call.
pub fn sys_mremap(
    old_addr: usize,
    old_size: usize,
    new_size: usize,
    flags: usize,
    new_addr: usize,
) -> (r: SysResult<MremapRequest>)
    ensures
        r == mremap_request(old_addr, old_size, new_size, flags, new_addr),
{
    if old_addr % PAGE_SIZE != 0 || old_size == 0 || new_size == 0 {
        return Err(Errno::EINVAL);
    }
    if flags & !(MREMAP_MAYMOVE | MREMAP_FIXED | MREMAP_DONTUNMAP) != 0 {
        return Err(Errno::EINVAL);
    }
    if flags & MREMAP_DONTUNMAP != 0 {
        return Err(Errno::EINVAL);
    }
    if flags & MREMAP_FIXED != 0 && (flags & MREMAP_MAYMOVE == 0 || new_addr % PAGE_SIZE != 0) {
        return Err(Errno::EINVAL);
    }
    let old_len: usize = match round_up(old_size) {
        Some(n) => n,
        None => {
            return Err(Errno::ENOMEM);
        },
    };
    let new_len: usize = match round_up(new_size) {
        Some(n) => n,
        None => {
            return Err(Errno::ENOMEM);
        },
    };
    let fixed = if flags & MREMAP_FIXED != 0 {
        Some(new_addr)
    } else {
        None
    };
    Ok(
        MremapRequest {
            old_addr,
            old_len,
            new_len,
            maymove: flags & MREMAP_MAYMOVE != 0,
            fixed,
        },
    )
}

/// Pages whose access changes.
#[derive(Debug, Clone, Copy, PartialEq, Eq, Structural)]
pub struct ProtectRequest {
    pub range: PageRange,
    pub access: Access,
}

/// What a protection call asks for.
pub open spec fn mprotect_request(addr: usize, len: usize, prot: u32) -> SysResult<ProtectRequest> {
    if addr % PAGE_SIZE != 0 || len == 0 || access_of(prot) is None || rounded(len) is None || addr
        + rounded(len)->0 > usize::MAX {
        Err(Errno::EINVAL)
    } else {
        Ok(
            ProtectRequest {
                range: PageRange {
                    start: page_floor(addr as int) as usize,
                    end: page_floor(addr + rounded(len)->0) as usize,
                },
                access: access_of(prot)->0,
            },
        )
    }
}

/// Checks the arguments of a protection call.
pub fn sys_mprotect(addr: usize, len: usize, prot: u32) -> (r: SysResult<ProtectRequest>)
    ensures
        r == mprotect_request(addr, len, prot),
{
    if addr % PAGE_SIZE != 0 || len == 0 {
        return Err(Errno::EINVAL);
    }
    let access = match parse_prot(prot) {
        Some(a) => a,
        None => {
            return Err(Errno::EINVAL);
        },
    };
    let map_len: usize = match round_up(len) {
        Some(n) => n,
        None => {
            return Err(Errno::EINVAL);
        },
    };
    let end: usize = match addr.checked_add(map_len) {
        Some(n) => n,
        None => {
            return Err(Errno::EINVAL);
        },
    };
    Ok(ProtectRequest { range: PageRange { start: floor(addr), end: floor(end) }, access })
}

/// The pages that a byte range touches.
pub open spec fn touched_pages(addr: usize, len: usize) -> PageRange {
    PageRange {
        start: page_floor(addr as int) as usize,
        end: page_ceil(addr + len) as usize,
    }
}

/// The pages that a locking call speaks of; none for an empty range.
pub open spec fn lock_range(addr: usize, len: usize) -> SysResult<Option<PageRange>> {
    if len == 0 {
        Ok(None)
    } else if addr + len > usize::MAX {
        Err(Errno::EINVAL)
    } else {
        Ok(Some(touched_pages(addr, len)))
    }
}

/// The pages that a locking call speaks of.
pub fn mlock_vpn_range(addr: usize, len: usize) -> (r: SysResult<Option<PageRange>>)
    ensures
        r == lock_range(addr, len),
{
    if len == 0 {
        return Ok(None);
    }
    match addr.checked_add(len) {
        Some(end) => Ok(Some(PageRange { start: floor(addr), end: ceil(end) })),
        None => Err(Errno::EINVAL),
    }
}

/// An unmapped page in a range to lock means that memory is missing.
pub open spec fn lock_map_error(e: Errno) -> Errno {
    if e == Errno::EFAULT {
        Errno::ENOMEM
    } else {
        e
    }
}

fn map_error(e: Errno) -> (r: Errno)
    ensures
        r == lock_map_error(e),
{
    match e {
        Errno::EFAULT => Errno::ENOMEM,
        _ => e,
    }
}

/// The answer of a locking call. `mapped` tells whether all pages are mapped,
/// `limit` how many bytes the caller may lock; root has no limit.
pub open spec fn mlock_answer(
    addr: usize,
    len: usize,
    mapped: SysResult<()>,
    euid: usize,
    limit: usize,
) -> SysResult<Option<PageRange>> {
    match lock_range(addr, len) {
        Err(e) => Err(e),
        Ok(None) => Ok(None),
        Ok(Some(range)) => match mapped {
            Err(e) => Err(lock_map_error(e)),
            Ok(_) => if euid != 0 && limit == 0 {
                Err(Errno::EPERM)
            } else if euid != 0 && (range.end - range.start) * PAGE_SIZE > limit {
                Err(Errno::ENOMEM)
            } else {
                Ok(Some(range))
            },
        },
    }
}

/// Locks pages: answers with the pages to lock, none for an empty range.
pub fn sys_mlock(addr: usize, len: usize, mapped: SysResult<()>, euid: usize, limit: usize) -> (r:
    SysResult<Option<PageRange>>)
    ensures
        r == mlock_answer(addr, len, mapped, euid, limit),
{
    let range = match mlock_vpn_range(addr, len) {
        Err(e) => {
            return Err(e);
        },
        Ok(None) => {
            return Ok(None);
        },
        Ok(Some(range)) => range,
    };
    match mapped {
        Err(e) => {
            return Err(map_error(e));
        },
        Ok(_) => {},
    }
    if euid != 0 {
        if limit == 0 {
            return Err(Errno::EPERM);
        }
        assert(range.end >= range.start) by {
            assert(page_ceil(addr + len) >= page_floor(addr as int));
        }
        let pages: usize = range.end - range.start;
        let limit_pages: usize = limit / PAGE_SIZE;
        if pages > limit_pages {
            assert(pages * PAGE_SIZE > limit) by (nonlinear_arith)
                requires
                    pages >= limit / 4096 + 1,
                    PAGE_SIZE == 4096,
            ;
            return Err(Errno::ENOMEM);
        }
        assert(pages * PAGE_SIZE <= limit) by (nonlinear_arith)
            requires
                pages <= limit / 4096,
                PAGE_SIZE == 4096,
        ;
    }
    Ok(Some(range))
}

/// The answer of an unlocking call.
pub open spec fn munlock_answer(
    addr: usize,
    len: usize,
    mapped: SysResult<()>,
) -> SysResult<Option<PageRange>> {
    match lock_range(addr, len) {
        Err(e) => Err::<Option<PageRange>, Errno>(e),
        Ok(None) => Ok(None),
        Ok(Some(range)) => match mapped {
            Err(e) => Err(lock_map_error(e)),
            Ok(_) => Ok(Some(range)),
        },
    }
}

/// Unlocks pages: answers with the pages to unlock, none for an empty range.
pub fn sys_munlock(addr: usize, len: usize, mapped: SysResult<()>) -> (r: SysResult<
    Option<PageRange>,
>)
    ensures
        r == munlock_answer(addr, len, mapped),
{
    let range = match mlock_vpn_range(addr, len) {
        Err(e) => {
            return Err(e);
        },
        Ok(None) => {
            return Ok(None);
        },
        Ok(Some(range)) => range,
    };
    match mapped {
        Err(e) => Err(map_error(e)),
        Ok(_) => Ok(Some(range)),
    }
}

/// What a memory policy query writes: the default policy, and how many words of
/// zeros of the node mask.
pub struct PolicyReply {
    pub ret: SysResult<usize>,
    pub mode: Option<i32>,
    pub words: usize,
}

/// Whether asking for the memory policy returns `r`.
pub open spec fn policy_told(
    mode: UserOut,
    nodemask: UserOut,
    maxnode: usize,
    flags: usize,
    r: PolicyReply,
) -> bool {
    flags & !3usize == 0 ==> {
        &&& r.mode == (if mode == UserOut::Writable {
            Some(0i32)
        } else {
            None
        })
        &&& if mode == UserOut::Fault {
            r.ret == err(Errno::EFAULT) && r.words == 0
        } else if nodemask == UserOut::Null || maxnode == 0 {
            r.ret == ok(0) && r.words == 0
        } else if nodemask == UserOut::Fault {
            r.ret == err(Errno::EFAULT) && r.words == 0
        } else {
            r.ret == ok(0) && r.words == (maxnode + 63) / 64
        }
    }
}

/// Queries the memory policy, which is always the default one on no particular
/// node.
pub fn sys_get_mempolicy(mode: UserOut, nodemask: UserOut, maxnode: usize, flags: usize) -> (r:
    PolicyReply)
    ensures
        flags & !3usize != 0 ==> r.ret == err(Errno::EINVAL) && r.mode is None && r.words == 0,
        policy_told(mode, nodemask, maxnode, flags, r),
{
    if flags & !3usize != 0 {
        return PolicyReply { ret: Err(Errno::EINVAL), mode: None, words: 0 };
    }
    let out = match mode {
        UserOut::Null => None,
        UserOut::Fault => {
            return PolicyReply { ret: Err(Errno::EFAULT), mode: None, words: 0 };
        },
        UserOut::Writable => Some(0),
    };
    if maxnode == 0 {
        return PolicyReply { ret: Ok(0), mode: out, words: 0 };
    }
    match nodemask {
        UserOut::Null => PolicyReply { ret: Ok(0), mode: out, words: 0 },
        UserOut::Fault => PolicyReply { ret: Err(Errno::EFAULT), mode: out, words: 0 },
        UserOut::Writable => PolicyReply {
            ret: Ok(0),
            mode: out,
            words: (maxnode - 1) / 64 + 1,
        },
    }
}

/// What advice on memory needs.
#[derive(Debug, Clone, Copy, PartialEq, Eq, Structural)]
pub enum AdviceStep {
    /// Nothing.
    Done,
    /// Children get these pages wiped, or kept.
    ForkBehaviour { range: PageRange, wipe: bool },
    /// These pages must be fit for the advice.
    Check(PageRange),
}

/// Advice that is accepted without effect.
pub open spec fn passive_advice(a: i32) -> bool {
    ||| 0 <= a <= 4
    ||| a == 8
    ||| 10 <= a <= 17
    ||| 20 <= a <= 23
    ||| 25 <= a <= 27
}

/// What advice on memory comes to.
pub open spec fn advice_step(addr: usize, len: usize, advice: i32) -> SysResult<AdviceStep> {
    if addr % PAGE_SIZE != 0 {
        Err::<AdviceStep, Errno>(Errno::EINVAL)
    } else if len == 0 {
        Ok(AdviceStep::Done)
    } else if addr + len > usize::MAX {
        Err(Errno::EINVAL)
    } else if advice == 18 || advice == 19 {
        Ok(
            AdviceStep::ForkBehaviour {
                range: touched_pages(addr, len),
                wipe: advice == 18,
            },
        )
    } else if passive_advice(advice) {
        Ok(AdviceStep::Check(touched_pages(addr, len)))
    } else {
        Err(Errno::EINVAL)
    }
}

/// Checks advice on memory.
pub fn sys_madvise(addr: usize, len: usize, advice: i32) -> (r: SysResult<AdviceStep>)
    ensures
        r == advice_step(addr, len, advice),
{
    if addr % PAGE_SIZE != 0 {
        return Err(Errno::EINVAL);
    }
    if len == 0 {
        return Ok(AdviceStep::Done);
    }
    let end: usize = match addr.checked_add(len) {
        Some(n) => n,
        None => {
            return Err(Errno::EINVAL);
        },
    };
    let range = PageRange { start: floor(addr), end: ceil(end) };
    if advice == 18 || advice == 19 {
        return Ok(AdviceStep::ForkBehaviour { range, wipe: advice == 18 });
    }
    if (0 <= advice && advice <= 4) || advice == 8 || (10 <= advice && advice <= 17) || (20
        <= advice && advice <= 23) || (25 <= advice && advice <= 27) {
        return Ok(AdviceStep::Check(range));
    }
    Err(Errno::EINVAL)
}

pub const MS_ASYNC: i32 = 1;

pub const MS_INVALIDATE: i32 = 2;

pub const MS_SYNC: i32 = 4;

/// What a request to write mapped pages back comes to.
pub open spec fn msync_answer(addr: usize, len: usize, flags: i32) -> SysResult<Option<PageRange>> {
    if addr % PAGE_SIZE != 0 || flags & !(MS_ASYNC | MS_INVALIDATE | MS_SYNC) != 0 || (
    flags & MS_ASYNC != 0 && flags & MS_SYNC != 0) {
        Err::<Option<PageRange>, Errno>(Errno::EINVAL)
    } else {
        lock_range(addr, len)
    }
}

/// Checks a request to write mapped pages back. Answers with the pages that
/// must be mapped, none for an empty range.
pub fn sys_msync(addr: usize, len: usize, flags: i32) -> (r: SysResult<Option<PageRange>>)
    ensures
        r == msync_answer(addr, len, flags),
{
    if addr % PAGE_SIZE != 0 {
        return Err(Errno::EINVAL);
    }
    if flags & !(MS_ASYNC | MS_INVALIDATE | MS_SYNC) != 0 {
        return Err(Errno::EINVAL);
    }
    if flags & MS_ASYNC != 0 && flags & MS_SYNC != 0 {
        return Err(Errno::EINVAL);
    }
    mlock_vpn_range(addr, len)
}

/// The touched pages hold every byte of the range.
pub proof fn touched_pages_hold_the_range(addr: usize, len: usize, a: int)
    requires
        addr + len <= usize::MAX,
        addr <= a < addr + len,
    ensures
        touched_pages(addr, len).start <= page_floor(a) < touched_pages(addr, len).end,
{
}

/// An accepted mapping is the one that was asked for: where a file is mapped, it
/// starts in the file at the given offset and takes the given number of bytes;
/// protection and sharing are those of the arguments, and a fixed address is kept.
pub proof fn mappings_are_what_was_asked_for(
    addr: usize,
    len: usize,
    prot: u32,
    flags: u32,
    fd: isize,
    file: SysResult<()>,
    offset: usize,
    q: MmapRequest,
)
    requires
        mmap_request(addr, len, prot, flags, fd, file, offset) == Ok::<MmapRequest, Errno>(q),
    ensures
        q.offset == offset,
        q.len == len,
        len > 0,
        q.anonymous == (flags & 0x20 != 0),
        q.anonymous ==> offset == 0,
        !q.anonymous ==> offset % 4096 == 0 && fd >= 0 && file is Ok,
        q.map_len % 4096 == 0,
        len <= q.map_len < len + 4096,
        q.access.read == (prot & 1 != 0),
        q.access.write == (prot & 2 != 0),
        q.access.execute == (prot & 4 != 0),
        q.shared == (flags & 1 != 0),
        q.replace == (flags & 0x10 != 0),
        q.noreplace == (flags & 0x10_0000 != 0),
        q.locked == (flags & 0x2000 != 0),
        q.replace || q.noreplace ==> q.addr == Some(addr) && addr != 0 && addr % 4096 == 0,
        !q.replace && !q.noreplace && addr == 0 ==> q.addr is None,
        !q.replace && !q.noreplace && addr != 0 ==> q.addr is Some && q.addr->0 <= addr < q.addr->0
            + 4096 && q.addr->0 % 4096 == 0,
{
    assert(flags & 3 == 3 ==> flags & 1 != 0) by (bit_vector);
}

/// A mapping that is sound in itself is accepted: this is when success is owed.
pub proof fn sound_mappings_are_accepted(
    addr: usize,
    len: usize,
    prot: u32,
    flags: u32,
    fd: isize,
    file: SysResult<()>,
    offset: usize,
)
    requires
        0 < len <= usize::MAX - 4095,
        prot & !7 == 0,
        flags & 3 == 1 || flags & 3 == 2,
        flags & 0x10_0010 == 0 || (addr != 0 && addr % 4096 == 0),
        flags & 0x20 != 0 ==> offset == 0,
        flags & 0x20 == 0 ==> fd >= 0 && file is Ok && offset % 4096 == 0,
    ensures
        mmap_request(addr, len, prot, flags, fd, file, offset) is Ok,
{
    assert(flags & 3 == 1 || flags & 3 == 2 ==> flags & 3 != 3 && (flags & 1 != 0) != (flags & 2
        != 0) && (flags & 0x10_0010 == 0 ==> flags & 0x10 == 0 && flags & 0x10_0000 == 0))
        by (bit_vector);
    assert(1u32 | 2u32 | 4u32 == 7) by (bit_vector);
}

/// Mappings are refused for these reasons, in this order: unknown flags where all
/// are to be understood, a descriptor that is not open, no length, a length that
/// cannot be rounded, and then anything that contradicts itself.
pub proof fn mappings_are_refused_in_order(
    addr: usize,
    len: usize,
    prot: u32,
    flags: u32,
    fd: isize,
    file: SysResult<()>,
    offset: usize,
)
    ensures
        ({
            let r = mmap_request(addr, len, prot, flags, fd, file, offset);
            let known = flags & 3 != 3 || flags & !0x12_e933 == 0;
            let named = flags & 0x20 != 0 || fd >= 0;
            let open = flags & 0x20 != 0 || file is Ok;
            &&& !known <==> r == Err::<MmapRequest, Errno>(Errno::EOPNOTSUPP) && !known
            &&& known && !named ==> r == Err::<MmapRequest, Errno>(Errno::EBADF)
            &&& known && named && !open ==> r == Err::<MmapRequest, Errno>(file->Err_0)
            &&& known && named && open && len == 0 ==> r == Err::<MmapRequest, Errno>(Errno::EINVAL)
            &&& known && named && open && len > usize::MAX - 4095 ==> r == Err::<
                MmapRequest,
                Errno,
            >(Errno::ENOMEM)
            &&& known && named && open && 0 < len <= usize::MAX - 4095 && r is Err ==> r == Err::<
                MmapRequest,
                Errno,
            >(Errno::EINVAL)
        }),
{
}

/// A change of protection speaks of exactly the pages from the one at the address
/// to the one that holds the last byte, with the access of the protection bits.
pub proof fn protections_are_what_was_asked_for(
    addr: usize,
    len: usize,
    prot: u32,
    q: ProtectRequest,
)
    requires
        mprotect_request(addr, len, prot) == Ok::<ProtectRequest, Errno>(q),
    ensures
        addr % 4096 == 0,
        len > 0,
        prot & !7 == 0,
        q.range.start * 4096 == addr,
        q.range.end * 4096 >= addr + len,
        q.range.end * 4096 < addr + len + 4096,
        q.access.read == (prot & 1 != 0),
        q.access.write == (prot & 2 != 0),
        q.access.execute == (prot & 4 != 0),
{
    assert(1u32 | 2u32 | 4u32 == 7) by (bit_vector);
}

/// A remapping keeps what it was asked: lengths are rounded up to whole pages, it
/// may move exactly if that was allowed, and goes to a fixed place exactly if one
/// was given.
pub proof fn remappings_are_what_was_asked_for(
    old_addr: usize,
    old_size: usize,
    new_size: usize,
    flags: usize,
    new_addr: usize,
    q: MremapRequest,
)
    requires
        mremap_request(old_addr, old_size, new_size, flags, new_addr) == Ok::<MremapRequest, Errno>(q),
    ensures
        q.old_addr == old_addr,
        old_addr % 4096 == 0,
        old_size > 0,
        new_size > 0,
        q.old_len % 4096 == 0,
        old_size <= q.old_len < old_size + 4096,
        q.new_len % 4096 == 0,
        new_size <= q.new_len < new_size + 4096,
        q.maymove == (flags & 1 != 0),
        q.fixed == (if flags & 2 != 0 {
            Some(new_addr)
        } else {
            None
        }),
        flags & 2 != 0 ==> flags & 1 != 0 && new_addr % 4096 == 0,
        flags & 4 == 0,
{
}

/// The touched pages are no more than those that hold a byte of the range.
pub proof fn touched_pages_are_no_more_than_needed(addr: usize, len: usize)
    requires
        addr + len <= usize::MAX,
        len > 0,
    ensures
        touched_pages(addr, len).start * 4096 <= addr,
        addr < touched_pages(addr, len).start * 4096 + 4096,
        touched_pages(addr, len).end * 4096 >= addr + len,
        touched_pages(addr, len).end * 4096 < addr + len + 4096,
{
}

/// Locking is limited for everyone but root: by the bytes of the whole pages, and
/// not at all possible with a limit of zero.
pub proof fn locking_is_limited(addr: usize, len: usize, euid: usize, limit: usize)
    requires
        len > 0,
        addr + len <= usize::MAX,
    ensures
        ({
            let r = mlock_answer(addr, len, Ok(()), euid, limit);
            &&& euid == 0 ==> r is Ok
            &&& euid != 0 && limit == 0 ==> r == Err::<Option<PageRange>, Errno>(Errno::EPERM)
            &&& r matches Ok(Some(range)) ==> {
                &&& range.start * 4096 <= addr
                &&& addr + len <= range.end * 4096
                &&& euid != 0 ==> (range.end - range.start) * 4096 <= limit
            }
            &&& euid != 0 && len > limit > 0 ==> r == Err::<Option<PageRange>, Errno>(Errno::ENOMEM)
        }),
{
    touched_pages_are_no_more_than_needed(addr, len);
    let t = touched_pages(addr, len);
    assert((t.end - t.start) * 4096 >= len) by (nonlinear_arith)
        requires
            t.end * 4096 >= addr + len,
            t.start * 4096 <= addr,
    ;
}

/// A heap end is moved to where it was asked exactly if that is not below the heap;
/// the pages that change are those between the old and the new end.
pub proof fn heap_pages_lie_between_the_ends(h: Heap, addr: usize)
    requires
        h.bottom <= h.brk,
    ensures
        brk_step(h, addr) is Keep <==> addr == 0 || addr < h.bottom || addr == h.brk,
        brk_step(h, addr) matches BrkStep::Keep(b) ==> b == h.brk,
        brk_step(h, addr) matches BrkStep::Grow(r) ==> addr > h.brk && r.start < r.end && h.brk
            <= r.start * 4096 < h.brk + 4096 && addr <= r.end * 4096 < addr + 4096,
        brk_step(h, addr) matches BrkStep::Shrink(r) ==> addr < h.brk && r.start < r.end && addr
            <= r.start * 4096 < addr + 4096 && h.brk <= r.end * 4096 < h.brk + 4096,
{
}

/// An unmapping starts at the given address and takes the given bytes, rounded up
/// to whole pages; one that is not empty, aligned and not too low is accepted.
pub proof fn unmappings_are_what_was_asked_for(addr: usize, len: usize, min_addr: usize)
    ensures
        munmap_request(addr, len, min_addr) matches Ok(q) ==> q.addr == addr && q.len % 4096 == 0
            && len <= q.len < len + 4096 && len > 0 && addr >= min_addr && addr % 4096 == 0,
        addr % 4096 == 0 && 0 < len <= usize::MAX - 4095 && addr >= min_addr ==> munmap_request(
            addr,
            len,
            min_addr,
        ) is Ok,
        munmap_request(addr, len, min_addr) is Err ==> munmap_request(addr, len, min_addr)->Err_0
            == Errno::EINVAL,
{
}

/// Unlocking and writing back speak of the pages that hold a byte of the range, and
/// of none if the range is empty.
pub proof fn ranges_are_whole_pages(addr: usize, len: usize, mapped: SysResult<()>, flags: i32)
    ensures
        len == 0 ==> munlock_answer(addr, len, mapped) == Ok::<Option<PageRange>, Errno>(None),
        len > 0 && addr + len <= usize::MAX && mapped is Ok ==> {
            &&& munlock_answer(addr, len, mapped) matches Ok(Some(r))
                && r.start * 4096 <= addr < r.start
                * 4096 + 4096 && addr + len <= r.end * 4096 < addr + len + 4096
        },
        len > 0 && addr + len <= usize::MAX && mapped == Err::<(), Errno>(Errno::EFAULT)
            ==> munlock_answer(addr, len, mapped) == Err::<Option<PageRange>, Errno>(Errno::ENOMEM),
        addr + len > usize::MAX ==> munlock_answer(addr, len, mapped) == Err::<
            Option<PageRange>,
            Errno,
        >(Errno::EINVAL),
        msync_answer(addr, len, flags) is Ok ==> addr % 4096 == 0 && flags & !7 == 0 && !(flags & 1
            != 0 && flags & 4 != 0),
        addr % 4096 == 0 && (flags == 0 || flags == 1 || flags == 2 || flags == 4) && len == 0
            ==> msync_answer(addr, len, flags) == Ok::<Option<PageRange>, Errno>(None),
        addr % 4096 == 0 && (flags == 0 || flags == 1 || flags == 2 || flags == 4) && len > 0
            && addr
            + len <= usize::MAX ==> {
            &&& msync_answer(addr, len, flags) matches Ok(Some(r)) && r.start * 4096 == addr
                && addr + len
                <= r.end * 4096 < addr + len + 4096
        },
{
    assert((1i32 | 2i32 | 4i32) == 7 && 0i32 & !7 == 0 && 1i32 & !7 == 0 && 2i32 & !7 == 0 && 4i32
        & !7 == 0 && 0i32 & 1 == 0 && 1i32 & 4 == 0 && 2i32 & 1 == 0 && 4i32 & 1 == 0)
        by (bit_vector);
}

/// Children get their pages wiped with advice 18 and kept with advice 19; other
/// known advice only asks that the pages fit.
pub proof fn advice_is_about_the_touched_pages(addr: usize, len: usize, advice: i32)
    requires
        addr % 4096 == 0,
        len > 0,
        addr + len <= usize::MAX,
    ensures
        ({
            let r = advice_step(addr, len, advice);
            &&& r matches Ok(AdviceStep::ForkBehaviour { range, wipe }) ==> {
                &&& wipe == (advice == 18)
                &&& advice == 18 || advice == 19
                &&& range.start * 4096 == addr
                &&& addr + len <= range.end * 4096 < addr + len + 4096
            }
            &&& r matches Ok(AdviceStep::Check(range)) ==> {
                &&& range.start * 4096 == addr
                &&& addr + len <= range.end * 4096 < addr + len + 4096
            }
            &&& advice == 18 || advice == 19 <==> r is Ok && r->Ok_0 is ForkBehaviour
            &&& r != Ok::<AdviceStep, Errno>(AdviceStep::Done)
            &&& advice < 0 || advice > 27 || 5 <= advice <= 7 || advice == 9 || advice == 24 <==> r
                == Err::<AdviceStep, Errno>(Errno::EINVAL)
        }),
{
}

/// The end of the heap becomes the one asked for where the pages could be had, and stays where
/// it was otherwise; it never goes below the heap's start.
pub proof fn breaks_move_as_asked(
    before: Heap,
    after: Heap,
    addr: usize,
    pages: SysResult<()>,
    r: SysResult<usize>,
)
    requires
        break_moved(before, after, addr, brk_step(before, addr), pages, r),
    ensures
        addr == 0 || addr < before.bottom ==> r == ok(before.brk) && after == before,
        addr != 0 && addr >= before.bottom && pages is Ok ==> r == ok(addr) && after.brk == addr,
        addr > before.brk && addr != 0 && addr >= before.bottom && pages is Err ==> (r == ok(
            before.brk,
        ) && after == before) || (r == ok(addr) && after.brk == addr && page_ceil(addr as int)
            == page_ceil(before.brk as int)),
        r is Err ==> after == before && addr < before.brk,
        r matches Ok(b) ==> after.brk == b,
{
}

/// The policy told is the default one and there are as many words of nodes as their number
/// needs, of 64 each.
pub proof fn policies_are_told_as_default(
    mode: UserOut,
    nodemask: UserOut,
    maxnode: usize,
    flags: usize,
    r: PolicyReply,
)
    requires
        policy_told(mode, nodemask, maxnode, flags, r),
        flags & !3usize == 0,
        maxnode < usize::MAX - 64,
    ensures
        r.mode == (if mode == UserOut::Writable {
            Some(0i32)
        } else {
            None
        }),
        mode == UserOut::Fault || (mode != UserOut::Fault && nodemask == UserOut::Fault && maxnode
            > 0) ==> r.ret == err(Errno::EFAULT),
        mode != UserOut::Fault && nodemask == UserOut::Writable && maxnode > 0 ==> r.ret == ok(0)
            && r.words * 64 >= maxnode && (r.words - 1) * 64 < maxnode,
        mode != UserOut::Fault && (nodemask == UserOut::Null || maxnode == 0) ==> r.ret == ok(0)
            && r.words == 0,
{
}

/// Remapping is refused for an address off a page, for nothing, for unknown or unsupported
/// flags, for a fixed place without the right to move, and for lengths too large.
pub proof fn unsound_remappings_are_refused(
    old_addr: usize,
    old_size: usize,
    new_size: usize,
    flags: usize,
    new_addr: usize,
)
    ensures
        ({
            let r = mremap_request(old_addr, old_size, new_size, flags, new_addr);
            let plain = old_addr % 4096 == 0 && old_size > 0 && new_size > 0 && flags & !(1usize
                | 2usize | 4usize) == 0 && flags & 4 == 0 && (flags & 2 == 0 || (flags & 1 != 0
                && new_addr % 4096 == 0));
            &&& !plain ==> r == Err::<MremapRequest, Errno>(Errno::EINVAL)
            &&& plain
                && (old_size > usize::MAX - 4095 || new_size > usize::MAX - 4095) ==> r == Err::<
                MremapRequest,
                Errno,
            >(Errno::ENOMEM)
            &&& plain && old_size <= usize::MAX - 4095 && new_size <= usize::MAX - 4095 ==> r is Ok
        }),
{
}

/// Nothing is locked for a length of zero, and a range that goes past the end is invalid; what
/// cannot be reached cannot be locked for want of memory.
pub proof fn locked_ranges_are_sound(addr: usize, len: usize, e: Errno)
    ensures
        lock_range(addr, 0) == Ok::<Option<PageRange>, Errno>(None),
        addr + len > usize::MAX ==> lock_range(addr, len) == Err::<Option<PageRange>, Errno>(
            Errno::EINVAL,
        ),
        len > 0 && addr + len <= usize::MAX ==> lock_range(addr, len) is Ok && lock_range(
            addr,
            len,
        )->Ok_0 is Some,
        lock_map_error(Errno::EFAULT) == Errno::ENOMEM,
        e != Errno::EFAULT ==> lock_map_error(e) == e,
{
}

} // verus!
