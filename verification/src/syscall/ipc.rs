//! System V shared memory: segments, attachments and their limits.

use crate::errno::{err, ok, Errno, SysResult};
use crate::signal::sig_deliver::Arch;
use crate::sorted_map::{has_key, key_at, placed, taken_out, SortedMap};
use crate::user::{read_result, UserIn, UserOut};
use vstd::prelude::*;

verus! {

pub const PAGE_SIZE: usize = 4096;

pub const IPC_PRIVATE: isize = 0;

pub const IPC_CREAT: usize = 0o1000;

pub const IPC_EXCL: usize = 0o2000;

pub const IPC_RMID: usize = 0;

pub const IPC_SET: usize = 1;

pub const IPC_STAT: usize = 2;

pub const IPC_INFO: usize = 3;

pub const SHM_RDONLY: usize = 0o10000;

pub const SHM_RND: usize = 0o20000;

pub const SHM_REMAP: usize = 0o40000;

pub const SHM_HUGETLB: usize = 0o4000;

pub const SHM_LOCK: usize = 11;

pub const SHM_UNLOCK: usize = 12;

pub const SHM_STAT: usize = 13;

pub const SHM_INFO: usize = 14;

pub const SHM_STAT_ANY: usize = 15;

pub const SHM_DEST: u32 = 0o1000;

pub const SHM_LOCKED: u32 = 0o2000;

pub const SHMMNI: usize = 4096;

pub const SHMMIN: usize = 1;

pub const MODE_MASK: u32 = 0o777;

/// Ownership and permissions of a segment, as user programs see them.
#[derive(Debug, Clone, Copy, PartialEq, Eq, Structural)]
pub struct IpcPerm {
    pub key: i32,
    pub uid: u32,
    pub gid: u32,
    pub cuid: u32,
    pub cgid: u32,
    pub mode: u32,
}

/// The state of a segment, as user programs see it.
#[derive(Debug, Clone, Copy, PartialEq, Eq, Structural)]
pub struct ShmidDs {
    pub shm_perm: IpcPerm,
    pub shm_segsz: usize,
    pub shm_atime: isize,
    pub shm_dtime: isize,
    pub shm_ctime: isize,
    pub shm_cpid: i32,
    pub shm_lpid: i32,
    pub shm_nattch: usize,
}

/// The limits on segments, as user programs see them.
#[derive(Debug, Clone, Copy, PartialEq, Eq, Structural)]
pub struct ShmInfoLimits {
    pub shmmax: usize,
    pub shmmin: usize,
    pub shmmni: usize,
    pub shmseg: usize,
    pub shmall: usize,
}

/// The use of shared memory, as user programs see it.
#[derive(Debug, Clone, Copy, PartialEq, Eq, Structural)]
pub struct ShmInfo {
    pub used_ids: i32,
    pub shm_tot: usize,
    pub shm_rss: usize,
    pub shm_swp: usize,
    pub swap_attempts: usize,
    pub swap_successes: usize,
}

/// A segment.
#[derive(Debug, Clone, Copy, PartialEq, Eq, Structural)]
pub struct ShmSegment {
    pub key: isize,
    pub id: usize,
    pub index: usize,
    pub size: usize,
    /// Size rounded up to whole pages.
    pub map_len: usize,
    pub mode: u32,
    pub uid: u32,
    pub gid: u32,
    pub cuid: u32,
    pub cgid: u32,
    pub cpid: i32,
    pub lpid: i32,
    pub atime: isize,
    pub dtime: isize,
    pub ctime: isize,
    /// Disappears with its last attachment.
    pub marked_removed: bool,
    pub locked: bool,
}

/// The caller of a shared memory operation.
#[derive(Debug, Clone, Copy)]
pub struct Caller {
    pub euid: usize,
    pub egid: usize,
    pub pid: usize,
    /// Time in seconds.
    pub now: isize,
}

/// All segments and attachments, and the limits on them.
#[derive(Debug)]
pub struct ShmTable {
    pub next_id: usize,
    pub next_index: usize,
    pub next_attach_id: usize,
    pub segments: SortedMap<ShmSegment>,
    /// The segment that each attachment belongs to.
    pub attach_owners: SortedMap<usize>,
    pub shmmax: usize,
    pub shmmni: usize,
    pub shmall: usize,
}

/// Pages of all segments together.
pub open spec fn total_pages(s: Seq<(usize, ShmSegment)>) -> int
    decreases s.len(),
{
    if s.len() == 0 {
        0
    } else {
        total_pages(s.drop_last()) + s.last().1.map_len / PAGE_SIZE
    }
}

/// A size rounded up to whole pages.
pub open spec fn page_round_up(n: int) -> int {
    (n + PAGE_SIZE - 1) / (PAGE_SIZE as int) * PAGE_SIZE
}

/// A live segment with key `key` and number `id`.
pub open spec fn live_with_key(segments: Map<usize, ShmSegment>, key: isize, id: usize) -> bool {
    segments.contains_key(id) && segments[id].key == key && !segments[id].marked_removed
}

/// Whether a caller may use a segment in the requested way, by the mode bits
/// for owner or creator, for their groups, or for others. Root may do anything.
pub open spec fn access_allowed(c: Caller, s: ShmSegment, requested: usize) -> bool {
    requested == 0 || c.euid == 0 || {
        let shift: u32 = if c.euid as u32 == s.uid || c.euid as u32 == s.cuid {
            6
        } else if c.egid as u32 == s.gid || c.egid as u32 == s.cgid {
            3
        } else {
            0
        };
        let available = (s.mode >> shift) & 0o7;
        &&& requested & 0o400 != 0 ==> available & 0o4 == 0o4
        &&& requested & 0o200 != 0 ==> available & 0o2 == 0o2
    }
}

/// Root and the owner may change a segment.
pub open spec fn may_change(c: Caller, s: ShmSegment) -> bool {
    c.euid == 0 || c.euid as u32 == s.uid
}

/// The state of a segment with `nattch` attachments.
pub open spec fn ds_of(s: ShmSegment, nattch: usize) -> ShmidDs {
    let m1 = if s.marked_removed {
        s.mode | SHM_DEST
    } else {
        s.mode
    };
    let m2 = if s.locked {
        m1 | SHM_LOCKED
    } else {
        m1
    };
    ShmidDs {
        shm_perm: IpcPerm {
            key: s.key as i32,
            uid: s.uid,
            gid: s.gid,
            cuid: s.cuid,
            cgid: s.cgid,
            mode: m2,
        },
        shm_segsz: s.size,
        shm_atime: s.atime,
        shm_dtime: s.dtime,
        shm_ctime: s.ctime,
        shm_cpid: s.cpid,
        shm_lpid: s.lpid,
        shm_nattch: nattch,
    }
}

proof fn pages_nonneg(s: Seq<(usize, ShmSegment)>)
    ensures
        total_pages(s) >= 0,
    decreases s.len(),
{
    if s.len() > 0 {
        pages_nonneg(s.drop_last());
    }
}

proof fn pages_update(s: Seq<(usize, ShmSegment)>, i: int, e: (usize, ShmSegment))
    requires
        0 <= i < s.len(),
    ensures
        total_pages(s.update(i, e)) == total_pages(s) - s[i].1.map_len / PAGE_SIZE + e.1.map_len
            / PAGE_SIZE,
    decreases s.len(),
{
    let t = s.update(i, e);
    if i == s.len() - 1 {
        assert(t.drop_last() =~= s.drop_last());
    } else {
        pages_update(s.drop_last(), i, e);
        assert(t.drop_last() =~= s.drop_last().update(i, e));
    }
}

proof fn pages_insert(s: Seq<(usize, ShmSegment)>, i: int, e: (usize, ShmSegment))
    requires
        0 <= i <= s.len(),
    ensures
        total_pages(s.insert(i, e)) == total_pages(s) + e.1.map_len / PAGE_SIZE,
    decreases s.len(),
{
    let t = s.insert(i, e);
    if i == s.len() {
        assert(t.drop_last() =~= s);
    } else {
        pages_insert(s.drop_last(), i, e);
        assert(t.drop_last() =~= s.drop_last().insert(i, e));
        assert(t.last() == s.last());
    }
}

proof fn pages_remove(s: Seq<(usize, ShmSegment)>, i: int)
    requires
        0 <= i < s.len(),
    ensures
        total_pages(s.remove(i)) == total_pages(s) - s[i].1.map_len / PAGE_SIZE,
    decreases s.len(),
{
    let t = s.remove(i);
    if i == s.len() - 1 {
        assert(t =~= s.drop_last());
    } else {
        pages_remove(s.drop_last(), i);
        assert(t.drop_last() =~= s.drop_last().remove(i));
        assert(t.last() == s.last());
    }
}

/// What holds of every segment of a table.
pub open spec fn segment_ok(t: &ShmTable, id: usize) -> bool {
    let s = t.segments@[id];
    &&& s.id == id
    &&& id < t.next_id
    &&& s.index < t.next_index
    &&& s.size >= SHMMIN
    &&& s.map_len == page_round_up(s.size as int)
}

/// What a call does to the numbers that are given out: at most one is used, and
/// none comes back.
pub open spec fn numbering_goes_on(a: &ShmTable, b: &ShmTable) -> bool {
    if b.next_id == a.next_id {
        b.next_index == a.next_index && (b.next_attach_id == a.next_attach_id || b.next_attach_id
            == a.next_attach_id + 1)
    } else {
        b.next_id == a.next_id + 1 && b.next_index == a.next_index + 1 && b.next_attach_id
            == a.next_attach_id
    }
}

impl ShmTable {
    /// Numbers are fresh, live keys are unique, attachments belong to existing
    /// segments and the page count is representable.
    pub open spec fn wf(&self) -> bool {
        &&& self.segments.wf()
        &&& self.attach_owners.wf()
        &&& self.next_id == self.next_index + 1
        &&& forall|id: usize| #[trigger] self.segments@.contains_key(id) ==> segment_ok(self, id)
        &&& forall|a: usize, b: usize|
            #![trigger self.segments@.contains_key(a), self.segments@.contains_key(b)]
            self.segments@.contains_key(a) && self.segments@.contains_key(b) ==> {
                &&& self.segments@[a].index == self.segments@[b].index ==> a == b
                &&& !self.segments@[a].marked_removed && !self.segments@[b].marked_removed
                    && self.segments@[a].key == self.segments@[b].key && self.segments@[a].key
                    != IPC_PRIVATE ==> a == b
            }
        &&& forall|a: usize| #[trigger]
            self.attach_owners@.contains_key(a) ==> a < self.next_attach_id
                && self.segments@.contains_key(self.attach_owners@[a])
        &&& total_pages(self.segments.entries@) <= usize::MAX
    }

    /// Nothing but the listed parts of `self` differs from `t`.
    pub open spec fn same_limits(&self, t: &ShmTable) -> bool {
        self.shmmax == t.shmmax && self.shmmni == t.shmmni && self.shmall == t.shmall
    }

    /// The table without segments, with the default limits.
    pub fn new() -> (r: Self)
        ensures
            r.wf(),
            r.segments@ == Map::<usize, ShmSegment>::empty(),
            r.attach_owners@ == Map::<usize, usize>::empty(),
            r.next_id == 1,
            r.next_index == 0,
            r.next_attach_id == 1,
            r.shmmax == usize::MAX - 0x100_0000,
            r.shmmni == SHMMNI,
            r.shmall == usize::MAX / PAGE_SIZE,
    {
        ShmTable {
            next_id: 1,
            next_index: 0,
            next_attach_id: 1,
            segments: SortedMap::new(),
            attach_owners: SortedMap::new(),
            shmmax: usize::MAX - 0x100_0000,
            shmmni: SHMMNI,
            shmall: usize::MAX / PAGE_SIZE,
        }
    }

    /// Gives out the next number and index of a segment.
    pub fn alloc_id(&mut self) -> (r: SysResult<(usize, usize)>)
        requires
            old(self).wf(),
        ensures
            final(self).wf(),
            if old(self).segments.entries@.len() >= old(self).shmmni || old(self).next_id
                == usize::MAX {
                &&& r == Err::<(usize, usize), Errno>(Errno::ENOSPC)
                &&& *final(self) == *old(self)
            } else {
                &&& r == Ok::<(usize, usize), Errno>((old(self).next_id, old(self).next_index))
                &&& *final(self) == (ShmTable {
                    next_id: (old(self).next_id + 1) as usize,
                    next_index: (old(self).next_index + 1) as usize,
                    ..*old(self)
                })
            },
            numbering_goes_on(old(self), final(self)),
    {
        if self.segments.len() >= self.shmmni {
            return Err(Errno::ENOSPC);
        }
        if self.next_id == usize::MAX {
            return Err(Errno::ENOSPC);
        }
        let id: usize = self.next_id;
        let index: usize = self.next_index;
        self.next_id = id + 1;
        self.next_index = index + 1;
        proof {
            assert forall|q: usize| #[trigger] self.segments@.contains_key(q) implies segment_ok(
                self,
                q,
            ) by {
                assert(segment_ok(old(self), q));
            }
        }
        Ok((id, index))
    }

    /// The live segment with a key.
    fn find_by_key(&self, key: isize) -> (r: Option<usize>)
        requires
            self.wf(),
        ensures
            match r {
                Some(id) => live_with_key(self.segments@, key, id),
                None => forall|id: usize| !live_with_key(self.segments@, key, id),
            },
    {
        let mut i: usize = 0;
        while i < self.segments.entries.len()
            invariant
                self.wf(),
                i <= self.segments.entries@.len(),
                forall|k: int|
                    0 <= k < i ==> {
                        let s = (#[trigger] self.segments.entries@[k]).1;
                        s.key != key || s.marked_removed
                    },
            decreases self.segments.entries@.len() - i,
        {
            let s = self.segments.entries[i].1;
            if s.key == key && !s.marked_removed {
                proof {
                    self.segments.entry_in_view(i as int);
                }
                return Some(s.id);
            }
            i = i + 1;
        }
        proof {
            assert forall|id: usize| !live_with_key(self.segments@, key, id) by {
                if self.segments@.contains_key(id) {
                    let k = self.segments.view_has_entry(id);
                }
            }
        }
        None
    }

    /// The segment with an index.
    fn find_id_by_index(&self, index: usize) -> (r: Option<usize>)
        requires
            self.wf(),
        ensures
            match r {
                Some(id) => self.segments@.contains_key(id) && self.segments@[id].index == index,
                None => forall|id: usize| #[trigger]
                    self.segments@.contains_key(id) ==> self.segments@[id].index != index,
            },
    {
        let mut i: usize = 0;
        while i < self.segments.entries.len()
            invariant
                self.wf(),
                i <= self.segments.entries@.len(),
                forall|k: int|
                    0 <= k < i ==> (#[trigger] self.segments.entries@[k]).1.index != index,
            decreases self.segments.entries@.len() - i,
        {
            if self.segments.entries[i].1.index == index {
                proof {
                    self.segments.entry_in_view(i as int);
                }
                return Some(self.segments.entries[i].0);
            }
            i = i + 1;
        }
        proof {
            assert forall|id: usize| #[trigger] self.segments@.contains_key(id) implies
                self.segments@[id].index != index by {
                let k = self.segments.view_has_entry(id);
            }
        }
        None
    }

    /// The highest index in use, or 0.
    fn max_index(&self) -> (r: usize)
        requires
            self.wf(),
        ensures
            is_max_index(self.segments@, r),
    {
        let mut m: usize = 0;
        let mut i: usize = 0;
        while i < self.segments.entries.len()
            invariant
                self.wf(),
                i <= self.segments.entries@.len(),
                forall|k: int| 0 <= k < i ==> (#[trigger] self.segments.entries@[k]).1.index <= m,
                i == 0 ==> m == 0,
                i > 0 ==> m == 0 || exists|k: int|
                    0 <= k < i && (#[trigger] self.segments.entries@[k]).1.index == m,
            decreases self.segments.entries@.len() - i,
        {
            let x: usize = self.segments.entries[i].1.index;
            if x > m {
                m = x;
                assert(self.segments.entries@[i as int].1.index == m);
            }
            i = i + 1;
        }
        proof {
            assert forall|id: usize| #[trigger] self.segments@.contains_key(id) implies
                self.segments@[id].index <= m by {
                let k = self.segments.view_has_entry(id);
            }
            if m != 0 {
                let k = choose|k: int|
                    0 <= k < i && (#[trigger] self.segments.entries@[k]).1.index == m;
                self.segments.entry_in_view(k);
            }
        }
        m
    }

    /// Pages of all segments together.
    fn pages(&self) -> (r: usize)
        requires
            self.wf(),
        ensures
            r == total_pages(self.segments.entries@),
    {
        let mut sum: usize = 0;
        let mut i: usize = 0;
        while i < self.segments.entries.len()
            invariant
                self.wf(),
                i <= self.segments.entries@.len(),
                sum == total_pages(self.segments.entries@.take(i as int)),
            decreases self.segments.entries@.len() - i,
        {
            let p: usize = self.segments.entries[i].1.map_len / PAGE_SIZE;
            proof {
                let s = self.segments.entries@;
                assert(s.take(i + 1).drop_last() =~= s.take(i as int));
                pages_monotone(s, i + 1);
            }
            sum = sum + p;
            i = i + 1;
        }
        proof {
            assert(self.segments.entries@.take(i as int) =~= self.segments.entries@);
        }
        sum
    }

    /// Replaces the state of a segment; number, index, key and size stay.
    fn set_segment(&mut self, id: usize, s: ShmSegment)
        requires
            old(self).wf(),
            old(self).segments@.contains_key(id),
            s.id == id,
            s.index == old(self).segments@[id].index,
            s.key == old(self).segments@[id].key,
            s.size == old(self).segments@[id].size,
            s.map_len == old(self).segments@[id].map_len,
            old(self).segments@[id].marked_removed ==> s.marked_removed,
        ensures
            final(self).wf(),
            final(self).segments@ == old(self).segments@.insert(id, s),
            final(self).attach_owners == old(self).attach_owners,
            final(self).next_id == old(self).next_id,
            final(self).next_index == old(self).next_index,
            final(self).next_attach_id == old(self).next_attach_id,
            final(self).same_limits(old(self)),
            total_pages(final(self).segments.entries@) == total_pages(old(self).segments.entries@),
    {
        let ghost before = self.segments.entries@;
        proof {
            let j = self.segments.view_has_entry(id);
            assert(key_at(before, id, j));
            assert(has_key(before, id));
        }
        self.segments.insert(id, s);
        proof {
            let i = choose|i: int| placed(before, self.segments.entries@, id, s, i);
            assert(placed(before, self.segments.entries@, id, s, i));
            old(self).segments.entry_in_view(i);
            pages_update(before, i, (id, s));
        }
    }

    /// Forgets a segment and its attachments.
    fn remove_segment(&mut self, shmid: usize)
        requires
            old(self).wf(),
        ensures
            final(self).wf(),
            final(self).segments@ == old(self).segments@.remove(shmid),
            old(self).segments@.contains_key(shmid) ==> exists|i: int|
                taken_out(old(self).segments.entries@, final(self).segments.entries@, shmid, i),
            without_owner(old(self).attach_owners@, final(self).attach_owners@, shmid),
            final(self).next_id == old(self).next_id,
            final(self).next_index == old(self).next_index,
            final(self).next_attach_id == old(self).next_attach_id,
            final(self).same_limits(old(self)),
    {
        let ghost before = self.segments.entries@;
        let gone = self.segments.remove(shmid);
        proof {
            if gone is Some {
                let i = choose|i: int| taken_out(before, self.segments.entries@, shmid, i);
                pages_remove(before, i);
                assert(before[i].1.map_len / PAGE_SIZE >= 0);
            }
        }
        let mut i: usize = 0;
        let ghost owners = self.attach_owners@;
        let ghost kept = self.segments;
        while i < self.attach_owners.entries.len()
            invariant
                self.attach_owners.wf(),
                i <= self.attach_owners.entries@.len(),
                self.segments.wf(),
                self.segments == kept,
                self.segments@ == old(self).segments@.remove(shmid),
                self.next_id == old(self).next_id,
                self.next_index == old(self).next_index,
                self.next_attach_id == old(self).next_attach_id,
                self.same_limits(old(self)),
                owners == old(self).attach_owners@,
                forall|a: usize| #[trigger]
                    self.attach_owners@.contains_key(a) ==> owners.contains_key(a)
                        && self.attach_owners@[a] == owners[a],
                forall|a: usize|
                    owners.contains_key(a) && owners[a] != shmid
                        ==> #[trigger] self.attach_owners@.contains_key(a),
                forall|k: int| 0 <= k < i ==> (#[trigger] self.attach_owners.entries@[k]).1 != shmid,
                total_pages(self.segments.entries@) <= usize::MAX,
            decreases self.attach_owners.entries@.len() - i,
        {
            if self.attach_owners.entries[i].1 == shmid {
                let a: usize = self.attach_owners.entries[i].0;
                let ghost e = self.attach_owners.entries@;
                proof {
                    self.attach_owners.entry_in_view(i as int);
                }
                let ghost m = self.attach_owners@;
                self.attach_owners.remove(a);
                proof {
                    let k = choose|k: int| taken_out(e, self.attach_owners.entries@, a, k);
                    assert(taken_out(e, self.attach_owners.entries@, a, k));
                    assert(k == i) by {
                        if k < i {
                            assert(e[k].0 < e[i as int].0);
                        } else if i < k {
                            assert(e[i as int].0 < e[k].0);
                        }
                    }
                }
            } else {
                i = i + 1;
            }
        }
        proof {
            assert forall|a: usize| #[trigger] self.attach_owners@.contains_key(a) implies
                self.attach_owners@[a] != shmid by {
                let k = self.attach_owners.view_has_entry(a);
            }
        }
    }
}

proof fn pages_monotone(s: Seq<(usize, ShmSegment)>, i: int)
    requires
        0 <= i <= s.len(),
    ensures
        total_pages(s.take(i)) <= total_pages(s),
    decreases s.len() - i,
{
    if i < s.len() {
        pages_monotone(s, i + 1);
        assert(s.take(i + 1).drop_last() =~= s.take(i));
        assert(s.take(i + 1).last().1.map_len / PAGE_SIZE >= 0);
    } else {
        assert(s.take(i) =~= s);
    }
}

/// `m` is the highest index of a segment, or 0 where there is none.
pub open spec fn is_max_index(segments: Map<usize, ShmSegment>, m: usize) -> bool {
    &&& forall|id: usize| #[trigger] segments.contains_key(id) ==> segments[id].index <= m
    &&& m != 0 ==> exists|id: usize| #[trigger] segments.contains_key(id) && segments[id].index == m
}

/// `b` is `a` without the attachments of segment `shmid`.
pub open spec fn without_owner(a: Map<usize, usize>, b: Map<usize, usize>, shmid: usize) -> bool {
    &&& forall|k: usize| #[trigger] b.contains_key(k) <==> a.contains_key(k) && a[k] != shmid
    &&& forall|k: usize| #[trigger] b.contains_key(k) ==> b[k] == a[k]
}

fn shm_access_allowed(c: &Caller, s: &ShmSegment, requested: usize) -> (r: bool)
    ensures
        r == access_allowed(*c, *s, requested),
{
    if requested == 0 {
        return true;
    }
    if c.euid == 0 {
        return true;
    }
    let shift: u32 = if c.euid as u32 == s.uid || c.euid as u32 == s.cuid {
        6
    } else if c.egid as u32 == s.gid || c.egid as u32 == s.cgid {
        3
    } else {
        0
    };
    let available: u32 = (s.mode >> shift) & 0o7;
    if requested & 0o400 != 0 && available & 0o4 != 0o4 {
        return false;
    }
    if requested & 0o200 != 0 && available & 0o2 != 0o2 {
        return false;
    }
    true
}

fn shmid_ds(s: &ShmSegment, nattch: usize) -> (r: ShmidDs)
    ensures
        r == ds_of(*s, nattch),
{
    let mut mode: u32 = s.mode;
    if s.marked_removed {
        mode = mode | SHM_DEST;
    }
    if s.locked {
        mode = mode | SHM_LOCKED;
    }
    ShmidDs {
        shm_perm: IpcPerm {
            key: s.key as i32,
            uid: s.uid,
            gid: s.gid,
            cuid: s.cuid,
            cgid: s.cgid,
            mode,
        },
        shm_segsz: s.size,
        shm_atime: s.atime,
        shm_dtime: s.dtime,
        shm_ctime: s.ctime,
        shm_cpid: s.cpid,
        shm_lpid: s.lpid,
        shm_nattch: nattch,
    }
}

/// Why a new segment of `size` bytes is refused when `frames` page frames are
/// free.
pub open spec fn create_error(t: &ShmTable, size: usize, frames: usize) -> Option<Errno> {
    if size < SHMMIN || size > t.shmmax {
        Some(Errno::EINVAL)
    } else if size + PAGE_SIZE - 1 > usize::MAX {
        Some(Errno::ENOMEM)
    } else if total_pages(t.segments.entries@) + page_round_up(size as int) / (PAGE_SIZE as int)
        > t.shmall {
        Some(Errno::ENOSPC)
    } else if frames < page_round_up(size as int) / (PAGE_SIZE as int) {
        Some(Errno::ENOMEM)
    } else if t.segments.entries@.len() >= t.shmmni || t.next_id == usize::MAX {
        Some(Errno::ENOSPC)
    } else {
        None
    }
}

/// The segment that a successful creation adds.
pub open spec fn new_segment(t: &ShmTable, c: Caller, key: isize, size: usize, shmflg: usize) -> ShmSegment {
    ShmSegment {
        key,
        id: t.next_id,
        index: t.next_index,
        size,
        map_len: page_round_up(size as int) as usize,
        mode: (shmflg as u32) & MODE_MASK,
        uid: c.euid as u32,
        gid: c.egid as u32,
        cuid: c.euid as u32,
        cgid: c.egid as u32,
        cpid: c.pid as i32,
        lpid: 0,
        atime: 0,
        dtime: 0,
        ctime: c.now,
        marked_removed: false,
        locked: false,
    }
}

/// Why an existing segment cannot be had.
pub open spec fn open_error(c: Caller, s: ShmSegment, size: usize, shmflg: usize) -> Option<Errno> {
    if shmflg & IPC_CREAT != 0 && shmflg & IPC_EXCL != 0 {
        Some(Errno::EEXIST)
    } else if size > s.size {
        Some(Errno::EINVAL)
    } else if !access_allowed(c, s, shmflg & 0o600) {
        Some(Errno::EACCES)
    } else {
        None
    }
}

/// Whether asking for an existing segment by its key returns `r`.
pub open spec fn segment_opened(
    before: &ShmTable,
    after: &ShmTable,
    c: Caller,
    key: isize,
    size: usize,
    shmflg: usize,
    r: SysResult<usize>,
) -> bool {
    shmflg & SHM_HUGETLB == 0 && key != IPC_PRIVATE ==> forall|id: usize|
        live_with_key(before.segments@, key, id) ==> {
            &&& *after == *before
            &&& r == (match open_error(c, before.segments@[id], size, shmflg) {
                Some(e) => err(e),
                None => ok(id),
            })
        }
}

/// Whether asking for a segment that does not exist makes one and returns `r`.
pub open spec fn segment_created(
    before: &ShmTable,
    after: &ShmTable,
    c: Caller,
    key: isize,
    size: usize,
    shmflg: usize,
    frames: usize,
    r: SysResult<usize>,
) -> bool {
    shmflg & SHM_HUGETLB == 0 && (key == IPC_PRIVATE || forall|id: usize|
        !live_with_key(before.segments@, key, id)) ==> {
        if key != IPC_PRIVATE && shmflg & IPC_CREAT == 0 {
            r == err(Errno::ENOENT) && *after == *before
        } else {
            match create_error(before, size, frames) {
                Some(e) => r == err(e) && *after == *before,
                None => {
                    &&& r == ok(before.next_id)
                    &&& after.segments@ == before.segments@.insert(
                        before.next_id,
                        new_segment(before, c, key, size, shmflg),
                    )
                    &&& after.attach_owners == before.attach_owners
                    &&& after.next_id == before.next_id + 1
                    &&& after.next_attach_id == before.next_attach_id
                },
            }
        }
    }
}

/// Finds the segment with a key or creates one. `frames` page frames are free.
pub fn sys_shmget(
    table: &mut ShmTable,
    c: &Caller,
    key: isize,
    size: usize,
    shmflg: usize,
    frames: usize,
) -> (r: SysResult<usize>)
    requires
        old(table).wf(),
    ensures
        final(table).wf(),
        final(table).same_limits(old(table)),
        numbering_goes_on(old(table), final(table)),
        shmflg & SHM_HUGETLB != 0 ==> r == err(Errno::EINVAL) && *final(table) == *old(table),
        segment_opened(old(table), final(table), *c, key, size, shmflg, r),
        segment_created(old(table), final(table), *c, key, size, shmflg, frames, r),
{
    if shmflg & SHM_HUGETLB != 0 {
        return Err(Errno::EINVAL);
    }
    if key != IPC_PRIVATE {
        match table.find_by_key(key) {
            Some(id) => {
                let s = match table.segments.get(id) {
                    Some(s) => *s,
                    None => {
                        return Err(Errno::EINVAL);
                    },
                };
                if shmflg & IPC_CREAT != 0 && shmflg & IPC_EXCL != 0 {
                    return Err(Errno::EEXIST);
                }
                if size > s.size {
                    return Err(Errno::EINVAL);
                }
                if !shm_access_allowed(c, &s, shmflg & 0o600) {
                    return Err(Errno::EACCES);
                }
                return Ok(id);
            },
            None => {},
        }
        if shmflg & IPC_CREAT == 0 {
            return Err(Errno::ENOENT);
        }
    }
    if size < SHMMIN || size > table.shmmax {
        return Err(Errno::EINVAL);
    }
    let padded: usize = match size.checked_add(PAGE_SIZE - 1) {
        Some(n) => n,
        None => {
            return Err(Errno::ENOMEM);
        },
    };
    let page_count: usize = padded / PAGE_SIZE;
    let map_len: usize = page_count * PAGE_SIZE;
    let used: usize = table.pages();
    match used.checked_add(page_count) {
        Some(n) => {
            if n > table.shmall {
                return Err(Errno::ENOSPC);
            }
        },
        None => {
            return Err(Errno::ENOSPC);
        },
    }
    if frames < page_count {
        return Err(Errno::ENOMEM);
    }
    let (id, index): (usize, usize) = match table.alloc_id() {
        Ok(n) => n,
        Err(e) => {
            return Err(e);
        },
    };
    let s = ShmSegment {
        key,
        id,
        index,
        size,
        map_len,
        mode: (shmflg as u32) & MODE_MASK,
        uid: c.euid as u32,
        gid: c.egid as u32,
        cuid: c.euid as u32,
        cgid: c.egid as u32,
        cpid: c.pid as i32,
        lpid: 0,
        atime: 0,
        dtime: 0,
        ctime: c.now,
        marked_removed: false,
        locked: false,
    };
    let ghost before = table.segments.entries@;
    proof {
        if has_key(before, id) {
            let j = choose|j: int| key_at(before, id, j);
            table.segments.entry_in_view(j);
            assert(old(table).segments@.contains_key(id));
            assert(segment_ok(old(table), id));
        }
        assert(!old(table).segments@.contains_key(id));
    }
    table.segments.insert(id, s);
    proof {
        let i = choose|i: int| placed(before, table.segments.entries@, id, s, i);
        assert(placed(before, table.segments.entries@, id, s, i));
        pages_insert(before, i, (id, s));
        assert(map_len / PAGE_SIZE == page_count);
        assert forall|q: usize| #[trigger] table.segments@.contains_key(q) implies segment_ok(
            table,
            q,
        ) by {
            if q != id {
                assert(segment_ok(old(table), q));
            }
        }
        assert forall|a: usize, b: usize|
            #![trigger table.segments@.contains_key(a), table.segments@.contains_key(b)]
            table.segments@.contains_key(a) && table.segments@.contains_key(b) implies {
            &&& table.segments@[a].index == table.segments@[b].index ==> a == b
            &&& !table.segments@[a].marked_removed && !table.segments@[b].marked_removed
                && table.segments@[a].key == table.segments@[b].key && table.segments@[a].key
                != IPC_PRIVATE ==> a == b
        } by {
            if a != id {
                assert(segment_ok(old(table), a));
                assert(!live_with_key(old(table).segments@, key, a) || key == IPC_PRIVATE);
            }
            if b != id {
                assert(segment_ok(old(table), b));
                assert(!live_with_key(old(table).segments@, key, b) || key == IPC_PRIVATE);
            }
        }
    }
    Ok(id)
}

/// The alignment of attachments.
pub open spec fn shmlba(arch: Arch) -> usize {
    match arch {
        Arch::LoongArch64 => 0x10000,
        Arch::Riscv64 => 4096,
    }
}

/// Where an attachment is wanted: anywhere, or at a fixed address.
pub open spec fn attach_address(arch: Arch, shmaddr: usize, shmflg: usize) -> SysResult<Option<usize>> {
    if shmaddr == 0 {
        if shmflg & SHM_REMAP != 0 {
            Err(Errno::EINVAL)
        } else {
            Ok(None)
        }
    } else if shmaddr % PAGE_SIZE == 0 {
        Ok(Some(shmaddr))
    } else if shmflg & SHM_RND != 0 {
        let rounded = (shmaddr - shmaddr % shmlba(arch)) as usize;
        if rounded == 0 && shmflg & SHM_REMAP != 0 {
            Err(Errno::EINVAL)
        } else {
            Ok(Some(rounded))
        }
    } else {
        Err(Errno::EINVAL)
    }
}

fn requested_address(arch: Arch, shmaddr: usize, shmflg: usize) -> (r: SysResult<Option<usize>>)
    ensures
        r == attach_address(arch, shmaddr, shmflg),
{
    if shmaddr == 0 {
        if shmflg & SHM_REMAP != 0 {
            return Err(Errno::EINVAL);
        }
        return Ok(None);
    }
    if shmaddr % PAGE_SIZE == 0 {
        return Ok(Some(shmaddr));
    }
    if shmflg & SHM_RND != 0 {
        let lba: usize = match arch {
            Arch::LoongArch64 => 0x10000,
            Arch::Riscv64 => PAGE_SIZE,
        };
        let rounded: usize = shmaddr - shmaddr % lba;
        if rounded == 0 && shmflg & SHM_REMAP != 0 {
            return Err(Errno::EINVAL);
        }
        return Ok(Some(rounded));
    }
    Err(Errno::EINVAL)
}

/// A mapping to be made for an attachment.
#[derive(Debug, Clone, Copy)]
pub struct Attach {
    pub attach_id: usize,
    pub shmid: usize,
    /// Fixed address, or anywhere.
    pub addr: Option<usize>,
    pub len: usize,
    pub writable: bool,
    /// Replace what is mapped there.
    pub replace: bool,
}

/// A segment after an attachment by `c`.
pub open spec fn attached(s: ShmSegment, c: Caller) -> ShmSegment {
    ShmSegment { atime: c.now, lpid: c.pid as i32, ..s }
}

/// Whether attaching a segment changes the table from `before` to `after` and returns `r`.
pub open spec fn segment_attached(
    before: &ShmTable,
    after: &ShmTable,
    arch: Arch,
    c: Caller,
    shmid: usize,
    shmaddr: usize,
    shmflg: usize,
    r: SysResult<Attach>,
) -> bool {
    ({
        let readonly = shmflg & SHM_RDONLY != 0;
        let needed: usize = if readonly {
            0o400
        } else {
            0o600
        };
        if !before.segments@.contains_key(shmid) {
            r == Err::<Attach, Errno>(Errno::EINVAL) && *after == *before
        } else if !access_allowed(c, before.segments@[shmid], needed) {
            r == Err::<Attach, Errno>(Errno::EACCES) && *after == *before
        } else {
            let s = before.segments@[shmid];
            &&& after.segments@ == before.segments@.insert(shmid, attached(s, c))
            &&& if before.next_attach_id == usize::MAX {
                &&& r == Err::<Attach, Errno>(Errno::ENOSPC)
                &&& after.next_attach_id == before.next_attach_id
                &&& after.attach_owners == before.attach_owners
            } else {
                &&& after.next_attach_id == before.next_attach_id + 1
                &&& after.attach_owners@ == before.attach_owners@.insert(
                    before.next_attach_id,
                    shmid,
                )
                &&& match attach_address(arch, shmaddr, shmflg) {
                    Err(e) => r == Err::<Attach, Errno>(e),
                    Ok(addr) => r == Ok::<Attach, Errno>(
                        Attach {
                            attach_id: before.next_attach_id,
                            shmid,
                            addr,
                            len: s.map_len,
                            writable: !readonly,
                            replace: shmflg & SHM_REMAP != 0,
                        },
                    ),
                }
            }
        }
    })
}

/// Attaches a segment. The segment's access time and last process change as
/// soon as access is granted; the mapping itself is made by the caller, who
/// reports a failure with `shmat_failed`.
pub fn sys_shmat(
    table: &mut ShmTable,
    arch: Arch,
    c: &Caller,
    shmid: usize,
    shmaddr: usize,
    shmflg: usize,
) -> (r: SysResult<Attach>)
    requires
        old(table).wf(),
    ensures
        final(table).wf(),
        final(table).same_limits(old(table)),
        numbering_goes_on(old(table), final(table)),
        final(table).next_id == old(table).next_id,
        segment_attached(old(table), final(table), arch, *c, shmid, shmaddr, shmflg, r),
{
    let s = match table.segments.get(shmid) {
        Some(s) => *s,
        None => {
            return Err(Errno::EINVAL);
        },
    };
    let readonly = shmflg & SHM_RDONLY != 0;
    let needed: usize = if readonly {
        0o400
    } else {
        0o600
    };
    if !shm_access_allowed(c, &s, needed) {
        return Err(Errno::EACCES);
    }
    assert(segment_ok(table, shmid));
    table.set_segment(shmid, ShmSegment { atime: c.now, lpid: c.pid as i32, ..s });
    let attach_id: usize = table.next_attach_id;
    if attach_id == usize::MAX {
        return Err(Errno::ENOSPC);
    }
    table.next_attach_id = attach_id + 1;
    table.attach_owners.insert(attach_id, shmid);
    match requested_address(arch, shmaddr, shmflg) {
        Err(e) => Err(e),
        Ok(addr) => Ok(
            Attach {
                attach_id,
                shmid,
                addr,
                len: s.map_len,
                writable: !readonly,
                replace: shmflg & SHM_REMAP != 0,
            },
        ),
    }
}

/// Forgets an attachment whose mapping could not be made.
pub fn shmat_failed(table: &mut ShmTable, attach_id: usize)
    requires
        old(table).wf(),
    ensures
        final(table).wf(),
        numbering_goes_on(old(table), final(table)),
        final(table).attach_owners@ == old(table).attach_owners@.remove(attach_id),
        final(table).segments == old(table).segments,
        final(table).next_id == old(table).next_id,
        final(table).next_attach_id == old(table).next_attach_id,
        final(table).same_limits(old(table)),
{
    table.attach_owners.remove(attach_id);
}

/// What `shmctl` writes to user memory.
#[derive(Debug, Clone, Copy, PartialEq, Eq, Structural)]
pub enum ShmOut {
    Limits(ShmInfoLimits),
    Usage(ShmInfo),
    State(ShmidDs),
}

/// The result of `shmctl` and what it writes.
pub struct ShmctlReply {
    pub ret: SysResult<usize>,
    pub out: Option<ShmOut>,
}

/// The limits of a table.
pub open spec fn limits_of(t: &ShmTable) -> ShmInfoLimits {
    ShmInfoLimits {
        shmmax: t.shmmax,
        shmmin: SHMMIN,
        shmmni: t.shmmni,
        shmseg: t.shmmni,
        shmall: t.shmall,
    }
}

/// The use of a table.
pub open spec fn usage_of(t: &ShmTable) -> ShmInfo {
    ShmInfo {
        used_ids: t.segments.entries@.len() as i32,
        shm_tot: total_pages(t.segments.entries@) as usize,
        shm_rss: total_pages(t.segments.entries@) as usize,
        shm_swp: 0,
        swap_attempts: 0,
        swap_successes: 0,
    }
}

/// A reply that only reports an error.
pub open spec fn shm_failed(r: ShmctlReply, e: Errno) -> bool {
    r.ret == err(e) && r.out is None
}

fn fail(e: Errno) -> (r: ShmctlReply)
    ensures
        shm_failed(r, e),
{
    ShmctlReply { ret: Err(e), out: None }
}

/// A query of the limits or of the use of shared memory.
pub open spec fn info_reply(t: &ShmTable, cmd: usize, buf: UserOut, r: ShmctlReply) -> bool {
    if buf != UserOut::Writable {
        shm_failed(r, Errno::EFAULT)
    } else {
        &&& r.ret is Ok
        &&& is_max_index(t.segments@, r.ret->Ok_0)
        &&& r.out == Some(
            if cmd == IPC_INFO {
                ShmOut::Limits(limits_of(t))
            } else {
                ShmOut::Usage(usage_of(t))
            },
        )
    }
}

/// The segment that a query names, by number or by index.
pub open spec fn queried(t: &ShmTable, cmd: usize, shmid: usize, id: usize) -> bool {
    t.segments@.contains_key(id) && if cmd == IPC_STAT {
        id == shmid
    } else {
        t.segments@[id].index == shmid
    }
}

/// A query of one segment with `nattch` attachments.
pub open spec fn stat_reply(
    t: &ShmTable,
    c: Caller,
    cmd: usize,
    shmid: usize,
    nattch: usize,
    buf: UserOut,
    r: ShmctlReply,
) -> bool {
    &&& (forall|id: usize| !queried(t, cmd, shmid, id)) ==> shm_failed(r, Errno::EINVAL)
    &&& forall|id: usize| #[trigger]
        queried(t, cmd, shmid, id) ==> {
            if cmd != SHM_STAT_ANY && !access_allowed(c, t.segments@[id], 0o400) {
                shm_failed(r, Errno::EACCES)
            } else if buf != UserOut::Writable {
                shm_failed(r, Errno::EFAULT)
            } else {
                &&& r.ret == ok(
                    if cmd == IPC_STAT {
                        0
                    } else {
                        id
                    },
                )
                &&& r.out == Some(ShmOut::State(ds_of(t.segments@[id], nattch)))
            }
        }
}

/// Queries one segment.
fn shm_stat(
    table: &ShmTable,
    c: &Caller,
    cmd: usize,
    shmid: usize,
    nattch: usize,
    buf: UserOut,
) -> (r: ShmctlReply)
    requires
        table.wf(),
        cmd == IPC_STAT || cmd == SHM_STAT || cmd == SHM_STAT_ANY,
    ensures
        stat_reply(table, *c, cmd, shmid, nattch, buf, r),
{
    let id: usize = if cmd == IPC_STAT {
        if !table.segments.contains_key(shmid) {
            return fail(Errno::EINVAL);
        }
        shmid
    } else {
        match table.find_id_by_index(shmid) {
            Some(id) => id,
            None => {
                return fail(Errno::EINVAL);
            },
        }
    };
    assert(queried(table, cmd, shmid, id));
    assert(forall|o: usize| #[trigger] queried(table, cmd, shmid, o) ==> o == id);
    let s = match table.segments.get(id) {
        Some(s) => *s,
        None => {
            return fail(Errno::EINVAL);
        },
    };
    if cmd != SHM_STAT_ANY && !shm_access_allowed(c, &s, 0o400) {
        return fail(Errno::EACCES);
    }
    match buf {
        UserOut::Writable => {},
        _ => {
            return fail(Errno::EFAULT);
        },
    }
    let ret: usize = if cmd == IPC_STAT {
        0
    } else {
        id
    };
    ShmctlReply { ret: Ok(ret), out: Some(ShmOut::State(shmid_ds(&s, nattch))) }
}

/// A change of one segment: refused, or `changed` takes effect.
pub open spec fn change_outcome(
    before: &ShmTable,
    after: &ShmTable,
    c: Caller,
    shmid: usize,
    r: ShmctlReply,
    changed: spec_fn(ShmSegment) -> ShmSegment,
) -> bool {
    if !before.segments@.contains_key(shmid) {
        shm_failed(r, Errno::EINVAL) && *after == *before
    } else if !may_change(c, before.segments@[shmid]) {
        shm_failed(r, Errno::EPERM) && *after == *before
    } else {
        &&& r.ret == ok(0)
        &&& r.out is None
        &&& after.segments@ == before.segments@.insert(shmid, changed(before.segments@[shmid]))
        &&& after.attach_owners == before.attach_owners
        &&& after.next_id == before.next_id
        &&& after.next_attach_id == before.next_attach_id
    }
}

/// A removal request: refused, at once where nothing is attached, or with the
/// last attachment.
pub open spec fn rmid_outcome(
    before: &ShmTable,
    after: &ShmTable,
    c: Caller,
    shmid: usize,
    nattch: usize,
    r: ShmctlReply,
) -> bool {
    if before.segments@.contains_key(shmid) && may_change(c, before.segments@[shmid]) && nattch == 0 {
        &&& r.ret == ok(0)
        &&& r.out is None
        &&& after.segments@ == before.segments@.remove(shmid)
        &&& without_owner(before.attach_owners@, after.attach_owners@, shmid)
        &&& after.next_id == before.next_id
        &&& after.next_attach_id == before.next_attach_id
    } else {
        change_outcome(
            before,
            after,
            c,
            shmid,
            r,
            |s: ShmSegment| ShmSegment { marked_removed: true, ctime: c.now, ..s },
        )
    }
}

/// Whether setting the owner and mode of a segment goes from `before` to `after` and returns
/// `r`.
pub open spec fn segment_set(
    before: &ShmTable,
    after: &ShmTable,
    c: Caller,
    shmid: usize,
    cmd: usize,
    user_ds: UserIn<ShmidDs>,
    r: ShmctlReply,
) -> bool {
    cmd == IPC_SET ==> match read_result(user_ds) {
        Err(e) => shm_failed(r, e) && *after == *before,
        Ok(ds) => change_outcome(
            before,
            after,
            c,
            shmid,
            r,
            |s: ShmSegment|
                ShmSegment {
                    uid: ds.shm_perm.uid,
                    gid: ds.shm_perm.gid,
                    mode: ds.shm_perm.mode & MODE_MASK,
                    ctime: c.now,
                    ..s
                },
        ),
    }
}

/// Whether locking or unlocking a segment goes from `before` to `after` and returns `r`.
pub open spec fn segment_locked(
    before: &ShmTable,
    after: &ShmTable,
    c: Caller,
    shmid: usize,
    cmd: usize,
    r: ShmctlReply,
) -> bool {
    cmd == SHM_LOCK || cmd == SHM_UNLOCK ==> change_outcome(
        before,
        after,
        c,
        shmid,
        r,
        |s: ShmSegment| ShmSegment { locked: cmd == SHM_LOCK, ctime: c.now, ..s },
    )
}

/// Queries and changes segments. `nattch` counts the attachments of the segment
/// that the call speaks of; `user_ds` is what lies at the buffer for `IPC_SET`.
pub fn sys_shmctl(
    table: &mut ShmTable,
    c: &Caller,
    shmid: usize,
    cmd: usize,
    nattch: usize,
    user_ds: UserIn<ShmidDs>,
    buf: UserOut,
) -> (r: ShmctlReply)
    requires
        old(table).wf(),
    ensures
        final(table).wf(),
        final(table).same_limits(old(table)),
        numbering_goes_on(old(table), final(table)),
        cmd == IPC_INFO || cmd == SHM_INFO ==> *final(table) == *old(table) && info_reply(
            old(table),
            cmd,
            buf,
            r,
        ),
        cmd == IPC_STAT || cmd == SHM_STAT || cmd == SHM_STAT_ANY ==> *final(table) == *old(table)
            && stat_reply(old(table), *c, cmd, shmid, nattch, buf, r),
        segment_set(old(table), final(table), *c, shmid, cmd, user_ds, r),
        cmd == IPC_RMID ==> rmid_outcome(old(table), final(table), *c, shmid, nattch, r),
        segment_locked(old(table), final(table), *c, shmid, cmd, r),
        !(cmd <= IPC_INFO || SHM_LOCK <= cmd <= SHM_STAT_ANY) ==> shm_failed(r, Errno::EINVAL)
            && *final(table) == *old(table),
{
    if cmd == IPC_INFO || cmd == SHM_INFO {
        match buf {
            UserOut::Writable => {},
            _ => {
                return fail(Errno::EFAULT);
            },
        }
        let top: usize = table.max_index();
        if cmd == IPC_INFO {
            let info = ShmInfoLimits {
                shmmax: table.shmmax,
                shmmin: SHMMIN,
                shmmni: table.shmmni,
                shmseg: table.shmmni,
                shmall: table.shmall,
            };
            return ShmctlReply { ret: Ok(top), out: Some(ShmOut::Limits(info)) };
        }
        let pages: usize = table.pages();
        let info = ShmInfo {
            used_ids: table.segments.len() as i32,
            shm_tot: pages,
            shm_rss: pages,
            shm_swp: 0,
            swap_attempts: 0,
            swap_successes: 0,
        };
        return ShmctlReply { ret: Ok(top), out: Some(ShmOut::Usage(info)) };
    }
    if cmd == IPC_STAT || cmd == SHM_STAT || cmd == SHM_STAT_ANY {
        return shm_stat(table, c, cmd, shmid, nattch, buf);
    }
    if cmd != IPC_SET && cmd != IPC_RMID && cmd != SHM_LOCK && cmd != SHM_UNLOCK {
        return fail(Errno::EINVAL);
    }
    let mut perm: Option<IpcPerm> = None;
    if cmd == IPC_SET {
        match user_ds.read() {
            Err(e) => {
                return fail(e);
            },
            Ok(ds) => {
                perm = Some(ds.shm_perm);
            },
        }
    }
    let s = match table.segments.get(shmid) {
        Some(s) => *s,
        None => {
            return fail(Errno::EINVAL);
        },
    };
    if c.euid != 0 && c.euid as u32 != s.uid {
        return fail(Errno::EPERM);
    }
    assert(segment_ok(table, shmid));
    if cmd == IPC_RMID {
        if nattch == 0 {
            table.remove_segment(shmid);
        } else {
            table.set_segment(shmid, ShmSegment { marked_removed: true, ctime: c.now, ..s });
        }
    } else {
        match perm {
            Some(p) => {
                table.set_segment(
                    shmid,
                    ShmSegment {
                        uid: p.uid,
                        gid: p.gid,
                        mode: p.mode & MODE_MASK,
                        ctime: c.now,
                        ..s
                    },
                );
            },
            None => {
                table.set_segment(
                    shmid,
                    ShmSegment { locked: cmd == SHM_LOCK, ctime: c.now, ..s },
                );
            },
        }
    }
    ShmctlReply { ret: Ok(0), out: None }
}

/// A segment after a detachment by `c`.
pub open spec fn detached(s: ShmSegment, c: Caller) -> ShmSegment {
    ShmSegment { dtime: c.now, lpid: c.pid as i32, ..s }
}

/// The segments right after attachment `attach_id` was given up.
pub open spec fn after_detach(
    segments: Map<usize, ShmSegment>,
    owners: Map<usize, usize>,
    attach_id: usize,
    c: Caller,
) -> Map<usize, ShmSegment> {
    if owners.contains_key(attach_id) && segments.contains_key(owners[attach_id]) {
        segments.insert(owners[attach_id], detached(segments[owners[attach_id]], c))
    } else {
        segments
    }
}

fn listed(ids: &Vec<usize>, id: usize) -> (r: bool)
    ensures
        r == ids@.contains(id),
{
    let mut i: usize = 0;
    while i < ids.len()
        invariant
            i <= ids@.len(),
            forall|k: int| 0 <= k < i ==> ids@[k] != id,
        decreases ids@.len() - i,
    {
        if ids[i] == id {
            return true;
        }
        i = i + 1;
    }
    false
}

/// Whether detaching what was mapped at an address goes from `before` to `after` and returns
/// `r`.
pub open spec fn segment_detached(
    before: &ShmTable,
    after: &ShmTable,
    c: Caller,
    shmaddr: usize,
    unmapped: SysResult<usize>,
    in_use: Seq<usize>,
    r: SysResult<usize>,
) -> bool {
    shmaddr % PAGE_SIZE == 0 ==> match unmapped {
        Err(e) => r == err(e) && *after == *before,
        Ok(a) => {
            let mid = after_detach(before.segments@, before.attach_owners@, a, c);
            &&& r == ok(0)
            &&& after.next_id == before.next_id
            &&& after.next_attach_id == before.next_attach_id
            &&& forall|id: usize| #[trigger]
                after.segments@.contains_key(id) <==> mid.contains_key(id) && !(
                mid[id].marked_removed && !in_use.contains(id))
            &&& forall|id: usize| #[trigger]
                after.segments@.contains_key(id) ==> after.segments@[id]
                    == mid[id]
            &&& forall|k: usize| #[trigger]
                after.attach_owners@.contains_key(k) <==> k != a
                    && before.attach_owners@.contains_key(k) && after.segments@.contains_key(
                    before.attach_owners@[k],
                )
            &&& forall|k: usize| #[trigger]
                after.attach_owners@.contains_key(k) ==> after.attach_owners@[k]
                    == before.attach_owners@[k]
        },
    }
}

/// Detaches at an address. `unmapped` is the attachment that was mapped there,
/// or why there is none; `in_use` lists the segments that are still attached
/// somewhere. Segments that were marked for removal and are no longer in use
/// disappear, all others stay.
pub fn sys_shmdt(
    table: &mut ShmTable,
    c: &Caller,
    shmaddr: usize,
    unmapped: SysResult<usize>,
    in_use: &Vec<usize>,
) -> (r: SysResult<usize>)
    requires
        old(table).wf(),
    ensures
        final(table).wf(),
        final(table).same_limits(old(table)),
        numbering_goes_on(old(table), final(table)),
        shmaddr % PAGE_SIZE != 0 ==> r == err(Errno::EINVAL) && *final(table) == *old(table),
        segment_detached(old(table), final(table), *c, shmaddr, unmapped, in_use@, r),
{
    if shmaddr % PAGE_SIZE != 0 {
        return Err(Errno::EINVAL);
    }
    let attach_id: usize = match unmapped {
        Ok(a) => a,
        Err(e) => {
            return Err(e);
        },
    };
    let ghost mid = after_detach(table.segments@, table.attach_owners@, attach_id, *c);
    match table.attach_owners.remove(attach_id) {
        Some(shmid) => {
            match table.segments.get(shmid) {
                Some(s) => {
                    let s = *s;
                    assert(segment_ok(table, shmid));
                    table.set_segment(shmid, ShmSegment { dtime: c.now, lpid: c.pid as i32, ..s });
                },
                None => {},
            }
        },
        None => {},
    }
    let ghost owners = table.attach_owners@;
    assert(table.segments@ =~= mid);
    let mut i: usize = 0;
    while i < table.segments.entries.len()
        invariant
            table.wf(),
            table.same_limits(old(table)),
            table.next_id == old(table).next_id,
            table.next_attach_id == old(table).next_attach_id,
            i <= table.segments.entries@.len(),
            forall|id: usize|
                mid.contains_key(id) && !(mid[id].marked_removed && !in_use@.contains(id))
                    ==> #[trigger] table.segments@.contains_key(id),
            forall|id: usize| #[trigger]
                table.segments@.contains_key(id) ==> mid.contains_key(id) && table.segments@[id]
                    == mid[id],
            forall|k: int|
                0 <= k < i ==> {
                    let e = #[trigger] table.segments.entries@[k];
                    !(e.1.marked_removed && !in_use@.contains(e.0))
                },
            forall|k: usize| #[trigger]
                table.attach_owners@.contains_key(k) <==> owners.contains_key(k)
                    && table.segments@.contains_key(owners[k]),
            forall|k: usize| #[trigger]
                table.attach_owners@.contains_key(k) ==> table.attach_owners@[k] == owners[k],
        decreases table.segments.entries@.len() - i,
    {
        let id: usize = table.segments.entries[i].0;
        if table.segments.entries[i].1.marked_removed && !listed(in_use, id) {
            let ghost e = table.segments.entries@;
            proof {
                table.segments.entry_in_view(i as int);
            }
            let ghost held = table.attach_owners@;
            let ghost segs = table.segments@;
            table.remove_segment(id);
            proof {
                assert forall|k: usize| #[trigger]
                    table.attach_owners@.contains_key(k) <==> owners.contains_key(k)
                        && table.segments@.contains_key(owners[k]) by {
                    assert(held.contains_key(k) <==> owners.contains_key(k) && segs.contains_key(
                        owners[k],
                    ));
                    assert(held.contains_key(k) ==> held[k] == owners[k]);
                }
                let k = choose|k: int| taken_out(e, table.segments.entries@, id, k);
                assert(taken_out(e, table.segments.entries@, id, k));
                assert(k == i) by {
                    if k < i {
                        assert(e[k].0 < e[i as int].0);
                    } else if i < k {
                        assert(e[i as int].0 < e[k].0);
                    }
                }
            }
        } else {
            i = i + 1;
        }
    }
    proof {
        assert forall|id: usize| #[trigger] table.segments@.contains_key(id) implies !(
        mid[id].marked_removed && !in_use@.contains(id)) by {
            let k = table.segments.view_has_entry(id);
        }
    }
    Ok(0)
}

/// Call `k` of a run leads from one state of the table to the next.
pub open spec fn goes_on_at(ts: Seq<ShmTable>, k: int) -> bool {
    numbering_goes_on(&ts[k], &ts[k + 1])
}

/// The states of a table over a run of calls.
pub open spec fn table_history(ts: Seq<ShmTable>) -> bool {
    forall|k: int| 0 <= k < ts.len() - 1 ==> #[trigger] goes_on_at(ts, k)
}

/// Call `k` of a run gives out a segment number and an index.
pub open spec fn gives_number(ts: Seq<ShmTable>, k: int) -> bool {
    0 <= k < ts.len() - 1 && ts[k + 1].next_id != ts[k].next_id
}

/// Call `k` of a run gives out a number for an attachment.
pub open spec fn gives_attachment(ts: Seq<ShmTable>, k: int) -> bool {
    0 <= k < ts.len() - 1 && ts[k + 1].next_attach_id != ts[k].next_attach_id
}

proof fn numbers_only_grow(ts: Seq<ShmTable>, i: int, j: int)
    requires
        table_history(ts),
        0 <= i <= j < ts.len(),
    ensures
        ts[i].next_id <= ts[j].next_id,
        ts[i].next_index <= ts[j].next_index,
        ts[i].next_attach_id <= ts[j].next_attach_id,
    decreases j - i,
{
    if i < j {
        numbers_only_grow(ts, i, j - 1);
        assert(goes_on_at(ts, j - 1));
    }
}

/// Over any run of calls no segment number, no index and no attachment number is
/// given out twice, whatever was removed in between.
pub proof fn numbers_are_given_once(ts: Seq<ShmTable>, i: int, j: int)
    requires
        table_history(ts),
        i < j,
    ensures
        gives_number(ts, i) && gives_number(ts, j) ==> ts[i].next_id < ts[j].next_id
            && ts[i].next_index < ts[j].next_index,
        gives_attachment(ts, i) && gives_attachment(ts, j) ==> ts[i].next_attach_id
            < ts[j].next_attach_id,
{
    if 0 <= i && j < ts.len() {
        numbers_only_grow(ts, i + 1, j);
        assert(goes_on_at(ts, i));
    }
}

/// A segment that was just created under a key is found again under that key by
/// its creator, whatever size up to its own is asked for.
pub proof fn created_segment_is_found(
    t: &ShmTable,
    c: Caller,
    key: isize,
    size: usize,
    shmflg: usize,
    asked: usize,
)
    requires
        asked <= size,
    ensures
        ({
            let s = new_segment(t, c, key, size, shmflg);
            &&& live_with_key(t.segments@.insert(t.next_id, s), key, t.next_id)
            &&& open_error(c, s, asked, 0) is None
        }),
{
    assert(0usize & 0o1000usize == 0) by (bit_vector);
    assert(0usize & 0o600usize == 0) by (bit_vector);
}

/// At most one live segment has a given public key.
pub proof fn live_keys_are_unique(t: &ShmTable, key: isize, a: usize, b: usize)
    requires
        t.wf(),
        key != IPC_PRIVATE,
        live_with_key(t.segments@, key, a),
        live_with_key(t.segments@, key, b),
    ensures
        a == b,
{
}

/// A segment marked for removal is not found by its key any more, even while
/// it is still attached.
pub proof fn removed_segment_is_not_found(segments: Map<usize, ShmSegment>, key: isize, id: usize, s: ShmSegment)
    requires
        s.marked_removed,
    ensures
        !live_with_key(segments.insert(id, s), key, id),
{
}

impl ShmTable {
    /// The largest allowed segment.
    pub fn shmmax_value(&self) -> (r: usize)
        ensures
            r == self.shmmax,
    {
        self.shmmax
    }

    /// The largest allowed number of segments.
    pub fn shmmni_value(&self) -> (r: usize)
        ensures
            r == self.shmmni,
    {
        self.shmmni
    }

    /// The largest allowed number of pages.
    pub fn shmall_value(&self) -> (r: usize)
        ensures
            r == self.shmall,
    {
        self.shmall
    }

    /// Changes the largest allowed segment; existing segments stay.
    pub fn set_shmmax_value(&mut self, value: usize) -> (r: SysResult<()>)
        ensures
            r is Ok,
            *final(self) == (ShmTable { shmmax: value, ..*old(self) }),
    {
        self.shmmax = value;
        Ok(())
    }

    /// Changes the largest allowed number of segments; existing segments stay.
    pub fn set_shmmni_value(&mut self, value: usize) -> (r: SysResult<()>)
        ensures
            r is Ok,
            *final(self) == (ShmTable { shmmni: value, ..*old(self) }),
    {
        self.shmmni = value;
        Ok(())
    }

    /// Changes the largest allowed number of pages; existing segments stay.
    pub fn set_shmall_value(&mut self, value: usize) -> (r: SysResult<()>)
        ensures
            r is Ok,
            *final(self) == (ShmTable { shmall: value, ..*old(self) }),
    {
        self.shmall = value;
        Ok(())
    }
}

/// A right on a segment is looked up in one group of three bits: its owner's and maker's, then
/// its groups', then everyone's. The superuser has every right.
pub proof fn rights_are_read_from_one_triple(c: Caller, s: ShmSegment)
    ensures
        c.euid == 0 ==> access_allowed(c, s, 0o600),
        access_allowed(c, s, 0),
        c.euid != 0 && (c.euid as u32 == s.uid || c.euid as u32 == s.cuid) ==> access_allowed(
            c,
            s,
            0o400,
        ) == (s.mode & 0o400 != 0) && access_allowed(c, s, 0o200) == (s.mode & 0o200 != 0),
        c.euid != 0 && c.euid as u32 != s.uid && c.euid as u32 != s.cuid && (c.egid as u32 == s.gid
            || c.egid as u32 == s.cgid) ==> access_allowed(c, s, 0o400) == (s.mode & 0o040 != 0)
            && access_allowed(c, s, 0o200) == (s.mode & 0o020 != 0),
        c.euid != 0 && c.euid as u32 != s.uid && c.euid as u32 != s.cuid && c.egid as u32 != s.gid
            && c.egid as u32 != s.cgid ==> access_allowed(c, s, 0o400) == (s.mode & 0o004 != 0)
            && access_allowed(c, s, 0o200) == (s.mode & 0o002 != 0),
        access_allowed(c, s, 0o600) == (access_allowed(c, s, 0o400) && access_allowed(c, s, 0o200)),
{
    let m = s.mode;
    assert(((m >> 6u32) & 7 & 4 == 4) == (m & 0o400 != 0) && ((m >> 6u32) & 7 & 2 == 2) == (m
        & 0o200 != 0) && ((m >> 3u32) & 7 & 4 == 4) == (m & 0o040 != 0) && ((m >> 3u32) & 7 & 2
        == 2) == (m & 0o020 != 0) && ((m >> 0u32) & 7 & 4 == 4) == (m & 0o004 != 0) && ((m >> 0u32)
        & 7 & 2 == 2) == (m & 0o002 != 0)) by (bit_vector);
    assert(0o400usize & 0o400 != 0 && 0o400usize & 0o200 == 0 && 0o200usize & 0o400 == 0
        && 0o200usize
        & 0o200 != 0 && 0o600usize & 0o400 != 0 && 0o600usize & 0o200 != 0) by (bit_vector);
}

/// A segment that is asked for by its key is the one with that key. It is refused if a new one
/// was insisted on, if it is smaller than asked for, or if the rights asked for are missing.
pub proof fn keys_lead_to_their_segment(
    before: &ShmTable,
    after: &ShmTable,
    c: Caller,
    key: isize,
    size: usize,
    shmflg: usize,
    id: usize,
    r: SysResult<usize>,
)
    requires
        segment_opened(before, after, c, key, size, shmflg, r),
        shmflg & 0o4000 == 0,
        key != 0,
        live_with_key(before.segments@, key, id),
    ensures
        after == before,
        r matches Ok(found) ==> found == id && size <= before.segments@[id].size,
        shmflg & 0o1000 != 0 && shmflg & 0o2000 != 0 ==> r == err(Errno::EEXIST),
        shmflg & 0o2000 == 0 && size > before.segments@[id].size ==> r == err(Errno::EINVAL),
        shmflg & 0o2000 == 0 && size <= before.segments@[id].size ==> r == (if access_allowed(
            c,
            before.segments@[id],
            shmflg & 0o600,
        ) {
            ok(id)
        } else {
            err(Errno::EACCES)
        }),
{
}

/// A new segment has the key and size asked for, whole pages to back it, its rights from the
/// low nine bits of the flags, and its maker as owner. Nobody has attached it yet.
pub proof fn new_segments_are_their_makers(
    before: &ShmTable,
    after: &ShmTable,
    c: Caller,
    key: isize,
    size: usize,
    shmflg: usize,
    frames: usize,
    r: SysResult<usize>,
)
    requires
        segment_created(before, after, c, key, size, shmflg, frames, r),
        shmflg & 0o4000 == 0,
        forall|id: usize| !live_with_key(before.segments@, key, id),
        r is Ok,
    ensures
        r == ok(before.next_id),
        after.segments@.contains_key(before.next_id),
        ({
            let s = after.segments@[before.next_id];
            &&& s.key == key && s.size == size && s.mode == shmflg as u32 & 0o777
            &&& s.uid == c.euid as u32 && s.cuid == s.uid
            &&& s.gid == c.egid as u32 && s.cgid == s.gid
            &&& s.cpid == c.pid as i32 && s.lpid == 0
            &&& s.ctime == c.now && s.atime == 0 && s.dtime == 0
            &&& !s.marked_removed && !s.locked
            &&& size <= s.map_len < size + 4096 && s.map_len % 4096 == 0
        }),
        key != 0 ==> shmflg & 0o1000 != 0,
        1 <= size <= before.shmmax,
        forall|id: usize|
            id != before.next_id ==> before.segments@.contains_key(id)
                == after.segments@.contains_key(id) && (before.segments@.contains_key(id)
                ==> #[trigger] after.segments@[id] == before.segments@[id]),
{
    assert(size + 4095 <= usize::MAX);
}

/// No segment is made of size zero, over the largest size, over the number of segments or over
/// the pages that all may have together; nor without the memory for it.
pub proof fn segments_are_limited(t: &ShmTable, size: usize, frames: usize)
    ensures
        size == 0 || size > t.shmmax ==> create_error(t, size, frames) == Some(Errno::EINVAL),
        create_error(t, size, frames) is None ==> {
            &&& total_pages(t.segments.entries@) + (size + 4095) / 4096 <= t.shmall
            &&& (size + 4095) / 4096 <= frames
            &&& t.segments.entries@.len() < t.shmmni
        },
        1 <= size <= t.shmmax && size + 4095 <= usize::MAX && total_pages(t.segments.entries@) + (
        size + 4095) / 4096 <= t.shmall && (size + 4095) / 4096 <= frames
            && t.segments.entries@.len() < t.shmmni && t.next_id < usize::MAX ==> create_error(
            t,
            size,
            frames,
        ) is None,
{
    let q = (size + 4095) / 4096;
    assert(q * 4096 / 4096 == q);
}

/// An attachment is of the segment asked for, over its whole pages, and writable unless the
/// flags say otherwise. Reading takes the right to read, writing both rights.
pub proof fn attachments_cover_their_segment(
    before: &ShmTable,
    after: &ShmTable,
    arch: Arch,
    c: Caller,
    shmid: usize,
    shmaddr: usize,
    shmflg: usize,
    r: SysResult<Attach>,
)
    requires
        segment_attached(before, after, arch, c, shmid, shmaddr, shmflg, r),
    ensures
        !before.segments@.contains_key(shmid) ==> r == Err::<Attach, Errno>(Errno::EINVAL) && after
            == before,
        before.segments@.contains_key(shmid) && !access_allowed(
            c,
            before.segments@[shmid],
            if shmflg & 0o10000 != 0 {
                0o400
            } else {
                0o600
            },
        ) ==> r == Err::<Attach, Errno>(Errno::EACCES) && after == before,
        r matches Ok(a) ==> {
            &&& a.shmid == shmid
            &&& a.len == before.segments@[shmid].map_len
            &&& a.writable == (shmflg & 0o10000 == 0)
            &&& a.replace == (shmflg & 0o40000 != 0)
            &&& a.attach_id == before.next_attach_id
            &&& after.attach_owners@.contains_key(a.attach_id)
            &&& after.attach_owners@[a.attach_id] == shmid
            &&& after.segments@[shmid].atime == c.now
            &&& after.segments@[shmid].lpid == c.pid as i32
            &&& after.segments@[shmid].size == before.segments@[shmid].size
            &&& after.segments@[shmid].mode == before.segments@[shmid].mode
            &&& shmaddr == 0 ==> a.addr is None
            &&& shmaddr % 4096 == 0 && shmaddr != 0 ==> a.addr == Some(shmaddr)
        },
{
}

/// An address that is not on a page is refused unless it may be rounded, and then lies at most
/// one alignment below. Nothing can be replaced at an address left open.
pub proof fn attach_addresses_are_aligned(arch: Arch, shmaddr: usize, shmflg: usize)
    ensures
        shmaddr == 0 && shmflg & 0o40000 != 0 ==> attach_address(arch, shmaddr, shmflg) == Err::<
            Option<usize>,
            Errno,
        >(Errno::EINVAL),
        shmaddr % 4096 != 0 && shmflg & 0o20000 == 0 ==> attach_address(arch, shmaddr, shmflg)
            == Err::<Option<usize>, Errno>(Errno::EINVAL),
        shmaddr % 4096 != 0 && shmflg & 0o20000 != 0 ==> (attach_address(arch, shmaddr, shmflg)
            matches Ok(Some(a)) ==> a <= shmaddr && (arch is Riscv64 ==> a % 4096 == 0
                && shmaddr - a
            < 4096) && (arch is LoongArch64 ==> a % 0x10000 == 0 && shmaddr - a < 0x10000)),
        shmaddr % 4096 != 0 && shmflg & 0o20000 != 0 && shmflg & 0o40000 == 0 ==> attach_address(
            arch,
            shmaddr,
            shmflg,
        ) is Ok,
{
    let q = shmaddr as int / 4096;
    let w = shmaddr as int / 0x10000;
    vstd::arithmetic::div_mod::lemma_fundamental_div_mod(shmaddr as int, 4096);
    vstd::arithmetic::div_mod::lemma_fundamental_div_mod(shmaddr as int, 0x10000);
    vstd::arithmetic::div_mod::lemma_mod_multiples_basic(q, 4096);
    vstd::arithmetic::div_mod::lemma_mod_multiples_basic(w, 0x10000);
    assert(shmaddr - shmaddr % 4096 == q * 4096);
    assert(shmaddr - shmaddr % 0x10000 == w * 0x10000);
}

/// Setting a segment changes its owner, its group and its nine rights and nothing else of it.
/// Only its owner and the superuser may.
pub proof fn owners_set_their_segments(
    before: &ShmTable,
    after: &ShmTable,
    c: Caller,
    shmid: usize,
    ds: ShmidDs,
    r: ShmctlReply,
)
    requires
        segment_set(before, after, c, shmid, 1, UserIn::Value(ds), r),
        before.segments@.contains_key(shmid),
    ensures
        c.euid != 0 && c.euid as u32 != before.segments@[shmid].uid ==> r.ret == err(Errno::EPERM)
            && after == before,
        c.euid == 0 || c.euid as u32 == before.segments@[shmid].uid ==> {
            let s = before.segments@[shmid];
            let t = after.segments@[shmid];
            &&& r.ret == ok(0)
            &&& t.uid == ds.shm_perm.uid && t.gid == ds.shm_perm.gid
            &&& t.mode == ds.shm_perm.mode & 0o777
            &&& t.ctime == c.now
            &&& t.cuid == s.cuid && t.cgid == s.cgid && t.key == s.key && t.size == s.size
            &&& t.marked_removed == s.marked_removed && t.locked == s.locked
        },
{
}

/// Locking locks and unlocking unlocks the segment named, and no other one changes.
pub proof fn locks_are_set_and_cleared(
    before: &ShmTable,
    after: &ShmTable,
    c: Caller,
    shmid: usize,
    cmd: usize,
    other: usize,
    r: ShmctlReply,
)
    requires
        segment_locked(before, after, c, shmid, cmd, r),
        cmd == 11 || cmd == 12,
        before.segments@.contains_key(shmid),
        c.euid == 0 || c.euid as u32 == before.segments@[shmid].uid,
        other != shmid,
        before.segments@.contains_key(other),
    ensures
        r.ret == ok(0),
        after.segments@[shmid].locked == (cmd == 11),
        after.segments@[shmid].mode == before.segments@[shmid].mode,
        after.segments@[other] == before.segments@[other],
{
}

/// Removing a segment that nobody has attached takes it away; one that is attached is only
/// marked, and stays for those who have it.
pub proof fn attached_segments_outlive_removal(
    before: &ShmTable,
    after: &ShmTable,
    c: Caller,
    shmid: usize,
    nattch: usize,
    r: ShmctlReply,
)
    requires
        rmid_outcome(before, after, c, shmid, nattch, r),
        before.segments@.contains_key(shmid),
    ensures
        c.euid != 0 && c.euid as u32 != before.segments@[shmid].uid ==> r.ret == err(Errno::EPERM)
            && after == before,
        c.euid == 0 || c.euid as u32 == before.segments@[shmid].uid ==> {
            &&& r.ret == ok(0)
            &&& nattch == 0 ==> !after.segments@.contains_key(shmid)
            &&& nattch > 0 ==> after.segments@.contains_key(shmid)
                && after.segments@[shmid].marked_removed && after.segments@[shmid].size
                == before.segments@[shmid].size && after.segments@[shmid].mode
                == before.segments@[shmid].mode
        },
{
}

/// What is told of a segment is its own: owners, key, size, times and the number attached, with
/// one bit more in the mode where it is marked for removal and another where it is locked.
pub proof fn segments_are_told_as_they_are(s: ShmSegment, nattch: usize)
    ensures
        ds_of(s, nattch).shm_perm.uid == s.uid && ds_of(s, nattch).shm_perm.gid == s.gid,
        ds_of(s, nattch).shm_perm.cuid == s.cuid && ds_of(s, nattch).shm_perm.cgid == s.cgid,
        ds_of(s, nattch).shm_segsz == s.size && ds_of(s, nattch).shm_nattch == nattch,
        ds_of(s, nattch).shm_atime == s.atime && ds_of(s, nattch).shm_dtime == s.dtime && ds_of(
            s,
            nattch,
        ).shm_ctime == s.ctime,
        ds_of(s, nattch).shm_cpid == s.cpid && ds_of(s, nattch).shm_lpid == s.lpid,
        ds_of(s, nattch).shm_perm.key == s.key as i32,
        !s.marked_removed && !s.locked ==> ds_of(s, nattch).shm_perm.mode == s.mode,
        s.marked_removed && !s.locked ==> ds_of(s, nattch).shm_perm.mode == s.mode | 0o1000,
        !s.marked_removed && s.locked ==> ds_of(s, nattch).shm_perm.mode == s.mode | 0o2000,
{
}

/// Asking by number needs the right to read, except for the command that does without; asking
/// by position answers with the number.
pub proof fn queries_need_the_right_to_read(
    t: &ShmTable,
    c: Caller,
    shmid: usize,
    nattch: usize,
    r: ShmctlReply,
    r2: ShmctlReply,
    id: usize,
)
    requires
        stat_reply(t, c, 2, shmid, nattch, UserOut::Writable, r),
        stat_reply(t, c, 15, id, nattch, UserOut::Writable, r2),
        t.segments@.contains_key(shmid),
        t.segments@[shmid].index == id,
    ensures
        access_allowed(c, t.segments@[shmid], 0o400) ==> r.ret == ok(0) && r.out == Some(
            ShmOut::State(ds_of(t.segments@[shmid], nattch)),
        ),
        !access_allowed(c, t.segments@[shmid], 0o400) ==> r.ret == err(Errno::EACCES)
            && r.out is None,
        r2.ret == ok(shmid) && r2.out == Some(ShmOut::State(ds_of(t.segments@[shmid], nattch))),
{
    assert(queried(t, 2, shmid, shmid));
    assert(queried(t, 15, id, shmid));
}

/// Detaching notes the time and the process on the segment that was attached there and forgets
/// the attachment. A segment goes away with its last attachment only if it was marked.
pub proof fn detaching_leaves_live_segments(
    before: &ShmTable,
    after: &ShmTable,
    c: Caller,
    shmaddr: usize,
    a: usize,
    in_use: Seq<usize>,
    r: SysResult<usize>,
)
    requires
        segment_detached(before, after, c, shmaddr, Ok(a), in_use, r),
        shmaddr % 4096 == 0,
        before.attach_owners@.contains_key(a),
        before.segments@.contains_key(before.attach_owners@[a]),
    ensures
        r == ok(0),
        !after.attach_owners@.contains_key(a),
        forall|id: usize|
            before.segments@.contains_key(id) && (!before.segments@[id].marked_removed
                || in_use.contains(id)) ==> #[trigger] after.segments@.contains_key(id),
        forall|id: usize|
            before.segments@.contains_key(id) && before.segments@[id].marked_removed
                && !in_use.contains(id) ==> !#[trigger] after.segments@.contains_key(id),
        after.segments@.contains_key(before.attach_owners@[a]) ==> {
            let s = after.segments@[before.attach_owners@[a]];
            &&& s.dtime == c.now
            &&& s.lpid == c.pid as i32
            &&& s.atime == before.segments@[before.attach_owners@[a]].atime
        },
        forall|id: usize|
            id != before.attach_owners@[a] && after.segments@.contains_key(id)
                ==> #[trigger] after.segments@[id] == before.segments@[id],
{
}

/// Asking about all segments tells the limits or the usage, and the highest place in use.
pub proof fn limits_and_usage_are_told(t: &ShmTable, r: ShmctlReply, r2: ShmctlReply, id: usize)
    requires
        info_reply(t, 3, UserOut::Writable, r),
        info_reply(t, 14, UserOut::Writable, r2),
        t.segments@.contains_key(id),
    ensures
        r.out matches Some(ShmOut::Limits(l)) && l.shmmax == t.shmmax && l.shmmin == 1 && l.shmmni
            == t.shmmni && l.shmall == t.shmall,
        r2.out matches Some(ShmOut::Usage(u))
            && u.shm_tot == total_pages(t.segments.entries@) as usize
            && u.shm_rss == u.shm_tot && u.shm_swp == 0 && u.used_ids
            == t.segments.entries@.len() as i32,
        r.ret matches Ok(m) && t.segments@[id].index <= m,
{
}

/// All segments together take as many pages as each of them.
pub proof fn pages_add_up(s: Seq<(usize, ShmSegment)>, e: (usize, ShmSegment))
    ensures
        total_pages(Seq::empty()) == 0,
        total_pages(s.push(e)) == total_pages(s) + e.1.map_len / 4096,
{
    assert(s.push(e).drop_last() =~= s);
}

/// A segment that is not there cannot be asked about, and an unwritable place is an error.
pub proof fn missing_segments_are_not_told(
    t: &ShmTable,
    c: Caller,
    shmid: usize,
    nattch: usize,
    r: ShmctlReply,
    r2: ShmctlReply,
)
    requires
        stat_reply(t, c, 2, shmid, nattch, UserOut::Writable, r),
        stat_reply(t, c, 2, shmid, nattch, UserOut::Fault, r2),
    ensures
        !t.segments@.contains_key(shmid) ==> r.ret == err(Errno::EINVAL) && r.out is None,
        t.segments@.contains_key(shmid) && access_allowed(c, t.segments@[shmid], 0o400) ==> r2.ret
            == err(Errno::EFAULT) && r2.out is None,
{
    if t.segments@.contains_key(shmid) {
        assert(queried(t, 2, shmid, shmid));
    } else {
        assert forall|id: usize| !queried(t, 2, shmid, id) by {}
    }
}

} // verus!
