//! User and group identities of a process.

use crate::errno::{err, ok, Errno, SysResult};
use crate::user::{Reply, UserIn, UserOut};
use vstd::prelude::*;

verus! {

/// The identities of a process.
#[derive(Debug)]
pub struct Credentials {
    pub uid: usize,
    pub euid: usize,
    pub suid: usize,
    pub fsuid: usize,
    pub gid: usize,
    pub egid: usize,
    pub sgid: usize,
    pub fsgid: usize,
    /// Supplementary groups.
    pub groups: Vec<usize>,
    /// Permission bits that new files do not get.
    pub umask: usize,
}

/// Real, effective and saved identity.
pub struct Ids {
    pub real: usize,
    pub effective: usize,
    pub saved: usize,
}

/// The two ways of saying "leave this identity as it is".
pub open spec fn unchanged(id: usize) -> bool {
    id == usize::MAX || id == u32::MAX
}

/// A requested identity, or the old one where it is to stay.
pub open spec fn resolved(new_id: usize, old_id: usize) -> usize {
    if unchanged(new_id) {
        old_id
    } else {
        new_id
    }
}

/// One of three identities.
pub open spec fn among(ids: Ids, target: usize) -> bool {
    target == ids.real || target == ids.effective || target == ids.saved
}

fn is_unchanged_id(id: usize) -> (r: bool)
    ensures
        r == unchanged(id),
{
    id == usize::MAX || id == u32::MAX as usize
}

fn resolve_new_id(new_id: usize, old_id: usize) -> (r: usize)
    ensures
        r == resolved(new_id, old_id),
{
    if is_unchanged_id(new_id) {
        old_id
    } else {
        new_id
    }
}

/// The identities after `setuid` or `setgid`: root changes all three, others
/// only the effective one, to one of their own.
pub open spec fn set_all(ids: Ids, privileged: bool, id: usize) -> SysResult<Ids> {
    if privileged {
        Ok(Ids { real: id, effective: id, saved: id })
    } else if among(ids, id) {
        Ok(Ids { real: ids.real, effective: id, saved: ids.saved })
    } else {
        Err(Errno::EPERM)
    }
}

/// The identities after `setreuid` or `setregid`: the saved one follows the new
/// effective one if the real one is set, or if the effective one is set to
/// something else than the old real one.
pub open spec fn set_pair(ids: Ids, privileged: bool, r: usize, e: usize) -> SysResult<Ids> {
    let nr = resolved(r, ids.real);
    let ne = resolved(e, ids.effective);
    if !privileged && !(among(ids, nr) && among(ids, ne)) {
        Err(Errno::EPERM)
    } else {
        Ok(
            Ids {
                real: nr,
                effective: ne,
                saved: if !unchanged(r) || (!unchanged(e) && ne != ids.real) {
                    ne
                } else {
                    ids.saved
                },
            },
        )
    }
}

/// The identities after `setresuid` or `setresgid`.
pub open spec fn set_triple(ids: Ids, privileged: bool, r: usize, e: usize, s: usize) -> SysResult<
    Ids,
> {
    let nr = resolved(r, ids.real);
    let ne = resolved(e, ids.effective);
    let ns = resolved(s, ids.saved);
    if !privileged && !(among(ids, nr) && among(ids, ne) && among(ids, ns)) {
        Err(Errno::EPERM)
    } else {
        Ok(Ids { real: nr, effective: ne, saved: ns })
    }
}

impl Ids {
    fn contains(&self, target: usize) -> (r: bool)
        ensures
            r == among(*self, target),
    {
        target == self.real || target == self.effective || target == self.saved
    }

    fn with_all(&self, privileged: bool, id: usize) -> (r: SysResult<Ids>)
        ensures
            r == set_all(*self, privileged, id),
    {
        if privileged {
            return Ok(Ids { real: id, effective: id, saved: id });
        }
        if self.contains(id) {
            return Ok(Ids { real: self.real, effective: id, saved: self.saved });
        }
        Err(Errno::EPERM)
    }

    fn with_pair(&self, privileged: bool, r: usize, e: usize) -> (res: SysResult<Ids>)
        ensures
            res == set_pair(*self, privileged, r, e),
    {
        let nr: usize = resolve_new_id(r, self.real);
        let ne: usize = resolve_new_id(e, self.effective);
        if !privileged && (!self.contains(nr) || !self.contains(ne)) {
            return Err(Errno::EPERM);
        }
        let ns: usize = if !is_unchanged_id(r) || (!is_unchanged_id(e) && ne != self.real) {
            ne
        } else {
            self.saved
        };
        Ok(Ids { real: nr, effective: ne, saved: ns })
    }

    fn with_triple(&self, privileged: bool, r: usize, e: usize, s: usize) -> (res: SysResult<Ids>)
        ensures
            res == set_triple(*self, privileged, r, e, s),
    {
        let nr: usize = resolve_new_id(r, self.real);
        let ne: usize = resolve_new_id(e, self.effective);
        let ns: usize = resolve_new_id(s, self.saved);
        if !privileged && (!self.contains(nr) || !self.contains(ne) || !self.contains(ns)) {
            return Err(Errno::EPERM);
        }
        Ok(Ids { real: nr, effective: ne, saved: ns })
    }
}

impl Credentials {
    pub open spec fn user_ids(&self) -> Ids {
        Ids { real: self.uid, effective: self.euid, saved: self.suid }
    }

    pub open spec fn group_ids(&self) -> Ids {
        Ids { real: self.gid, effective: self.egid, saved: self.sgid }
    }

    /// Only the three user numbers differ from `c`; the file system user
    /// follows the effective one.
    pub open spec fn with_users(&self, c: &Credentials, ids: Ids) -> bool {
        &&& self.user_ids() == ids
        &&& self.fsuid == ids.effective
        &&& self.group_ids() == c.group_ids()
        &&& self.fsgid == c.fsgid
        &&& self.groups == c.groups
        &&& self.umask == c.umask
    }

    /// Only the three group numbers differ from `c`; the file system group
    /// follows the effective one.
    pub open spec fn with_groups(&self, c: &Credentials, ids: Ids) -> bool {
        &&& self.group_ids() == ids
        &&& self.fsgid == ids.effective
        &&& self.user_ids() == c.user_ids()
        &&& self.fsuid == c.fsuid
        &&& self.groups == c.groups
        &&& self.umask == c.umask
    }

    fn set_uid_triplet(&mut self, ids: Ids)
        ensures
            final(self).with_users(old(self), ids),
    {
        self.uid = ids.real;
        self.euid = ids.effective;
        self.suid = ids.saved;
        self.fsuid = ids.effective;
    }

    fn set_gid_triplet(&mut self, ids: Ids)
        ensures
            final(self).with_groups(old(self), ids),
    {
        self.gid = ids.real;
        self.egid = ids.effective;
        self.sgid = ids.saved;
        self.fsgid = ids.effective;
    }

    fn users(&self) -> (r: Ids)
        ensures
            r == self.user_ids(),
    {
        Ids { real: self.uid, effective: self.euid, saved: self.suid }
    }

    fn group_numbers(&self) -> (r: Ids)
        ensures
            r == self.group_ids(),
    {
        Ids { real: self.gid, effective: self.egid, saved: self.sgid }
    }

    /// Tells whether `gid` is the file system group or a supplementary group.
    pub fn in_group(&self, gid: usize) -> (r: bool)
        ensures
            r == (self.fsgid == gid || self.groups@.contains(gid)),
    {
        if self.fsgid == gid {
            return true;
        }
        let mut i: usize = 0;
        while i < self.groups.len()
            invariant
                i <= self.groups@.len(),
                forall|k: int| 0 <= k < i ==> self.groups@[k] != gid,
            decreases self.groups@.len() - i,
        {
            if self.groups[i] == gid {
                return true;
            }
            i = i + 1;
        }
        false
    }
}

/// What a change of user numbers returns and does.
pub open spec fn users_changed(
    before: &Credentials,
    after: &Credentials,
    wanted: SysResult<Ids>,
    r: SysResult<usize>,
) -> bool {
    match wanted {
        Ok(ids) => r == ok(0) && after.with_users(before, ids),
        Err(e) => r == err(e) && *after == *before,
    }
}

/// What a change of group numbers returns and does.
pub open spec fn groups_changed(
    before: &Credentials,
    after: &Credentials,
    wanted: SysResult<Ids>,
    r: SysResult<usize>,
) -> bool {
    match wanted {
        Ok(ids) => r == ok(0) && after.with_groups(before, ids),
        Err(e) => r == err(e) && *after == *before,
    }
}

/// The real user.
pub fn sys_getuid(c: &Credentials) -> (r: SysResult<usize>)
    ensures
        r == ok(c.uid),
{
    Ok(c.uid)
}

/// The effective user.
pub fn sys_geteuid(c: &Credentials) -> (r: SysResult<usize>)
    ensures
        r == ok(c.euid),
{
    Ok(c.euid)
}

/// The real group.
pub fn sys_getgid(c: &Credentials) -> (r: SysResult<usize>)
    ensures
        r == ok(c.gid),
{
    Ok(c.gid)
}

/// The effective group.
pub fn sys_getegid(c: &Credentials) -> (r: SysResult<usize>)
    ensures
        r == ok(c.egid),
{
    Ok(c.egid)
}

/// Becomes another user.
pub fn sys_setuid(c: &mut Credentials, uid: usize) -> (r: SysResult<usize>)
    ensures
        users_changed(old(c), final(c), set_all(old(c).user_ids(), old(c).euid == 0, uid), r),
{
    match c.users().with_all(c.euid == 0, uid) {
        Ok(ids) => {
            c.set_uid_triplet(ids);
            Ok(0)
        },
        Err(e) => Err(e),
    }
}

/// Changes real and effective user.
pub fn sys_setreuid(c: &mut Credentials, ruid: usize, euid: usize) -> (r: SysResult<usize>)
    ensures
        users_changed(
            old(c),
            final(c),
            set_pair(old(c).user_ids(), old(c).euid == 0, ruid, euid),
            r,
        ),
{
    match c.users().with_pair(c.euid == 0, ruid, euid) {
        Ok(ids) => {
            c.set_uid_triplet(ids);
            Ok(0)
        },
        Err(e) => Err(e),
    }
}

/// Changes real, effective and saved user.
pub fn sys_setresuid(c: &mut Credentials, ruid: usize, euid: usize, suid: usize) -> (r: SysResult<
    usize,
>)
    ensures
        users_changed(
            old(c),
            final(c),
            set_triple(old(c).user_ids(), old(c).euid == 0, ruid, euid, suid),
            r,
        ),
{
    match c.users().with_triple(c.euid == 0, ruid, euid, suid) {
        Ok(ids) => {
            c.set_uid_triplet(ids);
            Ok(0)
        },
        Err(e) => Err(e),
    }
}

/// Takes another group. Only root of the user numbers is privileged.
pub fn sys_setgid(c: &mut Credentials, gid: usize) -> (r: SysResult<usize>)
    ensures
        groups_changed(old(c), final(c), set_all(old(c).group_ids(), old(c).euid == 0, gid), r),
{
    match c.group_numbers().with_all(c.euid == 0, gid) {
        Ok(ids) => {
            c.set_gid_triplet(ids);
            Ok(0)
        },
        Err(e) => Err(e),
    }
}

/// Changes real and effective group.
pub fn sys_setregid(c: &mut Credentials, rgid: usize, egid: usize) -> (r: SysResult<usize>)
    ensures
        groups_changed(
            old(c),
            final(c),
            set_pair(old(c).group_ids(), old(c).euid == 0, rgid, egid),
            r,
        ),
{
    match c.group_numbers().with_pair(c.euid == 0, rgid, egid) {
        Ok(ids) => {
            c.set_gid_triplet(ids);
            Ok(0)
        },
        Err(e) => Err(e),
    }
}

/// Changes real, effective and saved group.
pub fn sys_setresgid(c: &mut Credentials, rgid: usize, egid: usize, sgid: usize) -> (r: SysResult<
    usize,
>)
    ensures
        groups_changed(
            old(c),
            final(c),
            set_triple(old(c).group_ids(), old(c).euid == 0, rgid, egid, sgid),
            r,
        ),
{
    match c.group_numbers().with_triple(c.euid == 0, rgid, egid, sgid) {
        Ok(ids) => {
            c.set_gid_triplet(ids);
            Ok(0)
        },
        Err(e) => Err(e),
    }
}

/// The values written through three pointers, in order, up to the first that
/// cannot be written.
pub open spec fn written_prefix(p: [UserOut; 3], v: [u32; 3]) -> Seq<u32> {
    if p@[0] != UserOut::Writable {
        Seq::empty()
    } else if p@[1] != UserOut::Writable {
        seq![v@[0]]
    } else if p@[2] != UserOut::Writable {
        seq![v@[0], v@[1]]
    } else {
        seq![v@[0], v@[1], v@[2]]
    }
}

/// A result and the values written in order.
pub struct TripleReply {
    pub ret: SysResult<usize>,
    pub out: Vec<u32>,
}

fn write_three(p: [UserOut; 3], v: [u32; 3]) -> (r: TripleReply)
    ensures
        r.out@ == written_prefix(p, v),
        r.ret == (if r.out@.len() == 3 {
            ok(0)
        } else {
            err(Errno::EFAULT)
        }),
{
    let mut out: Vec<u32> = Vec::new();
    if p[0].check().is_err() {
        return TripleReply { ret: Err(Errno::EFAULT), out };
    }
    out.push(v[0]);
    if p[1].check().is_err() {
        return TripleReply { ret: Err(Errno::EFAULT), out };
    }
    out.push(v[1]);
    if p[2].check().is_err() {
        return TripleReply { ret: Err(Errno::EFAULT), out };
    }
    out.push(v[2]);
    TripleReply { ret: Ok(0), out }
}

/// Reports real, effective and saved user.
pub fn sys_getresuid(c: &Credentials, ruid: UserOut, euid: UserOut, suid: UserOut) -> (r:
    TripleReply)
    ensures
        r.out@ == written_prefix(
            [ruid, euid, suid],
            [c.uid as u32, c.euid as u32, c.suid as u32],
        ),
        r.ret == (if r.out@.len() == 3 {
            ok(0)
        } else {
            err(Errno::EFAULT)
        }),
{
    write_three([ruid, euid, suid], [c.uid as u32, c.euid as u32, c.suid as u32])
}

/// Reports real, effective and saved group.
pub fn sys_getresgid(c: &Credentials, rgid: UserOut, egid: UserOut, sgid: UserOut) -> (r:
    TripleReply)
    ensures
        r.out@ == written_prefix(
            [rgid, egid, sgid],
            [c.gid as u32, c.egid as u32, c.sgid as u32],
        ),
        r.ret == (if r.out@.len() == 3 {
            ok(0)
        } else {
            err(Errno::EFAULT)
        }),
{
    write_three([rgid, egid, sgid], [c.gid as u32, c.egid as u32, c.sgid as u32])
}

/// Whether asking for the list of groups returns `r`.
pub open spec fn groups_told(
    groups: Seq<usize>,
    size: usize,
    list: UserOut,
    r: Reply<Vec<u32>>,
) -> bool {
    &&& size == 0 ==> r.ret == ok(groups.len() as usize) && r.out is None
    &&& size != 0 && size < groups.len() ==> r.ret == err(Errno::EINVAL) && r.out is None
    &&& size != 0 && size >= groups.len() ==> {
        if groups.len() > 0 && list != UserOut::Writable {
            r.ret == err(Errno::EFAULT) && r.out is None
        } else {
            &&& r.ret == ok(groups.len() as usize)
            &&& r.out is Some
            &&& r.out->0@ == groups.map_values(|g: usize| g as u32)
        }
    }
}

/// Reports the supplementary groups. With size 0 only their number is reported
/// and nothing is written.
pub fn sys_getgroups(c: &Credentials, size: usize, list: UserOut) -> (r: Reply<Vec<u32>>)
    ensures
        groups_told(c.groups@, size, list, r),
{
    if size == 0 {
        return Reply::done(c.groups.len());
    }
    if size < c.groups.len() {
        return Reply::fail(Errno::EINVAL);
    }
    if c.groups.len() > 0 && list.check().is_err() {
        return Reply::fail(Errno::EFAULT);
    }
    let mut out: Vec<u32> = Vec::new();
    let mut i: usize = 0;
    while i < c.groups.len()
        invariant
            i <= c.groups@.len(),
            out@ == c.groups@.take(i as int).map_values(|g: usize| g as u32),
        decreases c.groups@.len() - i,
    {
        out.push(c.groups[i] as u32);
        i = i + 1;
        proof {
            assert(out@ =~= c.groups@.take(i as int).map_values(|g: usize| g as u32));
        }
    }
    proof {
        assert(c.groups@.take(i as int) =~= c.groups@);
    }
    Reply { ret: Ok(c.groups.len()), out: Some(out) }
}

/// The largest number of supplementary groups.
pub const NGROUPS_MAX: usize = 65_536;

/// What replacing the list of groups returns.
pub open spec fn setgroups_answer(
    euid: usize,
    size: usize,
    list: UserIn<Vec<u32>>,
) -> SysResult<usize> {
    if euid != 0 {
        err(Errno::EPERM)
    } else if size > NGROUPS_MAX {
        err(Errno::EINVAL)
    } else if size > 0 && !(list is Value) {
        err(Errno::EFAULT)
    } else {
        ok(0)
    }
}

/// Replaces the supplementary groups. `list` holds the `size` groups that were
/// read from user memory.
pub fn sys_setgroups(c: &mut Credentials, size: usize, list: UserIn<Vec<u32>>) -> (r: SysResult<
    usize,
>)
    requires
        list matches UserIn::Value(v) ==> v@.len() == size,
    ensures
        r == setgroups_answer(old(c).euid, size, list),
        final(c).user_ids() == old(c).user_ids(),
        final(c).group_ids() == old(c).group_ids(),
        final(c).fsuid == old(c).fsuid,
        final(c).fsgid == old(c).fsgid,
        final(c).umask == old(c).umask,
        r is Err ==> final(c).groups == old(c).groups,
        r is Ok ==> final(c).groups@ == (if size == 0 {
            Seq::empty()
        } else {
            list->Value_0@.map_values(|g: u32| g as usize)
        }),
{
    if c.euid != 0 {
        return Err(Errno::EPERM);
    }
    if size > NGROUPS_MAX {
        return Err(Errno::EINVAL);
    }
    if size == 0 {
        c.groups = Vec::new();
        return Ok(0);
    }
    let groups = match list.read() {
        Ok(v) => v,
        Err(e) => {
            return Err(e);
        },
    };
    let mut new_groups: Vec<usize> = Vec::new();
    let mut i: usize = 0;
    while i < groups.len()
        invariant
            i <= groups@.len(),
            new_groups@ == groups@.take(i as int).map_values(|g: u32| g as usize),
        decreases groups@.len() - i,
    {
        new_groups.push(groups[i] as usize);
        i = i + 1;
        proof {
            assert(new_groups@ =~= groups@.take(i as int).map_values(|g: u32| g as usize));
        }
    }
    proof {
        assert(groups@.take(i as int) =~= groups@);
    }
    c.groups = new_groups;
    Ok(0)
}

/// The identity used for files after `wanted` was asked for where it was `current`.
pub open spec fn file_id(ids: Ids, privileged: bool, wanted: usize, current: usize) -> usize {
    if !unchanged(wanted) && (privileged || among(ids, wanted)) {
        wanted
    } else {
        current
    }
}

/// Changes the user for file access and returns the former one. A forbidden
/// change is silently not made.
pub fn sys_setfsuid(c: &mut Credentials, uid: usize) -> (r: SysResult<usize>)
    ensures
        r == ok(old(c).fsuid),
        final(c).fsuid == file_id(old(c).user_ids(), old(c).euid == 0, uid, old(c).fsuid),
        final(c).user_ids() == old(c).user_ids(),
        final(c).group_ids() == old(c).group_ids(),
        final(c).fsgid == old(c).fsgid,
        final(c).groups == old(c).groups,
        final(c).umask == old(c).umask,
{
    let old_id: usize = c.fsuid;
    if !is_unchanged_id(uid) && (c.euid == 0 || c.users().contains(uid)) {
        c.fsuid = uid;
    }
    Ok(old_id)
}

/// Changes the group for file access and returns the former one. A forbidden
/// change is silently not made.
pub fn sys_setfsgid(c: &mut Credentials, gid: usize) -> (r: SysResult<usize>)
    ensures
        r == ok(old(c).fsgid),
        final(c).fsgid == file_id(old(c).group_ids(), old(c).euid == 0, gid, old(c).fsgid),
        final(c).user_ids() == old(c).user_ids(),
        final(c).group_ids() == old(c).group_ids(),
        final(c).fsuid == old(c).fsuid,
        final(c).groups == old(c).groups,
        final(c).umask == old(c).umask,
{
    let old_id: usize = c.fsgid;
    if !is_unchanged_id(gid) && (c.euid == 0 || c.group_numbers().contains(gid)) {
        c.fsgid = gid;
    }
    Ok(old_id)
}

/// Replaces the file creation mask by the permission bits of `mask` and returns
/// the former one.
pub fn sys_umask(c: &mut Credentials, mask: usize) -> (r: SysResult<usize>)
    ensures
        r == ok(old(c).umask),
        final(c).umask == mask & 0o777,
        final(c).user_ids() == old(c).user_ids(),
        final(c).group_ids() == old(c).group_ids(),
        final(c).fsuid == old(c).fsuid,
        final(c).fsgid == old(c).fsgid,
        final(c).groups == old(c).groups,
{
    let old_mask: usize = c.umask;
    c.umask = mask & 0o777;
    Ok(old_mask)
}

/// Without privilege no call can produce an identity that the process did not
/// already have.
pub proof fn unprivileged_identities_are_old_ones(ids: Ids, a: usize, b: usize, c: usize)
    ensures
        set_all(ids, false, a) matches Ok(n) ==> among(ids, n.real) && among(ids, n.effective)
            && among(ids, n.saved),
        set_pair(ids, false, a, b) matches Ok(n) ==> among(ids, n.real) && among(ids, n.effective)
            && among(ids, n.saved),
        set_triple(ids, false, a, b, c) matches Ok(n) ==> among(ids, n.real) && among(
            ids,
            n.effective,
        ) && among(ids, n.saved),
{
}

/// Asking for no change succeeds and changes nothing.
pub proof fn unchanged_identities_stay(ids: Ids, privileged: bool, a: usize, b: usize, c: usize)
    requires
        unchanged(a),
        unchanged(b),
        unchanged(c),
    ensures
        set_pair(ids, privileged, a, b) == Ok::<Ids, Errno>(ids),
        set_triple(ids, privileged, a, b, c) == Ok::<Ids, Errno>(ids),
{
}

/// Root that becomes another user with `setuid` cannot come back.
pub proof fn setuid_of_root_is_final(ids: Ids, id: usize, later: usize)
    requires
        id != 0,
        later == 0,
    ensures
        set_all(ids, true, id) matches Ok(n) && set_all(n, false, later) is Err,
{
}

/// A privileged change of all identities sets all three, an unprivileged one only the effective
/// one, to one that the caller has.
pub proof fn plain_changes_set_what_they_may(ids: Ids, id: usize)
    ensures
        set_all(ids, true, id) matches Ok(n) ==> n.real == id && n.effective == id && n.saved == id,
        set_all(ids, true, id) is Ok,
        set_all(ids, false, id) matches Ok(n) ==> n.real == ids.real && n.effective == id && n.saved
            == ids.saved,
        (set_all(ids, false, id) is Ok) == (id == ids.real || id == ids.effective || id
            == ids.saved),
        set_all(ids, false, id) is Err ==> set_all(ids, false, id) == Err::<Ids, Errno>(
            Errno::EPERM,
        ),
{
}

/// Setting two identities gives each its own value. The saved one follows the effective one if
/// the real one was named or the effective one became another than the real one.
pub proof fn pairs_set_each_their_own(ids: Ids, r: usize, e: usize)
    requires
        r < u32::MAX,
        e < u32::MAX,
    ensures
        set_pair(ids, true, r, e) == Ok::<Ids, Errno>(Ids { real: r, effective: e, saved: e }),
        set_pair(ids, true, usize::MAX, e) == Ok::<Ids, Errno>(
            Ids {
                real: ids.real,
                effective: e,
                saved: if e != ids.real {
                    e
                } else {
                    ids.saved
                },
            },
        ),
        set_pair(ids, true, r, 0xffff_ffff) == Ok::<Ids, Errno>(
            Ids { real: r, effective: ids.effective, saved: ids.effective },
        ),
        (set_pair(ids, false, r, e) is Ok) == ((r == ids.real || r == ids.effective || r
            == ids.saved) && (e == ids.real || e == ids.effective || e == ids.saved)),
        set_pair(ids, false, r, e) is Ok ==> set_pair(ids, false, r, e) == set_pair(ids, true, r, e),
        set_pair(ids, false, r, e) matches Err(x) ==> x == Errno::EPERM,
{
}

/// Setting three identities gives each its own value.
pub proof fn triples_set_each_their_own(ids: Ids, r: usize, e: usize, s: usize)
    requires
        r < u32::MAX,
        e < u32::MAX,
        s < u32::MAX,
    ensures
        set_triple(ids, true, r, e, s) == Ok::<Ids, Errno>(Ids { real: r, effective: e, saved: s }),
        set_triple(ids, true, usize::MAX, e, s) == Ok::<Ids, Errno>(
            Ids { real: ids.real, effective: e, saved: s },
        ),
        set_triple(ids, true, r, usize::MAX, s) == Ok::<Ids, Errno>(
            Ids { real: r, effective: ids.effective, saved: s },
        ),
        set_triple(ids, true, r, e, usize::MAX) == Ok::<Ids, Errno>(
            Ids { real: r, effective: e, saved: ids.saved },
        ),
        (set_triple(ids, false, r, e, s) is Ok) == ((r == ids.real || r == ids.effective || r
            == ids.saved) && (e == ids.real || e == ids.effective || e == ids.saved) && (s
            == ids.real || s == ids.effective || s == ids.saved)),
        set_triple(ids, false, r, e, s) is Ok ==> set_triple(ids, false, r, e, s) == set_triple(
            ids,
            true,
            r,
            e,
            s,
        ),
        set_triple(ids, false, r, e, s) matches Err(x) ==> x == Errno::EPERM,
{
}

/// A change of the user leaves the groups, and moves the identity used for files along with the
/// effective one; a change of the group does the reverse.
pub proof fn users_and_groups_change_apart(
    before: &Credentials,
    after: &Credentials,
    ids: Ids,
    r: SysResult<usize>,
)
    ensures
        users_changed(before, after, Ok(ids), r) ==> r == ok(0) && after.uid == ids.real
            && after.euid == ids.effective && after.suid == ids.saved && after.fsuid
            == ids.effective && after.gid == before.gid && after.egid == before.egid && after.sgid
            == before.sgid && after.fsgid == before.fsgid && after.groups == before.groups,
        groups_changed(before, after, Ok(ids), r) ==> r == ok(0) && after.gid == ids.real
            && after.egid == ids.effective && after.sgid == ids.saved && after.fsgid
            == ids.effective && after.uid == before.uid && after.euid == before.euid && after.suid
            == before.suid && after.fsuid == before.fsuid && after.groups == before.groups,
{
}

/// The list of groups is replaced by the superuser, by at most 65536 of them.
pub proof fn only_the_superuser_sets_groups(euid: usize, size: usize, list: UserIn<Vec<u32>>)
    ensures
        euid != 0 ==> setgroups_answer(euid, size, list) == err(Errno::EPERM),
        euid == 0 && size > 65536 ==> setgroups_answer(euid, size, list) == err(Errno::EINVAL),
        euid == 0 && 0 < size <= 65536 ==> setgroups_answer(euid, size, list) == (
        if list is Value {
            ok(0)
        } else {
            err(Errno::EFAULT)
        }),
        euid == 0 && size == 0 ==> setgroups_answer(euid, size, list) == ok(0),
{
}

/// The identity used for files becomes one that the caller has, or any for the superuser.
pub proof fn file_identities_are_the_callers(
    ids: Ids,
    privileged: bool,
    wanted: usize,
    current: usize,
)
    requires
        wanted < u32::MAX,
    ensures
        privileged ==> file_id(ids, privileged, wanted, current) == wanted,
        file_id(ids, privileged, wanted, current) == wanted || file_id(
            ids,
            privileged,
            wanted,
            current,
        ) == current,
        !privileged && wanted != current ==> (file_id(ids, privileged, wanted, current) == wanted)
            == (wanted == ids.real || wanted == ids.effective || wanted == ids.saved),
{
}

/// Three identities are written one after the other, in order, up to the first place that
/// cannot be written.
pub proof fn triples_are_written_in_order(p: [UserOut; 3], v: [u32; 3])
    ensures
        forall|i: int|
            0 <= i < written_prefix(p, v).len() ==> #[trigger] written_prefix(p, v)[i] == v@[i]
                && p@[i] == UserOut::Writable,
        written_prefix(p, v).len() <= 3,
        written_prefix(p, v).len() < 3 ==> p@[written_prefix(p, v).len() as int]
            != UserOut::Writable,
{
}

/// The list of groups is told whole and in order where there is room for it; a size of zero
/// asks for its length.
pub proof fn groups_are_told_whole(groups: Seq<usize>, size: usize, r: Reply<Vec<u32>>, i: int)
    requires
        groups_told(groups, size, UserOut::Writable, r),
        groups.len() <= usize::MAX,
        0 <= i < groups.len(),
        groups[i] <= u32::MAX,
    ensures
        size == 0 ==> r.ret == ok(groups.len() as usize) && r.out is None,
        0 < size < groups.len() ==> r.ret == err(Errno::EINVAL) && r.out is None,
        size >= groups.len() && size > 0 ==> r.ret == ok(groups.len() as usize) && r.out is Some
            && r.out->0@.len() == groups.len() && r.out->0@[i] == groups[i],
{
}

} // verus!
