//! Waiting for many descriptors at once.

use crate::errno::{err, ok, Errno, SysResult};
use crate::signal::sig_struct::{blockable_part, SigSet};
use crate::sorted_map::SortedMap;
use crate::syscall::file::InodeType;
use crate::syscall::special_fd::{checked_flags, flags_from_o_flags, FD_CLOSE_ON_EXEC};
use crate::syscall::waiting::{undisturbed, WaitState};
use crate::user::{read_result, UserIn};
use vstd::bytes::*;
use vstd::prelude::*;

verus! {

pub const EPOLLIN: u32 = 0x001;

pub const EPOLLPRI: u32 = 0x002;

pub const EPOLLOUT: u32 = 0x004;

pub const EPOLLERR: u32 = 0x008;

pub const EPOLLHUP: u32 = 0x010;

pub const EPOLLRDHUP: u32 = 0x2000;

pub const EPOLLONESHOT: u32 = 0x4000_0000;

pub const EPOLLET: u32 = 0x8000_0000;

/// All event bits that a program may ask for.
pub const EPOLL_SUPPORTED: u32 = 0xc000_201f;

pub const EPOLL_CTL_ADD: usize = 1;

pub const EPOLL_CTL_DEL: usize = 2;

pub const EPOLL_CTL_MOD: usize = 3;

/// A descriptor that is watched, together with the open file behind it.
#[derive(Debug, Clone, Copy, PartialEq, Eq, Structural)]
pub struct EpollInterest {
    pub fd: usize,
    /// Identity of the open file.
    pub file: usize,
    pub events: u32,
    pub data: u64,
    /// What was ready when an edge was last reported.
    pub last_ready: u32,
    /// Reported once and not asked for again since.
    pub disabled: bool,
    /// Counts changes of the interest.
    pub generation: usize,
}

/// A report about one interest.
#[derive(Debug, Clone, Copy, PartialEq, Eq, Structural)]
pub struct EpollReady {
    pub fd: usize,
    pub file: usize,
    pub events: u32,
    pub data: u64,
    pub observed_ready: u32,
    pub generation: usize,
}

/// What an open file is ready for.
#[derive(Debug, Clone, Copy, PartialEq, Eq, Structural)]
pub struct FileReady {
    pub input: bool,
    pub output: bool,
    pub error: bool,
    pub hangup: bool,
    pub read_hangup: bool,
}

/// The watched descriptors, in order of descriptor and file.
#[derive(Debug)]
pub struct EpollFd {
    pub flags: u32,
    pub interests: Vec<EpollInterest>,
}

/// Order of interests.
pub open spec fn comes_before(a: EpollInterest, b: EpollInterest) -> bool {
    a.fd < b.fd || (a.fd == b.fd && a.file < b.file)
}

/// Interests are in strict order, so no descriptor and file occur twice.
pub open spec fn in_order(s: Seq<EpollInterest>) -> bool {
    forall|i: int, j: int|
        0 <= i < j < s.len() ==> comes_before(#[trigger] s[i], #[trigger] s[j])
}

/// Interest `i` watches this descriptor and file.
pub open spec fn watched_at(s: Seq<EpollInterest>, fd: usize, file: usize, i: int) -> bool {
    0 <= i < s.len() && s[i].fd == fd && s[i].file == file
}

/// Some interest watches this descriptor and file.
pub open spec fn watched(s: Seq<EpollInterest>, fd: usize, file: usize) -> bool {
    exists|i: int| watched_at(s, fd, file, i)
}

/// A new interest.
pub open spec fn fresh_interest(fd: usize, file: usize, event: (u32, u64)) -> EpollInterest {
    EpollInterest {
        fd,
        file,
        events: event.0,
        data: event.1,
        last_ready: 0,
        disabled: false,
        generation: 0,
    }
}

/// A changed interest: it reports again, and reports under way no longer count.
pub open spec fn changed_interest(i: EpollInterest, event: (u32, u64)) -> EpollInterest {
    EpollInterest {
        events: event.0,
        data: event.1,
        last_ready: 0,
        disabled: false,
        generation: i.generation.wrapping_add(1),
        ..i
    }
}

/// What is ready of what an interest asks for; errors and hangups always count.
pub open spec fn ready_bits(i: EpollInterest, f: FileReady) -> u32 {
    let a = if i.events & EPOLLIN != 0 && f.input {
        EPOLLIN
    } else {
        0
    };
    let b = if i.events & EPOLLOUT != 0 && f.output {
        a | EPOLLOUT
    } else {
        a
    };
    let c = if f.error {
        b | EPOLLERR
    } else {
        b
    };
    let d = if f.hangup {
        c | EPOLLHUP
    } else {
        c
    };
    if i.events & EPOLLRDHUP != 0 && f.read_hangup {
        d | EPOLLRDHUP
    } else {
        d
    }
}

/// What is reported: everything that is ready, or for edges only what was not
/// ready at the last report.
pub open spec fn report_bits(i: EpollInterest, ready: u32) -> u32 {
    if i.events & EPOLLET != 0 {
        ready & !i.last_ready
    } else {
        ready
    }
}

/// The report about an interest, if there is one.
pub open spec fn report(i: EpollInterest, f: FileReady) -> Option<EpollReady> {
    let ready = ready_bits(i, f);
    let bits = report_bits(i, ready);
    if i.disabled || bits == 0 {
        None
    } else {
        Some(
            EpollReady {
                fd: i.fd,
                file: i.file,
                events: bits & (i.events | EPOLLERR | EPOLLHUP),
                data: i.data,
                observed_ready: ready,
                generation: i.generation,
            },
        )
    }
}

/// An interest after it was looked at: an edge that is over is forgotten.
pub open spec fn looked(i: EpollInterest, f: FileReady) -> EpollInterest {
    if !i.disabled && i.events & EPOLLET != 0 && ready_bits(i, f) == 0 {
        EpollInterest { last_ready: 0, ..i }
    } else {
        i
    }
}

/// The reports of a scan, at most `max` of them.
pub open spec fn scan_reports(s: Seq<EpollInterest>, files: Map<usize, FileReady>, max: usize) -> Seq<
    EpollReady,
>
    decreases s.len(),
{
    if s.len() == 0 {
        Seq::empty()
    } else {
        let before = scan_reports(s.drop_last(), files, max);
        match report(s.last(), files[s.last().file]) {
            Some(e) if before.len() < max => before.push(e),
            _ => before,
        }
    }
}

/// The interests after a scan: those that were looked at before the reports
/// were full.
pub open spec fn scanned(s: Seq<EpollInterest>, files: Map<usize, FileReady>, max: usize) -> Seq<
    EpollInterest,
> {
    Seq::new(
        s.len(),
        |k: int|
            if scan_reports(s.take(k), files, max).len() < max {
                looked(s[k], files[s[k].file])
            } else {
                s[k]
            },
    )
}

/// Interests whose file is still open.
pub open spec fn is_open(files: Map<usize, FileReady>) -> spec_fn(EpollInterest) -> bool {
    |i: EpollInterest| files.contains_key(i.file)
}

/// An interest after one report about it was accepted.
pub open spec fn committed_one(i: EpollInterest, e: EpollReady) -> EpollInterest {
    if i.fd == e.fd && i.file == e.file && i.generation == e.generation {
        EpollInterest {
            last_ready: if i.events & EPOLLET != 0 {
                e.observed_ready
            } else {
                i.last_ready
            },
            disabled: i.disabled || i.events & EPOLLONESHOT != 0,
            ..i
        }
    } else {
        i
    }
}

/// An interest after several reports were accepted, in order.
pub open spec fn committed(i: EpollInterest, ready: Seq<EpollReady>) -> EpollInterest
    decreases ready.len(),
{
    if ready.len() == 0 {
        i
    } else {
        committed_one(committed(i, ready.drop_last()), ready.last())
    }
}

/// Whether changing the interests `s` returns `r`.
pub open spec fn ctl_answer(
    s: Seq<EpollInterest>,
    op: usize,
    fd: usize,
    event: Option<(u32, u64)>,
    file: usize,
    r: SysResult<usize>,
) -> bool {
    r == (if op == EPOLL_CTL_ADD {
        if watched(s, fd, file) {
            err(Errno::EEXIST)
        } else if event is None {
            err(Errno::EFAULT)
        } else {
            ok(0)
        }
    } else if op == EPOLL_CTL_DEL {
        if watched(s, fd, file) {
            ok(0)
        } else {
            err(Errno::ENOENT)
        }
    } else if op == EPOLL_CTL_MOD {
        if !watched(s, fd, file) {
            err(Errno::ENOENT)
        } else if event is None {
            err(Errno::EFAULT)
        } else {
            ok(0)
        }
    } else {
        err(Errno::EINVAL)
    })
}

impl EpollFd {
    pub open spec fn wf(&self) -> bool {
        in_order(self.interests@)
    }

    /// Nothing is watched.
    pub fn new(flags: u32) -> (r: Self)
        ensures
            r.wf(),
            r.flags == flags,
            r.interests@.len() == 0,
    {
        EpollFd { flags, interests: Vec::new() }
    }

    fn position(&self, fd: usize, file: usize) -> (r: usize)
        requires
            self.wf(),
        ensures
            r <= self.interests@.len(),
            forall|k: int|
                0 <= k < r ==> (#[trigger] self.interests@[k]).fd < fd || (self.interests@[k].fd
                    == fd && self.interests@[k].file < file),
            forall|k: int|
                r <= k < self.interests@.len() ==> !((#[trigger] self.interests@[k]).fd < fd || (
                self.interests@[k].fd == fd && self.interests@[k].file < file)),
    {
        let mut i: usize = 0;
        while i < self.interests.len() && (self.interests[i].fd < fd || (self.interests[i].fd == fd
            && self.interests[i].file < file))
            invariant
                i <= self.interests@.len(),
                self.wf(),
                forall|k: int|
                    0 <= k < i ==> (#[trigger] self.interests@[k]).fd < fd || (
                    self.interests@[k].fd == fd && self.interests@[k].file < file),
            decreases self.interests@.len() - i,
        {
            i = i + 1;
        }
        i
    }

    /// Adds, removes or changes an interest.
    pub fn ctl(&mut self, op: usize, fd: usize, event: Option<(u32, u64)>, file: usize) -> (r:
        SysResult<usize>)
        requires
            old(self).wf(),
        ensures
            final(self).wf(),
            final(self).flags == old(self).flags,
            r is Err ==> final(self).interests@ == old(self).interests@,
            ctl_answer(old(self).interests@, op, fd, event, file, r),
            r is Ok && op == EPOLL_CTL_ADD ==> exists|i: int|
                0 <= i <= old(self).interests@.len() && #[trigger] old(self).interests@.insert(
                    i,
                    fresh_interest(fd, file, event->0),
                ) == final(self).interests@,
            r is Ok && op == EPOLL_CTL_DEL ==> forall|i: int|
                watched_at(old(self).interests@, fd, file, i) ==> final(self).interests@ == old(
                    self,
                ).interests@.remove(i),
            r is Ok && op == EPOLL_CTL_MOD ==> forall|i: int|
                watched_at(old(self).interests@, fd, file, i) ==> final(self).interests@ == old(
                    self,
                ).interests@.update(i, changed_interest(old(self).interests@[i], event->0)),
    {
        let i: usize = self.position(fd, file);
        let ghost s = self.interests@;
        let found = i < self.interests.len() && self.interests[i].fd == fd && self.interests[i].file
            == file;
        proof {
            if found {
                assert(watched_at(s, fd, file, i as int));
                assert forall|k: int| watched_at(s, fd, file, k) implies k == i by {
                    if k < i {
                        assert(comes_before(s[k], s[i as int]));
                    } else if i < k {
                        assert(comes_before(s[i as int], s[k]));
                    }
                }
            } else if watched(s, fd, file) {
                let k = choose|k: int| watched_at(s, fd, file, k);
                if k > i {
                    assert(comes_before(s[i as int], s[k]));
                }
            }
        }
        if op == EPOLL_CTL_ADD {
            if found {
                return Err(Errno::EEXIST);
            }
            match event {
                None => Err(Errno::EFAULT),
                Some((events, data)) => {
                    self.interests.insert(
                        i,
                        EpollInterest {
                            fd,
                            file,
                            events,
                            data,
                            last_ready: 0,
                            disabled: false,
                            generation: 0,
                        },
                    );
                    proof {
                        assert(self.interests@ =~= s.insert(
                            i as int,
                            fresh_interest(fd, file, event->0),
                        ));
                    }
                    Ok(0)
                },
            }
        } else if op == EPOLL_CTL_DEL {
            if !found {
                return Err(Errno::ENOENT);
            }
            self.interests.remove(i);
            Ok(0)
        } else if op == EPOLL_CTL_MOD {
            if !found {
                return Err(Errno::ENOENT);
            }
            match event {
                None => Err(Errno::EFAULT),
                Some((events, data)) => {
                    let old_interest = self.interests[i];
                    self.interests.set(
                        i,
                        EpollInterest {
                            events,
                            data,
                            last_ready: 0,
                            disabled: false,
                            generation: old_interest.generation.wrapping_add(1),
                            ..old_interest
                        },
                    );
                    Ok(0)
                },
            }
        } else {
            Err(Errno::EINVAL)
        }
    }

    /// Forgets closed files and reports what is ready, at most `maxevents`
    /// reports. `files` tells what each open file is ready for.
    pub fn scan_ready(&mut self, maxevents: usize, files: &SortedMap<FileReady>) -> (r: Vec<EpollReady>)
        requires
            old(self).wf(),
            files.wf(),
        ensures
            final(self).wf(),
            final(self).flags == old(self).flags,
            ({
                let open = old(self).interests@.filter(is_open(files@));
                &&& r@ == scan_reports(open, files@, maxevents)
                &&& final(self).interests@ == scanned(open, files@, maxevents)
            }),
    {
        let ghost s = self.interests@;
        let ghost pred = is_open(files@);
        let mut open: Vec<EpollInterest> = Vec::new();
        let mut i: usize = 0;
        while i < self.interests.len()
            invariant
                files.wf(),
                s == self.interests@,
                self.flags == old(self).flags,
                in_order(s),
                pred == is_open(files@),
                i <= s.len(),
                open@ == s.take(i as int).filter(pred),
                in_order(open@),
                forall|k: int|
                    0 <= k < open@.len() ==> (i < s.len() ==> comes_before(
                        #[trigger] open@[k],
                        s[i as int],
                    )) && files@.contains_key(open@[k].file),
            decreases s.len() - i,
        {
            let interest = self.interests[i];
            proof {
                let t = s.take(i + 1);
                assert(t.drop_last() =~= s.take(i as int));
                assert(t.last() == s[i as int]);
                reveal(Seq::filter);
                if i + 1 < s.len() {
                    assert(comes_before(s[i as int], s[i + 1]));
                }
            }
            if files.contains_key(interest.file) {
                open.push(interest);
            }
            i = i + 1;
        }
        proof {
            assert(s.take(i as int) =~= s);
        }
        let ghost o = open@;
        let mut out: Vec<EpollReady> = Vec::new();
        let mut k: usize = 0;
        while k < open.len()
            invariant
                files.wf(),
                k <= o.len(),
                open@.len() == o.len(),
                in_order(o),
                forall|j: int| 0 <= j < o.len() ==> files@.contains_key((#[trigger] o[j]).file),
                out@ == scan_reports(o.take(k as int), files@, maxevents),
                forall|j: int|
                    0 <= j < k ==> #[trigger] open@[j] == scanned(o, files@, maxevents)[j],
                forall|j: int| k <= j < o.len() ==> #[trigger] open@[j] == o[j],
            decreases o.len() - k,
        {
            let interest = open[k];
            proof {
                assert(o.take(k + 1).drop_last() =~= o.take(k as int));
                assert(o.take(k + 1).last() == o[k as int]);
            }
            let state = match files.get(interest.file) {
                Some(f) => *f,
                None => FileReady {
                    input: false,
                    output: false,
                    error: false,
                    hangup: false,
                    read_hangup: false,
                },
            };
            if out.len() < maxevents && !interest.disabled {
                let ready: u32 = ready_of(&interest, &state);
                let edge = interest.events & EPOLLET != 0;
                let bits: u32 = if edge {
                    ready & !interest.last_ready
                } else {
                    ready
                };
                if edge && ready == 0 {
                    open.set(k, EpollInterest { last_ready: 0, ..interest });
                }
                if bits != 0 {
                    out.push(
                        EpollReady {
                            fd: interest.fd,
                            file: interest.file,
                            events: bits & (interest.events | EPOLLERR | EPOLLHUP),
                            data: interest.data,
                            observed_ready: ready,
                            generation: interest.generation,
                        },
                    );
                }
            }
            k = k + 1;
        }
        proof {
            assert(o.take(k as int) =~= o);
            assert(open@ =~= scanned(o, files@, maxevents));
            assert(in_order(open@));
        }
        self.interests = open;
        out
    }

    /// Takes note of reports that were accepted by user memory. Interests that
    /// changed since the scan are left alone.
    pub fn commit_ready(&mut self, ready: &Vec<EpollReady>)
        requires
            old(self).wf(),
        ensures
            final(self).wf(),
            final(self).flags == old(self).flags,
            final(self).interests@ == old(self).interests@.map_values(
                |i: EpollInterest| committed(i, ready@),
            ),
    {
        let ghost s = self.interests@;
        let mut i: usize = 0;
        while i < self.interests.len()
            invariant
                self.flags == old(self).flags,
                s == old(self).interests@,
                i <= s.len(),
                self.interests@.len() == s.len(),
                forall|k: int|
                    0 <= k < i ==> #[trigger] self.interests@[k] == committed(s[k], ready@),
                forall|k: int| i <= k < s.len() ==> #[trigger] self.interests@[k] == s[k],
            decreases s.len() - i,
        {
            let mut interest = self.interests[i];
            let mut j: usize = 0;
            while j < ready.len()
                invariant
                    j <= ready@.len(),
                    interest == committed(s[i as int], ready@.take(j as int)),
                decreases ready@.len() - j,
            {
                let e = ready[j];
                proof {
                    assert(ready@.take(j + 1).drop_last() =~= ready@.take(j as int));
                    assert(ready@.take(j + 1).last() == ready@[j as int]);
                }
                if interest.fd == e.fd && interest.file == e.file && interest.generation
                    == e.generation {
                    if interest.events & EPOLLET != 0 {
                        interest.last_ready = e.observed_ready;
                    }
                    if interest.events & EPOLLONESHOT != 0 {
                        interest.disabled = true;
                    }
                }
                j = j + 1;
            }
            proof {
                assert(ready@.take(j as int) =~= ready@);
            }
            self.interests.set(i, interest);
            i = i + 1;
        }
        proof {
            assert(self.interests@ =~= s.map_values(|i: EpollInterest| committed(i, ready@)));
            assert forall|a: int, b: int| 0 <= a < b < s.len() implies comes_before(
                #[trigger] self.interests@[a],
                #[trigger] self.interests@[b],
            ) by {
                committed_keeps_key(s[a], ready@);
                committed_keeps_key(s[b], ready@);
                assert(comes_before(s[a], s[b]));
            }
        }
    }

    /// The files to wait for, with whether input and output are waited for.
    /// Hangups are always waited for.
    pub fn register_waiters(&self) -> (r: Vec<(usize, bool, bool)>)
        ensures
            r@ == self.interests@.filter(|i: EpollInterest| !i.disabled).map_values(
                |i: EpollInterest| (i.file, i.events & EPOLLIN != 0, i.events & EPOLLOUT != 0),
            ),
    {
        let ghost s = self.interests@;
        let ghost p = |i: EpollInterest| !i.disabled;
        let ghost f = |i: EpollInterest|
            (i.file, i.events & EPOLLIN != 0, i.events & EPOLLOUT != 0);
        let mut out: Vec<(usize, bool, bool)> = Vec::new();
        let mut i: usize = 0;
        while i < self.interests.len()
            invariant
                s == self.interests@,
                i <= s.len(),
                p == (|i: EpollInterest| !i.disabled),
                f == (|i: EpollInterest|
                    (i.file, i.events & EPOLLIN != 0, i.events & EPOLLOUT != 0)),
                out@ == s.take(i as int).filter(p).map_values(f),
            decreases s.len() - i,
        {
            let interest = self.interests[i];
            let ghost before = s.take(i as int).filter(p);
            proof {
                let t = s.take(i + 1);
                assert(t.drop_last() =~= s.take(i as int));
                assert(t.last() == s[i as int]);
                reveal(Seq::filter);
            }
            if !interest.disabled {
                out.push(
                    (
                        interest.file,
                        interest.events & EPOLLIN != 0,
                        interest.events & EPOLLOUT != 0,
                    ),
                );
                proof {
                    assert(out@ =~= before.push(interest).map_values(f));
                }
            }
            i = i + 1;
        }
        proof {
            assert(s.take(i as int) =~= s);
        }
        out
    }
}

proof fn committed_keeps_key(i: EpollInterest, ready: Seq<EpollReady>)
    ensures
        committed(i, ready).fd == i.fd,
        committed(i, ready).file == i.file,
        committed(i, ready).generation == i.generation,
        committed(i, ready).events == i.events,
    decreases ready.len(),
{
    if ready.len() > 0 {
        committed_keeps_key(i, ready.drop_last());
    }
}

fn ready_of(i: &EpollInterest, f: &FileReady) -> (r: u32)
    ensures
        r == ready_bits(*i, *f),
{
    let mut ready: u32 = 0;
    if i.events & EPOLLIN != 0 && f.input {
        ready = EPOLLIN;
    }
    if i.events & EPOLLOUT != 0 && f.output {
        ready = ready | EPOLLOUT;
    }
    if f.error {
        ready = ready | EPOLLERR;
    }
    if f.hangup {
        ready = ready | EPOLLHUP;
    }
    if i.events & EPOLLRDHUP != 0 && f.read_hangup {
        ready = ready | EPOLLRDHUP;
    }
    ready
}

/// An edge is reported once: after an accepted report the same readiness gives
/// no other.
pub proof fn edges_are_reported_once(i: EpollInterest, f: FileReady, e: EpollReady)
    requires
        i.events & EPOLLET != 0,
        report(i, f) == Some(e),
    ensures
        report(committed_one(i, e), f) is None,
{
    let c = committed_one(i, e);
    let ready = ready_bits(i, f);
    assert(ready_bits(c, f) == ready);
    assert(ready & !ready == 0) by (bit_vector);
}

/// A one-shot interest reports once until it is changed.
pub proof fn one_shot_interests_report_once(i: EpollInterest, f: FileReady, e: EpollReady, event: (u32, u64))
    requires
        i.events & EPOLLONESHOT != 0,
        report(i, f) == Some(e),
    ensures
        report(committed_one(i, e), f) is None,
        !changed_interest(committed_one(i, e), event).disabled,
{
}

/// A level is reported as long as it lasts.
pub proof fn levels_are_reported_again(i: EpollInterest, f: FileReady, e: EpollReady)
    requires
        i.events & EPOLLET == 0,
        i.events & EPOLLONESHOT == 0,
        report(i, f) == Some(e),
    ensures
        report(committed_one(i, e), f) == Some(e),
{
}

/// A report under way does not count for an interest that was changed since.
pub proof fn stale_reports_are_ignored(i: EpollInterest, e: EpollReady, event: (u32, u64))
    requires
        e.generation == i.generation,
    ensures
        committed_one(changed_interest(i, event), e) == changed_interest(i, event),
{
    assert(i.generation.wrapping_add(1) != i.generation);
}

/// Makes a descriptor that watches others.
pub fn sys_epoll_create1(flags: usize) -> (r: SysResult<EpollFd>)
    ensures
        match checked_flags(flags, FD_CLOSE_ON_EXEC) {
            Err(e) => r is Err && r->Err_0 == e,
            Ok(f) => r is Ok && r->Ok_0.flags == f && r->Ok_0.interests@.len() == 0
                && r->Ok_0.wf(),
        },
{
    match flags_from_o_flags(flags, FD_CLOSE_ON_EXEC) {
        Err(e) => Err(e),
        Ok(f) => Ok(EpollFd::new(f)),
    }
}

/// The event that a control call reads: four bytes of event bits, eight of data.
pub open spec fn decoded_event(raw: Seq<u8>) -> (u32, u64) {
    (
        spec_u32_from_le_bytes(raw.subrange(0, 4)),
        spec_u64_from_le_bytes(raw.subrange(4, 12)),
    )
}

/// What a control call comes to before the interest list is looked at: `target`
/// tells whether the descriptor is open, `kind` what its file is. The file is asked
/// for its kind only after the descriptors and the operation were looked at.
pub open spec fn ctl_request(
    epfd: usize,
    op: usize,
    fd: usize,
    is_epoll: SysResult<()>,
    target: SysResult<()>,
    kind: SysResult<InodeType>,
    event: UserIn<Vec<u8>>,
) -> SysResult<Option<(u32, u64)>> {
    if is_epoll is Err {
        Err(is_epoll->Err_0)
    } else if target is Err {
        Err(target->Err_0)
    } else if epfd == fd {
        Err(Errno::EINVAL)
    } else if op != EPOLL_CTL_ADD && op != EPOLL_CTL_DEL && op != EPOLL_CTL_MOD {
        Err(Errno::EINVAL)
    } else if kind is Err {
        Err(kind->Err_0)
    } else {
        let ty = kind->Ok_0;
        if ty == InodeType::Regular || ty == InodeType::Directory || ty == InodeType::BlockDevice {
            Err(Errno::EPERM)
        } else if op == EPOLL_CTL_DEL {
            Ok(None)
        } else {
            match read_result(event) {
                Err(e) => Err(e),
                Ok(raw) => if decoded_event(raw@).0 & !EPOLL_SUPPORTED != 0 {
                    Err(Errno::EOPNOTSUPP)
                } else {
                    Ok(Some(decoded_event(raw@)))
                },
            }
        }
    }
}

/// Checks a control call and decodes its event. Files that are always ready
/// cannot be watched.
pub fn sys_epoll_ctl(
    epfd: usize,
    op: usize,
    fd: usize,
    is_epoll: SysResult<()>,
    target: SysResult<()>,
    kind: SysResult<InodeType>,
    event: UserIn<Vec<u8>>,
) -> (r: SysResult<Option<(u32, u64)>>)
    requires
        event matches UserIn::Value(v) ==> v@.len() == 12,
    ensures
        r == ctl_request(epfd, op, fd, is_epoll, target, kind, event),
{
    match is_epoll {
        Err(e) => {
            return Err(e);
        },
        Ok(_) => {},
    }
    match target {
        Err(e) => {
            return Err(e);
        },
        Ok(_) => {},
    }
    if epfd == fd {
        return Err(Errno::EINVAL);
    }
    if op != EPOLL_CTL_ADD && op != EPOLL_CTL_DEL && op != EPOLL_CTL_MOD {
        return Err(Errno::EINVAL);
    }
    match kind {
        Err(e) => {
            return Err(e);
        },
        Ok(InodeType::Regular | InodeType::Directory | InodeType::BlockDevice) => {
            return Err(Errno::EPERM);
        },
        Ok(_) => {},
    }
    if op == EPOLL_CTL_DEL {
        return Ok(None);
    }
    let raw = match event.read() {
        Ok(v) => v,
        Err(e) => {
            return Err(e);
        },
    };
    let bits: u32 = u32_from_le_bytes(vstd::slice::slice_subrange(raw.as_slice(), 0, 4));
    if bits & !EPOLL_SUPPORTED != 0 {
        return Err(Errno::EOPNOTSUPP);
    }
    let data: u64 = u64_from_le_bytes(vstd::slice::slice_subrange(raw.as_slice(), 4, 12));
    Ok(Some((bits, data)))
}

/// The bytes of reports in user memory, twelve each.
pub open spec fn encoded_reports(ready: Seq<EpollReady>) -> Seq<u8>
    decreases ready.len(),
{
    if ready.len() == 0 {
        Seq::empty()
    } else {
        encoded_reports(ready.drop_last()) + spec_u32_to_le_bytes(ready.last().events)
            + spec_u64_to_le_bytes(ready.last().data)
    }
}

/// Encodes reports for user memory.
pub fn write_epoll_events(ready: &Vec<EpollReady>) -> (r: Vec<u8>)
    ensures
        r@ == encoded_reports(ready@),
{
    let mut out: Vec<u8> = Vec::new();
    let mut i: usize = 0;
    while i < ready.len()
        invariant
            i <= ready@.len(),
            out@ == encoded_reports(ready@.take(i as int)),
        decreases ready@.len() - i,
    {
        let mut a = u32_to_le_bytes(ready[i].events);
        let mut b = u64_to_le_bytes(ready[i].data);
        proof {
            assert(ready@.take(i + 1).drop_last() =~= ready@.take(i as int));
            assert(ready@.take(i + 1).last() == ready@[i as int]);
        }
        out.append(&mut a);
        out.append(&mut b);
        i = i + 1;
    }
    proof {
        assert(ready@.take(i as int) =~= ready@);
    }
    out
}

/// A report decodes to its events and data again.
pub proof fn reports_decode_again(e: EpollReady)
    ensures
        decoded_event(encoded_reports(seq![e])) == (e.events, e.data),
{
    lemma_auto_spec_u32_to_from_le_bytes();
    lemma_auto_spec_u64_to_from_le_bytes();
    let s = seq![e];
    assert(s.drop_last() =~= Seq::<EpollReady>::empty());
    let raw = encoded_reports(s);
    assert(encoded_reports(s.drop_last()) =~= Seq::<u8>::empty());
    assert(raw =~= spec_u32_to_le_bytes(e.events) + spec_u64_to_le_bytes(e.data));
    assert(raw.subrange(0, 4) =~= spec_u32_to_le_bytes(e.events));
    assert(raw.subrange(4, 12) =~= spec_u64_to_le_bytes(e.data));
}

/// The largest number of reports of one call.
pub const EPOLL_MAX_EVENTS: usize = 4096;

/// A wait for reports: the mask that holds meanwhile, if any, and the deadline.
#[derive(Debug, Clone, Copy)]
pub struct EpollWait {
    pub mask: Option<SigSet>,
    pub deadline_us: Option<usize>,
}

/// The deadline of a timeout; negative timeouts wait without limit.
pub open spec fn wait_deadline(now_us: usize, timeout_ms: isize) -> Option<usize> {
    if timeout_ms < 0 {
        None
    } else if now_us + timeout_ms * 1000 > usize::MAX {
        Some(usize::MAX)
    } else {
        Some((now_us + timeout_ms * 1000) as usize)
    }
}

/// Where a wait for reports stands.
#[derive(Debug, Clone, Copy, PartialEq, Eq)]
pub enum EpollPhase {
    /// The interests are looked at.
    Look,
    /// Reports are written to user memory.
    Write,
    /// The thread is put on the lists of the files that can wake it.
    Register,
    /// The thread sleeps.
    Asleep,
    /// The call has returned.
    Over,
}

/// A wait for reports.
#[derive(Debug)]
pub struct EpollCall {
    pub wait: EpollWait,
    /// The mask before the call.
    pub origin: SigSet,
    pub maxevents: usize,
    pub timeout_ms: isize,
    /// The reports of the last look.
    pub reports: Vec<EpollReady>,
    pub phase: EpollPhase,
}

/// What a wait for reports does next.
#[derive(Debug)]
pub enum EpollAction {
    /// Look at the files of the interests.
    Look,
    /// Write these bytes to user memory.
    Write(Vec<u8>),
    /// Put the thread on the lists of the files that can wake it.
    Register,
    /// No file can wake the thread: let other threads run, then look.
    Yield,
    /// Sleep until a file, a signal or the deadline wakes the thread, then take
    /// it off the lists and the deadline away.
    Sleep(Option<usize>),
    /// The call returns.
    Return(SysResult<usize>),
}

/// What came of it.
#[derive(Debug)]
pub enum EpollEvent {
    /// What the files are ready for, and whether a signal has come.
    Looked { files: SortedMap<FileReady>, now_us: usize, signal: bool },
    /// The reports could be written.
    Written(SysResult<()>),
    /// So many files can wake the thread.
    Registered(usize),
    /// The thread runs again: whether a signal has come, and whether the deadline
    /// has woken it.
    Woken { signal: bool, timed_out: bool, now_us: usize },
}

/// The mask that holds during a wait for reports.
pub open spec fn epoll_mask(wait: EpollWait, before: SigSet) -> SigSet {
    match wait.mask {
        Some(m) => m,
        None => before,
    }
}

/// The deadline has passed.
pub open spec fn epoll_late(wait: EpollWait, now_us: usize) -> bool {
    wait.deadline_us matches Some(d) && now_us >= d
}

/// An event that shows that the time is up.
pub open spec fn epoll_time_is_up(c: EpollCall, e: EpollEvent) -> bool {
    match e {
        EpollEvent::Looked { now_us, .. } => c.timeout_ms == 0 || epoll_late(c.wait, now_us),
        EpollEvent::Woken { timed_out, now_us, .. } => timed_out || epoll_late(c.wait, now_us),
        _ => false,
    }
}

/// Everything of a wait but its reports and where it stands is the same.
pub open spec fn same_epoll(c: EpollCall, c2: EpollCall) -> bool {
    c2.wait == c.wait && c2.origin == c.origin && c2.maxevents == c.maxevents && c2.timeout_ms
        == c.timeout_ms
}

/// The wait ends: the former mask is back and the thread waits no more. A signal
/// that ended it is taken note of.
pub open spec fn epoll_ends(
    c: EpollCall,
    t: WaitState,
    result: SysResult<usize>,
    signal: bool,
    c2: EpollCall,
    t2: WaitState,
    a: EpollAction,
) -> bool {
    &&& c2.phase == EpollPhase::Over
    &&& t2 == (WaitState {
        mask: match c.wait.mask {
            Some(_) => c.origin,
            None => t.mask,
        },
        interruptible: false,
        interrupted: t.interrupted && !signal,
        ..t
    })
    &&& a == EpollAction::Return(result)
}

/// What follows an event. Reports count as made only once user memory has
/// accepted them.
pub open spec fn epoll_step(
    c: EpollCall,
    ep: EpollFd,
    t: WaitState,
    e: EpollEvent,
    c2: EpollCall,
    ep2: EpollFd,
    t2: WaitState,
    a: EpollAction,
) -> bool {
    &&& same_epoll(c, c2)
    &&& ep2.flags == ep.flags
    &&& match c.phase {
        EpollPhase::Look => {
            let open = ep.interests@.filter(is_open(e->files@));
            let reports = scan_reports(open, e->files@, c.maxevents);
            &&& ep2.interests@ == scanned(open, e->files@, c.maxevents)
            &&& c2.reports@ == reports
            &&& if reports.len() > 0 {
                &&& c2.phase == EpollPhase::Write
                &&& t2 == t
                &&& a matches EpollAction::Write(bytes) && bytes@ == encoded_reports(reports)
            } else if c.timeout_ms == 0 || epoll_late(c.wait, e->Looked_now_us) {
                epoll_ends(c, t, Ok(0), false, c2, t2, a)
            } else if e->Looked_signal {
                epoll_ends(c, t, Err(Errno::EINTR), true, c2, t2, a)
            } else {
                &&& c2.phase == EpollPhase::Register
                &&& t2 == (WaitState { interruptible: true, ..t })
                &&& a == EpollAction::Register
            }
        },
        EpollPhase::Write => {
            &&& c2.reports@ == c.reports@
            &&& match e->Written_0 {
                Err(x) => ep2.interests@ == ep.interests@ && epoll_ends(
                    c,
                    t,
                    Err(x),
                    false,
                    c2,
                    t2,
                    a,
                ),
                Ok(_) => ep2.interests@ == ep.interests@.map_values(
                    |i: EpollInterest| committed(i, c.reports@),
                ) && epoll_ends(c, t, Ok(c.reports@.len() as usize), false, c2, t2, a),
            }
        },
        EpollPhase::Register => {
            &&& c2.reports@ == c.reports@
            &&& ep2.interests@ == ep.interests@
            &&& if e->Registered_0 == 0 {
                &&& c2.phase == EpollPhase::Look
                &&& t2 == (WaitState { interruptible: false, ..t })
                &&& a == EpollAction::Yield
            } else {
                &&& c2.phase == EpollPhase::Asleep
                &&& t2 == t
                &&& a == EpollAction::Sleep(c.wait.deadline_us)
            }
        },
        EpollPhase::Asleep => {
            &&& c2.reports@ == c.reports@
            &&& ep2.interests@ == ep.interests@
            &&& if e->Woken_signal {
                epoll_ends(c, t, Err(Errno::EINTR), true, c2, t2, a)
            } else if e->timed_out || epoll_late(c.wait, e->Woken_now_us) {
                epoll_ends(c, t, Ok(0), false, c2, t2, a)
            } else {
                &&& c2.phase == EpollPhase::Look
                &&& t2 == (WaitState { interruptible: false, ..t })
                &&& a == EpollAction::Look
            }
        },
        EpollPhase::Over => false,
    }
}

/// The event can come of what was to be done.
pub open spec fn epoll_event_fits(c: EpollCall, e: EpollEvent) -> bool {
    match c.phase {
        EpollPhase::Look => e matches EpollEvent::Looked { files, .. } && files.wf(),
        EpollPhase::Write => e is Written,
        EpollPhase::Register => e is Registered,
        EpollPhase::Asleep => e matches EpollEvent::Woken { timed_out, .. } && (timed_out
            ==> c.wait.deadline_us is Some),
        EpollPhase::Over => false,
    }
}

/// Whether waiting for events begins as `r`.
pub open spec fn epoll_wait_begun(
    is_epoll: SysResult<()>,
    maxevents: usize,
    timeout_ms: isize,
    sigmask: UserIn<SigSet>,
    sigsetsize: usize,
    now_us: usize,
    r: SysResult<EpollCall>,
) -> bool {
    if maxevents == 0 || maxevents > EPOLL_MAX_EVENTS {
        r is Err && r->Err_0 == Errno::EINVAL
    } else if is_epoll is Err {
        r is Err && r->Err_0 == is_epoll->Err_0
    } else if !(sigmask is Null) && sigsetsize != 8 {
        r is Err && r->Err_0 == Errno::EINVAL
    } else if sigmask is Fault {
        r is Err && r->Err_0 == Errno::EFAULT
    } else {
        &&& r is Ok
        &&& r->Ok_0.wait.deadline_us == wait_deadline(now_us, timeout_ms)
        &&& match sigmask {
            UserIn::Value(m) => r->Ok_0.wait.mask is Some && blockable_part(
                m,
                r->Ok_0.wait.mask->0,
            ),
            _ => r->Ok_0.wait.mask is None,
        }
    }
}

/// Starts a wait for reports: the interests are to be looked at next. A call that
/// is refused leaves the thread as it is.
pub fn sys_epoll_pwait(
    t: &mut WaitState,
    is_epoll: SysResult<()>,
    maxevents: usize,
    timeout_ms: isize,
    sigmask: UserIn<SigSet>,
    sigsetsize: usize,
    now_us: usize,
) -> (r: SysResult<EpollCall>)
    ensures
        epoll_wait_begun(is_epoll, maxevents, timeout_ms, sigmask, sigsetsize, now_us, r),
        match r {
            Err(_) => *final(t) == *old(t),
            Ok(c) => {
                &&& c.origin == old(t).mask
                &&& c.maxevents == maxevents
                &&& c.timeout_ms == timeout_ms
                &&& c.reports@.len() == 0
                &&& c.phase == EpollPhase::Look
                &&& *final(t) == (WaitState { mask: epoll_mask(c.wait, old(t).mask), ..*old(t) })
            },
        },
{
    if maxevents == 0 || maxevents > EPOLL_MAX_EVENTS {
        return Err(Errno::EINVAL);
    }
    match is_epoll {
        Err(e) => {
            return Err(e);
        },
        Ok(_) => {},
    }
    let mask = if sigmask.is_null() {
        None
    } else {
        if sigsetsize != 8 {
            return Err(Errno::EINVAL);
        }
        match sigmask.read() {
            Ok(m) => Some(m.without_unblockable()),
            Err(e) => {
                return Err(e);
            },
        }
    };
    let deadline_us: Option<usize> = if timeout_ms < 0 {
        None
    } else {
        match (timeout_ms as usize).checked_mul(1000) {
            Some(us) => Some(now_us.saturating_add(us)),
            None => Some(usize::MAX),
        }
    };
    let origin = t.mask;
    match mask {
        Some(m) => {
            t.mask = m;
        },
        None => {},
    }
    Ok(
        EpollCall {
            wait: EpollWait { mask, deadline_us },
            origin,
            maxevents,
            timeout_ms,
            reports: Vec::new(),
            phase: EpollPhase::Look,
        },
    )
}

impl EpollCall {
    fn end(&mut self, t: &mut WaitState, result: SysResult<usize>, signal: bool) -> (r: EpollAction)
        ensures
            same_epoll(*old(self), *final(self)),
            final(self).reports == old(self).reports,
            epoll_ends(*old(self), *old(t), result, signal, *final(self), *final(t), r),
    {
        self.phase = EpollPhase::Over;
        t.interruptible = false;
        if self.wait.mask.is_some() {
            t.mask = self.origin;
        }
        if signal {
            t.interrupted = false;
        }
        EpollAction::Return(result)
    }

    fn late(&self, now_us: usize) -> (r: bool)
        ensures
            r == epoll_late(self.wait, now_us),
    {
        match self.wait.deadline_us {
            Some(d) => now_us >= d,
            None => false,
        }
    }

    /// Takes note of what came of the last thing that was done, and tells the
    /// next.
    pub fn step(&mut self, ep: &mut EpollFd, t: &mut WaitState, e: EpollEvent) -> (r: EpollAction)
        requires
            old(ep).wf(),
            epoll_event_fits(*old(self), e),
        ensures
            final(ep).wf(),
            epoll_step(*old(self), *old(ep), *old(t), e, *final(self), *final(ep), *final(t), r),
    {
        match e {
            EpollEvent::Looked { files, now_us, signal } => {
                self.reports = ep.scan_ready(self.maxevents, &files);
                if self.reports.len() > 0 {
                    self.phase = EpollPhase::Write;
                    return EpollAction::Write(write_epoll_events(&self.reports));
                }
                if self.timeout_ms == 0 || self.late(now_us) {
                    return self.end(t, Ok(0), false);
                }
                if signal {
                    return self.end(t, Err(Errno::EINTR), true);
                }
                t.interruptible = true;
                self.phase = EpollPhase::Register;
                EpollAction::Register
            },
            EpollEvent::Written(written) => match written {
                Err(x) => self.end(t, Err(x), false),
                Ok(_) => {
                    ep.commit_ready(&self.reports);
                    let n: usize = self.reports.len();
                    self.end(t, Ok(n), false)
                },
            },
            EpollEvent::Registered(waiters) => {
                if waiters == 0 {
                    t.interruptible = false;
                    self.phase = EpollPhase::Look;
                    return EpollAction::Yield;
                }
                self.phase = EpollPhase::Asleep;
                EpollAction::Sleep(self.wait.deadline_us)
            },
            EpollEvent::Woken { signal, timed_out, now_us } => {
                if signal {
                    return self.end(t, Err(Errno::EINTR), true);
                }
                if timed_out || self.late(now_us) {
                    return self.end(t, Ok(0), false);
                }
                t.interruptible = false;
                self.phase = EpollPhase::Look;
                EpollAction::Look
            },
        }
    }
}

/// A wait for reports from its start: its states, what was to be done, what came
/// of it, and the interests and the thread before and after each step.
pub struct EpollRun {
    pub calls: Seq<EpollCall>,
    pub actions: Seq<EpollAction>,
    pub events: Seq<EpollEvent>,
    pub interests: Seq<(EpollFd, EpollFd)>,
    pub before: Seq<WaitState>,
    pub after: Seq<WaitState>,
}

impl EpollRun {
    /// Step `k` of the run. Other threads may change the interests between steps.
    pub open spec fn step_at(self, k: int) -> bool {
        &&& epoll_event_fits(self.calls[k], self.events[k])
        &&& epoll_step(
            self.calls[k],
            self.interests[k].0,
            self.before[k],
            self.events[k],
            self.calls[k + 1],
            self.interests[k].1,
            self.after[k],
            self.actions[k],
        )
        &&& k + 1 < self.before.len() ==> undisturbed(self.after[k], self.before[k + 1])
    }

    /// The run starts as the call does, when the thread had the mask `origin`, and
    /// each step follows from the last.
    pub open spec fn valid(self) -> bool {
        &&& self.events.len() > 0
        &&& self.calls.len() == self.events.len() + 1
        &&& self.actions.len() == self.events.len()
        &&& self.interests.len() == self.events.len()
        &&& self.before.len() == self.events.len()
        &&& self.after.len() == self.events.len()
        &&& self.calls[0].phase == EpollPhase::Look
        &&& self.before[0].mask == epoll_mask(self.calls[0].wait, self.calls[0].origin)
        &&& forall|k: int| 0 <= k < self.events.len() ==> #[trigger] self.step_at(k)
    }
}

proof fn epoll_is_on_the_way(r: EpollRun, k: int)
    requires
        r.valid(),
        0 <= k < r.events.len(),
    ensures
        same_epoll(r.calls[0], r.calls[k]),
        r.before[k].mask == epoll_mask(r.calls[0].wait, r.calls[0].origin),
        r.calls[k].phase is Write ==> r.calls[k].reports@.len() > 0 && k > 0 && (r.actions[k
            - 1] matches EpollAction::Write(bytes) && bytes@ == encoded_reports(
            r.calls[k].reports@,
        )),
    decreases k,
{
    if k > 0 {
        assert(r.step_at(k - 1));
        assert(r.step_at(k));
        epoll_is_on_the_way(r, k - 1);
    }
}

/// However a wait for reports ends, the thread has its former mask again and waits
/// no more. If it returns a number other than zero, that is the number of the
/// reports that were written, and zero comes only when the time is up.
pub proof fn epoll_gives_back_mask_and_count(r: EpollRun, result: SysResult<usize>)
    requires
        r.valid(),
        r.actions.last() == EpollAction::Return(result),
    ensures
        r.after.last().mask == r.calls[0].origin,
        !r.after.last().interruptible,
        result matches Ok(n) ==> if n == 0 {
            epoll_time_is_up(r.calls[0], r.events.last())
        } else {
            r.actions.len() >= 2 && (r.actions[r.actions.len() - 2] matches EpollAction::Write(
                bytes,
            ) && bytes@ == encoded_reports(r.calls.last().reports@)
                && n == r.calls.last().reports@.len())
        },
{
    let k = r.events.len() - 1;
    assert(r.step_at(k));
    epoll_is_on_the_way(r, k);
    let c = r.calls[k];
    assert(c.reports.len() == c.reports@.len());
}

/// Whether a thread really sleeps once it is marked blocked: a report, a signal,
/// a wakeup or the deadline in between cancels the sleep.
pub fn epoll_must_sleep(
    woken: bool,
    reports: usize,
    interrupted: bool,
    deadline_us: Option<usize>,
    now_us: usize,
) -> (r: bool)
    ensures
        r == (!woken && reports == 0 && !interrupted && !(deadline_us matches Some(d) && now_us >= d)),
{
    let late = match deadline_us {
        Some(d) => now_us >= d,
        None => false,
    };
    !woken && reports == 0 && !interrupted && !late
}

/// Input and output are reported where they were asked for and the file has them, an error or
/// a hangup always, and the end of what the other side sends where it was asked for. Each has
/// its own bit, whatever the others are.
pub proof fn ready_bits_are_independent(i: EpollInterest, f: FileReady)
    ensures
        (ready_bits(i, f) & 1 != 0) == (i.events & 1 != 0 && f.input),
        (ready_bits(i, f) & 4 != 0) == (i.events & 4 != 0 && f.output),
        (ready_bits(i, f) & 8 != 0) == f.error,
        (ready_bits(i, f) & 0x10 != 0) == f.hangup,
        (ready_bits(i, f) & 0x2000 != 0) == (i.events & 0x2000 != 0 && f.read_hangup),
        ready_bits(i, f) & !0x201du32 == 0,
{
    let a: u32 = if i.events & EPOLLIN != 0 && f.input {
        1
    } else {
        0
    };
    let b: u32 = if i.events & EPOLLOUT != 0 && f.output {
        4
    } else {
        0
    };
    let c: u32 = if f.error {
        8
    } else {
        0
    };
    let d: u32 = if f.hangup {
        0x10
    } else {
        0
    };
    let e: u32 = if i.events & EPOLLRDHUP != 0 && f.read_hangup {
        0x2000
    } else {
        0
    };
    let r = (((a | b) | c) | d) | e;
    assert(((a == 0 || a == 1) && (b == 0 || b == 4) && (c == 0 || c == 8) && (d == 0 || d == 0x10)
        && (e == 0 || e == 0x2000) && r == (((a | b) | c) | d) | e) ==> {
        &&& (r & 1 != 0) == (a != 0)
        &&& (r & 4 != 0) == (b != 0)
        &&& (r & 8 != 0) == (c != 0)
        &&& (r & 0x10 != 0) == (d != 0)
        &&& (r & 0x2000 != 0) == (e != 0)
        &&& r & !0x201du32 == 0
        &&& (a | 0) == a
        &&& ((a | b) | 0) == (a | b)
        &&& (((a | b) | c) | 0) == ((a | b) | c)
        &&& ((((a | b) | c) | d) | 0) == (((a | b) | c) | d)
    }) by (bit_vector);
    assert(ready_bits(i, f) == r);
}

/// A report carries the descriptor, the file and the data of its interest. A disabled interest
/// and a file with nothing new report nothing; an edge-triggered interest is silent on bits
/// that were reported last.
pub proof fn reports_name_their_interest(i: EpollInterest, f: FileReady)
    ensures
        report(i, f) matches Some(e) ==> e.fd == i.fd && e.file == i.file && e.data == i.data
            && e.generation == i.generation && e.observed_ready == ready_bits(i, f) && !i.disabled,
        i.disabled || ready_bits(i, f) == 0 ==> report(i, f) is None,
        !i.disabled && i.events & 0x8000_0000 == 0 ==> (report(i, f) is Some) == (ready_bits(i, f)
            != 0),
        !i.disabled && i.events & 0x8000_0000 != 0 ==> (report(i, f) is Some) == (ready_bits(i, f)
            & !i.last_ready != 0),
        report(i, f) matches Some(e) ==> i.events & 0x8000_0000 == 0 ==> e.events == ready_bits(
            i,
            f,
        ) & (i.events | 8 | 0x10),
{
    let r = ready_bits(i, f);
    let l = i.last_ready;
    assert(r == 0 ==> r & !l == 0) by (bit_vector);
}

/// A scan reports at most as many as asked for, each an interest's own report, and with no
/// limit in the way every interest that has one.
pub proof fn scans_report_what_is_ready(
    s: Seq<EpollInterest>,
    files: Map<usize, FileReady>,
    max: usize,
)
    ensures
        scan_reports(s, files, max).len() <= max,
        forall|k: int|
            0 <= k < scan_reports(s, files, max).len() ==> exists|i: int|
                0 <= i < s.len() && report(#[trigger] s[i], files[s[i].file]) == Some(
                    #[trigger] scan_reports(s, files, max)[k],
                ),
        scan_reports(s, files, max).len() < max ==> forall|i: int|
            0 <= i < s.len() ==> (report(#[trigger] s[i], files[s[i].file]) matches Some(e)
                ==> scan_reports(s, files, max).contains(e)),
    decreases s.len(),
{
    if s.len() > 0 {
        let t = s.drop_last();
        scans_report_what_is_ready(t, files, max);
        let w = scan_reports(s, files, max);
        let w0 = scan_reports(t, files, max);
        assert forall|k: int| 0 <= k < w.len() implies exists|i: int|
            0 <= i < s.len() && report(#[trigger] s[i], files[s[i].file]) == Some(
                #[trigger] w[k],
            ) by {
            if k < w0.len() {
                assert(w[k] == w0[k]);
                let i = choose|i: int|
                    0 <= i < t.len() && report(#[trigger] t[i], files[t[i].file]) == Some(w0[k]);
                assert(s[i] == t[i]);
            } else {
                assert(report(s[s.len() - 1], files[s[s.len() - 1].file]) == Some(w[k]));
            }
        }
        if w.len() < max {
            assert forall|i: int| 0 <= i < s.len() implies (report(
                #[trigger] s[i],
                files[s[i].file],
            ) matches Some(e) ==> w.contains(e)) by {
                if report(s[i], files[s[i].file]) is Some {
                    let e = report(s[i], files[s[i].file])->0;
                    if i < t.len() {
                        assert(t[i] == s[i]);
                        assert(w0.contains(e));
                        let k = choose|k: int| 0 <= k < w0.len() && w0[k] == e;
                        assert(w[k] == e);
                    } else {
                        assert(w.last() == e);
                    }
                }
            }
        }
    }
}

/// A request to change an interest is for a descriptor other than the epoll one, for one of
/// three operations, and never for a file that is always ready. What is watched for is what was
/// given, unless it holds an unknown bit.
pub proof fn interest_requests_are_checked(
    epfd: usize,
    op: usize,
    fd: usize,
    kind: InodeType,
    raw: Vec<u8>,
)
    requires
        raw@.len() == 12,
    ensures
        epfd == fd || op < 1 || op > 3 ==> ctl_request(
            epfd,
            op,
            fd,
            Ok(()),
            Ok(()),
            Ok(kind),
            UserIn::Value(raw),
        ) == Err::<Option<(u32, u64)>, Errno>(Errno::EINVAL),
        epfd != fd && 1 <= op <= 3 && (kind == InodeType::Regular || kind == InodeType::Directory
            || kind == InodeType::BlockDevice) ==> ctl_request(
            epfd,
            op,
            fd,
            Ok(()),
            Ok(()),
            Ok(kind),
            UserIn::Value(raw),
        ) == Err::<Option<(u32, u64)>, Errno>(Errno::EPERM),
        epfd != fd && kind != InodeType::Regular && kind != InodeType::Directory && kind
            != InodeType::BlockDevice ==> {
            let r = ctl_request(epfd, op, fd, Ok(()), Ok(()), Ok(kind), UserIn::Value(raw));
            let events = spec_u32_from_le_bytes(raw@.subrange(0, 4));
            let data = spec_u64_from_le_bytes(raw@.subrange(4, 12));
            &&& op == 2 ==> r == Ok::<Option<(u32, u64)>, Errno>(None)
            &&& (op == 1 || op == 3) && events & !0xc000_201fu32 == 0 ==> r == Ok::<
                Option<(u32, u64)>,
                Errno,
            >(Some((events, data)))
            &&& (op == 1 || op == 3) && events & !0xc000_201fu32 != 0 ==> r == Err::<
                Option<(u32, u64)>,
                Errno,
            >(Errno::EOPNOTSUPP)
        },
{
}

/// An interest can be added where there is none, and changed or removed where there is one.
pub proof fn interests_change_where_they_are(
    s: Seq<EpollInterest>,
    op: usize,
    fd: usize,
    event: Option<(u32, u64)>,
    file: usize,
    r: SysResult<usize>,
)
    requires
        ctl_answer(s, op, fd, event, file, r),
    ensures
        r matches Ok(n) ==> n == 0 && 1 <= op <= 3,
        op == 1 && watched(s, fd, file) ==> r == err(Errno::EEXIST),
        (op == 2 || op == 3) && !watched(s, fd, file) ==> r == err(Errno::ENOENT),
        op == 2 && watched(s, fd, file) ==> r == ok(0),
        op == 1 && !watched(s, fd, file) || op == 3 && watched(s, fd, file) ==> r == (
        if event is Some {
            ok(0)
        } else {
            err(Errno::EFAULT)
        }),
        op == 0 || op > 3 ==> r == err(Errno::EINVAL),
{
}

/// A new or changed interest watches for exactly the events given with exactly the data given,
/// as if nothing had been reported yet; a change outdates reports that are under way.
pub proof fn interests_start_afresh(fd: usize, file: usize, i: EpollInterest, event: (u32, u64))
    ensures
        fresh_interest(fd, file, event).fd == fd && fresh_interest(fd, file, event).file == file,
        fresh_interest(fd, file, event).events == event.0 && fresh_interest(fd, file, event).data
            == event.1,
        fresh_interest(fd, file, event).last_ready == 0
            && !fresh_interest(fd, file, event).disabled,
        changed_interest(i, event).fd == i.fd && changed_interest(i, event).file == i.file,
        changed_interest(i, event).events == event.0 && changed_interest(i, event).data == event.1,
        changed_interest(i, event).last_ready == 0 && !changed_interest(i, event).disabled,
        changed_interest(i, event).generation != i.generation,
        i.generation < usize::MAX ==> changed_interest(i, event).generation == i.generation + 1,
{
}

/// A negative timeout waits without end; any other one ends that many milliseconds from now.
pub proof fn waits_last_as_long_as_asked(now_us: usize, timeout_ms: isize)
    ensures
        (wait_deadline(now_us, timeout_ms) is None) == (timeout_ms < 0),
        timeout_ms >= 0 && now_us + timeout_ms * 1000 <= usize::MAX ==> wait_deadline(
            now_us,
            timeout_ms,
        )->0 - now_us == timeout_ms * 1000,
        timeout_ms >= 0 && now_us + timeout_ms * 1000 > usize::MAX ==> wait_deadline(
            now_us,
            timeout_ms,
        ) == Some(usize::MAX),
{
}

/// A wait asks for between one and 4096 events, and a signal mask has eight bytes.
pub proof fn waits_are_checked_in_order(
    is_epoll: SysResult<()>,
    maxevents: usize,
    timeout_ms: isize,
    sigmask: UserIn<SigSet>,
    sigsetsize: usize,
    now_us: usize,
    r: SysResult<EpollCall>,
)
    requires
        epoll_wait_begun(is_epoll, maxevents, timeout_ms, sigmask, sigsetsize, now_us, r),
    ensures
        (r is Ok) == (1 <= maxevents <= 4096 && is_epoll is Ok && (match sigmask {
            UserIn::Null => true,
            UserIn::Fault => false,
            UserIn::Value(_) => sigsetsize == 8,
        })),
        maxevents == 0 || maxevents > 4096 ==> r->Err_0 == Errno::EINVAL,
        1 <= maxevents <= 4096 ==> (is_epoll matches Err(e) ==> r->Err_0 == e),
        1 <= maxevents <= 4096 && is_epoll is Ok && sigmask is Fault && sigsetsize == 8
            ==> r->Err_0 == Errno::EFAULT,
        r matches Ok(c) ==> (c.wait.mask is Some) == (sigmask is Value),
        r matches Ok(c) ==> (c.wait.deadline_us is None) == (timeout_ms < 0),
{
}

/// Looking at an interest changes nothing of it but that an edge-triggered one forgets what was
/// reported once the file is not ready at all.
pub proof fn looking_forgets_only_edges(i: EpollInterest, f: FileReady)
    ensures
        looked(i, f).fd == i.fd && looked(i, f).file == i.file && looked(i, f).events == i.events
            && looked(i, f).data == i.data && looked(i, f).disabled == i.disabled
            && looked(i, f).generation == i.generation,
        i.events & 0x8000_0000 == 0 || ready_bits(i, f) != 0 || i.disabled ==> looked(i, f) == i,
        i.events & 0x8000_0000 != 0 && ready_bits(i, f) == 0 && !i.disabled ==> looked(
            i,
            f,
        ).last_ready == 0,
{
}

/// A report that reached the caller is remembered for edges, disables a one-shot interest, and
/// concerns only the interest it was made of.
pub proof fn reports_settle_their_interest(i: EpollInterest, e: EpollReady)
    ensures
        i.fd != e.fd || i.file != e.file || i.generation != e.generation ==> committed_one(i, e)
            == i,
        i.fd == e.fd && i.file == e.file && i.generation == e.generation ==> {
            let c = committed_one(i, e);
            &&& i.events & 0x4000_0000 != 0 ==> c.disabled
            &&& i.events & 0x4000_0000 == 0 ==> c.disabled == i.disabled
            &&& i.events & 0x8000_0000 != 0 ==> c.last_ready == e.observed_ready
            &&& i.events & 0x8000_0000 == 0 ==> c.last_ready == i.last_ready
            &&& c.events == i.events && c.data == i.data
        },
{
}

/// Interests are kept by descriptor, then by file.
pub proof fn interests_are_kept_in_order(a: EpollInterest, b: EpollInterest, c: EpollInterest)
    ensures
        a.fd < b.fd ==> comes_before(a, b),
        a.fd == b.fd ==> comes_before(a, b) == (a.file < b.file),
        comes_before(a, b) && comes_before(b, c) ==> comes_before(a, c),
        !(comes_before(a, b) && comes_before(b, a)),
{
}

} // verus!
