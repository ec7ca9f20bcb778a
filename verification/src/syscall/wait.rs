//! Waiting for children.

use crate::errno::{err, ok, Errno, SysResult};
use crate::seqs::{first_exists, first_index, first_is, first_is_none, is_first};
use crate::signal::sig_info::{child_info, LinuxSigInfo, SigInfo};
use crate::sorted_map::SortedMap;
use crate::syscall::rusage::{no_usage, rusage_from_snapshot, usage_of, RUsage, ResourceUsage};
use crate::user::UserOut;
use vstd::prelude::*;

verus! {

pub const WNOHANG: usize = 1;

pub const WUNTRACED: usize = 2;

pub const WCONTINUED: usize = 8;

/// The options of `wait4`, in the 32 bits that the call looks at.
pub const WAIT4_OPTIONS: u32 = 11;

pub const P_ALL: usize = 0;

pub const P_PID: usize = 1;

pub const P_PGID: usize = 2;

pub const WSTOPPED: usize = 2;

pub const WEXITED: usize = 4;

pub const WNOWAIT: usize = 0x0100_0000;

/// A child process.
#[derive(Debug, Clone, Copy)]
pub struct Child {
    pub pgid: usize,
    /// A stop or continuation that was not waited for yet: cause and signal.
    pub event: Option<(i32, i32)>,
    pub exited: bool,
    /// Encoded exit status.
    pub wait_status: i32,
    pub utime: usize,
    pub stime: usize,
    pub resources: ResourceUsage,
}

/// A process that waits for its children.
#[derive(Debug)]
pub struct Waiter {
    pub pgid: usize,
    /// Children by process number.
    pub children: SortedMap<Child>,
    /// Children that ended, in the order in which they did.
    pub exited: Vec<usize>,
    /// Time of the children that were waited for.
    pub child_utime: usize,
    pub child_stime: usize,
    pub child_resources: ResourceUsage,
    /// A signal has interrupted the wait.
    pub interrupted: bool,
}

/// Which children are waited for.
#[derive(Debug, Clone, Copy, PartialEq, Eq, Structural)]
pub enum Filter {
    Any,
    Pid(usize),
    Group(usize),
    /// No child at all.
    Nobody,
}

/// Which changes are waited for.
#[derive(Debug, Clone, Copy)]
pub struct Wanted {
    pub stopped: bool,
    pub continued: bool,
    pub exited: bool,
}

/// Whether a filter speaks of a child.
pub open spec fn matches_child(f: Filter, pid: usize, c: Child) -> bool {
    match f {
        Filter::Any => true,
        Filter::Pid(p) => p == pid,
        Filter::Group(g) => c.pgid == g,
        Filter::Nobody => false,
    }
}

/// Whether a child has a stop or continuation that is waited for.
pub open spec fn has_event(w: Wanted, c: Child) -> bool {
    c.event matches Some((code, _)) && ((code == SigInfo::CLD_STOPPED && w.stopped) || (code
        == SigInfo::CLD_CONTINUED && w.continued))
}

/// The child whose change is reported.
pub enum Choice {
    /// No child is waited for.
    NoChild,
    /// No child has changed yet.
    NotYet,
    /// A child stopped or continued.
    Event(usize),
    /// A child ended.
    Exit(usize),
}

/// Some child is waited for.
pub open spec fn any_child(f: Filter, s: Seq<(usize, Child)>) -> bool {
    exists|i: int| 0 <= i < s.len() && #[trigger] matches_child(f, s[i].0, s[i].1)
}

/// The first child in order of process numbers that stopped or continued.
pub open spec fn event_index(f: Filter, w: Wanted, s: Seq<(usize, Child)>) -> Option<int> {
    first_index(s, |e: (usize, Child)| matches_child(f, e.0, e.1) && has_event(w, e.1))
}

/// The first child in order of process numbers that ended.
pub open spec fn exit_index(f: Filter, s: Seq<(usize, Child)>) -> Option<int> {
    first_index(s, |e: (usize, Child)| matches_child(f, e.0, e.1) && e.1.exited)
}

/// The first entry of the queue of ended children that is waited for.
pub open spec fn queue_index(f: Filter, q: Seq<usize>, m: Map<usize, Child>) -> Option<int> {
    first_index(
        q,
        |p: usize| m.contains_key(p) && matches_child(f, p, m[p]) && m[p].exited,
    )
}

/// Stops and continuations come first, then the children that ended in the
/// order in which they did.
pub open spec fn choice(t: &Waiter, f: Filter, w: Wanted) -> Choice {
    let s = t.children.entries@;
    if !any_child(f, s) {
        Choice::NoChild
    } else if (w.stopped || w.continued) && event_index(f, w, s) is Some {
        Choice::Event(s[event_index(f, w, s)->0].0)
    } else if !w.exited {
        Choice::NotYet
    } else if queue_index(f, t.exited@, t.children@) is Some {
        Choice::Exit(t.exited@[queue_index(f, t.exited@, t.children@)->0])
    } else if exit_index(f, s) is Some {
        Choice::Exit(s[exit_index(f, s)->0].0)
    } else {
        Choice::NotYet
    }
}

fn child_matches(f: Filter, pid: usize, c: &Child) -> (r: bool)
    ensures
        r == matches_child(f, pid, *c),
{
    match f {
        Filter::Any => true,
        Filter::Pid(p) => p == pid,
        Filter::Group(g) => c.pgid == g,
        Filter::Nobody => false,
    }
}

fn wanted_event(w: &Wanted, c: &Child) -> (r: bool)
    ensures
        r == has_event(*w, *c),
{
    match c.event {
        Some((code, _)) => (code == SigInfo::CLD_STOPPED && w.stopped) || (code
            == SigInfo::CLD_CONTINUED && w.continued),
        None => false,
    }
}

/// A chosen child exists and is waited for.
proof fn chosen_child_exists(t: &Waiter, f: Filter, w: Wanted)
    requires
        t.children.wf(),
    ensures
        choice(t, f, w) matches Choice::Event(p) ==> t.children@.contains_key(p) && matches_child(
            f,
            p,
            t.children@[p],
        ) && has_event(w, t.children@[p]),
        choice(t, f, w) matches Choice::Exit(p) ==> t.children@.contains_key(p) && matches_child(
            f,
            p,
            t.children@[p],
        ) && t.children@[p].exited,
{
    let s = t.children.entries@;
    let ev = |e: (usize, Child)| matches_child(f, e.0, e.1) && has_event(w, e.1);
    let ex = |e: (usize, Child)| matches_child(f, e.0, e.1) && e.1.exited;
    if event_index(f, w, s) is Some {
        let i = event_index(f, w, s)->0;
        assert(is_first(s, ev, i));
        t.children.entry_in_view(i);
    }
    if exit_index(f, s) is Some {
        let i = exit_index(f, s)->0;
        assert(is_first(s, ex, i));
        t.children.entry_in_view(i);
    }
    if queue_index(f, t.exited@, t.children@) is Some {
        let m = t.children@;
        let g = |p: usize| m.contains_key(p) && matches_child(f, p, m[p]) && m[p].exited;
        assert(is_first(t.exited@, g, queue_index(f, t.exited@, m)->0));
    }
}

impl Waiter {
    pub open spec fn wf(&self) -> bool {
        self.children.wf()
    }

    /// Only the interruption mark differs from `t`.
    pub open spec fn same_children(&self, t: &Waiter) -> bool {
        &&& self.pgid == t.pgid
        &&& self.children == t.children
        &&& self.exited == t.exited
        &&& self.child_utime == t.child_utime
        &&& self.child_stime == t.child_stime
        &&& self.child_resources == t.child_resources
    }

    /// The child whose change is reported.
    fn choose_child(&self, f: Filter, w: &Wanted) -> (r: Choice)
        requires
            self.wf(),
        ensures
            r == choice(self, f, *w),
    {
        let ghost s = self.children.entries@;
        let ghost m = self.children@;
        let ghost ev = |e: (usize, Child)| matches_child(f, e.0, e.1) && has_event(*w, e.1);
        let ghost ex = |e: (usize, Child)| matches_child(f, e.0, e.1) && e.1.exited;
        let ghost qu = |p: usize| m.contains_key(p) && matches_child(f, p, m[p]) && m[p].exited;
        let mut found = false;
        let mut i: usize = 0;
        while i < self.children.entries.len()
            invariant
                s == self.children.entries@,
                i <= s.len(),
                found == exists|k: int|
                    0 <= k < i && #[trigger] matches_child(f, s[k].0, s[k].1),
            decreases s.len() - i,
        {
            if child_matches(f, self.children.entries[i].0, &self.children.entries[i].1) {
                assert(matches_child(f, s[i as int].0, s[i as int].1));
                found = true;
            }
            i = i + 1;
        }
        if !found {
            return Choice::NoChild;
        }
        if w.stopped || w.continued {
            let mut i: usize = 0;
            while i < self.children.entries.len()
                invariant
                    s == self.children.entries@,
                    i <= s.len(),
                    ev == (|e: (usize, Child)| matches_child(f, e.0, e.1) && has_event(*w, e.1)),
                    forall|k: int| 0 <= k < i ==> !ev(#[trigger] s[k]),
                    w.stopped || w.continued,
                    any_child(f, s),
                decreases s.len() - i,
            {
                if child_matches(f, self.children.entries[i].0, &self.children.entries[i].1)
                    && wanted_event(w, &self.children.entries[i].1) {
                    proof {
                        assert(ev(s[i as int]));
                        first_is(s, ev, i as int);
                    }
                    return Choice::Event(self.children.entries[i].0);
                }
                i = i + 1;
            }
            proof {
                first_is_none(s, ev);
            }
        }
        if !w.exited {
            return Choice::NotYet;
        }
        let mut q: usize = 0;
        while q < self.exited.len()
            invariant
                self.wf(),
                m == self.children@,
                s == self.children.entries@,
                q <= self.exited@.len(),
                qu == (|p: usize| m.contains_key(p) && matches_child(f, p, m[p]) && m[p].exited),
                forall|k: int| 0 <= k < q ==> !qu(#[trigger] self.exited@[k]),
                any_child(f, s),
                w.exited,
                (w.stopped || w.continued) ==> event_index(f, *w, s) is None,
            decreases self.exited@.len() - q,
        {
            let p: usize = self.exited[q];
            match self.children.get(p) {
                Some(c) => {
                    if child_matches(f, p, c) && c.exited {
                        proof {
                            assert(qu(self.exited@[q as int]));
                            first_is(self.exited@, qu, q as int);
                        }
                        return Choice::Exit(p);
                    }
                },
                None => {},
            }
            q = q + 1;
        }
        proof {
            first_is_none(self.exited@, qu);
        }
        let mut j: usize = 0;
        while j < self.children.entries.len()
            invariant
                s == self.children.entries@,
                j <= s.len(),
                ex == (|e: (usize, Child)| matches_child(f, e.0, e.1) && e.1.exited),
                forall|k: int| 0 <= k < j ==> !ex(#[trigger] s[k]),
                any_child(f, s),
                w.exited,
                (w.stopped || w.continued) ==> event_index(f, *w, s) is None,
                queue_index(f, self.exited@, self.children@) is None,
            decreases s.len() - j,
        {
            if child_matches(f, self.children.entries[j].0, &self.children.entries[j].1)
                && self.children.entries[j].1.exited {
                proof {
                    assert(ex(s[j as int]));
                    first_is(s, ex, j as int);
                }
                return Choice::Exit(self.children.entries[j].0);
            }
            j = j + 1;
        }
        proof {
            first_is_none(s, ex);
        }
        Choice::NotYet
    }

    /// Forgets an ended child and takes over its accounting.
    fn reap(&mut self, pid: usize)
        requires
            old(self).wf(),
            old(self).children@.contains_key(pid),
        ensures
            final(self).wf(),
            reaped(old(self), final(self), pid),
            final(self).interrupted == old(self).interrupted,
    {
        match self.children.remove(pid) {
            Some(c) => {
                self.child_utime = self.child_utime.saturating_add(c.utime);
                self.child_stime = self.child_stime.saturating_add(c.stime);
                self.child_resources = merged(&self.child_resources, &c.resources);
                let mut kept: Vec<usize> = Vec::new();
                let mut i: usize = 0;
                while i < self.exited.len()
                    invariant
                        i <= self.exited@.len(),
                        kept@ == self.exited@.take(i as int).filter(other_than(pid)),
                    decreases self.exited@.len() - i,
                {
                    let p: usize = self.exited[i];
                    proof {
                        let t = self.exited@.take(i + 1);
                        assert(t.drop_last() =~= self.exited@.take(i as int));
                        assert(t.last() == p);
                        reveal(Seq::filter);
                    }
                    if p != pid {
                        kept.push(p);
                    }
                    i = i + 1;
                }
                proof {
                    assert(self.exited@.take(i as int) =~= self.exited@);
                }
                self.exited = kept;
                assert(reaped(old(self), self, pid));
            },
            None => {},
        }
    }

    /// Takes the stop or continuation of a child.
    fn take_event(&mut self, pid: usize)
        requires
            old(self).wf(),
            old(self).children@.contains_key(pid),
        ensures
            final(self).wf(),
            event_taken(old(self), final(self), pid),
            final(self).interrupted == old(self).interrupted,
    {
        match self.children.get(pid) {
            Some(c) => {
                let mut d = *c;
                d.event = None;
                self.children.insert(pid, d);
            },
            None => {},
        }
    }
}

/// Resources of two processes together; of the resident sets the larger counts.
pub open spec fn merged_usage(a: ResourceUsage, b: ResourceUsage) -> ResourceUsage {
    ResourceUsage {
        maxrss_pages: if a.maxrss_pages < b.maxrss_pages {
            b.maxrss_pages
        } else {
            a.maxrss_pages
        },
        minflt: a.minflt.saturating_add(b.minflt),
        majflt: a.majflt.saturating_add(b.majflt),
        inblock: a.inblock.saturating_add(b.inblock),
        oublock: a.oublock.saturating_add(b.oublock),
        nvcsw: a.nvcsw.saturating_add(b.nvcsw),
        nivcsw: a.nivcsw.saturating_add(b.nivcsw),
    }
}

fn merged(a: &ResourceUsage, b: &ResourceUsage) -> (r: ResourceUsage)
    ensures
        r == merged_usage(*a, *b),
{
    ResourceUsage {
        maxrss_pages: if a.maxrss_pages < b.maxrss_pages {
            b.maxrss_pages
        } else {
            a.maxrss_pages
        },
        minflt: a.minflt.saturating_add(b.minflt),
        majflt: a.majflt.saturating_add(b.majflt),
        inblock: a.inblock.saturating_add(b.inblock),
        oublock: a.oublock.saturating_add(b.oublock),
        nvcsw: a.nvcsw.saturating_add(b.nvcsw),
        nivcsw: a.nivcsw.saturating_add(b.nivcsw),
    }
}

/// Every process but `pid`.
pub open spec fn other_than(pid: usize) -> spec_fn(usize) -> bool {
    |p: usize| p != pid
}

/// The ended child `pid` was forgotten and its accounting taken over.
pub open spec fn reaped(before: &Waiter, after: &Waiter, pid: usize) -> bool {
    let c = before.children@[pid];
    &&& after.pgid == before.pgid
    &&& after.children@ == before.children@.remove(pid)
    &&& after.exited@ == before.exited@.filter(other_than(pid))
    &&& after.child_utime == before.child_utime.saturating_add(c.utime)
    &&& after.child_stime == before.child_stime.saturating_add(c.stime)
    &&& after.child_resources == merged_usage(before.child_resources, c.resources)
}

/// The stop or continuation of child `pid` was taken.
pub open spec fn event_taken(before: &Waiter, after: &Waiter, pid: usize) -> bool {
    &&& after.pgid == before.pgid
    &&& after.children@ == before.children@.insert(
        pid,
        Child { event: None, ..before.children@[pid] },
    )
    &&& after.exited == before.exited
    &&& after.child_utime == before.child_utime
    &&& after.child_stime == before.child_stime
    &&& after.child_resources == before.child_resources
}

/// The children that `wait4(pid)` waits for.
pub open spec fn wait4_filter(pid: isize, own_group: usize) -> Filter {
    if pid == -1 {
        Filter::Any
    } else if pid > 0 {
        Filter::Pid(pid as usize)
    } else if pid == 0 {
        Filter::Group(own_group)
    } else {
        Filter::Group((-pid) as usize)
    }
}

/// The changes that `wait4` waits for; ended children always count.
pub open spec fn wait4_wanted(options: usize) -> Wanted {
    Wanted {
        stopped: options & WUNTRACED != 0,
        continued: options & WCONTINUED != 0,
        exited: true,
    }
}

/// The status word of a stop or continuation.
pub open spec fn event_status(event: (i32, i32)) -> i32 {
    if event.0 == SigInfo::CLD_STOPPED {
        (event.1 << 8) | 0x7f
    } else if event.0 == SigInfo::CLD_CONTINUED {
        0xffff
    } else {
        event.1
    }
}

fn wait4_event_status(code: i32, status: i32) -> (r: i32)
    ensures
        r == event_status((code, status)),
{
    if code == SigInfo::CLD_STOPPED {
        (status << 8) | 0x7f
    } else if code == SigInfo::CLD_CONTINUED {
        0xffff
    } else {
        status
    }
}

/// How a wait goes on: the call returns and writes `status` and `usage`, or the
/// caller sleeps and tries again.
pub enum Wait4Step {
    Return { ret: SysResult<usize>, status: Option<i32>, usage: Option<RUsage> },
    Sleep,
}

/// A step that only reports an error.
pub open spec fn wait4_failed(e: Errno) -> Wait4Step {
    Wait4Step::Return { ret: Err(e), status: None, usage: None }
}

/// What one look at the children gives.
pub open spec fn wait4_step(
    t: &Waiter,
    pid: isize,
    status_ptr: UserOut,
    options: usize,
    rusage_ptr: UserOut,
) -> Wait4Step {
    if options as u32 & !WAIT4_OPTIONS != 0 {
        wait4_failed(Errno::EINVAL)
    } else if pid == i32::MIN {
        wait4_failed(Errno::ESRCH)
    } else {
        match choice(t, wait4_filter(pid, t.pgid), wait4_wanted(options)) {
            Choice::NoChild => wait4_failed(Errno::ECHILD),
            Choice::NotYet => if options & WNOHANG != 0 {
                Wait4Step::Return { ret: Ok(0), status: None, usage: None }
            } else if t.interrupted {
                wait4_failed(Errno::EINTR)
            } else {
                Wait4Step::Sleep
            },
            Choice::Event(p) => if status_ptr == UserOut::Fault {
                wait4_failed(Errno::EFAULT)
            } else {
                Wait4Step::Return {
                    ret: Ok(p),
                    status: if status_ptr == UserOut::Writable {
                        Some(event_status(t.children@[p].event->0))
                    } else {
                        None
                    },
                    usage: None,
                }
            },
            Choice::Exit(p) => {
                let c = t.children@[p];
                let status = if status_ptr == UserOut::Writable {
                    Some(c.wait_status)
                } else {
                    None
                };
                if status_ptr == UserOut::Fault {
                    wait4_failed(Errno::EFAULT)
                } else if rusage_ptr == UserOut::Fault {
                    Wait4Step::Return { ret: Err(Errno::EFAULT), status, usage: None }
                } else {
                    Wait4Step::Return {
                        ret: Ok(p),
                        status,
                        usage: if rusage_ptr == UserOut::Writable {
                            Some(usage_of(c.utime, c.stime, c.resources))
                        } else {
                            None
                        },
                    }
                }
            },
        }
    }
}

/// What one look at the children changes.
pub open spec fn wait4_effect(before: &Waiter, after: &Waiter, pid: isize, options: usize, step: Wait4Step) -> bool {
    match step {
        Wait4Step::Sleep => *after == *before,
        Wait4Step::Return { ret, status: _, usage: _ } => match ret {
            Err(e) => after.same_children(before) && after.interrupted == (before.interrupted
                && e != Errno::ECHILD && e != Errno::EINTR),
            Ok(p) => match choice(
                before,
                wait4_filter(pid, before.pgid),
                wait4_wanted(options),
            ) {
                Choice::Event(q) => event_taken(before, after, q) && !after.interrupted,
                Choice::Exit(q) => reaped(before, after, q) && !after.interrupted,
                _ => *after == *before,
            },
        },
    }
}

/// Looks for a changed child. A child's change is consumed only once status and
/// usage have been accepted by user memory.
pub fn sys_wait4(
    t: &mut Waiter,
    pid: isize,
    status_ptr: UserOut,
    options: usize,
    rusage_ptr: UserOut,
) -> (r: Wait4Step)
    requires
        old(t).wf(),
    ensures
        final(t).wf(),
        r == wait4_step(old(t), pid, status_ptr, options, rusage_ptr),
        wait4_effect(old(t), final(t), pid, options, r),
{
    if options as u32 & !WAIT4_OPTIONS != 0 {
        return Wait4Step::Return { ret: Err(Errno::EINVAL), status: None, usage: None };
    }
    if pid == i32::MIN as isize {
        return Wait4Step::Return { ret: Err(Errno::ESRCH), status: None, usage: None };
    }
    let f = if pid == -1 {
        Filter::Any
    } else if pid > 0 {
        Filter::Pid(pid as usize)
    } else if pid == 0 {
        Filter::Group(t.pgid)
    } else {
        let low: usize = (-(pid + 1)) as usize;
        Filter::Group(low + 1)
    };
    let w = Wanted {
        stopped: options & WUNTRACED != 0,
        continued: options & WCONTINUED != 0,
        exited: true,
    };
    proof {
        chosen_child_exists(t, f, w);
    }
    match t.choose_child(f, &w) {
        Choice::NoChild => {
            t.interrupted = false;
            Wait4Step::Return { ret: Err(Errno::ECHILD), status: None, usage: None }
        },
        Choice::NotYet => {
            if options & WNOHANG != 0 {
                return Wait4Step::Return { ret: Ok(0), status: None, usage: None };
            }
            if t.interrupted {
                t.interrupted = false;
                return Wait4Step::Return { ret: Err(Errno::EINTR), status: None, usage: None };
            }
            Wait4Step::Sleep
        },
        Choice::Event(p) => {
            let word: i32 = match t.children.get(p) {
                Some(c) => match c.event {
                    Some((code, status)) => wait4_event_status(code, status),
                    None => 0,
                },
                None => 0,
            };
            let status = match status_ptr {
                UserOut::Fault => {
                    return Wait4Step::Return {
                        ret: Err(Errno::EFAULT),
                        status: None,
                        usage: None,
                    };
                },
                UserOut::Null => None,
                UserOut::Writable => Some(word),
            };
            t.take_event(p);
            t.interrupted = false;
            Wait4Step::Return { ret: Ok(p), status, usage: None }
        },
        Choice::Exit(p) => {
            let c = match t.children.get(p) {
                Some(c) => *c,
                None => {
                    return Wait4Step::Sleep;
                },
            };
            let status = match status_ptr {
                UserOut::Fault => {
                    return Wait4Step::Return {
                        ret: Err(Errno::EFAULT),
                        status: None,
                        usage: None,
                    };
                },
                UserOut::Null => None,
                UserOut::Writable => Some(c.wait_status),
            };
            let usage = match rusage_ptr {
                UserOut::Fault => {
                    return Wait4Step::Return { ret: Err(Errno::EFAULT), status, usage: None };
                },
                UserOut::Null => None,
                UserOut::Writable => Some(rusage_from_snapshot(c.utime, c.stime, &c.resources)),
            };
            t.reap(p);
            t.interrupted = false;
            Wait4Step::Return { ret: Ok(p), status, usage }
        },
    }
}

/// A failing wait loses no child and no change.
pub proof fn failed_wait_loses_nothing(
    before: &Waiter,
    after: &Waiter,
    pid: isize,
    options: usize,
    step: Wait4Step,
)
    requires
        wait4_effect(before, after, pid, options, step),
        step matches Wait4Step::Return { ret, status: _, usage: _ } && ret is Err,
    ensures
        after.children == before.children,
        after.exited == before.exited,
{
}

/// The description of an ended child from its status word.
pub open spec fn exit_info(pid: usize, status: i32) -> LinuxSigInfo {
    if status & 0x7f == 0 {
        child_info(pid, (status >> 8) & 0xff, SigInfo::CLD_EXITED)
    } else if status & 0x80 != 0 {
        child_info(pid, status & 0x7f, SigInfo::CLD_DUMPED)
    } else {
        child_info(pid, status & 0x7f, SigInfo::CLD_KILLED)
    }
}

fn waitid_child_info(pid: usize, status: i32) -> (r: LinuxSigInfo)
    ensures
        r == exit_info(pid, status),
{
    if status & 0x7f == 0 {
        LinuxSigInfo::new_child(pid, (status >> 8) & 0xff, SigInfo::CLD_EXITED)
    } else {
        let code: i32 = if status & 0x80 != 0 {
            SigInfo::CLD_DUMPED
        } else {
            SigInfo::CLD_KILLED
        };
        LinuxSigInfo::new_child(pid, status & 0x7f, code)
    }
}

/// How a `waitid` goes on.
pub enum WaitidStep {
    Return { ret: SysResult<usize>, info: Option<LinuxSigInfo>, usage: Option<RUsage> },
    Sleep,
}

/// Cause and signal of a child's stop or continuation.
pub open spec fn event_of(c: Child) -> (i32, i32) {
    c.event->0
}

/// The description that says that nothing happened.
pub open spec fn empty_info() -> LinuxSigInfo {
    LinuxSigInfo { si_signo: 0, si_errno: 0, si_code: 0, si_pid: 0, si_status: 0 }
}

/// A step that only reports an error.
pub open spec fn waitid_failed(e: Errno) -> WaitidStep {
    WaitidStep::Return { ret: Err(e), info: None, usage: None }
}

/// The children that `waitid` waits for.
pub open spec fn waitid_filter(idtype: usize, id: usize, own_group: usize) -> Filter {
    if idtype == P_ALL {
        Filter::Any
    } else if idtype == P_PID {
        Filter::Pid(id)
    } else if id == 0 {
        Filter::Group(own_group)
    } else {
        Filter::Group(id)
    }
}

/// The changes that `waitid` waits for.
pub open spec fn waitid_wanted(options: usize) -> Wanted {
    Wanted {
        stopped: options & WSTOPPED != 0,
        continued: options & WCONTINUED != 0,
        exited: options & WEXITED != 0,
    }
}

/// Unknown options, no change to wait for, or an unknown kind of child.
pub open spec fn waitid_invalid(idtype: usize, options: usize) -> bool {
    options & !(WNOHANG | WSTOPPED | WEXITED | WCONTINUED | WNOWAIT) != 0 || options & (WEXITED
        | WSTOPPED | WCONTINUED) == 0 || idtype > P_PGID
}

/// Writing description and usage of a found change.
pub open spec fn waitid_report(info: LinuxSigInfo, usage: RUsage, infop: UserOut, rusage: UserOut) -> WaitidStep {
    let out = if infop == UserOut::Writable {
        Some(info)
    } else {
        None
    };
    if infop == UserOut::Fault {
        waitid_failed(Errno::EFAULT)
    } else if rusage == UserOut::Fault {
        WaitidStep::Return { ret: Err(Errno::EFAULT), info: out, usage: None }
    } else {
        WaitidStep::Return {
            ret: Ok(0),
            info: out,
            usage: if rusage == UserOut::Writable {
                Some(usage)
            } else {
                None
            },
        }
    }
}

/// What one look at the children gives.
pub open spec fn waitid_step(
    t: &Waiter,
    idtype: usize,
    id: usize,
    infop: UserOut,
    options: usize,
    rusage: UserOut,
) -> WaitidStep {
    if waitid_invalid(idtype, options) {
        waitid_failed(Errno::EINVAL)
    } else {
        match choice(t, waitid_filter(idtype, id, t.pgid), waitid_wanted(options)) {
            Choice::NoChild => waitid_failed(Errno::ECHILD),
            Choice::NotYet => if options & WNOHANG != 0 {
                if infop == UserOut::Fault {
                    waitid_failed(Errno::EFAULT)
                } else {
                    WaitidStep::Return {
                        ret: Ok(0),
                        info: if infop == UserOut::Writable {
                            Some(empty_info())
                        } else {
                            None
                        },
                        usage: None,
                    }
                }
            } else if t.interrupted {
                waitid_failed(Errno::EINTR)
            } else {
                WaitidStep::Sleep
            },
            Choice::Event(p) => waitid_report(
                child_info(p, event_of(t.children@[p]).1, event_of(t.children@[p]).0),
                no_usage(),
                infop,
                rusage,
            ),
            Choice::Exit(p) => {
                let c = t.children@[p];
                waitid_report(
                    exit_info(p, c.wait_status),
                    usage_of(c.utime, c.stime, c.resources),
                    infop,
                    rusage,
                )
            },
        }
    }
}

/// What one look at the children changes: nothing with `WNOWAIT`.
pub open spec fn waitid_effect(
    before: &Waiter,
    after: &Waiter,
    idtype: usize,
    id: usize,
    options: usize,
    step: WaitidStep,
) -> bool {
    match step {
        WaitidStep::Sleep => *after == *before,
        WaitidStep::Return { ret, info: _, usage: _ } => match ret {
            Err(e) => after.same_children(before) && after.interrupted == (before.interrupted
                && e != Errno::EINTR),
            Ok(_) => if options & WNOWAIT != 0 {
                *after == *before
            } else {
                match choice(
                    before,
                    waitid_filter(idtype, id, before.pgid),
                    waitid_wanted(options),
                ) {
                    Choice::Event(q) => event_taken(before, after, q) && after.interrupted
                        == before.interrupted,
                    Choice::Exit(q) => reaped(before, after, q) && after.interrupted
                        == before.interrupted,
                    _ => *after == *before,
                }
            },
        },
    }
}

fn report_child(info: LinuxSigInfo, usage: RUsage, infop: UserOut, rusage: UserOut) -> (r: WaitidStep)
    ensures
        r == waitid_report(info, usage, infop, rusage),
{
    let out = match infop {
        UserOut::Fault => {
            return WaitidStep::Return { ret: Err(Errno::EFAULT), info: None, usage: None };
        },
        UserOut::Null => None,
        UserOut::Writable => Some(info),
    };
    match rusage {
        UserOut::Fault => WaitidStep::Return {
            ret: Err(Errno::EFAULT),
            info: out,
            usage: None,
        },
        UserOut::Null => WaitidStep::Return { ret: Ok(0), info: out, usage: None },
        UserOut::Writable => WaitidStep::Return { ret: Ok(0), info: out, usage: Some(usage) },
    }
}

/// Looks for a changed child and describes it. With `WNOWAIT` the change can be
/// waited for again; otherwise it is consumed once its description has been
/// accepted by user memory.
pub fn sys_waitid(
    t: &mut Waiter,
    idtype: usize,
    id: usize,
    infop: UserOut,
    options: usize,
    rusage: UserOut,
) -> (r: WaitidStep)
    requires
        old(t).wf(),
    ensures
        final(t).wf(),
        r == waitid_step(old(t), idtype, id, infop, options, rusage),
        waitid_effect(old(t), final(t), idtype, id, options, r),
{
    if options & !(WNOHANG | WSTOPPED | WEXITED | WCONTINUED | WNOWAIT) != 0 || options & (WEXITED
        | WSTOPPED | WCONTINUED) == 0 {
        return WaitidStep::Return { ret: Err(Errno::EINVAL), info: None, usage: None };
    }
    if idtype > P_PGID {
        return WaitidStep::Return { ret: Err(Errno::EINVAL), info: None, usage: None };
    }
    let f = if idtype == P_ALL {
        Filter::Any
    } else if idtype == P_PID {
        Filter::Pid(id)
    } else if id == 0 {
        Filter::Group(t.pgid)
    } else {
        Filter::Group(id)
    };
    let w = Wanted {
        stopped: options & WSTOPPED != 0,
        continued: options & WCONTINUED != 0,
        exited: options & WEXITED != 0,
    };
    proof {
        chosen_child_exists(t, f, w);
    }
    match t.choose_child(f, &w) {
        Choice::NoChild => WaitidStep::Return {
            ret: Err(Errno::ECHILD),
            info: None,
            usage: None,
        },
        Choice::NotYet => {
            if options & WNOHANG != 0 {
                let empty = LinuxSigInfo {
                    si_signo: 0,
                    si_errno: 0,
                    si_code: 0,
                    si_pid: 0,
                    si_status: 0,
                };
                return match infop {
                    UserOut::Fault => WaitidStep::Return {
                        ret: Err(Errno::EFAULT),
                        info: None,
                        usage: None,
                    },
                    UserOut::Null => WaitidStep::Return { ret: Ok(0), info: None, usage: None },
                    UserOut::Writable => WaitidStep::Return {
                        ret: Ok(0),
                        info: Some(empty),
                        usage: None,
                    },
                };
            }
            if t.interrupted {
                t.interrupted = false;
                return WaitidStep::Return { ret: Err(Errno::EINTR), info: None, usage: None };
            }
            WaitidStep::Sleep
        },
        Choice::Event(p) => {
            let (code, status) = match t.children.get(p) {
                Some(c) => match c.event {
                    Some(e) => e,
                    None => (0, 0),
                },
                None => (0, 0),
            };
            let step = report_child(
                LinuxSigInfo::new_child(p, status, code),
                RUsage::default(),
                infop,
                rusage,
            );
            match &step {
                WaitidStep::Return { ret, info: _, usage: _ } => {
                    if ret.is_ok() && options & WNOWAIT == 0 {
                        t.take_event(p);
                    }
                },
                WaitidStep::Sleep => {},
            }
            step
        },
        Choice::Exit(p) => {
            let c = match t.children.get(p) {
                Some(c) => *c,
                None => {
                    return WaitidStep::Sleep;
                },
            };
            let step = report_child(
                waitid_child_info(p, c.wait_status),
                rusage_from_snapshot(c.utime, c.stime, &c.resources),
                infop,
                rusage,
            );
            match &step {
                WaitidStep::Return { ret, info: _, usage: _ } => {
                    if ret.is_ok() && options & WNOWAIT == 0 {
                        t.reap(p);
                    }
                },
                WaitidStep::Sleep => {},
            }
            step
        },
    }
}

/// After an interrupted sleep `waitid` looks again only if a child has ended.
pub fn waitid_retry(t: &mut Waiter) -> (r: bool)
    ensures
        r == (old(t).exited@.len() > 0),
        !final(t).interrupted,
        final(t).same_children(old(t)),
{
    t.interrupted = false;
    t.exited.len() > 0
}

/// Whether a waiter really sleeps once it is marked blocked: any change since
/// its last look at the children cancels the sleep.
pub fn wait_must_sleep(ready: bool, seen_event: usize, current_event: usize, interrupted: bool) -> (r:
    bool)
    ensures
        r == (!ready && seen_event == current_event && !interrupted),
{
    !(ready || current_event != seen_event || interrupted)
}

/// A child that was waited for cannot be waited for again.
pub proof fn reaped_child_is_gone(before: &Waiter, after: &Waiter, pid: usize)
    requires
        reaped(before, after, pid),
    ensures
        !after.children@.contains_key(pid),
        !after.exited@.contains(pid),
{
    let f = other_than(pid);
    let s = before.exited@;
    if after.exited@.contains(pid) {
        let i = choose|i: int| 0 <= i < s.filter(f).len() && s.filter(f)[i] == pid;
        s.lemma_filter_pred(f, i);
    }
}

/// Observing with `WNOWAIT` leaves the change for a later wait.
pub proof fn observed_change_stays(
    before: &Waiter,
    after: &Waiter,
    idtype: usize,
    id: usize,
    options: usize,
    step: WaitidStep,
)
    requires
        waitid_effect(before, after, idtype, id, options, step),
        options & WNOWAIT != 0,
    ensures
        after.same_children(before),
{
}

/// A child that a wait by number speaks of: the one with that number, those of a
/// group, or any.
pub open spec fn concerned(pid: isize, own_group: usize, p: usize, group: usize) -> bool {
    ||| pid > 0 && pid == p
    ||| pid == 0 && group == own_group
    ||| pid == -1
    ||| pid < -1 && group == -pid
}

proof fn chosen_is_concerned(t: &Waiter, f: Filter, w: Wanted)
    requires
        t.wf(),
    ensures
        choice(t, f, w) is NoChild <==> forall|p: usize|
            #![trigger t.children@.contains_key(p)]
            t.children@.contains_key(p) ==> !matches_child(f, p, t.children@[p]),
{
    let s = t.children.entries@;
    if choice(t, f, w) is NoChild {
        assert forall|p: usize|
            #![trigger t.children@.contains_key(p)]
            t.children@.contains_key(p) implies !matches_child(f, p, t.children@[p]) by {
            let j = t.children.view_has_entry(p);
            assert(!matches_child(f, s[j].0, s[j].1));
        }
    } else {
        let i = choose|i: int| 0 <= i < s.len() && #[trigger] matches_child(f, s[i].0, s[i].1);
        t.children.entry_in_view(i);
        assert(t.children@.contains_key(s[i].0));
    }
}

/// A wait for children concerns exactly those that its number names. One that
/// succeeds returns such a child, whose number it is; no other child is removed or
/// changed. It finds no child exactly if none is named.
pub proof fn waits_concern_the_named_children(
    before: &Waiter,
    after: &Waiter,
    pid: isize,
    status_ptr: UserOut,
    options: usize,
    rusage_ptr: UserOut,
    step: Wait4Step,
)
    requires
        before.wf(),
        step == wait4_step(before, pid, status_ptr, options, rusage_ptr),
        wait4_effect(before, after, pid, options, step),
    ensures
        step matches Wait4Step::Return { ret, status, usage } ==> {
            &&& ret matches Ok(n) ==> {
                &&& n != 0 ==> before.children@.contains_key(n)
                &&& n != 0 && pid != -1 ==> concerned(pid, before.pgid, n, before.children@[n].pgid)
                &&& pid > 0 && n != 0 ==> n == pid
                &&& forall|q: usize|
                    q != n && #[trigger] before.children@.contains_key(q)
                        ==> after.children@.contains_key(q) && after.children@[q]
                        == before.children@[q]
                &&& forall|q: usize| #[trigger]
                    after.children@.contains_key(q) ==> before.children@.contains_key(q)
            }
            &&& ret is Err ==> after.children == before.children && after.exited == before.exited
        },
        options as u32 & !11u32 == 0 && pid != i32::MIN ==> (step matches Wait4Step::Return {
            ret: Err(Errno::ECHILD),
            status: _,
            usage: _,
        } <==> forall|p: usize| #[trigger]
            before.children@.contains_key(p) ==> !concerned(
                pid,
                before.pgid,
                p,
                before.children@[p].pgid,
            )),
        step is Sleep ==> *after == *before && options & 1 == 0 && !before.interrupted,
{
    let f = wait4_filter(pid, before.pgid);
    let w = wait4_wanted(options);
    chosen_child_exists(before, f, w);
    chosen_is_concerned(before, f, w);
}

/// An ended child that a wait by its number finds is reported with its status and
/// its usage, is gone afterwards, and its time counts for the waiter. A child that
/// goes on is slept for, unless the wait must not.
pub proof fn named_children_are_waited_for(
    before: &Waiter,
    after: &Waiter,
    pid: isize,
    options: usize,
    step: Wait4Step,
)
    requires
        before.wf(),
        0 < pid,
        before.children@.contains_key(pid as usize),
        options as u32 & !11u32 == 0,
        step == wait4_step(before, pid, UserOut::Writable, options, UserOut::Writable),
        wait4_effect(before, after, pid, options, step),
        before.children@[pid as usize].event is None,
    ensures
        ({
            let c = before.children@[pid as usize];
            &&& c.exited ==> {
                &&& step matches Wait4Step::Return { ret, status, usage } && ret == ok(pid as usize)
                    && status == Some(c.wait_status) && usage is Some
                &&& !after.children@.contains_key(pid as usize)
                &&& !after.exited@.contains(pid as usize)
                &&& before.child_utime + c.utime <= usize::MAX ==> after.child_utime
                    == before.child_utime + c.utime
                &&& before.child_stime + c.stime <= usize::MAX ==> after.child_stime
                    == before.child_stime + c.stime
            }
            &&& !c.exited && options & 1 != 0 ==> {
                &&& step matches Wait4Step::Return { ret, status, usage } && ret == ok(0)
                    && status is None
                &&& *after == *before
            }
            &&& !c.exited && options & 1 == 0 && !before.interrupted ==> step is Sleep
            &&& !c.exited && options & 1 == 0 && before.interrupted ==> (step matches
                Wait4Step::Return { ret, status: _, usage: _ } && ret == err(Errno::EINTR))
        }),
{
    let f = wait4_filter(pid, before.pgid);
    let w = wait4_wanted(options);
    let p = pid as usize;
    let s = before.children.entries@;
    chosen_child_exists(before, f, w);
    chosen_is_concerned(before, f, w);
    assert(matches_child(f, p, before.children@[p]));
    let j = before.children.view_has_entry(p);
    let ex = |e: (usize, Child)| matches_child(f, e.0, e.1) && e.1.exited;
    if before.children@[p].exited {
        assert(ex(s[j]));
        first_exists(s, ex, j);
        if choice(before, f, w) is Exit {
            reveal(Seq::filter);
            filter_drops(before.exited@, p);
        }
    }
}

proof fn filter_drops(s: Seq<usize>, p: usize)
    ensures
        !s.filter(other_than(p)).contains(p),
{
    broadcast use Seq::lemma_filter_pred;

    if s.filter(other_than(p)).contains(p) {
        let i = choose|i: int|
            0 <= i < s.filter(other_than(p)).len() && s.filter(other_than(p))[i] == p;
        assert(other_than(p)(s.filter(other_than(p))[i]));
    }
}

/// Stops and continuations are reported only if they are waited for, and ended
/// children of `waitid` only if these are.
pub proof fn only_wanted_changes_are_reported(t: &Waiter, f: Filter, w: Wanted)
    requires
        t.wf(),
    ensures
        choice(t, f, w) matches Choice::Event(p) ==> t.children@.contains_key(p) && (
        t.children@[p].event matches Some((code, _)) && (code == 5 && w.stopped || code == 6
            && w.continued)),
        choice(t, f, w) matches Choice::Exit(p) ==> t.children@.contains_key(p)
            && t.children@[p].exited && w.exited,
        forall|options: usize| #[trigger]
            wait4_wanted(options).exited && wait4_wanted(options).stopped == (options & 2 != 0)
                && wait4_wanted(options).continued == (options & 8 != 0),
        forall|options: usize| #[trigger]
            waitid_wanted(options).exited == (options & 4 != 0)
                && waitid_wanted(options).stopped == (
            options & 2 != 0) && waitid_wanted(options).continued == (options & 8 != 0),
{
    chosen_child_exists(t, f, w);
}

/// The child that a `waitid` finds is one that its kind and number name, its
/// description carries the child's number, and no other child is removed or changed.
pub proof fn descriptions_concern_the_named_children(
    before: &Waiter,
    after: &Waiter,
    idtype: usize,
    id: usize,
    options: usize,
    rusage: UserOut,
    step: WaitidStep,
)
    requires
        before.wf(),
        step == waitid_step(before, idtype, id, UserOut::Writable, options, rusage),
        waitid_effect(before, after, idtype, id, options, step),
    ensures
        step matches WaitidStep::Return { ret, info, usage } ==> {
            &&& ret is Ok ==> ret == ok(0) && info is Some
            &&& ret is Ok && info->0.si_signo != 0 ==> exists|p: usize| #[trigger]
                before.children@.contains_key(p) && info->0.si_pid == p && info->0.si_signo
                    == 17 && (idtype == 0 || idtype == 1 && p == id || idtype == 2
                    && before.children@[p].pgid == (if id == 0 {
                    before.pgid
                } else {
                    id
                })) && forall|q: usize|
                    q != p && #[trigger] before.children@.contains_key(q)
                        ==> after.children@.contains_key(q) && after.children@[q]
                        == before.children@[q]
            &&& ret is Err ==> after.children == before.children
            &&& options & 0x100_0000 != 0 && ret is Ok ==> *after == *before
        },
        idtype == 1 && options == 4 ==> (step matches WaitidStep::Return {
            ret: Err(Errno::ECHILD),
            info: _,
            usage: _,
        } <==> !before.children@.contains_key(id)),
{
    let f = waitid_filter(idtype, id, before.pgid);
    let w = waitid_wanted(options);
    chosen_child_exists(before, f, w);
    chosen_is_concerned(before, f, w);
    assert(4usize & !(1usize | 2usize | 4usize | 8usize | 0x0100_0000usize) == 0 && 4usize & (4usize
        | 2usize | 8usize) != 0) by (bit_vector);
    match choice(before, f, w) {
        Choice::Event(p) => {
            assert(before.children@.contains_key(p));
        },
        Choice::Exit(p) => {
            assert(before.children@.contains_key(p));
        },
        _ => {},
    }
}

/// The status word of a change, byte by byte: a stop carries its signal in the
/// second byte and 0x7f in the first; a continuation is 0xffff.
pub proof fn status_words_tell_the_change(code: i32, status: i32)
    requires
        0 <= status < 128,
    ensures
        code == 5 ==> event_status((code, status)) == status * 256 + 127,
        code == 6 ==> event_status((code, status)) == 65535,
        code != 5 && code != 6 ==> event_status((code, status)) == status,
{
    assert(0 <= status < 128 ==> (status << 8) | 0x7f == status * 256 + 127) by (bit_vector);
}

/// The description of an ended child tells a normal end with its exit code from an
/// end by a signal, with or without a dump.
pub proof fn ends_are_described(pid: usize, status: i32)
    requires
        0 <= status < 0x1_0000,
    ensures
        ({
            let i = exit_info(pid, status);
            let low = status % 128;
            &&& i.si_signo == 17
            &&& i.si_pid == pid
            &&& low == 0 ==> i.si_code == 1 && i.si_status == status / 256
            &&& low != 0 && status / 128 % 2 == 0 ==> i.si_code == 2 && i.si_status == low
            &&& low != 0 && status / 128 % 2 == 1 ==> i.si_code == 3 && i.si_status == low
        }),
{
    assert(0 <= status < 0x1_0000 ==> status & 0x7f == status % 128
        && (status >> 8) & 0xff == status
        / 256 && ((status & 0x80 != 0) == (status / 128 % 2 == 1))) by (bit_vector);
}

/// What two tasks used together is the larger memory and the sum of the rest.
pub proof fn usages_are_added(a: ResourceUsage, b: ResourceUsage)
    ensures
        merged_usage(a, b).maxrss_pages >= a.maxrss_pages && merged_usage(a, b).maxrss_pages
            >= b.maxrss_pages,
        merged_usage(a, b).maxrss_pages == a.maxrss_pages || merged_usage(a, b).maxrss_pages
            == b.maxrss_pages,
        merged_usage(a, b) == merged_usage(b, a),
        a.minflt + b.minflt <= usize::MAX ==> merged_usage(a, b).minflt == a.minflt + b.minflt,
        a.majflt + b.majflt <= usize::MAX ==> merged_usage(a, b).majflt == a.majflt + b.majflt,
        a.inblock + b.inblock <= usize::MAX ==> merged_usage(a, b).inblock == a.inblock + b.inblock,
        a.oublock + b.oublock <= usize::MAX ==> merged_usage(a, b).oublock == a.oublock + b.oublock,
        a.nvcsw + b.nvcsw <= usize::MAX ==> merged_usage(a, b).nvcsw == a.nvcsw + b.nvcsw,
        a.nivcsw + b.nivcsw <= usize::MAX ==> merged_usage(a, b).nivcsw == a.nivcsw + b.nivcsw,
{
}

/// A wait names everyone, one child or one group: -1, a number, zero for the own group, or a
/// group's number made negative.
pub proof fn waits_name_children(pid: isize, own: usize, idtype: usize, id: usize)
    requires
        pid > isize::MIN,
    ensures
        pid == -1 ==> wait4_filter(pid, own) == Filter::Any,
        pid > 0 ==> wait4_filter(pid, own) == Filter::Pid(pid as usize),
        wait4_filter(0, own) == Filter::Group(own),
        pid < -1 ==> (wait4_filter(pid, own) matches Filter::Group(g) && g == -pid),
        waitid_filter(0, id, own) == Filter::Any,
        waitid_filter(1, id, own) == Filter::Pid(id),
        waitid_filter(2, 0, own) == Filter::Group(own),
        id != 0 ==> waitid_filter(2, id, own) == Filter::Group(id),
        idtype > 2 ==> waitid_invalid(idtype, 4),
{
}

/// What is reported of a child goes to the places that can be written; an unwritable one is an
/// error, but what was written before it stays.
pub proof fn reports_go_where_they_can(info: LinuxSigInfo, usage: RUsage)
    ensures
        waitid_report(info, usage, UserOut::Writable, UserOut::Writable) == (WaitidStep::Return {
            ret: Ok(0),
            info: Some(info),
            usage: Some(usage),
        }),
        waitid_report(info, usage, UserOut::Writable, UserOut::Null) == (WaitidStep::Return {
            ret: Ok(0),
            info: Some(info),
            usage: None,
        }),
        waitid_report(info, usage, UserOut::Fault, UserOut::Writable) == (WaitidStep::Return {
            ret: Err(Errno::EFAULT),
            info: None,
            usage: None,
        }),
        waitid_report(info, usage, UserOut::Writable, UserOut::Fault) == (WaitidStep::Return {
            ret: Err(Errno::EFAULT),
            info: Some(info),
            usage: None,
        }),
{
}

/// A wait that finds no change yet returns at once where asked to, ends by an interrupt, and
/// otherwise sleeps; one without children fails.
pub proof fn fruitless_waits_sleep(
    t: &Waiter,
    pid: isize,
    options: usize,
    idtype: usize,
    id: usize,
    opts: usize,
)
    ensures
        options as u32 & !WAIT4_OPTIONS == 0 && pid != i32::MIN && choice(
            t,
            wait4_filter(pid, t.pgid),
            wait4_wanted(options),
        ) is NotYet ==> {
            let r = wait4_step(t, pid, UserOut::Writable, options, UserOut::Null);
            &&& options & 1 != 0 ==> r == (Wait4Step::Return {
                ret: Ok(0),
                status: None,
                usage: None,
            })
            &&& options & 1 == 0 && t.interrupted ==> r == (Wait4Step::Return {
                ret: Err(Errno::EINTR),
                status: None,
                usage: None,
            })
            &&& options & 1 == 0 && !t.interrupted ==> r is Sleep
        },
        options as u32 & !WAIT4_OPTIONS == 0 && pid != i32::MIN && choice(
            t,
            wait4_filter(pid, t.pgid),
            wait4_wanted(options),
        ) is NoChild ==> wait4_step(t, pid, UserOut::Writable, options, UserOut::Null) == (
        Wait4Step::Return { ret: Err(Errno::ECHILD), status: None, usage: None }),
        !waitid_invalid(idtype, opts) && choice(
            t,
            waitid_filter(idtype, id, t.pgid),
            waitid_wanted(opts),
        ) is NotYet ==> {
            let r = waitid_step(t, idtype, id, UserOut::Writable, opts, UserOut::Null);
            &&& opts & 1 != 0 ==> (r matches WaitidStep::Return { ret, info, usage } && ret == ok(0)
                && (info matches Some(i) && i.si_signo == 0 && i.si_pid == 0 && i.si_code == 0)
                && usage is None)
            &&& opts & 1 == 0 && !t.interrupted ==> r is Sleep
            &&& opts & 1 == 0 && t.interrupted ==> (r matches WaitidStep::Return { ret, .. } && ret
                == err(Errno::EINTR))
        },
        wait4_wanted(options).exited && wait4_wanted(options).stopped == (options & 2 != 0)
            && wait4_wanted(options).continued == (options & 8 != 0),
        waitid_wanted(options).exited == (options & 4 != 0) && waitid_wanted(options).stopped == (
        options & 2 != 0) && waitid_wanted(options).continued == (options & 8 != 0),
{
}

} // verus!
