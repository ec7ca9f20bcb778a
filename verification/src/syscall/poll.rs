//! Waiting until one of several descriptors is ready.

use crate::errno::{err, ok, Errno, SysResult};
use crate::signal::sig_struct::{blockable_part, has_signal, valid_signum, SigSet};
use crate::syscall::waiting::{undisturbed, WaitState};
use crate::timer::{duration_us, TimeSpec};
use crate::user::{read_result, UserIn};
use vstd::prelude::*;

verus! {

pub const POLLIN: i16 = 0x0001;

pub const POLLOUT: i16 = 0x0004;

pub const POLLNVAL: i16 = 0x0020;

/// The largest number of descriptors of one poll.
pub const PPOLL_MAXFDS: usize = 4096;

/// A descriptor, the events that are waited for and those that were met.
#[derive(Debug, Clone, Copy, PartialEq, Eq, Structural)]
pub struct PollFd {
    pub fd: i32,
    pub events: i16,
    pub revents: i16,
}

/// What a poll sees of an open file.
#[derive(Debug, Clone, Copy, PartialEq, Eq, Structural)]
pub struct Readiness {
    pub readable: bool,
    pub writable: bool,
    pub read_ready: bool,
    pub write_ready: bool,
}

/// The timeout in microseconds; none waits without limit.
pub open spec fn timeout_of(timeout: UserIn<TimeSpec>) -> SysResult<Option<usize>> {
    match timeout {
        UserIn::Null => Ok(None),
        UserIn::Fault => Err(Errno::EFAULT),
        UserIn::Value(t) => match duration_us(t) {
            Some(us) => Ok(Some(us)),
            None => Err(Errno::EINVAL),
        },
    }
}

fn pselect_timeout_us(timeout: UserIn<TimeSpec>) -> (r: SysResult<Option<usize>>)
    ensures
        r == timeout_of(timeout),
{
    match timeout {
        UserIn::Null => Ok(None),
        UserIn::Fault => Err(Errno::EFAULT),
        UserIn::Value(t) => match t.checked_duration_us() {
            Some(us) => Ok(Some(us)),
            None => Err(Errno::EINVAL),
        },
    }
}

/// The signal mask argument of a select: where the mask is and how long.
#[derive(Debug, Clone, Copy, PartialEq, Eq, Structural)]
pub struct Pselect6Sigmask {
    pub sigmask: usize,
    pub sigsetsize: usize,
}

/// Bytes of a signal mask.
pub const SIGSET_SIZE: usize = 8;

/// Whether a mask is given, or why it cannot be used.
pub open spec fn mask_given(arg: UserIn<Pselect6Sigmask>, set: UserIn<SigSet>) -> SysResult<
    Option<SigSet>,
> {
    match arg {
        UserIn::Null => Ok(None),
        UserIn::Fault => Err(Errno::EFAULT),
        UserIn::Value(a) => if a.sigmask == 0 {
            Ok(None)
        } else if a.sigsetsize != SIGSET_SIZE {
            Err(Errno::EINVAL)
        } else {
            match read_result(set) {
                Ok(s) => Ok(Some(s)),
                Err(e) => Err(e),
            }
        },
    }
}

/// Whether a mask is given directly, or why it cannot be used.
pub open spec fn plain_mask_given(set: UserIn<SigSet>, sigsetsize: usize) -> SysResult<Option<SigSet>> {
    match set {
        UserIn::Null => Ok(None),
        _ => if sigsetsize != SIGSET_SIZE {
            Err(Errno::EINVAL)
        } else {
            match read_result(set) {
                Ok(s) => Ok(Some(s)),
                Err(e) => Err(e),
            }
        },
    }
}

/// The mask that holds during the wait: what can be blocked of the given one.
pub open spec fn mask_used(given: SysResult<Option<SigSet>>, used: SysResult<Option<SigSet>>) -> bool {
    match given {
        Err(e) => used == Err::<Option<SigSet>, Errno>(e),
        Ok(None) => used == Ok::<Option<SigSet>, Errno>(None),
        Ok(Some(s)) => used is Ok && used->Ok_0 is Some && blockable_part(s, used->Ok_0->0),
    }
}

fn pselect_sigmask(arg: UserIn<Pselect6Sigmask>, set: UserIn<SigSet>) -> (r: SysResult<Option<SigSet>>)
    ensures
        mask_used(mask_given(arg, set), r),
{
    match arg {
        UserIn::Null => Ok(None),
        UserIn::Fault => Err(Errno::EFAULT),
        UserIn::Value(a) => {
            if a.sigmask == 0 {
                return Ok(None);
            }
            if a.sigsetsize != SIGSET_SIZE {
                return Err(Errno::EINVAL);
            }
            match set.read() {
                Err(e) => Err(e),
                Ok(s) => Ok(Some(s.without_unblockable())),
            }
        },
    }
}

fn ppoll_sigmask(set: UserIn<SigSet>, sigsetsize: usize) -> (r: SysResult<Option<SigSet>>)
    ensures
        mask_used(plain_mask_given(set, sigsetsize), r),
{
    if set.is_null() {
        return Ok(None);
    }
    if sigsetsize != SIGSET_SIZE {
        return Err(Errno::EINVAL);
    }
    match set.read() {
        Err(e) => Err(e),
        Ok(s) => Ok(Some(s.without_unblockable())),
    }
}

/// A wait: the mask that holds meanwhile, if any, and its limit.
#[derive(Debug, Clone, Copy)]
pub struct PollWait {
    pub mask: Option<SigSet>,
    pub timeout_us: Option<usize>,
}

/// A wait with this timeout and mask, each as far as it is good.
pub open spec fn wait_of(
    timeout: SysResult<Option<usize>>,
    given: SysResult<Option<SigSet>>,
    r: SysResult<PollWait>,
) -> bool {
    match timeout {
        Err(e) => r is Err && r->Err_0 == e,
        Ok(t) => match given {
            Err(e) => r is Err && r->Err_0 == e,
            Ok(_) => r is Ok && r->Ok_0.timeout_us == t && mask_used(
                given,
                Ok(r->Ok_0.mask),
            ),
        },
    }
}

/// The thread at the start of a wait: the mask of the wait is in place.
pub open spec fn waiting_under(t: WaitState, wait: PollWait) -> WaitState {
    WaitState { mask: mask_during(wait, t.mask), ..t }
}

/// The thread after a wait: the former mask is back, and it waits no more.
pub open spec fn released(t: WaitState, wait: PollWait, origin: SigSet) -> WaitState {
    WaitState { mask: mask_after(wait, t.mask, origin), interruptible: false, ..t }
}

impl PollWait {
    /// Puts the mask of the wait in place and returns the one it replaces.
    fn enter(&self, t: &mut WaitState) -> (r: SigSet)
        ensures
            r == old(t).mask,
            *final(t) == waiting_under(*old(t), *self),
    {
        let origin = t.mask;
        match self.mask {
            Some(m) => {
                t.mask = m;
            },
            None => {},
        }
        origin
    }

    /// Ends the wait: puts the former mask back if the wait replaced it.
    fn leave(&self, t: &mut WaitState, origin: SigSet)
        ensures
            *final(t) == released(*old(t), *self, origin),
    {
        t.interruptible = false;
        if self.mask.is_some() {
            t.mask = origin;
        }
    }
}

/// The mask that holds during a wait.
pub open spec fn mask_during(wait: PollWait, before: SigSet) -> SigSet {
    match wait.mask {
        Some(m) => m,
        None => before,
    }
}

/// The mask that holds after a wait.
pub open spec fn mask_after(wait: PollWait, during: SigSet, origin: SigSet) -> SigSet {
    match wait.mask {
        Some(_) => origin,
        None => during,
    }
}

/// The mask is the same after a wait as before, if nothing else changes it.
pub proof fn masks_are_restored(wait: PollWait, before: SigSet)
    ensures
        mask_after(wait, mask_during(wait, before), before) == before,
{
}

/// The events that a descriptor meets; negative descriptors meet none, closed
/// ones are reported as such.
pub open spec fn met_events(p: PollFd, file: Option<Readiness>) -> i16 {
    if p.fd < 0 {
        0
    } else {
        match file {
            None => POLLNVAL,
            Some(f) => {
                let a = if p.events & POLLIN != 0 && f.readable && f.read_ready {
                    POLLIN
                } else {
                    0
                };
                let b = if p.events & POLLOUT != 0 && f.writable && f.write_ready {
                    POLLOUT
                } else {
                    0
                };
                a | b
            },
        }
    }
}

/// The descriptors after a look at the files.
pub open spec fn scanned(ps: Seq<PollFd>, files: Seq<Option<Readiness>>) -> Seq<PollFd> {
    Seq::new(
        ps.len(),
        |i: int| PollFd { fd: ps[i].fd, events: ps[i].events, revents: met_events(ps[i], files[i]) },
    )
}

/// How many descriptors met an event.
pub open spec fn met_count(ps: Seq<PollFd>) -> nat
    decreases ps.len(),
{
    if ps.len() == 0 {
        0
    } else {
        met_count(ps.drop_last()) + if ps.last().revents != 0 {
            1nat
        } else {
            0
        }
    }
}

/// Looks at the files behind the descriptors and returns how many descriptors
/// met an event. `files[i]` is what is behind descriptor `i`, if it is open.
pub fn ppoll_scan_ready(pollfds: &mut Vec<PollFd>, files: &Vec<Option<Readiness>>) -> (r: usize)
    requires
        files@.len() == old(pollfds)@.len(),
    ensures
        final(pollfds)@ == scanned(old(pollfds)@, files@),
        r == met_count(final(pollfds)@),
{
    let ghost before = pollfds@;
    let ghost after = scanned(pollfds@, files@);
    let mut ready: usize = 0;
    let mut i: usize = 0;
    while i < pollfds.len()
        invariant
            i <= pollfds@.len(),
            pollfds@.len() == before.len(),
            files@.len() == before.len(),
            after == scanned(before, files@),
            forall|j: int| 0 <= j < i ==> pollfds@[j] == after[j],
            forall|j: int| i <= j < before.len() ==> pollfds@[j] == before[j],
            ready == met_count(after.take(i as int)),
            ready <= i,
        decreases pollfds@.len() - i,
    {
        let mut p = pollfds[i];
        let mut met: i16 = 0;
        if p.fd >= 0 {
            match files[i] {
                None => {
                    met = POLLNVAL;
                },
                Some(f) => {
                    let a: i16 = if p.events & POLLIN != 0 && f.readable && f.read_ready {
                        POLLIN
                    } else {
                        0
                    };
                    let b: i16 = if p.events & POLLOUT != 0 && f.writable && f.write_ready {
                        POLLOUT
                    } else {
                        0
                    };
                    met = a | b;
                },
            }
        }
        p.revents = met;
        pollfds.set(i, p);
        proof {
            assert(after.take(i + 1).drop_last() =~= after.take(i as int));
            assert(after.take(i + 1).last() == after[i as int]);
            assert(p == after[i as int]);
        }
        if met != 0 {
            ready = ready + 1;
        }
        i = i + 1;
    }
    proof {
        assert(after.take(i as int) =~= after);
        assert(pollfds@ =~= after);
    }
    ready
}

/// How a wait goes on.
#[derive(Debug)]
pub enum PollStep {
    /// The call returns this, and hands the answer to user memory if it is no
    /// error.
    Return(SysResult<usize>),
    /// Only a signal can end the wait: the thread sleeps.
    Sleep,
    /// The thread gives way and looks again.
    Yield,
}

/// What follows a look at the files: a met event comes first, then the limit of
/// the wait, then a signal.
pub open spec fn poll_step(
    ready: usize,
    timeout_us: Option<usize>,
    elapsed_us: usize,
    interrupted: bool,
    only_signals: bool,
) -> PollStep {
    if ready > 0 {
        PollStep::Return(Ok(ready))
    } else if timeout_us is Some && (timeout_us->0 == 0 || elapsed_us >= timeout_us->0) {
        PollStep::Return(Ok(0))
    } else if interrupted {
        PollStep::Return(Err(Errno::EINTR))
    } else if timeout_us is None && only_signals {
        PollStep::Sleep
    } else {
        PollStep::Yield
    }
}

impl PollWait {
    /// Decides what follows a look at the files. `only_signals` holds of a poll
    /// without descriptors.
    pub fn next(&self, ready: usize, start_us: usize, now_us: usize, interrupted: bool, only_signals: bool) -> (r:
        PollStep)
        ensures
            r == poll_step(
                ready,
                self.timeout_us,
                if now_us < start_us {
                    0
                } else {
                    (now_us - start_us) as usize
                },
                interrupted,
                only_signals,
            ),
    {
        if ready > 0 {
            return PollStep::Return(Ok(ready));
        }
        let elapsed: usize = if now_us < start_us {
            0
        } else {
            now_us - start_us
        };
        match self.timeout_us {
            Some(t) => {
                if t == 0 || elapsed >= t {
                    return PollStep::Return(Ok(0));
                }
            },
            None => {},
        }
        if interrupted {
            return PollStep::Return(Err(Errno::EINTR));
        }
        if self.timeout_us.is_none() && only_signals {
            return PollStep::Sleep;
        }
        PollStep::Yield
    }
}

/// What a thread does that was to sleep: `blocked` tells whether it could be
/// marked as sleeping, `woken` whether it was woken since.
#[derive(Debug, Clone, Copy, PartialEq, Eq, Structural)]
pub enum SleepStep {
    /// It stays on the processor.
    Stay,
    /// Another thread runs.
    Switch,
    /// It gives way but is not marked as sleeping.
    Yield,
}

/// Decides how a thread goes to sleep without missing a wakeup.
pub fn ppoll_wait_interruptible(blocked: bool, woken: bool) -> (r: SleepStep)
    ensures
        r == (if !blocked {
            SleepStep::Yield
        } else if woken {
            SleepStep::Stay
        } else {
            SleepStep::Switch
        }),
{
    if !blocked {
        return SleepStep::Yield;
    }
    if woken {
        SleepStep::Stay
    } else {
        SleepStep::Switch
    }
}

/// A descriptor of a select: whether it is open the right way, and ready.
#[derive(Debug, Clone, Copy, PartialEq, Eq, Structural)]
pub struct Watched {
    pub fd: usize,
    pub able: bool,
    pub ready: bool,
}

/// The descriptors that are ready, in order.
pub open spec fn ready_fds(ws: Seq<Watched>) -> Seq<usize>
    decreases ws.len(),
{
    if ws.len() == 0 {
        Seq::empty()
    } else {
        let rest = ready_fds(ws.drop_last());
        if ws.last().able && ws.last().ready {
            rest.push(ws.last().fd)
        } else {
            rest
        }
    }
}

fn collect_ready(ws: &Vec<Watched>) -> (r: Vec<usize>)
    ensures
        r@ == ready_fds(ws@),
        r@.len() <= ws@.len(),
{
    let mut out: Vec<usize> = Vec::new();
    let mut i: usize = 0;
    while i < ws.len()
        invariant
            i <= ws@.len(),
            out@ == ready_fds(ws@.take(i as int)),
            out@.len() <= i,
        decreases ws@.len() - i,
    {
        proof {
            assert(ws@.take(i + 1).drop_last() =~= ws@.take(i as int));
            assert(ws@.take(i + 1).last() == ws@[i as int]);
        }
        if ws[i].able && ws[i].ready {
            out.push(ws[i].fd);
        }
        i = i + 1;
    }
    proof {
        assert(ws@.take(i as int) =~= ws@);
    }
    out
}

/// The sets that a select hands back; a set that was not given is not.
#[derive(Debug)]
pub struct SelectSets {
    pub read: Option<Vec<usize>>,
    pub write: Option<Vec<usize>>,
    pub except: Option<Vec<usize>>,
}

/// How many descriptors of a set are ready.
pub open spec fn ready_in(ws: Option<Vec<Watched>>) -> nat {
    match ws {
        Some(v) => ready_fds(v@).len(),
        None => 0,
    }
}

/// The sets that a look at the files gives.
pub open spec fn sets_of(
    read: Option<Vec<Watched>>,
    write: Option<Vec<Watched>>,
    except: bool,
    sets: SelectSets,
) -> bool {
    &&& match read {
        Some(v) => sets.read is Some && sets.read->0@ == ready_fds(v@),
        None => sets.read is None,
    }
    &&& match write {
        Some(v) => sets.write is Some && sets.write->0@ == ready_fds(v@),
        None => sets.write is None,
    }
    &&& if except {
        sets.except is Some && sets.except->0@.len() == 0
    } else {
        sets.except is None
    }
}

/// Looks at the files of a select. Nothing ever happens to a file that the third
/// set could report: it is handed back empty.
fn pselect_scan(read: &Option<Vec<Watched>>, write: &Option<Vec<Watched>>, except: bool) -> (r: (
    SelectSets,
    usize,
))
    requires
        ready_in(*read) + ready_in(*write) <= usize::MAX,
    ensures
        r.1 == ready_in(*read) + ready_in(*write),
        sets_of(*read, *write, except, r.0),
{
    let mut count: usize = 0;
    let a = match read {
        Some(v) => {
            let s = collect_ready(v);
            count = count + s.len();
            Some(s)
        },
        None => None,
    };
    let b = match write {
        Some(v) => {
            let s = collect_ready(v);
            count = count + s.len();
            Some(s)
        },
        None => None,
    };
    let c: Option<Vec<usize>> = if except {
        Some(Vec::new())
    } else {
        None
    };
    (SelectSets { read: a, write: b, except: c }, count)
}

/// How many descriptors a set holds.
pub open spec fn set_size(s: Option<Vec<usize>>) -> nat {
    match s {
        Some(v) => v@.len(),
        None => 0,
    }
}

/// Where a select stands.
#[derive(Debug, Clone, Copy, PartialEq, Eq)]
pub enum SelectPhase {
    /// The sets are read from user memory.
    Sets,
    /// The files are looked at.
    Look,
    /// The sets that were given are written back; the call then returns this.
    Write { count: usize, read: bool, write: bool, except: bool },
    /// The thread gave way.
    Pause,
    /// The call has returned.
    Over,
}

/// A select.
#[derive(Debug, Clone, Copy)]
pub struct PselectCall {
    pub wait: PollWait,
    /// The mask before the call.
    pub origin: SigSet,
    pub start_us: usize,
    pub phase: SelectPhase,
}

/// What a select does next.
#[derive(Debug)]
pub enum SelectAction {
    /// Look at the files of the sets.
    Look,
    /// Write the sets back, those that were given, in order; `count` is returned
    /// then.
    WriteBack { sets: SelectSets, count: usize },
    /// Let other threads run.
    Yield,
    /// The call returns.
    Return(SysResult<usize>),
}

/// What came of it.
#[derive(Debug)]
pub enum SelectEvent {
    /// The sets could be read, and the time at which that was tried.
    Sets { found: SysResult<()>, now_us: usize },
    /// The files of each given set, and whether a signal has come.
    Looked {
        read: Option<Vec<Watched>>,
        write: Option<Vec<Watched>>,
        except: bool,
        now_us: usize,
        signal: bool,
    },
    /// The sets could be written back.
    Written { reads: SysResult<()>, writes: SysResult<()>, excepts: SysResult<()> },
    /// The thread runs again, and whether a signal has come.
    Resumed { signal: bool },
}

/// The limit of a wait is reached.
pub open spec fn time_is_up(wait: PollWait, elapsed_us: usize) -> bool {
    wait.timeout_us matches Some(d) && (d == 0 || elapsed_us >= d)
}

/// Time that has passed.
pub open spec fn passed_us(start_us: usize, now_us: usize) -> usize {
    if now_us < start_us {
        0
    } else {
        (now_us - start_us) as usize
    }
}

/// The select ends: the thread is released. A signal that ended it is taken note
/// of.
pub open spec fn select_ends(
    c: PselectCall,
    t: WaitState,
    result: SysResult<usize>,
    signal: bool,
    c2: PselectCall,
    t2: WaitState,
    a: SelectAction,
) -> bool {
    &&& c2 == (PselectCall { phase: SelectPhase::Over, ..c })
    &&& t2 == (WaitState {
        interrupted: t.interrupted && !signal,
        ..released(t, c.wait, c.origin)
    })
    &&& a == SelectAction::Return(result)
}

/// What follows an event.
pub open spec fn select_step(
    c: PselectCall,
    t: WaitState,
    e: SelectEvent,
    c2: PselectCall,
    t2: WaitState,
    a: SelectAction,
) -> bool {
    match c.phase {
        SelectPhase::Sets => match e->Sets_found {
            Err(x) => select_ends(c, t, Err(x), false, c2, t2, a),
            Ok(_) => {
                &&& c2 == (PselectCall { start_us: e->Sets_now_us, phase: SelectPhase::Look, ..c })
                &&& t2 == t
                &&& a == SelectAction::Look
            },
        },
        SelectPhase::Look => {
            let n = (ready_in(e->Looked_read) + ready_in(e->Looked_write)) as usize;
            let elapsed = passed_us(c.start_us, e->Looked_now_us);
            match poll_step(n, c.wait.timeout_us, elapsed, e->Looked_signal, false) {
                PollStep::Return(Ok(m)) => {
                    &&& c2 == (PselectCall {
                        phase: SelectPhase::Write {
                            count: m,
                            read: e->Looked_read is Some,
                            write: e->Looked_write is Some,
                            except: e->Looked_except,
                        },
                        ..c
                    })
                    &&& t2 == t
                    &&& a matches SelectAction::WriteBack { sets, count } && count == m && sets_of(
                        e->Looked_read,
                        e->Looked_write,
                        e->Looked_except,
                        sets,
                    )
                },
                PollStep::Return(Err(x)) => select_ends(c, t, Err(x), true, c2, t2, a),
                _ => {
                    &&& c2 == (PselectCall { phase: SelectPhase::Pause, ..c })
                    &&& t2 == (WaitState { interruptible: true, ..t })
                    &&& a == SelectAction::Yield
                },
            }
        },
        SelectPhase::Write { count, read, write, except } => select_ends(
            c,
            t,
            if read && e->Written_reads is Err {
                err(e->Written_reads->Err_0)
            } else if write && e->Written_writes is Err {
                err(e->Written_writes->Err_0)
            } else if except && e->Written_excepts is Err {
                err(e->Written_excepts->Err_0)
            } else {
                ok(count)
            },
            false,
            c2,
            t2,
            a,
        ),
        SelectPhase::Pause => if e->Resumed_signal {
            select_ends(c, t, Err(Errno::EINTR), true, c2, t2, a)
        } else {
            &&& c2 == (PselectCall { phase: SelectPhase::Look, ..c })
            &&& t2 == (WaitState { interruptible: false, ..t })
            &&& a == SelectAction::Look
        },
        SelectPhase::Over => false,
    }
}

/// The event can come of what was to be done.
pub open spec fn select_event_fits(c: PselectCall, e: SelectEvent) -> bool {
    match c.phase {
        SelectPhase::Sets => e is Sets,
        SelectPhase::Look => e is Looked && ready_in(e->Looked_read) + ready_in(e->Looked_write)
            <= usize::MAX,
        SelectPhase::Write { .. } => e is Written,
        SelectPhase::Pause => e is Resumed,
        SelectPhase::Over => false,
    }
}

/// Starts a select: the sets are to be read next. A call that is refused leaves
/// the thread as it is.
pub fn sys_pselect6(
    t: &mut WaitState,
    timeout: UserIn<TimeSpec>,
    sigmask: UserIn<Pselect6Sigmask>,
    set: UserIn<SigSet>,
) -> (r: SysResult<PselectCall>)
    ensures
        wait_of(
            timeout_of(timeout),
            mask_given(sigmask, set),
            match r {
                Ok(c) => Ok(c.wait),
                Err(e) => Err(e),
            },
        ),
        match r {
            Err(_) => *final(t) == *old(t),
            Ok(c) => {
                &&& c.origin == old(t).mask
                &&& c.phase == SelectPhase::Sets
                &&& *final(t) == waiting_under(*old(t), c.wait)
            },
        },
{
    let timeout_us: Option<usize> = match pselect_timeout_us(timeout) {
        Ok(t) => t,
        Err(e) => {
            return Err(e);
        },
    };
    let mask = match pselect_sigmask(sigmask, set) {
        Err(e) => {
            return Err(e);
        },
        Ok(mask) => mask,
    };
    let wait = PollWait { mask, timeout_us };
    let origin = wait.enter(t);
    Ok(PselectCall { wait, origin, start_us: 0, phase: SelectPhase::Sets })
}

impl PselectCall {
    fn end(&mut self, t: &mut WaitState, result: SysResult<usize>, signal: bool) -> (r: SelectAction)
        ensures
            select_ends(*old(self), *old(t), result, signal, *final(self), *final(t), r),
    {
        self.phase = SelectPhase::Over;
        self.wait.leave(t, self.origin);
        if signal {
            t.interrupted = false;
        }
        SelectAction::Return(result)
    }

    /// Takes note of what came of the last thing that was done, and tells the
    /// next.
    pub fn step(&mut self, t: &mut WaitState, e: SelectEvent) -> (r: SelectAction)
        requires
            select_event_fits(*old(self), e),
        ensures
            select_step(*old(self), *old(t), e, *final(self), *final(t), r),
    {
        match e {
            SelectEvent::Sets { found, now_us } => match found {
                Err(x) => self.end(t, Err(x), false),
                Ok(_) => {
                    self.start_us = now_us;
                    self.phase = SelectPhase::Look;
                    SelectAction::Look
                },
            },
            SelectEvent::Looked { read, write, except, now_us, signal } => {
                let (sets, ready) = pselect_scan(&read, &write, except);
                match self.wait.next(ready, self.start_us, now_us, signal, false) {
                    PollStep::Return(Ok(count)) => {
                        self.phase = SelectPhase::Write {
                            count,
                            read: read.is_some(),
                            write: write.is_some(),
                            except,
                        };
                        SelectAction::WriteBack { sets, count }
                    },
                    PollStep::Return(Err(x)) => self.end(t, Err(x), true),
                    _ => {
                        t.interruptible = true;
                        self.phase = SelectPhase::Pause;
                        SelectAction::Yield
                    },
                }
            },
            SelectEvent::Written { reads, writes, excepts } => {
                let result: SysResult<usize> = match self.phase {
                    SelectPhase::Write { count, read, write, except } => {
                        let first = first_failure(read, reads);
                        let second = first_failure(write, writes);
                        let third = first_failure(except, excepts);
                        match first {
                            Some(e) => Err(e),
                            None => match second {
                                Some(e) => Err(e),
                                None => match third {
                                    Some(e) => Err(e),
                                    None => Ok(count),
                                },
                            },
                        }
                    },
                    _ => Ok(0),
                };
                self.end(t, result, false)
            },
            SelectEvent::Resumed { signal } => {
                if signal {
                    return self.end(t, Err(Errno::EINTR), true);
                }
                t.interruptible = false;
                self.phase = SelectPhase::Look;
                SelectAction::Look
            },
        }
    }
}

/// Why a set that was given could not be written.
fn first_failure(given: bool, written: SysResult<()>) -> (r: Option<Errno>)
    ensures
        r == (if given && written is Err {
            Some(written->Err_0)
        } else {
            None
        }),
{
    match written {
        Err(e) => if given {
            Some(e)
        } else {
            None
        },
        Ok(_) => None,
    }
}

/// A select from its start: its states, what was to be done, what came of it,
/// and the thread before and after each step.
pub struct SelectRun {
    pub calls: Seq<PselectCall>,
    pub actions: Seq<SelectAction>,
    pub events: Seq<SelectEvent>,
    pub before: Seq<WaitState>,
    pub after: Seq<WaitState>,
}

impl SelectRun {
    /// Step `k` of the run.
    pub open spec fn step_at(self, k: int) -> bool {
        &&& select_event_fits(self.calls[k], self.events[k])
        &&& select_step(
            self.calls[k],
            self.before[k],
            self.events[k],
            self.calls[k + 1],
            self.after[k],
            self.actions[k],
        )
        &&& k + 1 < self.before.len() ==> undisturbed(self.after[k], self.before[k + 1])
    }

    /// The run starts as the call does, when the thread had the mask `origin`, and
    /// each step follows from the last.
    pub open spec fn valid(self) -> bool {
        &&& self.events.len() > 0
        &&& self.calls.len() == self.events.len() + 1
        &&& self.actions.len() == self.events.len()
        &&& self.before.len() == self.events.len()
        &&& self.after.len() == self.events.len()
        &&& self.calls[0].phase == SelectPhase::Sets
        &&& self.before[0].mask == mask_during(self.calls[0].wait, self.calls[0].origin)
        &&& forall|k: int| 0 <= k < self.events.len() ==> #[trigger] self.step_at(k)
    }
}

impl SelectRun {
    /// Step `k` found `n` descriptors ready and has them written back; none are only
    /// if the time is up.
    pub open spec fn wrote_back(self, k: int, n: usize) -> bool {
        let e = self.events[k];
        &&& e is Looked
        &&& self.actions[k] matches SelectAction::WriteBack { sets, count } && count == n && n
            == set_size(sets.read) + set_size(sets.write) && set_size(sets.except) == 0 && sets_of(
            e->Looked_read,
            e->Looked_write,
            e->Looked_except,
            sets,
        )
        &&& n == 0 ==> time_is_up(
            self.calls[0].wait,
            passed_us(self.calls[k].start_us, e->Looked_now_us),
        )
    }
}

proof fn select_is_on_the_way(r: SelectRun, k: int)
    requires
        r.valid(),
        0 <= k < r.events.len(),
    ensures
        r.calls[k].wait == r.calls[0].wait,
        r.calls[k].origin == r.calls[0].origin,
        r.before[k].mask == mask_during(r.calls[0].wait, r.calls[0].origin),
        r.calls[k].phase matches SelectPhase::Write { count, .. } ==> k > 0 && r.wrote_back(k - 1, count),
    decreases k,
{
    if k > 0 {
        assert(r.step_at(k - 1));
        assert(r.step_at(k));
        select_is_on_the_way(r, k - 1);
    }
}

/// However a select ends, the thread has its former mask again and waits no more.
/// If it returns a number, that is the number of descriptors in the sets that were
/// written back, which are those that the last look found ready; zero comes only
/// when the time is up.
pub proof fn select_gives_back_mask_and_count(r: SelectRun, result: SysResult<usize>)
    requires
        r.valid(),
        r.actions.last() == SelectAction::Return(result),
    ensures
        r.after.last().mask == r.calls[0].origin,
        !r.after.last().interruptible,
        r.events.last() is Looked || r.events.last() is Resumed ==> result == err(Errno::EINTR)
            && !r.after.last().interrupted,
        result matches Ok(n) ==> r.actions.len() >= 2 && r.wrote_back(r.actions.len() - 2, n),
{
    let k = r.events.len() - 1;
    assert(r.step_at(k));
    select_is_on_the_way(r, k);
}

/// Of different descriptors each is reported once.
pub proof fn ready_descriptors_are_distinct(ws: Seq<Watched>)
    requires
        forall|i: int, j: int| 0 <= i < j < ws.len() ==> (#[trigger] ws[i]).fd != (#[trigger] ws[j]).fd,
    ensures
        ready_fds(ws).no_duplicates(),
        forall|fd: usize| #[trigger]
            ready_fds(ws).contains(fd) ==> exists|i: int|
                0 <= i < ws.len() && (#[trigger] ws[i]).fd == fd && ws[i].able && ws[i].ready,
    decreases ws.len(),
{
    if ws.len() > 0 {
        let rest = ws.drop_last();
        ready_descriptors_are_distinct(rest);
        let l = ws.len() - 1;
        let before = ready_fds(rest);
        assert forall|fd: usize| #[trigger] ready_fds(ws).contains(fd) implies exists|i: int|
            0 <= i < ws.len() && (#[trigger] ws[i]).fd == fd && ws[i].able && ws[i].ready by {
            if before.contains(fd) {
                let i = choose|i: int|
                    0 <= i < rest.len() && (#[trigger] rest[i]).fd == fd && rest[i].able
                        && rest[i].ready;
                assert(ws[i] == rest[i]);
            } else {
                let q = choose|q: int| 0 <= q < ready_fds(ws).len() && ready_fds(ws)[q] == fd;
                if q < before.len() {
                    assert(before[q] == fd);
                }
                assert(ws[l].fd == fd);
            }
        }
        if before.contains(ws[l].fd) {
            let i = choose|i: int|
                0 <= i < rest.len() && (#[trigger] rest[i]).fd == ws[l].fd && rest[i].able
                    && rest[i].ready;
            assert(ws[i].fd == ws[l].fd);
        }
    }
}

/// Where a poll stands.
#[derive(Debug, Clone, Copy, PartialEq, Eq)]
pub enum PollPhase {
    /// The descriptors are read from user memory.
    Fds,
    /// The files are looked at.
    Look,
    /// The descriptors are written back; the call then returns this.
    Write(usize),
    /// The thread sleeps or gave way.
    Pause,
    /// The call has returned.
    Over,
}

/// A poll.
#[derive(Debug)]
pub struct PpollCall {
    pub wait: PollWait,
    /// The mask before the call.
    pub origin: SigSet,
    pub nfds: usize,
    pub fds: Vec<PollFd>,
    pub start_us: usize,
    pub phase: PollPhase,
}

/// What a poll does next.
#[derive(Debug, Clone, Copy, PartialEq, Eq)]
pub enum PollAction {
    /// Look at the files behind the descriptors.
    Look,
    /// Write the descriptors back.
    WriteBack,
    /// Sleep: only a signal can end the wait.
    Sleep,
    /// Let other threads run.
    Yield,
    /// The call returns.
    Return(SysResult<usize>),
}

/// What came of it.
#[derive(Debug)]
pub enum PollEvent {
    /// The descriptors, and the time at which they were read.
    Fds { fds: UserIn<Vec<PollFd>>, now_us: usize },
    /// What is behind each descriptor, and whether a signal has come.
    Looked { files: Vec<Option<Readiness>>, now_us: usize, signal: bool },
    /// The descriptors could be written back.
    Written(SysResult<()>),
    /// The thread runs again, and whether a signal has come.
    Resumed { signal: bool },
}

/// Everything of a poll but its descriptors and where it stands is the same.
pub open spec fn same_poll(c: PpollCall, c2: PpollCall) -> bool {
    c2.wait == c.wait && c2.origin == c.origin && c2.nfds == c.nfds
}

/// The poll ends: the thread is released. A signal that ended it is taken note
/// of.
pub open spec fn poll_ends(
    c: PpollCall,
    t: WaitState,
    result: SysResult<usize>,
    signal: bool,
    c2: PpollCall,
    t2: WaitState,
    a: PollAction,
) -> bool {
    &&& c2.phase == PollPhase::Over
    &&& t2 == (WaitState {
        interrupted: t.interrupted && !signal,
        ..released(t, c.wait, c.origin)
    })
    &&& a == PollAction::Return(result)
}

/// What follows an event.
pub open spec fn ppoll_step(
    c: PpollCall,
    t: WaitState,
    e: PollEvent,
    c2: PpollCall,
    t2: WaitState,
    a: PollAction,
) -> bool {
    &&& same_poll(c, c2)
    &&& match c.phase {
        PollPhase::Fds => if c.nfds > 0 && !(e->fds is Value) {
            poll_ends(c, t, Err(Errno::EFAULT), false, c2, t2, a)
        } else {
            &&& c2.fds@ == (if c.nfds == 0 {
                Seq::empty()
            } else {
                e->fds->Value_0@
            })
            &&& c2.start_us == e->Fds_now_us
            &&& c2.phase == PollPhase::Look
            &&& t2 == t
            &&& a == PollAction::Look
        },
        PollPhase::Look => {
            let n = met_count(scanned(c.fds@, e->files@)) as usize;
            let elapsed = passed_us(c.start_us, e->Looked_now_us);
            &&& c2.fds@ == scanned(c.fds@, e->files@)
            &&& c2.start_us == c.start_us
            &&& match poll_step(n, c.wait.timeout_us, elapsed, e->Looked_signal, c.nfds == 0) {
                PollStep::Return(Ok(m)) => if c.fds@.len() == 0 {
                    poll_ends(c, t, Ok(m), false, c2, t2, a)
                } else {
                    c2.phase == PollPhase::Write(m) && t2 == t && a == PollAction::WriteBack
                },
                PollStep::Return(Err(x)) => poll_ends(c, t, Err(x), true, c2, t2, a),
                PollStep::Sleep => {
                    &&& c2.phase == PollPhase::Pause
                    &&& t2 == (WaitState { interruptible: true, ..t })
                    &&& a == PollAction::Sleep
                },
                PollStep::Yield => {
                    &&& c2.phase == PollPhase::Pause
                    &&& t2 == (WaitState { interruptible: true, ..t })
                    &&& a == PollAction::Yield
                },
            }
        },
        PollPhase::Write(n) => poll_ends(
            c,
            t,
            match e->Written_0 {
                Ok(_) => Ok(n),
                Err(x) => Err(x),
            },
            false,
            c2,
            t2,
            a,
        ) && c2.fds@ == c.fds@,
        PollPhase::Pause => if e->Resumed_signal {
            poll_ends(c, t, Err(Errno::EINTR), true, c2, t2, a)
        } else {
            &&& c2.fds@ == c.fds@
            &&& c2.start_us == c.start_us
            &&& c2.phase == PollPhase::Look
            &&& t2 == t
            &&& a == PollAction::Look
        },
        PollPhase::Over => false,
    }
}

/// The event can come of what was to be done.
pub open spec fn poll_event_fits(c: PpollCall, e: PollEvent) -> bool {
    match c.phase {
        PollPhase::Fds => e matches PollEvent::Fds { fds, now_us: _ } && (fds matches UserIn::Value(v)
            ==> v@.len() == c.nfds),
        PollPhase::Look => e matches PollEvent::Looked { files, .. } && files@.len() == c.fds@.len(),
        PollPhase::Write(_) => e is Written,
        PollPhase::Pause => e is Resumed,
        PollPhase::Over => false,
    }
}

/// Starts a poll of `nfds` descriptors, which are to be read next. A call that is
/// refused leaves the thread as it is.
pub fn sys_ppoll(
    t: &mut WaitState,
    nfds: usize,
    timeout: UserIn<TimeSpec>,
    sigmask: UserIn<SigSet>,
    sigsetsize: usize,
) -> (r: SysResult<PpollCall>)
    ensures
        if nfds > PPOLL_MAXFDS {
            r is Err && r->Err_0 == Errno::EINVAL
        } else {
            wait_of(
                timeout_of(timeout),
                plain_mask_given(sigmask, sigsetsize),
                match r {
                    Ok(c) => Ok(c.wait),
                    Err(e) => Err(e),
                },
            )
        },
        match r {
            Err(_) => *final(t) == *old(t),
            Ok(c) => {
                &&& c.origin == old(t).mask
                &&& c.nfds == nfds
                &&& c.fds@.len() == 0
                &&& c.phase == PollPhase::Fds
                &&& *final(t) == waiting_under(*old(t), c.wait)
            },
        },
{
    if nfds > PPOLL_MAXFDS {
        return Err(Errno::EINVAL);
    }
    let timeout_us: Option<usize> = match pselect_timeout_us(timeout) {
        Ok(t) => t,
        Err(e) => {
            return Err(e);
        },
    };
    let mask = match ppoll_sigmask(sigmask, sigsetsize) {
        Err(e) => {
            return Err(e);
        },
        Ok(mask) => mask,
    };
    let wait = PollWait { mask, timeout_us };
    let origin = wait.enter(t);
    Ok(
        PpollCall {
            wait,
            origin,
            nfds,
            fds: Vec::new(),
            start_us: 0,
            phase: PollPhase::Fds,
        },
    )
}

impl PpollCall {
    fn end(&mut self, t: &mut WaitState, result: SysResult<usize>, signal: bool) -> (r: PollAction)
        ensures
            poll_ends(*old(self), *old(t), result, signal, *final(self), *final(t), r),
            same_poll(*old(self), *final(self)),
            final(self).fds == old(self).fds,
            final(self).start_us == old(self).start_us,
    {
        self.phase = PollPhase::Over;
        self.wait.leave(t, self.origin);
        if signal {
            t.interrupted = false;
        }
        PollAction::Return(result)
    }

    /// Takes note of what came of the last thing that was done, and tells the
    /// next.
    pub fn step(&mut self, t: &mut WaitState, e: PollEvent) -> (r: PollAction)
        requires
            poll_event_fits(*old(self), e),
        ensures
            ppoll_step(*old(self), *old(t), e, *final(self), *final(t), r),
    {
        match e {
            PollEvent::Fds { fds, now_us } => {
                if self.nfds == 0 {
                    self.fds = Vec::new();
                } else {
                    match fds.read() {
                        Ok(v) => {
                            self.fds = v;
                        },
                        Err(x) => {
                            return self.end(t, Err(x), false);
                        },
                    }
                }
                self.start_us = now_us;
                self.phase = PollPhase::Look;
                PollAction::Look
            },
            PollEvent::Looked { files, now_us, signal } => {
                let none = self.fds.len() == 0;
                let ready: usize = ppoll_scan_ready(&mut self.fds, &files);
                let only_signals = self.nfds == 0;
                match self.wait.next(ready, self.start_us, now_us, signal, only_signals) {
                    PollStep::Return(Ok(n)) => {
                        if none {
                            return self.end(t, Ok(n), false);
                        }
                        self.phase = PollPhase::Write(n);
                        PollAction::WriteBack
                    },
                    PollStep::Return(Err(x)) => self.end(t, Err(x), true),
                    PollStep::Sleep => {
                        t.interruptible = true;
                        self.phase = PollPhase::Pause;
                        PollAction::Sleep
                    },
                    PollStep::Yield => {
                        t.interruptible = true;
                        self.phase = PollPhase::Pause;
                        PollAction::Yield
                    },
                }
            },
            PollEvent::Written(written) => {
                let n: usize = match self.phase {
                    PollPhase::Write(n) => n,
                    _ => 0,
                };
                match written {
                    Ok(_) => self.end(t, Ok(n), false),
                    Err(x) => self.end(t, Err(x), false),
                }
            },
            PollEvent::Resumed { signal } => {
                if signal {
                    return self.end(t, Err(Errno::EINTR), true);
                }
                self.phase = PollPhase::Look;
                PollAction::Look
            },
        }
    }
}

/// A poll from its start: its states, what was to be done, what came of it, and
/// the thread before and after each step.
pub struct PollRun {
    pub calls: Seq<PpollCall>,
    pub actions: Seq<PollAction>,
    pub events: Seq<PollEvent>,
    pub before: Seq<WaitState>,
    pub after: Seq<WaitState>,
}

impl PollRun {
    /// Step `k` of the run.
    pub open spec fn step_at(self, k: int) -> bool {
        &&& poll_event_fits(self.calls[k], self.events[k])
        &&& ppoll_step(
            self.calls[k],
            self.before[k],
            self.events[k],
            self.calls[k + 1],
            self.after[k],
            self.actions[k],
        )
        &&& k + 1 < self.before.len() ==> undisturbed(self.after[k], self.before[k + 1])
    }

    /// The run starts as the call does, when the thread had the mask `origin`, and
    /// each step follows from the last.
    pub open spec fn valid(self) -> bool {
        &&& self.events.len() > 0
        &&& self.calls.len() == self.events.len() + 1
        &&& self.actions.len() == self.events.len()
        &&& self.before.len() == self.events.len()
        &&& self.after.len() == self.events.len()
        &&& self.calls[0].phase == PollPhase::Fds
        &&& self.calls[0].nfds <= PPOLL_MAXFDS
        &&& self.before[0].mask == mask_during(self.calls[0].wait, self.calls[0].origin)
        &&& forall|k: int| 0 <= k < self.events.len() ==> #[trigger] self.step_at(k)
    }
}

impl PollRun {
    /// Step `k` looked at the files and found that `n` descriptors met an event; none
    /// did only if the time is up.
    pub open spec fn found(self, k: int, n: usize) -> bool {
        let e = self.events[k];
        &&& 0 <= k
        &&& e is Looked
        &&& self.calls[k + 1].fds@ == scanned(self.calls[k].fds@, e->files@)
        &&& n == met_count(self.calls[k + 1].fds@)
        &&& n == 0 ==> time_is_up(
            self.calls[0].wait,
            passed_us(self.calls[k].start_us, e->Looked_now_us),
        )
    }
}

proof fn met_count_bound(ps: Seq<PollFd>)
    ensures
        met_count(ps) <= ps.len(),
    decreases ps.len(),
{
    if ps.len() > 0 {
        met_count_bound(ps.drop_last());
    }
}

proof fn poll_is_on_the_way(r: PollRun, k: int)
    requires
        r.valid(),
        0 <= k < r.events.len(),
    ensures
        same_poll(r.calls[0], r.calls[k]),
        r.before[k].mask == mask_during(r.calls[0].wait, r.calls[0].origin),
        !(r.calls[k].phase is Fds) ==> r.calls[k].fds@.len() == r.calls[0].nfds,
        r.calls[k].phase matches PollPhase::Write(n) ==> k > 0 && r.found(k - 1, n),
    decreases k,
{
    if k > 0 {
        assert(r.step_at(k - 1));
        assert(r.step_at(k));
        poll_is_on_the_way(r, k - 1);
        if r.calls[k].phase is Write {
            met_count_bound(r.calls[k].fds@);
        }
    }
}

/// However a poll ends, the thread has its former mask again and waits no more.
/// If it returns a number, that is the number of descriptors that met an event at
/// the last look; zero comes only when the time is up.
pub proof fn poll_gives_back_mask_and_count(r: PollRun, result: SysResult<usize>)
    requires
        r.valid(),
        r.actions.last() == PollAction::Return(result),
    ensures
        r.after.last().mask == r.calls[0].origin,
        !r.after.last().interruptible,
        r.events.last() is Resumed ==> result == err(Errno::EINTR) && !r.after.last().interrupted,
        result matches Ok(n) ==> exists|j: int|
            r.calls.len() - 3 <= j < r.events.len() && #[trigger] r.found(j, n),
{
    let k = r.events.len() - 1;
    assert(r.step_at(k));
    poll_is_on_the_way(r, k);
    met_count_bound(r.calls.last().fds@);
    if result is Ok {
        if r.calls[k].phase is Write {
            assert(r.found(k - 1, result->Ok_0));
        } else {
            assert(r.found(k, result->Ok_0));
        }
    }
}

/// A poll reports only events that were asked for, apart from closed
/// descriptors.
pub proof fn only_wanted_events_are_met(p: PollFd, f: Readiness)
    ensures
        met_events(p, Some(f)) & !p.events == 0,
{
    let e = p.events;
    let r = met_events(p, Some(f));
    assert((0i16 | 0i16) == 0 && (1i16 | 0i16) == 1 && (0i16 | 4i16) == 4 && 0i16 & !e == 0)
        by (bit_vector);
    assert((e & 1 != 0 ==> 1i16 & !e == 0) && (e & 4 != 0 ==> 4i16 & !e == 0) && (e & 1 != 0 && e
        & 4 != 0 ==> (1i16 | 4i16) & !e == 0)) by (bit_vector);
}

/// A poll without limit that finds nothing never returns zero.
pub proof fn unlimited_waits_return_only_with_a_reason(
    ready: usize,
    elapsed_us: usize,
    interrupted: bool,
    only_signals: bool,
)
    ensures
        poll_step(ready, None, elapsed_us, interrupted, only_signals) matches PollStep::Return(r)
            ==> r == ok(ready) && ready > 0 || r == err(Errno::EINTR) && interrupted,
{
}

/// What is reported of a descriptor, bit by bit: input exactly if it was asked for
/// and can be had at once, output exactly if it was asked for and is possible at
/// once, each whatever the other is; closed descriptors are reported as such, and
/// negative ones not at all.
pub proof fn events_are_met_independently(p: PollFd, f: Readiness)
    ensures
        ({
            let r = met_events(p, Some(f));
            &&& p.fd >= 0 ==> {
                &&& (r & 1 != 0) == (p.events & 1 != 0 && f.readable && f.read_ready)
                &&& (r & 4 != 0) == (p.events & 4 != 0 && f.writable && f.write_ready)
                &&& r & !5 == 0
            }
            &&& p.fd < 0 ==> r == 0
        }),
        p.fd >= 0 ==> met_events(p, None) == 0x20,
        p.fd < 0 ==> met_events(p, None) == 0,
{
    assert((1i16 | 4i16) & 1 != 0 && (1i16 | 4i16) & 4 != 0 && (1i16 | 0i16) & 1 != 0 && (1i16
        | 0i16) & 4 == 0 && (0i16 | 4i16) & 1 == 0 && (0i16 | 4i16) & 4 != 0 && (0i16 | 0i16) == 0
        && 0i16 & 1 == 0 && 0i16 & 4 == 0 && (1i16 | 4i16) & !5 == 0 && (1i16 | 0i16) & !5 == 0
        && (0i16 | 4i16) & !5 == 0 && 0i16 & !5 == 0) by (bit_vector);
}

/// A look at the files changes only what is reported of each descriptor, and each
/// descriptor is judged by its own file alone.
pub proof fn scans_keep_the_descriptors(ps: Seq<PollFd>, files: Seq<Option<Readiness>>, i: int)
    requires
        files.len() == ps.len(),
        0 <= i < ps.len(),
    ensures
        scanned(ps, files).len() == ps.len(),
        scanned(ps, files)[i].fd == ps[i].fd,
        scanned(ps, files)[i].events == ps[i].events,
        ps[i].fd >= 0 && files[i] is None ==> scanned(ps, files)[i].revents == 0x20,
        ps[i].fd >= 0 && files[i] is Some ==> {
            let r = scanned(ps, files)[i].revents;
            let f = files[i]->0;
            &&& (r & 1 != 0) == (ps[i].events & 1 != 0 && f.readable && f.read_ready)
            &&& (r & 4 != 0) == (ps[i].events & 4 != 0 && f.writable && f.write_ready)
        },
        ps[i].fd < 0 ==> scanned(ps, files)[i].revents == 0,
{
    if files[i] is Some {
        events_are_met_independently(ps[i], files[i]->0);
    }
}

/// The number that a poll returns counts the descriptors that report something: one
/// more descriptor adds one exactly if it does.
pub proof fn every_met_descriptor_counts(ps: Seq<PollFd>, p: PollFd)
    ensures
        met_count(Seq::<PollFd>::empty()) == 0,
        met_count(ps.push(p)) - met_count(ps) == if p.revents == 0 {
            0int
        } else {
            1
        },
{
    assert(ps.push(p).drop_last() =~= ps);
}

/// Among the descriptors of a select exactly those that are open the right way and
/// ready are handed back, in the same order.
pub proof fn selected_descriptors_are_the_ready_ones(ws: Seq<Watched>)
    ensures
        ready_fds(ws) == ws.filter(|w: Watched| w.able && w.ready).map_values(|w: Watched| w.fd),
    decreases ws.len(),
{
    reveal(Seq::filter);
    let good = |w: Watched| w.able && w.ready;
    let fd = |w: Watched| w.fd;
    if ws.len() > 0 {
        selected_descriptors_are_the_ready_ones(ws.drop_last());
        let rest = ws.drop_last().filter(good);
        if good(ws.last()) {
            assert(ws.filter(good) =~= rest.push(ws.last()));
            assert(rest.push(ws.last()).map_values(fd) =~= rest.map_values(fd).push(ws.last().fd));
        } else {
            assert(ws.filter(good) =~= rest);
        }
        assert(ready_fds(ws) =~= ws.filter(good).map_values(fd));
    } else {
        assert(ready_fds(ws) =~= ws.filter(good).map_values(fd));
    }
}

/// A wait that has something to report returns it at once, whatever the time and
/// whatever signals came; a wait that is over without anything returns zero rather
/// than an interruption; only what is left is interrupted, and without a signal it
/// goes on.
pub proof fn reports_come_before_the_limit_and_signals(
    ready: usize,
    timeout_us: Option<usize>,
    elapsed_us: usize,
    interrupted: bool,
    only_signals: bool,
)
    ensures
        ({
            let s = poll_step(ready, timeout_us, elapsed_us, interrupted, only_signals);
            let over = timeout_us matches Some(t) && elapsed_us >= t;
            &&& s == PollStep::Return(Ok(ready)) <==> ready != 0 || over
            &&& s == PollStep::Return(Err(Errno::EINTR)) <==> ready == 0 && !over && interrupted
            &&& s == PollStep::Sleep || s == PollStep::Yield <==> ready == 0 && !over
                && !interrupted
            &&& s == PollStep::Sleep ==> timeout_us is None && only_signals
        }),
{
}

/// A timeout is a duration of user memory: none without a pointer, refused where it
/// is no duration.
pub proof fn timeouts_are_durations(t: TimeSpec)
    ensures
        timeout_of(UserIn::Null) == Ok::<Option<usize>, Errno>(None),
        timeout_of(UserIn::Fault) == Err::<Option<usize>, Errno>(Errno::EFAULT),
        t.sec < 0 || t.nsec < 0 || t.nsec >= 1_000_000_000 ==> timeout_of(UserIn::Value(t)) == Err::<
            Option<usize>,
            Errno,
        >(Errno::EINVAL),
        timeout_of(UserIn::Value(t)) matches Ok(us) ==> us is Some && us->0 * 1000 >= t.sec
            * 1_000_000_000 + t.nsec && us->0 * 1000 < t.sec * 1_000_000_000 + t.nsec + 1000,
{
}

/// A wait has its timeout and its mask from the caller; the first error of the two stands.
pub proof fn waits_keep_timeout_and_mask(
    timeout: SysResult<Option<usize>>,
    given: SysResult<Option<SigSet>>,
    r: SysResult<PollWait>,
    n: int,
)
    requires
        wait_of(timeout, given, r),
        1 <= n <= 64,
    ensures
        (r is Ok) == (timeout is Ok && given is Ok),
        timeout matches Err(e) ==> r is Err && r->Err_0 == e,
        timeout is Ok ==> (given matches Err(e) ==> r is Err && r->Err_0 == e),
        r matches Ok(w) ==> {
            &&& timeout == Ok::<Option<usize>, Errno>(w.timeout_us)
            &&& (w.mask is Some) == (given->Ok_0 is Some)
            &&& w.mask matches Some(m) ==> has_signal(m, n) == (has_signal(given->Ok_0->0, n) && n
                != 9 && n != 19)
        },
{
    assert(valid_signum(n));
}

/// The time is up at a timeout of zero or once as much has passed; without a timeout it never
/// is. A clock that went back has let no time pass.
pub proof fn time_is_up_after_the_timeout(wait: PollWait, start_us: usize, now_us: usize)
    ensures
        wait.timeout_us is None ==> !time_is_up(wait, passed_us(start_us, now_us)),
        wait.timeout_us matches Some(d) ==> time_is_up(wait, passed_us(start_us, now_us)) == (d == 0
            || now_us - start_us >= d),
        now_us >= start_us ==> start_us + passed_us(start_us, now_us) == now_us,
        now_us < start_us ==> passed_us(start_us, now_us) == 0,
{
}

/// A mask is read where one is given, and has eight bytes.
pub proof fn masks_are_read_where_given(a: Pselect6Sigmask, s: SigSet)
    ensures
        mask_given(UserIn::Null, UserIn::Value(s)) == Ok::<Option<SigSet>, Errno>(None),
        a.sigmask == 0 ==> mask_given(UserIn::Value(a), UserIn::Value(s)) == Ok::<
            Option<SigSet>,
            Errno,
        >(None),
        a.sigmask != 0 && a.sigsetsize != 8 ==> mask_given(UserIn::Value(a), UserIn::Value(s))
            == Err::<Option<SigSet>, Errno>(Errno::EINVAL),
        a.sigmask != 0 && a.sigsetsize == 8 ==> mask_given(UserIn::Value(a), UserIn::Value(s))
            == Ok::<Option<SigSet>, Errno>(Some(s)),
        a.sigmask != 0
            && a.sigsetsize == 8 ==> mask_given(UserIn::Value(a), UserIn::Fault) == Err::<
            Option<SigSet>,
            Errno,
        >(Errno::EFAULT),
        mask_given(UserIn::Fault, UserIn::Value(s)) == Err::<Option<SigSet>, Errno>(Errno::EFAULT),
{
}

/// What is written back are the ready descriptors of the sets that were given, and none for
/// exceptions.
pub proof fn written_sets_are_the_ready_ones(
    read: Option<Vec<Watched>>,
    write: Option<Vec<Watched>>,
    except: bool,
    sets: SelectSets,
)
    requires
        sets_of(read, write, except, sets),
    ensures
        (sets.read is Some) == (read is Some) && (sets.write is Some) == (write is Some) && (
        sets.except is Some) == except,
        read matches Some(v) ==> sets.read->0@ == ready_fds(v@) && ready_in(read)
            == sets.read->0@.len(),
        write matches Some(v) ==> sets.write->0@ == ready_fds(v@) && ready_in(write)
            == sets.write->0@.len(),
        except ==> sets.except->0@.len() == 0,
{
}

/// A wait on sets ends with what is ready at once, else by an interrupt, else when its time is
/// up; otherwise the thread gives way. Nothing it found is forgotten.
pub proof fn selects_return_what_is_ready(
    c: PselectCall,
    t: WaitState,
    read: Vec<Watched>,
    signal: bool,
    now_us: usize,
    c2: PselectCall,
    t2: WaitState,
    a: SelectAction,
)
    requires
        c.phase == SelectPhase::Look,
        select_step(
            c,
            t,
            SelectEvent::Looked { read: Some(read), write: None, except: false, signal, now_us },
            c2,
            t2,
            a,
        ),
        ready_fds(read@).len() <= usize::MAX,
    ensures
        ready_fds(read@).len() > 0 ==> (a matches SelectAction::WriteBack { sets, count } && count
            == ready_fds(read@).len() && sets.read is Some && sets.read->0@ == ready_fds(read@)
            && sets.write is None && sets.except is None),
        a matches SelectAction::Return(r) ==> r == err(Errno::EINTR) && signal && ready_fds(
            read@,
        ).len() == 0,
        ready_fds(read@).len() == 0 && !signal && c.wait.timeout_us is None ==> a
            == SelectAction::Yield,
{
}

/// What is written back decides the result: the first error, or the count.
pub proof fn selects_end_with_their_count(
    c: PselectCall,
    t: WaitState,
    count: usize,
    c2: PselectCall,
    t2: WaitState,
    a: SelectAction,
    reads: SysResult<()>,
    writes: SysResult<()>,
    excepts: SysResult<()>,
)
    requires
        c.phase == (SelectPhase::Write { count, read: true, write: true, except: true }),
        select_step(c, t, SelectEvent::Written { reads, writes, excepts }, c2, t2, a),
    ensures
        c2.phase == SelectPhase::Over,
        reads is Ok && writes is Ok && excepts is Ok ==> a == SelectAction::Return(Ok(count)),
        reads matches Err(e) ==> a == SelectAction::Return(Err(e)),
        reads is Ok ==> (writes matches Err(e) ==> a == SelectAction::Return(Err(e))),
        reads is Ok && writes is Ok ==> (excepts matches Err(e) ==> a == SelectAction::Return(
            Err(e),
        )),
{
}

} // verus!
