//! Sleeping threads and their deadlines.

use crate::errno::{err, Errno, SysResult};
use crate::sorted_map::SortedMap;
use crate::syscall::time::{
    CLOCK_BOOTTIME, CLOCK_MONOTONIC, CLOCK_REALTIME, CLOCK_THREAD_CPUTIME_ID,
};
use crate::timer::{duration_us, spec_of_us, timespec_from_us, TimeSpec};
use crate::user::{read_result, UserIn, UserOut};
use vstd::prelude::*;

verus! {

/// The clock of timeouts that no change of real time affects.
pub const NANOSLEEP_TIMEOUT_CLOCK: usize = usize::MAX;

/// What a thread sleeps for.
#[derive(Debug, Clone, Copy, PartialEq, Eq, Structural)]
pub struct NanosleepWait {
    pub clock_id: usize,
    pub deadline_us: usize,
    pub timed_out: bool,
}

/// The threads that were queued for one deadline of one clock.
#[derive(Debug)]
pub struct Bucket {
    pub clock_id: usize,
    pub deadline_us: usize,
    pub tids: Vec<usize>,
}

/// All sleeping threads, and their deadlines in order. A thread that was queued
/// again may still be listed under an earlier deadline.
#[derive(Debug)]
pub struct NanosleepWaits {
    pub waits: SortedMap<NanosleepWait>,
    pub buckets: Vec<Bucket>,
}

/// Order of buckets: by clock, then by deadline.
pub open spec fn before(c1: usize, d1: usize, c2: usize, d2: usize) -> bool {
    c1 < c2 || (c1 == c2 && d1 < d2)
}

/// Bucket `i` lists thread `tid` under clock `c` and deadline `d`.
pub open spec fn listed_at(b: Seq<Bucket>, c: usize, d: usize, tid: usize, i: int) -> bool {
    0 <= i < b.len() && b[i].clock_id == c && b[i].deadline_us == d && b[i].tids@.contains(tid)
}

/// Some bucket lists thread `tid` under clock `c` and deadline `d`.
pub open spec fn listed(b: Seq<Bucket>, c: usize, d: usize, tid: usize) -> bool {
    exists|i: int| listed_at(b, c, d, tid, i)
}

/// Buckets are in strict order.
pub open spec fn ordered(b: Seq<Bucket>) -> bool {
    forall|i: int, j: int|
        0 <= i < j < b.len() ==> before(
            (#[trigger] b[i]).clock_id,
            b[i].deadline_us,
            (#[trigger] b[j]).clock_id,
            b[j].deadline_us,
        )
}

/// Time of a clock, where it can be read.
pub open spec fn now_of(now: Map<usize, usize>, clock_id: usize) -> Option<usize> {
    if now.contains_key(clock_id) {
        Some(now[clock_id])
    } else {
        None
    }
}

/// The deadline of a clock has passed.
pub open spec fn passed(now: Map<usize, usize>, clock_id: usize, deadline_us: usize) -> bool {
    now_of(now, clock_id) matches Some(t) && deadline_us <= t
}

/// Bucket `i` is the one of this clock and deadline.
pub open spec fn bucket_at(b: Seq<Bucket>, c: usize, d: usize, i: int) -> bool {
    0 <= i < b.len() && b[i].clock_id == c && b[i].deadline_us == d
}

/// The buckets after a thread was queued: it comes last in the bucket of its
/// deadline, which is made if there is none.
pub open spec fn queued(a: Seq<Bucket>, b: Seq<Bucket>, c: usize, d: usize, tid: usize) -> bool {
    exists|i: int| #[trigger]
        bucket_at(b, c, d, i) && (if exists|k: int| bucket_at(a, c, d, k) {
            &&& bucket_at(a, c, d, i)
            &&& b == a.update(i, b[i])
            &&& b[i].tids@ == a[i].tids@.push(tid)
        } else {
            &&& b == a.insert(i, b[i])
            &&& b[i].tids@ == seq![tid]
        })
}

/// Threads other than this one.
pub open spec fn other_thread(tid: usize) -> spec_fn(usize) -> bool {
    |t: usize| t != tid
}

/// The buckets after a thread was struck off the bucket of its deadline, which
/// goes if it is empty then.
pub open spec fn struck_off(a: Seq<Bucket>, b: Seq<Bucket>, c: usize, d: usize, tid: usize) -> bool {
    &&& (forall|i: int| !bucket_at(a, c, d, i)) ==> b == a
    &&& forall|i: int| #[trigger]
        bucket_at(a, c, d, i) ==> {
            let rest = a[i].tids@.filter(other_thread(tid));
            if rest.len() == 0 {
                b == a.remove(i)
            } else {
                b == a.update(i, b[i]) && bucket_at(b, c, d, i) && b[i].tids@ == rest
            }
        }
}

/// Buckets whose deadline has not passed.
pub open spec fn still_ahead(now: Map<usize, usize>) -> spec_fn(Bucket) -> bool {
    |b: Bucket| !passed(now, b.clock_id, b.deadline_us)
}

/// The threads to wake after those of one bucket were looked at: each that
/// sleeps for this very deadline, has not timed out and is not to be woken yet.
pub open spec fn woken_of(
    waits: Map<usize, NanosleepWait>,
    c: usize,
    d: usize,
    tids: Seq<usize>,
    done: Seq<usize>,
) -> Seq<usize>
    decreases tids.len(),
{
    if tids.len() == 0 {
        done
    } else {
        let before = woken_of(waits, c, d, tids.drop_last(), done);
        let t = tids.last();
        if waits.contains_key(t) && waits[t] == (NanosleepWait {
            clock_id: c,
            deadline_us: d,
            timed_out: false,
        }) && !before.contains(t) {
            before.push(t)
        } else {
            before
        }
    }
}

/// The threads to wake, in the order of clocks, deadlines and queues.
pub open spec fn woken(
    b: Seq<Bucket>,
    waits: Map<usize, NanosleepWait>,
    now: Map<usize, usize>,
) -> Seq<usize>
    decreases b.len(),
{
    if b.len() == 0 {
        Seq::empty()
    } else {
        let before = woken(b.drop_last(), waits, now);
        let l = b.last();
        if passed(now, l.clock_id, l.deadline_us) {
            woken_of(waits, l.clock_id, l.deadline_us, l.tids@, before)
        } else {
            before
        }
    }
}

impl NanosleepWaits {
    /// Buckets are in order and every thread that has not timed out is listed
    /// under its deadline.
    pub open spec fn wf(&self) -> bool {
        &&& self.waits.wf()
        &&& ordered(self.buckets@)
        &&& forall|tid: usize| #[trigger]
            self.waits@.contains_key(tid) && !self.waits@[tid].timed_out ==> listed(
                self.buckets@,
                self.waits@[tid].clock_id,
                self.waits@[tid].deadline_us,
                tid,
            )
    }

    /// No thread sleeps.
    pub fn new() -> (r: Self)
        ensures
            r.wf(),
            r.waits@ == Map::<usize, NanosleepWait>::empty(),
            r.buckets@.len() == 0,
    {
        NanosleepWaits { waits: SortedMap::new(), buckets: Vec::new() }
    }

    /// The index of the first bucket that does not come before a deadline.
    fn bucket_position(&self, clock_id: usize, deadline_us: usize) -> (r: usize)
        requires
            ordered(self.buckets@),
        ensures
            r <= self.buckets@.len(),
            forall|i: int|
                0 <= i < r ==> before(
                    (#[trigger] self.buckets@[i]).clock_id,
                    self.buckets@[i].deadline_us,
                    clock_id,
                    deadline_us,
                ),
            forall|i: int|
                r <= i < self.buckets@.len() ==> !before(
                    (#[trigger] self.buckets@[i]).clock_id,
                    self.buckets@[i].deadline_us,
                    clock_id,
                    deadline_us,
                ),
    {
        let mut i: usize = 0;
        while i < self.buckets.len() && (self.buckets[i].clock_id < clock_id || (
        self.buckets[i].clock_id == clock_id && self.buckets[i].deadline_us < deadline_us))
            invariant
                i <= self.buckets@.len(),
                ordered(self.buckets@),
                forall|k: int|
                    0 <= k < i ==> before(
                        (#[trigger] self.buckets@[k]).clock_id,
                        self.buckets@[k].deadline_us,
                        clock_id,
                        deadline_us,
                    ),
            decreases self.buckets@.len() - i,
        {
            i = i + 1;
        }
        i
    }

    /// Puts a thread to sleep until a deadline; a former deadline of the thread
    /// no longer counts.
    pub fn register(&mut self, tid: usize, clock_id: usize, deadline_us: usize)
        requires
            old(self).wf(),
        ensures
            final(self).wf(),
            final(self).waits@ == old(self).waits@.insert(
                tid,
                NanosleepWait { clock_id, deadline_us, timed_out: false },
            ),
            queued(old(self).buckets@, final(self).buckets@, clock_id, deadline_us, tid),
    {
        self.waits.insert(tid, NanosleepWait { clock_id, deadline_us, timed_out: false });
        let ghost b = self.buckets@;
        let i: usize = self.bucket_position(clock_id, deadline_us);
        if i < self.buckets.len() && self.buckets[i].clock_id == clock_id
            && self.buckets[i].deadline_us == deadline_us {
            self.buckets[i].tids.push(tid);
            proof {
                let n = self.buckets@;
                let old_tids = b[i as int].tids@;
                assert(n[i as int].tids@ == old_tids.push(tid));
                assert(n[i as int].tids@[old_tids.len() as int] == tid);
                assert(listed_at(n, clock_id, deadline_us, tid, i as int));
                assert(bucket_at(b, clock_id, deadline_us, i as int));
                assert(n =~= b.update(i as int, n[i as int]));
                assert(bucket_at(n, clock_id, deadline_us, i as int));
                assert forall|t: usize, c: usize, d: usize| listed(b, c, d, t) implies listed(
                    n,
                    c,
                    d,
                    t,
                ) by {
                    let k = choose|k: int| listed_at(b, c, d, t, k);
                    let q = choose|q: int| 0 <= q < b[k].tids@.len() && b[k].tids@[q] == t;
                    assert(n[k].tids@[q] == t);
                    assert(listed_at(n, c, d, t, k));
                }
            }
        } else {
            let mut tids: Vec<usize> = Vec::new();
            tids.push(tid);
            let bucket = Bucket { clock_id, deadline_us, tids };
            self.buckets.insert(i, bucket);
            proof {
                let n = self.buckets@;
                assert(n =~= b.insert(i as int, bucket));
                assert(bucket.tids@[0] == tid);
                assert(bucket.tids@ =~= seq![tid]);
                assert(bucket_at(n, clock_id, deadline_us, i as int));
                assert forall|k: int| !bucket_at(b, clock_id, deadline_us, k) by {
                    if bucket_at(b, clock_id, deadline_us, k) && k > i {
                        assert(before(
                            b[i as int].clock_id,
                            b[i as int].deadline_us,
                            b[k].clock_id,
                            b[k].deadline_us,
                        ));
                    }
                }
                assert(listed_at(n, clock_id, deadline_us, tid, i as int));
                assert forall|t: usize, c: usize, d: usize| listed(b, c, d, t) implies listed(
                    n,
                    c,
                    d,
                    t,
                ) by {
                    let k = choose|k: int| listed_at(b, c, d, t, k);
                    let k2 = if k < i {
                        k
                    } else {
                        k + 1
                    };
                    assert(n[k2] == b[k]);
                    assert(listed_at(n, c, d, t, k2));
                }
            }
        }
    }

    /// Ends the sleep of a thread and tells whether its deadline had passed.
    pub fn finish(&mut self, tid: usize) -> (r: bool)
        requires
            old(self).wf(),
        ensures
            final(self).wf(),
            final(self).waits@ == old(self).waits@.remove(tid),
            r == (old(self).waits@.contains_key(tid) && old(self).waits@[tid].timed_out),
            if old(self).waits@.contains_key(tid) {
                struck_off(
                    old(self).buckets@,
                    final(self).buckets@,
                    old(self).waits@[tid].clock_id,
                    old(self).waits@[tid].deadline_us,
                    tid,
                )
            } else {
                final(self).buckets@ == old(self).buckets@
            },
    {
        let wait = match self.waits.remove(tid) {
            Some(w) => w,
            None => {
                return false;
            },
        };
        let ghost b = self.buckets@;
        let i: usize = self.bucket_position(wait.clock_id, wait.deadline_us);
        if i < self.buckets.len() && self.buckets[i].clock_id == wait.clock_id
            && self.buckets[i].deadline_us == wait.deadline_us {
            let kept = without(&self.buckets[i].tids, tid);
            let ghost rest = kept@;
            proof {
                filtered_keeps_others(b[i as int].tids@, tid);
            }
            if kept.len() == 0 {
                self.buckets.remove(i);
            } else {
                self.buckets[i].tids = kept;
            }
            proof {
                let n = self.buckets@;
                if rest.len() == 0 {
                    assert(n =~= b.remove(i as int));
                } else {
                    assert(n.len() == b.len());
                    assert(n[i as int].tids@ == rest);
                    assert(n[i as int].clock_id == b[i as int].clock_id);
                    assert(n[i as int].deadline_us == b[i as int].deadline_us);
                    assert(forall|k: int| 0 <= k < n.len() && k != i ==> n[k] == b[k]);
                }
                assert(ordered(n));
                assert forall|t: usize, c: usize, d: usize|
                    t != tid && listed(b, c, d, t) implies listed(n, c, d, t) by {
                    let k = choose|k: int| listed_at(b, c, d, t, k);
                    if k == i {
                        assert(rest.contains(t));
                        assert(listed_at(n, c, d, t, k));
                    } else if rest.len() == 0 {
                        let k2 = if k < i {
                            k
                        } else {
                            k - 1
                        };
                        assert(n[k2] == b[k]);
                        assert(listed_at(n, c, d, t, k2));
                    } else {
                        assert(listed_at(n, c, d, t, k));
                    }
                }
                assert forall|k: int| #[trigger]
                    bucket_at(b, wait.clock_id, wait.deadline_us, k) implies k == i by {
                    if k < i {
                        assert(before(
                            b[k].clock_id,
                            b[k].deadline_us,
                            b[i as int].clock_id,
                            b[i as int].deadline_us,
                        ));
                    } else if k > i {
                        assert(before(
                            b[i as int].clock_id,
                            b[i as int].deadline_us,
                            b[k].clock_id,
                            b[k].deadline_us,
                        ));
                    }
                }
                assert(bucket_at(b, wait.clock_id, wait.deadline_us, i as int));
                if rest.len() > 0 {
                    assert(n =~= b.update(i as int, n[i as int]));
                }
            }
        } else {
            proof {
                assert forall|k: int| !bucket_at(b, wait.clock_id, wait.deadline_us, k) by {
                    if bucket_at(b, wait.clock_id, wait.deadline_us, k) && k > i {
                        assert(before(
                            b[i as int].clock_id,
                            b[i as int].deadline_us,
                            b[k].clock_id,
                            b[k].deadline_us,
                        ));
                    }
                }
            }
        }
        wait.timed_out
    }
}

/// The list without a thread.
fn without(tids: &Vec<usize>, tid: usize) -> (r: Vec<usize>)
    ensures
        r@ == tids@.filter(other_thread(tid)),
{
    let mut out: Vec<usize> = Vec::new();
    let mut i: usize = 0;
    while i < tids.len()
        invariant
            i <= tids@.len(),
            out@ == tids@.take(i as int).filter(other_thread(tid)),
        decreases tids@.len() - i,
    {
        let t: usize = tids[i];
        proof {
            let q = tids@.take(i + 1);
            assert(q.drop_last() =~= tids@.take(i as int));
            assert(q.last() == t);
            reveal(Seq::filter);
        }
        if t != tid {
            out.push(t);
        }
        i = i + 1;
    }
    proof {
        assert(tids@.take(i as int) =~= tids@);
    }
    out
}

proof fn filtered_keeps_others(s: Seq<usize>, tid: usize)
    ensures
        forall|t: usize| t != tid && #[trigger] s.contains(t) ==> s.filter(
            other_thread(tid),
        ).contains(t),
    decreases s.len(),
{
    reveal(Seq::filter);
    if s.len() > 0 {
        let r = s.drop_last();
        filtered_keeps_others(r, tid);
        let f = r.filter(other_thread(tid));
        assert forall|t: usize| t != tid && #[trigger] s.contains(t) implies s.filter(
            other_thread(tid),
        ).contains(t) by {
            let k = choose|k: int| 0 <= k < s.len() && s[k] == t;
            if k < r.len() {
                assert(r[k] == t);
                assert(r.contains(t));
                let q = choose|q: int| 0 <= q < f.len() && f[q] == t;
                assert(s.filter(other_thread(tid))[q] == t);
            } else {
                assert(f.push(t)[f.len() as int] == t);
            }
        }
    }
}

/// What a look at the deadlines gives.
pub struct Expired {
    /// Threads to be woken.
    pub tids: Vec<usize>,
    /// The next deadline of each clock that still has one.
    pub next: Vec<(usize, usize)>,
}

/// The wait of a thread after a look at the deadlines.
pub open spec fn looked_at(now: Map<usize, usize>, w: NanosleepWait) -> NanosleepWait {
    NanosleepWait {
        timed_out: w.timed_out || passed(now, w.clock_id, w.deadline_us),
        ..w
    }
}

/// `next` holds the first deadline of each clock of the buckets, in order.
pub open spec fn first_deadlines(b: Seq<Bucket>) -> Seq<(usize, usize)>
    decreases b.len(),
{
    if b.len() == 0 {
        Seq::empty()
    } else {
        let rest = first_deadlines(b.drop_last());
        if rest.len() > 0 && rest.last().0 == b.last().clock_id {
            rest
        } else {
            rest.push((b.last().clock_id, b.last().deadline_us))
        }
    }
}

/// Marks every thread whose deadline has passed, and tells which threads to
/// wake and when to look again. `now` holds the time of each clock that can be
/// read. Every thread is woken at most once.
pub fn check_nanosleep_timeouts(w: &mut NanosleepWaits, now: &SortedMap<usize>) -> (r: Expired)
    requires
        old(w).wf(),
        now.wf(),
    ensures
        final(w).wf(),
        r.tids@ == woken(old(w).buckets@, old(w).waits@, now@),
        r.tids@.no_duplicates(),
        forall|tid: usize| #[trigger]
            r.tids@.contains(tid) <==> old(w).waits@.contains_key(tid) && !old(
                w,
            ).waits@[tid].timed_out && passed(
                now@,
                old(w).waits@[tid].clock_id,
                old(w).waits@[tid].deadline_us,
            ),
        final(w).waits@.dom() == old(w).waits@.dom(),
        forall|tid: usize| #[trigger]
            final(w).waits@.contains_key(tid) ==> final(w).waits@[tid] == looked_at(
                now@,
                old(w).waits@[tid],
            ),
        final(w).buckets@ == old(w).buckets@.filter(still_ahead(now@)),
        r.next@ == first_deadlines(final(w).buckets@),
{
    let mut expired: Vec<usize> = Vec::new();
    let ghost waits0 = w.waits@;
    let ghost buckets0 = w.buckets@;
    let ghost mut p: int = 0;
    proof {
        reveal(Seq::filter);
        assert(w.buckets@.take(0) =~= buckets0.take(0).filter(still_ahead(now@)));
    }
    let mut i: usize = 0;
    while i < w.buckets.len()
        invariant
            w.waits.wf(),
            now.wf(),
            waits0 == old(w).waits@,
            ordered(w.buckets@),
            i <= w.buckets@.len(),
            0 <= p <= buckets0.len(),
            w.buckets@.take(i as int) == buckets0.take(p).filter(still_ahead(now@)),
            w.buckets@.skip(i as int) == buckets0.skip(p),
            expired@ == woken(buckets0.take(p), waits0, now@),
            w.waits@.dom() == waits0.dom(),
            expired@.no_duplicates(),
            // Threads that are marked by now are those woken.
            forall|t: usize| #[trigger]
                w.waits@.contains_key(t) ==> (w.waits@[t] == waits0[t] || (w.waits@[t]
                    == looked_at(now@, waits0[t]) && !waits0[t].timed_out && passed(
                    now@,
                    waits0[t].clock_id,
                    waits0[t].deadline_us,
                ) && expired@.contains(t))),
            forall|t: usize| #[trigger]
                expired@.contains(t) ==> waits0.contains_key(t) && !waits0[t].timed_out && passed(
                    now@,
                    waits0[t].clock_id,
                    waits0[t].deadline_us,
                ) && w.waits@[t].timed_out,
            forall|t: usize| #[trigger]
                w.waits@.contains_key(t) && !w.waits@[t].timed_out ==> listed(
                    w.buckets@,
                    w.waits@[t].clock_id,
                    w.waits@[t].deadline_us,
                    t,
                ),
            forall|k: int|
                0 <= k < i ==> !passed(
                    now@,
                    (#[trigger] w.buckets@[k]).clock_id,
                    w.buckets@[k].deadline_us,
                ),
        decreases w.buckets@.len() - i,
    {
        let clock_id: usize = w.buckets[i].clock_id;
        let deadline_us: usize = w.buckets[i].deadline_us;
        let due = match now.get(clock_id) {
            Some(t) => deadline_us <= *t,
            None => false,
        };
        proof {
            assert(w.buckets@.skip(i as int).len() == buckets0.skip(p).len());
            let head = buckets0.take(p + 1);
            assert(w.buckets@.skip(i as int)[0] == buckets0.skip(p)[0]);
            assert(head.drop_last() =~= buckets0.take(p));
            assert(head.last() == w.buckets@[i as int]);
            assert(buckets0.skip(p + 1) =~= buckets0.skip(p).skip(1));
            reveal(Seq::filter);
            p = p + 1;
        }
        if !due {
            proof {
                let b = w.buckets@;
                assert(b.take(i + 1) =~= b.take(i as int).push(b[i as int]));
                assert(b.skip(i + 1) =~= b.skip(i as int).skip(1));
            }
            i = i + 1;
            continue ;
        }
        let ghost b = w.buckets@;
        let bucket = w.buckets.remove(i);
        let ghost n = w.buckets@;
        assert(n =~= b.remove(i as int));
        assert(n.take(i as int) =~= b.take(i as int));
        assert(n.skip(i as int) =~= b.skip(i as int).skip(1));
        let ghost woken_before = expired@;
        assert(passed(now@, clock_id, deadline_us));
        proof {
            assert forall|c: usize, d: usize, t: usize|
                listed(b, c, d, t) && !(c == clock_id && d == deadline_us) implies listed(
                n,
                c,
                d,
                t,
            ) by {
                let k = choose|k: int| listed_at(b, c, d, t, k);
                let k2 = if k < i {
                    k
                } else {
                    k - 1
                };
                assert(n[k2] == b[k]);
                assert(listed_at(n, c, d, t, k2));
            }
            assert forall|t: usize|
                listed(b, clock_id, deadline_us, t) implies bucket.tids@.contains(t) by {
                let k = choose|k: int| listed_at(b, clock_id, deadline_us, t, k);
                if k < i {
                    assert(before(
                        b[k].clock_id,
                        b[k].deadline_us,
                        b[i as int].clock_id,
                        b[i as int].deadline_us,
                    ));
                } else if k > i {
                    assert(before(
                        b[i as int].clock_id,
                        b[i as int].deadline_us,
                        b[k].clock_id,
                        b[k].deadline_us,
                    ));
                }
            }
        }
        proof {
            assert(bucket.tids@.subrange(0, bucket.tids@.len() as int) =~= bucket.tids@);
            assert(bucket.tids@.take(0).len() == 0);
        }
        let mut j: usize = 0;
        while j < bucket.tids.len()
            invariant
                w.waits.wf(),
                now.wf(),
                waits0 == old(w).waits@,
                w.buckets@ == n,
                j <= bucket.tids@.len(),
                expired@ == woken_of(
                    waits0,
                    clock_id,
                    deadline_us,
                    bucket.tids@.take(j as int),
                    woken_before,
                ),
                passed(now@, clock_id, deadline_us),
                w.waits@.dom() == waits0.dom(),
                expired@.no_duplicates(),
                forall|t: usize| #[trigger]
                    w.waits@.contains_key(t) ==> (w.waits@[t] == waits0[t] || (w.waits@[t]
                        == looked_at(now@, waits0[t]) && !waits0[t].timed_out && passed(
                        now@,
                        waits0[t].clock_id,
                        waits0[t].deadline_us,
                    ) && expired@.contains(t))),
                forall|t: usize| #[trigger]
                    expired@.contains(t) ==> waits0.contains_key(t) && !waits0[t].timed_out
                        && passed(now@, waits0[t].clock_id, waits0[t].deadline_us)
                        && w.waits@[t].timed_out,
                forall|t: usize| #[trigger]
                    w.waits@.contains_key(t) && !w.waits@[t].timed_out ==> listed(
                        n,
                        w.waits@[t].clock_id,
                        w.waits@[t].deadline_us,
                        t,
                    ) || (w.waits@[t].clock_id == clock_id && w.waits@[t].deadline_us == deadline_us
                        && bucket.tids@.subrange(j as int, bucket.tids@.len() as int).contains(t)),
            decreases bucket.tids@.len() - j,
        {
            let tid: usize = bucket.tids[j];
            let ghost tail = bucket.tids@.subrange(j as int, bucket.tids@.len() as int);
            let ghost tail2 = bucket.tids@.subrange(j + 1, bucket.tids@.len() as int);
            let ghost e = expired@;
            let ghost m = w.waits@;
            proof {
                let seen = bucket.tids@.take(j + 1);
                assert(seen.drop_last() =~= bucket.tids@.take(j as int));
                assert(seen.last() == tid);
                assert(m.contains_key(tid) <==> waits0.contains_key(tid)) by {
                    assert(m.dom().contains(tid) <==> waits0.dom().contains(tid));
                }
                assert forall|t: usize| tail.contains(t) && t != tid implies tail2.contains(t) by {
                    let q = choose|q: int| 0 <= q < tail.len() && tail[q] == t;
                    assert(tail2[q - 1] == t);
                }
            }
            match w.waits.get(tid) {
                Some(wait) => {
                    let wait = *wait;
                    if wait.clock_id == clock_id && wait.deadline_us == deadline_us
                        && !wait.timed_out {
                        assert(w.waits@.contains_key(tid));
                        assert(waits0.dom().contains(tid));
                        assert(m[tid] == waits0[tid]);
                        assert(!e.contains(tid));
                        w.waits.insert(
                            tid,
                            NanosleepWait { clock_id, deadline_us, timed_out: true },
                        );
                        expired.push(tid);
                        proof {
                            assert(w.waits@.dom() =~= waits0.dom());
                            assert forall|t: usize| expired@.contains(t) <==> (e.contains(t) || t
                                == tid) by {
                                if e.contains(t) {
                                    let q = choose|q: int| 0 <= q < e.len() && e[q] == t;
                                    assert(expired@[q] == t);
                                }
                                assert(expired@[e.len() as int] == tid);
                            }
                            assert forall|t: usize| #[trigger] expired@.contains(t) implies
                                waits0.contains_key(t) && !waits0[t].timed_out && passed(
                                now@,
                                waits0[t].clock_id,
                                waits0[t].deadline_us,
                            ) && w.waits@[t].timed_out by {
                                assert(e.contains(t) || t == tid);
                            }
                        }
                    }
                },
                None => {},
            }
            j = j + 1;
        }
        proof {
            let done = bucket.tids@.subrange(
                bucket.tids@.len() as int,
                bucket.tids@.len() as int,
            );
            assert(done.len() == 0);
            assert(bucket.tids@.take(j as int) =~= bucket.tids@);
        }
    }
    proof {
        assert(w.buckets@.skip(i as int).len() == 0);
        assert(buckets0.take(p) =~= buckets0);
        assert(w.buckets@.take(i as int) =~= w.buckets@);
        assert forall|t: usize| #[trigger] w.waits@.contains_key(t) implies w.waits@[t]
            == looked_at(now@, waits0[t]) by {
            if w.waits@[t] == waits0[t] && !waits0[t].timed_out && passed(
                now@,
                waits0[t].clock_id,
                waits0[t].deadline_us,
            ) {
                assert(listed(w.buckets@, waits0[t].clock_id, waits0[t].deadline_us, t));
                let k = choose|k: int|
                    listed_at(w.buckets@, waits0[t].clock_id, waits0[t].deadline_us, t, k);
                assert(!passed(now@, w.buckets@[k].clock_id, w.buckets@[k].deadline_us));
            }
        }
    }
    let mut next: Vec<(usize, usize)> = Vec::new();
    let mut k: usize = 0;
    while k < w.buckets.len()
        invariant
            k <= w.buckets@.len(),
            next@ == first_deadlines(w.buckets@.take(k as int)),
        decreases w.buckets@.len() - k,
    {
        let c: usize = w.buckets[k].clock_id;
        proof {
            let t = w.buckets@.take(k + 1);
            assert(t.drop_last() =~= w.buckets@.take(k as int));
            assert(t.last() == w.buckets@[k as int]);
        }
        let known = next.len() > 0 && next[next.len() - 1].0 == c;
        if !known {
            next.push((c, w.buckets[k].deadline_us));
        }
        k = k + 1;
    }
    proof {
        assert(w.buckets@.take(k as int) =~= w.buckets@);
    }
    Expired { tids: expired, next }
}

/// Puts a thread to sleep until a deadline in milliseconds.
pub fn register_task_timeout(w: &mut NanosleepWaits, tid: usize, deadline_ms: usize)
    requires
        old(w).wf(),
    ensures
        final(w).wf(),
        final(w).waits@ == old(w).waits@.insert(
            tid,
            NanosleepWait {
                clock_id: NANOSLEEP_TIMEOUT_CLOCK,
                deadline_us: if deadline_ms * 1000 > usize::MAX {
                    usize::MAX
                } else {
                    (deadline_ms * 1000) as usize
                },
                timed_out: false,
            },
        ),
        queued(
            old(w).buckets@,
            final(w).buckets@,
            NANOSLEEP_TIMEOUT_CLOCK,
            if deadline_ms * 1000 > usize::MAX {
                usize::MAX
            } else {
                (deadline_ms * 1000) as usize
            },
            tid,
        ),
{
    let us: usize = match deadline_ms.checked_mul(1000) {
        Some(us) => us,
        None => usize::MAX,
    };
    register_task_timeout_us(w, tid, us);
}

/// Puts a thread to sleep until a deadline in microseconds.
pub fn register_task_timeout_us(w: &mut NanosleepWaits, tid: usize, deadline_us: usize)
    requires
        old(w).wf(),
    ensures
        final(w).wf(),
        final(w).waits@ == old(w).waits@.insert(
            tid,
            NanosleepWait {
                clock_id: NANOSLEEP_TIMEOUT_CLOCK,
                deadline_us,
                timed_out: false,
            },
        ),
        queued(
            old(w).buckets@,
            final(w).buckets@,
            NANOSLEEP_TIMEOUT_CLOCK,
            deadline_us,
            tid,
        ),
{
    w.register(tid, NANOSLEEP_TIMEOUT_CLOCK, deadline_us);
}

/// Ends the timeout of a thread and tells whether it had passed.
pub fn finish_task_timeout(w: &mut NanosleepWaits, tid: usize) -> (r: bool)
    requires
        old(w).wf(),
    ensures
        final(w).wf(),
        final(w).waits@ == old(w).waits@.remove(tid),
        r == (old(w).waits@.contains_key(tid) && old(w).waits@[tid].timed_out),
        if old(w).waits@.contains_key(tid) {
            struck_off(
                old(w).buckets@,
                final(w).buckets@,
                old(w).waits@[tid].clock_id,
                old(w).waits@[tid].deadline_us,
                tid,
            )
        } else {
            final(w).buckets@ == old(w).buckets@
        },
{
    w.finish(tid)
}

/// A thread times out exactly if its deadline has passed at a look: a fresh
/// wait that is looked at reports its own deadline.
pub proof fn fresh_wait_times_out_at_its_deadline(
    now: Map<usize, usize>,
    clock_id: usize,
    deadline_us: usize,
)
    ensures
        looked_at(now, NanosleepWait { clock_id, deadline_us, timed_out: false }).timed_out
            == passed(now, clock_id, deadline_us),
{
}

/// A thread stays marked until it finishes: later looks never unmark it.
pub proof fn timed_out_stays(now: Map<usize, usize>, w: NanosleepWait)
    requires
        w.timed_out,
    ensures
        looked_at(now, w).timed_out,
{
}

/// What a thread sleeps for, and how much of a relative sleep remains to be
/// reported.
#[derive(Debug, Clone, Copy)]
pub struct SleepPlan {
    pub clock_id: usize,
    pub deadline_us: usize,
    /// Start and length of a relative sleep.
    pub relative: Option<(usize, usize)>,
}

/// A sleep of a given length from `start_us` on.
pub open spec fn nanosleep_plan(req: UserIn<TimeSpec>, start_us: usize) -> SysResult<SleepPlan> {
    match read_result(req) {
        Err(e) => Err(e),
        Ok(t) => match duration_us(t) {
            None => Err(Errno::EINVAL),
            Some(us) => if start_us + us > usize::MAX {
                Err(Errno::EINVAL)
            } else {
                Ok(
                    SleepPlan {
                        clock_id: NANOSLEEP_TIMEOUT_CLOCK,
                        deadline_us: (start_us + us) as usize,
                        relative: Some((start_us, us)),
                    },
                )
            },
        },
    }
}

/// Sleeps for a given time.
pub fn sys_nanosleep(req: UserIn<TimeSpec>, start_us: usize) -> (r: SysResult<SleepPlan>)
    ensures
        r == nanosleep_plan(req, start_us),
{
    let t = match req.read() {
        Ok(t) => t,
        Err(e) => {
            return Err(e);
        },
    };
    let us: usize = match t.checked_duration_us() {
        Some(us) => us,
        None => {
            return Err(Errno::EINVAL);
        },
    };
    match start_us.checked_add(us) {
        Some(deadline_us) => Ok(
            SleepPlan {
                clock_id: NANOSLEEP_TIMEOUT_CLOCK,
                deadline_us,
                relative: Some((start_us, us)),
            },
        ),
        None => Err(Errno::EINVAL),
    }
}

/// The flag of an absolute deadline.
pub const TIMER_ABSTIME: usize = 1;

/// The sleep on a given clock that a call asks for.
pub open spec fn clock_sleep_plan(
    clock_id: usize,
    flags: usize,
    req: UserIn<TimeSpec>,
    start_us: usize,
) -> SysResult<SleepPlan> {
    if flags & !TIMER_ABSTIME != 0 {
        Err::<SleepPlan, Errno>(Errno::EINVAL)
    } else if clock_id == CLOCK_THREAD_CPUTIME_ID {
        Err(Errno::EOPNOTSUPP)
    } else if clock_id != CLOCK_REALTIME && clock_id != CLOCK_MONOTONIC && clock_id
        != CLOCK_BOOTTIME {
        Err(Errno::EINVAL)
    } else if flags & TIMER_ABSTIME == 0 {
        nanosleep_plan(req, start_us)
    } else {
        match read_result(req) {
            Err(e) => Err(e),
            Ok(t) => match duration_us(t) {
                None => Err(Errno::EINVAL),
                Some(us) => Ok(
                    SleepPlan { clock_id, deadline_us: us, relative: None },
                ),
            },
        }
    }
}

/// Sleeps for a given time or until a point of a clock.
pub fn sys_clock_nanosleep(clock_id: usize, flags: usize, req: UserIn<TimeSpec>, start_us: usize) -> (r:
    SysResult<SleepPlan>)
    ensures
        r == clock_sleep_plan(clock_id, flags, req, start_us),
{
    if flags & !TIMER_ABSTIME != 0 {
        return Err(Errno::EINVAL);
    }
    if clock_id == CLOCK_THREAD_CPUTIME_ID {
        return Err(Errno::EOPNOTSUPP);
    }
    if clock_id != CLOCK_REALTIME && clock_id != CLOCK_MONOTONIC && clock_id != CLOCK_BOOTTIME {
        return Err(Errno::EINVAL);
    }
    if flags & TIMER_ABSTIME == 0 {
        return sys_nanosleep(req, start_us);
    }
    let t = match req.read() {
        Ok(t) => t,
        Err(e) => {
            return Err(e);
        },
    };
    match t.checked_duration_us() {
        Some(us) => Ok(SleepPlan { clock_id, deadline_us: us, relative: None }),
        None => Err(Errno::EINVAL),
    }
}

/// How a sleep goes on: the call returns, possibly writing the time that
/// remains, or the thread sleeps.
pub enum SleepStep {
    Return { ret: SysResult<usize>, remaining: Option<TimeSpec> },
    Sleep,
}

/// The time that remains of a relative sleep.
pub open spec fn remaining_us(start_us: usize, total_us: usize, now_us: usize) -> usize {
    let elapsed = now_us.saturating_sub(start_us);
    if elapsed < total_us {
        (total_us - elapsed) as usize
    } else {
        0
    }
}

/// How a sleep ends when a signal interrupts it.
pub open spec fn interrupted_sleep(plan: SleepPlan, now_us: usize, rem: UserOut) -> SleepStep {
    match plan.relative {
        None => SleepStep::Return { ret: Err(Errno::EINTR), remaining: None },
        Some((start, total)) => match rem {
            UserOut::Null => SleepStep::Return { ret: Err(Errno::EINTR), remaining: None },
            UserOut::Fault => SleepStep::Return { ret: Err(Errno::EFAULT), remaining: None },
            UserOut::Writable => SleepStep::Return {
                ret: Err(Errno::EINTR),
                remaining: Some(spec_of_us(remaining_us(start, total, now_us))),
            },
        },
    }
}

/// Ends a sleep that a signal interrupted.
pub fn interrupt_sleep(plan: &SleepPlan, now_us: usize, rem: UserOut) -> (r: SleepStep)
    ensures
        r == interrupted_sleep(*plan, now_us, rem),
{
    match plan.relative {
        None => SleepStep::Return { ret: Err(Errno::EINTR), remaining: None },
        Some((start, total)) => match rem {
            UserOut::Null => SleepStep::Return { ret: Err(Errno::EINTR), remaining: None },
            UserOut::Fault => SleepStep::Return { ret: Err(Errno::EFAULT), remaining: None },
            UserOut::Writable => {
                let elapsed: usize = now_us.saturating_sub(start);
                let left: usize = if elapsed < total {
                    total - elapsed
                } else {
                    0
                };
                SleepStep::Return {
                    ret: Err(Errno::EINTR),
                    remaining: Some(timespec_from_us(left)),
                }
            },
        },
    }
}

/// What a sleeping thread does next.
pub open spec fn sleep_step(
    plan: SleepPlan,
    clock_now: SysResult<usize>,
    interrupted: bool,
    now_us: usize,
    rem: UserOut,
) -> SleepStep {
    match clock_now {
        Err(e) => SleepStep::Return { ret: Err(e), remaining: None },
        Ok(t) => if t >= plan.deadline_us {
            SleepStep::Return { ret: Ok(0), remaining: None }
        } else if interrupted {
            interrupted_sleep(plan, now_us, rem)
        } else {
            SleepStep::Sleep
        },
    }
}

/// Decides before each sleep: `clock_now` is the time of the plan's clock,
/// `now_us` that since the start.
pub fn sleep_until_us(
    plan: &SleepPlan,
    clock_now: SysResult<usize>,
    interrupted: bool,
    now_us: usize,
    rem: UserOut,
) -> (r: SleepStep)
    ensures
        r == sleep_step(*plan, clock_now, interrupted, now_us, rem),
{
    match clock_now {
        Err(e) => SleepStep::Return { ret: Err(e), remaining: None },
        Ok(t) => {
            if t >= plan.deadline_us {
                return SleepStep::Return { ret: Ok(0), remaining: None };
            }
            if interrupted {
                return interrupt_sleep(plan, now_us, rem);
            }
            SleepStep::Sleep
        },
    }
}

/// Whether a thread that slept goes on with `r`.
pub open spec fn sleep_went_on(
    waits: Map<usize, NanosleepWait>,
    tid: usize,
    plan: SleepPlan,
    interrupted: bool,
    now_us: usize,
    rem: UserOut,
    r: SleepStep,
) -> bool {
    r == (if interrupted {
        interrupted_sleep(plan, now_us, rem)
    } else if waits.contains_key(tid) && waits[tid].timed_out {
        SleepStep::Return { ret: Ok(0), remaining: None }
    } else {
        SleepStep::Sleep
    })
}

/// Decides after a wakeup: a signal comes before the deadline; a wakeup that is
/// neither goes back to sleep.
pub fn sleep_resumed(
    w: &mut NanosleepWaits,
    tid: usize,
    plan: &SleepPlan,
    interrupted: bool,
    now_us: usize,
    rem: UserOut,
) -> (r: SleepStep)
    requires
        old(w).wf(),
    ensures
        final(w).wf(),
        final(w).waits@ == old(w).waits@.remove(tid),
        sleep_went_on(old(w).waits@, tid, *plan, interrupted, now_us, rem, r),
        if old(w).waits@.contains_key(tid) {
            struck_off(
                old(w).buckets@,
                final(w).buckets@,
                old(w).waits@[tid].clock_id,
                old(w).waits@[tid].deadline_us,
                tid,
            )
        } else {
            final(w).buckets@ == old(w).buckets@
        },
{
    let timed_out = w.finish(tid);
    if interrupted {
        return interrupt_sleep(plan, now_us, rem);
    }
    if timed_out {
        return SleepStep::Return { ret: Ok(0), remaining: None };
    }
    SleepStep::Sleep
}

/// A relative sleep that is interrupted and continued with the remaining time
/// is not shortened: slept and remaining time make up the whole.
pub proof fn remaining_time_adds_up(start_us: usize, total_us: usize, now_us: usize)
    requires
        start_us <= now_us,
        now_us - start_us <= total_us,
    ensures
        (now_us - start_us) + remaining_us(start_us, total_us, now_us) == total_us,
{
}

/// A relative sleep ends that long after it began, on the clock kept for relative sleeps.
pub proof fn relative_sleeps_last_as_long_as_asked(t: TimeSpec, start_us: usize)
    ensures
        nanosleep_plan(UserIn::Value(t), start_us) matches Ok(p) ==> {
            &&& p.clock_id == usize::MAX
            &&& p.deadline_us - start_us == t.sec * 1_000_000 + (t.nsec + 999) / 1000
            &&& p.relative == Some((start_us, (p.deadline_us - start_us) as usize))
        },
        t.sec < 0 || t.nsec < 0 || t.nsec >= 1_000_000_000 ==> nanosleep_plan(
            UserIn::Value(t),
            start_us,
        ) == Err::<SleepPlan, Errno>(Errno::EINVAL),
        0 <= t.sec && 0 <= t.nsec < 1_000_000_000 && start_us + t.sec * 1_000_000 + (t.nsec + 999)
            / 1000 <= usize::MAX ==> nanosleep_plan(UserIn::Value(t), start_us) is Ok,
{
}

/// An absolute sleep ends at the time given on the clock given; without the absolute flag the
/// sleep is relative. Three clocks can be slept on, and the clock of a thread's own work cannot.
pub proof fn absolute_sleeps_end_when_asked(
    clock_id: usize,
    flags: usize,
    t: TimeSpec,
    start_us: usize,
)
    ensures
        flags & !1usize != 0 ==> clock_sleep_plan(clock_id, flags, UserIn::Value(t), start_us)
            == Err::<SleepPlan, Errno>(Errno::EINVAL),
        flags & !1usize == 0 && clock_id == 3 ==> clock_sleep_plan(
            clock_id,
            flags,
            UserIn::Value(t),
            start_us,
        ) == Err::<SleepPlan, Errno>(Errno::EOPNOTSUPP),
        clock_id != 0 && clock_id != 1 && clock_id != 7 ==> clock_sleep_plan(
            clock_id,
            flags,
            UserIn::Value(t),
            start_us,
        ) is Err,
        clock_sleep_plan(clock_id, flags, UserIn::Value(t), start_us) matches Ok(p) ==> {
            &&& flags & 1 != 0 ==> p.clock_id == clock_id && p.relative is None && p.deadline_us
                == t.sec * 1_000_000 + (t.nsec + 999) / 1000
            &&& flags & 1 == 0 ==> p.clock_id == usize::MAX && p.relative is Some
                && p.deadline_us - start_us
                == t.sec * 1_000_000 + (t.nsec + 999) / 1000
        },
        flags & !1usize == 0 && (clock_id == 0 || clock_id == 1 || clock_id == 7) && 0 <= t.sec && 0
            <= t.nsec < 1_000_000_000 && start_us + t.sec * 1_000_000 + (t.nsec + 999) / 1000
            <= usize::MAX ==> clock_sleep_plan(clock_id, flags, UserIn::Value(t), start_us) is Ok,
{
}

/// A sleeper goes on sleeping exactly while its deadline is ahead and nothing interrupts it.
/// Once the deadline has come the sleep succeeds, whatever else has happened.
pub proof fn sleepers_wake_at_the_deadline(
    plan: SleepPlan,
    t: usize,
    interrupted: bool,
    now_us: usize,
    rem: UserOut,
)
    ensures
        (sleep_step(plan, Ok(t), interrupted, now_us, rem) is Sleep) == (t < plan.deadline_us
            && !interrupted),
        t >= plan.deadline_us ==> sleep_step(plan, Ok(t), interrupted, now_us, rem)
            == (SleepStep::Return { ret: Ok(0), remaining: None }),
        t < plan.deadline_us && interrupted ==> (sleep_step(plan, Ok(t), interrupted, now_us, rem)
            matches SleepStep::Return { ret, remaining } && ret is Err && (ret == (if rem
            == UserOut::Fault && plan.relative is Some {
            err(Errno::EFAULT)
        } else {
            err(Errno::EINTR)
        })) && (remaining is Some) == (rem == UserOut::Writable && plan.relative is Some)),
        forall|e: Errno| #[trigger]
            sleep_step(plan, Err(e), interrupted, now_us, rem) == (SleepStep::Return {
                ret: Err(e),
                remaining: None,
            }),
{
}

/// What an interrupted relative sleep reports as left is what is missing up to its deadline.
pub proof fn interrupted_sleeps_report_the_rest(
    plan: SleepPlan,
    start: usize,
    total: usize,
    now_us: usize,
)
    requires
        plan.relative == Some((start, total)),
        total <= isize::MAX,
    ensures
        interrupted_sleep(plan, now_us, UserOut::Writable) matches SleepStep::Return {
            remaining,
            ..
        } && (remaining matches Some(t) && 0 <= t.nsec < 1_000_000_000 && t.nsec % 1000 == 0
            && (now_us
            >= start && now_us <= start + total ==> now_us + t.sec * 1_000_000 + t.nsec / 1000
            == start + total) && (now_us > start + total ==> t.sec == 0 && t.nsec == 0)),
{
}

/// A thread is woken at most once, and only if it waits for a deadline that has passed.
pub proof fn only_due_sleepers_are_woken(
    b: Seq<Bucket>,
    waits: Map<usize, NanosleepWait>,
    now: Map<usize, usize>,
)
    ensures
        woken(b, waits, now).no_duplicates(),
        forall|tid: usize| #[trigger]
            woken(b, waits, now).contains(tid) ==> waits.contains_key(tid) && !waits[tid].timed_out
                && now.contains_key(waits[tid].clock_id) && waits[tid].deadline_us
                <= now[waits[tid].clock_id],
    decreases b.len(),
{
    if b.len() > 0 {
        only_due_sleepers_are_woken(b.drop_last(), waits, now);
        let l = b.last();
        if passed(now, l.clock_id, l.deadline_us) {
            woken_once(
                waits,
                l.clock_id,
                l.deadline_us,
                l.tids@,
                woken(b.drop_last(), waits, now),
            );
        }
    }
}

proof fn woken_once(
    waits: Map<usize, NanosleepWait>,
    c: usize,
    d: usize,
    tids: Seq<usize>,
    done: Seq<usize>,
)
    requires
        done.no_duplicates(),
    ensures
        woken_of(waits, c, d, tids, done).no_duplicates(),
        forall|t: usize| #[trigger]
            woken_of(waits, c, d, tids, done).contains(t) ==> done.contains(t) || (
            waits.contains_key(t) && !waits[t].timed_out && waits[t].clock_id == c
                && waits[t].deadline_us == d),
        forall|t: usize| done.contains(t) ==> #[trigger]
            woken_of(waits, c, d, tids, done).contains(t),
        forall|t: usize|
            tids.contains(t) && waits.contains_key(t) && waits[t] == (NanosleepWait {
                clock_id: c,
                deadline_us: d,
                timed_out: false,
            }) ==> #[trigger] woken_of(waits, c, d, tids, done).contains(t),
    decreases tids.len(),
{
    if tids.len() > 0 {
        woken_once(waits, c, d, tids.drop_last(), done);
        let w0 = woken_of(waits, c, d, tids.drop_last(), done);
        let w = woken_of(waits, c, d, tids, done);
        assert forall|t: usize| w0.contains(t) implies #[trigger] w.contains(t) by {
            let i = choose|i: int| 0 <= i < w0.len() && w0[i] == t;
            assert(w[i] == t);
        }
        if w.len() != w0.len() {
            assert(w[w0.len() as int] == tids.last());
        }
        assert forall|t: usize| #[trigger] w.contains(t) implies w0.contains(t) || (t == tids.last()
            && w.len() != w0.len()) by {
            let i = choose|i: int| 0 <= i < w.len() && w[i] == t;
            if i < w0.len() {
                assert(w0[i] == t);
            }
        }
        assert forall|t: usize|
            tids.contains(t) && waits.contains_key(t) && waits[t] == (NanosleepWait {
                clock_id: c,
                deadline_us: d,
                timed_out: false,
            }) implies #[trigger] w.contains(t) by {
            if t != tids.last() {
                let i = choose|i: int| 0 <= i < tids.len() && tids[i] == t;
                assert(tids.drop_last()[i] == t);
            }
        }
    }
}

/// Every waiting thread whose deadline has passed is woken.
pub proof fn every_due_sleeper_is_woken(
    b: Seq<Bucket>,
    waits: Map<usize, NanosleepWait>,
    now: Map<usize, usize>,
    tid: usize,
)
    requires
        waits.contains_key(tid),
        !waits[tid].timed_out,
        listed(b, waits[tid].clock_id, waits[tid].deadline_us, tid),
        now.contains_key(waits[tid].clock_id),
        waits[tid].deadline_us <= now[waits[tid].clock_id],
    ensures
        woken(b, waits, now).contains(tid),
    decreases b.len(),
{
    let w = waits[tid];
    let i = choose|i: int| listed_at(b, w.clock_id, w.deadline_us, tid, i);
    let l = b.last();
    only_due_sleepers_are_woken(b.drop_last(), waits, now);
    if i == b.len() - 1 {
        woken_once(waits, l.clock_id, l.deadline_us, l.tids@, woken(b.drop_last(), waits, now));
    } else {
        assert(listed_at(b.drop_last(), w.clock_id, w.deadline_us, tid, i));
        every_due_sleeper_is_woken(b.drop_last(), waits, now, tid);
        if passed(now, l.clock_id, l.deadline_us) {
            woken_once(waits, l.clock_id, l.deadline_us, l.tids@, woken(b.drop_last(), waits, now));
        }
    }
}

/// A deadline has passed exactly when its clock can be read and shows that time or later.
pub proof fn deadlines_pass_on_their_clock(now: Map<usize, usize>, w: NanosleepWait)
    ensures
        looked_at(now, w).clock_id == w.clock_id && looked_at(now, w).deadline_us == w.deadline_us,
        looked_at(now, w).timed_out == (w.timed_out || (now.contains_key(w.clock_id)
            && now[w.clock_id] >= w.deadline_us)),
{
}

/// A thread that wakes up has slept enough if its wait timed out, reports what is left if it
/// was interrupted, and otherwise sleeps on.
pub proof fn sleepers_go_on_until_their_time(
    waits: Map<usize, NanosleepWait>,
    tid: usize,
    plan: SleepPlan,
    interrupted: bool,
    now_us: usize,
    rem: UserOut,
    r: SleepStep,
)
    requires
        sleep_went_on(waits, tid, plan, interrupted, now_us, rem, r),
    ensures
        !interrupted && waits.contains_key(tid) && waits[tid].timed_out ==> r
            == (SleepStep::Return { ret: Ok(0), remaining: None }),
        !interrupted && !(waits.contains_key(tid) && waits[tid].timed_out) ==> r is Sleep,
        interrupted ==> (r matches SleepStep::Return { ret, .. } && ret is Err),
{
}

/// A thread joins the others with its clock and deadline last, and leaves them alone when it
/// goes; the order of the deadlines stays.
pub proof fn leaving_sleepers_leave_the_others(
    a: Seq<Bucket>,
    b: Seq<Bucket>,
    c: usize,
    d: usize,
    tid: usize,
    i: int,
    j: int,
)
    requires
        struck_off(a, b, c, d, tid),
        ordered(a),
        bucket_at(a, c, d, i),
        0 <= j < a.len(),
        j != i,
    ensures
        b.contains(a[j]),
        !listed(b, c, d, tid),
{
    let rest = a[i].tids@.filter(other_thread(tid));
    if rest.len() == 0 {
        assert(b == a.remove(i));
        assert(b[if j < i {
            j
        } else {
            j - 1
        }] == a[j]);
        if listed(b, c, d, tid) {
            let k = choose|k: int| listed_at(b, c, d, tid, k);
            let m = if k < i {
                k
            } else {
                k + 1
            };
            assert(b[k] == a[m]);
            assert(m != i);
            if m < i {
                assert(before(a[m].clock_id, a[m].deadline_us, a[i].clock_id, a[i].deadline_us));
            } else {
                assert(before(a[i].clock_id, a[i].deadline_us, a[m].clock_id, a[m].deadline_us));
            }
        }
    } else {
        assert(b[j] == a[j]);
        if listed(b, c, d, tid) {
            let k = choose|k: int| listed_at(b, c, d, tid, k);
            if k == i {
                let n = choose|n: int| 0 <= n < rest.len() && rest[n] == tid;
                a[i].tids@.lemma_filter_pred(other_thread(tid), n);
            } else {
                assert(b[k] == a[k]);
                if k < i {
                    assert(before(
                        a[k].clock_id,
                        a[k].deadline_us,
                        a[i].clock_id,
                        a[i].deadline_us,
                    ));
                } else {
                    assert(before(
                        a[i].clock_id,
                        a[i].deadline_us,
                        a[k].clock_id,
                        a[k].deadline_us,
                    ));
                }
            }
        }
    }
}

/// A thread that joins is listed with its clock and deadline.
pub proof fn joining_sleepers_are_listed(
    a: Seq<Bucket>,
    b: Seq<Bucket>,
    c: usize,
    d: usize,
    tid: usize,
)
    requires
        queued(a, b, c, d, tid),
    ensures
        listed(b, c, d, tid),
{
    let i = choose|i: int| #[trigger] bucket_at(b, c, d, i)
        && (if exists|k: int| bucket_at(a, c, d, k) {
        &&& bucket_at(a, c, d, i)
        &&& b == a.update(i, b[i])
        &&& b[i].tids@ == a[i].tids@.push(tid)
    } else {
        &&& b == a.insert(i, b[i])
        &&& b[i].tids@ == seq![tid]
    });
    let t = b[i].tids@;
    assert(t[t.len() - 1] == tid);
    assert(listed_at(b, c, d, tid, i));
}

} // verus!
