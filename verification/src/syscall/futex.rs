//! Waiting on a word of user memory.
//!
//! A thread waits only while the word still holds the value it expects, and a
//! wake reaches the threads that have waited longest at that address.

use crate::errno::{Errno, SysResult};
use crate::user::{read_result, UserIn};
use vstd::prelude::*;

verus! {

pub const FUTEX_WAIT: usize = 0;

pub const FUTEX_WAKE: usize = 1;

/// The bits of an operation that name the command.
pub const FUTEX_CMD_MASK: usize = 0x7f;

/// The threads that wait, in the order in which they came.
pub struct FutexWaiters {
    /// Address and thread.
    pub entries: Vec<(usize, usize)>,
}

/// What a call comes to.
pub enum FutexStep {
    /// The call returns at once.
    Return(SysResult<usize>),
    /// The thread sleeps until it is woken.
    Sleep,
    /// These threads are woken; the call returns how many they are.
    Wake(Vec<usize>),
    /// Another command, which is not decided here.
    Other,
}

/// The first `n` threads that wait at an address.
pub open spec fn woken_at(s: Seq<(usize, usize)>, uaddr: usize, n: nat) -> Seq<usize>
    decreases s.len(),
{
    if s.len() == 0 {
        Seq::empty()
    } else {
        let before = woken_at(s.drop_last(), uaddr, n);
        if s.last().0 == uaddr && before.len() < n {
            before.push(s.last().1)
        } else {
            before
        }
    }
}

/// The waiting threads without the first `n` at an address.
pub open spec fn left_waiting(s: Seq<(usize, usize)>, uaddr: usize, n: nat) -> Seq<(usize, usize)>
    decreases s.len(),
{
    if s.len() == 0 {
        Seq::empty()
    } else {
        let before = left_waiting(s.drop_last(), uaddr, n);
        if s.last().0 == uaddr && woken_at(s.drop_last(), uaddr, n).len() < n {
            before
        } else {
            before.push(s.last())
        }
    }
}

/// The threads that wait at an address.
pub open spec fn waiting_at(s: Seq<(usize, usize)>, uaddr: usize) -> Seq<usize> {
    woken_at(s, uaddr, s.len())
}

impl FutexWaiters {
    /// Nobody waits.
    pub fn new() -> (r: Self)
        ensures
            r.entries@.len() == 0,
    {
        FutexWaiters { entries: Vec::new() }
    }

    /// Takes the first `n` threads that wait at an address.
    fn take(&mut self, uaddr: usize, n: usize) -> (r: Vec<usize>)
        ensures
            r@ == woken_at(old(self).entries@, uaddr, n as nat),
            final(self).entries@ == left_waiting(old(self).entries@, uaddr, n as nat),
    {
        let mut woken: Vec<usize> = Vec::new();
        let mut left: Vec<(usize, usize)> = Vec::new();
        let mut i: usize = 0;
        while i < self.entries.len()
            invariant
                self.entries@ == old(self).entries@,
                i <= self.entries@.len(),
                woken@ == woken_at(self.entries@.take(i as int), uaddr, n as nat),
                left@ == left_waiting(self.entries@.take(i as int), uaddr, n as nat),
            decreases self.entries@.len() - i,
        {
            let (addr, tid) = self.entries[i];
            proof {
                let head = self.entries@.take(i + 1);
                assert(head.drop_last() =~= self.entries@.take(i as int));
                assert(head.last() == self.entries@[i as int]);
            }
            if addr == uaddr && woken.len() < n {
                woken.push(tid);
            } else {
                left.push((addr, tid));
            }
            i = i + 1;
        }
        proof {
            assert(self.entries@.take(i as int) =~= self.entries@);
        }
        self.entries = left;
        woken
    }
}

/// Whether a futex call changes the waiters from `before` to `after` and goes on as `r`.
pub open spec fn futex_called(
    before: FutexWaiters,
    after: FutexWaiters,
    tid: usize,
    uaddr: usize,
    futex_op: usize,
    val: usize,
    word: UserIn<i32>,
    r: FutexStep,
) -> bool {
    if futex_op & FUTEX_CMD_MASK == FUTEX_WAIT {
        match read_result(word) {
            Err(e) => r == FutexStep::Return(Err(e)) && after == before,
            Ok(v) => if v as u32 == val as u32 {
                r == FutexStep::Sleep && after.entries@ == before.entries@.push((uaddr, tid))
            } else {
                r == FutexStep::Return(Err(Errno::EAGAIN)) && after == before
            },
        }
    } else if futex_op & FUTEX_CMD_MASK == FUTEX_WAKE {
        &&& r matches FutexStep::Wake(tids) && tids@ == woken_at(
            before.entries@,
            uaddr,
            val as nat,
        )
        &&& after.entries@ == left_waiting(before.entries@, uaddr, val as nat)
    } else {
        r == FutexStep::Other && after == before
    }
}

/// Waits on a word or wakes threads that do. `word` is what lies at `uaddr`. A
/// thread is put to sleep only if the word holds `val`; a wake reaches at most
/// `val` threads.
pub fn sys_futex(
    w: &mut FutexWaiters,
    tid: usize,
    uaddr: usize,
    futex_op: usize,
    val: usize,
    word: UserIn<i32>,
) -> (r: FutexStep)
    ensures
        futex_called(*old(w), *final(w), tid, uaddr, futex_op, val, word, r),
{
    let cmd: usize = futex_op & FUTEX_CMD_MASK;
    if cmd == FUTEX_WAIT {
        match word.read() {
            Err(e) => FutexStep::Return(Err(e)),
            Ok(v) => if same_word(v, val) {
                w.entries.push((uaddr, tid));
                FutexStep::Sleep
            } else {
                FutexStep::Return(Err(Errno::EAGAIN))
            },
        }
    } else if cmd == FUTEX_WAKE {
        FutexStep::Wake(w.take(uaddr, val))
    } else {
        FutexStep::Other
    }
}

/// Whether a word holds the expected value: their low 32 bits agree.
#[verifier::truncate]
fn same_word(word: i32, val: usize) -> (r: bool)
    ensures
        r == (word as u32 == val as u32),
{
    word as u32 == val as u32
}

/// A wake reaches as many threads as it asks for, or all that wait at the
/// address.
pub proof fn wakes_reach_the_asked_number(s: Seq<(usize, usize)>, uaddr: usize, n: nat)
    ensures
        woken_at(s, uaddr, n) == waiting_at(s, uaddr).take(
            if n < waiting_at(s, uaddr).len() {
                n as int
            } else {
                waiting_at(s, uaddr).len() as int
            },
        ),
{
    let all = waiting_at(s, uaddr);
    wakes_are_bounded(s, uaddr, s.len());
    if n <= s.len() {
        wakes_are_a_prefix(s, uaddr, n, s.len());
    } else {
        wakes_are_a_prefix(s, uaddr, s.len(), n);
        wakes_are_bounded(s, uaddr, n);
        assert(woken_at(s, uaddr, n) =~= all.take(all.len() as int));
    }
}

proof fn wakes_are_bounded(s: Seq<(usize, usize)>, uaddr: usize, n: nat)
    ensures
        woken_at(s, uaddr, n).len() <= s.len(),
        woken_at(s, uaddr, n).len() <= n,
    decreases s.len(),
{
    if s.len() > 0 {
        wakes_are_bounded(s.drop_last(), uaddr, n);
    }
}

proof fn wakes_are_a_prefix(s: Seq<(usize, usize)>, uaddr: usize, n: nat, m: nat)
    requires
        n <= m,
    ensures
        ({
            let all = woken_at(s, uaddr, m);
            woken_at(s, uaddr, n) == all.take(
                if n < all.len() {
                    n as int
                } else {
                    all.len() as int
                },
            )
        }),
    decreases s.len(),
{
    let all = woken_at(s, uaddr, m);
    let some = woken_at(s, uaddr, n);
    if s.len() > 0 {
        wakes_are_a_prefix(s.drop_last(), uaddr, n, m);
        wakes_are_bounded(s.drop_last(), uaddr, m);
    }
    assert(some =~= all.take(
        if n < all.len() {
            n as int
        } else {
            all.len() as int
        },
    ));
}

/// A wake takes threads of its own address only: whoever waits elsewhere goes on
/// waiting, in the same order.
pub proof fn other_addresses_sleep_on(
    s: Seq<(usize, usize)>,
    uaddr: usize,
    n: nat,
    other: usize,
    m: nat,
)
    requires
        other != uaddr,
    ensures
        woken_at(left_waiting(s, uaddr, n), other, m) == woken_at(s, other, m),
    decreases s.len(),
{
    if s.len() > 0 {
        other_addresses_sleep_on(s.drop_last(), uaddr, n, other, m);
        let l = left_waiting(s.drop_last(), uaddr, n);
        assert(l.push(s.last()).drop_last() =~= l);
    }
}

/// A waiter sleeps exactly if the word still holds the value it expects, and joins the waiters
/// of its address last.
pub proof fn waiters_sleep_on_the_expected_value(
    before: FutexWaiters,
    after: FutexWaiters,
    tid: usize,
    uaddr: usize,
    futex_op: usize,
    val: usize,
    v: i32,
    r: FutexStep,
)
    requires
        futex_called(before, after, tid, uaddr, futex_op, val, UserIn::Value(v), r),
        futex_op & 0x7f == 0,
    ensures
        (r is Sleep) == (v as u32 == val as u32),
        r is Sleep ==> after.entries@.len() == before.entries@.len() + 1 && after.entries@.last()
            == (uaddr, tid) && after.entries@.drop_last() =~= before.entries@,
        !(r is Sleep) ==> r == FutexStep::Return(Err(Errno::EAGAIN)) && after == before,
{
}

/// The threads woken are those that waited longest at the address, in the order they came.
pub proof fn wakes_go_to_the_longest_waiting(s: Seq<(usize, usize)>, uaddr: usize, n: nat, m: nat)
    requires
        n <= m,
    ensures
        woken_at(s, uaddr, n).len() <= n,
        woken_at(s, uaddr, n).is_prefix_of(woken_at(s, uaddr, m)),
        woken_at(s, uaddr, n).len() < n ==> woken_at(s, uaddr, n) == woken_at(s, uaddr, m),
    decreases s.len(),
{
    if s.len() > 0 {
        wakes_go_to_the_longest_waiting(s.drop_last(), uaddr, n, m);
    }
}

/// A thread that joins last at an address is woken last, and is not woken while enough others
/// wait there before it.
pub proof fn late_waiters_are_woken_last(
    s: Seq<(usize, usize)>,
    uaddr: usize,
    other: usize,
    tid: usize,
    n: nat,
)
    requires
        other != uaddr,
    ensures
        woken_at(s.push((uaddr, tid)), uaddr, n) == (if woken_at(s, uaddr, n).len() < n {
            woken_at(s, uaddr, n).push(tid)
        } else {
            woken_at(s, uaddr, n)
        }),
        woken_at(s.push((other, tid)), uaddr, n) == woken_at(s, uaddr, n),
{
    assert(s.push((uaddr, tid)).drop_last() =~= s);
    assert(s.push((other, tid)).drop_last() =~= s);
}

/// A wake wakes the given number of waiters of its address and takes exactly those off the
/// list.
pub proof fn wakes_take_waiters_off(
    before: FutexWaiters,
    after: FutexWaiters,
    tid: usize,
    uaddr: usize,
    futex_op: usize,
    val: usize,
    word: UserIn<i32>,
    r: FutexStep,
)
    requires
        futex_called(before, after, tid, uaddr, futex_op, val, word, r),
        futex_op & 0x7f == 1,
    ensures
        r matches FutexStep::Wake(tids) && tids@.len() <= val && after.entries@.len() + tids@.len()
            == before.entries@.len() && (forall|i: int|
            0 <= i < tids@.len() ==> before.entries@.contains((uaddr, #[trigger] tids@[i]))),
{
    woken_were_waiting(before.entries@, uaddr, val as nat);
}

proof fn woken_were_waiting(s: Seq<(usize, usize)>, uaddr: usize, n: nat)
    ensures
        woken_at(s, uaddr, n).len() <= n,
        left_waiting(s, uaddr, n).len() + woken_at(s, uaddr, n).len() == s.len(),
        forall|i: int|
            0 <= i < woken_at(s, uaddr, n).len() ==> s.contains(
                (uaddr, #[trigger] woken_at(s, uaddr, n)[i]),
            ),
    decreases s.len(),
{
    if s.len() > 0 {
        let t = s.drop_last();
        woken_were_waiting(t, uaddr, n);
        let w = woken_at(s, uaddr, n);
        let w0 = woken_at(t, uaddr, n);
        assert forall|i: int| 0 <= i < w.len() implies s.contains((uaddr, #[trigger] w[i])) by {
            if i < w0.len() {
                assert(w[i] == w0[i]);
                let k = choose|k: int| 0 <= k < t.len() && t[k] == (uaddr, w0[i]);
                assert(s[k] == (uaddr, w[i]));
            } else {
                assert(s[s.len() - 1] == (uaddr, w[i]));
            }
        }
    }
}

} // verus!
