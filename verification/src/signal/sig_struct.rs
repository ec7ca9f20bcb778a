//! Signal numbers, signal sets and the pending signals of a thread.

use crate::bits::{bit, one_bit_update, word_ops};
use crate::signal::sig_info::SigInfo;
use std::collections::BTreeMap;
use vstd::prelude::*;

verus! {

/// The highest signal number.
pub const MAX_SIGNUM: usize = 64;

pub const SIGHUP: i32 = 1;
pub const SIGINT: i32 = 2;
pub const SIGQUIT: i32 = 3;
pub const SIGILL: i32 = 4;
pub const SIGTRAP: i32 = 5;
pub const SIGABRT: i32 = 6;
pub const SIGBUS: i32 = 7;
pub const SIGFPE: i32 = 8;
pub const SIGKILL: i32 = 9;
pub const SIGSEGV: i32 = 11;
pub const SIGPIPE: i32 = 13;
pub const SIGALRM: i32 = 14;
pub const SIGCHLD: i32 = 17;
pub const SIGCONT: i32 = 18;
pub const SIGSTOP: i32 = 19;
pub const SIGTSTP: i32 = 20;
pub const SIGTTIN: i32 = 21;
pub const SIGTTOU: i32 = 22;
pub const SIGURG: i32 = 23;
pub const SIGXCPU: i32 = 24;
pub const SIGXFSZ: i32 = 25;
pub const SIGWINCH: i32 = 28;
pub const SIGSYS: i32 = 31;

/// A signal number, not necessarily a valid one.
#[derive(Copy, Clone, Debug, PartialEq, Eq, Structural)]
pub struct Sig {
    pub num: i32,
}

/// A number from 1 to 64 names a signal.
pub open spec fn valid_signum(n: int) -> bool {
    1 <= n <= 64
}

/// Neither SIGKILL nor SIGSTOP can be caught, blocked or ignored.
pub open spec fn unblockable(n: int) -> bool {
    n == 9 || n == 19
}

impl Sig {
    /// The signal of a number.
    pub fn from(signum: i32) -> (r: Sig)
        ensures
            r.num == signum,
    {
        Sig { num: signum }
    }

    /// Tells whether the number names a signal.
    pub fn is_valid(&self) -> (r: bool)
        ensures
            r == valid_signum(self.num as int),
    {
        self.num > 0 && self.num <= 64
    }

    /// The number itself.
    pub fn raw(&self) -> (r: i32)
        ensures
            r == self.num,
    {
        self.num
    }

    /// The position of the signal in a set.
    pub fn index(&self) -> (r: usize)
        requires
            valid_signum(self.num as int),
        ensures
            r == self.num - 1,
    {
        (self.num - 1) as usize
    }

    /// Tells whether this is SIGKILL or SIGSTOP.
    pub fn is_kill_or_stop(&self) -> (r: bool)
        ensures
            r == unblockable(self.num as int),
    {
        self.num == SIGKILL || self.num == SIGSTOP
    }
}

/// A set of signals, bit `n - 1` for signal `n`.
#[derive(Copy, Clone, Debug, PartialEq, Eq, Structural)]
pub struct SigSet {
    pub bits: u64,
}

/// Tells whether signal `n` is in the set.
pub open spec fn has_signal(s: SigSet, n: int) -> bool {
    bit(s.bits, n - 1)
}

impl SigSet {
    /// The set without signals.
    pub fn empty() -> (r: SigSet)
        ensures
            r.bits == 0,
            forall|n: int| valid_signum(n) ==> !has_signal(r, n),
    {
        proof {
            assert forall|n: int| valid_signum(n) implies !bit(0u64, n - 1) by {
                one_bit_update(0, 0, (n - 1) as u64);
            }
        }
        SigSet { bits: 0 }
    }

    /// Adds a signal.
    pub fn add_signal(&mut self, sig: Sig)
        requires
            valid_signum(sig.num as int),
        ensures
            forall|n: int|
                valid_signum(n) ==> has_signal(*final(self), n) == (has_signal(*old(self), n) || n
                    == sig.num),
    {
        let i: u64 = (sig.num - 1) as u64;
        proof {
            let b = self.bits;
            assert forall|n: int| valid_signum(n) implies bit(b | (1u64 << i), n - 1) == (bit(
                b,
                n - 1,
            ) || n == sig.num) by {
                one_bit_update(b, i, (n - 1) as u64);
            }
        }
        self.bits = self.bits | (1u64 << i);
    }

    /// Tells whether a signal is in the set.
    pub fn contain_signal(&self, sig: Sig) -> (r: bool)
        requires
            valid_signum(sig.num as int),
        ensures
            r == has_signal(*self, sig.num as int),
    {
        let i: u64 = (sig.num - 1) as u64;
        proof {
            one_bit_update(self.bits, i, i);
        }
        self.bits & (1u64 << i) == 1u64 << i
    }

    /// Takes a signal out.
    pub fn remove_signal(&mut self, sig: Sig)
        requires
            valid_signum(sig.num as int),
        ensures
            forall|n: int|
                valid_signum(n) ==> has_signal(*final(self), n) == (has_signal(*old(self), n) && n
                    != sig.num),
    {
        let i: u64 = (sig.num - 1) as u64;
        proof {
            let b = self.bits;
            assert forall|n: int| valid_signum(n) implies bit(b & !(1u64 << i), n - 1) == (bit(
                b,
                n - 1,
            ) && n != sig.num) by {
                one_bit_update(b, i, (n - 1) as u64);
            }
        }
        self.bits = self.bits & !(1u64 << i);
    }

    /// The signals of either set.
    pub fn union(self, other: SigSet) -> (r: SigSet)
        ensures
            r.bits == self.bits | other.bits,
            forall|n: int|
                valid_signum(n) ==> has_signal(r, n) == (has_signal(self, n) || has_signal(
                    other,
                    n,
                )),
    {
        proof {
            assert forall|n: int| valid_signum(n) implies bit(self.bits | other.bits, n - 1) == (
            bit(self.bits, n - 1) || bit(other.bits, n - 1)) by {
                word_ops(self.bits, other.bits, (n - 1) as u64);
            }
        }
        SigSet { bits: self.bits | other.bits }
    }

    /// The signals of this set that are not in the other.
    pub fn difference(self, other: SigSet) -> (r: SigSet)
        ensures
            forall|n: int|
                valid_signum(n) ==> has_signal(r, n) == (has_signal(self, n) && !has_signal(
                    other,
                    n,
                )),
    {
        proof {
            assert forall|n: int| valid_signum(n) implies bit(self.bits & !other.bits, n - 1) == (
            bit(self.bits, n - 1) && !bit(other.bits, n - 1)) by {
                word_ops(self.bits, other.bits, (n - 1) as u64);
            }
        }
        SigSet { bits: self.bits & !other.bits }
    }

    /// The signals of both sets.
    pub fn intersection(self, other: SigSet) -> (r: SigSet)
        ensures
            forall|n: int|
                valid_signum(n) ==> has_signal(r, n) == (has_signal(self, n) && has_signal(
                    other,
                    n,
                )),
    {
        proof {
            assert forall|n: int| valid_signum(n) implies bit(self.bits & other.bits, n - 1) == (
            bit(self.bits, n - 1) && bit(other.bits, n - 1)) by {
                word_ops(self.bits, other.bits, (n - 1) as u64);
            }
        }
        SigSet { bits: self.bits & other.bits }
    }

    /// The set without SIGKILL and SIGSTOP, which cannot be blocked.
    pub fn without_unblockable(self) -> (r: SigSet)
        ensures
            blockable_part(self, r),
    {
        let mut s = self;
        s.remove_signal(Sig { num: SIGKILL });
        s.remove_signal(Sig { num: SIGSTOP });
        s
    }
}

/// `r` holds the signals of `s` that can be blocked.
pub open spec fn blockable_part(s: SigSet, r: SigSet) -> bool {
    forall|n: int|
        valid_signum(n) ==> #[trigger] has_signal(r, n) == (has_signal(s, n) && !unblockable(n))
}

/// The pending signals of a thread, its signal mask and the details of each
/// pending signal.
pub struct SigPending {
    pub pending: SigSet,
    pub mask: SigSet,
    pub info: BTreeMap<i32, SigInfo>,
}

/// A pending signal can be delivered unless it is blocked; SIGKILL and SIGSTOP
/// cannot be blocked.
pub open spec fn deliverable(p: &SigPending, n: int) -> bool {
    has_signal(p.pending, n) && (!has_signal(p.mask, n) || unblockable(n))
}

/// `n` is the lowest deliverable signal.
pub open spec fn lowest_deliverable(p: &SigPending, n: int) -> bool {
    &&& valid_signum(n)
    &&& deliverable(p, n)
    &&& forall|m: int| 1 <= m < n ==> !deliverable(p, m)
}

/// Whether taking the next signal goes from `before` to `after` and returns `r`.
pub open spec fn signal_fetched(
    before: &SigPending,
    after: &SigPending,
    r: Option<(Sig, SigInfo)>,
) -> bool {
    match r {
        Some((sig, info)) => {
            &&& lowest_deliverable(before, sig.num as int)
            &&& info == before.info@[sig.num]
            &&& after.info@ == before.info@.remove(sig.num)
            &&& forall|n: int|
                valid_signum(n) ==> has_signal(after.pending, n) == (has_signal(
                    before.pending,
                    n,
                ) && n != sig.num)
        },
        None => {
            &&& forall|n: int| valid_signum(n) ==> !deliverable(before, n)
            &&& *after == *before
        },
    }
}

impl SigPending {
    /// Exactly the pending signals have details, and each under its own number.
    pub open spec fn wf(&self) -> bool {
        &&& forall|k: i32| #[trigger]
            self.info@.contains_key(k) <==> valid_signum(k as int) && has_signal(
                self.pending,
                k as int,
            )
        &&& forall|k: i32| #[trigger] self.info@.contains_key(k) ==> self.info@[k].signo == k
    }

    /// No pending signal and nothing blocked.
    pub fn new() -> (r: Self)
        ensures
            r.wf(),
            r.mask.bits == 0,
            r.info@ == Map::<i32, SigInfo>::empty(),
    {
        SigPending { pending: SigSet::empty(), mask: SigSet::empty(), info: BTreeMap::new() }
    }

    /// No pending signal and the given mask.
    pub fn with_mask(mask: SigSet) -> (r: Self)
        ensures
            r.wf(),
            r.mask == mask,
            r.info@ == Map::<i32, SigInfo>::empty(),
    {
        SigPending { pending: SigSet::empty(), mask, info: BTreeMap::new() }
    }

    /// Drops the pending signals and the mask.
    pub fn clear(&mut self)
        ensures
            final(self).wf(),
            final(self).mask.bits == 0,
            final(self).info@ == Map::<i32, SigInfo>::empty(),
    {
        self.pending = SigSet::empty();
        self.mask = SigSet::empty();
        self.info.clear();
    }

    /// Drops the pending signals and keeps the mask.
    pub fn clear_pending(&mut self)
        ensures
            final(self).wf(),
            final(self).mask == old(self).mask,
            final(self).info@ == Map::<i32, SigInfo>::empty(),
    {
        self.pending = SigSet::empty();
        self.info.clear();
    }

    /// Makes a signal pending; a signal that is already pending gets the new
    /// details.
    pub fn add_signal(&mut self, siginfo: SigInfo)
        requires
            old(self).wf(),
            valid_signum(siginfo.signo as int),
        ensures
            final(self).wf(),
            final(self).mask == old(self).mask,
            final(self).info@ == old(self).info@.insert(siginfo.signo, siginfo),
            forall|n: int|
                valid_signum(n) ==> has_signal(final(self).pending, n) == (has_signal(
                    old(self).pending,
                    n,
                ) || n == siginfo.signo),
    {
        broadcast use vstd::std_specs::btree::group_btree_axioms;

        let sig = Sig::from(siginfo.signo);
        self.pending.add_signal(sig);
        self.info.insert(siginfo.signo, siginfo);
    }

    /// The details of a pending signal.
    pub fn get_info(&self, sig: Sig) -> (r: Option<&SigInfo>)
        ensures
            r == (if self.info@.contains_key(sig.num) {
                Some(&self.info@[sig.num])
            } else {
                None::<&SigInfo>
            }),
    {
        broadcast use vstd::std_specs::btree::group_btree_axioms;

        self.info.get(&sig.num)
    }

    /// The lowest deliverable signal, if there is one.
    pub fn find_signal(&self) -> (r: Option<Sig>)
        ensures
            match r {
                Some(sig) => lowest_deliverable(self, sig.num as int),
                None => forall|n: int| valid_signum(n) ==> !deliverable(self, n),
            },
    {
        let mut n: i32 = 1;
        while n <= 64
            invariant
                1 <= n <= 65,
                forall|m: int| 1 <= m < n ==> !deliverable(self, m),
            decreases 65 - n,
        {
            let sig = Sig::from(n);
            if self.pending.contain_signal(sig) && (!self.mask.contain_signal(sig)
                || sig.is_kill_or_stop()) {
                return Some(sig);
            }
            n = n + 1;
        }
        None
    }

    /// Takes out the lowest deliverable signal, if there is one.
    pub fn fetch_signal(&mut self) -> (r: Option<(Sig, SigInfo)>)
        requires
            old(self).wf(),
        ensures
            final(self).wf(),
            final(self).mask == old(self).mask,
            signal_fetched(old(self), final(self), r),
    {
        broadcast use vstd::std_specs::btree::group_btree_axioms;

        match self.find_signal() {
            Some(sig) => {
                self.pending.remove_signal(sig);
                let num: i32 = sig.num;
                assert(self.info@.contains_key(num));
                match self.info.remove(&num) {
                    Some(info) => Some((sig, info)),
                    None => None,
                }
            },
            None => None,
        }
    }

    /// Blocks a signal.
    pub fn add_mask(&mut self, sig: Sig)
        requires
            valid_signum(sig.num as int),
        ensures
            final(self).pending == old(self).pending,
            final(self).info == old(self).info,
            forall|n: int|
                valid_signum(n) ==> has_signal(final(self).mask, n) == (has_signal(
                    old(self).mask,
                    n,
                ) || n == sig.num),
    {
        self.mask.add_signal(sig);
    }

    /// Blocks a set of signals.
    pub fn add_mask_sigset(&mut self, sigset: SigSet)
        ensures
            final(self).pending == old(self).pending,
            final(self).info == old(self).info,
            forall|n: int|
                valid_signum(n) ==> has_signal(final(self).mask, n) == (has_signal(
                    old(self).mask,
                    n,
                ) || has_signal(sigset, n)),
    {
        self.mask = self.mask.union(sigset);
    }

    /// Replaces the mask and returns the former one.
    pub fn change_mask(&mut self, mask: SigSet) -> (r: SigSet)
        ensures
            r == old(self).mask,
            final(self).mask == mask,
            final(self).pending == old(self).pending,
            final(self).info == old(self).info,
    {
        let old_mask = self.mask;
        self.mask = mask;
        old_mask
    }
}

/// SIGKILL and SIGSTOP are delivered whatever the mask says.
pub proof fn unblockable_signals_ignore_the_mask(p: &SigPending, n: int)
    requires
        unblockable(n),
        has_signal(p.pending, n),
    ensures
        deliverable(p, n),
{
}

/// Delivery order is by number: whichever signal is fetched first, no lower
/// signal was deliverable, so two candidates for the lowest one are the same.
pub proof fn lowest_deliverable_is_unique(p: &SigPending, a: int, b: int)
    requires
        lowest_deliverable(p, a),
        lowest_deliverable(p, b),
    ensures
        a == b,
{
    if a < b {
        assert(!deliverable(p, a));
    }
    if b < a {
        assert(!deliverable(p, b));
    }
}

/// The signal taken is the lowest that can be delivered, with the details it was sent with; all
/// others stay.
pub proof fn signals_are_taken_lowest_first(
    before: &SigPending,
    after: &SigPending,
    r: Option<(Sig, SigInfo)>,
    n: int,
)
    requires
        signal_fetched(before, after, r),
        before.wf(),
        valid_signum(n),
    ensures
        r matches Some((sig, info)) ==> {
            &&& 1 <= sig.num <= 64 && has_signal(before.pending, sig.num as int)
            &&& info.signo == sig.num
            &&& !has_signal(after.pending, sig.num as int)
            &&& n != sig.num ==> has_signal(after.pending, n) == has_signal(before.pending, n)
            &&& has_signal(before.pending, n) && !has_signal(before.mask, n) ==> sig.num <= n
            &&& has_signal(before.mask, sig.num as int) ==> sig.num == 9 || sig.num == 19
        },
        r is None ==> after == before && (has_signal(before.pending, n) ==> has_signal(
            before.mask,
            n,
        ) && n != 9 && n != 19),
{
    if r is Some {
        let k = (r->0).0.num;
        assert(before.info@.contains_key(k));
        assert(!(deliverable(before, n) && n < k));
    } else {
        assert(!deliverable(before, n));
    }
}

/// Signals 1 to 64 are valid, and 9 and 19 cannot be blocked.
pub proof fn kill_and_stop_cannot_be_blocked(s: SigSet, r: SigSet, n: int)
    requires
        blockable_part(s, r),
        1 <= n <= 64,
    ensures
        n == 9 || n == 19 ==> !has_signal(r, n),
        n != 9 && n != 19 ==> has_signal(r, n) == has_signal(s, n),
{
    assert(valid_signum(n));
    assert(has_signal(r, n) == (has_signal(s, n) && !unblockable(n)));
}

} // verus!
