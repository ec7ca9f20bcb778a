//! A map from numbers that is walked in ascending order of its keys.

use vstd::prelude::*;

verus! {

/// Entries in strictly ascending order of their keys.
#[derive(Debug)]
pub struct SortedMap<V> {
    pub entries: Vec<(usize, V)>,
}

/// Keys ascend strictly.
pub open spec fn ascending<V>(s: Seq<(usize, V)>) -> bool {
    forall|i: int, j: int| 0 <= i < j < s.len() ==> (#[trigger] s[i]).0 < (#[trigger] s[j]).0
}

/// Key `k` is at index `i`.
pub open spec fn key_at<V>(s: Seq<(usize, V)>, k: usize, i: int) -> bool {
    0 <= i < s.len() && s[i].0 == k
}

/// Some entry has key `k`.
pub open spec fn has_key<V>(s: Seq<(usize, V)>, k: usize) -> bool {
    exists|i: int| key_at(s, k, i)
}

/// The value of the entry with key `k`.
pub open spec fn value_of<V>(s: Seq<(usize, V)>, k: usize) -> V {
    s[choose|i: int| key_at(s, k, i)].1
}

/// `b` is `a` with value `v` under key `k`, at index `i`.
pub open spec fn placed<V>(
    a: Seq<(usize, V)>,
    b: Seq<(usize, V)>,
    k: usize,
    v: V,
    i: int,
) -> bool {
    if has_key(a, k) {
        key_at(a, k, i) && b == a.update(i, (k, v))
    } else {
        0 <= i <= a.len() && b == a.insert(i, (k, v))
    }
}

/// `b` is `a` without key `k`, which was at index `i`.
pub open spec fn taken_out<V>(a: Seq<(usize, V)>, b: Seq<(usize, V)>, k: usize, i: int) -> bool {
    key_at(a, k, i) && b == a.remove(i)
}

impl<V> View for SortedMap<V> {
    type V = Map<usize, V>;

    open spec fn view(&self) -> Map<usize, V> {
        Map::new(|k: usize| has_key(self.entries@, k), |k: usize| value_of(self.entries@, k))
    }
}

impl<V> SortedMap<V> {
    pub open spec fn wf(&self) -> bool {
        ascending(self.entries@)
    }

    /// The entry at index `i` is what the map holds under its key.
    pub proof fn entry_in_view(&self, i: int)
        requires
            self.wf(),
            0 <= i < self.entries@.len(),
        ensures
            self@.contains_key(self.entries@[i].0),
            self@[self.entries@[i].0] == self.entries@[i].1,
    {
        let k = self.entries@[i].0;
        assert(key_at(self.entries@, k, i));
        let j = choose|j: int| key_at(self.entries@, k, j);
        assert(key_at(self.entries@, k, j));
        if i < j {
        } else if j < i {
        }
        assert(i == j);
    }

    /// A key of the map is the key of an entry.
    pub proof fn view_has_entry(&self, k: usize) -> (i: int)
        requires
            self.wf(),
            self@.contains_key(k),
        ensures
            0 <= i < self.entries@.len(),
            self.entries@[i] == (k, self@[k]),
    {
        let i = choose|i: int| key_at(self.entries@, k, i);
        assert(key_at(self.entries@, k, i));
        self.entry_in_view(i);
        i
    }

    /// The empty map.
    pub fn new() -> (r: Self)
        ensures
            r.wf(),
            r.entries@.len() == 0,
            r@ == Map::<usize, V>::empty(),
    {
        let r = SortedMap { entries: Vec::new() };
        proof {
            assert(r@ =~= Map::<usize, V>::empty());
        }
        r
    }

    /// The number of entries.
    pub fn len(&self) -> (r: usize)
        ensures
            r == self.entries@.len(),
    {
        self.entries.len()
    }

    /// The index of the first entry whose key is not below `k`.
    pub fn lower_bound(&self, k: usize) -> (r: usize)
        requires
            self.wf(),
        ensures
            r <= self.entries@.len(),
            forall|i: int| 0 <= i < r ==> (#[trigger] self.entries@[i]).0 < k,
            forall|i: int| r <= i < self.entries@.len() ==> (#[trigger] self.entries@[i]).0 >= k,
    {
        let mut i: usize = 0;
        while i < self.entries.len() && self.entries[i].0 < k
            invariant
                i <= self.entries@.len(),
                self.wf(),
                forall|j: int| 0 <= j < i ==> (#[trigger] self.entries@[j]).0 < k,
            decreases self.entries@.len() - i,
        {
            i = i + 1;
        }
        i
    }

    /// The index of key `k`.
    pub fn position(&self, k: usize) -> (r: Option<usize>)
        requires
            self.wf(),
        ensures
            match r {
                Some(i) => key_at(self.entries@, k, i as int) && self@.contains_key(k)
                    && self@[k] == self.entries@[i as int].1,
                None => !self@.contains_key(k) && !has_key(self.entries@, k),
            },
    {
        let i: usize = self.lower_bound(k);
        if i < self.entries.len() && self.entries[i].0 == k {
            proof {
                self.entry_in_view(i as int);
            }
            Some(i)
        } else {
            None
        }
    }

    /// Tells whether key `k` is in the map.
    pub fn contains_key(&self, k: usize) -> (r: bool)
        requires
            self.wf(),
        ensures
            r == self@.contains_key(k),
    {
        self.position(k).is_some()
    }

    /// The value of key `k`.
    pub fn get(&self, k: usize) -> (r: Option<&V>)
        requires
            self.wf(),
        ensures
            match r {
                Some(v) => self@.contains_key(k) && *v == self@[k],
                None => !self@.contains_key(k),
            },
    {
        match self.position(k) {
            Some(i) => Some(&self.entries[i].1),
            None => None,
        }
    }

    /// Sets the value of key `k`.
    pub fn insert(&mut self, k: usize, v: V)
        requires
            old(self).wf(),
        ensures
            final(self).wf(),
            final(self)@ == old(self)@.insert(k, v),
            exists|i: int| placed(old(self).entries@, final(self).entries@, k, v, i),
    {
        let i: usize = self.lower_bound(k);
        let ghost before = *self;
        let ghost s = self.entries@;
        if i < self.entries.len() && self.entries[i].0 == k {
            self.entries.set(i, (k, v));
            proof {
                let t = self.entries@;
                assert(ascending(t));
                lemma_replaced(before, *self, k, v, i as int);
                assert(key_at(s, k, i as int));
                assert(placed(s, t, k, v, i as int));
            }
        } else {
            self.entries.insert(i, (k, v));
            proof {
                let t = self.entries@;
                assert(t =~= s.insert(i as int, (k, v)));
                assert(ascending(t));
                lemma_inserted(before, *self, k, v, i as int);
                assert(placed(s, t, k, v, i as int));
            }
        }
    }

    /// Takes key `k` out.
    pub fn remove(&mut self, k: usize) -> (r: Option<V>)
        requires
            old(self).wf(),
        ensures
            final(self).wf(),
            final(self)@ == old(self)@.remove(k),
            match r {
                Some(v) => old(self)@.contains_key(k) && v == old(self)@[k] && exists|i: int|
                    taken_out(old(self).entries@, final(self).entries@, k, i),
                None => !old(self)@.contains_key(k) && *final(self) == *old(self),
            },
    {
        match self.position(k) {
            Some(i) => {
                let ghost before = *self;
                let (_, v) = self.entries.remove(i);
                proof {
                    assert(ascending(self.entries@));
                    lemma_removed(before, *self, k, i as int);
                    assert(taken_out(before.entries@, self.entries@, k, i as int));
                }
                Some(v)
            },
            None => {
                proof {
                    assert(self@ =~= self@.remove(k));
                }
                None
            },
        }
    }
}

proof fn lemma_replaced<V>(a: SortedMap<V>, b: SortedMap<V>, k: usize, v: V, i: int)
    requires
        a.wf(),
        b.wf(),
        key_at(a.entries@, k, i),
        b.entries@ == a.entries@.update(i, (k, v)),
    ensures
        b@ == a@.insert(k, v),
{
    b.entry_in_view(i);
    assert forall|q: usize| a@.insert(k, v).contains_key(q) == #[trigger] b@.contains_key(q) by {
        if a@.contains_key(q) {
            let j = a.view_has_entry(q);
            b.entry_in_view(j);
        }
        if b@.contains_key(q) && q != k {
            let j = b.view_has_entry(q);
            a.entry_in_view(j);
        }
    }
    assert forall|q: usize| #[trigger] b@.contains_key(q) implies b@[q] == a@.insert(k, v)[q] by {
        let j = b.view_has_entry(q);
        if j != i {
            a.entry_in_view(j);
        }
    }
    assert(b@ =~= a@.insert(k, v));
}

proof fn lemma_inserted<V>(a: SortedMap<V>, b: SortedMap<V>, k: usize, v: V, i: int)
    requires
        a.wf(),
        b.wf(),
        0 <= i <= a.entries@.len(),
        !has_key(a.entries@, k) || forall|j: int|
            0 <= j < a.entries@.len() ==> (#[trigger] a.entries@[j]).0 != k,
        b.entries@ == a.entries@.insert(i, (k, v)),
    ensures
        b@ == a@.insert(k, v),
{
    assert(b.entries@[i] == (k, v));
    b.entry_in_view(i);
    assert forall|q: usize| a@.insert(k, v).contains_key(q) == #[trigger] b@.contains_key(q) by {
        if a@.contains_key(q) {
            let j = a.view_has_entry(q);
            if j < i {
                assert(b.entries@[j] == a.entries@[j]);
                b.entry_in_view(j);
            } else {
                assert(b.entries@[j + 1] == a.entries@[j]);
                b.entry_in_view(j + 1);
            }
        }
        if b@.contains_key(q) && q != k {
            let j = b.view_has_entry(q);
            if j < i {
                a.entry_in_view(j);
            } else if j > i {
                assert(b.entries@[j] == a.entries@[j - 1]);
                a.entry_in_view(j - 1);
            }
        }
    }
    assert forall|q: usize| #[trigger] b@.contains_key(q) implies b@[q] == a@.insert(k, v)[q] by {
        let j = b.view_has_entry(q);
        if j < i {
            a.entry_in_view(j);
        } else if j > i {
            assert(b.entries@[j] == a.entries@[j - 1]);
            a.entry_in_view(j - 1);
        }
    }
    assert(b@ =~= a@.insert(k, v));
}

proof fn lemma_removed<V>(a: SortedMap<V>, b: SortedMap<V>, k: usize, i: int)
    requires
        a.wf(),
        b.wf(),
        key_at(a.entries@, k, i),
        b.entries@ == a.entries@.remove(i),
    ensures
        b@ == a@.remove(k),
{
    assert forall|q: usize| a@.remove(k).contains_key(q) == #[trigger] b@.contains_key(q) by {
        if a@.contains_key(q) && q != k {
            let j = a.view_has_entry(q);
            if j < i {
                assert(b.entries@[j] == a.entries@[j]);
                b.entry_in_view(j);
            } else {
                assert(b.entries@[j - 1] == a.entries@[j]);
                b.entry_in_view(j - 1);
            }
        }
        if b@.contains_key(q) {
            let j = b.view_has_entry(q);
            if j < i {
                assert(b.entries@[j] == a.entries@[j]);
                a.entry_in_view(j);
            } else {
                assert(b.entries@[j] == a.entries@[j + 1]);
                a.entry_in_view(j + 1);
            }
        }
    }
    assert forall|q: usize| #[trigger] b@.contains_key(q) implies b@[q] == a@.remove(k)[q] by {
        let j = b.view_has_entry(q);
        if j < i {
            assert(b.entries@[j] == a.entries@[j]);
            a.entry_in_view(j);
        } else {
            assert(b.entries@[j] == a.entries@[j + 1]);
            a.entry_in_view(j + 1);
        }
    }
    assert(b@ =~= a@.remove(k));
}

} // verus!
