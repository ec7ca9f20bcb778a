//! The first item of a sequence with a property, and copies of bytes.

use vstd::prelude::*;

verus! {

/// Item `i` is the first one with property `f`.
pub open spec fn is_first<A>(s: Seq<A>, f: spec_fn(A) -> bool, i: int) -> bool {
    0 <= i < s.len() && f(s[i]) && forall|j: int| 0 <= j < i ==> !f(#[trigger] s[j])
}

/// Index of the first item with property `f`, if there is one.
pub open spec fn first_index<A>(s: Seq<A>, f: spec_fn(A) -> bool) -> Option<int> {
    if exists|i: int| is_first(s, f, i) {
        Some(choose|i: int| is_first(s, f, i))
    } else {
        None
    }
}

/// There is at most one first item.
pub proof fn first_is<A>(s: Seq<A>, f: spec_fn(A) -> bool, i: int)
    requires
        is_first(s, f, i),
    ensures
        first_index(s, f) == Some(i),
{
    let j = choose|j: int| is_first(s, f, j);
    assert(is_first(s, f, j));
    if i < j {
        assert(!f(s[i]));
    } else if j < i {
        assert(!f(s[j]));
    }
}

/// No first item where no item has the property.
pub proof fn first_is_none<A>(s: Seq<A>, f: spec_fn(A) -> bool)
    requires
        forall|i: int| 0 <= i < s.len() ==> !f(#[trigger] s[i]),
    ensures
        first_index(s, f) is None,
{
    if exists|i: int| is_first(s, f, i) {
        let i = choose|i: int| is_first(s, f, i);
        assert(!f(s[i]));
    }
}

/// Where an item has the property there is a first one.
pub proof fn first_exists<A>(s: Seq<A>, f: spec_fn(A) -> bool, k: int)
    requires
        0 <= k < s.len(),
        f(s[k]),
    ensures
        first_index(s, f) is Some,
        0 <= first_index(s, f)->0 <= k,
        f(s[first_index(s, f)->0]),
    decreases k,
{
    if forall|j: int| 0 <= j < k ==> !f(#[trigger] s[j]) {
        assert(is_first(s, f, k));
        first_is(s, f, k);
    } else {
        let j = choose|j: int| 0 <= j < k && f(#[trigger] s[j]);
        first_exists(s, f, j);
    }
}

/// A copy of the bytes from `from` up to `to`.
pub fn copy_range(s: &[u8], from: usize, to: usize) -> (r: Vec<u8>)
    requires
        from <= to <= s@.len(),
    ensures
        r@ == s@.subrange(from as int, to as int),
{
    let mut out: Vec<u8> = Vec::new();
    let mut i: usize = from;
    while i < to
        invariant
            from <= i <= to <= s@.len(),
            out@ == s@.subrange(from as int, i as int),
        decreases to - i,
    {
        out.push(s[i]);
        i = i + 1;
        proof {
            assert(out@ =~= s@.subrange(from as int, i as int));
        }
    }
    out
}

} // verus!
