//! Facts about single bits of machine words.

use vstd::prelude::*;

verus! {

/// Tells whether bit `i` of `w` is set.
pub open spec fn bit(w: u64, i: int) -> bool {
    0 <= i < 64 && (w >> (i as u64)) & 1u64 == 1u64
}

/// What setting or clearing bit `i` does to bit `j`.
pub proof fn one_bit_update(w: u64, i: u64, j: u64)
    requires
        i < 64,
        j < 64,
    ensures
        bit(w | (1u64 << i), j as int) == (bit(w, j as int) || i == j),
        bit(w & !(1u64 << i), j as int) == (bit(w, j as int) && i != j),
        (w & (1u64 << i) == 1u64 << i) == bit(w, i as int),
        bit(1u64 << i, j as int) == (i == j),
        bit(0, j as int) == false,
{
    assert(((w | (1u64 << i)) >> j) & 1u64 == 1u64 <==> ((w >> j) & 1u64 == 1u64 || i == j))
        by (bit_vector)
        requires
            i < 64,
            j < 64,
    ;
    assert(((w & !(1u64 << i)) >> j) & 1u64 == 1u64 <==> ((w >> j) & 1u64 == 1u64 && i != j))
        by (bit_vector)
        requires
            i < 64,
            j < 64,
    ;
    assert((w & (1u64 << i) == 1u64 << i) <==> (w >> i) & 1u64 == 1u64) by (bit_vector)
        requires
            i < 64,
    ;
    assert(((1u64 << i) >> j) & 1u64 == 1u64 <==> i == j) by (bit_vector)
        requires
            i < 64,
            j < 64,
    ;
    assert((0u64 >> j) & 1u64 == 0u64) by (bit_vector)
        requires
            j < 64,
    ;
}

/// Union, intersection and difference of words, bit by bit.
pub proof fn word_ops(a: u64, b: u64, j: u64)
    requires
        j < 64,
    ensures
        bit(a | b, j as int) == (bit(a, j as int) || bit(b, j as int)),
        bit(a & b, j as int) == (bit(a, j as int) && bit(b, j as int)),
        bit(a & !b, j as int) == (bit(a, j as int) && !bit(b, j as int)),
{
    assert(((a | b) >> j) & 1u64 == 1u64 <==> ((a >> j) & 1u64 == 1u64 || (b >> j) & 1u64 == 1u64))
        by (bit_vector)
        requires
            j < 64,
    ;
    assert(((a & b) >> j) & 1u64 == 1u64 <==> ((a >> j) & 1u64 == 1u64 && (b >> j) & 1u64 == 1u64))
        by (bit_vector)
        requires
            j < 64,
    ;
    assert(((a & !b) >> j) & 1u64 == 1u64 <==> ((a >> j) & 1u64 == 1u64 && !((b >> j) & 1u64
        == 1u64))) by (bit_vector)
        requires
            j < 64,
    ;
}

} // verus!
