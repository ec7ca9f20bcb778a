//! Counters of the heap, for each processor and each class of sizes.

use crate::perf::counters::larger;
use crate::perf::observe::now_ticks;
use vstd::prelude::*;

verus! {

/// The number of classes of sizes.
pub const HEAP_CLASS_COUNT: usize = 10;

/// One of so many heap operations is timed.
pub const HEAP_TIMING_SAMPLE_RATE: usize = 64;

/// Counts of one class of sizes.
#[derive(Debug, Clone, Copy, PartialEq, Eq, Structural)]
pub struct HeapClass {
    pub alloc_calls: usize,
    pub dealloc_calls: usize,
    pub alloc_bytes: usize,
    pub dealloc_bytes: usize,
    pub alloc_wait_ticks: usize,
    pub dealloc_wait_ticks: usize,
    pub alloc_core_ticks: usize,
    pub dealloc_core_ticks: usize,
}

/// Counts over all classes.
#[derive(Debug, Clone, Copy, PartialEq, Eq, Structural)]
pub struct HeapTotals {
    pub alloc_ticks: usize,
    pub dealloc_ticks: usize,
    pub max_alloc_ticks: usize,
    pub max_dealloc_ticks: usize,
    pub high_alignment_allocs: usize,
    pub alloc_timing_samples: usize,
    pub dealloc_timing_samples: usize,
    pub magazine_hits: usize,
    pub magazine_misses: usize,
    pub magazine_cached_frees: usize,
    pub magazine_refill_blocks: usize,
    pub magazine_overflow_returns: usize,
    pub magazine_reclaim_blocks: usize,
}

/// The heap counters of one processor.
#[derive(Debug)]
pub struct HeapClassCounters {
    /// Whether anything is counted.
    pub enabled: bool,
    pub classes: Vec<HeapClass>,
    pub totals: HeapTotals,
    /// Heap operations so far.
    pub timing_sequence: usize,
}

/// A class that has counted nothing.
pub open spec fn empty_class() -> HeapClass {
    HeapClass {
        alloc_calls: 0,
        dealloc_calls: 0,
        alloc_bytes: 0,
        dealloc_bytes: 0,
        alloc_wait_ticks: 0,
        dealloc_wait_ticks: 0,
        alloc_core_ticks: 0,
        dealloc_core_ticks: 0,
    }
}

/// Totals that have counted nothing.
pub open spec fn empty_totals() -> HeapTotals {
    HeapTotals {
        alloc_ticks: 0,
        dealloc_ticks: 0,
        max_alloc_ticks: 0,
        max_dealloc_ticks: 0,
        high_alignment_allocs: 0,
        alloc_timing_samples: 0,
        dealloc_timing_samples: 0,
        magazine_hits: 0,
        magazine_misses: 0,
        magazine_cached_frees: 0,
        magazine_refill_blocks: 0,
        magazine_overflow_returns: 0,
        magazine_reclaim_blocks: 0,
    }
}

fn new_class() -> (r: HeapClass)
    ensures
        r == empty_class(),
{
    HeapClass {
        alloc_calls: 0,
        dealloc_calls: 0,
        alloc_bytes: 0,
        dealloc_bytes: 0,
        alloc_wait_ticks: 0,
        dealloc_wait_ticks: 0,
        alloc_core_ticks: 0,
        dealloc_core_ticks: 0,
    }
}

fn new_totals() -> (r: HeapTotals)
    ensures
        r == empty_totals(),
{
    HeapTotals {
        alloc_ticks: 0,
        dealloc_ticks: 0,
        max_alloc_ticks: 0,
        max_dealloc_ticks: 0,
        high_alignment_allocs: 0,
        alloc_timing_samples: 0,
        dealloc_timing_samples: 0,
        magazine_hits: 0,
        magazine_misses: 0,
        magazine_cached_frees: 0,
        magazine_refill_blocks: 0,
        magazine_overflow_returns: 0,
        magazine_reclaim_blocks: 0,
    }
}

/// The largest size of a class; none for the last.
pub open spec fn class_bound(i: int) -> Option<int> {
    if i == 0 {
        Some(16)
    } else if i == 1 {
        Some(32)
    } else if i == 2 {
        Some(64)
    } else if i == 3 {
        Some(128)
    } else if i == 4 {
        Some(256)
    } else if i == 5 {
        Some(512)
    } else if i == 6 {
        Some(1024)
    } else if i == 7 {
        Some(2048)
    } else if i == 8 {
        Some(4096)
    } else {
        None
    }
}

/// A class is large enough for a size.
pub open spec fn class_holds(i: int, size: int) -> bool {
    match class_bound(i) {
        Some(b) => size <= b,
        None => true,
    }
}

/// The class of a size with an alignment: the first that is large enough for
/// both.
pub open spec fn is_class_of(i: int, size: usize, align: usize) -> bool {
    &&& 0 <= i < HEAP_CLASS_COUNT
    &&& class_holds(i, larger(size, align) as int)
    &&& forall|j: int| 0 <= j < i ==> !class_holds(j, larger(size, align) as int)
}

/// The class of a size with an alignment.
pub fn heap_class_index(size: usize, align: usize) -> (r: usize)
    ensures
        is_class_of(r as int, size, align),
{
    let n: usize = if size < align {
        align
    } else {
        size
    };
    if n <= 16 {
        0
    } else if n <= 32 {
        1
    } else if n <= 64 {
        2
    } else if n <= 128 {
        3
    } else if n <= 256 {
        4
    } else if n <= 512 {
        5
    } else if n <= 1024 {
        6
    } else if n <= 2048 {
        7
    } else if n <= 4096 {
        8
    } else {
        9
    }
}

/// Every size has exactly one class.
pub proof fn classes_are_unique(i: int, j: int, size: usize, align: usize)
    requires
        is_class_of(i, size, align),
        is_class_of(j, size, align),
    ensures
        i == j,
{
    if i < j {
        assert(!class_holds(i, larger(size, align) as int));
    }
    if j < i {
        assert(!class_holds(j, larger(size, align) as int));
    }
}

/// What a sample of ticks stands for, as far as it can be told.
pub open spec fn estimated(ticks: usize) -> usize {
    if ticks * HEAP_TIMING_SAMPLE_RATE > usize::MAX {
        usize::MAX
    } else {
        (ticks * HEAP_TIMING_SAMPLE_RATE) as usize
    }
}

fn estimate(ticks: usize) -> (r: usize)
    ensures
        r == estimated(ticks),
{
    match ticks.checked_mul(HEAP_TIMING_SAMPLE_RATE) {
        Some(n) => n,
        None => usize::MAX,
    }
}

/// A class after an allocation.
pub open spec fn class_alloc(
    c: HeapClass,
    size: usize,
    wait: usize,
    core: usize,
    succeeded: bool,
    sampled: bool,
) -> HeapClass {
    HeapClass {
        alloc_calls: c.alloc_calls.wrapping_add(1),
        alloc_wait_ticks: if sampled {
            c.alloc_wait_ticks.wrapping_add(estimated(wait))
        } else {
            c.alloc_wait_ticks
        },
        alloc_core_ticks: if sampled {
            c.alloc_core_ticks.wrapping_add(estimated(core))
        } else {
            c.alloc_core_ticks
        },
        alloc_bytes: if succeeded {
            c.alloc_bytes.wrapping_add(size)
        } else {
            c.alloc_bytes
        },
        ..c
    }
}

/// The totals after an allocation.
pub open spec fn totals_alloc(t: HeapTotals, size: usize, align: usize, ticks: usize, sampled: bool) -> HeapTotals {
    HeapTotals {
        alloc_ticks: if sampled {
            t.alloc_ticks.wrapping_add(estimated(ticks))
        } else {
            t.alloc_ticks
        },
        alloc_timing_samples: if sampled {
            t.alloc_timing_samples.wrapping_add(1)
        } else {
            t.alloc_timing_samples
        },
        max_alloc_ticks: if sampled {
            larger(t.max_alloc_ticks, ticks)
        } else {
            t.max_alloc_ticks
        },
        high_alignment_allocs: if align > size {
            t.high_alignment_allocs.wrapping_add(1)
        } else {
            t.high_alignment_allocs
        },
        ..t
    }
}

/// A class after a release.
pub open spec fn class_dealloc(c: HeapClass, size: usize, wait: usize, core: usize, sampled: bool) -> HeapClass {
    HeapClass {
        dealloc_calls: c.dealloc_calls.wrapping_add(1),
        dealloc_bytes: c.dealloc_bytes.wrapping_add(size),
        dealloc_wait_ticks: if sampled {
            c.dealloc_wait_ticks.wrapping_add(estimated(wait))
        } else {
            c.dealloc_wait_ticks
        },
        dealloc_core_ticks: if sampled {
            c.dealloc_core_ticks.wrapping_add(estimated(core))
        } else {
            c.dealloc_core_ticks
        },
        ..c
    }
}

/// The totals after a release.
pub open spec fn totals_dealloc(t: HeapTotals, ticks: usize, sampled: bool) -> HeapTotals {
    if sampled {
        HeapTotals {
            dealloc_ticks: t.dealloc_ticks.wrapping_add(estimated(ticks)),
            dealloc_timing_samples: t.dealloc_timing_samples.wrapping_add(1),
            max_dealloc_ticks: larger(t.max_dealloc_ticks, ticks),
            ..t
        }
    } else {
        t
    }
}

impl HeapClassCounters {
    /// There is one count for each class.
    pub open spec fn wf(&self) -> bool {
        self.classes@.len() == HEAP_CLASS_COUNT
    }

    /// Counters that have counted nothing.
    pub fn new(enabled: bool) -> (r: Self)
        ensures
            r.wf(),
            r.enabled == enabled,
            r.classes@ == Seq::new(10, |i: int| empty_class()),
            r.totals == empty_totals(),
            r.timing_sequence == 0,
    {
        let mut classes: Vec<HeapClass> = Vec::new();
        let mut i: usize = 0;
        while i < HEAP_CLASS_COUNT
            invariant
                i <= HEAP_CLASS_COUNT,
                classes@ =~= Seq::new(i as nat, |k: int| empty_class()),
            decreases HEAP_CLASS_COUNT - i,
        {
            classes.push(new_class());
            i = i + 1;
        }
        HeapClassCounters { enabled, classes, totals: new_totals(), timing_sequence: 0 }
    }
}

/// Counts an allocation. Ticks are counted of sampled operations only, and
/// stand for all.
pub fn heap_alloc(
    h: &mut HeapClassCounters,
    size: usize,
    align: usize,
    ticks: usize,
    lock_wait_ticks: usize,
    core_ticks: usize,
    succeeded: bool,
    timing_sampled: bool,
)
    requires
        old(h).wf(),
    ensures
        final(h).wf(),
        !old(h).enabled ==> *final(h) == *old(h),
        final(h).enabled == old(h).enabled,
        final(h).timing_sequence == old(h).timing_sequence,
        old(h).enabled ==> final(h).totals == totals_alloc(
            old(h).totals,
            size,
            align,
            ticks,
            timing_sampled,
        ),
        forall|i: int| #[trigger]
            is_class_of(i, size, align) && old(h).enabled ==> final(h).classes@ == old(h).classes@.update(
                i,
                class_alloc(
                    old(h).classes@[i],
                    size,
                    lock_wait_ticks,
                    core_ticks,
                    succeeded,
                    timing_sampled,
                ),
            ),
{
    if !h.enabled {
        return;
    }
    let i: usize = heap_class_index(size, align);
    let mut c = h.classes[i];
    c.alloc_calls = c.alloc_calls.wrapping_add(1);
    if timing_sampled {
        h.totals.alloc_ticks = h.totals.alloc_ticks.wrapping_add(estimate(ticks));
        c.alloc_wait_ticks = c.alloc_wait_ticks.wrapping_add(estimate(lock_wait_ticks));
        c.alloc_core_ticks = c.alloc_core_ticks.wrapping_add(estimate(core_ticks));
        h.totals.alloc_timing_samples = h.totals.alloc_timing_samples.wrapping_add(1);
        if h.totals.max_alloc_ticks < ticks {
            h.totals.max_alloc_ticks = ticks;
        }
    }
    if align > size {
        h.totals.high_alignment_allocs = h.totals.high_alignment_allocs.wrapping_add(1);
    }
    if succeeded {
        c.alloc_bytes = c.alloc_bytes.wrapping_add(size);
    }
    h.classes.set(i, c);
    proof {
        assert forall|j: int| #[trigger] is_class_of(j, size, align) implies j == i by {
            classes_are_unique(i as int, j, size, align);
        }
    }
}

/// Counts a release.
pub fn heap_dealloc(
    h: &mut HeapClassCounters,
    size: usize,
    align: usize,
    ticks: usize,
    lock_wait_ticks: usize,
    core_ticks: usize,
    timing_sampled: bool,
)
    requires
        old(h).wf(),
    ensures
        final(h).wf(),
        !old(h).enabled ==> *final(h) == *old(h),
        final(h).enabled == old(h).enabled,
        final(h).timing_sequence == old(h).timing_sequence,
        old(h).enabled ==> final(h).totals == totals_dealloc(old(h).totals, ticks, timing_sampled),
        forall|i: int| #[trigger]
            is_class_of(i, size, align) && old(h).enabled ==> final(h).classes@ == old(h).classes@.update(
                i,
                class_dealloc(
                    old(h).classes@[i],
                    size,
                    lock_wait_ticks,
                    core_ticks,
                    timing_sampled,
                ),
            ),
{
    if !h.enabled {
        return;
    }
    let i: usize = heap_class_index(size, align);
    let mut c = h.classes[i];
    c.dealloc_calls = c.dealloc_calls.wrapping_add(1);
    c.dealloc_bytes = c.dealloc_bytes.wrapping_add(size);
    if timing_sampled {
        h.totals.dealloc_ticks = h.totals.dealloc_ticks.wrapping_add(estimate(ticks));
        c.dealloc_wait_ticks = c.dealloc_wait_ticks.wrapping_add(estimate(lock_wait_ticks));
        c.dealloc_core_ticks = c.dealloc_core_ticks.wrapping_add(estimate(core_ticks));
        h.totals.dealloc_timing_samples = h.totals.dealloc_timing_samples.wrapping_add(1);
        if h.totals.max_dealloc_ticks < ticks {
            h.totals.max_dealloc_ticks = ticks;
        }
    }
    h.classes.set(i, c);
    proof {
        assert forall|j: int| #[trigger] is_class_of(j, size, align) implies j == i by {
            classes_are_unique(i as int, j, size, align);
        }
    }
}

/// The next heap operation is timed.
pub open spec fn is_timed(h: HeapClassCounters) -> bool {
    h.enabled && h.timing_sequence % HEAP_TIMING_SAMPLE_RATE == 0
}

/// Operation `k` of a run is counted: the next one has the next number.
pub open spec fn counted_at(hs: Seq<HeapClassCounters>, k: int) -> bool {
    hs[k].enabled && hs[k + 1].timing_sequence == hs[k].timing_sequence.wrapping_add(1)
}

proof fn numbers_follow(hs: Seq<HeapClassCounters>, i: int, k: int)
    requires
        0 <= i <= k < hs.len(),
        forall|j: int| 0 <= j < hs.len() - 1 ==> #[trigger] counted_at(hs, j),
    ensures
        hs[k].timing_sequence as int % 64 == (hs[i].timing_sequence + (k - i)) % 64,
    decreases k,
{
    if i < k {
        numbers_follow(hs, i, k - 1);
        assert(counted_at(hs, k - 1));
        let a = hs[k - 1].timing_sequence as int;
        assert((usize::MAX + 1) % 64 == 0);
        assert(hs[k].timing_sequence as int % 64 == (a + 1) % 64);
    }
}

/// Of any `HEAP_TIMING_SAMPLE_RATE` heap operations in a row exactly one is timed,
/// also where the count of operations starts again at zero. `hs[j]` is the state
/// before operation `j` of a run.
pub proof fn one_operation_of_a_row_is_timed(hs: Seq<HeapClassCounters>, i: int)
    requires
        0 <= i,
        i + HEAP_TIMING_SAMPLE_RATE < hs.len(),
        forall|j: int| 0 <= j < hs.len() - 1 ==> #[trigger] counted_at(hs, j),
    ensures
        exists|k: int| i <= k < i + HEAP_TIMING_SAMPLE_RATE && #[trigger] is_timed(hs[k]),
        forall|a: int, b: int|
            i <= a < i + HEAP_TIMING_SAMPLE_RATE && i <= b < i + HEAP_TIMING_SAMPLE_RATE
                && #[trigger] is_timed(hs[a]) && #[trigger] is_timed(hs[b]) ==> a == b,
{
    let first = hs[i].timing_sequence as int;
    let k = i + (64 - first % 64) % 64;
    numbers_follow(hs, i, k);
    assert(counted_at(hs, k));
    assert((first + (64 - first % 64) % 64) % 64 == 0);
    assert(is_timed(hs[k]));
    assert forall|a: int, b: int|
        i <= a < i + 64 && i <= b < i + 64 && #[trigger] is_timed(hs[a]) && #[trigger] is_timed(
            hs[b],
        ) implies a == b by {
        numbers_follow(hs, i, a);
        numbers_follow(hs, i, b);
    }
}

/// Starts to time a heap operation, one out of every
/// `HEAP_TIMING_SAMPLE_RATE`: the clock if this one is timed, zero
/// otherwise.
pub fn heap_timing_start(h: &mut HeapClassCounters, clock: usize) -> (r: usize)
    ensures
        r == (if is_timed(*old(h)) {
            clock
        } else {
            0
        }),
        *final(h) == (if old(h).enabled {
            HeapClassCounters {
                timing_sequence: old(h).timing_sequence.wrapping_add(1),
                ..*old(h)
            }
        } else {
            *old(h)
        }),
{
    if !h.enabled {
        return 0;
    }
    let n: usize = h.timing_sequence;
    h.timing_sequence = n.wrapping_add(1);
    if n % HEAP_TIMING_SAMPLE_RATE == 0 {
        clock
    } else {
        0
    }
}

/// A request was met from the magazine.
pub fn heap_magazine_hit(h: &mut HeapClassCounters, value: usize)
    ensures
        *final(h) == (if old(h).enabled {
            HeapClassCounters {
                totals: HeapTotals {
                    magazine_hits: old(h).totals.magazine_hits.wrapping_add(value),
                    ..old(h).totals
                },
                ..*old(h)
            }
        } else {
            *old(h)
        }),
{
    if h.enabled {
        h.totals.magazine_hits = h.totals.magazine_hits.wrapping_add(value);
    }
}

/// A request was not met from the magazine.
pub fn heap_magazine_miss(h: &mut HeapClassCounters, value: usize)
    ensures
        *final(h) == (if old(h).enabled {
            HeapClassCounters {
                totals: HeapTotals {
                    magazine_misses: old(h).totals.magazine_misses.wrapping_add(value),
                    ..old(h).totals
                },
                ..*old(h)
            }
        } else {
            *old(h)
        }),
{
    if h.enabled {
        h.totals.magazine_misses = h.totals.magazine_misses.wrapping_add(value);
    }
}

/// A released block went into the magazine.
pub fn heap_magazine_cached_free(h: &mut HeapClassCounters, value: usize)
    ensures
        *final(h) == (if old(h).enabled {
            HeapClassCounters {
                totals: HeapTotals {
                    magazine_cached_frees: old(h).totals.magazine_cached_frees.wrapping_add(
                        value,
                    ),
                    ..old(h).totals
                },
                ..*old(h)
            }
        } else {
            *old(h)
        }),
{
    if h.enabled {
        h.totals.magazine_cached_frees = h.totals.magazine_cached_frees.wrapping_add(value);
    }
}

/// Blocks were fetched to refill the magazine.
pub fn heap_magazine_refill_blocks(h: &mut HeapClassCounters, value: usize)
    ensures
        *final(h) == (if old(h).enabled {
            HeapClassCounters {
                totals: HeapTotals {
                    magazine_refill_blocks: old(h).totals.magazine_refill_blocks.wrapping_add(
                        value,
                    ),
                    ..old(h).totals
                },
                ..*old(h)
            }
        } else {
            *old(h)
        }),
{
    if h.enabled {
        h.totals.magazine_refill_blocks = h.totals.magazine_refill_blocks.wrapping_add(value);
    }
}

/// A block did not fit into the magazine.
pub fn heap_magazine_overflow_return(h: &mut HeapClassCounters, value: usize)
    ensures
        *final(h) == (if old(h).enabled {
            HeapClassCounters {
                totals: HeapTotals {
                    magazine_overflow_returns: old(h).totals.magazine_overflow_returns.wrapping_add(value),
                    ..old(h).totals
                },
                ..*old(h)
            }
        } else {
            *old(h)
        }),
{
    if h.enabled {
        h.totals.magazine_overflow_returns = h.totals.magazine_overflow_returns.wrapping_add(
            value,
        );
    }
}

/// Blocks were taken back out of the magazine.
pub fn heap_magazine_reclaim_blocks(h: &mut HeapClassCounters, value: usize)
    ensures
        *final(h) == (if old(h).enabled {
            HeapClassCounters {
                totals: HeapTotals {
                    magazine_reclaim_blocks: old(h).totals.magazine_reclaim_blocks.wrapping_add(
                        value,
                    ),
                    ..old(h).totals
                },
                ..*old(h)
            }
        } else {
            *old(h)
        }),
{
    if h.enabled {
        h.totals.magazine_reclaim_blocks = h.totals.magazine_reclaim_blocks.wrapping_add(
            value,
        );
    }
}

/// Goes on timing a heap operation that was started with a time.
pub fn heap_timing_checkpoint(enabled: bool, start: usize, clock: usize) -> (r: usize)
    ensures
        r == (if start == 0 || !enabled {
            0
        } else {
            clock
        }),
{
    if start == 0 {
        0
    } else {
        now_ticks(enabled, clock)
    }
}

/// The counts of all processors together.
#[derive(Debug)]
pub struct HeapClassSnapshot {
    pub classes: Vec<HeapClass>,
    pub totals: HeapTotals,
}

/// Two classes together.
pub open spec fn class_sum(a: HeapClass, b: HeapClass) -> HeapClass {
    HeapClass {
        alloc_calls: a.alloc_calls.wrapping_add(b.alloc_calls),
        dealloc_calls: a.dealloc_calls.wrapping_add(b.dealloc_calls),
        alloc_bytes: a.alloc_bytes.wrapping_add(b.alloc_bytes),
        dealloc_bytes: a.dealloc_bytes.wrapping_add(b.dealloc_bytes),
        alloc_wait_ticks: a.alloc_wait_ticks.wrapping_add(b.alloc_wait_ticks),
        dealloc_wait_ticks: a.dealloc_wait_ticks.wrapping_add(b.dealloc_wait_ticks),
        alloc_core_ticks: a.alloc_core_ticks.wrapping_add(b.alloc_core_ticks),
        dealloc_core_ticks: a.dealloc_core_ticks.wrapping_add(b.dealloc_core_ticks),
    }
}

/// Two totals together: sums, but the larger of the largest values.
pub open spec fn totals_sum(a: HeapTotals, b: HeapTotals) -> HeapTotals {
    HeapTotals {
        alloc_ticks: a.alloc_ticks.wrapping_add(b.alloc_ticks),
        dealloc_ticks: a.dealloc_ticks.wrapping_add(b.dealloc_ticks),
        max_alloc_ticks: larger(a.max_alloc_ticks, b.max_alloc_ticks),
        max_dealloc_ticks: larger(a.max_dealloc_ticks, b.max_dealloc_ticks),
        high_alignment_allocs: a.high_alignment_allocs.wrapping_add(b.high_alignment_allocs),
        alloc_timing_samples: a.alloc_timing_samples.wrapping_add(b.alloc_timing_samples),
        dealloc_timing_samples: a.dealloc_timing_samples.wrapping_add(b.dealloc_timing_samples),
        magazine_hits: a.magazine_hits.wrapping_add(b.magazine_hits),
        magazine_misses: a.magazine_misses.wrapping_add(b.magazine_misses),
        magazine_cached_frees: a.magazine_cached_frees.wrapping_add(b.magazine_cached_frees),
        magazine_refill_blocks: a.magazine_refill_blocks.wrapping_add(b.magazine_refill_blocks),
        magazine_overflow_returns: a.magazine_overflow_returns.wrapping_add(
            b.magazine_overflow_returns,
        ),
        magazine_reclaim_blocks: a.magazine_reclaim_blocks.wrapping_add(b.magazine_reclaim_blocks),
    }
}

/// A class of all processors together.
pub open spec fn class_of_all(harts: Seq<HeapClassCounters>, i: int) -> HeapClass
    decreases harts.len(),
{
    if harts.len() == 0 {
        empty_class()
    } else {
        class_sum(class_of_all(harts.drop_last(), i), harts.last().classes@[i])
    }
}

/// The totals of all processors together.
pub open spec fn totals_of_all(harts: Seq<HeapClassCounters>) -> HeapTotals
    decreases harts.len(),
{
    if harts.len() == 0 {
        empty_totals()
    } else {
        totals_sum(totals_of_all(harts.drop_last()), harts.last().totals)
    }
}

/// All classes together.
pub open spec fn class_total(classes: Seq<HeapClass>) -> HeapClass
    decreases classes.len(),
{
    if classes.len() == 0 {
        empty_class()
    } else {
        class_sum(class_total(classes.drop_last()), classes.last())
    }
}

fn add_class(a: HeapClass, b: HeapClass) -> (r: HeapClass)
    ensures
        r == class_sum(a, b),
{
    HeapClass {
        alloc_calls: a.alloc_calls.wrapping_add(b.alloc_calls),
        dealloc_calls: a.dealloc_calls.wrapping_add(b.dealloc_calls),
        alloc_bytes: a.alloc_bytes.wrapping_add(b.alloc_bytes),
        dealloc_bytes: a.dealloc_bytes.wrapping_add(b.dealloc_bytes),
        alloc_wait_ticks: a.alloc_wait_ticks.wrapping_add(b.alloc_wait_ticks),
        dealloc_wait_ticks: a.dealloc_wait_ticks.wrapping_add(b.dealloc_wait_ticks),
        alloc_core_ticks: a.alloc_core_ticks.wrapping_add(b.alloc_core_ticks),
        dealloc_core_ticks: a.dealloc_core_ticks.wrapping_add(b.dealloc_core_ticks),
    }
}

fn larger_of(a: usize, b: usize) -> (r: usize)
    ensures
        r == larger(a, b),
{
    if a < b {
        b
    } else {
        a
    }
}

fn add_totals(a: HeapTotals, b: HeapTotals) -> (r: HeapTotals)
    ensures
        r == totals_sum(a, b),
{
    HeapTotals {
        alloc_ticks: a.alloc_ticks.wrapping_add(b.alloc_ticks),
        dealloc_ticks: a.dealloc_ticks.wrapping_add(b.dealloc_ticks),
        max_alloc_ticks: larger_of(a.max_alloc_ticks, b.max_alloc_ticks),
        max_dealloc_ticks: larger_of(a.max_dealloc_ticks, b.max_dealloc_ticks),
        high_alignment_allocs: a.high_alignment_allocs.wrapping_add(b.high_alignment_allocs),
        alloc_timing_samples: a.alloc_timing_samples.wrapping_add(b.alloc_timing_samples),
        dealloc_timing_samples: a.dealloc_timing_samples.wrapping_add(b.dealloc_timing_samples),
        magazine_hits: a.magazine_hits.wrapping_add(b.magazine_hits),
        magazine_misses: a.magazine_misses.wrapping_add(b.magazine_misses),
        magazine_cached_frees: a.magazine_cached_frees.wrapping_add(b.magazine_cached_frees),
        magazine_refill_blocks: a.magazine_refill_blocks.wrapping_add(b.magazine_refill_blocks),
        magazine_overflow_returns: a.magazine_overflow_returns.wrapping_add(
            b.magazine_overflow_returns,
        ),
        magazine_reclaim_blocks: a.magazine_reclaim_blocks.wrapping_add(b.magazine_reclaim_blocks),
    }
}

/// The counts of all processors together.
pub fn heap_class_snapshot(harts: &Vec<HeapClassCounters>) -> (r: HeapClassSnapshot)
    requires
        forall|h: int| 0 <= h < harts@.len() ==> (#[trigger] harts@[h]).wf(),
    ensures
        r.classes@ == Seq::new(10, |i: int| class_of_all(harts@, i)),
        r.totals == totals_of_all(harts@),
{
    let mut classes: Vec<HeapClass> = Vec::new();
    let mut i: usize = 0;
    while i < HEAP_CLASS_COUNT
        invariant
            i <= HEAP_CLASS_COUNT,
            forall|h: int| 0 <= h < harts@.len() ==> (#[trigger] harts@[h]).wf(),
            classes@ =~= Seq::new(i as nat, |k: int| class_of_all(harts@, k)),
        decreases HEAP_CLASS_COUNT - i,
    {
        let mut sum = new_class();
        let mut h: usize = 0;
        while h < harts.len()
            invariant
                h <= harts@.len(),
                i < HEAP_CLASS_COUNT,
                forall|k: int| 0 <= k < harts@.len() ==> (#[trigger] harts@[k]).wf(),
                sum == class_of_all(harts@.take(h as int), i as int),
            decreases harts@.len() - h,
        {
            proof {
                assert(harts@.take(h + 1).drop_last() =~= harts@.take(h as int));
                assert(harts@.take(h + 1).last() == harts@[h as int]);
            }
            sum = add_class(sum, harts[h].classes[i]);
            h = h + 1;
        }
        proof {
            assert(harts@.take(h as int) =~= harts@);
        }
        classes.push(sum);
        i = i + 1;
    }
    let mut totals = new_totals();
    let mut h: usize = 0;
    while h < harts.len()
        invariant
            h <= harts@.len(),
            totals == totals_of_all(harts@.take(h as int)),
        decreases harts@.len() - h,
    {
        proof {
            assert(harts@.take(h + 1).drop_last() =~= harts@.take(h as int));
            assert(harts@.take(h + 1).last() == harts@[h as int]);
        }
        totals = add_totals(totals, harts[h].totals);
        h = h + 1;
    }
    proof {
        assert(harts@.take(h as int) =~= harts@);
    }
    HeapClassSnapshot { classes, totals }
}

/// All classes of a snapshot together.
pub fn sum_classes(classes: &Vec<HeapClass>) -> (r: HeapClass)
    ensures
        r == class_total(classes@),
{
    let mut sum = new_class();
    let mut i: usize = 0;
    while i < classes.len()
        invariant
            i <= classes@.len(),
            sum == class_total(classes@.take(i as int)),
        decreases classes@.len() - i,
    {
        proof {
            assert(classes@.take(i + 1).drop_last() =~= classes@.take(i as int));
            assert(classes@.take(i + 1).last() == classes@[i as int]);
        }
        sum = add_class(sum, classes[i]);
        i = i + 1;
    }
    proof {
        assert(classes@.take(i as int) =~= classes@);
    }
    sum
}

/// The class of an allocation is by the larger of size and alignment: up to 16 bytes, then
/// doubling up to 4096, and one class for all above.
pub proof fn classes_double(i: int, size: usize, align: usize)
    requires
        is_class_of(i, size, align),
    ensures
        0 <= i <= 9,
        i == 0 <==> size <= 16 && align <= 16,
        i == 9 <==> size > 4096 || align > 4096,
        i == 1 <==> size <= 32 && align <= 32 && (size > 16 || align > 16),
        i == 4 <==> size <= 256 && align <= 256 && (size > 128 || align > 128),
        i == 8 <==> size <= 4096 && align <= 4096 && (size > 2048 || align > 2048),
        forall|k: int|
            0 <= k < 8 ==> (#[trigger] class_bound(k + 1))->0 == 2 * (class_bound(k))->0,
        class_bound(0) == Some(16int),
{
    assert(i > 0 ==> !class_holds(i - 1, larger(size, align) as int));
    if i > 0 {
        assert(!class_holds(0, larger(size, align) as int));
    }
    if i > 4 {
        assert(!class_holds(4, larger(size, align) as int));
    }
    if i > 1 {
        assert(!class_holds(1, larger(size, align) as int));
    }
    if i > 8 {
        assert(!class_holds(8, larger(size, align) as int));
    }
}

/// One of 64 operations is timed, so a timed one stands for 64.
pub proof fn timed_operations_stand_for_all(ticks: usize, h: HeapClassCounters)
    ensures
        ticks * 64 <= usize::MAX ==> estimated(ticks) == ticks * 64,
        ticks * 64 > usize::MAX ==> estimated(ticks) == usize::MAX,
        h.enabled ==> is_timed(h) == (h.timing_sequence % 64 == 0),
        !h.enabled ==> !is_timed(h),
{
}

/// An allocation counts one call, its bytes if it succeeded and its times if it was timed, and
/// nothing of what is freed.
pub proof fn allocations_are_counted(
    c: HeapClass,
    size: usize,
    wait: usize,
    core: usize,
    succeeded: bool,
    sampled: bool,
)
    requires
        c.alloc_calls < usize::MAX,
        c.alloc_bytes + size <= usize::MAX,
        c.alloc_wait_ticks + wait * 64 <= usize::MAX,
        c.alloc_core_ticks + core * 64 <= usize::MAX,
    ensures
        ({
            let d = class_alloc(c, size, wait, core, succeeded, sampled);
            &&& d.alloc_calls == c.alloc_calls + 1
            &&& d.alloc_bytes == c.alloc_bytes + (if succeeded {
                size as int
            } else {
                0
            })
            &&& d.alloc_wait_ticks == c.alloc_wait_ticks + (if sampled {
                wait * 64
            } else {
                0
            })
            &&& d.alloc_core_ticks == c.alloc_core_ticks + (if sampled {
                core * 64
            } else {
                0
            })
            &&& d.dealloc_calls == c.dealloc_calls && d.dealloc_bytes == c.dealloc_bytes
                && d.dealloc_wait_ticks == c.dealloc_wait_ticks && d.dealloc_core_ticks
                == c.dealloc_core_ticks
        }),
{
}

/// What is freed counts one call, its bytes and its times if it was timed, and nothing of what
/// is allocated.
pub proof fn frees_are_counted(c: HeapClass, size: usize, wait: usize, core: usize, sampled: bool)
    requires
        c.dealloc_calls < usize::MAX,
        c.dealloc_bytes + size <= usize::MAX,
        c.dealloc_wait_ticks + wait * 64 <= usize::MAX,
        c.dealloc_core_ticks + core * 64 <= usize::MAX,
    ensures
        ({
            let d = class_dealloc(c, size, wait, core, sampled);
            &&& d.dealloc_calls == c.dealloc_calls + 1 && d.dealloc_bytes == c.dealloc_bytes + size
            &&& d.dealloc_wait_ticks == c.dealloc_wait_ticks + (if sampled {
                wait * 64
            } else {
                0
            })
            &&& d.dealloc_core_ticks == c.dealloc_core_ticks + (if sampled {
                core * 64
            } else {
                0
            })
            &&& d.alloc_calls == c.alloc_calls && d.alloc_bytes == c.alloc_bytes
                && d.alloc_wait_ticks == c.alloc_wait_ticks && d.alloc_core_ticks
                == c.alloc_core_ticks
        }),
{
}

/// The longest time is that of some timed operation, and one whose alignment is over its size
/// is counted apart.
pub proof fn longest_times_are_kept(
    t: HeapTotals,
    size: usize,
    align: usize,
    ticks: usize,
    sampled: bool,
)
    requires
        t.high_alignment_allocs < usize::MAX,
        t.alloc_timing_samples < usize::MAX,
        t.dealloc_timing_samples < usize::MAX,
    ensures
        ({
            let a = totals_alloc(t, size, align, ticks, sampled);
            let d = totals_dealloc(t, ticks, sampled);
            &&& sampled ==> a.max_alloc_ticks >= t.max_alloc_ticks && a.max_alloc_ticks >= ticks
                && (
            a.max_alloc_ticks == t.max_alloc_ticks || a.max_alloc_ticks == ticks)
            &&& sampled ==> d.max_dealloc_ticks >= t.max_dealloc_ticks && d.max_dealloc_ticks
                >= ticks && (d.max_dealloc_ticks == t.max_dealloc_ticks || d.max_dealloc_ticks
                == ticks)
            &&& !sampled ==> a.max_alloc_ticks == t.max_alloc_ticks && a.alloc_ticks
                == t.alloc_ticks && a.alloc_timing_samples == t.alloc_timing_samples && d == t
            &&& sampled ==> a.alloc_timing_samples == t.alloc_timing_samples + 1
                && d.dealloc_timing_samples == t.dealloc_timing_samples + 1
            &&& a.high_alignment_allocs == t.high_alignment_allocs + (if align > size {
                1int
            } else {
                0
            })
            &&& a.max_dealloc_ticks == t.max_dealloc_ticks && d.max_alloc_ticks
                == t.max_alloc_ticks
        }),
{
}

/// Adding up counts does not depend on the order, and what has counted nothing adds nothing.
pub proof fn sums_do_not_depend_on_order(
    a: HeapClass,
    b: HeapClass,
    t: HeapTotals,
    u: HeapTotals,
)
    ensures
        class_sum(a, b) == class_sum(b, a),
        class_sum(a, empty_class()) == a,
        totals_sum(t, u) == totals_sum(u, t),
        totals_sum(t, empty_totals()) == t,
        a.alloc_calls + b.alloc_calls <= usize::MAX ==> class_sum(a, b).alloc_calls == a.alloc_calls
            + b.alloc_calls,
        a.dealloc_bytes + b.dealloc_bytes <= usize::MAX ==> class_sum(a, b).dealloc_bytes
            == a.dealloc_bytes + b.dealloc_bytes,
        t.magazine_hits + u.magazine_hits <= usize::MAX ==> totals_sum(t, u).magazine_hits
            == t.magazine_hits + u.magazine_hits,
{
}

/// The sum over all processors, and over all classes, adds each once.
pub proof fn totals_add_each_once(
    harts: Seq<HeapClassCounters>,
    h: HeapClassCounters,
    i: int,
    classes: Seq<HeapClass>,
    c: HeapClass,
)
    ensures
        class_of_all(Seq::empty(), i) == empty_class(),
        class_of_all(harts.push(h), i) == class_sum(class_of_all(harts, i), h.classes@[i]),
        totals_of_all(Seq::empty()) == empty_totals(),
        totals_of_all(harts.push(h)) == totals_sum(totals_of_all(harts), h.totals),
        class_total(Seq::empty()) == empty_class(),
        class_total(classes.push(c)) == class_sum(class_total(classes), c),
{
    assert(harts.push(h).drop_last() =~= harts);
    assert(classes.push(c).drop_last() =~= classes);
}

} // verus!
