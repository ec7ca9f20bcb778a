//! What is counted of single events.

use crate::perf::counters::{
    counted, ext4_lock_acquisition, ext4_lock_hold_ticks, ext4_lock_wait_ticks, larger, local_sfence,
    local_sfence_ticks, scheduler_lock_acquisition, scheduler_lock_wait_ticks, Counters, Snapshot,
};
use vstd::prelude::*;

verus! {

fn max(a: usize, b: usize) -> (r: usize)
    ensures
        r == larger(a, b),
{
    if a < b {
        b
    } else {
        a
    }
}

/// The largest range of pages that was shot down.
pub fn observe_tlb_shootdown_range_pages(c: &mut Counters, value: usize)
    ensures
        *final(c) == counted(
            *old(c),
            Snapshot {
                tlb_shootdown_range_max_pages: larger(
                    old(c).counts.tlb_shootdown_range_max_pages,
                    value,
                ),
                ..old(c).counts
            },
        ),
{
    if c.enabled {
        c.counts.tlb_shootdown_range_max_pages = max(c.counts.tlb_shootdown_range_max_pages, value);
    }
}

/// The counts after a range of so many pages was shot down.
pub open spec fn range_counted(s: Snapshot, pages: usize) -> Snapshot {
    if pages == 1 {
        Snapshot {
            tlb_shootdown_range_single_page: s.tlb_shootdown_range_single_page.wrapping_add(1),
            ..s
        }
    } else if pages <= 16 {
        Snapshot {
            tlb_shootdown_range_le16_pages: s.tlb_shootdown_range_le16_pages.wrapping_add(1),
            ..s
        }
    } else if pages <= 256 {
        Snapshot {
            tlb_shootdown_range_le256_pages: s.tlb_shootdown_range_le256_pages.wrapping_add(1),
            ..s
        }
    } else {
        Snapshot {
            tlb_shootdown_range_gt256_pages: s.tlb_shootdown_range_gt256_pages.wrapping_add(1),
            ..s
        }
    }
}

/// Counts a range of pages that was shot down by its size.
pub fn classify_tlb_shootdown_range(c: &mut Counters, pages: usize)
    ensures
        *final(c) == counted(*old(c), range_counted(old(c).counts, pages)),
{
    if !c.enabled {
        return;
    }
    let s = &mut c.counts;
    if pages == 1 {
        s.tlb_shootdown_range_single_page = s.tlb_shootdown_range_single_page.wrapping_add(1);
    } else if pages <= 16 {
        s.tlb_shootdown_range_le16_pages = s.tlb_shootdown_range_le16_pages.wrapping_add(1);
    } else if pages <= 256 {
        s.tlb_shootdown_range_le256_pages = s.tlb_shootdown_range_le256_pages.wrapping_add(1);
    } else {
        s.tlb_shootdown_range_gt256_pages = s.tlb_shootdown_range_gt256_pages.wrapping_add(1);
    }
}

/// The counts after so many bytes were read from a block device.
pub open spec fn read_counted(s: Snapshot, size: usize) -> Snapshot {
    if size <= 512 {
        Snapshot { block_read_512_or_less: s.block_read_512_or_less.wrapping_add(1), ..s }
    } else if size <= 4096 {
        Snapshot { block_read_4k_or_less: s.block_read_4k_or_less.wrapping_add(1), ..s }
    } else if size <= 65536 {
        Snapshot { block_read_64k_or_less: s.block_read_64k_or_less.wrapping_add(1), ..s }
    } else {
        Snapshot { block_read_over_64k: s.block_read_over_64k.wrapping_add(1), ..s }
    }
}

/// Counts a read from a block device by its size.
pub fn block_read_size(c: &mut Counters, size: usize)
    ensures
        *final(c) == counted(*old(c), read_counted(old(c).counts, size)),
{
    if !c.enabled {
        return;
    }
    let s = &mut c.counts;
    if size <= 512 {
        s.block_read_512_or_less = s.block_read_512_or_less.wrapping_add(1);
    } else if size <= 4096 {
        s.block_read_4k_or_less = s.block_read_4k_or_less.wrapping_add(1);
    } else if size <= 65536 {
        s.block_read_64k_or_less = s.block_read_64k_or_less.wrapping_add(1);
    } else {
        s.block_read_over_64k = s.block_read_over_64k.wrapping_add(1);
    }
}

/// The largest number of dirty pages.
pub fn observe_dirty_pages(c: &mut Counters, value: usize)
    ensures
        *final(c) == counted(
            *old(c),
            Snapshot {
                dirty_pages_peak: larger(old(c).counts.dirty_pages_peak, value),
                ..old(c).counts
            },
        ),
{
    if c.enabled {
        c.counts.dirty_pages_peak = max(c.counts.dirty_pages_peak, value);
    }
}

/// Counts a wait for the lock of the file system.
pub fn observe_ext4_lock_wait(c: &mut Counters, value: usize)
    ensures
        *final(c) == counted(
            *old(c),
            Snapshot {
                ext4_lock_acquisitions: old(c).counts.ext4_lock_acquisitions.wrapping_add(1),
                ext4_lock_wait_ticks: old(c).counts.ext4_lock_wait_ticks.wrapping_add(value),
                ext4_lock_max_wait_ticks: larger(old(c).counts.ext4_lock_max_wait_ticks, value),
                ..old(c).counts
            },
        ),
{
    ext4_lock_acquisition(c, 1);
    ext4_lock_wait_ticks(c, value);
    if c.enabled {
        c.counts.ext4_lock_max_wait_ticks = max(c.counts.ext4_lock_max_wait_ticks, value);
    }
}

/// Counts how long the lock of the file system was held.
pub fn observe_ext4_lock_hold(c: &mut Counters, value: usize)
    ensures
        *final(c) == counted(
            *old(c),
            Snapshot {
                ext4_lock_hold_ticks: old(c).counts.ext4_lock_hold_ticks.wrapping_add(value),
                ext4_lock_max_hold_ticks: larger(old(c).counts.ext4_lock_max_hold_ticks, value),
                ..old(c).counts
            },
        ),
{
    ext4_lock_hold_ticks(c, value);
    if c.enabled {
        c.counts.ext4_lock_max_hold_ticks = max(c.counts.ext4_lock_max_hold_ticks, value);
    }
}

/// Counts a wait for the lock of the scheduler.
pub fn observe_scheduler_lock_wait(c: &mut Counters, value: usize)
    ensures
        *final(c) == counted(
            *old(c),
            Snapshot {
                scheduler_lock_acquisitions: old(c).counts.scheduler_lock_acquisitions.wrapping_add(
                    1,
                ),
                scheduler_lock_wait_ticks: old(c).counts.scheduler_lock_wait_ticks.wrapping_add(
                    value,
                ),
                scheduler_lock_max_wait_ticks: larger(
                    old(c).counts.scheduler_lock_max_wait_ticks,
                    value,
                ),
                ..old(c).counts
            },
        ),
{
    scheduler_lock_acquisition(c, 1);
    scheduler_lock_wait_ticks(c, value);
    if c.enabled {
        c.counts.scheduler_lock_max_wait_ticks = max(c.counts.scheduler_lock_max_wait_ticks, value);
    }
}

/// Counts a fence on other processors.
pub fn observe_remote_rfence(c: &mut Counters, target_harts: usize, wait_ticks: usize)
    ensures
        *final(c) == counted(
            *old(c),
            Snapshot {
                remote_rfences: old(c).counts.remote_rfences.wrapping_add(1),
                remote_rfence_target_harts: old(c).counts.remote_rfence_target_harts.wrapping_add(
                    target_harts,
                ),
                remote_rfence_wait_ticks: old(c).counts.remote_rfence_wait_ticks.wrapping_add(
                    wait_ticks,
                ),
                remote_rfence_max_wait_ticks: larger(
                    old(c).counts.remote_rfence_max_wait_ticks,
                    wait_ticks,
                ),
                ..old(c).counts
            },
        ),
{
    if !c.enabled {
        return;
    }
    let s = &mut c.counts;
    s.remote_rfences = s.remote_rfences.wrapping_add(1);
    s.remote_rfence_target_harts = s.remote_rfence_target_harts.wrapping_add(target_harts);
    s.remote_rfence_wait_ticks = s.remote_rfence_wait_ticks.wrapping_add(wait_ticks);
    s.remote_rfence_max_wait_ticks = max(s.remote_rfence_max_wait_ticks, wait_ticks);
}

/// Counts a fence on this processor.
pub fn observe_local_sfence(c: &mut Counters, ticks: usize)
    ensures
        *final(c) == counted(
            *old(c),
            Snapshot {
                local_sfences: old(c).counts.local_sfences.wrapping_add(1),
                local_sfence_ticks: old(c).counts.local_sfence_ticks.wrapping_add(ticks),
                local_sfence_max_ticks: larger(old(c).counts.local_sfence_max_ticks, ticks),
                ..old(c).counts
            },
        ),
{
    local_sfence(c, 1);
    local_sfence_ticks(c, ticks);
    if c.enabled {
        c.counts.local_sfence_max_ticks = max(c.counts.local_sfence_max_ticks, ticks);
    }
}

/// Takes note of how many threads are ready to run.
pub fn observe_scheduler_ready(c: &mut Counters, value: usize)
    ensures
        *final(c) == (if old(c).enabled {
            Counters {
                ready_now: value,
                counts: Snapshot {
                    scheduler_ready_peak: larger(old(c).counts.scheduler_ready_peak, value),
                    ..old(c).counts
                },
                ..*old(c)
            }
        } else {
            *old(c)
        }),
{
    if c.enabled {
        c.ready_now = value;
        c.counts.scheduler_ready_peak = max(c.counts.scheduler_ready_peak, value);
    }
}

/// A processor starts to run a thread.
pub fn task_running_begin(c: &mut Counters)
    ensures
        *final(c) == (if old(c).enabled {
            Counters { running_now: old(c).running_now.wrapping_add(1), ..*old(c) }
        } else {
            *old(c)
        }),
{
    if c.enabled {
        c.running_now = c.running_now.wrapping_add(1);
    }
}

/// A processor stops to run a thread.
pub fn task_running_end(c: &mut Counters)
    ensures
        *final(c) == (if old(c).enabled {
            Counters { running_now: old(c).running_now.wrapping_sub(1), ..*old(c) }
        } else {
            *old(c)
        }),
{
    if c.enabled {
        c.running_now = c.running_now.wrapping_sub(1);
    }
}

/// Starting and stopping to run a thread cancel out.
pub proof fn running_threads_balance(n: usize)
    ensures
        n.wrapping_add(1).wrapping_sub(1) == n,
        n.wrapping_sub(1).wrapping_add(1) == n,
{
}

/// The counts after so many processors were found running a thread.
pub open spec fn running_sampled(s: Snapshot, value: usize) -> Snapshot {
    if value == 0 {
        Snapshot { running_harts_0: s.running_harts_0.wrapping_add(1), ..s }
    } else if value == 1 {
        Snapshot { running_harts_1: s.running_harts_1.wrapping_add(1), ..s }
    } else if value <= 3 {
        Snapshot { running_harts_2_3: s.running_harts_2_3.wrapping_add(1), ..s }
    } else if value <= 7 {
        Snapshot { running_harts_4_7: s.running_harts_4_7.wrapping_add(1), ..s }
    } else {
        Snapshot { running_harts_8_plus: s.running_harts_8_plus.wrapping_add(1), ..s }
    }
}

/// The counts after so many threads were found ready to run.
pub open spec fn ready_sampled(s: Snapshot, value: usize) -> Snapshot {
    if value == 0 {
        Snapshot { scheduler_ready_0: s.scheduler_ready_0.wrapping_add(1), ..s }
    } else if value == 1 {
        Snapshot { scheduler_ready_1: s.scheduler_ready_1.wrapping_add(1), ..s }
    } else if value <= 3 {
        Snapshot { scheduler_ready_2_3: s.scheduler_ready_2_3.wrapping_add(1), ..s }
    } else if value <= 7 {
        Snapshot { scheduler_ready_4_7: s.scheduler_ready_4_7.wrapping_add(1), ..s }
    } else {
        Snapshot { scheduler_ready_8_plus: s.scheduler_ready_8_plus.wrapping_add(1), ..s }
    }
}

/// Takes a sample of how many threads run and are ready to.
pub fn sample_concurrency(c: &mut Counters)
    ensures
        *final(c) == counted(
            *old(c),
            ready_sampled(
                running_sampled(
                    Snapshot {
                        concurrency_samples: old(c).counts.concurrency_samples.wrapping_add(1),
                        ..old(c).counts
                    },
                    old(c).running_now,
                ),
                old(c).ready_now,
            ),
        ),
{
    if !c.enabled {
        return;
    }
    let running: usize = c.running_now;
    let ready: usize = c.ready_now;
    let s = &mut c.counts;
    s.concurrency_samples = s.concurrency_samples.wrapping_add(1);
    if running == 0 {
        s.running_harts_0 = s.running_harts_0.wrapping_add(1);
    } else if running == 1 {
        s.running_harts_1 = s.running_harts_1.wrapping_add(1);
    } else if running <= 3 {
        s.running_harts_2_3 = s.running_harts_2_3.wrapping_add(1);
    } else if running <= 7 {
        s.running_harts_4_7 = s.running_harts_4_7.wrapping_add(1);
    } else {
        s.running_harts_8_plus = s.running_harts_8_plus.wrapping_add(1);
    }
    if ready == 0 {
        s.scheduler_ready_0 = s.scheduler_ready_0.wrapping_add(1);
    } else if ready == 1 {
        s.scheduler_ready_1 = s.scheduler_ready_1.wrapping_add(1);
    } else if ready <= 3 {
        s.scheduler_ready_2_3 = s.scheduler_ready_2_3.wrapping_add(1);
    } else if ready <= 7 {
        s.scheduler_ready_4_7 = s.scheduler_ready_4_7.wrapping_add(1);
    } else {
        s.scheduler_ready_8_plus = s.scheduler_ready_8_plus.wrapping_add(1);
    }
}

/// The samples in the buckets of running threads.
pub open spec fn running_samples(s: Snapshot) -> int {
    s.running_harts_0 + s.running_harts_1 + s.running_harts_2_3 + s.running_harts_4_7
        + s.running_harts_8_plus
}

/// The samples in the buckets of ready threads.
pub open spec fn ready_samples(s: Snapshot) -> int {
    s.scheduler_ready_0 + s.scheduler_ready_1 + s.scheduler_ready_2_3 + s.scheduler_ready_4_7
        + s.scheduler_ready_8_plus
}

/// Every sample goes into exactly one bucket of running and one of ready
/// threads, so the buckets of either kind add up to the number of samples, as
/// long as none of the counts wraps around.
pub proof fn samples_add_up(s: Snapshot, running: usize, ready: usize)
    requires
        running_samples(s) == s.concurrency_samples,
        ready_samples(s) == s.concurrency_samples,
        s.concurrency_samples < usize::MAX,
    ensures
        ({
            let t = ready_sampled(
                running_sampled(
                    Snapshot { concurrency_samples: s.concurrency_samples.wrapping_add(1), ..s },
                    running,
                ),
                ready,
            );
            &&& t.concurrency_samples == s.concurrency_samples + 1
            &&& running_samples(t) == t.concurrency_samples
            &&& ready_samples(t) == t.concurrency_samples
        }),
{
}

/// Counts the allocation of a frame.
pub fn frame_alloc(
    c: &mut Counters,
    ticks: usize,
    lock_wait_ticks: usize,
    core_ticks: usize,
    clear_ticks: usize,
    succeeded: bool,
)
    ensures
        *final(c) == counted(
            *old(c),
            Snapshot {
                frame_alloc_calls: old(c).counts.frame_alloc_calls.wrapping_add(1),
                frame_alloc_ticks: old(c).counts.frame_alloc_ticks.wrapping_add(ticks),
                frame_alloc_lock_wait_ticks: old(c).counts.frame_alloc_lock_wait_ticks.wrapping_add(
                    lock_wait_ticks,
                ),
                frame_alloc_core_ticks: old(c).counts.frame_alloc_core_ticks.wrapping_add(
                    core_ticks,
                ),
                frame_alloc_clear_ticks: old(c).counts.frame_alloc_clear_ticks.wrapping_add(
                    clear_ticks,
                ),
                frame_alloc_max_ticks: larger(old(c).counts.frame_alloc_max_ticks, ticks),
                frame_alloc_failures: if succeeded {
                    old(c).counts.frame_alloc_failures
                } else {
                    old(c).counts.frame_alloc_failures.wrapping_add(1)
                },
                ..old(c).counts
            },
        ),
{
    if !c.enabled {
        return;
    }
    let s = &mut c.counts;
    s.frame_alloc_calls = s.frame_alloc_calls.wrapping_add(1);
    s.frame_alloc_ticks = s.frame_alloc_ticks.wrapping_add(ticks);
    s.frame_alloc_lock_wait_ticks = s.frame_alloc_lock_wait_ticks.wrapping_add(lock_wait_ticks);
    s.frame_alloc_core_ticks = s.frame_alloc_core_ticks.wrapping_add(core_ticks);
    s.frame_alloc_clear_ticks = s.frame_alloc_clear_ticks.wrapping_add(clear_ticks);
    s.frame_alloc_max_ticks = max(s.frame_alloc_max_ticks, ticks);
    if !succeeded {
        s.frame_alloc_failures = s.frame_alloc_failures.wrapping_add(1);
    }
}

/// Counts the release of a frame.
pub fn frame_dealloc(c: &mut Counters, ticks: usize, lock_wait_ticks: usize, core_ticks: usize)
    ensures
        *final(c) == counted(
            *old(c),
            Snapshot {
                frame_dealloc_calls: old(c).counts.frame_dealloc_calls.wrapping_add(1),
                frame_dealloc_ticks: old(c).counts.frame_dealloc_ticks.wrapping_add(ticks),
                frame_dealloc_lock_wait_ticks: old(
                    c,
                ).counts.frame_dealloc_lock_wait_ticks.wrapping_add(lock_wait_ticks),
                frame_dealloc_core_ticks: old(c).counts.frame_dealloc_core_ticks.wrapping_add(
                    core_ticks,
                ),
                frame_dealloc_max_ticks: larger(old(c).counts.frame_dealloc_max_ticks, ticks),
                ..old(c).counts
            },
        ),
{
    if !c.enabled {
        return;
    }
    let s = &mut c.counts;
    s.frame_dealloc_calls = s.frame_dealloc_calls.wrapping_add(1);
    s.frame_dealloc_ticks = s.frame_dealloc_ticks.wrapping_add(ticks);
    s.frame_dealloc_lock_wait_ticks = s.frame_dealloc_lock_wait_ticks.wrapping_add(lock_wait_ticks);
    s.frame_dealloc_core_ticks = s.frame_dealloc_core_ticks.wrapping_add(core_ticks);
    s.frame_dealloc_max_ticks = max(s.frame_dealloc_max_ticks, ticks);
}

/// Counts a copy out of user memory.
pub fn copy_from_user(c: &mut Counters, bytes: usize, ticks: usize)
    ensures
        *final(c) == counted(
            *old(c),
            Snapshot {
                copy_from_user_calls: old(c).counts.copy_from_user_calls.wrapping_add(1),
                copy_from_user_bytes: old(c).counts.copy_from_user_bytes.wrapping_add(bytes),
                copy_from_user_ticks: old(c).counts.copy_from_user_ticks.wrapping_add(ticks),
                ..old(c).counts
            },
        ),
{
    if !c.enabled {
        return;
    }
    let s = &mut c.counts;
    s.copy_from_user_calls = s.copy_from_user_calls.wrapping_add(1);
    s.copy_from_user_bytes = s.copy_from_user_bytes.wrapping_add(bytes);
    s.copy_from_user_ticks = s.copy_from_user_ticks.wrapping_add(ticks);
}

/// Counts a copy into user memory.
pub fn copy_to_user(c: &mut Counters, bytes: usize, ticks: usize)
    ensures
        *final(c) == counted(
            *old(c),
            Snapshot {
                copy_to_user_calls: old(c).counts.copy_to_user_calls.wrapping_add(1),
                copy_to_user_bytes: old(c).counts.copy_to_user_bytes.wrapping_add(bytes),
                copy_to_user_ticks: old(c).counts.copy_to_user_ticks.wrapping_add(ticks),
                ..old(c).counts
            },
        ),
{
    if !c.enabled {
        return;
    }
    let s = &mut c.counts;
    s.copy_to_user_calls = s.copy_to_user_calls.wrapping_add(1);
    s.copy_to_user_bytes = s.copy_to_user_bytes.wrapping_add(bytes);
    s.copy_to_user_ticks = s.copy_to_user_ticks.wrapping_add(ticks);
}

/// The clock, where counting is on.
pub fn now_ticks(enabled: bool, clock: usize) -> (r: usize)
    ensures
        r == (if enabled {
            clock
        } else {
            0
        }),
{
    if enabled {
        clock
    } else {
        0
    }
}

/// The ticks since an earlier time of the clock, which may have wrapped around
/// since.
pub fn elapsed_since(enabled: bool, clock: usize, start: usize) -> (r: usize)
    ensures
        r == (if enabled {
            clock.wrapping_sub(start)
        } else {
            0usize.wrapping_sub(start)
        }),
{
    now_ticks(enabled, clock).wrapping_sub(start)
}

/// A time that lies so many ticks behind another is so many ticks later, whether
/// or not the clock wrapped around.
pub proof fn elapsed_time_is_what_passed(start: usize, ticks: usize)
    ensures
        start.wrapping_add(ticks).wrapping_sub(start) == ticks,
{
}

/// Where counting is off, nothing is ever counted.
pub proof fn nothing_is_counted_when_off(c: Counters, s: Snapshot)
    requires
        !c.enabled,
    ensures
        counted(c, s) == c,
{
}

/// A read is counted once, under the smallest of 512, 4096 and 65536 bytes that holds it or
/// under the rest.
pub proof fn reads_are_counted_by_size(s: Snapshot, size: usize)
    requires
        s.block_read_512_or_less < usize::MAX,
        s.block_read_4k_or_less < usize::MAX,
        s.block_read_64k_or_less < usize::MAX,
        s.block_read_over_64k < usize::MAX,
    ensures
        ({
            let t = read_counted(s, size);
            &&& t.block_read_512_or_less - s.block_read_512_or_less == (if size <= 512 {
                1int
            } else {
                0
            })
            &&& t.block_read_4k_or_less - s.block_read_4k_or_less == (if 512 < size <= 4096 {
                1int
            } else {
                0
            })
            &&& t.block_read_64k_or_less - s.block_read_64k_or_less == (if 4096 < size <= 65536 {
                1int
            } else {
                0
            })
            &&& t.block_read_over_64k - s.block_read_over_64k == (if size > 65536 {
                1int
            } else {
                0
            })
        }),
{
}

/// A range is counted once, by its pages: one, up to 16, up to 256 or more.
pub proof fn ranges_are_counted_by_pages(s: Snapshot, pages: usize)
    requires
        s.tlb_shootdown_range_single_page < usize::MAX,
        s.tlb_shootdown_range_le16_pages < usize::MAX,
        s.tlb_shootdown_range_le256_pages < usize::MAX,
        s.tlb_shootdown_range_gt256_pages < usize::MAX,
    ensures
        ({
            let t = range_counted(s, pages);
            &&& t.tlb_shootdown_range_single_page - s.tlb_shootdown_range_single_page == (if pages
                == 1 {
                1int
            } else {
                0
            })
            &&& t.tlb_shootdown_range_le16_pages - s.tlb_shootdown_range_le16_pages == (if pages
                == 0 || 1 < pages <= 16 {
                1int
            } else {
                0
            })
            &&& t.tlb_shootdown_range_le256_pages - s.tlb_shootdown_range_le256_pages == (if 16
                < pages <= 256 {
                1int
            } else {
                0
            })
            &&& t.tlb_shootdown_range_gt256_pages - s.tlb_shootdown_range_gt256_pages == (if pages
                > 256 {
                1int
            } else {
                0
            })
        }),
{
}

/// A sample is counted under the number sampled: none, one, two or three, up to seven, or more.
pub proof fn samples_are_counted_by_number(s: Snapshot, n: usize)
    requires
        s.running_harts_0 < usize::MAX,
        s.running_harts_1 < usize::MAX,
        s.running_harts_2_3 < usize::MAX,
        s.running_harts_4_7 < usize::MAX,
        s.running_harts_8_plus < usize::MAX,
        s.scheduler_ready_0 < usize::MAX,
        s.scheduler_ready_1 < usize::MAX,
        s.scheduler_ready_2_3 < usize::MAX,
        s.scheduler_ready_4_7 < usize::MAX,
        s.scheduler_ready_8_plus < usize::MAX,
    ensures
        ({
            let t = running_sampled(s, n);
            &&& t.running_harts_0 - s.running_harts_0 == (if n == 0 {
                1int
            } else {
                0
            })
            &&& t.running_harts_1 - s.running_harts_1 == (if n == 1 {
                1int
            } else {
                0
            })
            &&& t.running_harts_2_3 - s.running_harts_2_3 == (if n == 2 || n == 3 {
                1int
            } else {
                0
            })
            &&& t.running_harts_4_7 - s.running_harts_4_7 == (if 4 <= n <= 7 {
                1int
            } else {
                0
            })
            &&& t.running_harts_8_plus - s.running_harts_8_plus == (if n >= 8 {
                1int
            } else {
                0
            })
        }),
        ({
            let t = ready_sampled(s, n);
            &&& t.scheduler_ready_0 - s.scheduler_ready_0 == (if n == 0 {
                1int
            } else {
                0
            })
            &&& t.scheduler_ready_1 - s.scheduler_ready_1 == (if n == 1 {
                1int
            } else {
                0
            })
            &&& t.scheduler_ready_2_3 - s.scheduler_ready_2_3 == (if n == 2 || n == 3 {
                1int
            } else {
                0
            })
            &&& t.scheduler_ready_4_7 - s.scheduler_ready_4_7 == (if 4 <= n <= 7 {
                1int
            } else {
                0
            })
            &&& t.scheduler_ready_8_plus - s.scheduler_ready_8_plus == (if n >= 8 {
                1int
            } else {
                0
            })
        }),
{
}

} // verus!
