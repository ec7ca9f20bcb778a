//! The report about the counters.

use crate::format::{decimal, push_decimal};
use crate::perf::counters::{counted, nothing_counted, Counters, Snapshot};
use crate::perf::heap::{
    class_bound, class_of_all, class_total, empty_class, empty_totals, heap_class_snapshot,
    sum_classes, totals_of_all, HeapClass, HeapClassCounters, HeapTotals, HEAP_CLASS_COUNT,
    HEAP_TIMING_SAMPLE_RATE,
};
use vstd::prelude::*;
use vstd::string::StringExecFns;

verus! {

/// Counts of the buffers through which devices reach memory.
#[derive(Debug, Clone, Copy, PartialEq, Eq, Structural)]
pub struct BounceSnapshot {
    pub calls: usize,
    pub bytes: usize,
    pub copy_to_device_bytes: usize,
    pub copy_from_device_bytes: usize,
    pub allocations: usize,
    pub cache_hits: usize,
    pub share_ticks: usize,
    pub unshare_ticks: usize,
    pub active_peak: usize,
    pub active: usize,
    pub cached_buffers: usize,
    pub cached_bytes: usize,
}

/// What the report tells of other parts of the system.
#[derive(Debug, Clone, Copy, PartialEq, Eq, Structural)]
pub struct SystemUse {
    pub bounce: BounceSnapshot,
    pub page_cache_pages: usize,
    pub page_cache_dirty_pages: usize,
    pub page_cache_lru_entries: usize,
    pub page_cache_registry: usize,
    pub dirty_owners: usize,
    pub shared_file_page_entries: usize,
    pub free_frames: usize,
    pub heap_current_bytes: usize,
    pub heap_peak_bytes: usize,
    /// The largest use of the heap is exact.
    pub heap_peak_exact: bool,
    /// The heap has a magazine.
    pub heap_magazine: bool,
    pub magazine_cached_bytes: usize,
    pub magazine_cached_peak_bytes: usize,
    pub clock_hz: usize,
}

/// What the report tells.
#[derive(Debug, Clone, Copy)]
pub struct Report {
    pub counts: Snapshot,
    pub sys: SystemUse,
    pub totals: HeapTotals,
    /// All classes of the heap together.
    pub all: HeapClass,
}

/// A flag as a number.
pub open spec fn flag(b: bool) -> usize {
    if b {
        1
    } else {
        0
    }
}

fn flag_value(b: bool) -> (r: usize)
    ensures
        r == flag(b),
{
    if b {
        1
    } else {
        0
    }
}

/// The bound of a class as it is shown: zero where there is none.
pub open spec fn shown_bound(n: int) -> usize {
    match class_bound(n) {
        Some(b) => b as usize,
        None => 0,
    }
}

fn bound_shown(n: usize) -> (r: usize)
    requires
        n < HEAP_CLASS_COUNT,
    ensures
        r == shown_bound(n as int),
{
    match n {
        0 => 16,
        1 => 32,
        2 => 64,
        3 => 128,
        4 => 256,
        5 => 512,
        6 => 1024,
        7 => 2048,
        8 => 4096,
        _ => 0,
    }
}

/// A text with a named number.
pub open spec fn with_field(s: Seq<char>, label: Seq<char>, value: usize) -> Seq<char> {
    s + label + decimal(value as nat)
}

fn push_field(out: &mut String, label: &str, value: usize)
    ensures
        final(out)@ == with_field(old(out)@, label@, value),
{
    out.append(label);
    push_decimal(out, value as u64);
}

/// The report with the line about: closed and flushed files.
pub open spec fn with_file_closes(s: Seq<char>, i: Report) -> Seq<char> {
    let s1 = with_field(s, "file_closes="@, i.counts.file_closes);
    let s2 = with_field(s1, " close_data_writebacks="@, i.counts.close_data_writebacks);
    let s3 = with_field(s2, " explicit_fsyncs="@, i.counts.explicit_fsyncs);
    let s4 = with_field(s3, " filesystem_flushes="@, i.counts.filesystem_flushes);
    s4 + "\n"@
}

fn push_file_closes(out: &mut String, i: &Report)
    ensures
        final(out)@ == with_file_closes(old(out)@, *i),
{
    push_field(out, "file_closes=", i.counts.file_closes);
    push_field(out, " close_data_writebacks=", i.counts.close_data_writebacks);
    push_field(out, " explicit_fsyncs=", i.counts.explicit_fsyncs);
    push_field(out, " filesystem_flushes=", i.counts.filesystem_flushes);
    out.append("\n");
}

/// The report with the line about: requests to block devices.
pub open spec fn with_block_read_requests(s: Seq<char>, i: Report) -> Seq<char> {
    let s1 = with_field(s, "block_read_requests="@, i.counts.block_read_requests);
    let s2 = with_field(s1, " block_read_bytes="@, i.counts.block_read_bytes);
    let s3 = with_field(s2, " block_read_ticks="@, i.counts.block_read_ticks);
    let s4 = with_field(s3, " block_write_requests="@, i.counts.block_write_requests);
    let s5 = with_field(s4, " block_write_bytes="@, i.counts.block_write_bytes);
    let s6 = with_field(s5, " block_write_ticks="@, i.counts.block_write_ticks);
    let s7 = with_field(s6, " block_flushes="@, i.counts.block_flushes);
    s7 + "\n"@
}

fn push_block_read_requests(out: &mut String, i: &Report)
    ensures
        final(out)@ == with_block_read_requests(old(out)@, *i),
{
    push_field(out, "block_read_requests=", i.counts.block_read_requests);
    push_field(out, " block_read_bytes=", i.counts.block_read_bytes);
    push_field(out, " block_read_ticks=", i.counts.block_read_ticks);
    push_field(out, " block_write_requests=", i.counts.block_write_requests);
    push_field(out, " block_write_bytes=", i.counts.block_write_bytes);
    push_field(out, " block_write_ticks=", i.counts.block_write_ticks);
    push_field(out, " block_flushes=", i.counts.block_flushes);
    out.append("\n");
}

/// The report with the line about: sizes of reads from block devices.
pub open spec fn with_block_read_sizes_le512(s: Seq<char>, i: Report) -> Seq<char> {
    let s1 = with_field(s, "block_read_sizes_le512="@, i.counts.block_read_512_or_less);
    let s2 = with_field(s1, " le4k="@, i.counts.block_read_4k_or_less);
    let s3 = with_field(s2, " le64k="@, i.counts.block_read_64k_or_less);
    let s4 = with_field(s3, " gt64k="@, i.counts.block_read_over_64k);
    s4 + "\n"@
}

fn push_block_read_sizes_le512(out: &mut String, i: &Report)
    ensures
        final(out)@ == with_block_read_sizes_le512(old(out)@, *i),
{
    push_field(out, "block_read_sizes_le512=", i.counts.block_read_512_or_less);
    push_field(out, " le4k=", i.counts.block_read_4k_or_less);
    push_field(out, " le64k=", i.counts.block_read_64k_or_less);
    push_field(out, " gt64k=", i.counts.block_read_over_64k);
    out.append("\n");
}

/// The report with the line about: bounce buffers.
pub open spec fn with_virtio_bounce_calls(s: Seq<char>, i: Report) -> Seq<char> {
    let s1 = with_field(s, "virtio_bounce_calls="@, i.sys.bounce.calls);
    let s2 = with_field(s1, " bytes="@, i.sys.bounce.bytes);
    let s3 = with_field(s2, " copy_to_device_bytes="@, i.sys.bounce.copy_to_device_bytes);
    let s4 = with_field(s3, " copy_from_device_bytes="@, i.sys.bounce.copy_from_device_bytes);
    let s5 = with_field(s4, " allocations="@, i.sys.bounce.allocations);
    let s6 = with_field(s5, " cache_hits="@, i.sys.bounce.cache_hits);
    let s7 = with_field(s6, " share_ticks="@, i.sys.bounce.share_ticks);
    let s8 = with_field(s7, " unshare_ticks="@, i.sys.bounce.unshare_ticks);
    let s9 = with_field(s8, " active_peak="@, i.sys.bounce.active_peak);
    let s10 = with_field(s9, " active="@, i.sys.bounce.active);
    let s11 = with_field(s10, " cached_buffers="@, i.sys.bounce.cached_buffers);
    let s12 = with_field(s11, " cached_bytes="@, i.sys.bounce.cached_bytes);
    s12 + "\n"@
}

fn push_virtio_bounce_calls(out: &mut String, i: &Report)
    ensures
        final(out)@ == with_virtio_bounce_calls(old(out)@, *i),
{
    push_field(out, "virtio_bounce_calls=", i.sys.bounce.calls);
    push_field(out, " bytes=", i.sys.bounce.bytes);
    push_field(out, " copy_to_device_bytes=", i.sys.bounce.copy_to_device_bytes);
    push_field(out, " copy_from_device_bytes=", i.sys.bounce.copy_from_device_bytes);
    push_field(out, " allocations=", i.sys.bounce.allocations);
    push_field(out, " cache_hits=", i.sys.bounce.cache_hits);
    push_field(out, " share_ticks=", i.sys.bounce.share_ticks);
    push_field(out, " unshare_ticks=", i.sys.bounce.unshare_ticks);
    push_field(out, " active_peak=", i.sys.bounce.active_peak);
    push_field(out, " active=", i.sys.bounce.active);
    push_field(out, " cached_buffers=", i.sys.bounce.cached_buffers);
    push_field(out, " cached_bytes=", i.sys.bounce.cached_bytes);
    out.append("\n");
}

/// The report with the line about: hits in the page cache.
pub open spec fn with_page_cache_hits(s: Seq<char>, i: Report) -> Seq<char> {
    let s1 = with_field(s, "page_cache_hits="@, i.counts.page_cache_hits);
    let s2 = with_field(s1, " page_cache_misses="@, i.counts.page_cache_misses);
    let s3 = with_field(s2, " page_cache_evictions="@, i.counts.page_cache_evictions);
    let s4 = with_field(s3, " page_cache_writeback_bytes="@, i.counts.page_cache_writeback_bytes);
    let s5 = with_field(s4, " dirty_pages_peak="@, i.counts.dirty_pages_peak);
    s5 + "\n"@
}

fn push_page_cache_hits(out: &mut String, i: &Report)
    ensures
        final(out)@ == with_page_cache_hits(old(out)@, *i),
{
    push_field(out, "page_cache_hits=", i.counts.page_cache_hits);
    push_field(out, " page_cache_misses=", i.counts.page_cache_misses);
    push_field(out, " page_cache_evictions=", i.counts.page_cache_evictions);
    push_field(out, " page_cache_writeback_bytes=", i.counts.page_cache_writeback_bytes);
    push_field(out, " dirty_pages_peak=", i.counts.dirty_pages_peak);
    out.append("\n");
}

/// The report with the line about: reads into the page cache.
pub open spec fn with_page_cache_fill_calls(s: Seq<char>, i: Report) -> Seq<char> {
    let s1 = with_field(s, "page_cache_fill_calls="@, i.counts.page_cache_fill_calls);
    let s2 = with_field(s1, " page_cache_fill_bytes="@, i.counts.page_cache_fill_bytes);
    let s3 = with_field(s2, " inode_read_calls="@, i.counts.inode_read_calls);
    let s4 = with_field(s3, " inode_read_requested_bytes="@, i.counts.inode_read_requested_bytes);
    let s5 = with_field(s4, " inode_read_completed_bytes="@, i.counts.inode_read_completed_bytes);
    let s6 = with_field(s5, " inode_read_ticks="@, i.counts.inode_read_ticks);
    s6 + "\n"@
}

fn push_page_cache_fill_calls(out: &mut String, i: &Report)
    ensures
        final(out)@ == with_page_cache_fill_calls(old(out)@, *i),
{
    push_field(out, "page_cache_fill_calls=", i.counts.page_cache_fill_calls);
    push_field(out, " page_cache_fill_bytes=", i.counts.page_cache_fill_bytes);
    push_field(out, " inode_read_calls=", i.counts.inode_read_calls);
    push_field(out, " inode_read_requested_bytes=", i.counts.inode_read_requested_bytes);
    push_field(out, " inode_read_completed_bytes=", i.counts.inode_read_completed_bytes);
    push_field(out, " inode_read_ticks=", i.counts.inode_read_ticks);
    out.append("\n");
}

/// The report with the line about: pages that were filled.
pub open spec fn with_page_cache_fill_candidate_pages(s: Seq<char>, i: Report) -> Seq<char> {
    let s1 = with_field(s, "page_cache_fill_candidate_pages="@, i.counts.page_cache_fill_candidate_pages);
    let s2 = with_field(s1, " published_pages="@, i.counts.page_cache_fill_published_pages);
    let s3 = with_field(s2, " raced_pages="@, i.counts.page_cache_fill_raced_pages);
    s3 + "\n"@
}

fn push_page_cache_fill_candidate_pages(out: &mut String, i: &Report)
    ensures
        final(out)@ == with_page_cache_fill_candidate_pages(old(out)@, *i),
{
    push_field(out, "page_cache_fill_candidate_pages=", i.counts.page_cache_fill_candidate_pages);
    push_field(out, " published_pages=", i.counts.page_cache_fill_published_pages);
    push_field(out, " raced_pages=", i.counts.page_cache_fill_raced_pages);
    out.append("\n");
}

/// The report with the line about: size of the page cache.
pub open spec fn with_page_cache_pages(s: Seq<char>, i: Report) -> Seq<char> {
    let s1 = with_field(s, "page_cache_pages="@, i.sys.page_cache_pages);
    let s2 = with_field(s1, " page_cache_dirty_pages="@, i.sys.page_cache_dirty_pages);
    let s3 = with_field(s2, " page_cache_lru_entries="@, i.sys.page_cache_lru_entries);
    let s4 = with_field(s3, " page_cache_registry="@, i.sys.page_cache_registry);
    let s5 = with_field(s4, " dirty_owners="@, i.sys.dirty_owners);
    let s6 = with_field(s5, " shared_file_page_entries="@, i.sys.shared_file_page_entries);
    let s7 = with_field(s6, " free_frames="@, i.sys.free_frames);
    s7 + "\n"@
}

fn push_page_cache_pages(out: &mut String, i: &Report)
    ensures
        final(out)@ == with_page_cache_pages(old(out)@, *i),
{
    push_field(out, "page_cache_pages=", i.sys.page_cache_pages);
    push_field(out, " page_cache_dirty_pages=", i.sys.page_cache_dirty_pages);
    push_field(out, " page_cache_lru_entries=", i.sys.page_cache_lru_entries);
    push_field(out, " page_cache_registry=", i.sys.page_cache_registry);
    push_field(out, " dirty_owners=", i.sys.dirty_owners);
    push_field(out, " shared_file_page_entries=", i.sys.shared_file_page_entries);
    push_field(out, " free_frames=", i.sys.free_frames);
    out.append("\n");
}

/// The report with the line about: page faults.
pub open spec fn with_anonymous_faults(s: Seq<char>, i: Report) -> Seq<char> {
    let s1 = with_field(s, "anonymous_faults="@, i.counts.anonymous_faults);
    let s2 = with_field(s1, " private_file_faults="@, i.counts.private_file_faults);
    let s3 = with_field(s2, " shared_file_faults="@, i.counts.shared_file_faults);
    let s4 = with_field(s3, " cow_faults="@, i.counts.cow_faults);
    s4 + "\n"@
}

fn push_anonymous_faults(out: &mut String, i: &Report)
    ensures
        final(out)@ == with_anonymous_faults(old(out)@, *i),
{
    push_field(out, "anonymous_faults=", i.counts.anonymous_faults);
    push_field(out, " private_file_faults=", i.counts.private_file_faults);
    push_field(out, " shared_file_faults=", i.counts.shared_file_faults);
    push_field(out, " cow_faults=", i.counts.cow_faults);
    out.append("\n");
}

/// The report with the line about: switches between threads.
pub open spec fn with_context_switches(s: Seq<char>, i: Report) -> Seq<char> {
    let s1 = with_field(s, "context_switches="@, i.counts.context_switches);
    let s2 = with_field(s1, " local_sfences="@, i.counts.local_sfences);
    let s3 = with_field(s2, " remote_rfences="@, i.counts.remote_rfences);
    let s4 = with_field(s3, " full_tlb_invalidations="@, i.counts.full_tlb_invalidations);
    let s5 = with_field(s4, " asid_tlb_invalidations="@, i.counts.asid_tlb_invalidations);
    let s6 = with_field(s5, " scheduler_ipis="@, i.counts.scheduler_ipis);
    let s7 = with_field(s6, " ipis_received="@, i.counts.ipis_received);
    let s8 = with_field(s7, " scheduler_yields="@, i.counts.scheduler_yields);
    let s9 = with_field(s8, " syscall_yields="@, i.counts.syscall_yields);
    let s10 = with_field(s9, " quiescence_yields="@, i.counts.quiescence_yields);
    let s11 = with_field(s10, " timer_preemptions="@, i.counts.timer_preemptions);
    let s12 = with_field(s11, " blocking_switches="@, i.counts.blocking_switches);
    let s13 = with_field(s12, " task_running_ticks="@, i.counts.task_running_ticks);
    let s14 = with_field(s13, " idle_ticks="@, i.counts.idle_ticks);
    s14 + "\n"@
}

fn push_context_switches(out: &mut String, i: &Report)
    ensures
        final(out)@ == with_context_switches(old(out)@, *i),
{
    push_field(out, "context_switches=", i.counts.context_switches);
    push_field(out, " local_sfences=", i.counts.local_sfences);
    push_field(out, " remote_rfences=", i.counts.remote_rfences);
    push_field(out, " full_tlb_invalidations=", i.counts.full_tlb_invalidations);
    push_field(out, " asid_tlb_invalidations=", i.counts.asid_tlb_invalidations);
    push_field(out, " scheduler_ipis=", i.counts.scheduler_ipis);
    push_field(out, " ipis_received=", i.counts.ipis_received);
    push_field(out, " scheduler_yields=", i.counts.scheduler_yields);
    push_field(out, " syscall_yields=", i.counts.syscall_yields);
    push_field(out, " quiescence_yields=", i.counts.quiescence_yields);
    push_field(out, " timer_preemptions=", i.counts.timer_preemptions);
    push_field(out, " blocking_switches=", i.counts.blocking_switches);
    push_field(out, " task_running_ticks=", i.counts.task_running_ticks);
    push_field(out, " idle_ticks=", i.counts.idle_ticks);
    out.append("\n");
}

/// The report with the line about: fences on this processor.
pub open spec fn with_local_sfence_ticks(s: Seq<char>, i: Report) -> Seq<char> {
    let s1 = with_field(s, "local_sfence_ticks="@, i.counts.local_sfence_ticks);
    let s2 = with_field(s1, " local_sfence_max_ticks="@, i.counts.local_sfence_max_ticks);
    let s3 = with_field(s2, " tlb_flush_calls="@, i.counts.tlb_flush_calls);
    let s4 = with_field(s3, " tlb_fresh_map_flushes="@, i.counts.tlb_fresh_map_flushes);
    let s5 = with_field(s4, " tlb_cow_flushes="@, i.counts.tlb_cow_flushes);
    let s6 = with_field(s5, " tlb_flush_retired_batches="@, i.counts.tlb_flush_retired_batches);
    let s7 = with_field(s6, " tlb_flush_retired_frames="@, i.counts.tlb_flush_retired_frames);
    s7 + "\n"@
}

fn push_local_sfence_ticks(out: &mut String, i: &Report)
    ensures
        final(out)@ == with_local_sfence_ticks(old(out)@, *i),
{
    push_field(out, "local_sfence_ticks=", i.counts.local_sfence_ticks);
    push_field(out, " local_sfence_max_ticks=", i.counts.local_sfence_max_ticks);
    push_field(out, " tlb_flush_calls=", i.counts.tlb_flush_calls);
    push_field(out, " tlb_fresh_map_flushes=", i.counts.tlb_fresh_map_flushes);
    push_field(out, " tlb_cow_flushes=", i.counts.tlb_cow_flushes);
    push_field(out, " tlb_flush_retired_batches=", i.counts.tlb_flush_retired_batches);
    push_field(out, " tlb_flush_retired_frames=", i.counts.tlb_flush_retired_frames);
    out.append("\n");
}

/// The report with the line about: shootdowns of address translations.
pub open spec fn with_tlb_shootdown_all_requests(s: Seq<char>, i: Report) -> Seq<char> {
    let s1 = with_field(s, "tlb_shootdown_all_requests="@, i.counts.tlb_shootdown_all_requests);
    let s2 = with_field(s1, " tlb_shootdown_address_space_requests="@, i.counts.tlb_shootdown_address_space_requests);
    let s3 = with_field(s2, " tlb_shootdown_range_requests="@, i.counts.tlb_shootdown_range_requests);
    let s4 = with_field(s3, " tlb_shootdown_range_pages="@, i.counts.tlb_shootdown_range_pages);
    let s5 = with_field(s4, " tlb_shootdown_range_max_pages="@, i.counts.tlb_shootdown_range_max_pages);
    let s6 = with_field(s5, " tlb_shootdown_range_single_page="@, i.counts.tlb_shootdown_range_single_page);
    let s7 = with_field(s6, " tlb_shootdown_range_le16_pages="@, i.counts.tlb_shootdown_range_le16_pages);
    let s8 = with_field(s7, " tlb_shootdown_range_le256_pages="@, i.counts.tlb_shootdown_range_le256_pages);
    let s9 = with_field(s8, " tlb_shootdown_range_gt256_pages="@, i.counts.tlb_shootdown_range_gt256_pages);
    let s10 = with_field(s9, " tlb_shootdown_invalid_requests="@, i.counts.tlb_shootdown_invalid_requests);
    s10 + "\n"@
}

fn push_tlb_shootdown_all_requests(out: &mut String, i: &Report)
    ensures
        final(out)@ == with_tlb_shootdown_all_requests(old(out)@, *i),
{
    push_field(out, "tlb_shootdown_all_requests=", i.counts.tlb_shootdown_all_requests);
    push_field(out, " tlb_shootdown_address_space_requests=", i.counts.tlb_shootdown_address_space_requests);
    push_field(out, " tlb_shootdown_range_requests=", i.counts.tlb_shootdown_range_requests);
    push_field(out, " tlb_shootdown_range_pages=", i.counts.tlb_shootdown_range_pages);
    push_field(out, " tlb_shootdown_range_max_pages=", i.counts.tlb_shootdown_range_max_pages);
    push_field(out, " tlb_shootdown_range_single_page=", i.counts.tlb_shootdown_range_single_page);
    push_field(out, " tlb_shootdown_range_le16_pages=", i.counts.tlb_shootdown_range_le16_pages);
    push_field(out, " tlb_shootdown_range_le256_pages=", i.counts.tlb_shootdown_range_le256_pages);
    push_field(out, " tlb_shootdown_range_gt256_pages=", i.counts.tlb_shootdown_range_gt256_pages);
    push_field(out, " tlb_shootdown_invalid_requests=", i.counts.tlb_shootdown_invalid_requests);
    out.append("\n");
}

/// The report with the line about: fences on other processors.
pub open spec fn with_remote_rfence_target_harts(s: Seq<char>, i: Report) -> Seq<char> {
    let s1 = with_field(s, "remote_rfence_target_harts="@, i.counts.remote_rfence_target_harts);
    let s2 = with_field(s1, " remote_rfence_empty_requests="@, i.counts.remote_rfence_empty_requests);
    let s3 = with_field(s2, " remote_rfence_wait_ticks="@, i.counts.remote_rfence_wait_ticks);
    let s4 = with_field(s3, " remote_rfence_max_wait_ticks="@, i.counts.remote_rfence_max_wait_ticks);
    s4 + "\n"@
}

fn push_remote_rfence_target_harts(out: &mut String, i: &Report)
    ensures
        final(out)@ == with_remote_rfence_target_harts(old(out)@, *i),
{
    push_field(out, "remote_rfence_target_harts=", i.counts.remote_rfence_target_harts);
    push_field(out, " remote_rfence_empty_requests=", i.counts.remote_rfence_empty_requests);
    push_field(out, " remote_rfence_wait_ticks=", i.counts.remote_rfence_wait_ticks);
    push_field(out, " remote_rfence_max_wait_ticks=", i.counts.remote_rfence_max_wait_ticks);
    out.append("\n");
}

/// The report with the line about: lock of the scheduler.
pub open spec fn with_scheduler_lock_acquisitions(s: Seq<char>, i: Report) -> Seq<char> {
    let s1 = with_field(s, "scheduler_lock_acquisitions="@, i.counts.scheduler_lock_acquisitions);
    let s2 = with_field(s1, " scheduler_lock_wait_ticks="@, i.counts.scheduler_lock_wait_ticks);
    let s3 = with_field(s2, " scheduler_lock_max_wait_ticks="@, i.counts.scheduler_lock_max_wait_ticks);
    let s4 = with_field(s3, " scheduler_ready_peak="@, i.counts.scheduler_ready_peak);
    s4 + "\n"@
}

fn push_scheduler_lock_acquisitions(out: &mut String, i: &Report)
    ensures
        final(out)@ == with_scheduler_lock_acquisitions(old(out)@, *i),
{
    push_field(out, "scheduler_lock_acquisitions=", i.counts.scheduler_lock_acquisitions);
    push_field(out, " scheduler_lock_wait_ticks=", i.counts.scheduler_lock_wait_ticks);
    push_field(out, " scheduler_lock_max_wait_ticks=", i.counts.scheduler_lock_max_wait_ticks);
    push_field(out, " scheduler_ready_peak=", i.counts.scheduler_ready_peak);
    out.append("\n");
}

/// The report with the line about: samples of running and ready threads.
pub open spec fn with_concurrency_samples(s: Seq<char>, i: Report) -> Seq<char> {
    let s1 = with_field(s, "concurrency_samples="@, i.counts.concurrency_samples);
    let s2 = with_field(s1, " running_harts_0="@, i.counts.running_harts_0);
    let s3 = with_field(s2, " running_harts_1="@, i.counts.running_harts_1);
    let s4 = with_field(s3, " running_harts_2_3="@, i.counts.running_harts_2_3);
    let s5 = with_field(s4, " running_harts_4_7="@, i.counts.running_harts_4_7);
    let s6 = with_field(s5, " running_harts_8_plus="@, i.counts.running_harts_8_plus);
    let s7 = with_field(s6, " scheduler_ready_0="@, i.counts.scheduler_ready_0);
    let s8 = with_field(s7, " scheduler_ready_1="@, i.counts.scheduler_ready_1);
    let s9 = with_field(s8, " scheduler_ready_2_3="@, i.counts.scheduler_ready_2_3);
    let s10 = with_field(s9, " scheduler_ready_4_7="@, i.counts.scheduler_ready_4_7);
    let s11 = with_field(s10, " scheduler_ready_8_plus="@, i.counts.scheduler_ready_8_plus);
    s11 + "\n"@
}

fn push_concurrency_samples(out: &mut String, i: &Report)
    ensures
        final(out)@ == with_concurrency_samples(old(out)@, *i),
{
    push_field(out, "concurrency_samples=", i.counts.concurrency_samples);
    push_field(out, " running_harts_0=", i.counts.running_harts_0);
    push_field(out, " running_harts_1=", i.counts.running_harts_1);
    push_field(out, " running_harts_2_3=", i.counts.running_harts_2_3);
    push_field(out, " running_harts_4_7=", i.counts.running_harts_4_7);
    push_field(out, " running_harts_8_plus=", i.counts.running_harts_8_plus);
    push_field(out, " scheduler_ready_0=", i.counts.scheduler_ready_0);
    push_field(out, " scheduler_ready_1=", i.counts.scheduler_ready_1);
    push_field(out, " scheduler_ready_2_3=", i.counts.scheduler_ready_2_3);
    push_field(out, " scheduler_ready_4_7=", i.counts.scheduler_ready_4_7);
    push_field(out, " scheduler_ready_8_plus=", i.counts.scheduler_ready_8_plus);
    out.append("\n");
}

/// The report with the line about: traps out of user programs.
pub open spec fn with_user_traps(s: Seq<char>, i: Report) -> Seq<char> {
    let s1 = with_field(s, "user_traps="@, i.counts.user_traps);
    let s2 = with_field(s1, " syscall="@, i.counts.user_syscall_traps);
    let s3 = with_field(s2, " page_fault="@, i.counts.user_page_fault_traps);
    let s4 = with_field(s3, " timer="@, i.counts.user_timer_traps);
    let s5 = with_field(s4, " ipi="@, i.counts.user_ipi_traps);
    let s6 = with_field(s5, " extension_state_eager_saves="@, i.counts.extension_state_eager_saves);
    s6 + "\n"@
}

fn push_user_traps(out: &mut String, i: &Report)
    ensures
        final(out)@ == with_user_traps(old(out)@, *i),
{
    push_field(out, "user_traps=", i.counts.user_traps);
    push_field(out, " syscall=", i.counts.user_syscall_traps);
    push_field(out, " page_fault=", i.counts.user_page_fault_traps);
    push_field(out, " timer=", i.counts.user_timer_traps);
    push_field(out, " ipi=", i.counts.user_ipi_traps);
    push_field(out, " extension_state_eager_saves=", i.counts.extension_state_eager_saves);
    out.append("\n");
}

/// The report with the line about: reasons to yield.
pub open spec fn with_yield_breakdown_fs(s: Seq<char>, i: Report) -> Seq<char> {
    let s1 = with_field(s, "yield_breakdown_fs="@, i.counts.fs_yields);
    let s2 = with_field(s1, " stdio="@, i.counts.stdio_yields);
    let s3 = with_field(s2, " tty="@, i.counts.tty_yields);
    let s4 = with_field(s3, " pipe="@, i.counts.pipe_yields);
    let s5 = with_field(s4, " fs_syscall="@, i.counts.fs_syscall_yields);
    let s6 = with_field(s5, " futex="@, i.counts.futex_yields);
    let s7 = with_field(s6, " net="@, i.counts.net_yields);
    let s8 = with_field(s7, " process="@, i.counts.process_yields);
    let s9 = with_field(s8, " signal_time="@, i.counts.signal_time_yields);
    let s10 = with_field(s9, " special_fd="@, i.counts.special_fd_yields);
    s10 + "\n"@
}

fn push_yield_breakdown_fs(out: &mut String, i: &Report)
    ensures
        final(out)@ == with_yield_breakdown_fs(old(out)@, *i),
{
    push_field(out, "yield_breakdown_fs=", i.counts.fs_yields);
    push_field(out, " stdio=", i.counts.stdio_yields);
    push_field(out, " tty=", i.counts.tty_yields);
    push_field(out, " pipe=", i.counts.pipe_yields);
    push_field(out, " fs_syscall=", i.counts.fs_syscall_yields);
    push_field(out, " futex=", i.counts.futex_yields);
    push_field(out, " net=", i.counts.net_yields);
    push_field(out, " process=", i.counts.process_yields);
    push_field(out, " signal_time=", i.counts.signal_time_yields);
    push_field(out, " special_fd=", i.counts.special_fd_yields);
    out.append("\n");
}

/// The report with the line about: reasons to yield in the network.
pub open spec fn with_net_yield_breakdown_unix(s: Seq<char>, i: Report) -> Seq<char> {
    let s1 = with_field(s, "net_yield_breakdown_unix="@, i.counts.unix_socket_yields);
    let s2 = with_field(s1, " tcp_wait="@, i.counts.tcp_wait_yields);
    let s3 = with_field(s2, " tcp_connect="@, i.counts.tcp_connect_yields);
    let s4 = with_field(s3, " udp_wait="@, i.counts.udp_wait_yields);
    s4 + "\n"@
}

fn push_net_yield_breakdown_unix(out: &mut String, i: &Report)
    ensures
        final(out)@ == with_net_yield_breakdown_unix(old(out)@, *i),
{
    push_field(out, "net_yield_breakdown_unix=", i.counts.unix_socket_yields);
    push_field(out, " tcp_wait=", i.counts.tcp_wait_yields);
    push_field(out, " tcp_connect=", i.counts.tcp_connect_yields);
    push_field(out, " udp_wait=", i.counts.udp_wait_yields);
    out.append("\n");
}

/// The report with the line about: lock of the file system.
pub open spec fn with_ext4_lock_acquisitions(s: Seq<char>, i: Report) -> Seq<char> {
    let s1 = with_field(s, "ext4_lock_acquisitions="@, i.counts.ext4_lock_acquisitions);
    let s2 = with_field(s1, " ext4_lock_wait_ticks="@, i.counts.ext4_lock_wait_ticks);
    let s3 = with_field(s2, " ext4_lock_hold_ticks="@, i.counts.ext4_lock_hold_ticks);
    let s4 = with_field(s3, " ext4_lock_max_wait_ticks="@, i.counts.ext4_lock_max_wait_ticks);
    let s5 = with_field(s4, " ext4_lock_max_hold_ticks="@, i.counts.ext4_lock_max_hold_ticks);
    s5 + "\n"@
}

fn push_ext4_lock_acquisitions(out: &mut String, i: &Report)
    ensures
        final(out)@ == with_ext4_lock_acquisitions(old(out)@, *i),
{
    push_field(out, "ext4_lock_acquisitions=", i.counts.ext4_lock_acquisitions);
    push_field(out, " ext4_lock_wait_ticks=", i.counts.ext4_lock_wait_ticks);
    push_field(out, " ext4_lock_hold_ticks=", i.counts.ext4_lock_hold_ticks);
    push_field(out, " ext4_lock_max_wait_ticks=", i.counts.ext4_lock_max_wait_ticks);
    push_field(out, " ext4_lock_max_hold_ticks=", i.counts.ext4_lock_max_hold_ticks);
    out.append("\n");
}

/// The report with the line about: acquisitions of the lock by kind of operation.
pub open spec fn with_ext4_lock_acquisitions_by_class_stat(s: Seq<char>, i: Report) -> Seq<char> {
    let s1 = with_field(s, "ext4_lock_acquisitions_by_class_stat="@, i.counts.ext4_lock_stat_acquisitions);
    let s2 = with_field(s1, " lookup="@, i.counts.ext4_lock_lookup_acquisitions);
    let s3 = with_field(s2, " read="@, i.counts.ext4_lock_read_acquisitions);
    let s4 = with_field(s3, " write="@, i.counts.ext4_lock_write_acquisitions);
    let s5 = with_field(s4, " readdir="@, i.counts.ext4_lock_readdir_acquisitions);
    let s6 = with_field(s5, " namespace="@, i.counts.ext4_lock_namespace_acquisitions);
    let s7 = with_field(s6, " attributes="@, i.counts.ext4_lock_attributes_acquisitions);
    let s8 = with_field(s7, " superblock="@, i.counts.ext4_lock_superblock_acquisitions);
    s8 + "\n"@
}

fn push_ext4_lock_acquisitions_by_class_stat(out: &mut String, i: &Report)
    ensures
        final(out)@ == with_ext4_lock_acquisitions_by_class_stat(old(out)@, *i),
{
    push_field(out, "ext4_lock_acquisitions_by_class_stat=", i.counts.ext4_lock_stat_acquisitions);
    push_field(out, " lookup=", i.counts.ext4_lock_lookup_acquisitions);
    push_field(out, " read=", i.counts.ext4_lock_read_acquisitions);
    push_field(out, " write=", i.counts.ext4_lock_write_acquisitions);
    push_field(out, " readdir=", i.counts.ext4_lock_readdir_acquisitions);
    push_field(out, " namespace=", i.counts.ext4_lock_namespace_acquisitions);
    push_field(out, " attributes=", i.counts.ext4_lock_attributes_acquisitions);
    push_field(out, " superblock=", i.counts.ext4_lock_superblock_acquisitions);
    out.append("\n");
}

/// The report with the line about: waits for the lock by kind of operation.
pub open spec fn with_ext4_lock_wait_by_class_stat(s: Seq<char>, i: Report) -> Seq<char> {
    let s1 = with_field(s, "ext4_lock_wait_by_class_stat="@, i.counts.ext4_lock_stat_wait_ticks);
    let s2 = with_field(s1, " lookup="@, i.counts.ext4_lock_lookup_wait_ticks);
    let s3 = with_field(s2, " read="@, i.counts.ext4_lock_read_wait_ticks);
    let s4 = with_field(s3, " write="@, i.counts.ext4_lock_write_wait_ticks);
    let s5 = with_field(s4, " readdir="@, i.counts.ext4_lock_readdir_wait_ticks);
    let s6 = with_field(s5, " namespace="@, i.counts.ext4_lock_namespace_wait_ticks);
    let s7 = with_field(s6, " attributes="@, i.counts.ext4_lock_attributes_wait_ticks);
    let s8 = with_field(s7, " superblock="@, i.counts.ext4_lock_superblock_wait_ticks);
    s8 + "\n"@
}

fn push_ext4_lock_wait_by_class_stat(out: &mut String, i: &Report)
    ensures
        final(out)@ == with_ext4_lock_wait_by_class_stat(old(out)@, *i),
{
    push_field(out, "ext4_lock_wait_by_class_stat=", i.counts.ext4_lock_stat_wait_ticks);
    push_field(out, " lookup=", i.counts.ext4_lock_lookup_wait_ticks);
    push_field(out, " read=", i.counts.ext4_lock_read_wait_ticks);
    push_field(out, " write=", i.counts.ext4_lock_write_wait_ticks);
    push_field(out, " readdir=", i.counts.ext4_lock_readdir_wait_ticks);
    push_field(out, " namespace=", i.counts.ext4_lock_namespace_wait_ticks);
    push_field(out, " attributes=", i.counts.ext4_lock_attributes_wait_ticks);
    push_field(out, " superblock=", i.counts.ext4_lock_superblock_wait_ticks);
    out.append("\n");
}

/// The report with the line about: time the lock was held by kind of operation.
pub open spec fn with_ext4_lock_hold_by_class_stat(s: Seq<char>, i: Report) -> Seq<char> {
    let s1 = with_field(s, "ext4_lock_hold_by_class_stat="@, i.counts.ext4_lock_stat_hold_ticks);
    let s2 = with_field(s1, " lookup="@, i.counts.ext4_lock_lookup_hold_ticks);
    let s3 = with_field(s2, " read="@, i.counts.ext4_lock_read_hold_ticks);
    let s4 = with_field(s3, " write="@, i.counts.ext4_lock_write_hold_ticks);
    let s5 = with_field(s4, " readdir="@, i.counts.ext4_lock_readdir_hold_ticks);
    let s6 = with_field(s5, " namespace="@, i.counts.ext4_lock_namespace_hold_ticks);
    let s7 = with_field(s6, " attributes="@, i.counts.ext4_lock_attributes_hold_ticks);
    let s8 = with_field(s7, " superblock="@, i.counts.ext4_lock_superblock_hold_ticks);
    s8 + "\n"@
}

fn push_ext4_lock_hold_by_class_stat(out: &mut String, i: &Report)
    ensures
        final(out)@ == with_ext4_lock_hold_by_class_stat(old(out)@, *i),
{
    push_field(out, "ext4_lock_hold_by_class_stat=", i.counts.ext4_lock_stat_hold_ticks);
    push_field(out, " lookup=", i.counts.ext4_lock_lookup_hold_ticks);
    push_field(out, " read=", i.counts.ext4_lock_read_hold_ticks);
    push_field(out, " write=", i.counts.ext4_lock_write_hold_ticks);
    push_field(out, " readdir=", i.counts.ext4_lock_readdir_hold_ticks);
    push_field(out, " namespace=", i.counts.ext4_lock_namespace_hold_ticks);
    push_field(out, " attributes=", i.counts.ext4_lock_attributes_hold_ticks);
    push_field(out, " superblock=", i.counts.ext4_lock_superblock_hold_ticks);
    out.append("\n");
}

/// The report with the line about: calls below the lock.
pub open spec fn with_ext4_profiled_lower_calls(s: Seq<char>, i: Report) -> Seq<char> {
    let s1 = with_field(s, "ext4_profiled_lower_calls="@, i.counts.ext4_lower_calls);
    let s2 = with_field(s1, " ticks="@, i.counts.ext4_lower_ticks);
    let s3 = with_field(s2, " by_class_stat="@, i.counts.ext4_lower_stat_calls);
    let s4 = with_field(s3, " lookup="@, i.counts.ext4_lower_lookup_calls);
    let s5 = with_field(s4, " read="@, i.counts.ext4_lower_read_calls);
    let s6 = with_field(s5, " write="@, i.counts.ext4_lower_write_calls);
    let s7 = with_field(s6, " readdir="@, i.counts.ext4_lower_readdir_calls);
    let s8 = with_field(s7, " namespace="@, i.counts.ext4_lower_namespace_calls);
    let s9 = with_field(s8, " attributes="@, i.counts.ext4_lower_attributes_calls);
    let s10 = with_field(s9, " superblock="@, i.counts.ext4_lower_superblock_calls);
    s10 + "\n"@
}

fn push_ext4_profiled_lower_calls(out: &mut String, i: &Report)
    ensures
        final(out)@ == with_ext4_profiled_lower_calls(old(out)@, *i),
{
    push_field(out, "ext4_profiled_lower_calls=", i.counts.ext4_lower_calls);
    push_field(out, " ticks=", i.counts.ext4_lower_ticks);
    push_field(out, " by_class_stat=", i.counts.ext4_lower_stat_calls);
    push_field(out, " lookup=", i.counts.ext4_lower_lookup_calls);
    push_field(out, " read=", i.counts.ext4_lower_read_calls);
    push_field(out, " write=", i.counts.ext4_lower_write_calls);
    push_field(out, " readdir=", i.counts.ext4_lower_readdir_calls);
    push_field(out, " namespace=", i.counts.ext4_lower_namespace_calls);
    push_field(out, " attributes=", i.counts.ext4_lower_attributes_calls);
    push_field(out, " superblock=", i.counts.ext4_lower_superblock_calls);
    out.append("\n");
}

/// The report with the line about: time below the lock by kind of operation.
pub open spec fn with_ext4_profiled_lower_ticks_by_class_stat(s: Seq<char>, i: Report) -> Seq<char> {
    let s1 = with_field(s, "ext4_profiled_lower_ticks_by_class_stat="@, i.counts.ext4_lower_stat_ticks);
    let s2 = with_field(s1, " lookup="@, i.counts.ext4_lower_lookup_ticks);
    let s3 = with_field(s2, " read="@, i.counts.ext4_lower_read_ticks);
    let s4 = with_field(s3, " write="@, i.counts.ext4_lower_write_ticks);
    let s5 = with_field(s4, " readdir="@, i.counts.ext4_lower_readdir_ticks);
    let s6 = with_field(s5, " namespace="@, i.counts.ext4_lower_namespace_ticks);
    let s7 = with_field(s6, " attributes="@, i.counts.ext4_lower_attributes_ticks);
    let s8 = with_field(s7, " superblock="@, i.counts.ext4_lower_superblock_ticks);
    s8 + "\n"@
}

fn push_ext4_profiled_lower_ticks_by_class_stat(out: &mut String, i: &Report)
    ensures
        final(out)@ == with_ext4_profiled_lower_ticks_by_class_stat(old(out)@, *i),
{
    push_field(out, "ext4_profiled_lower_ticks_by_class_stat=", i.counts.ext4_lower_stat_ticks);
    push_field(out, " lookup=", i.counts.ext4_lower_lookup_ticks);
    push_field(out, " read=", i.counts.ext4_lower_read_ticks);
    push_field(out, " write=", i.counts.ext4_lower_write_ticks);
    push_field(out, " readdir=", i.counts.ext4_lower_readdir_ticks);
    push_field(out, " namespace=", i.counts.ext4_lower_namespace_ticks);
    push_field(out, " attributes=", i.counts.ext4_lower_attributes_ticks);
    push_field(out, " superblock=", i.counts.ext4_lower_superblock_ticks);
    out.append("\n");
}

/// The report with the line about: operations of the file system.
pub open spec fn with_ext4_ops_stat_calls(s: Seq<char>, i: Report) -> Seq<char> {
    let s1 = with_field(s, "ext4_ops_stat_calls="@, i.counts.ext4_stat_calls);
    let s2 = with_field(s1, " stat_ticks="@, i.counts.ext4_stat_ticks);
    let s3 = with_field(s2, " stat_cache_hits="@, i.counts.ext4_stat_cache_hits);
    let s4 = with_field(s3, " stat_cache_misses="@, i.counts.ext4_stat_cache_misses);
    let s5 = with_field(s4, " stat_cache_refills="@, i.counts.ext4_stat_cache_refills);
    let s6 = with_field(s5, " stat_cache_uncacheable="@, i.counts.ext4_stat_cache_uncacheable);
    let s7 = with_field(s6, " stat_cache_invalidations="@, i.counts.ext4_stat_cache_invalidations);
    let s8 = with_field(s7, " lookup_calls="@, i.counts.ext4_lookup_calls);
    let s9 = with_field(s8, " lookup_ticks="@, i.counts.ext4_lookup_ticks);
    let s10 = with_field(s9, " readdir_calls="@, i.counts.ext4_readdir_calls);
    let s11 = with_field(s10, " readdir_ticks="@, i.counts.ext4_readdir_ticks);
    let s12 = with_field(s11, " readdir_dirent_type_known="@, i.counts.ext4_readdir_dirent_type_known);
    let s13 = with_field(s12, " readdir_dirent_type_unknown="@, i.counts.ext4_readdir_dirent_type_unknown);
    let s14 = with_field(s13, " create_calls="@, i.counts.ext4_create_calls);
    let s15 = with_field(s14, " create_ticks="@, i.counts.ext4_create_ticks);
    let s16 = with_field(s15, " write_calls="@, i.counts.ext4_write_calls);
    let s17 = with_field(s16, " write_ticks="@, i.counts.ext4_write_ticks);
    s17 + "\n"@
}

fn push_ext4_ops_stat_calls(out: &mut String, i: &Report)
    ensures
        final(out)@ == with_ext4_ops_stat_calls(old(out)@, *i),
{
    push_field(out, "ext4_ops_stat_calls=", i.counts.ext4_stat_calls);
    push_field(out, " stat_ticks=", i.counts.ext4_stat_ticks);
    push_field(out, " stat_cache_hits=", i.counts.ext4_stat_cache_hits);
    push_field(out, " stat_cache_misses=", i.counts.ext4_stat_cache_misses);
    push_field(out, " stat_cache_refills=", i.counts.ext4_stat_cache_refills);
    push_field(out, " stat_cache_uncacheable=", i.counts.ext4_stat_cache_uncacheable);
    push_field(out, " stat_cache_invalidations=", i.counts.ext4_stat_cache_invalidations);
    push_field(out, " lookup_calls=", i.counts.ext4_lookup_calls);
    push_field(out, " lookup_ticks=", i.counts.ext4_lookup_ticks);
    push_field(out, " readdir_calls=", i.counts.ext4_readdir_calls);
    push_field(out, " readdir_ticks=", i.counts.ext4_readdir_ticks);
    push_field(out, " readdir_dirent_type_known=", i.counts.ext4_readdir_dirent_type_known);
    push_field(out, " readdir_dirent_type_unknown=", i.counts.ext4_readdir_dirent_type_unknown);
    push_field(out, " create_calls=", i.counts.ext4_create_calls);
    push_field(out, " create_ticks=", i.counts.ext4_create_ticks);
    push_field(out, " write_calls=", i.counts.ext4_write_calls);
    push_field(out, " write_ticks=", i.counts.ext4_write_ticks);
    out.append("\n");
}

/// The report with the line about: changes of attributes.
pub open spec fn with_ext4_attributes_set_times_calls(s: Seq<char>, i: Report) -> Seq<char> {
    let s1 = with_field(s, "ext4_attributes_set_times_calls="@, i.counts.ext4_set_times_calls);
    let s2 = with_field(s1, " atime_updates="@, i.counts.ext4_set_times_atime_updates);
    let s3 = with_field(s2, " mtime_updates="@, i.counts.ext4_set_times_mtime_updates);
    let s4 = with_field(s3, " set_mode_calls="@, i.counts.ext4_set_mode_calls);
    let s5 = with_field(s4, " set_owner_calls="@, i.counts.ext4_set_owner_calls);
    s5 + "\n"@
}

fn push_ext4_attributes_set_times_calls(out: &mut String, i: &Report)
    ensures
        final(out)@ == with_ext4_attributes_set_times_calls(old(out)@, *i),
{
    push_field(out, "ext4_attributes_set_times_calls=", i.counts.ext4_set_times_calls);
    push_field(out, " atime_updates=", i.counts.ext4_set_times_atime_updates);
    push_field(out, " mtime_updates=", i.counts.ext4_set_times_mtime_updates);
    push_field(out, " set_mode_calls=", i.counts.ext4_set_mode_calls);
    push_field(out, " set_owner_calls=", i.counts.ext4_set_owner_calls);
    out.append("\n");
}

/// The report with the line about: use of the heap.
pub open spec fn with_heap_alloc_calls(s: Seq<char>, i: Report) -> Seq<char> {
    let s1 = with_field(s, "heap_alloc_calls="@, i.all.alloc_calls);
    let s2 = with_field(s1, " heap_dealloc_calls="@, i.all.dealloc_calls);
    let s3 = with_field(s2, " heap_alloc_bytes="@, i.all.alloc_bytes);
    let s4 = with_field(s3, " heap_dealloc_bytes="@, i.all.dealloc_bytes);
    let s5 = with_field(s4, " heap_current_bytes="@, i.sys.heap_current_bytes);
    let s6 = with_field(s5, " heap_peak_bytes="@, i.sys.heap_peak_bytes);
    s6 + "\n"@
}

fn push_heap_alloc_calls(out: &mut String, i: &Report)
    ensures
        final(out)@ == with_heap_alloc_calls(old(out)@, *i),
{
    push_field(out, "heap_alloc_calls=", i.all.alloc_calls);
    push_field(out, " heap_dealloc_calls=", i.all.dealloc_calls);
    push_field(out, " heap_alloc_bytes=", i.all.alloc_bytes);
    push_field(out, " heap_dealloc_bytes=", i.all.dealloc_bytes);
    push_field(out, " heap_current_bytes=", i.sys.heap_current_bytes);
    push_field(out, " heap_peak_bytes=", i.sys.heap_peak_bytes);
    out.append("\n");
}

/// The report with the line about: magazine of the heap.
pub open spec fn with_heap_peak_exact(s: Seq<char>, i: Report) -> Seq<char> {
    let s1 = with_field(s, "heap_peak_exact="@, flag(i.sys.heap_peak_exact));
    let s2 = with_field(s1, " heap_magazine_enabled="@, flag(i.sys.heap_magazine));
    let s3 = with_field(s2, " heap_magazine_cached_bytes="@, (if i.sys.heap_magazine { i.sys.magazine_cached_bytes } else { 0 }));
    let s4 = with_field(s3, " heap_magazine_cached_peak_upper_bound_bytes="@, (if i.sys.heap_magazine { i.sys.magazine_cached_peak_bytes } else { 0 }));
    s4 + "\n"@
}

fn push_heap_peak_exact(out: &mut String, i: &Report)
    ensures
        final(out)@ == with_heap_peak_exact(old(out)@, *i),
{
    push_field(out, "heap_peak_exact=", flag_value(i.sys.heap_peak_exact));
    push_field(out, " heap_magazine_enabled=", flag_value(i.sys.heap_magazine));
    push_field(out, " heap_magazine_cached_bytes=", if i.sys.heap_magazine { i.sys.magazine_cached_bytes } else { 0 });
    push_field(out, " heap_magazine_cached_peak_upper_bound_bytes=", if i.sys.heap_magazine { i.sys.magazine_cached_peak_bytes } else { 0 });
    out.append("\n");
}

/// The report with the line about: cache of directory entries.
pub open spec fn with_dentry_cache_hits(s: Seq<char>, i: Report) -> Seq<char> {
    let s1 = with_field(s, "dentry_cache_hits="@, i.counts.dentry_cache_hits);
    let s2 = with_field(s1, " dentry_cache_misses="@, i.counts.dentry_cache_misses);
    let s3 = with_field(s2, " dentry_cache_evictions="@, i.counts.dentry_cache_evictions);
    s3 + "\n"@
}

fn push_dentry_cache_hits(out: &mut String, i: &Report)
    ensures
        final(out)@ == with_dentry_cache_hits(old(out)@, *i),
{
    push_field(out, "dentry_cache_hits=", i.counts.dentry_cache_hits);
    push_field(out, " dentry_cache_misses=", i.counts.dentry_cache_misses);
    push_field(out, " dentry_cache_evictions=", i.counts.dentry_cache_evictions);
    out.append("\n");
}

/// The report with the line about: time spent in the heap.
pub open spec fn with_heap_alloc_ticks(s: Seq<char>, i: Report) -> Seq<char> {
    let s1 = with_field(s, "heap_alloc_ticks="@, i.totals.alloc_ticks);
    let s2 = with_field(s1, " heap_dealloc_ticks="@, i.totals.dealloc_ticks);
    let s3 = with_field(s2, " heap_max_alloc_ticks="@, i.totals.max_alloc_ticks);
    let s4 = with_field(s3, " heap_max_dealloc_ticks="@, i.totals.max_dealloc_ticks);
    let s5 = with_field(s4, " heap_high_alignment_allocs="@, i.totals.high_alignment_allocs);
    let s6 = with_field(s5, " clock_hz="@, i.sys.clock_hz);
    s6 + "\n"@
}

fn push_heap_alloc_ticks(out: &mut String, i: &Report)
    ensures
        final(out)@ == with_heap_alloc_ticks(old(out)@, *i),
{
    push_field(out, "heap_alloc_ticks=", i.totals.alloc_ticks);
    push_field(out, " heap_dealloc_ticks=", i.totals.dealloc_ticks);
    push_field(out, " heap_max_alloc_ticks=", i.totals.max_alloc_ticks);
    push_field(out, " heap_max_dealloc_ticks=", i.totals.max_dealloc_ticks);
    push_field(out, " heap_high_alignment_allocs=", i.totals.high_alignment_allocs);
    push_field(out, " clock_hz=", i.sys.clock_hz);
    out.append("\n");
}

/// The report with the line about: samples of the time spent in the heap.
pub open spec fn with_heap_timing_sample_rate(s: Seq<char>, i: Report) -> Seq<char> {
    let s1 = with_field(s, "heap_timing_sample_rate="@, HEAP_TIMING_SAMPLE_RATE);
    let s2 = with_field(s1, " heap_alloc_timing_samples="@, i.totals.alloc_timing_samples);
    let s3 = with_field(s2, " heap_dealloc_timing_samples="@, i.totals.dealloc_timing_samples);
    s3 + " heap_timing_estimated=1\n"@
}

fn push_heap_timing_sample_rate(out: &mut String, i: &Report)
    ensures
        final(out)@ == with_heap_timing_sample_rate(old(out)@, *i),
{
    push_field(out, "heap_timing_sample_rate=", HEAP_TIMING_SAMPLE_RATE);
    push_field(out, " heap_alloc_timing_samples=", i.totals.alloc_timing_samples);
    push_field(out, " heap_dealloc_timing_samples=", i.totals.dealloc_timing_samples);
    out.append(" heap_timing_estimated=1\n");
}

/// The report with the line about: hits in the magazine of the heap.
pub open spec fn with_heap_magazine_hits(s: Seq<char>, i: Report) -> Seq<char> {
    let s1 = with_field(s, "heap_magazine_hits="@, i.totals.magazine_hits);
    let s2 = with_field(s1, " misses="@, i.totals.magazine_misses);
    let s3 = with_field(s2, " cached_frees="@, i.totals.magazine_cached_frees);
    let s4 = with_field(s3, " refill_blocks="@, i.totals.magazine_refill_blocks);
    let s5 = with_field(s4, " overflow_returns="@, i.totals.magazine_overflow_returns);
    let s6 = with_field(s5, " reclaim_blocks="@, i.totals.magazine_reclaim_blocks);
    s6 + "\n"@
}

fn push_heap_magazine_hits(out: &mut String, i: &Report)
    ensures
        final(out)@ == with_heap_magazine_hits(old(out)@, *i),
{
    push_field(out, "heap_magazine_hits=", i.totals.magazine_hits);
    push_field(out, " misses=", i.totals.magazine_misses);
    push_field(out, " cached_frees=", i.totals.magazine_cached_frees);
    push_field(out, " refill_blocks=", i.totals.magazine_refill_blocks);
    push_field(out, " overflow_returns=", i.totals.magazine_overflow_returns);
    push_field(out, " reclaim_blocks=", i.totals.magazine_reclaim_blocks);
    out.append("\n");
}

/// The report with the line about: lock of the heap.
pub open spec fn with_heap_alloc_lock_wait_ticks(s: Seq<char>, i: Report) -> Seq<char> {
    let s1 = with_field(s, "heap_alloc_lock_wait_ticks="@, i.all.alloc_wait_ticks);
    let s2 = with_field(s1, " heap_dealloc_lock_wait_ticks="@, i.all.dealloc_wait_ticks);
    let s3 = with_field(s2, " heap_alloc_core_ticks="@, i.all.alloc_core_ticks);
    let s4 = with_field(s3, " heap_dealloc_core_ticks="@, i.all.dealloc_core_ticks);
    s4 + "\n"@
}

fn push_heap_alloc_lock_wait_ticks(out: &mut String, i: &Report)
    ensures
        final(out)@ == with_heap_alloc_lock_wait_ticks(old(out)@, *i),
{
    push_field(out, "heap_alloc_lock_wait_ticks=", i.all.alloc_wait_ticks);
    push_field(out, " heap_dealloc_lock_wait_ticks=", i.all.dealloc_wait_ticks);
    push_field(out, " heap_alloc_core_ticks=", i.all.alloc_core_ticks);
    push_field(out, " heap_dealloc_core_ticks=", i.all.dealloc_core_ticks);
    out.append("\n");
}

/// The report with the line about: one class of the heap.
pub open spec fn with_heap_class(s: Seq<char>, n: usize, c: HeapClass) -> Seq<char> {
    let s1 = with_field(s, "heap_class="@, n);
    let s2 = with_field(s1, " upper="@, shown_bound(n as int));
    let s3 = with_field(s2, " alloc_calls="@, c.alloc_calls);
    let s4 = with_field(s3, " dealloc_calls="@, c.dealloc_calls);
    let s5 = with_field(s4, " alloc_bytes="@, c.alloc_bytes);
    let s6 = with_field(s5, " dealloc_bytes="@, c.dealloc_bytes);
    let s7 = with_field(s6, " alloc_wait_ticks="@, c.alloc_wait_ticks);
    let s8 = with_field(s7, " dealloc_wait_ticks="@, c.dealloc_wait_ticks);
    let s9 = with_field(s8, " alloc_core_ticks="@, c.alloc_core_ticks);
    let s10 = with_field(s9, " dealloc_core_ticks="@, c.dealloc_core_ticks);
    s10 + "\n"@
}

fn push_heap_class(out: &mut String, n: usize, c: &HeapClass)
    requires
        n < HEAP_CLASS_COUNT,
    ensures
        final(out)@ == with_heap_class(old(out)@, n, *c),
{
    push_field(out, "heap_class=", n);
    push_field(out, " upper=", bound_shown(n));
    push_field(out, " alloc_calls=", c.alloc_calls);
    push_field(out, " dealloc_calls=", c.dealloc_calls);
    push_field(out, " alloc_bytes=", c.alloc_bytes);
    push_field(out, " dealloc_bytes=", c.dealloc_bytes);
    push_field(out, " alloc_wait_ticks=", c.alloc_wait_ticks);
    push_field(out, " dealloc_wait_ticks=", c.dealloc_wait_ticks);
    push_field(out, " alloc_core_ticks=", c.alloc_core_ticks);
    push_field(out, " dealloc_core_ticks=", c.dealloc_core_ticks);
    out.append("\n");
}

/// The report with the line about: all classes of the heap.
pub open spec fn with_heap_class_totals(s: Seq<char>, i: Report) -> Seq<char> {
    let s1 = with_field(s, "heap_class_totals alloc_calls="@, i.all.alloc_calls);
    let s2 = with_field(s1, " dealloc_calls="@, i.all.dealloc_calls);
    let s3 = with_field(s2, " alloc_bytes="@, i.all.alloc_bytes);
    let s4 = with_field(s3, " dealloc_bytes="@, i.all.dealloc_bytes);
    let s5 = with_field(s4, " alloc_wait_ticks="@, i.all.alloc_wait_ticks);
    let s6 = with_field(s5, " dealloc_wait_ticks="@, i.all.dealloc_wait_ticks);
    let s7 = with_field(s6, " alloc_core_ticks="@, i.all.alloc_core_ticks);
    let s8 = with_field(s7, " dealloc_core_ticks="@, i.all.dealloc_core_ticks);
    let s9 = with_field(s8, " match_totals="@, 1);
    s9 + "\n"@
}

fn push_heap_class_totals(out: &mut String, i: &Report)
    ensures
        final(out)@ == with_heap_class_totals(old(out)@, *i),
{
    push_field(out, "heap_class_totals alloc_calls=", i.all.alloc_calls);
    push_field(out, " dealloc_calls=", i.all.dealloc_calls);
    push_field(out, " alloc_bytes=", i.all.alloc_bytes);
    push_field(out, " dealloc_bytes=", i.all.dealloc_bytes);
    push_field(out, " alloc_wait_ticks=", i.all.alloc_wait_ticks);
    push_field(out, " dealloc_wait_ticks=", i.all.dealloc_wait_ticks);
    push_field(out, " alloc_core_ticks=", i.all.alloc_core_ticks);
    push_field(out, " dealloc_core_ticks=", i.all.dealloc_core_ticks);
    push_field(out, " match_totals=", 1);
    out.append("\n");
}

/// The report with the line about: allocation of frames.
pub open spec fn with_frame_alloc_calls(s: Seq<char>, i: Report) -> Seq<char> {
    let s1 = with_field(s, "frame_alloc_calls="@, i.counts.frame_alloc_calls);
    let s2 = with_field(s1, " failures="@, i.counts.frame_alloc_failures);
    let s3 = with_field(s2, " alloc_ticks="@, i.counts.frame_alloc_ticks);
    let s4 = with_field(s3, " lock_wait_ticks="@, i.counts.frame_alloc_lock_wait_ticks);
    let s5 = with_field(s4, " core_ticks="@, i.counts.frame_alloc_core_ticks);
    let s6 = with_field(s5, " clear_ticks="@, i.counts.frame_alloc_clear_ticks);
    let s7 = with_field(s6, " max_ticks="@, i.counts.frame_alloc_max_ticks);
    s7 + "\n"@
}

fn push_frame_alloc_calls(out: &mut String, i: &Report)
    ensures
        final(out)@ == with_frame_alloc_calls(old(out)@, *i),
{
    push_field(out, "frame_alloc_calls=", i.counts.frame_alloc_calls);
    push_field(out, " failures=", i.counts.frame_alloc_failures);
    push_field(out, " alloc_ticks=", i.counts.frame_alloc_ticks);
    push_field(out, " lock_wait_ticks=", i.counts.frame_alloc_lock_wait_ticks);
    push_field(out, " core_ticks=", i.counts.frame_alloc_core_ticks);
    push_field(out, " clear_ticks=", i.counts.frame_alloc_clear_ticks);
    push_field(out, " max_ticks=", i.counts.frame_alloc_max_ticks);
    out.append("\n");
}

/// The report with the line about: release of frames.
pub open spec fn with_frame_dealloc_calls(s: Seq<char>, i: Report) -> Seq<char> {
    let s1 = with_field(s, "frame_dealloc_calls="@, i.counts.frame_dealloc_calls);
    let s2 = with_field(s1, " dealloc_ticks="@, i.counts.frame_dealloc_ticks);
    let s3 = with_field(s2, " lock_wait_ticks="@, i.counts.frame_dealloc_lock_wait_ticks);
    let s4 = with_field(s3, " core_ticks="@, i.counts.frame_dealloc_core_ticks);
    let s5 = with_field(s4, " max_ticks="@, i.counts.frame_dealloc_max_ticks);
    s5 + "\n"@
}

fn push_frame_dealloc_calls(out: &mut String, i: &Report)
    ensures
        final(out)@ == with_frame_dealloc_calls(old(out)@, *i),
{
    push_field(out, "frame_dealloc_calls=", i.counts.frame_dealloc_calls);
    push_field(out, " dealloc_ticks=", i.counts.frame_dealloc_ticks);
    push_field(out, " lock_wait_ticks=", i.counts.frame_dealloc_lock_wait_ticks);
    push_field(out, " core_ticks=", i.counts.frame_dealloc_core_ticks);
    push_field(out, " max_ticks=", i.counts.frame_dealloc_max_ticks);
    out.append("\n");
}

/// The report with the line about: copies from and to user memory.
pub open spec fn with_copy_from_user_calls(s: Seq<char>, i: Report) -> Seq<char> {
    let s1 = with_field(s, "copy_from_user_calls="@, i.counts.copy_from_user_calls);
    let s2 = with_field(s1, " copy_from_user_bytes="@, i.counts.copy_from_user_bytes);
    let s3 = with_field(s2, " copy_from_user_ticks="@, i.counts.copy_from_user_ticks);
    let s4 = with_field(s3, " copy_to_user_calls="@, i.counts.copy_to_user_calls);
    let s5 = with_field(s4, " copy_to_user_bytes="@, i.counts.copy_to_user_bytes);
    let s6 = with_field(s5, " copy_to_user_ticks="@, i.counts.copy_to_user_ticks);
    s6 + "\n"@
}

fn push_copy_from_user_calls(out: &mut String, i: &Report)
    ensures
        final(out)@ == with_copy_from_user_calls(old(out)@, *i),
{
    push_field(out, "copy_from_user_calls=", i.counts.copy_from_user_calls);
    push_field(out, " copy_from_user_bytes=", i.counts.copy_from_user_bytes);
    push_field(out, " copy_from_user_ticks=", i.counts.copy_from_user_ticks);
    push_field(out, " copy_to_user_calls=", i.counts.copy_to_user_calls);
    push_field(out, " copy_to_user_bytes=", i.counts.copy_to_user_bytes);
    push_field(out, " copy_to_user_ticks=", i.counts.copy_to_user_ticks);
    out.append("\n");
}

/// The report up to the classes of the heap.
#[verifier::opaque]
pub open spec fn with_system(s: Seq<char>, i: Report) -> Seq<char> {
    let s1 = with_file_closes(s, i);
    let s2 = with_block_read_requests(s1, i);
    let s3 = with_block_read_sizes_le512(s2, i);
    let s4 = with_virtio_bounce_calls(s3, i);
    let s5 = with_page_cache_hits(s4, i);
    let s6 = with_page_cache_fill_calls(s5, i);
    let s7 = with_page_cache_fill_candidate_pages(s6, i);
    let s8 = with_page_cache_pages(s7, i);
    let s9 = with_anonymous_faults(s8, i);
    let s10 = with_context_switches(s9, i);
    let s11 = with_local_sfence_ticks(s10, i);
    let s12 = with_tlb_shootdown_all_requests(s11, i);
    let s13 = with_remote_rfence_target_harts(s12, i);
    let s14 = with_scheduler_lock_acquisitions(s13, i);
    let s15 = with_concurrency_samples(s14, i);
    let s16 = with_user_traps(s15, i);
    let s17 = with_yield_breakdown_fs(s16, i);
    let s18 = with_net_yield_breakdown_unix(s17, i);
    let s19 = with_ext4_lock_acquisitions(s18, i);
    let s20 = with_ext4_lock_acquisitions_by_class_stat(s19, i);
    let s21 = with_ext4_lock_wait_by_class_stat(s20, i);
    let s22 = with_ext4_lock_hold_by_class_stat(s21, i);
    let s23 = with_ext4_profiled_lower_calls(s22, i);
    let s24 = with_ext4_profiled_lower_ticks_by_class_stat(s23, i);
    let s25 = with_ext4_ops_stat_calls(s24, i);
    let s26 = with_ext4_attributes_set_times_calls(s25, i);
    let s27 = with_heap_alloc_calls(s26, i);
    let s28 = with_heap_peak_exact(s27, i);
    let s29 = with_dentry_cache_hits(s28, i);
    let s30 = with_heap_alloc_ticks(s29, i);
    let s31 = with_heap_timing_sample_rate(s30, i);
    let s32 = with_heap_magazine_hits(s31, i);
    let s33 = with_heap_alloc_lock_wait_ticks(s32, i);
    s33
}

/// The report with the first `n` classes of the heap.
pub open spec fn with_classes(s: Seq<char>, classes: Seq<HeapClass>, n: nat) -> Seq<char>
    decreases n,
{
    if n == 0 {
        s
    } else {
        with_heap_class(with_classes(s, classes, (n - 1) as nat), (n - 1) as usize, classes[n - 1])
    }
}

/// The rest of the report.
#[verifier::opaque]
pub open spec fn with_memory_counts(s: Seq<char>, i: Report) -> Seq<char> {
    let s1 = with_heap_class_totals(s, i);
    let s2 = with_frame_alloc_calls(s1, i);
    let s3 = with_frame_dealloc_calls(s2, i);
    let s4 = with_copy_from_user_calls(s3, i);
    s4
}

fn push_system(out: &mut String, i: &Report)
    ensures
        final(out)@ == with_system(old(out)@, *i),
{
    proof {
        reveal(with_system);
    }
    push_file_closes(out, i);
    push_block_read_requests(out, i);
    push_block_read_sizes_le512(out, i);
    push_virtio_bounce_calls(out, i);
    push_page_cache_hits(out, i);
    push_page_cache_fill_calls(out, i);
    push_page_cache_fill_candidate_pages(out, i);
    push_page_cache_pages(out, i);
    push_anonymous_faults(out, i);
    push_context_switches(out, i);
    push_local_sfence_ticks(out, i);
    push_tlb_shootdown_all_requests(out, i);
    push_remote_rfence_target_harts(out, i);
    push_scheduler_lock_acquisitions(out, i);
    push_concurrency_samples(out, i);
    push_user_traps(out, i);
    push_yield_breakdown_fs(out, i);
    push_net_yield_breakdown_unix(out, i);
    push_ext4_lock_acquisitions(out, i);
    push_ext4_lock_acquisitions_by_class_stat(out, i);
    push_ext4_lock_wait_by_class_stat(out, i);
    push_ext4_lock_hold_by_class_stat(out, i);
    push_ext4_profiled_lower_calls(out, i);
    push_ext4_profiled_lower_ticks_by_class_stat(out, i);
    push_ext4_ops_stat_calls(out, i);
    push_ext4_attributes_set_times_calls(out, i);
    push_heap_alloc_calls(out, i);
    push_heap_peak_exact(out, i);
    push_dentry_cache_hits(out, i);
    push_heap_alloc_ticks(out, i);
    push_heap_timing_sample_rate(out, i);
    push_heap_magazine_hits(out, i);
    push_heap_alloc_lock_wait_ticks(out, i);
}

fn push_memory_counts(out: &mut String, i: &Report)
    ensures
        final(out)@ == with_memory_counts(old(out)@, *i),
{
    proof {
        reveal(with_memory_counts);
    }
    push_heap_class_totals(out, i);
    push_frame_alloc_calls(out, i);
    push_frame_dealloc_calls(out, i);
    push_copy_from_user_calls(out, i);
}

/// The report that is made out of the counters of all processors.
pub open spec fn report_of(c: Counters, harts: Seq<HeapClassCounters>, sys: SystemUse) -> Report {
    Report {
        counts: c.counts,
        sys,
        totals: totals_of_all(harts),
        all: class_total(Seq::new(10, |k: int| class_of_all(harts, k))),
    }
}

/// The whole report.
pub open spec fn report_text(c: Counters, harts: Seq<HeapClassCounters>, sys: SystemUse) -> Seq<char> {
    if c.enabled {
        let i = report_of(c, harts, sys);
        let head = with_system("enabled=1\n"@, i);
        let classes = Seq::new(10, |k: int| class_of_all(harts, k));
        with_memory_counts(with_classes(head, classes, 10), i)
    } else {
        "enabled=0\n"@
    }
}

/// The report about all counters, one line after the other.
pub fn render(c: &Counters, harts: &Vec<HeapClassCounters>, sys: SystemUse) -> (r: String)
    requires
        forall|h: int| 0 <= h < harts@.len() ==> (#[trigger] harts@[h]).wf(),
    ensures
        r@ == report_text(*c, harts@, sys),
{
    if !c.enabled {
        return String::from_str("enabled=0\n");
    }
    let heap = heap_class_snapshot(harts);
    let i = Report { counts: c.snapshot(), sys, totals: heap.totals, all: sum_classes(&heap.classes) };
    let mut out = String::from_str("enabled=1\n");
    push_system(&mut out, &i);
    let ghost head = out@;
    proof {
        assert(heap.classes@ =~= Seq::new(10, |k: int| class_of_all(harts@, k)));
    }
    let mut n: usize = 0;
    while n < HEAP_CLASS_COUNT
        invariant
            n <= HEAP_CLASS_COUNT,
            heap.classes@.len() == HEAP_CLASS_COUNT,
            out@ == with_classes(head, heap.classes@, n as nat),
        decreases HEAP_CLASS_COUNT - n,
    {
        push_heap_class(&mut out, n, &heap.classes[n]);
        n = n + 1;
    }
    push_memory_counts(&mut out, &i);
    out
}

/// Starts all counts anew. The dirty pages that there are now are the most so
/// far.
pub fn reset(c: &mut Counters, harts: &mut Vec<HeapClassCounters>, dirty_pages: usize)
    ensures
        *final(c) == counted(
            *old(c),
            Snapshot { dirty_pages_peak: dirty_pages, ..nothing_counted() },
        ),
        final(harts)@.len() == old(harts)@.len(),
        !old(c).enabled ==> final(harts)@ == old(harts)@,
        old(c).enabled ==> forall|h: int|
            0 <= h < final(harts)@.len() ==> anew(#[trigger] final(harts)@[h], old(harts)@[h]),
{
    c.reset(dirty_pages);
    if !c.enabled {
        return;
    }
    let ghost before = harts@;
    let mut h: usize = 0;
    while h < harts.len()
        invariant
            h <= harts@.len(),
            harts@.len() == before.len(),
            forall|k: int| 0 <= k < h ==> anew(#[trigger] harts@[k], before[k]),
            forall|k: int| h <= k < harts@.len() ==> harts@[k] == before[k],
        decreases harts@.len() - h,
    {
        let fresh = HeapClassCounters::new(harts[h].enabled);
        harts.set(h, fresh);
        h = h + 1;
    }
}

/// The heap counters of a processor have started anew.
pub open spec fn anew(h: HeapClassCounters, before: HeapClassCounters) -> bool {
    &&& h.wf()
    &&& h.enabled == before.enabled
    &&& h.classes@ == Seq::new(10, |k: int| empty_class())
    &&& h.totals == empty_totals()
    &&& h.timing_sequence == 0
}

/// The rows about files, blocks, caches and faults show each count in decimal behind its own label.
pub proof fn storage_rows_show_their_counts(s: Seq<char>, i: Report)
    ensures
        with_file_closes(s, i) == s
            + "file_closes="@ + decimal(i.counts.file_closes as nat)
            + " close_data_writebacks="@ + decimal(i.counts.close_data_writebacks as nat)
            + " explicit_fsyncs="@ + decimal(i.counts.explicit_fsyncs as nat)
            + " filesystem_flushes="@ + decimal(i.counts.filesystem_flushes as nat) + "\n"@,
        with_block_read_requests(s, i) == s
            + "block_read_requests="@ + decimal(i.counts.block_read_requests as nat)
            + " block_read_bytes="@ + decimal(i.counts.block_read_bytes as nat)
            + " block_read_ticks="@ + decimal(i.counts.block_read_ticks as nat)
            + " block_write_requests="@ + decimal(i.counts.block_write_requests as nat)
            + " block_write_bytes="@ + decimal(i.counts.block_write_bytes as nat)
            + " block_write_ticks="@ + decimal(i.counts.block_write_ticks as nat)
            + " block_flushes="@ + decimal(i.counts.block_flushes as nat) + "\n"@,
        with_block_read_sizes_le512(s, i) == s
            + "block_read_sizes_le512="@ + decimal(i.counts.block_read_512_or_less as nat)
            + " le4k="@ + decimal(i.counts.block_read_4k_or_less as nat)
            + " le64k="@ + decimal(i.counts.block_read_64k_or_less as nat)
            + " gt64k="@ + decimal(i.counts.block_read_over_64k as nat) + "\n"@,
        with_virtio_bounce_calls(s, i) == s
            + "virtio_bounce_calls="@ + decimal(i.sys.bounce.calls as nat)
            + " bytes="@ + decimal(i.sys.bounce.bytes as nat)
            + " copy_to_device_bytes="@ + decimal(i.sys.bounce.copy_to_device_bytes as nat)
            + " copy_from_device_bytes="@ + decimal(i.sys.bounce.copy_from_device_bytes as nat)
            + " allocations="@ + decimal(i.sys.bounce.allocations as nat)
            + " cache_hits="@ + decimal(i.sys.bounce.cache_hits as nat)
            + " share_ticks="@ + decimal(i.sys.bounce.share_ticks as nat)
            + " unshare_ticks="@ + decimal(i.sys.bounce.unshare_ticks as nat)
            + " active_peak="@ + decimal(i.sys.bounce.active_peak as nat)
            + " active="@ + decimal(i.sys.bounce.active as nat)
            + " cached_buffers="@ + decimal(i.sys.bounce.cached_buffers as nat)
            + " cached_bytes="@ + decimal(i.sys.bounce.cached_bytes as nat) + "\n"@,
        with_page_cache_hits(s, i) == s
            + "page_cache_hits="@ + decimal(i.counts.page_cache_hits as nat)
            + " page_cache_misses="@ + decimal(i.counts.page_cache_misses as nat)
            + " page_cache_evictions="@ + decimal(i.counts.page_cache_evictions as nat)
            + " page_cache_writeback_bytes="@ + decimal(i.counts.page_cache_writeback_bytes as nat)
            + " dirty_pages_peak="@ + decimal(i.counts.dirty_pages_peak as nat) + "\n"@,
        with_page_cache_fill_calls(s, i) == s
            + "page_cache_fill_calls="@ + decimal(i.counts.page_cache_fill_calls as nat)
            + " page_cache_fill_bytes="@ + decimal(i.counts.page_cache_fill_bytes as nat)
            + " inode_read_calls="@ + decimal(i.counts.inode_read_calls as nat)
            + " inode_read_requested_bytes="@ + decimal(i.counts.inode_read_requested_bytes as nat)
            + " inode_read_completed_bytes="@ + decimal(i.counts.inode_read_completed_bytes as nat)
            + " inode_read_ticks="@ + decimal(i.counts.inode_read_ticks as nat) + "\n"@,
        with_page_cache_fill_candidate_pages(s, i) == s
            + "page_cache_fill_candidate_pages="@ + decimal(i.counts.page_cache_fill_candidate_pages as nat)
            + " published_pages="@ + decimal(i.counts.page_cache_fill_published_pages as nat)
            + " raced_pages="@ + decimal(i.counts.page_cache_fill_raced_pages as nat) + "\n"@,
        with_page_cache_pages(s, i) == s
            + "page_cache_pages="@ + decimal(i.sys.page_cache_pages as nat)
            + " page_cache_dirty_pages="@ + decimal(i.sys.page_cache_dirty_pages as nat)
            + " page_cache_lru_entries="@ + decimal(i.sys.page_cache_lru_entries as nat)
            + " page_cache_registry="@ + decimal(i.sys.page_cache_registry as nat)
            + " dirty_owners="@ + decimal(i.sys.dirty_owners as nat)
            + " shared_file_page_entries="@ + decimal(i.sys.shared_file_page_entries as nat)
            + " free_frames="@ + decimal(i.sys.free_frames as nat) + "\n"@,
        with_anonymous_faults(s, i) == s
            + "anonymous_faults="@ + decimal(i.counts.anonymous_faults as nat)
            + " private_file_faults="@ + decimal(i.counts.private_file_faults as nat)
            + " shared_file_faults="@ + decimal(i.counts.shared_file_faults as nat)
            + " cow_faults="@ + decimal(i.counts.cow_faults as nat) + "\n"@,
        with_context_switches(s, i) == s
            + "context_switches="@ + decimal(i.counts.context_switches as nat)
            + " local_sfences="@ + decimal(i.counts.local_sfences as nat)
            + " remote_rfences="@ + decimal(i.counts.remote_rfences as nat)
            + " full_tlb_invalidations="@ + decimal(i.counts.full_tlb_invalidations as nat)
            + " asid_tlb_invalidations="@ + decimal(i.counts.asid_tlb_invalidations as nat)
            + " scheduler_ipis="@ + decimal(i.counts.scheduler_ipis as nat)
            + " ipis_received="@ + decimal(i.counts.ipis_received as nat)
            + " scheduler_yields="@ + decimal(i.counts.scheduler_yields as nat)
            + " syscall_yields="@ + decimal(i.counts.syscall_yields as nat)
            + " quiescence_yields="@ + decimal(i.counts.quiescence_yields as nat)
            + " timer_preemptions="@ + decimal(i.counts.timer_preemptions as nat)
            + " blocking_switches="@ + decimal(i.counts.blocking_switches as nat)
            + " task_running_ticks="@ + decimal(i.counts.task_running_ticks as nat)
            + " idle_ticks="@ + decimal(i.counts.idle_ticks as nat) + "\n"@,
        with_local_sfence_ticks(s, i) == s
            + "local_sfence_ticks="@ + decimal(i.counts.local_sfence_ticks as nat)
            + " local_sfence_max_ticks="@ + decimal(i.counts.local_sfence_max_ticks as nat)
            + " tlb_flush_calls="@ + decimal(i.counts.tlb_flush_calls as nat)
            + " tlb_fresh_map_flushes="@ + decimal(i.counts.tlb_fresh_map_flushes as nat)
            + " tlb_cow_flushes="@ + decimal(i.counts.tlb_cow_flushes as nat)
            + " tlb_flush_retired_batches="@ + decimal(i.counts.tlb_flush_retired_batches as nat)
            + " tlb_flush_retired_frames="@ + decimal(i.counts.tlb_flush_retired_frames as nat) + "\n"@,
        with_tlb_shootdown_all_requests(s, i) == s
            + "tlb_shootdown_all_requests="@ + decimal(i.counts.tlb_shootdown_all_requests as nat)
            + " tlb_shootdown_address_space_requests="@ + decimal(i.counts.tlb_shootdown_address_space_requests as nat)
            + " tlb_shootdown_range_requests="@ + decimal(i.counts.tlb_shootdown_range_requests as nat)
            + " tlb_shootdown_range_pages="@ + decimal(i.counts.tlb_shootdown_range_pages as nat)
            + " tlb_shootdown_range_max_pages="@ + decimal(i.counts.tlb_shootdown_range_max_pages as nat)
            + " tlb_shootdown_range_single_page="@ + decimal(i.counts.tlb_shootdown_range_single_page as nat)
            + " tlb_shootdown_range_le16_pages="@ + decimal(i.counts.tlb_shootdown_range_le16_pages as nat)
            + " tlb_shootdown_range_le256_pages="@ + decimal(i.counts.tlb_shootdown_range_le256_pages as nat)
            + " tlb_shootdown_range_gt256_pages="@ + decimal(i.counts.tlb_shootdown_range_gt256_pages as nat)
            + " tlb_shootdown_invalid_requests="@ + decimal(i.counts.tlb_shootdown_invalid_requests as nat) + "\n"@,
        with_remote_rfence_target_harts(s, i) == s
            + "remote_rfence_target_harts="@ + decimal(i.counts.remote_rfence_target_harts as nat)
            + " remote_rfence_empty_requests="@ + decimal(i.counts.remote_rfence_empty_requests as nat)
            + " remote_rfence_wait_ticks="@ + decimal(i.counts.remote_rfence_wait_ticks as nat)
            + " remote_rfence_max_wait_ticks="@ + decimal(i.counts.remote_rfence_max_wait_ticks as nat) + "\n"@,
{
}

/// The rows about scheduling, traps, yields and the file system show each count in decimal behind its own label.
pub proof fn activity_rows_show_their_counts(s: Seq<char>, i: Report)
    ensures
        with_scheduler_lock_acquisitions(s, i) == s
            + "scheduler_lock_acquisitions="@ + decimal(i.counts.scheduler_lock_acquisitions as nat)
            + " scheduler_lock_wait_ticks="@ + decimal(i.counts.scheduler_lock_wait_ticks as nat)
            + " scheduler_lock_max_wait_ticks="@ + decimal(i.counts.scheduler_lock_max_wait_ticks as nat)
            + " scheduler_ready_peak="@ + decimal(i.counts.scheduler_ready_peak as nat) + "\n"@,
        with_concurrency_samples(s, i) == s
            + "concurrency_samples="@ + decimal(i.counts.concurrency_samples as nat)
            + " running_harts_0="@ + decimal(i.counts.running_harts_0 as nat)
            + " running_harts_1="@ + decimal(i.counts.running_harts_1 as nat)
            + " running_harts_2_3="@ + decimal(i.counts.running_harts_2_3 as nat)
            + " running_harts_4_7="@ + decimal(i.counts.running_harts_4_7 as nat)
            + " running_harts_8_plus="@ + decimal(i.counts.running_harts_8_plus as nat)
            + " scheduler_ready_0="@ + decimal(i.counts.scheduler_ready_0 as nat)
            + " scheduler_ready_1="@ + decimal(i.counts.scheduler_ready_1 as nat)
            + " scheduler_ready_2_3="@ + decimal(i.counts.scheduler_ready_2_3 as nat)
            + " scheduler_ready_4_7="@ + decimal(i.counts.scheduler_ready_4_7 as nat)
            + " scheduler_ready_8_plus="@ + decimal(i.counts.scheduler_ready_8_plus as nat) + "\n"@,
        with_user_traps(s, i) == s
            + "user_traps="@ + decimal(i.counts.user_traps as nat)
            + " syscall="@ + decimal(i.counts.user_syscall_traps as nat)
            + " page_fault="@ + decimal(i.counts.user_page_fault_traps as nat)
            + " timer="@ + decimal(i.counts.user_timer_traps as nat)
            + " ipi="@ + decimal(i.counts.user_ipi_traps as nat)
            + " extension_state_eager_saves="@ + decimal(i.counts.extension_state_eager_saves as nat) + "\n"@,
        with_yield_breakdown_fs(s, i) == s
            + "yield_breakdown_fs="@ + decimal(i.counts.fs_yields as nat)
            + " stdio="@ + decimal(i.counts.stdio_yields as nat)
            + " tty="@ + decimal(i.counts.tty_yields as nat)
            + " pipe="@ + decimal(i.counts.pipe_yields as nat)
            + " fs_syscall="@ + decimal(i.counts.fs_syscall_yields as nat)
            + " futex="@ + decimal(i.counts.futex_yields as nat)
            + " net="@ + decimal(i.counts.net_yields as nat)
            + " process="@ + decimal(i.counts.process_yields as nat)
            + " signal_time="@ + decimal(i.counts.signal_time_yields as nat)
            + " special_fd="@ + decimal(i.counts.special_fd_yields as nat) + "\n"@,
        with_net_yield_breakdown_unix(s, i) == s
            + "net_yield_breakdown_unix="@ + decimal(i.counts.unix_socket_yields as nat)
            + " tcp_wait="@ + decimal(i.counts.tcp_wait_yields as nat)
            + " tcp_connect="@ + decimal(i.counts.tcp_connect_yields as nat)
            + " udp_wait="@ + decimal(i.counts.udp_wait_yields as nat) + "\n"@,
        with_ext4_lock_acquisitions(s, i) == s
            + "ext4_lock_acquisitions="@ + decimal(i.counts.ext4_lock_acquisitions as nat)
            + " ext4_lock_wait_ticks="@ + decimal(i.counts.ext4_lock_wait_ticks as nat)
            + " ext4_lock_hold_ticks="@ + decimal(i.counts.ext4_lock_hold_ticks as nat)
            + " ext4_lock_max_wait_ticks="@ + decimal(i.counts.ext4_lock_max_wait_ticks as nat)
            + " ext4_lock_max_hold_ticks="@ + decimal(i.counts.ext4_lock_max_hold_ticks as nat) + "\n"@,
        with_ext4_lock_acquisitions_by_class_stat(s, i) == s
            + "ext4_lock_acquisitions_by_class_stat="@ + decimal(i.counts.ext4_lock_stat_acquisitions as nat)
            + " lookup="@ + decimal(i.counts.ext4_lock_lookup_acquisitions as nat)
            + " read="@ + decimal(i.counts.ext4_lock_read_acquisitions as nat)
            + " write="@ + decimal(i.counts.ext4_lock_write_acquisitions as nat)
            + " readdir="@ + decimal(i.counts.ext4_lock_readdir_acquisitions as nat)
            + " namespace="@ + decimal(i.counts.ext4_lock_namespace_acquisitions as nat)
            + " attributes="@ + decimal(i.counts.ext4_lock_attributes_acquisitions as nat)
            + " superblock="@ + decimal(i.counts.ext4_lock_superblock_acquisitions as nat) + "\n"@,
        with_ext4_lock_wait_by_class_stat(s, i) == s
            + "ext4_lock_wait_by_class_stat="@ + decimal(i.counts.ext4_lock_stat_wait_ticks as nat)
            + " lookup="@ + decimal(i.counts.ext4_lock_lookup_wait_ticks as nat)
            + " read="@ + decimal(i.counts.ext4_lock_read_wait_ticks as nat)
            + " write="@ + decimal(i.counts.ext4_lock_write_wait_ticks as nat)
            + " readdir="@ + decimal(i.counts.ext4_lock_readdir_wait_ticks as nat)
            + " namespace="@ + decimal(i.counts.ext4_lock_namespace_wait_ticks as nat)
            + " attributes="@ + decimal(i.counts.ext4_lock_attributes_wait_ticks as nat)
            + " superblock="@ + decimal(i.counts.ext4_lock_superblock_wait_ticks as nat) + "\n"@,
        with_ext4_lock_hold_by_class_stat(s, i) == s
            + "ext4_lock_hold_by_class_stat="@ + decimal(i.counts.ext4_lock_stat_hold_ticks as nat)
            + " lookup="@ + decimal(i.counts.ext4_lock_lookup_hold_ticks as nat)
            + " read="@ + decimal(i.counts.ext4_lock_read_hold_ticks as nat)
            + " write="@ + decimal(i.counts.ext4_lock_write_hold_ticks as nat)
            + " readdir="@ + decimal(i.counts.ext4_lock_readdir_hold_ticks as nat)
            + " namespace="@ + decimal(i.counts.ext4_lock_namespace_hold_ticks as nat)
            + " attributes="@ + decimal(i.counts.ext4_lock_attributes_hold_ticks as nat)
            + " superblock="@ + decimal(i.counts.ext4_lock_superblock_hold_ticks as nat) + "\n"@,
        with_ext4_profiled_lower_calls(s, i) == s
            + "ext4_profiled_lower_calls="@ + decimal(i.counts.ext4_lower_calls as nat)
            + " ticks="@ + decimal(i.counts.ext4_lower_ticks as nat)
            + " by_class_stat="@ + decimal(i.counts.ext4_lower_stat_calls as nat)
            + " lookup="@ + decimal(i.counts.ext4_lower_lookup_calls as nat)
            + " read="@ + decimal(i.counts.ext4_lower_read_calls as nat)
            + " write="@ + decimal(i.counts.ext4_lower_write_calls as nat)
            + " readdir="@ + decimal(i.counts.ext4_lower_readdir_calls as nat)
            + " namespace="@ + decimal(i.counts.ext4_lower_namespace_calls as nat)
            + " attributes="@ + decimal(i.counts.ext4_lower_attributes_calls as nat)
            + " superblock="@ + decimal(i.counts.ext4_lower_superblock_calls as nat) + "\n"@,
        with_ext4_profiled_lower_ticks_by_class_stat(s, i) == s
            + "ext4_profiled_lower_ticks_by_class_stat="@ + decimal(i.counts.ext4_lower_stat_ticks as nat)
            + " lookup="@ + decimal(i.counts.ext4_lower_lookup_ticks as nat)
            + " read="@ + decimal(i.counts.ext4_lower_read_ticks as nat)
            + " write="@ + decimal(i.counts.ext4_lower_write_ticks as nat)
            + " readdir="@ + decimal(i.counts.ext4_lower_readdir_ticks as nat)
            + " namespace="@ + decimal(i.counts.ext4_lower_namespace_ticks as nat)
            + " attributes="@ + decimal(i.counts.ext4_lower_attributes_ticks as nat)
            + " superblock="@ + decimal(i.counts.ext4_lower_superblock_ticks as nat) + "\n"@,
        with_ext4_ops_stat_calls(s, i) == s
            + "ext4_ops_stat_calls="@ + decimal(i.counts.ext4_stat_calls as nat)
            + " stat_ticks="@ + decimal(i.counts.ext4_stat_ticks as nat)
            + " stat_cache_hits="@ + decimal(i.counts.ext4_stat_cache_hits as nat)
            + " stat_cache_misses="@ + decimal(i.counts.ext4_stat_cache_misses as nat)
            + " stat_cache_refills="@ + decimal(i.counts.ext4_stat_cache_refills as nat)
            + " stat_cache_uncacheable="@ + decimal(i.counts.ext4_stat_cache_uncacheable as nat)
            + " stat_cache_invalidations="@ + decimal(i.counts.ext4_stat_cache_invalidations as nat)
            + " lookup_calls="@ + decimal(i.counts.ext4_lookup_calls as nat)
            + " lookup_ticks="@ + decimal(i.counts.ext4_lookup_ticks as nat)
            + " readdir_calls="@ + decimal(i.counts.ext4_readdir_calls as nat)
            + " readdir_ticks="@ + decimal(i.counts.ext4_readdir_ticks as nat)
            + " readdir_dirent_type_known="@ + decimal(i.counts.ext4_readdir_dirent_type_known as nat)
            + " readdir_dirent_type_unknown="@ + decimal(i.counts.ext4_readdir_dirent_type_unknown as nat)
            + " create_calls="@ + decimal(i.counts.ext4_create_calls as nat)
            + " create_ticks="@ + decimal(i.counts.ext4_create_ticks as nat)
            + " write_calls="@ + decimal(i.counts.ext4_write_calls as nat)
            + " write_ticks="@ + decimal(i.counts.ext4_write_ticks as nat) + "\n"@,
        with_ext4_attributes_set_times_calls(s, i) == s
            + "ext4_attributes_set_times_calls="@ + decimal(i.counts.ext4_set_times_calls as nat)
            + " atime_updates="@ + decimal(i.counts.ext4_set_times_atime_updates as nat)
            + " mtime_updates="@ + decimal(i.counts.ext4_set_times_mtime_updates as nat)
            + " set_mode_calls="@ + decimal(i.counts.ext4_set_mode_calls as nat)
            + " set_owner_calls="@ + decimal(i.counts.ext4_set_owner_calls as nat) + "\n"@,
{
}

/// The rows about memory show each count in decimal behind its own label.
pub proof fn memory_rows_show_their_counts(s: Seq<char>, i: Report)
    ensures
        with_heap_alloc_calls(s, i) == s
            + "heap_alloc_calls="@ + decimal(i.all.alloc_calls as nat)
            + " heap_dealloc_calls="@ + decimal(i.all.dealloc_calls as nat)
            + " heap_alloc_bytes="@ + decimal(i.all.alloc_bytes as nat)
            + " heap_dealloc_bytes="@ + decimal(i.all.dealloc_bytes as nat)
            + " heap_current_bytes="@ + decimal(i.sys.heap_current_bytes as nat)
            + " heap_peak_bytes="@ + decimal(i.sys.heap_peak_bytes as nat) + "\n"@,
        with_heap_peak_exact(s, i) == s
            + "heap_peak_exact="@ + decimal((flag(i.sys.heap_peak_exact)) as nat)
            + " heap_magazine_enabled="@ + decimal((flag(i.sys.heap_magazine)) as nat)
            + " heap_magazine_cached_bytes="@ + decimal(((if i.sys.heap_magazine { i.sys.magazine_cached_bytes } else { 0 })) as nat)
            + " heap_magazine_cached_peak_upper_bound_bytes="@ + decimal(((if i.sys.heap_magazine { i.sys.magazine_cached_peak_bytes } else { 0 })) as nat) + "\n"@,
        with_dentry_cache_hits(s, i) == s
            + "dentry_cache_hits="@ + decimal(i.counts.dentry_cache_hits as nat)
            + " dentry_cache_misses="@ + decimal(i.counts.dentry_cache_misses as nat)
            + " dentry_cache_evictions="@ + decimal(i.counts.dentry_cache_evictions as nat) + "\n"@,
        with_heap_alloc_ticks(s, i) == s
            + "heap_alloc_ticks="@ + decimal(i.totals.alloc_ticks as nat)
            + " heap_dealloc_ticks="@ + decimal(i.totals.dealloc_ticks as nat)
            + " heap_max_alloc_ticks="@ + decimal(i.totals.max_alloc_ticks as nat)
            + " heap_max_dealloc_ticks="@ + decimal(i.totals.max_dealloc_ticks as nat)
            + " heap_high_alignment_allocs="@ + decimal(i.totals.high_alignment_allocs as nat)
            + " clock_hz="@ + decimal(i.sys.clock_hz as nat) + "\n"@,
        with_heap_timing_sample_rate(s, i) == s
            + "heap_timing_sample_rate="@ + decimal(HEAP_TIMING_SAMPLE_RATE as nat)
            + " heap_alloc_timing_samples="@ + decimal(i.totals.alloc_timing_samples as nat)
            + " heap_dealloc_timing_samples="@ + decimal(i.totals.dealloc_timing_samples as nat) + " heap_timing_estimated=1\n"@,
        with_heap_magazine_hits(s, i) == s
            + "heap_magazine_hits="@ + decimal(i.totals.magazine_hits as nat)
            + " misses="@ + decimal(i.totals.magazine_misses as nat)
            + " cached_frees="@ + decimal(i.totals.magazine_cached_frees as nat)
            + " refill_blocks="@ + decimal(i.totals.magazine_refill_blocks as nat)
            + " overflow_returns="@ + decimal(i.totals.magazine_overflow_returns as nat)
            + " reclaim_blocks="@ + decimal(i.totals.magazine_reclaim_blocks as nat) + "\n"@,
        with_heap_alloc_lock_wait_ticks(s, i) == s
            + "heap_alloc_lock_wait_ticks="@ + decimal(i.all.alloc_wait_ticks as nat)
            + " heap_dealloc_lock_wait_ticks="@ + decimal(i.all.dealloc_wait_ticks as nat)
            + " heap_alloc_core_ticks="@ + decimal(i.all.alloc_core_ticks as nat)
            + " heap_dealloc_core_ticks="@ + decimal(i.all.dealloc_core_ticks as nat) + "\n"@,
        with_heap_class_totals(s, i) == s
            + "heap_class_totals alloc_calls="@ + decimal(i.all.alloc_calls as nat)
            + " dealloc_calls="@ + decimal(i.all.dealloc_calls as nat)
            + " alloc_bytes="@ + decimal(i.all.alloc_bytes as nat)
            + " dealloc_bytes="@ + decimal(i.all.dealloc_bytes as nat)
            + " alloc_wait_ticks="@ + decimal(i.all.alloc_wait_ticks as nat)
            + " dealloc_wait_ticks="@ + decimal(i.all.dealloc_wait_ticks as nat)
            + " alloc_core_ticks="@ + decimal(i.all.alloc_core_ticks as nat)
            + " dealloc_core_ticks="@ + decimal(i.all.dealloc_core_ticks as nat)
            + " match_totals="@ + decimal(1 as nat) + "\n"@,
        with_frame_alloc_calls(s, i) == s
            + "frame_alloc_calls="@ + decimal(i.counts.frame_alloc_calls as nat)
            + " failures="@ + decimal(i.counts.frame_alloc_failures as nat)
            + " alloc_ticks="@ + decimal(i.counts.frame_alloc_ticks as nat)
            + " lock_wait_ticks="@ + decimal(i.counts.frame_alloc_lock_wait_ticks as nat)
            + " core_ticks="@ + decimal(i.counts.frame_alloc_core_ticks as nat)
            + " clear_ticks="@ + decimal(i.counts.frame_alloc_clear_ticks as nat)
            + " max_ticks="@ + decimal(i.counts.frame_alloc_max_ticks as nat) + "\n"@,
        with_frame_dealloc_calls(s, i) == s
            + "frame_dealloc_calls="@ + decimal(i.counts.frame_dealloc_calls as nat)
            + " dealloc_ticks="@ + decimal(i.counts.frame_dealloc_ticks as nat)
            + " lock_wait_ticks="@ + decimal(i.counts.frame_dealloc_lock_wait_ticks as nat)
            + " core_ticks="@ + decimal(i.counts.frame_dealloc_core_ticks as nat)
            + " max_ticks="@ + decimal(i.counts.frame_dealloc_max_ticks as nat) + "\n"@,
        with_copy_from_user_calls(s, i) == s
            + "copy_from_user_calls="@ + decimal(i.counts.copy_from_user_calls as nat)
            + " copy_from_user_bytes="@ + decimal(i.counts.copy_from_user_bytes as nat)
            + " copy_from_user_ticks="@ + decimal(i.counts.copy_from_user_ticks as nat)
            + " copy_to_user_calls="@ + decimal(i.counts.copy_to_user_calls as nat)
            + " copy_to_user_bytes="@ + decimal(i.counts.copy_to_user_bytes as nat)
            + " copy_to_user_ticks="@ + decimal(i.counts.copy_to_user_ticks as nat) + "\n"@,
{
}

} // verus!
